use processing::error::ConfigError;
use processing::event::PEvent;
use processing::render::{RendererState, DEFAULT_FPS, NANOS_PER_SEC};
use processing::shape::{normalized_vtx, DrawCall, Ndc, Point, ShaderBuilder, Vertex};

fn ndc(n: Ndc) -> f64 {
    n.num as f64 / n.den as f64
}

#[test]
fn window_size_reads_back() {
    let mut s: RendererState<(), ()> = RendererState::new();
    assert_eq!(s.width(), Err(ConfigError::MissingWidth));
    assert_eq!(s.height(), Err(ConfigError::MissingHeight));
    assert_eq!(s.window_size(), Err(ConfigError::MissingWidth));
    s.create_window(800, 600);
    assert_eq!(s.width(), Ok(800));
    assert_eq!(s.height(), Ok(600));
    assert_eq!(s.window_size(), Ok((800, 600)));
}

#[test]
fn refresh_rate_detection_caps_target() {
    let mut s: RendererState<(), ()> = RendererState::new();
    assert_eq!((s.target_fps, s.max_fps), (DEFAULT_FPS, DEFAULT_FPS));
    s.apply_refresh_rate(None);
    assert_eq!((s.target_fps, s.max_fps), (60, 60));
    s.apply_refresh_rate(Some(144_000));
    assert_eq!((s.target_fps, s.max_fps), (60, 144));
    s.apply_refresh_rate(Some(59_940));
    assert_eq!((s.target_fps, s.max_fps), (59, 59));
    s.apply_refresh_rate(Some(29_970));
    assert_eq!((s.target_fps, s.max_fps), (29, 29));
    s.apply_refresh_rate(Some(999));
    assert_eq!((s.target_fps, s.max_fps), (29, 29));
    s.apply_refresh_rate(Some(120_000));
    assert_eq!((s.target_fps, s.max_fps), (29, 120));
}

#[test]
fn normalized_corners() {
    let a = normalized_vtx(0, 0, 800, 800);
    assert_eq!((ndc(a.x), ndc(a.y)), (-1.0, 1.0));
    let b = normalized_vtx(800, 800, 800, 800);
    assert_eq!((ndc(b.x), ndc(b.y)), (1.0, -1.0));
    let c = normalized_vtx(100, 0, 800, 400);
    assert_eq!(
        c,
        Vertex {
            x: Ndc { num: -600, den: 800 },
            y: Ndc { num: 400, den: 400 },
            z: Ndc { num: 0, den: 1 }
        }
    );
    assert_eq!((ndc(c.x), ndc(c.y)), (-0.75, 1.0));
}

#[test]
fn normalizing_needs_a_window() {
    let mut s: RendererState<(), ()> = RendererState::new();
    assert_eq!(s.normalized_vtx(1, 1), Err(ConfigError::MissingWidth));
    s.create_window(200, 100);
    let v = s.normalized_vtx(50, 75).unwrap();
    assert_eq!((ndc(v.x), ndc(v.y)), (-0.5, -0.5));
}

#[test]
fn no_frame_before_gpu() {
    let s: RendererState<(), ()> = RendererState::new();
    assert!(!s.frame_due(10 * NANOS_PER_SEC));
}

#[test]
fn frames_are_paced_by_target_fps() {
    let mut s: RendererState<u8, ()> = RendererState::new();
    s.init_gpu(0, 1_000);
    let period = NANOS_PER_SEC / 60 + 1;
    assert!(!s.frame_due(1_000 + period - 1));
    assert!(s.frame_due(1_000 + period));
    s.mark_redrawn(1_000 + period);
    assert!(!s.frame_due(1_000 + period + 10));
    assert!(!s.frame_due(500));
}

#[test]
fn two_close_iterations_draw_once() {
    let mut s: RendererState<u8, ()> = RendererState::new();
    s.init_gpu(0, 0);
    let mut draws = 0;
    for now in [20_000_000u64, 30_000_000u64] {
        if s.frame_due(now) {
            draws += 1;
            s.mark_redrawn(now);
        }
    }
    assert_eq!(draws, 1);
}

#[test]
fn build_needs_gpu_and_source() {
    let fresh: RendererState<u8, ()> = RendererState::new();
    let mut b = ShaderBuilder::new();
    b.with_content(String::from("src"));
    assert_eq!(b.build(&fresh).err(), Some(ConfigError::GpuNotInitialized));
    let mut ready: RendererState<u8, ()> = RendererState::new();
    ready.init_gpu(1, 0);
    let mut empty = ShaderBuilder::new();
    assert_eq!(empty.build(&ready).err(), Some(ConfigError::MissingShaderSource));
    empty.from_source(None);
    assert_eq!(empty.build(&ready).err(), Some(ConfigError::MissingShaderSource));
}

#[test]
fn indexed_shape_draws_index_count() {
    let mut s: RendererState<u8, u8> = RendererState::new();
    s.create_window(800, 800);
    s.init_gpu(1, 0);
    let verts = vec![
        Point { x: 0, y: 0, z: 0 },
        Point { x: 100, y: 0, z: 0 },
        Point { x: 0, y: 100, z: 0 },
        Point { x: 100, y: 100, z: 0 },
    ];
    let desc = ShaderBuilder::new()
        .with_content(String::from("wgsl"))
        .with_label(String::from("Rectangle Shader"))
        .with_vertex_buffer(verts)
        .with_index_buffer(vec![0, 1, 2, 2, 1, 3])
        .build(&s)
        .unwrap();
    assert_eq!(desc.label, "Rectangle Shader");
    assert_eq!(desc.source, "wgsl");
    assert_eq!(desc.draw_count, 6);
    let vs = desc.vertices.as_ref().unwrap();
    assert_eq!(vs.len(), 4);
    assert_eq!((ndc(vs[0].x), ndc(vs[0].y)), (-1.0, 1.0));
    assert_eq!((ndc(vs[3].x), ndc(vs[3].y), ndc(vs[3].z)), (-0.75, 0.75, 0.0));
    assert_eq!(desc.indices, Some(vec![0, 1, 2, 2, 1, 3]));
    let shape = desc.attach(9u8);
    assert!(shape.has_vertex_buffer && shape.has_index_buffer && !shape.has_uniforms);
    assert_eq!(shape.draw_call(), DrawCall::Indexed { count: 6 });
}

#[test]
fn vertex_only_and_empty_shapes() {
    let mut s: RendererState<u8, u8> = RendererState::new();
    s.create_window(10, 10);
    s.init_gpu(1, 0);
    let v = Point { x: 0, y: 0, z: 0 };
    let mut b = ShaderBuilder::new();
    b.with_content(String::from("a")).with_vertex_buffer(vec![v, v, v]);
    let tri = b.build(&s).unwrap();
    assert_eq!(tri.label, "Shader Builder");
    let tri = tri.attach(1u8);
    assert_eq!(tri.draw_call(), DrawCall::Sequential { count: 3 });
    let mut none = ShaderBuilder::new();
    none.from_source(Some(String::from("b")));
    let empty = none.build(&s).unwrap().attach(2u8);
    assert!(!empty.has_vertex_buffer && !empty.has_index_buffer);
    assert_eq!(empty.draw_call(), DrawCall::Sequential { count: 0 });
    s.add_shader(tri);
    s.add_shader(empty);
    assert_eq!(
        s.draw_calls(),
        vec![DrawCall::Sequential { count: 3 }, DrawCall::Sequential { count: 0 }]
    );
    s.clear_shaders();
    assert!(s.draw_calls().is_empty());
}

#[test]
fn index_list_after_vertices_still_wins() {
    let mut s: RendererState<u8, u8> = RendererState::new();
    s.create_window(4, 4);
    s.init_gpu(1, 0);
    let v = Point { x: 1, y: 2, z: 0 };
    let mut b = ShaderBuilder::new();
    b.with_content(String::from("c"))
        .with_index_buffer(vec![0, 0])
        .with_vertex_buffer(vec![v, v, v, v, v]);
    assert_eq!(b.build(&s).unwrap().attach(0u8).draw_call(), DrawCall::Indexed { count: 2 });
    assert!(b.vertices.is_none() && b.indices.is_none());
}

#[test]
fn extreme_sizes_do_not_overflow() {
    let v = normalized_vtx(i32::MIN, i32::MAX, u32::MAX, 1);
    assert_eq!(v.x.num, 2 * (i32::MIN as i64) - (u32::MAX as i64));
    assert_eq!(v.y.num, 1 - 2 * (i32::MAX as i64));
    let mut s: RendererState<(), ()> = RendererState::new();
    s.create_window(u32::MAX, u32::MAX);
    assert_eq!(s.window_size(), Ok((u32::MAX, u32::MAX)));
    s.apply_refresh_rate(Some(u32::MAX));
    assert_eq!((s.target_fps, s.max_fps), (60, 4_294_967));
}

#[test]
fn vertex_new_keeps_coordinates() {
    let x = Ndc { num: 1, den: 2 };
    let y = Ndc { num: -3, den: 4 };
    let z = Ndc { num: 2, den: 1 };
    let v = Vertex::new(x, y, z);
    assert_eq!((ndc(v.x), ndc(v.y), ndc(v.z)), (0.5, -0.75, 2.0));
}

#[test]
fn frame_timing_saturates_on_huge_gaps() {
    let mut s: RendererState<u8, ()> = RendererState::new();
    s.init_gpu(0, 0);
    assert!(s.frame_due(u64::MAX));
}

#[test]
fn build_normalizes_by_window_size() {
    let mut s: RendererState<u8, u8> = RendererState::new();
    s.init_gpu(1, 0);
    let mut b = ShaderBuilder::new();
    b.with_content(String::from("s")).with_vertex_buffer(vec![Point { x: 50, y: 25, z: 3 }]);
    assert_eq!(b.build(&s).err(), Some(ConfigError::MissingWidth));
    assert!(b.vertices.is_some());
    s.create_window(200, 100);
    let desc = b.build(&s).unwrap();
    let v = desc.vertices.unwrap()[0];
    assert_eq!((ndc(v.x), ndc(v.y), ndc(v.z)), (-0.5, 0.5, 3.0));
    let mut no_vertices = ShaderBuilder::new();
    no_vertices.with_content(String::from("s")).with_index_buffer(vec![1]);
    let fresh: RendererState<u8, u8> = {
        let mut r = RendererState::new();
        r.init_gpu(1, 0);
        r
    };
    assert_eq!(no_vertices.build(&fresh).unwrap().draw_count, 1);
}

#[test]
fn buffer_order_does_not_matter() {
    let mut s: RendererState<u8, u8> = RendererState::new();
    s.create_window(8, 8);
    s.init_gpu(1, 0);
    let p = Point { x: 2, y: 6, z: 0 };
    let mut b1 = ShaderBuilder::new();
    b1.with_content(String::from("k")).with_vertex_buffer(vec![p, p, p]).with_index_buffer(vec![0, 1]);
    let mut b2 = ShaderBuilder::new();
    b2.with_content(String::from("k")).with_index_buffer(vec![0, 1]).with_vertex_buffer(vec![p, p, p]);
    let d1 = b1.build(&s).unwrap();
    let d2 = b2.build(&s).unwrap();
    assert_eq!(d1.draw_count, 2);
    assert_eq!(d1.draw_count, d2.draw_count);
    assert_eq!(d1.vertices, d2.vertices);
    assert_eq!(d1.indices, d2.indices);
}

#[test]
fn event_kind_defaults_to_no_event() {
    assert_eq!(PEvent::default(), PEvent::NoEvent);
}
