//! Shapes: vertices in normalized device coordinates, the builder that
//! collects a shape's description, and the draw call each shape issues.

use crate::error::ConfigError;
use crate::render::RendererState;
use vstd::prelude::*;

verus! {

/// An exact normalized device coordinate, the fraction `num / den`.
#[derive(Debug, Clone, Copy, PartialEq, Eq, Structural)]
pub struct Ndc {
    pub num: i64,
    pub den: u32,
}

/// `n` stands for the rational number `p / q`.
pub open spec fn represents(n: Ndc, p: int, q: int) -> bool {
    n.den > 0 && q != 0 && n.num * q == p * n.den
}

/// A vertex position in normalized device coordinates.
#[derive(Debug, Clone, Copy, PartialEq, Eq, Structural)]
pub struct Vertex {
    pub x: Ndc,
    pub y: Ndc,
    pub z: Ndc,
}

impl Vertex {
    pub fn new(x: Ndc, y: Ndc, z: Ndc) -> (r: Self)
        ensures
            r == (Vertex { x, y, z }),
    {
        Vertex { x, y, z }
    }
}

/// A vertex position in window pixels, row 0 at the top, with a depth that
/// is passed through unchanged.
#[derive(Debug, Clone, Copy, PartialEq, Eq, Structural)]
pub struct Point {
    pub x: i32,
    pub y: i32,
    pub z: i32,
}

/// The point `p` of a `width` by `height` window mapped to `[-1, 1]` on
/// each axis, with the vertical axis pointing up.
pub open spec fn normalized_point(p: Point, width: u32, height: u32) -> Vertex {
    Vertex {
        x: Ndc { num: (2 * p.x - width) as i64, den: width },
        y: Ndc { num: (height - 2 * p.y) as i64, den: height },
        z: Ndc { num: p.z as i64, den: 1 },
    }
}

/// The pixel `(x, y)` of a `width` by `height` window, on the plane z = 0.
pub open spec fn normalized(x: i32, y: i32, width: u32, height: u32) -> Vertex {
    normalized_point(Point { x, y, z: 0 }, width, height)
}

/// Each point of `ps` normalized, in order.
pub open spec fn normalized_seq(ps: Seq<Point>, width: u32, height: u32) -> Seq<Vertex> {
    ps.map_values(|p: Point| normalized_point(p, width, height))
}

/// Normalizes a pixel position of a `width` by `height` window.
pub fn normalized_point_of(p: Point, width: u32, height: u32) -> (r: Vertex)
    requires
        width > 0,
        height > 0,
    ensures
        r == normalized_point(p, width, height),
{
    let xn: i64 = 2 * (p.x as i64) - (width as i64);
    let yn: i64 = (height as i64) - 2 * (p.y as i64);
    Vertex {
        x: Ndc { num: xn, den: width },
        y: Ndc { num: yn, den: height },
        z: Ndc { num: p.z as i64, den: 1 },
    }
}

/// Normalizes the pixel `(x, y)` of a `width` by `height` window.
pub fn normalized_vtx(x: i32, y: i32, width: u32, height: u32) -> (r: Vertex)
    requires
        width > 0,
        height > 0,
    ensures
        r == normalized(x, y, width, height),
{
    normalized_point_of(Point { x, y, z: 0 }, width, height)
}

/// A pixel `(x, y)` of a `W` by `H` window lands at `2x/W - 1`
/// horizontally and `-(2y/H - 1)` vertically.
pub proof fn lemma_normalized_position(x: i32, y: i32, width: u32, height: u32)
    requires
        width > 0,
        height > 0,
    ensures
        represents(normalized(x, y, width, height).x, 2 * x - width, width as int),
        represents(normalized(x, y, width, height).y, -(2 * y - height), height as int),
{
}

/// How a shape is drawn: over its index list, or over its vertices in order.
#[derive(Debug, Clone, Copy, PartialEq, Eq, Structural)]
pub enum DrawCall {
    Indexed { count: u32 },
    Sequential { count: u32 },
}

/// The draw parameters of a shape with the given index and vertex lists:
/// indices win over vertices, and a shape with neither draws nothing.
pub open spec fn draw_count_of(index_count: Option<nat>, vertex_count: Option<nat>) -> nat {
    match index_count {
        Some(n) => n,
        None => match vertex_count {
            Some(m) => m,
            None => 0,
        },
    }
}

/// A shape ready to draw: the resources `R` that the rendering backend
/// made for it and the parameters of its draw call.
pub struct Shader<R> {
    pub resources: R,
    pub draw_count: u32,
    pub has_vertex_buffer: bool,
    pub has_index_buffer: bool,
    pub has_uniforms: bool,
}

impl<R> Shader<R> {
    pub open spec fn draw_call_spec(self) -> DrawCall {
        if self.has_index_buffer {
            DrawCall::Indexed { count: self.draw_count }
        } else {
            DrawCall::Sequential { count: self.draw_count }
        }
    }

    /// The draw call this shape issues each frame.
    pub fn draw_call(&self) -> (r: DrawCall)
        ensures
            r == self.draw_call_spec(),
    {
        if self.has_index_buffer {
            DrawCall::Indexed { count: self.draw_count }
        } else {
            DrawCall::Sequential { count: self.draw_count }
        }
    }
}

/// Everything the rendering backend needs to make a shape's resources.
pub struct ShaderDesc {
    pub label: String,
    pub source: String,
    pub vertices: Option<Vec<Vertex>>,
    pub indices: Option<Vec<u32>>,
    pub draw_count: u32,
}

impl ShaderDesc {
    pub open spec fn attached<R>(self, resources: R) -> Shader<R> {
        Shader {
            resources,
            draw_count: self.draw_count,
            has_vertex_buffer: self.vertices.is_some(),
            has_index_buffer: self.indices.is_some(),
            has_uniforms: false,
        }
    }

    /// Pairs the description with the resources made from it.
    pub fn attach<R>(&self, resources: R) -> (r: Shader<R>)
        ensures
            r == self.attached(resources),
    {
        Shader {
            resources,
            draw_count: self.draw_count,
            has_vertex_buffer: self.vertices.is_some(),
            has_index_buffer: self.indices.is_some(),
            has_uniforms: false,
        }
    }
}

/// Collects a shape's shader source, label, vertex positions in window
/// pixels, and indices.
pub struct ShaderBuilder {
    pub label: String,
    pub content: Option<String>,
    pub vertices: Option<Vec<Point>>,
    pub indices: Option<Vec<u32>>,
}

impl ShaderBuilder {
    /// Every list fits the `u32` count of a draw call.
    pub open spec fn wf(self) -> bool {
        &&& (self.vertices matches Some(v) ==> v@.len() <= u32::MAX)
        &&& (self.indices matches Some(i) ==> i@.len() <= u32::MAX)
    }

    pub open spec fn index_count(self) -> Option<nat> {
        match self.indices {
            Some(i) => Some(i@.len()),
            None => None,
        }
    }

    pub open spec fn vertex_count(self) -> Option<nat> {
        match self.vertices {
            Some(v) => Some(v@.len()),
            None => None,
        }
    }

    pub open spec fn set_vertices(self, vertices: Vec<Point>) -> Self {
        ShaderBuilder { vertices: Some(vertices), ..self }
    }

    pub open spec fn set_indices(self, indices: Vec<u32>) -> Self {
        ShaderBuilder { indices: Some(indices), ..self }
    }

    /// Why `build` fails on `state`, checked in this order: no GPU context,
    /// no source, or vertex positions with no window size to normalize them.
    pub open spec fn build_error<G, R>(self, state: RendererState<G, R>) -> Option<ConfigError> {
        if state.gpu is None {
            Some(ConfigError::GpuNotInitialized)
        } else if self.content is None {
            Some(ConfigError::MissingShaderSource)
        } else if self.vertices is Some && state.width is None {
            Some(ConfigError::MissingWidth)
        } else if self.vertices is Some && state.height is None {
            Some(ConfigError::MissingHeight)
        } else {
            None
        }
    }

    /// `d` describes this builder's shape in a window of the state's size:
    /// same label and source, the indices as given, each vertex position
    /// normalized, and the draw count of the two lists.
    pub open spec fn describes<G, R>(self, d: ShaderDesc, state: RendererState<G, R>) -> bool {
        &&& self.content == Some(d.source)
        &&& d.label == self.label
        &&& d.indices == self.indices
        &&& match self.vertices {
            None => d.vertices is None,
            Some(ps) => d.vertices matches Some(vs) && vs@ == normalized_seq(
                ps@,
                state.width->Some_0,
                state.height->Some_0,
            ),
        }
        &&& d.draw_count == draw_count_of(self.index_count(), self.vertex_count())
    }

    pub fn new() -> (r: Self)
        ensures
            r.label@ == "Shader Builder"@,
            r.content.is_none(),
            r.vertices.is_none(),
            r.indices.is_none(),
            r.wf(),
    {
        ShaderBuilder {
            label: String::from_str("Shader Builder"),
            content: None,
            vertices: None,
            indices: None,
        }
    }

    pub fn with_label(&mut self, label: String) -> (r: &mut Self)
        ensures
            *r == (ShaderBuilder { label, ..*old(self) }),
            *final(self) == *final(r),
    {
        self.label = label;
        self
    }

    /// Sets the shader source text.
    pub fn with_content(&mut self, content: String) -> (r: &mut Self)
        ensures
            *r == (ShaderBuilder { content: Some(content), ..*old(self) }),
            *final(self) == *final(r),
    {
        self.content = Some(content);
        self
    }

    /// Sets the shader source to the text read from a file, or clears it
    /// when the file could not be read.
    pub fn from_source(&mut self, loaded: Option<String>) -> (r: &mut Self)
        ensures
            *r == (ShaderBuilder { content: loaded, ..*old(self) }),
            *final(self) == *final(r),
    {
        self.content = loaded;
        self
    }

    /// Sets the vertex positions, in window pixels; `build` normalizes them.
    pub fn with_vertex_buffer(&mut self, vertices: Vec<Point>) -> (r: &mut Self)
        requires
            old(self).wf(),
            vertices@.len() <= u32::MAX,
        ensures
            *r == old(self).set_vertices(vertices),
            r.wf(),
            *final(self) == *final(r),
    {
        self.vertices = Some(vertices);
        self
    }

    pub fn with_index_buffer(&mut self, indices: Vec<u32>) -> (r: &mut Self)
        requires
            old(self).wf(),
            indices@.len() <= u32::MAX,
        ensures
            *r == old(self).set_indices(indices),
            r.wf(),
            *final(self) == *final(r),
    {
        self.indices = Some(indices);
        self
    }

    /// Describes the shape for the GPU backend, normalizing the vertex
    /// positions by the configured window size. The vertex and index lists
    /// move into the description.
    pub fn build<G, R>(&mut self, state: &RendererState<G, R>) -> (r: Result<ShaderDesc, ConfigError>)
        requires
            old(self).wf(),
            state.wf(),
        ensures
            r is Err <==> old(self).build_error(*state) is Some,
            r matches Err(e) ==> old(self).build_error(*state) == Some(e) && *final(self)
                == *old(self),
            r matches Ok(d) ==> old(self).describes(d, *state) && *final(self) == (ShaderBuilder {
                vertices: None,
                indices: None,
                ..*old(self)
            }),
    {
        if state.gpu.is_none() {
            return Err(ConfigError::GpuNotInitialized);
        }
        let source = match &self.content {
            None => {
                return Err(ConfigError::MissingShaderSource);
            },
            Some(src) => src.clone(),
        };
        let vertices: Option<Vec<Vertex>> = match &self.vertices {
            None => None,
            Some(ps) => {
                let (width, height) = match state.window_size() {
                    Ok(size) => size,
                    Err(e) => {
                        return Err(e);
                    },
                };
                let mut vs: Vec<Vertex> = Vec::new();
                let mut i: usize = 0;
                while i < ps.len()
                    invariant
                        width > 0,
                        height > 0,
                        i <= ps@.len(),
                        vs@.len() == i,
                        forall|j: int| 0 <= j < i ==> vs@[j] == normalized_point(ps@[j], width, height),
                    decreases ps@.len() - i,
                {
                    vs.push(normalized_point_of(ps[i], width, height));
                    i = i + 1;
                }
                assert(vs@ == normalized_seq(ps@, width, height));
                Some(vs)
            },
        };
        let draw_count: u32 = match &self.indices {
            Some(i) => i.len() as u32,
            None => match &self.vertices {
                Some(v) => v.len() as u32,
                None => 0,
            },
        };
        let label = self.label.clone();
        self.vertices = None;
        let indices = self.indices.take();
        Ok(ShaderDesc { label, source, vertices, indices, draw_count })
    }
}

/// A shape built with an index list of length N issues one indexed draw of
/// N elements; one built with only a vertex list of length M issues one
/// sequential draw of M elements; one built with neither draws zero.
pub proof fn lemma_draw_elements<G, R, X>(
    b: ShaderBuilder,
    state: RendererState<G, R>,
    d: ShaderDesc,
    resources: X,
)
    requires
        b.wf(),
        b.describes(d, state),
    ensures
        d.attached(resources).draw_call_spec() == (match (b.indices, b.vertices) {
            (Some(i), _) => DrawCall::Indexed { count: i@.len() as u32 },
            (None, Some(v)) => DrawCall::Sequential { count: v@.len() as u32 },
            (None, None) => DrawCall::Sequential { count: 0 },
        }),
{
}

/// Giving the vertex list and the index list in either order yields the
/// same builder, whose shape draws as many elements as there are indices.
pub proof fn lemma_buffer_order_irrelevant(b: ShaderBuilder, vertices: Vec<Point>, indices: Vec<u32>)
    requires
        indices@.len() <= u32::MAX,
    ensures
        b.set_vertices(vertices).set_indices(indices) == b.set_indices(indices).set_vertices(
            vertices,
        ),
        draw_count_of(
            b.set_vertices(vertices).set_indices(indices).index_count(),
            b.set_vertices(vertices).set_indices(indices).vertex_count(),
        ) == indices@.len(),
{
}

} // verus!
