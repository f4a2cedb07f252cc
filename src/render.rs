//! The renderer's state: window size, frame pacing, the GPU context once
//! it exists, and the shapes drawn each frame, in order.

use crate::error::ConfigError;
use crate::shape::{normalized, normalized_vtx, DrawCall, Shader, Vertex};
use vstd::prelude::*;

verus! {

/// The frame rate before any monitor is detected.
pub const DEFAULT_FPS: u32 = 60;

pub const NANOS_PER_SEC: u64 = 1_000_000_000;

/// Renderer state. `G` is the GPU context (device, queue, surface and
/// window together, so they are present or absent as one); `R` is what the
/// backend holds for each shape. Times are nanoseconds on a monotonic clock.
pub struct RendererState<G, R> {
    pub gpu: Option<G>,
    pub last_redraw_time: Option<u64>,
    pub max_fps: u32,
    pub target_fps: u32,
    pub width: Option<u32>,
    pub height: Option<u32>,
    pub shaders: Vec<Shader<R>>,
}

/// Whether a frame is due at `now` when the last one was presented at
/// `last`: at least `1 / fps` seconds have passed. No frame is due before
/// the GPU context exists.
pub open spec fn frame_due_at(last: Option<u64>, now: u64, fps: u32) -> bool {
    match last {
        Some(t) => t <= now && (now - t) * fps >= NANOS_PER_SEC,
        None => false,
    }
}

/// A refresh rate in millihertz, in whole frames per second rounded down,
/// so that no frame rate derived from it exceeds what the monitor shows.
pub open spec fn hz_of(millihertz: u32) -> int {
    millihertz as int / 1000
}

impl<G, R> RendererState<G, R> {
    pub open spec fn wf(self) -> bool {
        &&& 1 <= self.target_fps <= self.max_fps
        &&& self.gpu.is_some() <==> self.last_redraw_time.is_some()
        &&& (self.width matches Some(w) ==> w > 0)
        &&& (self.height matches Some(h) ==> h > 0)
    }

    pub open spec fn width_spec(self) -> Result<u32, ConfigError> {
        match self.width {
            Some(w) => Ok(w),
            None => Err(ConfigError::MissingWidth),
        }
    }

    pub open spec fn height_spec(self) -> Result<u32, ConfigError> {
        match self.height {
            Some(h) => Ok(h),
            None => Err(ConfigError::MissingHeight),
        }
    }

    pub open spec fn with_window(self, width: u32, height: u32) -> Self {
        RendererState { width: Some(width), height: Some(height), ..self }
    }

    pub open spec fn with_refresh_rate(self, millihertz: Option<u32>) -> Self {
        match millihertz {
            Some(m) if hz_of(m) >= 1 => {
                let hz = hz_of(m) as u32;
                RendererState {
                    max_fps: hz,
                    target_fps: if self.target_fps <= hz { self.target_fps } else { hz },
                    ..self
                }
            },
            _ => self,
        }
    }

    pub open spec fn with_redraw_time(self, now: u64) -> Self {
        RendererState { last_redraw_time: Some(now), ..self }
    }

    pub open spec fn frame_due_spec(self, now: u64) -> bool {
        frame_due_at(self.last_redraw_time, now, self.target_fps)
    }

    /// A state with no window size, no GPU context, no shapes, and both
    /// frame rates at the default.
    pub fn new() -> (r: Self)
        ensures
            r.wf(),
            r.gpu.is_none(),
            r.last_redraw_time.is_none(),
            r.max_fps == DEFAULT_FPS,
            r.target_fps == DEFAULT_FPS,
            r.width.is_none(),
            r.height.is_none(),
            r.shaders@.len() == 0,
    {
        RendererState {
            gpu: None,
            last_redraw_time: None,
            max_fps: DEFAULT_FPS,
            target_fps: DEFAULT_FPS,
            width: None,
            height: None,
            shaders: Vec::new(),
        }
    }

    /// Sets the window size, which the frame loop reads when it starts.
    pub fn create_window(&mut self, width: u32, height: u32)
        requires
            old(self).wf(),
            width > 0,
            height > 0,
        ensures
            final(self).wf(),
            *final(self) == old(self).with_window(width, height),
    {
        self.width = Some(width);
        self.height = Some(height);
    }

    /// The configured window width.
    pub fn width(&self) -> (r: Result<u32, ConfigError>)
        ensures
            r == self.width_spec(),
    {
        match self.width {
            Some(w) => Ok(w),
            None => Err(ConfigError::MissingWidth),
        }
    }

    /// The configured window height.
    pub fn height(&self) -> (r: Result<u32, ConfigError>)
        ensures
            r == self.height_spec(),
    {
        match self.height {
            Some(h) => Ok(h),
            None => Err(ConfigError::MissingHeight),
        }
    }

    /// The window size that the frame loop needs before it opens a window.
    pub fn window_size(&self) -> (r: Result<(u32, u32), ConfigError>)
        ensures
            r == (match (self.width, self.height) {
                (Some(w), Some(h)) => Ok((w, h)),
                (None, _) => Err(ConfigError::MissingWidth),
                (Some(_), None) => Err(ConfigError::MissingHeight),
            }),
    {
        match (self.width, self.height) {
            (Some(w), Some(h)) => Ok((w, h)),
            (None, _) => Err(ConfigError::MissingWidth),
            (Some(_), None) => Err(ConfigError::MissingHeight),
        }
    }

    /// Normalizes a pixel position of the configured window.
    pub fn normalized_vtx(&self, x: i32, y: i32) -> (r: Result<Vertex, ConfigError>)
        requires
            self.wf(),
        ensures
            r == (match (self.width, self.height) {
                (Some(w), Some(h)) => Ok(normalized(x, y, w, h)),
                (None, _) => Err(ConfigError::MissingWidth),
                (Some(_), None) => Err(ConfigError::MissingHeight),
            }),
    {
        match (self.width, self.height) {
            (Some(w), Some(h)) => Ok(normalized_vtx(x, y, w, h)),
            (None, _) => Err(ConfigError::MissingWidth),
            (Some(_), None) => Err(ConfigError::MissingHeight),
        }
    }

    /// Caps the frame rates by a detected monitor refresh rate, given in
    /// millihertz and rounded down to whole frames per second. A rate that
    /// is absent or below 1 Hz counts as no detection and leaves both rates
    /// as they are.
    pub fn apply_refresh_rate(&mut self, millihertz: Option<u32>)
        requires
            old(self).wf(),
        ensures
            final(self).wf(),
            *final(self) == old(self).with_refresh_rate(millihertz),
    {
        if let Some(m) = millihertz {
            let hz: u32 = m / 1000;
            if hz >= 1 {
                self.max_fps = hz;
                if self.target_fps > hz {
                    self.target_fps = hz;
                }
            }
        }
    }

    /// Records the GPU context once it is set up; the frame clock starts now.
    pub fn init_gpu(&mut self, gpu: G, now: u64)
        requires
            old(self).wf(),
        ensures
            final(self).wf(),
            *final(self) == (RendererState {
                gpu: Some(gpu),
                last_redraw_time: Some(now),
                ..*old(self)
            }),
    {
        self.gpu = Some(gpu);
        self.last_redraw_time = Some(now);
    }

    /// Appends a shape; shapes are drawn in the order they were added.
    pub fn add_shader(&mut self, shader: Shader<R>)
        requires
            old(self).wf(),
        ensures
            final(self).wf(),
            *final(self) == (RendererState {
                shaders: final(self).shaders,
                ..*old(self)
            }),
            final(self).shaders@ == old(self).shaders@.push(shader),
    {
        self.shaders.push(shader);
    }

    /// Removes every shape.
    pub fn clear_shaders(&mut self)
        requires
            old(self).wf(),
        ensures
            final(self).wf(),
            *final(self) == (RendererState {
                shaders: final(self).shaders,
                ..*old(self)
            }),
            final(self).shaders@.len() == 0,
    {
        self.shaders.clear();
    }

    /// Whether the frame loop should draw and present at `now`.
    pub fn frame_due(&self, now: u64) -> (r: bool)
        ensures
            r == self.frame_due_spec(now),
    {
        match self.last_redraw_time {
            Some(t) => {
                if t <= now {
                    let elapsed: u128 = (now - t) as u128;
                    let fps: u128 = self.target_fps as u128;
                    assert(elapsed * fps <= 0xffff_ffff_ffff_ffff_u128 * 0xffff_ffff_u128)
                        by (nonlinear_arith)
                        requires
                            elapsed <= 0xffff_ffff_ffff_ffff_u128,
                            fps <= 0xffff_ffff_u128,
                    ;
                    elapsed * fps >= NANOS_PER_SEC as u128
                } else {
                    false
                }
            },
            None => false,
        }
    }

    /// Records that the frame started at `now` has been presented.
    pub fn mark_redrawn(&mut self, now: u64)
        requires
            old(self).wf(),
            old(self).gpu.is_some(),
        ensures
            final(self).wf(),
            *final(self) == old(self).with_redraw_time(now),
    {
        self.last_redraw_time = Some(now);
    }

    /// The draw call of each shape, in drawing order.
    pub fn draw_calls(&self) -> (r: Vec<DrawCall>)
        ensures
            r@.len() == self.shaders@.len(),
            forall|i: int| 0 <= i < r@.len() ==> r@[i] == self.shaders@[i].draw_call_spec(),
    {
        let mut r: Vec<DrawCall> = Vec::new();
        let mut i: usize = 0;
        while i < self.shaders.len()
            invariant
                i <= self.shaders@.len(),
                r@.len() == i,
                forall|j: int| 0 <= j < i ==> r@[j] == self.shaders@[j].draw_call_spec(),
            decreases self.shaders@.len() - i,
        {
            r.push(self.shaders[i].draw_call());
            i = i + 1;
        }
        r
    }
}

/// Once the window is created with a positive size, `width` and `height`
/// read back exactly that size.
pub proof fn lemma_window_size_read_back<G, R>(s: RendererState<G, R>, width: u32, height: u32)
    requires
        s.wf(),
        width > 0,
        height > 0,
    ensures
        s.with_window(width, height).wf(),
        s.with_window(width, height).width_spec() == Ok::<u32, ConfigError>(width),
        s.with_window(width, height).height_spec() == Ok::<u32, ConfigError>(height),
{
}

/// Whatever a monitor reports, the target frame rate stays within the
/// maximum, which becomes the monitor's rate in whole Hz rounded down; a
/// target already within it is kept. When no rate of at least 1 Hz is
/// detected both rates keep their values.
pub proof fn lemma_refresh_rate_caps_target<G, R>(s: RendererState<G, R>, millihertz: Option<u32>)
    requires
        s.wf(),
    ensures
        s.with_refresh_rate(millihertz).wf(),
        s.with_refresh_rate(millihertz).target_fps <= s.with_refresh_rate(millihertz).max_fps,
        (match millihertz {
            Some(m) if m >= 1000 => {
                &&& s.with_refresh_rate(millihertz).max_fps == m / 1000
                &&& s.target_fps <= m / 1000 ==> s.with_refresh_rate(millihertz).target_fps
                    == s.target_fps
            },
            _ => {
                &&& s.with_refresh_rate(millihertz).max_fps == s.max_fps
                &&& s.with_refresh_rate(millihertz).target_fps == s.target_fps
            },
        }),
{
}

/// Of two loop iterations less than `1 / target_fps` seconds apart, at most
/// one draws and presents: once a frame is presented at `t1`, none is due
/// at `t2`.
pub proof fn lemma_one_frame_per_period<G, R>(s: RendererState<G, R>, t1: u64, t2: u64)
    requires
        s.wf(),
        t1 <= t2,
        (t2 - t1) * s.target_fps < NANOS_PER_SEC,
    ensures
        !(s.frame_due_spec(t1) && s.with_redraw_time(t1).frame_due_spec(t2)),
{
}

} // verus!
