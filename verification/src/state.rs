use vstd::prelude::*;
use crate::geometry::{ScaleFactor, Size, scale_size};
use crate::profile::HostProfile;
use crate::surface::{SurfaceCaps, SurfaceConfig, SurfaceUsage, TextureFormat, chosen_format, select_format};
use crate::events::Event;

verus! {

/// The platform window, as the lifecycle logic sees it: an owned handle with
/// the drawable pixel size it reported when it appeared. The shell that owns
/// the real window keeps it in step with this handle.
#[derive(Clone, Copy, PartialEq, Eq, Structural, Debug)]
pub struct WindowHandle {
    pub inner_size: Size,
}

/// Everything that can go wrong in the lifecycle: the two terminal
/// construction failures and the per-frame acquisition failure.
#[derive(Clone, Copy, PartialEq, Eq, Structural, Debug)]
pub enum GraphicsError {
    /// No compatible GPU adapter was found.
    AdapterUnavailable,
    /// Device/queue negotiation was refused.
    DeviceRequestFailed,
    /// No presentable texture could be acquired for this frame.
    SurfaceAcquisitionFailed,
}

/// How the asynchronous adapter/device negotiation ended. The shell performs
/// the negotiation and reports its outcome here; construction turns it into
/// either a configured context or the matching error.
#[derive(Clone, Debug)]
pub enum Negotiation {
    /// No adapter compatible with the surface was offered.
    AdapterMissing,
    /// An adapter was found, but it refused to hand out a device and queue.
    DeviceRefused,
    /// Device and queue are live; the surface reported these capabilities.
    Ready(SurfaceCaps),
}

/// The fixed background color, in thousandths per channel.
#[derive(Clone, Copy, PartialEq, Eq, Structural, Debug)]
pub struct ClearColor {
    pub r_milli: u16,
    pub g_milli: u16,
    pub b_milli: u16,
    pub a_milli: u16,
}

/// One operation of the per-frame command plan, carried out after a
/// presentable texture has been acquired.
#[derive(Clone, Copy, PartialEq, Eq, Structural, Debug)]
pub enum FrameStep {
    /// Create a transient view of the acquired texture.
    CreateView,
    /// Open the single render pass, clearing the view to the given color.
    BeginRenderPass { clear: ClearColor },
    /// Bind the fixed pipeline.
    SetPipeline,
    /// One non-indexed draw of `vertices` vertices forming `instances`
    /// instances.
    Draw { vertices: u32, instances: u32 },
    /// Close the render pass.
    EndRenderPass,
    /// Submit the one recorded command buffer to the queue.
    SubmitCommands,
    /// Present the acquired texture.
    PresentFrame,
}

pub open spec fn background_color() -> ClearColor {
    ClearColor { r_milli: 100, g_milli: 400, b_milli: 700, a_milli: 1000 }
}

/// The whole plan of a successful frame: one pass, one draw of a hardcoded
/// triangle, one submission, one present.
pub open spec fn frame_steps() -> Seq<FrameStep> {
    seq![
        FrameStep::CreateView,
        FrameStep::BeginRenderPass { clear: background_color() },
        FrameStep::SetPipeline,
        FrameStep::Draw { vertices: 3, instances: 1 },
        FrameStep::EndRenderPass,
        FrameStep::SubmitCommands,
        FrameStep::PresentFrame,
    ]
}

pub open spec fn submit_count(steps: Seq<FrameStep>) -> int
    decreases steps.len(),
{
    if steps.len() == 0 {
        0
    } else {
        submit_count(steps.drop_last()) + if steps.last() is SubmitCommands { 1int } else { 0int }
    }
}

pub open spec fn present_count(steps: Seq<FrameStep>) -> int
    decreases steps.len(),
{
    if steps.len() == 0 {
        0
    } else {
        present_count(steps.drop_last()) + if steps.last() is PresentFrame { 1int } else { 0int }
    }
}

/// The compiled drawing program, as the lifecycle logic sees it: its single
/// color target must match the surface's chosen format, and it is
/// single-sampled. Created once at construction, immutable thereafter.
#[derive(Clone, Copy, PartialEq, Eq, Structural, Debug)]
pub struct PipelinePlan {
    pub color_format: TextureFormat,
    pub sample_count: u32,
}

/// Builds the fixed pipeline's plan: no bind group layouts, no push
/// constants, a single color target matching the configured format,
/// single-sample multisampling.
pub fn create_pipeline(config: &SurfaceConfig) -> (p: PipelinePlan)
    ensures
        p == (PipelinePlan { color_format: config.format, sample_count: 1 }),
{
    PipelinePlan { color_format: config.format, sample_count: 1 }
}

/// One live, configured GPU presentation session: the last-known drawable
/// size, the configuration applied to the surface, and the fixed pipeline.
/// The GPU objects themselves live with the shell, which reapplies `config`
/// whenever this model says so.
#[derive(Clone, Copy, PartialEq, Eq, Structural, Debug)]
pub struct State {
    pub window: WindowHandle,
    pub size: Size,
    pub config: SurfaceConfig,
    pub pipeline: PipelinePlan,
    /// The host profile's pixel-ratio divisor, fixed at construction.
    pub divisor: u32,
}

impl State {
    /// The context invariant: the configuration covers exactly the stored
    /// size, the pipeline targets the configured format, and the divisor is
    /// usable.
    pub open spec fn wf(self) -> bool {
        &&& self.divisor >= 1
        &&& self.config.covers(self.size)
        &&& self.pipeline.color_format == self.config.format
        &&& self.pipeline.sample_count == 1
    }

    /// The state after a resize request: a zero-area request changes
    /// nothing; otherwise the requested size, divided by the pixel-ratio
    /// divisor, becomes the stored size and the configured extent.
    pub open spec fn resized(self, new_size: Size) -> State {
        if new_size.is_zero_area() {
            self
        } else {
            let adj = new_size.shrunk(self.divisor);
            State {
                size: adj,
                config: SurfaceConfig { width: adj.width, height: adj.height, ..self.config },
                ..self
            }
        }
    }

    /// Builds a context from an owned window and the outcome of the
    /// adapter/device negotiation. The window's reported size, divided by
    /// the profile's pixel-ratio divisor, becomes the configured extent; the
    /// first sRGB-capable format (else the first format) and the first
    /// supported present and alpha modes are selected, with a queued-frame
    /// latency of 2. A failed negotiation yields the matching error and no
    /// context.
    pub fn new(profile: &HostProfile, window: WindowHandle, outcome: Negotiation) -> (r: Result<
        State,
        GraphicsError,
    >)
        requires
            profile.wf(),
            outcome matches Negotiation::Ready(caps) ==> caps.wf(),
        ensures
            outcome is AdapterMissing <==> r == Err::<State, GraphicsError>(
                GraphicsError::AdapterUnavailable,
            ),
            outcome is DeviceRefused <==> r == Err::<State, GraphicsError>(
                GraphicsError::DeviceRequestFailed,
            ),
            outcome matches Negotiation::Ready(caps) ==> (r matches Ok(s) && {
                &&& s.window == window
                &&& s.divisor == profile.pixel_ratio_divisor
                &&& s.size == window.inner_size.shrunk(profile.pixel_ratio_divisor)
                &&& s.config.format == chosen_format(caps.formats@)
                &&& s.config.usage is RenderAttachment
                &&& s.config.covers(s.size)
                &&& s.config.present_mode == caps.present_modes@[0]
                &&& s.config.alpha_mode == caps.alpha_modes@[0]
                &&& s.config.frame_latency == 2
                &&& s.pipeline == (PipelinePlan { color_format: s.config.format, sample_count: 1 })
                &&& s.wf()
            }),
    {
        match outcome {
            Negotiation::AdapterMissing => Err(GraphicsError::AdapterUnavailable),
            Negotiation::DeviceRefused => Err(GraphicsError::DeviceRequestFailed),
            Negotiation::Ready(caps) => {
                let size = window.inner_size.shrink(profile.pixel_ratio_divisor);
                let format = select_format(&caps.formats);
                let config = SurfaceConfig {
                    format,
                    usage: SurfaceUsage::RenderAttachment,
                    width: size.width,
                    height: size.height,
                    present_mode: caps.present_modes[0],
                    alpha_mode: caps.alpha_modes[0],
                    frame_latency: 2,
                };
                let pipeline = create_pipeline(&config);
                Ok(State { window, size, config, pipeline, divisor: profile.pixel_ratio_divisor })
            },
        }
    }

    /// Applies a resize request. A zero-area request is a silent no-op;
    /// otherwise the stored size and the configuration are updated, and the
    /// result says that the shell must reapply the configuration to the
    /// surface. The configuration is reapplied on every non-zero request,
    /// even one that repeats the current size.
    pub fn resize(&mut self, new_size: Size) -> (reconfigured: bool)
        requires
            old(self).wf(),
        ensures
            *final(self) == old(self).resized(new_size),
            reconfigured == !new_size.is_zero_area(),
            final(self).wf(),
    {
        if new_size.width == 0 || new_size.height == 0 {
            return false;
        }
        let adj = new_size.shrink(self.divisor);
        self.size = adj;
        self.config.width = adj.width;
        self.config.height = adj.height;
        true
    }

    /// Converts a display-scale change into an equivalent pixel resize:
    /// the current stored size is multiplied by the factor, truncated, and
    /// handed to `resize`. This is a pure derived operation, not an
    /// independent code path.
    pub fn scale(&mut self, factor: ScaleFactor) -> (reconfigured: bool)
        requires
            old(self).wf(),
            factor.wf(),
        ensures
            *final(self) == old(self).resized(old(self).size.scaled(factor)),
            reconfigured == !old(self).size.scaled(factor).is_zero_area(),
            final(self).wf(),
    {
        let target = scale_size(self.size, factor);
        self.resize(target)
    }

    /// The per-event hook of the context. It is an extension point: it never
    /// handles an event, so default handling is never suppressed.
    pub fn event(&mut self, event: &Event) -> (handled: bool)
        ensures
            *final(self) == *old(self),
            handled == false,
    {
        let _ = event;
        false
    }

    /// The per-frame update hook, given the frame delta in milliseconds. An
    /// extension point: currently a no-op.
    pub fn update(&mut self, dt: u64)
        ensures
            *final(self) == *old(self),
    {
        let _ = dt;
    }

    /// Renders one frame. The shell reports whether a presentable texture
    /// was acquired: on failure the acquisition error propagates and no
    /// command buffer is submitted; on success the returned plan records the
    /// whole frame, with exactly one submission and one present.
    pub fn render(&mut self, acquired: bool) -> (r: Result<Vec<FrameStep>, GraphicsError>)
        ensures
            *final(self) == *old(self),
            !acquired ==> r == Err::<Vec<FrameStep>, GraphicsError>(
                GraphicsError::SurfaceAcquisitionFailed,
            ),
            acquired ==> (r matches Ok(plan) && plan@ == frame_steps()),
    {
        if !acquired {
            return Err(GraphicsError::SurfaceAcquisitionFailed);
        }
        let mut plan: Vec<FrameStep> = Vec::new();
        plan.push(FrameStep::CreateView);
        plan.push(
            FrameStep::BeginRenderPass {
                clear: ClearColor { r_milli: 100, g_milli: 400, b_milli: 700, a_milli: 1000 },
            },
        );
        plan.push(FrameStep::SetPipeline);
        plan.push(FrameStep::Draw { vertices: 3, instances: 1 });
        plan.push(FrameStep::EndRenderPass);
        plan.push(FrameStep::SubmitCommands);
        plan.push(FrameStep::PresentFrame);
        proof {
            assert(plan@ =~= frame_steps());
        }
        Ok(plan)
    }

    /// The window the context tracks; after construction, redraw requests go
    /// through this handle.
    pub fn window(&self) -> (w: &WindowHandle)
        ensures
            *w == self.window,
    {
        &self.window
    }
}

/// For all non-zero sizes, resizing to (W, H) and reading the configuration
/// back yields (W, H) divided by the pixel-ratio divisor — (W, H) itself on
/// an ordinary native host — while a zero-area request leaves the whole
/// context unchanged.
pub proof fn lemma_resize_readback(s: State, new_size: Size)
    requires
        s.wf(),
    ensures
        !new_size.is_zero_area() ==> s.resized(new_size).size == new_size.shrunk(s.divisor),
        !new_size.is_zero_area() ==> s.resized(new_size).config.covers(new_size.shrunk(s.divisor)),
        s.divisor == 1 && !new_size.is_zero_area() ==> s.resized(new_size).size == new_size,
        s.divisor == 1 && !new_size.is_zero_area() ==> s.resized(new_size).config.covers(new_size),
        new_size.is_zero_area() ==> s.resized(new_size) == s,
{
    assert((new_size.width as int) / 1int == new_size.width as int) by (nonlinear_arith);
    assert((new_size.height as int) / 1int == new_size.height as int) by (nonlinear_arith);
}

/// Resize is idempotent: applying the same request twice yields exactly the
/// state that applying it once yields. (Each non-zero application reapplies
/// the configuration to the surface; a zero-area application never does.)
pub proof fn lemma_resize_idempotent(s: State, new_size: Size)
    requires
        s.wf(),
    ensures
        s.resized(new_size).resized(new_size) == s.resized(new_size),
{
}

/// A successful frame's plan submits exactly one command buffer and presents
/// exactly one texture, and the present comes after the submission.
pub proof fn lemma_render_plan_shape()
    ensures
        frame_steps().len() == 7,
        submit_count(frame_steps()) == 1,
        present_count(frame_steps()) == 1,
        frame_steps()[5] is SubmitCommands,
        frame_steps()[6] is PresentFrame,
        frame_steps()[3] == (FrameStep::Draw { vertices: 3, instances: 1 }),
{
    reveal_with_fuel(submit_count, 8);
    reveal_with_fuel(present_count, 8);
}

} // verus!
