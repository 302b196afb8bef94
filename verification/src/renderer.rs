use vstd::prelude::*;

use crate::error::GegError;
use crate::swapchain::{chain_build_fails, chain_error_expected, chain_from, Extent2d, PixelFormat,
    SurfaceInfo, SwapImageChain};
use crate::targets::{targets_match, FrameTargets};

verus! {

/// The fixed triangle drawn each tick.
pub const TRIANGLE_VERTEX_COUNT: u32 = 3;

/// Each draw covers a single instance.
pub const DRAW_INSTANCE_COUNT: u32 = 1;

/// A GPU completion handle: either already complete (nothing outstanding, or
/// the placeholder after a lost handle) or pending the submission it names.
#[derive(Clone, Copy, Debug, PartialEq, Eq, Structural)]
pub enum FrameHandle {
    Ready,
    Pending(u64),
}

/// What acquiring the next presentable image came back with.
#[derive(Clone, Copy, Debug, PartialEq, Eq, Structural)]
pub enum AcquireOutcome {
    /// The index of the acquired image, and whether the chain is suboptimal
    /// for the surface.
    Image { index: u32, suboptimal: bool },
    /// The chain no longer matches the surface; it must be rebuilt before
    /// the next acquire succeeds.
    OutOfDate,
    /// Any other acquire failure.
    Failed,
}

/// What submitting a recorded frame came back with.
#[derive(Clone, Copy, Debug, PartialEq, Eq, Structural)]
pub enum SubmitOutcome {
    /// A completion handle for the submission was obtained.
    Signaled(u64),
    /// No handle could be obtained; pacing falls back to an already-complete
    /// placeholder.
    Failed,
}

/// The one clear color a frame begins with.
#[derive(Clone, Copy, Debug, PartialEq, Eq, Structural)]
pub enum ClearColor {
    OpaqueBlack,
}

/// One tick's recorded work: which framebuffer to draw into and with what
/// fixed parameters, and which earlier completion handle the submission must
/// wait on, jointly with the acquire signal.
#[derive(Clone, Copy, Debug, PartialEq, Eq, Structural)]
pub struct DrawCall {
    pub image_index: u32,
    pub vertex_count: u32,
    pub instance_count: u32,
    pub clear_color: ClearColor,
    pub wait_on: FrameHandle,
}

/// What a tick does: skip (no frame this tick) or record and submit one
/// draw.
#[derive(Clone, Copy, Debug, PartialEq, Eq, Structural)]
pub enum RenderAction {
    Skip,
    Draw(DrawCall),
}

/// The fixed graphics pipeline, reduced to what the protocol depends on: the
/// viewport extent, the attachment format it must share with the render
/// pass, and the fixed draw parameters.
#[derive(Clone, Copy, Debug, PartialEq, Eq, Structural)]
pub struct PipelineConfig {
    pub viewport_extent: Extent2d,
    pub attachment_format: PixelFormat,
    pub vertex_count: u32,
    pub instance_count: u32,
}

/// The per-frame submission pipeline: the image chain and frame targets it
/// draws into, the fixed pipeline, and the completion handle of the last
/// submitted frame.
#[derive(Clone, Debug)]
pub struct Renderer {
    pub chain: SwapImageChain,
    pub targets: FrameTargets,
    pub pipeline: PipelineConfig,
    pub last_frame: FrameHandle,
}

/// The completion handle retained after a submission: the signaled handle,
/// or the already-complete placeholder when none could be obtained.
pub open spec fn handle_after(outcome: SubmitOutcome) -> FrameHandle {
    match outcome {
        SubmitOutcome::Signaled(h) => FrameHandle::Pending(h),
        SubmitOutcome::Failed => FrameHandle::Ready,
    }
}

/// The tick decision: an acquired in-range image is drawn with the fixed
/// parameters, gated on the previous frame's handle; an out-of-date chain
/// skips the tick without error; anything else is fatal.
pub open spec fn planned_action(r: Renderer, outcome: AcquireOutcome) -> Result<
    RenderAction,
    GegError,
> {
    match outcome {
        AcquireOutcome::Image { index, suboptimal } => {
            if index < r.chain.images@.len() {
                Ok(
                    RenderAction::Draw(
                        DrawCall {
                            image_index: index,
                            vertex_count: TRIANGLE_VERTEX_COUNT,
                            instance_count: DRAW_INSTANCE_COUNT,
                            clear_color: ClearColor::OpaqueBlack,
                            wait_on: r.last_frame,
                        },
                    ),
                )
            } else {
                Err(GegError::InvalidImageIndex)
            }
        },
        AcquireOutcome::OutOfDate => Ok(RenderAction::Skip),
        AcquireOutcome::Failed => Err(GegError::AcquireFailed),
    }
}

impl Renderer {
    /// A well-formed renderer: its chain is well formed, its targets were
    /// built from that chain, and its pipeline matches the chain's format
    /// and extent and carries the fixed draw parameters.
    pub open spec fn wf(self) -> bool {
        &&& self.chain.wf()
        &&& targets_match(self.targets, self.chain)
        &&& self.pipeline.attachment_format == self.chain.format
        &&& self.pipeline.viewport_extent == self.chain.extent
        &&& self.pipeline.vertex_count == TRIANGLE_VERTEX_COUNT
        &&& self.pipeline.instance_count == DRAW_INSTANCE_COUNT
    }

    /// Builds the renderer: negotiates the image chain against the surface,
    /// builds the frame targets from it, sizes the pipeline's viewport to
    /// the window's current extent, and starts with an already-complete
    /// frame handle. Fails exactly when the chain build fails.
    pub fn new(surface: &SurfaceInfo, extent: Extent2d, images: Vec<u64>) -> (r: Result<
        Renderer,
        GegError,
    >)
        requires
            surface.capabilities.min_image_count < u32::MAX,
        ensures
            match r {
                Ok(rd) => {
                    &&& rd.wf()
                    &&& chain_from(*surface, extent, images@, rd.chain)
                    &&& rd.last_frame == FrameHandle::Ready
                },
                Err(e) => chain_error_expected(*surface, images@, e),
            },
            r is Err <==> chain_build_fails(*surface, images@),
    {
        let chain = match SwapImageChain::new(surface, extent, images) {
            Ok(c) => c,
            Err(e) => {
                return Err(e);
            },
        };
        let targets = FrameTargets::new(&chain);
        let pipeline = PipelineConfig {
            viewport_extent: extent,
            attachment_format: chain.format,
            vertex_count: TRIANGLE_VERTEX_COUNT,
            instance_count: DRAW_INSTANCE_COUNT,
        };
        Ok(Renderer { chain, targets, pipeline, last_frame: FrameHandle::Ready })
    }

    /// Decides one tick from the acquire outcome: an in-range image index
    /// yields the fixed draw gated on the previous frame's completion
    /// handle; an out-of-date chain skips the tick without error; an
    /// out-of-range index or any other acquire failure is fatal.
    pub fn plan_frame(&self, outcome: AcquireOutcome) -> (r: Result<RenderAction, GegError>)
        ensures
            r == planned_action(*self, outcome),
    {
        match outcome {
            AcquireOutcome::Image { index, suboptimal: _ } => {
                if (index as usize) < self.chain.images.len() {
                    Ok(
                        RenderAction::Draw(
                            DrawCall {
                                image_index: index,
                                vertex_count: TRIANGLE_VERTEX_COUNT,
                                instance_count: DRAW_INSTANCE_COUNT,
                                clear_color: ClearColor::OpaqueBlack,
                                wait_on: self.last_frame,
                            },
                        ),
                    )
                } else {
                    Err(GegError::InvalidImageIndex)
                }
            },
            AcquireOutcome::OutOfDate => Ok(RenderAction::Skip),
            AcquireOutcome::Failed => Err(GegError::AcquireFailed),
        }
    }

    /// Retains the completion handle of the frame just submitted, or the
    /// already-complete placeholder when none could be obtained; nothing
    /// else changes.
    pub fn complete_frame(&mut self, outcome: SubmitOutcome)
        ensures
            final(self).last_frame == handle_after(outcome),
            final(self).chain == old(self).chain,
            final(self).targets == old(self).targets,
            final(self).pipeline == old(self).pipeline,
    {
        self.last_frame = match outcome {
            SubmitOutcome::Signaled(h) => FrameHandle::Pending(h),
            SubmitOutcome::Failed => FrameHandle::Ready,
        };
    }

    /// Rebuilds the image chain and frame targets against the surface at the
    /// new extent and resizes the pipeline's viewport to match; the retained
    /// completion handle carries over. On failure nothing changes.
    pub fn resize(&mut self, surface: &SurfaceInfo, width: u32, height: u32, images: Vec<u64>) -> (r:
        Result<(), GegError>)
        requires
            surface.capabilities.min_image_count < u32::MAX,
        ensures
            match r {
                Ok(_) => {
                    &&& final(self).wf()
                    &&& chain_from(
                        *surface,
                        Extent2d { width, height },
                        images@,
                        final(self).chain,
                    )
                    &&& final(self).pipeline.viewport_extent == (Extent2d { width, height })
                    &&& final(self).last_frame == old(self).last_frame
                },
                Err(e) => {
                    &&& chain_error_expected(*surface, images@, e)
                    &&& *final(self) == *old(self)
                },
            },
            r is Err <==> chain_build_fails(*surface, images@),
    {
        match Renderer::new(surface, Extent2d { width, height }, images) {
            Ok(mut rebuilt) => {
                rebuilt.last_frame = self.last_frame;
                *self = rebuilt;
                Ok(())
            },
            Err(e) => Err(e),
        }
    }
}

/// Framebuffers correspond one-to-one with the chain's presentable images in
/// every well-formed renderer, so after every build and rebuild.
pub proof fn lemma_targets_one_per_image(r: Renderer)
    requires
        r.wf(),
    ensures
        r.targets.frame_buffers@.len() == r.chain.images@.len(),
        forall|i: int|
            0 <= i < r.chain.images@.len() ==> (#[trigger] r.targets.frame_buffers@[i]).attachment
                == r.chain.images@[i],
{
}

/// A tick that finds the chain out of date produces no frame and no error,
/// and whatever a later submission comes back with, the retained handle is
/// again ready or pending — never broken — so subsequent ticks stay safe.
pub proof fn lemma_stale_tick_is_safe(r: Renderer, s: SubmitOutcome)
    requires
        r.wf(),
    ensures
        planned_action(r, AcquireOutcome::OutOfDate) == Ok::<RenderAction, GegError>(
            RenderAction::Skip,
        ),
        handle_after(s) == FrameHandle::Ready || (handle_after(s) matches FrameHandle::Pending(_)),
{
}

/// Every frame drawn from a well-formed renderer is the fixed triangle: the
/// acquired image's index names an existing framebuffer, three vertices, one
/// instance, cleared to opaque black, gated on the previous frame's handle.
pub proof fn lemma_draw_is_fixed_triangle(r: Renderer, index: u32, suboptimal: bool)
    requires
        r.wf(),
        index < r.chain.images@.len(),
    ensures
        planned_action(r, AcquireOutcome::Image { index, suboptimal }) == Ok::<
            RenderAction,
            GegError,
        >(
            RenderAction::Draw(
                DrawCall {
                    image_index: index,
                    vertex_count: TRIANGLE_VERTEX_COUNT,
                    instance_count: DRAW_INSTANCE_COUNT,
                    clear_color: ClearColor::OpaqueBlack,
                    wait_on: r.last_frame,
                },
            ),
        ),
        index < r.targets.frame_buffers@.len(),
{
}

} // verus!
