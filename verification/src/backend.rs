use vstd::prelude::*;

use crate::device::{selection_ok, suitable, Device, PhysicalDeviceInfo};
use crate::error::GegError;
use crate::renderer::{handle_after, planned_action, AcquireOutcome, FrameHandle, RenderAction,
    Renderer, SubmitOutcome};
use crate::swapchain::{chain_build_fails, chain_error_expected, chain_from, Extent2d, SurfaceInfo};

verus! {

/// The graphics binding the backend runs on, chosen once at startup.
#[derive(Clone, Copy, Debug, PartialEq, Eq, Structural)]
pub enum GegBackend {
    Vulkano,
    Wgpu,
}

/// The composition root of the rendering backend: the selected device and
/// the renderer built on it, in that dependency order, behind the per-tick
/// `update` and the `resize` hook.
#[derive(Clone, Debug)]
pub struct GraphicsContext {
    pub backend_type: GegBackend,
    pub device: Device,
    pub renderer: Renderer,
}

impl GraphicsContext {
    /// A well-formed context holds a policy-selected device and a well-formed
    /// renderer.
    pub open spec fn wf(self) -> bool {
        &&& self.device.wf()
        &&& self.renderer.wf()
    }

    /// Builds the whole backend: selects the device against the enumerated
    /// physical devices, then builds the renderer (image chain, frame
    /// targets, pipeline) against the surface at the window's current
    /// extent. Fails exactly when no device is suitable or the chain build
    /// fails, in that order.
    pub fn new(
        backend_type: GegBackend,
        devices: Vec<PhysicalDeviceInfo>,
        surface: &SurfaceInfo,
        extent: Extent2d,
        images: Vec<u64>,
    ) -> (r: Result<GraphicsContext, GegError>)
        requires
            forall|k: int|
                0 <= k < devices@.len() ==> (#[trigger] devices@[k]).queue_families@.len()
                    <= u32::MAX,
            surface.capabilities.min_image_count < u32::MAX,
        ensures
            match r {
                Ok(g) => {
                    &&& g.wf()
                    &&& g.backend_type == backend_type
                    &&& exists|j: int|
                        {
                            &&& #[trigger] selection_ok(
                                devices@,
                                j,
                                g.device.queue_family_index as int,
                            )
                            &&& g.device.physical == devices@[j]
                        }
                    &&& chain_from(*surface, extent, images@, g.renderer.chain)
                    &&& g.renderer.last_frame == FrameHandle::Ready
                },
                Err(e) => {
                    if forall|k: int| 0 <= k < devices@.len() ==> !suitable(#[trigger] devices@[k]) {
                        e == GegError::NoSuitableDevice
                    } else {
                        chain_error_expected(*surface, images@, e)
                    }
                },
            },
            r is Err <==> ((forall|k: int|
                0 <= k < devices@.len() ==> !suitable(#[trigger] devices@[k]))
                || chain_build_fails(*surface, images@)),
    {
        let device = match Device::new(devices) {
            Ok(d) => d,
            Err(e) => {
                return Err(e);
            },
        };
        let renderer = match Renderer::new(surface, extent, images) {
            Ok(rd) => rd,
            Err(e) => {
                return Err(e);
            },
        };
        Ok(GraphicsContext { backend_type, device, renderer })
    }

    /// One tick: decides what to render from the acquire outcome, exactly as
    /// the renderer does.
    pub fn update(&self, outcome: AcquireOutcome) -> (r: Result<RenderAction, GegError>)
        ensures
            r == planned_action(self.renderer, outcome),
    {
        self.renderer.plan_frame(outcome)
    }

    /// Hands the renderer what the submission came back with; the device and
    /// the rest of the renderer are untouched.
    pub fn frame_submitted(&mut self, outcome: SubmitOutcome)
        ensures
            final(self).renderer.last_frame == handle_after(outcome),
            final(self).renderer.chain == old(self).renderer.chain,
            final(self).renderer.targets == old(self).renderer.targets,
            final(self).renderer.pipeline == old(self).renderer.pipeline,
            final(self).device == old(self).device,
            final(self).backend_type == old(self).backend_type,
    {
        self.renderer.complete_frame(outcome);
    }

    /// Rebuilds the image chain, frame targets and pipeline viewport against
    /// the surface at the new extent; the device is untouched, and on
    /// failure nothing changes.
    pub fn resize(
        &mut self,
        surface: &SurfaceInfo,
        width: u32,
        height: u32,
        images: Vec<u64>,
    ) -> (r: Result<(), GegError>)
        requires
            surface.capabilities.min_image_count < u32::MAX,
        ensures
            final(self).device == old(self).device,
            final(self).backend_type == old(self).backend_type,
            match r {
                Ok(_) => {
                    &&& final(self).renderer.wf()
                    &&& chain_from(
                        *surface,
                        Extent2d { width, height },
                        images@,
                        final(self).renderer.chain,
                    )
                    &&& final(self).renderer.pipeline.viewport_extent == (Extent2d {
                        width,
                        height,
                    })
                    &&& final(self).renderer.last_frame == old(self).renderer.last_frame
                },
                Err(e) => {
                    &&& chain_error_expected(*surface, images@, e)
                    &&& *final(self) == *old(self)
                },
            },
            r is Err <==> chain_build_fails(*surface, images@),
    {
        self.renderer.resize(surface, width, height, images)
    }
}

} // verus!
