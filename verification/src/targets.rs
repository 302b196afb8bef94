use vstd::prelude::*;

use crate::swapchain::{PixelFormat, SwapImageChain};

verus! {

/// What happens to an attachment's contents when a render pass begins.
#[derive(Clone, Copy, Debug, PartialEq, Eq, Structural)]
pub enum LoadOp {
    Clear,
    Load,
}

/// What happens to an attachment's contents when a render pass ends.
#[derive(Clone, Copy, Debug, PartialEq, Eq, Structural)]
pub enum StoreOp {
    Store,
    DontCare,
}

/// The render-pass description the targets are built around: a single color
/// attachment that is cleared on load and stored on completion, single
/// sampled, in the image chain's format, with no depth or stencil
/// attachment.
#[derive(Clone, Copy, Debug, PartialEq, Eq, Structural)]
pub struct RenderPassDesc {
    pub format: PixelFormat,
    pub samples: u32,
    pub load_op: LoadOp,
    pub store_op: StoreOp,
}

/// One framebuffer: a binding of the render pass to the default view of one
/// presentable image, named here by that image.
#[derive(Clone, Copy, Debug, PartialEq, Eq, Structural)]
pub struct Framebuffer {
    pub attachment: u64,
}

/// The render pass and its framebuffers, one per presentable image of the
/// chain they were built from, indexed identically to the chain's images.
#[derive(Clone, Debug)]
pub struct FrameTargets {
    pub render_pass: RenderPassDesc,
    pub frame_buffers: Vec<Framebuffer>,
}

/// The build relation of the frame targets: `t` is what a (re)build against
/// the chain `c` yields. There is exactly one framebuffer per presentable
/// image, each binding the corresponding image as its single color
/// attachment, and the render pass clears, stores, and uses the chain's
/// format at one sample.
pub open spec fn targets_match(t: FrameTargets, c: SwapImageChain) -> bool {
    &&& t.frame_buffers@.len() == c.images@.len()
    &&& forall|i: int|
        0 <= i < c.images@.len() ==> (#[trigger] t.frame_buffers@[i]).attachment == c.images@[i]
    &&& t.render_pass.format == c.format
    &&& t.render_pass.samples == 1
    &&& t.render_pass.load_op == LoadOp::Clear
    &&& t.render_pass.store_op == StoreOp::Store
}

impl FrameTargets {
    /// Builds the render pass and one framebuffer for each presentable
    /// image of the chain.
    pub fn new(chain: &SwapImageChain) -> (t: FrameTargets)
        ensures
            targets_match(t, *chain),
    {
        let render_pass = RenderPassDesc {
            format: chain.format(),
            samples: 1,
            load_op: LoadOp::Clear,
            store_op: StoreOp::Store,
        };

        let images = chain.images();
        let n: usize = images.len();
        let mut frame_buffers: Vec<Framebuffer> = Vec::new();
        let mut i: usize = 0;
        while i < n
            invariant
                n == images@.len(),
                images@ == chain.images@,
                i <= n,
                frame_buffers@.len() == i,
                forall|k: int|
                    0 <= k < i ==> (#[trigger] frame_buffers@[k]).attachment == images@[k],
            decreases n - i,
        {
            frame_buffers.push(Framebuffer { attachment: images[i] });
            i = i + 1;
        }

        FrameTargets { render_pass, frame_buffers }
    }

    /// The render-pass description, for pipeline compatibility.
    pub fn render_pass(&self) -> (r: RenderPassDesc)
        ensures
            r == self.render_pass,
    {
        self.render_pass
    }

    /// The framebuffers, indexed identically to the chain's image list.
    pub fn frame_buffers(&self) -> (r: &Vec<Framebuffer>)
        ensures
            r@ == self.frame_buffers@,
    {
        &self.frame_buffers
    }
}

} // verus!
