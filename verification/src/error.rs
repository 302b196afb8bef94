use vstd::prelude::*;

verus! {

/// The fatal failures of the rendering backend, one variant per failing
/// stage, so that a caller can observe a failure without the process
/// aborting. The only recoverable per-frame condition, an out-of-date image
/// chain, is not an error: a tick that hits it simply produces no frame.
#[derive(Clone, Copy, Debug, PartialEq, Eq, Structural)]
pub enum GegError {
    /// No enumerated physical device supports the presentation extension
    /// together with a queue family that has graphics and present support.
    NoSuitableDevice,
    /// The surface offers no composite-alpha flag at all.
    NoCompositeAlpha,
    /// The surface offers no sRGB BGRA format with non-linear sRGB color
    /// space.
    NoCompatibleFormat,
    /// The driver handed back fewer presentable images than were requested.
    TooFewImages,
    /// An acquired image index lies outside the chain's image list.
    InvalidImageIndex,
    /// Acquiring the next presentable image failed for a reason other than
    /// the chain being out of date.
    AcquireFailed,
}

} // verus!
