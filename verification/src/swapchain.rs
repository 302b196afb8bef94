use vstd::prelude::*;

use crate::error::GegError;

verus! {

/// The pixel formats the negotiation distinguishes; anything else the
/// surface offers is carried through by its raw driver code.
#[derive(Clone, Copy, Debug, PartialEq, Eq, Structural)]
pub enum PixelFormat {
    B8G8R8A8Srgb,
    B8G8R8A8Unorm,
    R8G8B8A8Srgb,
    R8G8B8A8Unorm,
    Other(u32),
}

/// The color spaces the negotiation distinguishes.
#[derive(Clone, Copy, Debug, PartialEq, Eq, Structural)]
pub enum ColorSpace {
    SrgbNonLinear,
    Other(u32),
}

/// How presentation of a finished image is paced.
#[derive(Clone, Copy, Debug, PartialEq, Eq, Structural)]
pub enum PresentMode {
    Immediate,
    Mailbox,
    Fifo,
    FifoRelaxed,
}

/// How the surface composites the image with what is behind the window.
#[derive(Clone, Copy, Debug, PartialEq, Eq, Structural)]
pub enum CompositeAlpha {
    Opaque,
    PreMultiplied,
    PostMultiplied,
    Inherit,
}

/// The capabilities the driver reports for a surface: the least image count
/// a chain may hold, and the composite-alpha flags on offer, in the driver's
/// order.
#[derive(Clone, Debug)]
pub struct SurfaceCapabilities {
    pub min_image_count: u32,
    pub supported_composite_alpha: Vec<CompositeAlpha>,
}

/// Everything negotiation queries of a surface: its capabilities, the
/// (format, color space) pairs it can present, and its present modes, each
/// in the driver's order.
#[derive(Clone, Debug)]
pub struct SurfaceInfo {
    pub capabilities: SurfaceCapabilities,
    pub formats: Vec<(PixelFormat, ColorSpace)>,
    pub present_modes: Vec<PresentMode>,
}

/// The image chain is created only with an 8-bit sRGB BGRA format paired
/// with the non-linear sRGB color space.
pub open spec fn preferred_pair() -> (PixelFormat, ColorSpace) {
    (PixelFormat::B8G8R8A8Srgb, ColorSpace::SrgbNonLinear)
}

/// The surface offers the preferred (format, color space) pair.
pub open spec fn has_preferred_format(formats: Seq<(PixelFormat, ColorSpace)>) -> bool {
    exists|i: int| 0 <= i < formats.len() && #[trigger] formats[i] == preferred_pair()
}

/// The surface offers the low-latency (mailbox) present mode.
pub open spec fn has_mailbox(modes: Seq<PresentMode>) -> bool {
    exists|i: int| 0 <= i < modes.len() && #[trigger] modes[i] == PresentMode::Mailbox
}

/// The present mode negotiation settles on: low-latency when offered, else
/// the universally supported blocking mode.
pub open spec fn chosen_present_mode(modes: Seq<PresentMode>) -> PresentMode {
    if has_mailbox(modes) {
        PresentMode::Mailbox
    } else {
        PresentMode::Fifo
    }
}

/// A surface extent in pixels.
#[derive(Clone, Copy, Debug, PartialEq, Eq, Structural)]
pub struct Extent2d {
    pub width: u32,
    pub height: u32,
}

/// The request negotiation settles on before the driver creates the chain.
#[derive(Clone, Copy, Debug, PartialEq, Eq, Structural)]
pub struct SwapchainConfig {
    pub image_count: u32,
    pub format: PixelFormat,
    pub color_space: ColorSpace,
    pub present_mode: PresentMode,
    pub composite_alpha: CompositeAlpha,
    pub extent: Extent2d,
}

/// Negotiates the chain request against what the surface offers: one more
/// image than the reported minimum, the preferred format pair or failure,
/// the first composite-alpha flag on offer, and the low-latency present mode
/// when available, else the blocking fallback.
pub fn negotiate(surface: &SurfaceInfo, extent: Extent2d) -> (r: Result<
    SwapchainConfig,
    GegError,
>)
    requires
        surface.capabilities.min_image_count < u32::MAX,
    ensures
        match r {
            Ok(c) => {
                &&& surface.capabilities.supported_composite_alpha@.len() > 0
                &&& has_preferred_format(surface.formats@)
                &&& c.image_count == surface.capabilities.min_image_count + 1
                &&& (c.format, c.color_space) == preferred_pair()
                &&& c.present_mode == chosen_present_mode(surface.present_modes@)
                &&& c.composite_alpha == surface.capabilities.supported_composite_alpha@[0]
                &&& c.extent == extent
            },
            Err(e) => {
                &&& (e == GegError::NoCompositeAlpha <==> surface.capabilities.supported_composite_alpha@.len() == 0)
                &&& (e == GegError::NoCompatibleFormat <==> (
                    surface.capabilities.supported_composite_alpha@.len() > 0
                        && !has_preferred_format(surface.formats@)))
                &&& (e == GegError::NoCompositeAlpha || e == GegError::NoCompatibleFormat)
            },
        },
        r is Err <==> (surface.capabilities.supported_composite_alpha@.len() == 0
            || !has_preferred_format(surface.formats@)),
{
    if surface.capabilities.supported_composite_alpha.len() == 0 {
        return Err(GegError::NoCompositeAlpha);
    }
    let composite_alpha = surface.capabilities.supported_composite_alpha[0];

    let mut found: bool = false;
    let n: usize = surface.formats.len();
    let mut i: usize = 0;
    while i < n
        invariant
            n == surface.formats@.len(),
            i <= n,
            !found ==> forall|k: int|
                0 <= k < i ==> #[trigger] surface.formats@[k] != preferred_pair(),
            found ==> has_preferred_format(surface.formats@),
        decreases n - i,
    {
        let (f, cs) = surface.formats[i];
        if f == PixelFormat::B8G8R8A8Srgb && cs == ColorSpace::SrgbNonLinear {
            found = true;
        }
        i = i + 1;
    }
    if !found {
        return Err(GegError::NoCompatibleFormat);
    }

    let present_mode = pick_present_mode(&surface.present_modes);

    Ok(
        SwapchainConfig {
            image_count: surface.capabilities.min_image_count + 1,
            format: PixelFormat::B8G8R8A8Srgb,
            color_space: ColorSpace::SrgbNonLinear,
            present_mode,
            composite_alpha,
            extent,
        },
    )
}

/// Picks the low-latency present mode when the surface offers it and the
/// blocking fallback otherwise.
pub fn pick_present_mode(modes: &Vec<PresentMode>) -> (r: PresentMode)
    ensures
        r == chosen_present_mode(modes@),
{
    let n: usize = modes.len();
    let mut i: usize = 0;
    while i < n
        invariant
            n == modes@.len(),
            i <= n,
            forall|k: int| 0 <= k < i ==> #[trigger] modes@[k] != PresentMode::Mailbox,
        decreases n - i,
    {
        if modes[i] == PresentMode::Mailbox {
            return PresentMode::Mailbox;
        }
        i = i + 1;
    }
    PresentMode::Fifo
}

/// The set of presentable images negotiated with the surface, together with
/// the properties the chain was created with.
#[derive(Clone, Debug)]
pub struct SwapImageChain {
    pub images: Vec<u64>,
    pub format: PixelFormat,
    pub color_space: ColorSpace,
    pub present_mode: PresentMode,
    pub composite_alpha: CompositeAlpha,
    pub requested_count: u32,
    pub extent: Extent2d,
}

/// Exactly when building a chain against `surface` fails, whatever `images`
/// the driver would answer with: no composite-alpha flag, no preferred
/// format, or too few images.
pub open spec fn chain_build_fails(surface: SurfaceInfo, images: Seq<u64>) -> bool {
    ||| surface.capabilities.supported_composite_alpha@.len() == 0
    ||| !has_preferred_format(surface.formats@)
    ||| images.len() < surface.capabilities.min_image_count + 1
}

/// The error a failed chain build reports: each variant comes exactly on its
/// own condition, checked in the order composite alpha, format, image count.
pub open spec fn chain_error_expected(surface: SurfaceInfo, images: Seq<u64>, e: GegError) -> bool {
    &&& (e == GegError::NoCompositeAlpha <==> surface.capabilities.supported_composite_alpha@.len()
        == 0)
    &&& (e == GegError::NoCompatibleFormat <==> (
        surface.capabilities.supported_composite_alpha@.len() > 0 && !has_preferred_format(
            surface.formats@,
        )))
    &&& (e == GegError::TooFewImages <==> (surface.capabilities.supported_composite_alpha@.len()
        > 0 && has_preferred_format(surface.formats@) && images.len()
        < surface.capabilities.min_image_count + 1))
    &&& (e == GegError::NoCompositeAlpha || e == GegError::NoCompatibleFormat
        || e == GegError::TooFewImages)
}

/// The build relation of the image chain: `c` is what a (re)build against
/// `surface` at `extent` yields when the driver answers the request with
/// `images`. The request asked for one image more than the reported minimum
/// and the driver returned at least that many.
pub open spec fn chain_from(
    surface: SurfaceInfo,
    extent: Extent2d,
    images: Seq<u64>,
    c: SwapImageChain,
) -> bool {
    &&& c.images@ == images
    &&& (c.format, c.color_space) == preferred_pair()
    &&& c.present_mode == chosen_present_mode(surface.present_modes@)
    &&& c.composite_alpha == surface.capabilities.supported_composite_alpha@[0]
    &&& c.requested_count == surface.capabilities.min_image_count + 1
    &&& c.extent == extent
    &&& c.images@.len() >= c.requested_count
}

impl SwapImageChain {
    /// A well-formed chain holds at least as many images as it requested,
    /// and it requested at least one.
    pub open spec fn wf(self) -> bool {
        &&& self.images@.len() >= self.requested_count
        &&& self.requested_count >= 1
    }

    /// Builds the chain: negotiates the request against the surface and
    /// accepts the images the driver answered with, which must be at least
    /// as many as were requested. Fails exactly when negotiation fails or
    /// the driver returned too few images.
    pub fn new(surface: &SurfaceInfo, extent: Extent2d, images: Vec<u64>) -> (r: Result<
        SwapImageChain,
        GegError,
    >)
        requires
            surface.capabilities.min_image_count < u32::MAX,
        ensures
            match r {
                Ok(c) => {
                    &&& chain_from(*surface, extent, images@, c)
                    &&& c.wf()
                },
                Err(e) => chain_error_expected(*surface, images@, e),
            },
            r is Err <==> chain_build_fails(*surface, images@),
    {
        let config = match negotiate(surface, extent) {
            Ok(c) => c,
            Err(e) => {
                return Err(e);
            },
        };
        if images.len() < config.image_count as usize {
            return Err(GegError::TooFewImages);
        }
        Ok(
            SwapImageChain {
                images,
                format: config.format,
                color_space: config.color_space,
                present_mode: config.present_mode,
                composite_alpha: config.composite_alpha,
                requested_count: config.image_count,
                extent,
            },
        )
    }

    /// The presentable images, in driver order.
    pub fn images(&self) -> (r: &Vec<u64>)
        ensures
            r@ == self.images@,
    {
        &self.images
    }

    /// The pixel format the chain was created with.
    pub fn format(&self) -> (r: PixelFormat)
        ensures
            r == self.format,
    {
        self.format
    }

    /// The color space the chain was created with.
    pub fn color_space(&self) -> (r: ColorSpace)
        ensures
            r == self.color_space,
    {
        self.color_space
    }
}

/// Rebuilding the chain against the same surface at the same extent yields
/// the same format, color space and present mode, and as many images as the
/// driver answers with: negotiation is idempotent while the surface's
/// capabilities are unchanged.
pub proof fn lemma_rebuild_idempotent(
    surface: SurfaceInfo,
    extent: Extent2d,
    images1: Seq<u64>,
    images2: Seq<u64>,
    c1: SwapImageChain,
    c2: SwapImageChain,
)
    requires
        chain_from(surface, extent, images1, c1),
        chain_from(surface, extent, images2, c2),
        images1.len() == images2.len(),
    ensures
        c1.images@.len() == c2.images@.len(),
        c1.format == c2.format,
        c1.color_space == c2.color_space,
        c1.present_mode == c2.present_mode,
        c1.composite_alpha == c2.composite_alpha,
        c1.requested_count == c2.requested_count,
        c1.extent == c2.extent,
{
}

/// Every chain the build relation admits requested exactly one image more
/// than the surface's reported minimum, and holds no fewer than that.
pub proof fn lemma_chain_count(
    surface: SurfaceInfo,
    extent: Extent2d,
    images: Seq<u64>,
    c: SwapImageChain,
)
    requires
        chain_from(surface, extent, images, c),
    ensures
        c.requested_count == surface.capabilities.min_image_count + 1,
        c.images@.len() >= surface.capabilities.min_image_count + 1,
{
}

} // verus!
