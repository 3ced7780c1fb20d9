//! The swapchain: the ring of presentable images negotiated with the
//! display surface, together with matching depth images and the viewport.
//!
//! The backend owns the real image memory; here each image is described by
//! its size and format.  Recreation of the ring (resizing) is a decision of
//! this module applied to the outcome the backend reports: recreation can
//! spuriously fail even for a valid size, and callers treat a failed resize
//! as "skip this frame and retry", never as fatal.

use vstd::prelude::*;
use crate::ResizeError;
use crate::format::Format;
use crate::format::Image;
use crate::format::Viewport;

verus! {

/// How presentation of finished images is paced.
#[derive(Clone, Copy, Debug, PartialEq, Eq, Structural)]
pub enum PresentMode {
    /// Present immediately, possibly tearing.
    Immediate,
    /// Queue one image and replace it when a newer one is ready.
    Mailbox,
    /// First in, first out; always supported.
    Fifo,
    /// First in, first out, but tear rather than wait when late.
    Relaxed,
}

/// A surface format offered by the backend: a pixel format with the color
/// space it is interpreted in, identified by the backend's numeric code.
#[derive(Clone, Copy, Debug, PartialEq, Eq, Structural)]
pub struct SurfaceFormat {
    /// The pixel format.
    pub format: Format,
    /// The backend's numeric code for the color space.
    pub color_space: u64,
}

/// What the backend reports about a surface when a swapchain is planned.
#[derive(Clone, Debug)]
pub struct SurfaceCapabilities {
    /// The smallest number of images the surface supports in its ring.
    pub min_image_count: usize,
    /// The surface formats the backend offers, in its preference order.
    pub supported_formats: Vec<SurfaceFormat>,
}

/// A failure the backend reports when creating a draw surface.
#[derive(Clone, Copy, Debug, PartialEq, Eq, Structural)]
pub enum SurfaceCreationError {
    /// The backend ran out of memory.
    OutOfMemory,
    /// A required windowing extension is missing.
    MissingExtension,
}

/// A failure the backend reports when querying surface capabilities.
#[derive(Clone, Copy, Debug, PartialEq, Eq, Structural)]
pub enum CapabilitiesError {
    /// The backend ran out of memory.
    OutOfMemory,
    /// The surface is no longer available.
    SurfaceLost,
}

/// A failure the backend reports when creating or recreating a swapchain.
#[derive(Clone, Copy, Debug, PartialEq, Eq, Structural)]
pub enum SwapchainBackendError {
    /// The backend ran out of memory.
    OutOfMemory,
    /// The device was lost.
    DeviceLost,
    /// The surface is no longer available.
    SurfaceLost,
    /// The native window is already in use.
    NativeWindowInUse,
    /// The requested dimensions are not supported by the surface.
    UnsupportedDimensions,
}

/// A failure the backend reports when creating an image.
#[derive(Clone, Copy, Debug, PartialEq, Eq, Structural)]
pub enum ImageCreationError {
    /// The backend ran out of memory.
    OutOfMemory,
    /// The requested usage is not supported for this format.
    UnsupportedUsage,
}

/// An error during the creation of a [`Swapchain`].
#[derive(Clone, Copy, Debug, PartialEq, Eq, Structural)]
pub enum SwapchainCreationError {
    /// Error during the creation of the draw surface.
    Surface(SurfaceCreationError),
    /// Error during querying of the draw surface's capabilities.
    SurfaceCapabilities(CapabilitiesError),
    /// Error during the creation of the swapchain itself.
    Swapchain(SwapchainBackendError),
    /// Error during the creation of a depth-buffer image.
    Image(ImageCreationError),
    /// No applicable format for the draw surface was found.
    NoCompatibleFormatFound,
    /// The window used for creation has no apparent size.
    UnsizedWindow,
}

impl From<SurfaceCreationError> for SwapchainCreationError {
    fn from(err: SurfaceCreationError) -> (r: SwapchainCreationError) {
        SwapchainCreationError::Surface(err)
    }
}

impl vstd::std_specs::convert::FromSpecImpl<SurfaceCreationError> for SwapchainCreationError {
    open spec fn obeys_from_spec() -> bool {
        true
    }

    open spec fn from_spec(err: SurfaceCreationError) -> SwapchainCreationError {
        SwapchainCreationError::Surface(err)
    }
}

impl From<ImageCreationError> for SwapchainCreationError {
    fn from(err: ImageCreationError) -> (r: SwapchainCreationError) {
        SwapchainCreationError::Image(err)
    }
}

impl vstd::std_specs::convert::FromSpecImpl<ImageCreationError> for SwapchainCreationError {
    open spec fn obeys_from_spec() -> bool {
        true
    }

    open spec fn from_spec(err: ImageCreationError) -> SwapchainCreationError {
        SwapchainCreationError::Image(err)
    }
}

/// The ring described: `count` images of the given size and format.
pub open spec fn spec_image_ring(count: nat, width: u32, height: u32, format: Format) -> Seq<
    Image,
> {
    Seq::new(count, |i: int| Image { width, height, format })
}

/// Build the description of a ring of `count` images, all with the given
/// size and format.
fn make_image_ring(count: usize, width: u32, height: u32, format: Format) -> (r: Vec<Image>)
    ensures
        r@ == spec_image_ring(count as nat, width, height, format),
{
    let mut images: Vec<Image> = Vec::new();
    let mut i: usize = 0;
    while i < count
        invariant
            i <= count,
            images@ == spec_image_ring(i as nat, width, height, format),
        decreases count - i,
    {
        images.push(Image { width, height, format });
        i = i + 1;
        proof {
            assert(images@ =~= spec_image_ring(i as nat, width, height, format));
        }
    }
    images
}

/// Choose the better of two surface formats.  The current policy keeps the
/// first format offered.
pub fn choose_better_format(first: SurfaceFormat, _second: SurfaceFormat) -> (r: SurfaceFormat)
    ensures
        r == first,
{
    first
}

/// Select the surface format to use from what the backend offers: the
/// first offered format wins; an empty offer is an error.
pub fn select_format(formats: &Vec<SurfaceFormat>) -> (r: Result<
    SurfaceFormat,
    SwapchainCreationError,
>)
    ensures
        formats@.len() == 0 ==> r == Err::<SurfaceFormat, SwapchainCreationError>(
            SwapchainCreationError::NoCompatibleFormatFound,
        ),
        formats@.len() > 0 ==> r == Ok::<SurfaceFormat, SwapchainCreationError>(formats@[0]),
{
    if formats.len() == 0 {
        return Err(SwapchainCreationError::NoCompatibleFormatFound);
    }
    let mut format = formats[0];
    let mut i: usize = 0;
    while i < formats.len()
        invariant
            i <= formats@.len(),
            formats@.len() > 0,
            format == formats@[0],
        decreases formats@.len() - i,
    {
        format = choose_better_format(format, formats[i]);
        i = i + 1;
    }
    Ok(format)
}

/// Map what the window reports about its size to usable dimensions: a
/// window with no apparent size cannot back a swapchain.
pub fn window_dimensions(size: Option<(u32, u32)>) -> (r: Result<(u32, u32), ResizeError>)
    ensures
        size is None ==> r == Err::<(u32, u32), ResizeError>(ResizeError::UnsizedWindow),
        size matches Some(d) ==> r == Ok::<(u32, u32), ResizeError>(d),
{
    match size {
        Some(d) => Ok(d),
        None => Err(ResizeError::UnsizedWindow),
    }
}

/// The infrastructure for drawing on the screen: the ring of presentable
/// color images, a matching ring of depth images, and the viewport.
#[derive(Clone, Debug)]
pub struct Swapchain {
    /// The presentable color images, in ring order.
    pub images: Vec<Image>,
    /// The depth images, one per color image.
    pub depths: Vec<Image>,
    /// The negotiated surface color format.
    pub color_format: Format,
    /// The format of every depth image.
    pub depth_format: Format,
    /// How presentation is paced.
    pub present_mode: PresentMode,
    /// Whether the depth range runs from one down to zero.
    pub inverse_depth: bool,
    /// The viewport covering the whole surface.
    pub default_viewport: Viewport,
}

impl Swapchain {
    /// The swapchain's well-formedness: the rings match in length, every
    /// image has the ring's format, and the viewport covers the images.
    pub open spec fn wf(self) -> bool {
        &&& self.images@.len() == self.depths@.len()
        &&& forall|i: int|
            0 <= i < self.images@.len() ==> #[trigger] self.images@[i].format == self.color_format
        &&& forall|i: int|
            0 <= i < self.depths@.len() ==> #[trigger] self.depths@[i].format == self.depth_format
        &&& self.default_viewport.inverse_depth == self.inverse_depth
    }

    /// Create a new swapchain plan from what the backend reports about the
    /// surface: select a supported surface format (the first compatible
    /// one), lay out color and depth rings sized to the current window
    /// pixels, and initialize the viewport.
    pub fn new(
        capabilities: &SurfaceCapabilities,
        dimensions: (u32, u32),
        present_mode: PresentMode,
        depth_format: Format,
    ) -> (r: Result<Swapchain, SwapchainCreationError>)
        ensures
            (dimensions.0 == 0 || dimensions.1 == 0) ==> r == Err::<
                Swapchain,
                SwapchainCreationError,
            >(SwapchainCreationError::UnsizedWindow),
            dimensions.0 > 0 && dimensions.1 > 0 && capabilities.supported_formats@.len() == 0
                ==> r == Err::<Swapchain, SwapchainCreationError>(
                SwapchainCreationError::NoCompatibleFormatFound,
            ),
            dimensions.0 > 0 && dimensions.1 > 0 && capabilities.supported_formats@.len() > 0 ==> {
                &&& r matches Ok(s)
                &&& s.color_format == capabilities.supported_formats@[0].format
                &&& s.images@ == spec_image_ring(
                    capabilities.min_image_count as nat,
                    dimensions.0,
                    dimensions.1,
                    capabilities.supported_formats@[0].format,
                )
                &&& s.depths@ == spec_image_ring(
                    capabilities.min_image_count as nat,
                    dimensions.0,
                    dimensions.1,
                    depth_format,
                )
                &&& s.depth_format == depth_format
                &&& s.present_mode == present_mode
                &&& !s.inverse_depth
                &&& s.default_viewport == (Viewport {
                    width: dimensions.0,
                    height: dimensions.1,
                    inverse_depth: false,
                })
                &&& s.wf()
            },
    {
        let (width, height) = dimensions;
        if width == 0 || height == 0 {
            return Err(SwapchainCreationError::UnsizedWindow);
        }
        let surface_format = match select_format(&capabilities.supported_formats) {
            Ok(f) => f,
            Err(e) => { return Err(e) },
        };
        let count = capabilities.min_image_count;
        let images = make_image_ring(count, width, height, surface_format.format);
        let depths = make_image_ring(count, width, height, depth_format);
        Ok(
            Swapchain {
                images,
                depths,
                color_format: surface_format.format,
                depth_format,
                present_mode,
                inverse_depth: false,
                default_viewport: Viewport { width, height, inverse_depth: false },
            },
        )
    }

    /// Set the depth buffer to forward (`inverse == false`) or inverse
    /// range and refresh the viewport from the current depth image size.
    pub fn inverse_depth(&mut self, inverse: bool)
        requires
            old(self).depths@.len() > 0,
        ensures
            final(self).inverse_depth == inverse,
            final(self).default_viewport == (Viewport {
                width: old(self).depths@[0].width,
                height: old(self).depths@[0].height,
                inverse_depth: inverse,
            }),
            final(self).images == old(self).images,
            final(self).depths == old(self).depths,
            final(self).color_format == old(self).color_format,
            final(self).depth_format == old(self).depth_format,
            final(self).present_mode == old(self).present_mode,
            old(self).wf() ==> final(self).wf(),
    {
        self.inverse_depth = inverse;
        let width = self.depths[0].width;
        let height = self.depths[0].height;
        self.resize_viewport(width, height);
    }

    /// Resize the rings to the given size, applying what the backend
    /// reported: `recreated` is the outcome of recreating the swapchain
    /// (carrying the new image count), and `depth_images` the outcome of
    /// recreating the depth images to match.  A degenerate size fails
    /// before anything else is considered; a backend failure leaves the
    /// rings as they were, so the caller can skip the frame and retry.
    pub fn resize(
        &mut self,
        dimensions: (u32, u32),
        recreated: Result<usize, SwapchainBackendError>,
        depth_images: Result<(), ImageCreationError>,
    ) -> (r: Result<(), ResizeError>)
        ensures
            (dimensions.0 == 0 || dimensions.1 == 0) ==> r == Err::<(), ResizeError>(
                ResizeError::UnsizedWindow,
            ) && *final(self) == *old(self),
            dimensions.0 > 0 && dimensions.1 > 0 ==> {
                &&& final(self).default_viewport == (Viewport {
                    width: dimensions.0,
                    height: dimensions.1,
                    inverse_depth: old(self).inverse_depth,
                })
                &&& final(self).color_format == old(self).color_format
                &&& final(self).depth_format == old(self).depth_format
                &&& final(self).present_mode == old(self).present_mode
                &&& final(self).inverse_depth == old(self).inverse_depth
                &&& match recreated {
                    Err(e) => {
                        &&& r == Err::<(), ResizeError>(ResizeError::Swapchain(e))
                        &&& final(self).images == old(self).images
                        &&& final(self).depths == old(self).depths
                    },
                    Ok(count) => match depth_images {
                        Err(e) => {
                            &&& r == Err::<(), ResizeError>(ResizeError::Image(e))
                            &&& final(self).images@ == spec_image_ring(
                                count as nat,
                                dimensions.0,
                                dimensions.1,
                                old(self).color_format,
                            )
                            &&& final(self).depths == old(self).depths
                        },
                        Ok(()) => {
                            &&& r == Ok::<(), ResizeError>(())
                            &&& final(self).images@ == spec_image_ring(
                                count as nat,
                                dimensions.0,
                                dimensions.1,
                                old(self).color_format,
                            )
                            &&& final(self).depths@ == spec_image_ring(
                                count as nat,
                                dimensions.0,
                                dimensions.1,
                                old(self).depth_format,
                            )
                            &&& final(self).images@.len() == final(self).depths@.len()
                            &&& forall|i: int|
                                0 <= i < final(self).depths@.len()
                                    ==> #[trigger] final(self).depths@[i] == (Image {
                                    width: dimensions.0,
                                    height: dimensions.1,
                                    format: old(self).depth_format,
                                })
                            &&& old(self).wf() ==> final(self).wf()
                        },
                    },
                }
            },
    {
        let (width, height) = dimensions;
        if width == 0 || height == 0 {
            return Err(ResizeError::UnsizedWindow);
        }
        self.resize_viewport(width, height);

        let count = match recreated {
            Ok(count) => count,
            Err(e) => { return Err(ResizeError::Swapchain(e)) },
        };
        self.images = make_image_ring(count, width, height, self.color_format);

        match depth_images {
            Ok(()) => {},
            Err(e) => { return Err(ResizeError::Image(e)) },
        }
        self.depths = make_image_ring(count, width, height, self.depth_format);
        Ok(())
    }

    /// The color image a frame draws to, indexed by the frame's acquired
    /// index; valid whenever the frame was begun against this swapchain,
    /// because acquisition and the image ring are refreshed together under
    /// resize.
    pub fn get_color_image_for(&self, frame: &crate::frame::Frame) -> (r: Image)
        requires
            frame.swapchain_index < self.images@.len(),
        ensures
            r == self.images@[frame.swapchain_index as int],
    {
        self.images[frame.swapchain_index]
    }

    /// The depth image a frame draws to, indexed by the frame's acquired
    /// index.
    pub fn get_depth_image_for(&self, frame: &crate::frame::Frame) -> (r: Image)
        requires
            frame.swapchain_index < self.depths@.len(),
        ensures
            r == self.depths@[frame.swapchain_index as int],
    {
        self.depths[frame.swapchain_index]
    }

    /// The default viewport for rendering to this swapchain.
    pub fn default_viewport(&self) -> (r: Viewport)
        ensures
            r == self.default_viewport,
    {
        self.default_viewport
    }

    /// Install the whole-surface viewport for the given size, keeping the
    /// current depth range direction.
    fn resize_viewport(&mut self, width: u32, height: u32)
        ensures
            *final(self) == (Swapchain {
                default_viewport: Viewport {
                    width,
                    height,
                    inverse_depth: old(self).inverse_depth,
                },
                ..*old(self)
            }),
    {
        let inverse_depth = self.inverse_depth;
        self.default_viewport = Viewport { width, height, inverse_depth };
    }
}

} // verus!
