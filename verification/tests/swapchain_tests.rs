use gaclen::ResizeError;
use gaclen::format::Format;
use gaclen::format::Image;
use gaclen::format::Viewport;
use gaclen::swapchain::ImageCreationError;
use gaclen::swapchain::PresentMode;
use gaclen::swapchain::Swapchain;
use gaclen::swapchain::SwapchainBackendError;
use gaclen::swapchain::SwapchainCreationError;
use gaclen::swapchain::SurfaceCapabilities;
use gaclen::swapchain::SurfaceFormat;
use gaclen::swapchain::choose_better_format;
use gaclen::swapchain::select_format;
use gaclen::swapchain::window_dimensions;

fn srgb() -> SurfaceFormat {
    SurfaceFormat { format: Format { code: 50, depth: false }, color_space: 0 }
}

fn unorm() -> SurfaceFormat {
    SurfaceFormat { format: Format { code: 44, depth: false }, color_space: 0 }
}

fn depth16() -> Format {
    Format { code: 124, depth: true }
}

fn capabilities(count: usize) -> SurfaceCapabilities {
    SurfaceCapabilities { min_image_count: count, supported_formats: vec![srgb(), unorm()] }
}

fn fresh_swapchain() -> Swapchain {
    Swapchain::new(&capabilities(3), (800, 600), PresentMode::Fifo, depth16()).unwrap()
}

#[test]
fn new_swapchain_sizes_both_rings_to_the_window() {
    let swapchain = fresh_swapchain();
    assert_eq!(swapchain.images.len(), 3);
    assert_eq!(swapchain.depths.len(), 3);
    assert_eq!(swapchain.color_format, srgb().format);
    assert_eq!(swapchain.depth_format, depth16());
    assert!(!swapchain.inverse_depth);
    assert_eq!(
        swapchain.default_viewport(),
        Viewport { width: 800, height: 600, inverse_depth: false }
    );
    for image in &swapchain.images {
        assert_eq!(*image, Image { width: 800, height: 600, format: srgb().format });
    }
    for depth in &swapchain.depths {
        assert_eq!(*depth, Image { width: 800, height: 600, format: depth16() });
    }
}

#[test]
fn new_swapchain_rejects_degenerate_sizes_and_empty_offers() {
    let unsized_window =
        Swapchain::new(&capabilities(3), (0, 600), PresentMode::Fifo, depth16());
    assert_eq!(unsized_window.err(), Some(SwapchainCreationError::UnsizedWindow));

    let no_formats = Swapchain::new(
        &SurfaceCapabilities { min_image_count: 3, supported_formats: Vec::new() },
        (800, 600),
        PresentMode::Fifo,
        depth16(),
    );
    assert_eq!(no_formats.err(), Some(SwapchainCreationError::NoCompatibleFormatFound));
}

/// After a successful resize the color and depth rings match in length and
/// every depth image has the new dimensions.
#[test]
fn resize_recreates_both_rings_at_the_new_size() {
    let mut swapchain = fresh_swapchain();
    let result = swapchain.resize((1024, 768), Ok(4), Ok(()));
    assert_eq!(result, Ok(()));
    assert_eq!(swapchain.images.len(), swapchain.depths.len());
    assert_eq!(swapchain.images.len(), 4);
    for depth in &swapchain.depths {
        assert_eq!(depth.width, 1024);
        assert_eq!(depth.height, 768);
        assert_eq!(depth.format, depth16());
    }
    for image in &swapchain.images {
        assert_eq!(image.width, 1024);
        assert_eq!(image.height, 768);
        assert_eq!(image.format, srgb().format);
    }
    assert_eq!(
        swapchain.default_viewport(),
        Viewport { width: 1024, height: 768, inverse_depth: false }
    );
}

#[test]
fn resize_failures_are_distinguishable_and_keep_the_rings() {
    let mut swapchain = fresh_swapchain();

    let degenerate = swapchain.resize((0, 768), Ok(4), Ok(()));
    assert_eq!(degenerate, Err(ResizeError::UnsizedWindow));
    assert_eq!(swapchain.images.len(), 3);

    let backend = swapchain.resize(
        (1024, 768),
        Err(SwapchainBackendError::UnsupportedDimensions),
        Ok(()),
    );
    assert_eq!(
        backend,
        Err(ResizeError::Swapchain(SwapchainBackendError::UnsupportedDimensions))
    );
    assert_eq!(swapchain.images.len(), 3);
    assert_eq!(swapchain.depths.len(), 3);
    assert_eq!(swapchain.images[0].width, 800);

    let depth_failure = swapchain.resize(
        (1024, 768),
        Ok(4),
        Err(ImageCreationError::OutOfMemory),
    );
    assert_eq!(
        depth_failure,
        Err(ResizeError::Image(ImageCreationError::OutOfMemory))
    );
    assert_eq!(swapchain.images.len(), 4);
    assert_eq!(swapchain.depths.len(), 3);
}

#[test]
fn inverse_depth_flips_the_viewport_range() {
    let mut swapchain = fresh_swapchain();
    swapchain.inverse_depth(true);
    assert!(swapchain.inverse_depth);
    assert_eq!(
        swapchain.default_viewport(),
        Viewport { width: 800, height: 600, inverse_depth: true }
    );
}

#[test]
fn format_selection_takes_the_first_offer() {
    assert_eq!(select_format(&vec![srgb(), unorm()]), Ok(srgb()));
    assert_eq!(
        select_format(&Vec::new()),
        Err(SwapchainCreationError::NoCompatibleFormatFound)
    );
    assert_eq!(choose_better_format(srgb(), unorm()), srgb());
}

#[test]
fn window_dimensions_rejects_a_sizeless_window() {
    assert_eq!(window_dimensions(None), Err(ResizeError::UnsizedWindow));
    assert_eq!(window_dimensions(Some((640, 480))), Ok((640, 480)));
}
