use gaclen::ResizeError;
use gaclen::swapchain::ImageCreationError;
use gaclen::swapchain::SwapchainBackendError;

#[test]
fn it_works() {
    assert_eq!(2 + 2, 4);
}

#[test]
fn resize_error_from_backend_errors() {
    assert_eq!(
        ResizeError::from(SwapchainBackendError::SurfaceLost),
        ResizeError::Swapchain(SwapchainBackendError::SurfaceLost)
    );
    assert_eq!(
        ResizeError::from(ImageCreationError::OutOfMemory),
        ResizeError::Image(ImageCreationError::OutOfMemory)
    );
}
