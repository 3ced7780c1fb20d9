use gaclen::builder::BuildError;
use gaclen::builder::GraphicsPipelineCreationError;
use gaclen::builder::RenderPassCreationError;
use gaclen::device::DeviceCreationError;
use gaclen::device::LogicalDeviceError;
use gaclen::format::ClearValue;
use gaclen::format::Format;
use gaclen::format::b8g8r8a8_srgb;
use gaclen::format::d16_unorm;
use gaclen::format::d32_sfloat;
use gaclen::presets::FramebufferCreationError;
use gaclen::presets::PassCreationError;
use gaclen::swapchain::SurfaceCreationError;
use gaclen::swapchain::SwapchainCreationError;

#[test]
fn known_formats_carry_their_depth_capability() {
    assert_eq!(b8g8r8a8_srgb(), Format { code: 50, depth: false });
    assert_eq!(d16_unorm(), Format { code: 124, depth: true });
    assert_eq!(d32_sfloat(), Format { code: 126, depth: true });
}

#[test]
fn clear_values_preserve_their_bit_patterns() {
    let color = ClearValue::Float([
        1.0f32.to_bits(),
        0.25f32.to_bits(),
        0.0f32.to_bits(),
        1.0f32.to_bits(),
    ]);
    match color {
        ClearValue::Float(bits) => {
            assert_eq!(f32::from_bits(bits[0]), 1.0);
            assert_eq!(f32::from_bits(bits[1]), 0.25);
        }
        _ => panic!("a color clear stays a color clear"),
    }
    let depth = ClearValue::Depth(1.0f32.to_bits());
    assert_ne!(depth, ClearValue::Unused);
}

#[test]
fn error_wrappers_keep_the_underlying_kind() {
    assert_eq!(
        BuildError::from(RenderPassCreationError::OutOfMemory),
        BuildError::RenderPassCreation(RenderPassCreationError::OutOfMemory)
    );
    assert_eq!(
        BuildError::from(GraphicsPipelineCreationError::Backend),
        BuildError::GraphicsPipelineCreation(GraphicsPipelineCreationError::Backend)
    );
    assert_eq!(
        DeviceCreationError::from(LogicalDeviceError::ExtensionNotPresent),
        DeviceCreationError::Logical(LogicalDeviceError::ExtensionNotPresent)
    );
    assert_eq!(
        SwapchainCreationError::from(SurfaceCreationError::MissingExtension),
        SwapchainCreationError::Surface(SurfaceCreationError::MissingExtension)
    );
    assert_eq!(
        PassCreationError::from(FramebufferCreationError::AttachmentsCountMismatch),
        PassCreationError::Framebuffer(FramebufferCreationError::AttachmentsCountMismatch)
    );
}
