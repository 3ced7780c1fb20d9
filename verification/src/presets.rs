//! Ready-made pass configurations: a shadow pass that renders geometry to
//! a depth buffer, and an albedo pass that draws shaded geometry to the
//! swapchain's presentable image with a depth test.
//!
//! Both are compositions of the [`GraphicalPassBuilder`] checklist, so the
//! same validation applies: shader stages, specialization-constant kinds
//! and vertex-input compatibility are checked before a pass exists.

use vstd::prelude::*;
use crate::ResizeError;
use crate::builder::BuildError;
use crate::builder::GraphicalPass;
use crate::builder::GraphicsPipelineCreationError;
use crate::builder::Pipeline;
use crate::builder::PresentPass;
use crate::builder::RenderPassCreationError;
use crate::builder::Shader;
use crate::builder::ShaderStage;
use crate::builder::SpecializationConstants;
use crate::builder::vertex_input_satisfies;
use crate::format::Format;
use crate::format::Image;
use crate::format::LoadOp;
use crate::format::StoreOp;
use crate::pass::GraphicalRenderPassDescription;
use crate::swapchain::ImageCreationError;
use crate::swapchain::Swapchain;

verus! {

/// A failure the backend reports when creating a framebuffer.
#[derive(Clone, Copy, Debug, PartialEq, Eq, Structural)]
pub enum FramebufferCreationError {
    /// The backend ran out of memory.
    OutOfMemory,
    /// The number of images does not match the attachment count.
    AttachmentsCountMismatch,
    /// An image's dimensions do not fit the framebuffer.
    AttachmentDimensionsIncompatible,
}

/// Error during the creation of a preset pass.
#[derive(Clone, Copy, Debug, PartialEq, Eq, Structural)]
pub enum PassCreationError {
    /// Error during creation of the underlying render pass.
    RenderPass(RenderPassCreationError),
    /// Error during creation of the underlying graphics pipeline.
    GraphicsPipeline(GraphicsPipelineCreationError),
    /// Error during initial resizing.
    Resize(ResizeError),
    /// Error creating an attached image resource.
    Image(ImageCreationError),
    /// Error creating framebuffers for the pass images.
    Framebuffer(FramebufferCreationError),
    /// The custom format supplied is not supported for this pass type.
    IncorrectFormat,
}

impl From<RenderPassCreationError> for PassCreationError {
    fn from(err: RenderPassCreationError) -> (r: PassCreationError) {
        PassCreationError::RenderPass(err)
    }
}

impl vstd::std_specs::convert::FromSpecImpl<RenderPassCreationError> for PassCreationError {
    open spec fn obeys_from_spec() -> bool {
        true
    }

    open spec fn from_spec(err: RenderPassCreationError) -> PassCreationError {
        PassCreationError::RenderPass(err)
    }
}

impl From<GraphicsPipelineCreationError> for PassCreationError {
    fn from(err: GraphicsPipelineCreationError) -> (r: PassCreationError) {
        PassCreationError::GraphicsPipeline(err)
    }
}

impl vstd::std_specs::convert::FromSpecImpl<GraphicsPipelineCreationError> for PassCreationError {
    open spec fn obeys_from_spec() -> bool {
        true
    }

    open spec fn from_spec(err: GraphicsPipelineCreationError) -> PassCreationError {
        PassCreationError::GraphicsPipeline(err)
    }
}

impl From<ResizeError> for PassCreationError {
    fn from(err: ResizeError) -> (r: PassCreationError) {
        PassCreationError::Resize(err)
    }
}

impl vstd::std_specs::convert::FromSpecImpl<ResizeError> for PassCreationError {
    open spec fn obeys_from_spec() -> bool {
        true
    }

    open spec fn from_spec(err: ResizeError) -> PassCreationError {
        PassCreationError::Resize(err)
    }
}

impl From<ImageCreationError> for PassCreationError {
    fn from(err: ImageCreationError) -> (r: PassCreationError) {
        PassCreationError::Image(err)
    }
}

impl vstd::std_specs::convert::FromSpecImpl<ImageCreationError> for PassCreationError {
    open spec fn obeys_from_spec() -> bool {
        true
    }

    open spec fn from_spec(err: ImageCreationError) -> PassCreationError {
        PassCreationError::Image(err)
    }
}

impl From<FramebufferCreationError> for PassCreationError {
    fn from(err: FramebufferCreationError) -> (r: PassCreationError) {
        PassCreationError::Framebuffer(err)
    }
}

impl vstd::std_specs::convert::FromSpecImpl<FramebufferCreationError> for PassCreationError {
    open spec fn obeys_from_spec() -> bool {
        true
    }

    open spec fn from_spec(err: FramebufferCreationError) -> PassCreationError {
        PassCreationError::Framebuffer(err)
    }
}

/// Whether the shader stages given to a preset pass build successfully:
/// each stage's specialization constants match its shader's kind, and the
/// vertex input satisfies the vertex shader's declared layout.
pub open spec fn spec_stages_compatible(
    vertex_fields: Seq<u64>,
    vertex_shader: Shader,
    vertex_specialization: SpecializationConstants,
    fragment_shader: Shader,
    fragment_specialization: SpecializationConstants,
) -> bool {
    &&& vertex_shader.specialization_kind == vertex_specialization.kind
    &&& fragment_shader.specialization_kind == fragment_specialization.kind
    &&& vertex_input_satisfies(vertex_fields, vertex_shader.inputs@)
}

/// A shadow pass renders geometry to a single depth attachment, whose
/// image can then tell whether a fragment is in view of the light source.
pub struct ShadowPass {
    /// The validated render-pass/pipeline pair.
    pub pass: GraphicalPass,
    /// The depth image the pass renders to.
    pub image: Image,
}

impl ShadowPass {
    /// Create a shadow pass: a single cleared-and-stored depth attachment
    /// of the given format, back-face culling, triangle lists, and the
    /// given shader stages over the given vertex layout.
    ///
    /// A format without a depth component is rejected as
    /// [`PassCreationError::IncorrectFormat`]; incompatible shader stages
    /// are rejected exactly as [`GraphicalPassBuilder::build`] rejects
    /// them.
    ///
    /// [`GraphicalPassBuilder::build`]: crate::builder::GraphicalPassBuilder::build
    pub fn new(
        vertex_fields: Vec<u64>,
        vertex_shader: Shader,
        vertex_specialization: SpecializationConstants,
        fragment_shader: Shader,
        fragment_specialization: SpecializationConstants,
        dimensions: (u32, u32),
        format: Format,
    ) -> (r: Result<ShadowPass, PassCreationError>)
        ensures
            !format.depth ==> r == Err::<ShadowPass, PassCreationError>(
                PassCreationError::IncorrectFormat,
            ),
            format.depth && !spec_stages_compatible(
                vertex_fields@,
                vertex_shader,
                vertex_specialization,
                fragment_shader,
                fragment_specialization,
            ) ==> (r matches Err(e) && e matches PassCreationError::GraphicsPipeline(_)),
            format.depth && spec_stages_compatible(
                vertex_fields@,
                vertex_shader,
                vertex_specialization,
                fragment_shader,
                fragment_specialization,
            ) ==> (r matches Ok(s) && {
                &&& s.pass.render_pass.attachments@.len() == 1
                &&& s.pass.render_pass.attachments@[0].1.format == format
                &&& s.pass.render_pass.attachments@[0].1.load == LoadOp::Clear
                &&& s.pass.render_pass.attachments@[0].1.store == StoreOp::Store
                &&& s.pass.render_pass.depth_attachment == Some(0usize)
                &&& s.pass.pipeline.vertex_input@ == vertex_fields@
                &&& s.pass.pipeline.vertex_shader == (ShaderStage {
                    shader: vertex_shader,
                    specialization: vertex_specialization,
                })
                &&& s.pass.pipeline.fragment_shader == (ShaderStage {
                    shader: fragment_shader,
                    specialization: fragment_specialization,
                })
                &&& s.pass.pipeline.rasterization.cull_mode
                    == crate::builder::CullMode::Back
                &&& s.pass.pipeline.primitive_topology
                    == crate::builder::PrimitiveTopology::TriangleList
                &&& s.image == (Image {
                    width: dimensions.0,
                    height: dimensions.1,
                    format,
                })
                &&& s.pass.wf()
            }),
    {
        let builder = GraphicalPass::start()
            .vertex_input(vertex_fields)
            .vertex_shader(vertex_shader, vertex_specialization)
            .triangle_list()
            .cull_back()
            .fragment_shader(fragment_shader, fragment_specialization);
        let builder = match builder.add_depth_attachment(format, LoadOp::Clear, StoreOp::Store) {
            Ok(builder) => builder,
            Err(_) => { return Err(PassCreationError::IncorrectFormat) },
        };
        let pass = match builder.build() {
            Ok(pass) => pass,
            Err(err) => {
                return Err(match err {
                    BuildError::RenderPassCreation(k) => PassCreationError::RenderPass(k),
                    BuildError::GraphicsPipelineCreation(k) => PassCreationError::GraphicsPipeline(
                        k,
                    ),
                    BuildError::NoAttachments => PassCreationError::IncorrectFormat,
                });
            },
        };
        let image = Image { width: dimensions.0, height: dimensions.1, format };
        Ok(ShadowPass { pass, image })
    }

    /// The pass's attachment bookkeeping.
    pub fn render_pass(&self) -> (r: &GraphicalRenderPassDescription)
        ensures
            r == self.pass.render_pass,
    {
        &self.pass.render_pass
    }

    /// The pass's validated pipeline configuration.
    pub fn pipeline(&self) -> (r: &Pipeline)
        ensures
            r == self.pass.pipeline,
    {
        &self.pass.pipeline
    }

    /// The images the pass writes that it owns itself: its depth image.
    pub fn images(&self) -> (r: Vec<Image>)
        ensures
            r@.len() == 1,
            r@[0] == self.image,
    {
        let mut images: Vec<Image> = Vec::new();
        images.push(self.image);
        images
    }
}

/// An albedo pass draws shaded geometry to the swapchain's presentable
/// image, with a cleared depth buffer for the depth test.
pub struct AlbedoPass {
    /// The validated render-pass/pipeline pair.
    pub pass: GraphicalPass,
}

impl PresentPass for AlbedoPass {

}

impl AlbedoPass {
    /// Create an albedo pass: a cleared-and-stored color attachment in the
    /// swapchain's surface format, a cleared-and-discarded 16-bit depth
    /// attachment, back-face culling, triangle lists, and the given shader
    /// stages over the given vertex layout.
    pub fn new(
        swapchain: &Swapchain,
        vertex_fields: Vec<u64>,
        vertex_shader: Shader,
        vertex_specialization: SpecializationConstants,
        fragment_shader: Shader,
        fragment_specialization: SpecializationConstants,
    ) -> (r: Result<AlbedoPass, PassCreationError>)
        ensures
            !spec_stages_compatible(
                vertex_fields@,
                vertex_shader,
                vertex_specialization,
                fragment_shader,
                fragment_specialization,
            ) ==> (r matches Err(e) && e matches PassCreationError::GraphicsPipeline(_)),
            spec_stages_compatible(
                vertex_fields@,
                vertex_shader,
                vertex_specialization,
                fragment_shader,
                fragment_specialization,
            ) ==> (r matches Ok(s) && {
                &&& s.pass.render_pass.attachments@.len() == 2
                &&& s.pass.render_pass.attachments@[0].1.format == swapchain.color_format
                &&& s.pass.render_pass.attachments@[0].1.load == LoadOp::Clear
                &&& s.pass.render_pass.attachments@[0].1.store == StoreOp::Store
                &&& s.pass.render_pass.attachments@[1].1.format == (Format {
                    code: 124u64,
                    depth: true,
                })
                &&& s.pass.render_pass.attachments@[1].1.load == LoadOp::Clear
                &&& s.pass.render_pass.attachments@[1].1.store == StoreOp::DontCare
                &&& s.pass.render_pass.depth_attachment == Some(1usize)
                &&& s.pass.pipeline.vertex_input@ == vertex_fields@
                &&& s.pass.pipeline.vertex_shader == (ShaderStage {
                    shader: vertex_shader,
                    specialization: vertex_specialization,
                })
                &&& s.pass.pipeline.fragment_shader == (ShaderStage {
                    shader: fragment_shader,
                    specialization: fragment_specialization,
                })
                &&& s.pass.pipeline.rasterization.cull_mode
                    == crate::builder::CullMode::Back
                &&& s.pass.pipeline.primitive_topology
                    == crate::builder::PrimitiveTopology::TriangleList
                &&& s.pass.wf()
            }),
    {
        let depth_format = crate::format::d16_unorm();
        let builder = GraphicalPass::start()
            .vertex_input(vertex_fields)
            .vertex_shader(vertex_shader, vertex_specialization)
            .triangle_list()
            .cull_back()
            .fragment_shader(fragment_shader, fragment_specialization)
            .add_image_attachment(swapchain.color_format, LoadOp::Clear, StoreOp::Store);
        let builder = match builder.add_depth_attachment(
            depth_format,
            LoadOp::Clear,
            StoreOp::DontCare,
        ) {
            Ok(builder) => builder,
            Err(_) => {
                proof {
                    assert(false);
                }
                return Err(PassCreationError::IncorrectFormat);
            },
        };
        let pass = match builder.build() {
            Ok(pass) => pass,
            Err(err) => {
                return Err(match err {
                    BuildError::RenderPassCreation(k) => PassCreationError::RenderPass(k),
                    BuildError::GraphicsPipelineCreation(k) => PassCreationError::GraphicsPipeline(
                        k,
                    ),
                    BuildError::NoAttachments => PassCreationError::IncorrectFormat,
                });
            },
        };
        Ok(AlbedoPass { pass })
    }

    /// The pass's attachment bookkeeping.
    pub fn render_pass(&self) -> (r: &GraphicalRenderPassDescription)
        ensures
            r == self.pass.render_pass,
    {
        &self.pass.render_pass
    }

    /// The pass's validated pipeline configuration.
    pub fn pipeline(&self) -> (r: &Pipeline)
        ensures
            r == self.pass.pipeline,
    {
        &self.pass.pipeline
    }

    /// The images the pass writes that it owns itself: none, since it
    /// draws to swapchain-owned images.
    pub fn images(&self) -> (r: Vec<Image>)
        ensures
            r@.len() == 0,
    {
        Vec::new()
    }
}

} // verus!
