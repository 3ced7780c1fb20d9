use gaclen::builder::AttachmentError;
use gaclen::builder::BuildError;
use gaclen::builder::Compare;
use gaclen::builder::CullMode;
use gaclen::builder::FrontFace;
use gaclen::builder::GraphicalPass;
use gaclen::builder::GraphicsPipelineCreationError;
use gaclen::builder::PolygonMode;
use gaclen::builder::PrimitiveTopology;
use gaclen::builder::Shader;
use gaclen::builder::SpecializationConstants;
use gaclen::format::Format;
use gaclen::format::LoadOp;
use gaclen::format::StoreOp;

fn shader(id: u64, inputs: Vec<u64>, specialization_kind: u64) -> Shader {
    Shader { id, inputs, specialization_kind }
}

fn no_constants() -> SpecializationConstants {
    SpecializationConstants { kind: 0, data: 0 }
}

fn color_format() -> Format {
    Format { code: 50, depth: false }
}

fn depth_format() -> Format {
    Format { code: 124, depth: true }
}

/// A vertex-input type with two fields against a vertex shader declaring
/// three required inputs is rejected at build time, never truncated.
#[test]
fn two_fields_against_three_inputs_is_rejected() {
    let result = GraphicalPass::start()
        .vertex_input(vec![7, 8])
        .vertex_shader(shader(1, vec![7, 8, 9], 0), no_constants())
        .fragment_shader(shader(2, vec![], 0), no_constants())
        .add_image_attachment(color_format(), LoadOp::Clear, StoreOp::Store)
        .build();
    assert_eq!(
        result.err(),
        Some(BuildError::GraphicsPipelineCreation(
            GraphicsPipelineCreationError::VertexInputIncompatible
        ))
    );
}

#[test]
fn mismatched_field_format_is_rejected() {
    let result = GraphicalPass::start()
        .vertex_input(vec![7, 8, 9])
        .vertex_shader(shader(1, vec![7, 9, 9], 0), no_constants())
        .fragment_shader(shader(2, vec![], 0), no_constants())
        .add_image_attachment(color_format(), LoadOp::Clear, StoreOp::Store)
        .build();
    assert_eq!(
        result.err(),
        Some(BuildError::GraphicsPipelineCreation(
            GraphicsPipelineCreationError::VertexInputIncompatible
        ))
    );
}

#[test]
fn extra_vertex_fields_are_accepted() {
    let result = GraphicalPass::start()
        .vertex_input(vec![7, 8, 9])
        .vertex_shader(shader(1, vec![7, 8], 0), no_constants())
        .fragment_shader(shader(2, vec![], 0), no_constants())
        .add_image_attachment(color_format(), LoadOp::Clear, StoreOp::Store)
        .build();
    assert!(result.is_ok());
}

#[test]
fn build_without_attachments_is_rejected() {
    let result = GraphicalPass::start()
        .vertex_input(vec![7])
        .vertex_shader(shader(1, vec![7], 0), no_constants())
        .fragment_shader(shader(2, vec![], 0), no_constants())
        .build();
    assert_eq!(result.err(), Some(BuildError::NoAttachments));
}

#[test]
fn build_without_shader_stages_is_rejected() {
    let missing_vertex = GraphicalPass::start()
        .vertex_input(vec![7])
        .fragment_shader(shader(2, vec![], 0), no_constants())
        .add_image_attachment(color_format(), LoadOp::Clear, StoreOp::Store)
        .build();
    assert_eq!(
        missing_vertex.err(),
        Some(BuildError::GraphicsPipelineCreation(
            GraphicsPipelineCreationError::MissingVertexShader
        ))
    );

    let missing_fragment = GraphicalPass::start()
        .vertex_input(vec![7])
        .vertex_shader(shader(1, vec![7], 0), no_constants())
        .add_image_attachment(color_format(), LoadOp::Clear, StoreOp::Store)
        .build();
    assert_eq!(
        missing_fragment.err(),
        Some(BuildError::GraphicsPipelineCreation(
            GraphicsPipelineCreationError::MissingFragmentShader
        ))
    );

    let missing_input = GraphicalPass::start()
        .vertex_shader(shader(1, vec![7], 0), no_constants())
        .fragment_shader(shader(2, vec![], 0), no_constants())
        .add_image_attachment(color_format(), LoadOp::Clear, StoreOp::Store)
        .build();
    assert_eq!(
        missing_input.err(),
        Some(BuildError::GraphicsPipelineCreation(
            GraphicsPipelineCreationError::MissingVertexInput
        ))
    );
}

#[test]
fn mismatched_specialization_constants_are_rejected() {
    let result = GraphicalPass::start()
        .vertex_input(vec![7])
        .vertex_shader(shader(1, vec![7], 3), SpecializationConstants { kind: 4, data: 0 })
        .fragment_shader(shader(2, vec![], 0), no_constants())
        .add_image_attachment(color_format(), LoadOp::Clear, StoreOp::Store)
        .build();
    assert_eq!(
        result.err(),
        Some(BuildError::GraphicsPipelineCreation(
            GraphicsPipelineCreationError::IncompatibleSpecializationConstants
        ))
    );
}

/// Adding a second depth attachment fails, reporting the first one's index.
#[test]
fn second_depth_attachment_reports_the_first_index() {
    let builder = GraphicalPass::start()
        .add_image_attachment(color_format(), LoadOp::Clear, StoreOp::Store)
        .add_depth_attachment(depth_format(), LoadOp::Clear, StoreOp::DontCare)
        .unwrap();
    assert_eq!(builder.depth_attachment, Some(1));

    let result = builder.add_depth_attachment(depth_format(), LoadOp::Clear, StoreOp::Store);
    assert_eq!(
        result.err(),
        Some(AttachmentError::DepthAttachmentAlreadyExists(1))
    );
}

#[test]
fn non_depth_format_as_depth_attachment_is_rejected() {
    let result =
        GraphicalPass::start().add_depth_attachment(color_format(), LoadOp::Clear, StoreOp::Store);
    assert_eq!(result.err(), Some(AttachmentError::InvalidFormat));
}

#[test]
fn builder_defaults() {
    let builder = GraphicalPass::start();
    assert_eq!(builder.primitive_topology, PrimitiveTopology::TriangleList);
    assert_eq!(builder.rasterization.cull_mode, CullMode::Disabled);
    assert_eq!(builder.rasterization.front_face, FrontFace::CounterClockwise);
    assert_eq!(builder.rasterization.polygon_mode, PolygonMode::Fill);
    assert!(!builder.rasterization.depth_clamp);
    assert!(!builder.depth_stencil.depth_write);
    assert_eq!(builder.depth_stencil.depth_compare, Compare::Always);
    assert_eq!(builder.samples, 1);
    assert!(builder.attachments.is_empty());
    assert_eq!(builder.depth_attachment, None);
}

#[test]
fn depth_test_presets() {
    let basic = GraphicalPass::start().basic_depth_test();
    assert!(basic.depth_stencil.depth_write);
    assert_eq!(basic.depth_stencil.depth_compare, Compare::Less);

    let inverse = GraphicalPass::start().inverse_depth_test();
    assert!(inverse.depth_stencil.depth_write);
    assert_eq!(inverse.depth_stencil.depth_compare, Compare::Greater);
}

#[test]
fn rasterization_and_topology_presets() {
    let builder = GraphicalPass::start()
        .triangle_strip()
        .cull_front()
        .front_face_clockwise()
        .clamp_depth(true)
        .raster_polygon_mode(PolygonMode::Line);
    assert_eq!(builder.primitive_topology, PrimitiveTopology::TriangleStrip);
    assert_eq!(builder.rasterization.cull_mode, CullMode::Front);
    assert_eq!(builder.rasterization.front_face, FrontFace::Clockwise);
    assert!(builder.rasterization.depth_clamp);
    assert_eq!(builder.rasterization.polygon_mode, PolygonMode::Line);

    let patches = GraphicalPass::start().patch_list(4);
    assert_eq!(
        patches.primitive_topology,
        PrimitiveTopology::PatchList { vertices_per_patch: 4 }
    );

    let depth_ops = GraphicalPass::start()
        .depth_write(true)
        .depth_test_greater_or_equal();
    assert!(depth_ops.depth_stencil.depth_write);
    assert_eq!(depth_ops.depth_stencil.depth_compare, Compare::GreaterOrEqual);
}

#[test]
fn built_pass_keeps_the_validated_configuration() {
    let pass = GraphicalPass::start()
        .vertex_input(vec![7, 8])
        .vertex_shader(shader(1, vec![7, 8], 5), SpecializationConstants { kind: 5, data: 77 })
        .fragment_shader(shader(2, vec![], 6), SpecializationConstants { kind: 6, data: 88 })
        .cull_back()
        .add_image_attachment(color_format(), LoadOp::Clear, StoreOp::Store)
        .build()
        .unwrap();
    assert_eq!(pass.pipeline.vertex_input, vec![7, 8]);
    assert_eq!(pass.pipeline.vertex_shader.shader.id, 1);
    assert_eq!(pass.pipeline.vertex_shader.specialization.data, 77);
    assert_eq!(pass.pipeline.fragment_shader.shader.id, 2);
    assert_eq!(pass.pipeline.rasterization.cull_mode, CullMode::Back);
    assert_eq!(pass.render_pass.attachments.len(), 1);
    assert_eq!(pass.render_pass.depth_attachment, None);
}
