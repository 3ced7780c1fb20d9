//! Configuration and validation of a graphical pass.
//!
//! The builder accumulates vertex-input layout, shader stages with their
//! specialization constants, rasterization and depth-stencil state, the
//! primitive topology and the attachment list.  The terminal [`build`]
//! operation checks the whole configuration — both shader stages present
//! with matching specialization-constant kinds, a vertex input satisfying
//! the vertex shader's declared input layout, and at least one attachment —
//! and only then does a [`Pipeline`] value exist.
//!
//! [`build`]: GraphicalPassBuilder::build

use vstd::prelude::*;
use crate::format::Format;
use crate::format::ImageLayout;
use crate::format::LoadOp;
use crate::format::StoreOp;
use crate::pass::AttachmentDescription;
use crate::pass::AttachmentType;
use crate::pass::GraphicalRenderPassDescription;
use crate::swapchain::Swapchain;

verus! {

/// An opaque compiled shader entry point, described by what this crate's
/// checks read: the caller's handle, the vertex-input slots the shader
/// declares (format codes in location order), and the kind of its
/// specialization-constant structure.
#[derive(Clone, Debug)]
pub struct Shader {
    /// The caller's handle for the compiled entry point.
    pub id: u64,
    /// The input slots the shader declares, as format codes per location.
    pub inputs: Vec<u64>,
    /// The kind of specialization-constant structure the shader expects.
    pub specialization_kind: u64,
}

/// A shader stage: a compiled entry point paired with the specialization
/// constants it is instantiated with.
#[derive(Clone, Debug)]
pub struct ShaderStage {
    /// The compiled entry point.
    pub shader: Shader,
    /// The specialization constants baked in at pipeline-build time.
    pub specialization: SpecializationConstants,
}

/// A specialization-constant structure: its kind and the caller's handle
/// for the actual values.
#[derive(Clone, Copy, Debug, PartialEq, Eq, Structural)]
pub struct SpecializationConstants {
    /// The kind of the structure; must match what the shader expects.
    pub kind: u64,
    /// The caller's handle for the constant values.
    pub data: u64,
}

/// How the input vertex stream is assembled into primitives.
#[derive(Clone, Copy, Debug, PartialEq, Eq, Structural)]
pub enum PrimitiveTopology {
    /// Separate points.
    PointList,
    /// Separate lines.
    LineList,
    /// A connected line strip.
    LineStrip,
    /// Separate triangles.
    TriangleList,
    /// A connected triangle strip.
    TriangleStrip,
    /// A triangle fan around the first vertex.
    TriangleFan,
    /// Separate lines with adjacency information.
    LineListWithAdjacency,
    /// A line strip with adjacency information.
    LineStripWithAdjacency,
    /// Separate triangles with adjacency information.
    TriangleListWithAdjacency,
    /// A triangle strip with adjacency information.
    TriangleStripWithAdjacency,
    /// Patches of the given size, for tessellation.
    PatchList { vertices_per_patch: u32 },
}

/// How primitives are turned into fragments.
#[derive(Clone, Copy, Debug, PartialEq, Eq, Structural)]
pub enum PolygonMode {
    /// Fill the primitive.
    Fill,
    /// Draw only the edges.
    Line,
    /// Draw only the vertices.
    Point,
}

/// Which faces are dropped before the fragment stage.
#[derive(Clone, Copy, Debug, PartialEq, Eq, Structural)]
pub enum CullMode {
    /// Cull nothing.
    Disabled,
    /// Cull front faces.
    Front,
    /// Cull back faces.
    Back,
    /// Cull both front and back faces.
    FrontAndBack,
}

/// Which winding order counts as the front of a face.
#[derive(Clone, Copy, Debug, PartialEq, Eq, Structural)]
pub enum FrontFace {
    /// Clockwise faces are front.
    Clockwise,
    /// Counter-clockwise faces are front; the default.
    CounterClockwise,
}

/// The comparison used by the depth test.
#[derive(Clone, Copy, Debug, PartialEq, Eq, Structural)]
pub enum Compare {
    /// Never passes.
    Never,
    /// Passes when the new value is less than the stored one.
    Less,
    /// Passes on equality.
    Equal,
    /// Passes when less than or equal.
    LessOrEqual,
    /// Passes when the new value is greater than the stored one.
    Greater,
    /// Passes on inequality.
    NotEqual,
    /// Passes when greater than or equal.
    GreaterOrEqual,
    /// Always passes; the default.
    Always,
}

/// Fixed-function rasterization state.
#[derive(Clone, Copy, Debug, PartialEq, Eq, Structural)]
pub struct Rasterization {
    /// Whether out-of-range depth values are clamped instead of dropped.
    pub depth_clamp: bool,
    /// How primitives are turned into fragments.
    pub polygon_mode: PolygonMode,
    /// Which faces are culled.
    pub cull_mode: CullMode,
    /// Which winding order is the front.
    pub front_face: FrontFace,
}

/// Fixed-function depth-test state.
#[derive(Clone, Copy, Debug, PartialEq, Eq, Structural)]
pub struct DepthStencil {
    /// Whether passing fragments write their depth.
    pub depth_write: bool,
    /// The comparison the depth test uses.
    pub depth_compare: Compare,
}

/// Error while declaring an attachment.
#[derive(Clone, Copy, Debug, PartialEq, Eq, Structural)]
pub enum AttachmentError {
    /// The format supplied cannot be used for the requested purpose.
    InvalidFormat,
    /// A depth attachment already exists; carries its index.
    DepthAttachmentAlreadyExists(usize),
}

/// A failure the backend reports when creating a render pass.
#[derive(Clone, Copy, Debug, PartialEq, Eq, Structural)]
pub enum RenderPassCreationError {
    /// The backend ran out of memory.
    OutOfMemory,
}

/// A rejected pipeline configuration.
#[derive(Clone, Copy, Debug, PartialEq, Eq, Structural)]
pub enum GraphicsPipelineCreationError {
    /// No vertex shader was supplied.
    MissingVertexShader,
    /// No fragment shader was supplied.
    MissingFragmentShader,
    /// No vertex input was supplied.
    MissingVertexInput,
    /// A shader's specialization constants do not match the kind the
    /// shader expects.
    IncompatibleSpecializationConstants,
    /// The vertex input does not satisfy the vertex shader's declared
    /// input layout.
    VertexInputIncompatible,
    /// The backend failed to create the pipeline object.
    Backend,
}

/// Error during [`GraphicalPassBuilder::build`].
#[derive(Clone, Copy, Debug, PartialEq, Eq, Structural)]
pub enum BuildError {
    /// Error during creation of the render pass.
    RenderPassCreation(RenderPassCreationError),
    /// Error during creation of the graphics pipeline.
    GraphicsPipelineCreation(GraphicsPipelineCreationError),
    /// No attachments were added to the pass, so no invocation is possible.
    NoAttachments,
}

impl From<RenderPassCreationError> for BuildError {
    fn from(err: RenderPassCreationError) -> (r: BuildError) {
        BuildError::RenderPassCreation(err)
    }
}

impl vstd::std_specs::convert::FromSpecImpl<RenderPassCreationError> for BuildError {
    open spec fn obeys_from_spec() -> bool {
        true
    }

    open spec fn from_spec(err: RenderPassCreationError) -> BuildError {
        BuildError::RenderPassCreation(err)
    }
}

impl From<GraphicsPipelineCreationError> for BuildError {
    fn from(err: GraphicsPipelineCreationError) -> (r: BuildError) {
        BuildError::GraphicsPipelineCreation(err)
    }
}

impl vstd::std_specs::convert::FromSpecImpl<GraphicsPipelineCreationError> for BuildError {
    open spec fn obeys_from_spec() -> bool {
        true
    }

    open spec fn from_spec(err: GraphicsPipelineCreationError) -> BuildError {
        BuildError::GraphicsPipelineCreation(err)
    }
}

/// A fully configured GPU program plus fixed-function state, as validated
/// by [`GraphicalPassBuilder::build`]; immutable once built.
#[derive(Clone, Debug)]
pub struct Pipeline {
    /// The vertex-input layout, as format codes per field.
    pub vertex_input: Vec<u64>,
    /// The vertex shader and its specialization constants.
    pub vertex_shader: ShaderStage,
    /// The fragment shader and its specialization constants.
    pub fragment_shader: ShaderStage,
    /// How the vertex stream is assembled.
    pub primitive_topology: PrimitiveTopology,
    /// Rasterization state.
    pub rasterization: Rasterization,
    /// Depth-test state.
    pub depth_stencil: DepthStencil,
    /// The sample count of every attachment.
    pub samples: u32,
}

/// A validated render-pass/pipeline pair: the device configuration used to
/// execute draw commands, shared by every frame that uses it.
#[derive(Clone, Debug)]
pub struct GraphicalPass {
    /// The render pass's attachment bookkeeping.
    pub render_pass: GraphicalRenderPassDescription,
    /// The validated pipeline configuration.
    pub pipeline: Pipeline,
}

/// A pass whose results are presentable to the screen.
pub trait PresentPass {

}

/// A pass that uses the results of another pass as input.
pub trait DependentPass {

}

impl GraphicalPass {
    /// Begin building a graphical pass.
    pub fn start() -> (r: GraphicalPassBuilder)
        ensures
            r.is_initial(),
    {
        GraphicalPassBuilder::new()
    }

    /// Well-formedness, inherited from the attachment bookkeeping.
    pub open spec fn wf(self) -> bool {
        self.render_pass.wf()
    }
}

/// A structure for initializing [`GraphicalPass`]es.
#[derive(Clone, Debug)]
pub struct GraphicalPassBuilder {
    /// The vertex-input layout, once supplied.
    pub vertex_input: Option<Vec<u64>>,
    /// The vertex shader with its specialization constants, once supplied.
    pub vertex_shader: Option<ShaderStage>,
    /// The fragment shader with its specialization constants, once
    /// supplied.
    pub fragment_shader: Option<ShaderStage>,
    /// How the vertex stream is assembled.
    pub primitive_topology: PrimitiveTopology,
    /// Rasterization state.
    pub rasterization: Rasterization,
    /// Depth-test state.
    pub depth_stencil: DepthStencil,
    /// The sample count used for every attachment.
    pub samples: u32,
    /// The declared attachments, in order.
    pub attachments: Vec<(AttachmentType, AttachmentDescription)>,
    /// The index of the depth attachment, if one was declared.
    pub depth_attachment: Option<usize>,
}

/// Whether a vertex-input layout satisfies a shader's declared inputs:
/// every declared location is provided with the declared format.
pub open spec fn vertex_input_satisfies(fields: Seq<u64>, shader_inputs: Seq<u64>) -> bool {
    &&& shader_inputs.len() <= fields.len()
    &&& forall|i: int| 0 <= i < shader_inputs.len() ==> fields[i] == shader_inputs[i]
}

impl GraphicalPassBuilder {
    /// The configuration a builder starts from: triangle lists, no culling,
    /// counter-clockwise front faces, filled polygons, no depth clamping,
    /// no depth writes, an always-passing depth test, one sample, and
    /// nothing declared yet.
    pub open spec fn is_initial(self) -> bool {
        &&& self.vertex_input is None
        &&& self.vertex_shader is None
        &&& self.fragment_shader is None
        &&& self.primitive_topology == PrimitiveTopology::TriangleList
        &&& self.rasterization == (Rasterization {
            depth_clamp: false,
            polygon_mode: PolygonMode::Fill,
            cull_mode: CullMode::Disabled,
            front_face: FrontFace::CounterClockwise,
        })
        &&& self.depth_stencil == (DepthStencil {
            depth_write: false,
            depth_compare: Compare::Always,
        })
        &&& self.samples == 1u32
        &&& self.attachments@.len() == 0
        &&& self.depth_attachment is None
    }

    pub(crate) fn new() -> (r: GraphicalPassBuilder)
        ensures
            r.is_initial(),
    {
        let r = GraphicalPassBuilder {
            vertex_input: None,
            vertex_shader: None,
            fragment_shader: None,
            primitive_topology: PrimitiveTopology::TriangleList,
            rasterization: Rasterization {
                depth_clamp: false,
                polygon_mode: PolygonMode::Fill,
                cull_mode: CullMode::Disabled,
                front_face: FrontFace::CounterClockwise,
            },
            depth_stencil: DepthStencil { depth_write: false, depth_compare: Compare::Always },
            samples: 1,
            attachments: Vec::new(),
            depth_attachment: None,
        };
        r
    }

    /// Use the provided vertex-input layout, as format codes per field.
    pub fn vertex_input(self, fields: Vec<u64>) -> (r: GraphicalPassBuilder)
        ensures
            r == (GraphicalPassBuilder { vertex_input: Some(fields), ..self }),
    {
        GraphicalPassBuilder { vertex_input: Some(fields), ..self }
    }

    /// Use a single buffer of the given vertex layout as input.
    pub fn single_buffer_input(self, fields: Vec<u64>) -> (r: GraphicalPassBuilder)
        ensures
            r == (GraphicalPassBuilder { vertex_input: Some(fields), ..self }),
    {
        self.vertex_input(fields)
    }

    /// Use the given primitive topology.  The default is
    /// [`PrimitiveTopology::TriangleList`].
    pub fn primitive_topology(self, topology: PrimitiveTopology) -> (r: GraphicalPassBuilder)
        ensures
            r == (GraphicalPassBuilder { primitive_topology: topology, ..self }),
    {
        GraphicalPassBuilder { primitive_topology: topology, ..self }
    }

    /// Use [`PrimitiveTopology::PointList`].
    pub fn point_list(self) -> (r: GraphicalPassBuilder)
        ensures
            r == (GraphicalPassBuilder {
                primitive_topology: PrimitiveTopology::PointList,
                ..self
            }),
    {
        self.primitive_topology(PrimitiveTopology::PointList)
    }

    /// Use [`PrimitiveTopology::LineList`].
    pub fn line_list(self) -> (r: GraphicalPassBuilder)
        ensures
            r == (GraphicalPassBuilder { primitive_topology: PrimitiveTopology::LineList, ..self }),
    {
        self.primitive_topology(PrimitiveTopology::LineList)
    }

    /// Use [`PrimitiveTopology::LineStrip`].
    pub fn line_strip(self) -> (r: GraphicalPassBuilder)
        ensures
            r == (GraphicalPassBuilder {
                primitive_topology: PrimitiveTopology::LineStrip,
                ..self
            }),
    {
        self.primitive_topology(PrimitiveTopology::LineStrip)
    }

    /// Use [`PrimitiveTopology::TriangleList`]; this is the default.
    pub fn triangle_list(self) -> (r: GraphicalPassBuilder)
        ensures
            r == (GraphicalPassBuilder {
                primitive_topology: PrimitiveTopology::TriangleList,
                ..self
            }),
    {
        self.primitive_topology(PrimitiveTopology::TriangleList)
    }

    /// Use [`PrimitiveTopology::TriangleStrip`].
    pub fn triangle_strip(self) -> (r: GraphicalPassBuilder)
        ensures
            r == (GraphicalPassBuilder {
                primitive_topology: PrimitiveTopology::TriangleStrip,
                ..self
            }),
    {
        self.primitive_topology(PrimitiveTopology::TriangleStrip)
    }

    /// Use [`PrimitiveTopology::TriangleFan`].
    pub fn triangle_fan(self) -> (r: GraphicalPassBuilder)
        ensures
            r == (GraphicalPassBuilder {
                primitive_topology: PrimitiveTopology::TriangleFan,
                ..self
            }),
    {
        self.primitive_topology(PrimitiveTopology::TriangleFan)
    }

    /// Use [`PrimitiveTopology::LineListWithAdjacency`].
    pub fn line_list_with_adjacency(self) -> (r: GraphicalPassBuilder)
        ensures
            r == (GraphicalPassBuilder {
                primitive_topology: PrimitiveTopology::LineListWithAdjacency,
                ..self
            }),
    {
        self.primitive_topology(PrimitiveTopology::LineListWithAdjacency)
    }

    /// Use [`PrimitiveTopology::LineStripWithAdjacency`].
    pub fn line_strip_with_adjacency(self) -> (r: GraphicalPassBuilder)
        ensures
            r == (GraphicalPassBuilder {
                primitive_topology: PrimitiveTopology::LineStripWithAdjacency,
                ..self
            }),
    {
        self.primitive_topology(PrimitiveTopology::LineStripWithAdjacency)
    }

    /// Use [`PrimitiveTopology::TriangleListWithAdjacency`].
    pub fn triangle_list_with_adjacency(self) -> (r: GraphicalPassBuilder)
        ensures
            r == (GraphicalPassBuilder {
                primitive_topology: PrimitiveTopology::TriangleListWithAdjacency,
                ..self
            }),
    {
        self.primitive_topology(PrimitiveTopology::TriangleListWithAdjacency)
    }

    /// Use [`PrimitiveTopology::TriangleStripWithAdjacency`].
    pub fn triangle_strip_with_adjacency(self) -> (r: GraphicalPassBuilder)
        ensures
            r == (GraphicalPassBuilder {
                primitive_topology: PrimitiveTopology::TriangleStripWithAdjacency,
                ..self
            }),
    {
        self.primitive_topology(PrimitiveTopology::TriangleStripWithAdjacency)
    }

    /// Use [`PrimitiveTopology::PatchList`] with the given patch size.
    pub fn patch_list(self, vertices_per_patch: u32) -> (r: GraphicalPassBuilder)
        ensures
            r == (GraphicalPassBuilder {
                primitive_topology: PrimitiveTopology::PatchList { vertices_per_patch },
                ..self
            }),
    {
        self.primitive_topology(PrimitiveTopology::PatchList { vertices_per_patch })
    }

    /// Set whether out-of-range depth values are clamped rather than
    /// dropped.
    pub fn clamp_depth(self, clamp: bool) -> (r: GraphicalPassBuilder)
        ensures
            r == (GraphicalPassBuilder {
                rasterization: Rasterization { depth_clamp: clamp, ..self.rasterization },
                ..self
            }),
    {
        let rasterization = Rasterization { depth_clamp: clamp, ..self.rasterization };
        GraphicalPassBuilder { rasterization, ..self }
    }

    /// Use the provided polygon mode for the rasterizer.
    pub fn raster_polygon_mode(self, mode: PolygonMode) -> (r: GraphicalPassBuilder)
        ensures
            r == (GraphicalPassBuilder {
                rasterization: Rasterization { polygon_mode: mode, ..self.rasterization },
                ..self
            }),
    {
        let rasterization = Rasterization { polygon_mode: mode, ..self.rasterization };
        GraphicalPassBuilder { rasterization, ..self }
    }

    /// Use the provided cull mode.  The default is [`CullMode::Disabled`].
    pub fn cull_mode(self, mode: CullMode) -> (r: GraphicalPassBuilder)
        ensures
            r == (GraphicalPassBuilder {
                rasterization: Rasterization { cull_mode: mode, ..self.rasterization },
                ..self
            }),
    {
        let rasterization = Rasterization { cull_mode: mode, ..self.rasterization };
        GraphicalPassBuilder { rasterization, ..self }
    }

    /// Cull nothing; the default.
    pub fn cull_none(self) -> (r: GraphicalPassBuilder)
        ensures
            r == (GraphicalPassBuilder {
                rasterization: Rasterization { cull_mode: CullMode::Disabled, ..self.rasterization },
                ..self
            }),
    {
        self.cull_mode(CullMode::Disabled)
    }

    /// Cull front faces.
    pub fn cull_front(self) -> (r: GraphicalPassBuilder)
        ensures
            r == (GraphicalPassBuilder {
                rasterization: Rasterization { cull_mode: CullMode::Front, ..self.rasterization },
                ..self
            }),
    {
        self.cull_mode(CullMode::Front)
    }

    /// Cull back faces.
    pub fn cull_back(self) -> (r: GraphicalPassBuilder)
        ensures
            r == (GraphicalPassBuilder {
                rasterization: Rasterization { cull_mode: CullMode::Back, ..self.rasterization },
                ..self
            }),
    {
        self.cull_mode(CullMode::Back)
    }

    /// Cull both front and back faces.
    pub fn cull_front_and_back(self) -> (r: GraphicalPassBuilder)
        ensures
            r == (GraphicalPassBuilder {
                rasterization: Rasterization {
                    cull_mode: CullMode::FrontAndBack,
                    ..self.rasterization
                },
                ..self
            }),
    {
        self.cull_mode(CullMode::FrontAndBack)
    }

    /// Use the provided front-face winding.  The default is
    /// [`FrontFace::CounterClockwise`].
    pub fn front_face(self, face: FrontFace) -> (r: GraphicalPassBuilder)
        ensures
            r == (GraphicalPassBuilder {
                rasterization: Rasterization { front_face: face, ..self.rasterization },
                ..self
            }),
    {
        let rasterization = Rasterization { front_face: face, ..self.rasterization };
        GraphicalPassBuilder { rasterization, ..self }
    }

    /// Set clockwise faces as front.
    pub fn front_face_clockwise(self) -> (r: GraphicalPassBuilder)
        ensures
            r == (GraphicalPassBuilder {
                rasterization: Rasterization {
                    front_face: FrontFace::Clockwise,
                    ..self.rasterization
                },
                ..self
            }),
    {
        self.front_face(FrontFace::Clockwise)
    }

    /// Set counter-clockwise faces as front; the default.
    pub fn front_face_counter_clockwise(self) -> (r: GraphicalPassBuilder)
        ensures
            r == (GraphicalPassBuilder {
                rasterization: Rasterization {
                    front_face: FrontFace::CounterClockwise,
                    ..self.rasterization
                },
                ..self
            }),
    {
        self.front_face(FrontFace::CounterClockwise)
    }

    /// Set whether passing fragments write to the depth buffer.  The
    /// default is `false`.
    pub fn depth_write(self, write: bool) -> (r: GraphicalPassBuilder)
        ensures
            r == (GraphicalPassBuilder {
                depth_stencil: DepthStencil { depth_write: write, ..self.depth_stencil },
                ..self
            }),
    {
        let depth_stencil = DepthStencil { depth_write: write, ..self.depth_stencil };
        GraphicalPassBuilder { depth_stencil, ..self }
    }

    /// Set the comparison used by the depth test.  The default is
    /// [`Compare::Always`].
    pub fn depth_test_op(self, operation: Compare) -> (r: GraphicalPassBuilder)
        ensures
            r == (GraphicalPassBuilder {
                depth_stencil: DepthStencil { depth_compare: operation, ..self.depth_stencil },
                ..self
            }),
    {
        let depth_stencil = DepthStencil { depth_compare: operation, ..self.depth_stencil };
        GraphicalPassBuilder { depth_stencil, ..self }
    }

    /// Set the depth test to always fail.
    pub fn depth_test_never(self) -> (r: GraphicalPassBuilder)
        ensures
            r == (GraphicalPassBuilder {
                depth_stencil: DepthStencil { depth_compare: Compare::Never, ..self.depth_stencil },
                ..self
            }),
    {
        self.depth_test_op(Compare::Never)
    }

    /// Pass when the new depth is less than the stored one.
    pub fn depth_test_less(self) -> (r: GraphicalPassBuilder)
        ensures
            r == (GraphicalPassBuilder {
                depth_stencil: DepthStencil { depth_compare: Compare::Less, ..self.depth_stencil },
                ..self
            }),
    {
        self.depth_test_op(Compare::Less)
    }

    /// Pass on equal depth values.
    pub fn depth_test_equal(self) -> (r: GraphicalPassBuilder)
        ensures
            r == (GraphicalPassBuilder {
                depth_stencil: DepthStencil { depth_compare: Compare::Equal, ..self.depth_stencil },
                ..self
            }),
    {
        self.depth_test_op(Compare::Equal)
    }

    /// Pass when the new depth is less than or equal to the stored one.
    pub fn depth_test_less_or_equal(self) -> (r: GraphicalPassBuilder)
        ensures
            r == (GraphicalPassBuilder {
                depth_stencil: DepthStencil {
                    depth_compare: Compare::LessOrEqual,
                    ..self.depth_stencil
                },
                ..self
            }),
    {
        self.depth_test_op(Compare::LessOrEqual)
    }

    /// Pass when the new depth is greater than the stored one.
    pub fn depth_test_greater(self) -> (r: GraphicalPassBuilder)
        ensures
            r == (GraphicalPassBuilder {
                depth_stencil: DepthStencil {
                    depth_compare: Compare::Greater,
                    ..self.depth_stencil
                },
                ..self
            }),
    {
        self.depth_test_op(Compare::Greater)
    }

    /// Pass on unequal depth values.
    pub fn depth_test_not_equal(self) -> (r: GraphicalPassBuilder)
        ensures
            r == (GraphicalPassBuilder {
                depth_stencil: DepthStencil {
                    depth_compare: Compare::NotEqual,
                    ..self.depth_stencil
                },
                ..self
            }),
    {
        self.depth_test_op(Compare::NotEqual)
    }

    /// Pass when the new depth is greater than or equal to the stored one.
    pub fn depth_test_greater_or_equal(self) -> (r: GraphicalPassBuilder)
        ensures
            r == (GraphicalPassBuilder {
                depth_stencil: DepthStencil {
                    depth_compare: Compare::GreaterOrEqual,
                    ..self.depth_stencil
                },
                ..self
            }),
    {
        self.depth_test_op(Compare::GreaterOrEqual)
    }

    /// Set the depth test to always pass; the default.
    pub fn depth_test_always(self) -> (r: GraphicalPassBuilder)
        ensures
            r == (GraphicalPassBuilder {
                depth_stencil: DepthStencil {
                    depth_compare: Compare::Always,
                    ..self.depth_stencil
                },
                ..self
            }),
    {
        self.depth_test_op(Compare::Always)
    }

    /// Use the basic forward depth test: write depth and pass when the new
    /// depth is less than the stored one.
    pub fn basic_depth_test(self) -> (r: GraphicalPassBuilder)
        ensures
            r == (GraphicalPassBuilder {
                depth_stencil: DepthStencil { depth_write: true, depth_compare: Compare::Less },
                ..self
            }),
    {
        self.depth_write(true).depth_test_less()
    }

    /// Use the inverse depth test for a reversed depth range: write depth
    /// and pass when the new depth is greater than the stored one.
    pub fn inverse_depth_test(self) -> (r: GraphicalPassBuilder)
        ensures
            r == (GraphicalPassBuilder {
                depth_stencil: DepthStencil { depth_write: true, depth_compare: Compare::Greater },
                ..self
            }),
    {
        self.depth_write(true).depth_test_greater()
    }

    /// Use the given vertex shader with the given specialization constants.
    pub fn vertex_shader(self, shader: Shader, specialization: SpecializationConstants) -> (r:
        GraphicalPassBuilder)
        ensures
            r == (GraphicalPassBuilder {
                vertex_shader: Some(ShaderStage { shader, specialization }),
                ..self
            }),
    {
        GraphicalPassBuilder { vertex_shader: Some(ShaderStage { shader, specialization }), ..self }
    }

    /// Use the given fragment shader with the given specialization
    /// constants.
    pub fn fragment_shader(self, shader: Shader, specialization: SpecializationConstants) -> (r:
        GraphicalPassBuilder)
        ensures
            r == (GraphicalPassBuilder {
                fragment_shader: Some(ShaderStage { shader, specialization }),
                ..self
            }),
    {
        GraphicalPassBuilder {
            fragment_shader: Some(ShaderStage { shader, specialization }),
            ..self
        }
    }

    /// The color attachment description appended for the given format,
    /// load and store operations at the builder's sample count.
    pub open spec fn spec_color_attachment(self, format: Format, load: LoadOp, store: StoreOp)
        -> AttachmentDescription {
        AttachmentDescription {
            format,
            samples: self.samples,
            load,
            store,
            stencil_load: LoadOp::DontCare,
            stencil_store: StoreOp::DontCare,
            initial_layout: ImageLayout::ColorAttachmentOptimal,
            final_layout: ImageLayout::ColorAttachmentOptimal,
        }
    }

    /// The depth attachment description appended for the given format,
    /// load and store operations at the builder's sample count.
    pub open spec fn spec_depth_attachment(self, format: Format, load: LoadOp, store: StoreOp)
        -> AttachmentDescription {
        AttachmentDescription {
            format,
            samples: self.samples,
            load,
            store,
            stencil_load: load,
            stencil_store: store,
            initial_layout: ImageLayout::DepthStencilAttachmentOptimal,
            final_layout: ImageLayout::DepthStencilAttachmentOptimal,
        }
    }

    /// Append an image attachment (a resource drawn to) to this pass.
    pub fn add_image_attachment(self, format: Format, load: LoadOp, store: StoreOp) -> (r:
        GraphicalPassBuilder)
        ensures
            r.attachments@ == self.attachments@.push(
                (AttachmentType::General, self.spec_color_attachment(format, load, store)),
            ),
            r == (GraphicalPassBuilder { attachments: r.attachments, ..self }),
            self.wf() ==> r.wf(),
    {
        let desc = AttachmentDescription {
            format,
            samples: self.samples,
            load,
            store,
            stencil_load: LoadOp::DontCare,
            stencil_store: StoreOp::DontCare,
            initial_layout: ImageLayout::ColorAttachmentOptimal,
            final_layout: ImageLayout::ColorAttachmentOptimal,
        };
        let mut attachments = self.attachments;
        attachments.push((AttachmentType::General, desc));
        GraphicalPassBuilder { attachments, ..self }
    }

    /// Append an image attachment drawing to the swapchain's presentable
    /// image, stored for presentation.
    pub fn add_image_attachment_swapchain(self, swapchain: &Swapchain, load: LoadOp) -> (r:
        GraphicalPassBuilder)
        ensures
            r.attachments@ == self.attachments@.push(
                (
                    AttachmentType::General,
                    self.spec_color_attachment(swapchain.color_format, load, StoreOp::Store),
                ),
            ),
            r == (GraphicalPassBuilder { attachments: r.attachments, ..self }),
            self.wf() ==> r.wf(),
    {
        let format = swapchain.color_format;
        self.add_image_attachment(format, load, StoreOp::Store)
    }

    /// Append a cleared image attachment drawing to the swapchain's
    /// presentable image.
    pub fn add_image_attachment_swapchain_cleared(self, swapchain: &Swapchain) -> (r:
        GraphicalPassBuilder)
        ensures
            r.attachments@ == self.attachments@.push(
                (
                    AttachmentType::General,
                    self.spec_color_attachment(
                        swapchain.color_format,
                        LoadOp::Clear,
                        StoreOp::Store,
                    ),
                ),
            ),
            r == (GraphicalPassBuilder { attachments: r.attachments, ..self }),
            self.wf() ==> r.wf(),
    {
        self.add_image_attachment_swapchain(swapchain, LoadOp::Clear)
    }

    /// Append a depth-buffer attachment to this pass.
    ///
    /// Fails with [`AttachmentError::InvalidFormat`] when the format has no
    /// depth component, and with
    /// [`AttachmentError::DepthAttachmentAlreadyExists`] — carrying the
    /// existing attachment's index — when a depth attachment was already
    /// appended; only one is supported at a time.
    pub fn add_depth_attachment(self, format: Format, load: LoadOp, store: StoreOp) -> (r: Result<
        GraphicalPassBuilder,
        AttachmentError,
    >)
        ensures
            !format.depth ==> r == Err::<GraphicalPassBuilder, AttachmentError>(
                AttachmentError::InvalidFormat,
            ),
            format.depth ==> (match self.depth_attachment {
                Some(k) => r == Err::<GraphicalPassBuilder, AttachmentError>(
                    AttachmentError::DepthAttachmentAlreadyExists(k),
                ),
                None => true,
            }),
            format.depth && self.depth_attachment is None ==> (r matches Ok(b) && {
                &&& b.attachments@ == self.attachments@.push(
                    (AttachmentType::General, self.spec_depth_attachment(format, load, store)),
                )
                &&& b.depth_attachment == Some(self.attachments@.len() as usize)
                &&& b == (GraphicalPassBuilder {
                    attachments: b.attachments,
                    depth_attachment: b.depth_attachment,
                    ..self
                })
                &&& b.wf()
            }),
    {
        if format.depth {
            match self.depth_attachment {
                Some(index) => Err(AttachmentError::DepthAttachmentAlreadyExists(index)),
                None => {
                    let desc = AttachmentDescription {
                        format,
                        samples: self.samples,
                        load,
                        store,
                        stencil_load: load,
                        stencil_store: store,
                        initial_layout: ImageLayout::DepthStencilAttachmentOptimal,
                        final_layout: ImageLayout::DepthStencilAttachmentOptimal,
                    };
                    let depth_attachment = Some(self.attachments.len());
                    let mut attachments = self.attachments;
                    attachments.push((AttachmentType::General, desc));
                    Ok(GraphicalPassBuilder { attachments, depth_attachment, ..self })
                },
            }
        } else {
            Err(AttachmentError::InvalidFormat)
        }
    }

    /// Append a depth-buffer attachment using the swapchain's depth format.
    pub fn add_depth_attachment_swapchain(
        self,
        swapchain: &Swapchain,
        load: LoadOp,
        store: StoreOp,
    ) -> (r: Result<GraphicalPassBuilder, AttachmentError>)
        ensures
            !swapchain.depth_format.depth ==> r == Err::<GraphicalPassBuilder, AttachmentError>(
                AttachmentError::InvalidFormat,
            ),
            swapchain.depth_format.depth ==> (match self.depth_attachment {
                Some(k) => r == Err::<GraphicalPassBuilder, AttachmentError>(
                    AttachmentError::DepthAttachmentAlreadyExists(k),
                ),
                None => true,
            }),
            swapchain.depth_format.depth && self.depth_attachment is None ==> (r matches Ok(b) && {
                &&& b.attachments@ == self.attachments@.push(
                    (
                        AttachmentType::General,
                        self.spec_depth_attachment(swapchain.depth_format, load, store),
                    ),
                )
                &&& b.depth_attachment == Some(self.attachments@.len() as usize)
                &&& b == (GraphicalPassBuilder {
                    attachments: b.attachments,
                    depth_attachment: b.depth_attachment,
                    ..self
                })
                &&& b.wf()
            }),
    {
        let format = swapchain.depth_format;
        self.add_depth_attachment(format, load, store)
    }

    /// Append a swapchain depth attachment whose contents are discarded
    /// when the pass ends.
    pub fn add_depth_attachment_swapchain_discard(self, swapchain: &Swapchain, load: LoadOp) -> (r:
        Result<GraphicalPassBuilder, AttachmentError>)
        ensures
            !swapchain.depth_format.depth ==> r == Err::<GraphicalPassBuilder, AttachmentError>(
                AttachmentError::InvalidFormat,
            ),
            swapchain.depth_format.depth ==> (match self.depth_attachment {
                Some(k) => r == Err::<GraphicalPassBuilder, AttachmentError>(
                    AttachmentError::DepthAttachmentAlreadyExists(k),
                ),
                None => true,
            }),
            swapchain.depth_format.depth && self.depth_attachment is None ==> (r matches Ok(b) && {
                &&& b.attachments@ == self.attachments@.push(
                    (
                        AttachmentType::General,
                        self.spec_depth_attachment(
                            swapchain.depth_format,
                            load,
                            StoreOp::DontCare,
                        ),
                    ),
                )
                &&& b.depth_attachment == Some(self.attachments@.len() as usize)
                &&& b == (GraphicalPassBuilder {
                    attachments: b.attachments,
                    depth_attachment: b.depth_attachment,
                    ..self
                })
                &&& b.wf()
            }),
    {
        self.add_depth_attachment_swapchain(swapchain, load, StoreOp::DontCare)
    }

    /// Append a swapchain depth attachment whose contents are preserved
    /// when the pass ends.
    pub fn add_depth_attachment_swapchain_preserve(self, swapchain: &Swapchain, load: LoadOp) -> (r:
        Result<GraphicalPassBuilder, AttachmentError>)
        ensures
            !swapchain.depth_format.depth ==> r == Err::<GraphicalPassBuilder, AttachmentError>(
                AttachmentError::InvalidFormat,
            ),
            swapchain.depth_format.depth ==> (match self.depth_attachment {
                Some(k) => r == Err::<GraphicalPassBuilder, AttachmentError>(
                    AttachmentError::DepthAttachmentAlreadyExists(k),
                ),
                None => true,
            }),
            swapchain.depth_format.depth && self.depth_attachment is None ==> (r matches Ok(b) && {
                &&& b.attachments@ == self.attachments@.push(
                    (
                        AttachmentType::General,
                        self.spec_depth_attachment(swapchain.depth_format, load, StoreOp::Store),
                    ),
                )
                &&& b.depth_attachment == Some(self.attachments@.len() as usize)
                &&& b == (GraphicalPassBuilder {
                    attachments: b.attachments,
                    depth_attachment: b.depth_attachment,
                    ..self
                })
                &&& b.wf()
            }),
    {
        self.add_depth_attachment_swapchain(swapchain, load, StoreOp::Store)
    }

    /// Well-formedness: a declared depth index points at an existing
    /// depth-format attachment.
    pub open spec fn wf(self) -> bool {
        match self.depth_attachment {
            Some(k) => k < self.attachments@.len() && self.attachments@[k as int].1.format.depth,
            None => true,
        }
    }

    /// What building this configuration produces: the first violated
    /// requirement is reported, in the order the checks run; a
    /// configuration with at least one attachment, both shader stages with
    /// matching specialization-constant kinds, and a vertex input
    /// satisfying the vertex shader's declared layout builds the validated
    /// pass.
    pub open spec fn spec_build(self) -> Result<GraphicalPass, BuildError> {
        if self.attachments@.len() == 0 {
            Err(BuildError::NoAttachments)
        } else if self.vertex_shader is None {
            Err(
                BuildError::GraphicsPipelineCreation(
                    GraphicsPipelineCreationError::MissingVertexShader,
                ),
            )
        } else if self.fragment_shader is None {
            Err(
                BuildError::GraphicsPipelineCreation(
                    GraphicsPipelineCreationError::MissingFragmentShader,
                ),
            )
        } else if self.vertex_input is None {
            Err(
                BuildError::GraphicsPipelineCreation(
                    GraphicsPipelineCreationError::MissingVertexInput,
                ),
            )
        } else {
            let vs = self.vertex_shader.unwrap();
            let fs = self.fragment_shader.unwrap();
            let fields = self.vertex_input.unwrap();
            if vs.shader.specialization_kind != vs.specialization.kind
                || fs.shader.specialization_kind != fs.specialization.kind {
                Err(
                    BuildError::GraphicsPipelineCreation(
                        GraphicsPipelineCreationError::IncompatibleSpecializationConstants,
                    ),
                )
            } else if !vertex_input_satisfies(fields@, vs.shader.inputs@) {
                Err(
                    BuildError::GraphicsPipelineCreation(
                        GraphicsPipelineCreationError::VertexInputIncompatible,
                    ),
                )
            } else {
                Ok(
                    GraphicalPass {
                        render_pass: GraphicalRenderPassDescription {
                            attachments: self.attachments,
                            depth_attachment: self.depth_attachment,
                        },
                        pipeline: Pipeline {
                            vertex_input: fields,
                            vertex_shader: vs,
                            fragment_shader: fs,
                            primitive_topology: self.primitive_topology,
                            rasterization: self.rasterization,
                            depth_stencil: self.depth_stencil,
                            samples: self.samples,
                        },
                    },
                )
            }
        }
    }

    /// Validate the configuration and produce the render-pass/pipeline
    /// pair.
    ///
    /// Every requirement is checked before a [`GraphicalPass`] can exist: a
    /// vertex input with fewer fields than the vertex shader declares — or
    /// differing in any field's format — is rejected, never silently
    /// truncated.
    pub fn build(self) -> (r: Result<GraphicalPass, BuildError>)
        ensures
            r == self.spec_build(),
            self.wf() ==> (match r {
                Ok(p) => p.wf(),
                Err(_) => true,
            }),
    {
        if self.attachments.len() == 0 {
            return Err(BuildError::NoAttachments);
        }
        let vs = match self.vertex_shader {
            Some(stage) => stage,
            None => {
                return Err(
                    BuildError::GraphicsPipelineCreation(
                        GraphicsPipelineCreationError::MissingVertexShader,
                    ),
                );
            },
        };
        let fs = match self.fragment_shader {
            Some(stage) => stage,
            None => {
                return Err(
                    BuildError::GraphicsPipelineCreation(
                        GraphicsPipelineCreationError::MissingFragmentShader,
                    ),
                );
            },
        };
        let fields = match self.vertex_input {
            Some(fields) => fields,
            None => {
                return Err(
                    BuildError::GraphicsPipelineCreation(
                        GraphicsPipelineCreationError::MissingVertexInput,
                    ),
                );
            },
        };
        if vs.shader.specialization_kind != vs.specialization.kind
            || fs.shader.specialization_kind != fs.specialization.kind {
            return Err(
                BuildError::GraphicsPipelineCreation(
                    GraphicsPipelineCreationError::IncompatibleSpecializationConstants,
                ),
            );
        }
        if !layout_satisfies(&fields, &vs.shader.inputs) {
            return Err(
                BuildError::GraphicsPipelineCreation(
                    GraphicsPipelineCreationError::VertexInputIncompatible,
                ),
            );
        }
        Ok(
            GraphicalPass {
                render_pass: GraphicalRenderPassDescription {
                    attachments: self.attachments,
                    depth_attachment: self.depth_attachment,
                },
                pipeline: Pipeline {
                    vertex_input: fields,
                    vertex_shader: vs,
                    fragment_shader: fs,
                    primitive_topology: self.primitive_topology,
                    rasterization: self.rasterization,
                    depth_stencil: self.depth_stencil,
                    samples: self.samples,
                },
            },
        )
    }
}

/// Whether the vertex-input layout provides every input the shader
/// declares, location by location.
fn layout_satisfies(fields: &Vec<u64>, shader_inputs: &Vec<u64>) -> (r: bool)
    ensures
        r == vertex_input_satisfies(fields@, shader_inputs@),
{
    if shader_inputs.len() > fields.len() {
        return false;
    }
    let mut i: usize = 0;
    while i < shader_inputs.len()
        invariant
            i <= shader_inputs@.len(),
            shader_inputs@.len() <= fields@.len(),
            forall|j: int| 0 <= j < i ==> fields@[j] == shader_inputs@[j],
        decreases shader_inputs@.len() - i,
    {
        if fields[i] != shader_inputs[i] {
            return false;
        }
        i = i + 1;
    }
    true
}

} // verus!
