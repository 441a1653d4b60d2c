//! How the render pipelines of the first renderer are set up: which vertex
//! layout, bind groups and primitive topology each kind of drawing uses.
use vstd::prelude::*;

verus! {

/// Formats of vertex attributes.
#[derive(Clone, Copy, Debug, PartialEq, Eq, Structural)]
pub enum VertexFormat {
    Float2,
    Float4,
}

/// Whether attributes advance per vertex or per instance.
#[derive(Clone, Copy, Debug, PartialEq, Eq, Structural)]
pub enum InputStepMode {
    Vertex,
    Instance,
}

/// One attribute of a vertex buffer.
#[derive(Clone, Copy, Debug, PartialEq, Eq, Structural)]
pub struct VertexAttributeDescriptor {
    pub offset: u64,
    pub shader_location: u32,
    pub format: VertexFormat,
}

/// The layout of a vertex buffer.
pub struct VertexBufferDescriptor {
    pub stride: u64,
    pub step_mode: InputStepMode,
    pub attributes: Vec<VertexAttributeDescriptor>,
}

/// The layout of colored points of `stride` bytes: a position of two floats
/// at offset 0 and a color of four floats at `color_offset`.
pub fn buffer_point_desc(stride: u64, color_offset: u64) -> (d: VertexBufferDescriptor)
    ensures
        d.stride == stride,
        d.step_mode == InputStepMode::Vertex,
        d.attributes@ == seq![
            VertexAttributeDescriptor { offset: 0, shader_location: 0, format: VertexFormat::Float2 },
            VertexAttributeDescriptor {
                offset: color_offset,
                shader_location: 1,
                format: VertexFormat::Float4,
            },
        ],
{
    let mut attributes: Vec<VertexAttributeDescriptor> = Vec::new();
    attributes.push(
        VertexAttributeDescriptor { offset: 0, shader_location: 0, format: VertexFormat::Float2 },
    );
    attributes.push(
        VertexAttributeDescriptor {
            offset: color_offset,
            shader_location: 1,
            format: VertexFormat::Float4,
        },
    );
    VertexBufferDescriptor { stride, step_mode: InputStepMode::Vertex, attributes }
}

/// The layout of textured points of `stride` bytes: a position of two floats
/// at offset 0 and texture coordinates of two floats at `tex_coords_offset`.
pub fn texture_point_desc(stride: u64, tex_coords_offset: u64) -> (d: VertexBufferDescriptor)
    ensures
        d.stride == stride,
        d.step_mode == InputStepMode::Vertex,
        d.attributes@ == seq![
            VertexAttributeDescriptor { offset: 0, shader_location: 0, format: VertexFormat::Float2 },
            VertexAttributeDescriptor {
                offset: tex_coords_offset,
                shader_location: 1,
                format: VertexFormat::Float2,
            },
        ],
{
    let mut attributes: Vec<VertexAttributeDescriptor> = Vec::new();
    attributes.push(
        VertexAttributeDescriptor { offset: 0, shader_location: 0, format: VertexFormat::Float2 },
    );
    attributes.push(
        VertexAttributeDescriptor {
            offset: tex_coords_offset,
            shader_location: 1,
            format: VertexFormat::Float2,
        },
    );
    VertexBufferDescriptor { stride, step_mode: InputStepMode::Vertex, attributes }
}

/// Kinds of drawing: textures (with the bind group layout `L` of the
/// texture), filled shapes and shape borders.
#[derive(Clone, Copy, Debug, PartialEq, Eq)]
pub enum RenderType<L> {
    Texture(L),
    Shape,
    Border,
}

/// The vertex layouts a pipeline can read.
#[derive(Clone, Copy, Debug, PartialEq, Eq, Structural)]
pub enum PointLayout {
    TexturePoint,
    BufferPoint,
}

/// How vertices are put together.
#[derive(Clone, Copy, Debug, PartialEq, Eq, Structural)]
pub enum PrimitiveTopology {
    TriangleStrip,
    LineStrip,
}

/// The integer type of the entries of an index buffer.
#[derive(Clone, Copy, Debug, PartialEq, Eq, Structural)]
pub enum IndexFormat {
    Uint16,
    Uint32,
}

/// What a render pipeline is made of: the bind group layout it binds (if
/// any), the vertex layout it reads, its topology and the format of the
/// indices it reads.
#[derive(Clone, Copy, Debug, PartialEq, Eq)]
pub struct PipelinePlan<L> {
    pub bind_group_layout: Option<L>,
    pub vertex: PointLayout,
    pub topology: PrimitiveTopology,
    pub index_format: IndexFormat,
}

/// The plan of the pipeline for a kind of drawing: textures bind their
/// layout and read textured points as a triangle strip; shapes read colored
/// points as a triangle strip; borders as a line strip. Every pipeline reads
/// 16-bit indices.
pub open spec fn spec_pipeline_plan<L>(render_type: RenderType<L>) -> PipelinePlan<L> {
    match render_type {
        RenderType::Texture(layout) => PipelinePlan {
            bind_group_layout: Some(layout),
            vertex: PointLayout::TexturePoint,
            topology: PrimitiveTopology::TriangleStrip,
            index_format: IndexFormat::Uint16,
        },
        RenderType::Shape => PipelinePlan {
            bind_group_layout: None,
            vertex: PointLayout::BufferPoint,
            topology: PrimitiveTopology::TriangleStrip,
            index_format: IndexFormat::Uint16,
        },
        RenderType::Border => PipelinePlan {
            bind_group_layout: None,
            vertex: PointLayout::BufferPoint,
            topology: PrimitiveTopology::LineStrip,
            index_format: IndexFormat::Uint16,
        },
    }
}

/// The plan of the pipeline for a kind of drawing.
pub fn create_pipeline_state<L>(render_type: RenderType<L>) -> (plan: PipelinePlan<L>)
    ensures
        plan == spec_pipeline_plan(render_type),
{
    match render_type {
        RenderType::Texture(layout) => PipelinePlan {
            bind_group_layout: Some(layout),
            vertex: PointLayout::TexturePoint,
            topology: PrimitiveTopology::TriangleStrip,
            index_format: IndexFormat::Uint16,
        },
        RenderType::Shape => PipelinePlan {
            bind_group_layout: None,
            vertex: PointLayout::BufferPoint,
            topology: PrimitiveTopology::TriangleStrip,
            index_format: IndexFormat::Uint16,
        },
        RenderType::Border => PipelinePlan {
            bind_group_layout: None,
            vertex: PointLayout::BufferPoint,
            topology: PrimitiveTopology::LineStrip,
            index_format: IndexFormat::Uint16,
        },
    }
}

/// The shader programs of the first renderer.
#[derive(Clone, Copy, Debug, PartialEq, Eq, Structural)]
pub enum ShaderKind {
    Font,
    Shape,
}

/// The three global pipelines: text, filled shapes and borders, each with
/// its shader.
pub struct GlobPipelinePlan<L> {
    pub render_pipeline: (ShaderKind, PipelinePlan<L>),
    pub shape_pipeline: (ShaderKind, PipelinePlan<L>),
    pub border_pipeline: (ShaderKind, PipelinePlan<L>),
}

/// The global pipelines for the texture bind group layout `layout`: text
/// with the font shader, shapes and borders with the shape shader.
pub fn create_glob_pipeline<L>(layout: L) -> (p: GlobPipelinePlan<L>)
    ensures
        p.render_pipeline == (ShaderKind::Font, spec_pipeline_plan(RenderType::Texture(layout))),
        p.shape_pipeline == (ShaderKind::Shape, spec_pipeline_plan(RenderType::<L>::Shape)),
        p.border_pipeline == (ShaderKind::Shape, spec_pipeline_plan(RenderType::<L>::Border)),
{
    let render_pipeline = (ShaderKind::Font, create_pipeline_state(RenderType::Texture(layout)));
    let shape_pipeline = (ShaderKind::Shape, create_pipeline_state(RenderType::Shape));
    let border_pipeline = (ShaderKind::Shape, create_pipeline_state(RenderType::Border));
    GlobPipelinePlan { render_pipeline, shape_pipeline, border_pipeline }
}

} // verus!
