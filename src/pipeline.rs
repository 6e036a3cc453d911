//! The vertex buffer layout and the fixed-function state of the one render
//! pipeline, as plain values for the presentation backend to build from.
use vstd::prelude::*;

verus! {

/// Bytes of one 32-bit float.
pub const FLOAT_SIZE: u64 = 4;

/// Bytes of one vertex: a position and a color of three floats each.
pub const VERTEX_SIZE: u64 = 24;

/// Byte offset of the color within a vertex, right after the position.
pub const COLOR_OFFSET: u64 = 12;

/// Shader location of the position attribute.
pub const POSITION_LOCATION: u32 = 0;

/// Shader location of the color attribute.
pub const COLOR_LOCATION: u32 = 1;

/// Per-vertex attribute formats that the pipeline uses.
#[derive(Debug, Clone, Copy, PartialEq, Eq, Structural)]
pub enum VertexFormat {
    /// Three 32-bit floats.
    Float32x3,
}

impl VertexFormat {
    pub open spec fn size_spec(self) -> nat {
        match self {
            VertexFormat::Float32x3 => 3 * FLOAT_SIZE as nat,
        }
    }

    /// Bytes that one value of this format takes.
    pub fn size(self) -> (r: u64)
        ensures
            r as nat == self.size_spec(),
    {
        match self {
            VertexFormat::Float32x3 => 3 * FLOAT_SIZE,
        }
    }
}

/// Whether a buffer advances per vertex or per instance.
#[derive(Debug, Clone, Copy, PartialEq, Eq, Structural)]
pub enum StepMode {
    Vertex,
    Instance,
}

/// One attribute of a vertex: where it lies in the vertex, and which input
/// of the vertex shader receives it.
#[derive(Debug, Clone, Copy, PartialEq, Eq, Structural)]
pub struct VertexAttribute {
    pub offset: u64,
    pub shader_location: u32,
    pub format: VertexFormat,
}

/// How a vertex buffer is read: the distance between vertices and the
/// attributes of each.
pub struct VertexLayout {
    pub array_stride: u64,
    pub step_mode: StepMode,
    pub attributes: Vec<VertexAttribute>,
}

/// Every attribute lies inside one vertex, no two overlap, and no two feed
/// the same shader input.
pub open spec fn layout_wf(stride: nat, attrs: Seq<VertexAttribute>) -> bool {
    &&& forall|i: int|
        0 <= i < attrs.len() ==> #[trigger] attrs[i].offset + attrs[i].format.size_spec()
            <= stride
    &&& forall|i: int, j: int|
        0 <= i < j < attrs.len() ==> {
            &&& (#[trigger] attrs[i]).shader_location != (#[trigger] attrs[j]).shader_location
            &&& (attrs[i].offset + attrs[i].format.size_spec() <= attrs[j].offset
                || attrs[j].offset + attrs[j].format.size_spec() <= attrs[i].offset)
        }
}

/// The attributes of a vertex: position at offset 0, color right after it.
pub open spec fn vertex_attributes_spec() -> Seq<VertexAttribute> {
    seq![
        VertexAttribute {
            offset: 0,
            shader_location: POSITION_LOCATION,
            format: VertexFormat::Float32x3,
        },
        VertexAttribute {
            offset: COLOR_OFFSET,
            shader_location: COLOR_LOCATION,
            format: VertexFormat::Float32x3,
        },
    ]
}

/// The layout of the vertex buffer: one vertex per step, a position and a
/// color of three floats each.
pub fn vertex_layout() -> (r: VertexLayout)
    ensures
        r.array_stride == VERTEX_SIZE,
        r.step_mode == StepMode::Vertex,
        r.attributes@ == vertex_attributes_spec(),
        layout_wf(r.array_stride as nat, r.attributes@),
{
    let position = VertexAttribute {
        offset: 0,
        shader_location: POSITION_LOCATION,
        format: VertexFormat::Float32x3,
    };
    let color = VertexAttribute {
        offset: position.format.size(),
        shader_location: COLOR_LOCATION,
        format: VertexFormat::Float32x3,
    };
    let attributes = vec![position, color];
    assert(attributes@ == vertex_attributes_spec());
    VertexLayout { array_stride: color.offset + color.format.size(), step_mode: StepMode::Vertex, attributes }
}

/// How vertices are assembled into primitives.
#[derive(Debug, Clone, Copy, PartialEq, Eq, Structural)]
pub enum Topology {
    PointList,
    LineList,
    LineStrip,
    TriangleList,
    TriangleStrip,
}

/// The winding order of a triangle's front face.
#[derive(Debug, Clone, Copy, PartialEq, Eq, Structural)]
pub enum FrontFace {
    Ccw,
    Cw,
}

/// Which faces are discarded.
#[derive(Debug, Clone, Copy, PartialEq, Eq, Structural)]
pub enum CullMode {
    Nothing,
    Front,
    Back,
}

/// How a triangle is rasterized.
#[derive(Debug, Clone, Copy, PartialEq, Eq, Structural)]
pub enum PolygonMode {
    Fill,
    Line,
    Point,
}

/// The fixed state of the render pipeline, beside its shader module, the
/// vertex layout and the surface's format.
#[derive(Debug, Clone, Copy)]
pub struct PipelineState {
    pub vertex_entry: &'static str,
    pub fragment_entry: &'static str,
    pub topology: Topology,
    pub front_face: FrontFace,
    pub cull_mode: CullMode,
    pub polygon_mode: PolygonMode,
    pub sample_count: u32,
    pub sample_mask: u64,
    pub alpha_to_coverage: bool,
    pub depth_stencil: bool,
    /// The fragment's color replaces what the target held.
    pub blend_replace: bool,
    /// All four color channels are written.
    pub write_all_channels: bool,
}

/// The pipeline's fixed state: entry points `vs_main` and `fs_main`, a
/// triangle list with counter-clockwise front faces and back faces culled,
/// solid fill, one sample with every sample bit set, no depth or stencil, and
/// the fragment color written to every channel.
pub fn pipeline_state() -> (r: PipelineState)
    ensures
        r.vertex_entry@ == "vs_main"@,
        r.fragment_entry@ == "fs_main"@,
        r.topology == Topology::TriangleList,
        r.front_face == FrontFace::Ccw,
        r.cull_mode == CullMode::Back,
        r.polygon_mode == PolygonMode::Fill,
        r.sample_count == 1,
        r.sample_mask == u64::MAX,
        !r.alpha_to_coverage,
        !r.depth_stencil,
        r.blend_replace,
        r.write_all_channels,
{
    PipelineState {
        vertex_entry: "vs_main",
        fragment_entry: "fs_main",
        topology: Topology::TriangleList,
        front_face: FrontFace::Ccw,
        cull_mode: CullMode::Back,
        polygon_mode: PolygonMode::Fill,
        sample_count: 1,
        sample_mask: u64::MAX,
        alpha_to_coverage: false,
        depth_stencil: false,
        blend_replace: true,
        write_all_channels: true,
    }
}

} // verus!
