//! Plain-value descriptions of the fixed render pipeline: the primitive
//! assembly the triangle is rasterised with, the layout of a vertex in the
//! vertex buffer, and the single draw call a frame issues. The loop owner
//! translates these into the graphics backend's descriptor types when the
//! pipeline is built and when a frame is encoded.

use vstd::prelude::*;

verus! {

/// How a vertex stream is assembled into primitives.
#[derive(Clone, Copy, Debug, PartialEq, Eq, Structural)]
pub enum Topology {
    PointList,
    LineList,
    TriangleList,
}

/// Which winding order marks a triangle as front-facing.
#[derive(Clone, Copy, Debug, PartialEq, Eq, Structural)]
pub enum FrontFace {
    /// Counter-clockwise vertices face forward.
    Ccw,
    /// Clockwise vertices face forward.
    Cw,
}

/// Which faces are discarded before rasterisation.
#[derive(Clone, Copy, Debug, PartialEq, Eq, Structural)]
pub enum CullFace {
    Front,
    Back,
}

/// The primitive-assembly state of a pipeline.
#[derive(Clone, Copy, Debug, PartialEq, Eq, Structural)]
pub struct PrimitiveSpec {
    pub topology: Topology,
    pub front_face: FrontFace,
    pub cull_mode: Option<CullFace>,
}

/// The primitive state every variant of this renderer builds its pipeline
/// with: a triangle list whose counter-clockwise faces are front-facing, with
/// back faces culled.
pub fn triangle_primitive() -> (p: PrimitiveSpec)
    ensures
        p.topology is TriangleList,
        p.front_face is Ccw,
        p.cull_mode == Some(CullFace::Back),
{
    PrimitiveSpec {
        topology: Topology::TriangleList,
        front_face: FrontFace::Ccw,
        cull_mode: Some(CullFace::Back),
    }
}

/// The shape of one vertex attribute as the shader reads it.
#[derive(Clone, Copy, Debug, PartialEq, Eq, Structural)]
pub enum VertexFormat {
    /// One 32-bit float.
    Float32,
    /// Two 32-bit floats.
    Float32x2,
    /// Three 32-bit floats.
    Float32x3,
    /// Four 32-bit floats.
    Float32x4,
}

impl VertexFormat {
    /// How many bytes one attribute of this format occupies.
    pub open spec fn spec_size_bytes(self) -> u64 {
        match self {
            VertexFormat::Float32 => 4,
            VertexFormat::Float32x2 => 8,
            VertexFormat::Float32x3 => 12,
            VertexFormat::Float32x4 => 16,
        }
    }

    /// How many bytes one attribute of this format occupies.
    pub fn size_bytes(&self) -> (n: u64)
        ensures
            n == self.spec_size_bytes(),
    {
        match self {
            VertexFormat::Float32 => 4,
            VertexFormat::Float32x2 => 8,
            VertexFormat::Float32x3 => 12,
            VertexFormat::Float32x4 => 16,
        }
    }
}

/// One attribute of a vertex: where it starts within the vertex, which
/// shader location it feeds, and its shape.
#[derive(Clone, Copy, Debug, PartialEq, Eq, Structural)]
pub struct VertexAttribute {
    pub offset: u64,
    pub shader_location: u32,
    pub format: VertexFormat,
}

/// Whether a buffer element advances per vertex or per instance.
#[derive(Clone, Copy, Debug, PartialEq, Eq, Structural)]
pub enum StepMode {
    Vertex,
    Instance,
}

/// The layout of a vertex buffer: how wide one element is, how the stream
/// steps through it, and the attributes packed into each element.
#[derive(Clone, Debug, PartialEq, Eq)]
pub struct VertexLayout {
    pub array_stride: u64,
    pub step_mode: StepMode,
    pub attributes: Vec<VertexAttribute>,
}

impl VertexLayout {
    /// The attributes are packed back to back from offset zero, fill the
    /// stride exactly, and feed consecutive shader locations from zero.
    pub open spec fn is_packed(self) -> bool {
        &&& forall|i: int|
            0 <= i < self.attributes@.len() ==> #[trigger] self.attributes@[i].shader_location == i
        &&& forall|i: int|
            0 <= i < self.attributes@.len() ==> #[trigger] self.attributes@[i].offset == (
            if i == 0 {
                0u64
            } else {
                (self.attributes@[i - 1].offset + self.attributes@[
                    i - 1
                ].format.spec_size_bytes()) as u64
            })
        &&& self.array_stride == if self.attributes@.len() == 0 {
            0u64
        } else {
            (self.attributes@.last().offset + self.attributes@.last().format.spec_size_bytes()) as u64
        }
    }
}

/// The layout of the triangle's vertex buffer: a position of three floats at
/// shader location zero, then a colour of three floats at location one, each
/// element stepped per vertex.
pub fn vertex_layout() -> (l: VertexLayout)
    ensures
        l.step_mode is Vertex,
        l.array_stride == 24,
        l.attributes@.len() == 2,
        l.attributes@[0] == (VertexAttribute {
            offset: 0,
            shader_location: 0,
            format: VertexFormat::Float32x3,
        }),
        l.attributes@[1] == (VertexAttribute {
            offset: 12,
            shader_location: 1,
            format: VertexFormat::Float32x3,
        }),
        l.is_packed(),
{
    let position = VertexAttribute { offset: 0, shader_location: 0, format: VertexFormat::Float32x3 };
    let color = VertexAttribute {
        offset: position.format.size_bytes(),
        shader_location: 1,
        format: VertexFormat::Float32x3,
    };
    let mut attributes: Vec<VertexAttribute> = Vec::new();
    attributes.push(position);
    attributes.push(color);
    let l = VertexLayout { array_stride: 24, step_mode: StepMode::Vertex, attributes };
    assert(l.is_packed());
    l
}

/// One draw call: which vertices of the bound buffer are drawn and how many
/// instances of them.
#[derive(Clone, Copy, Debug, PartialEq, Eq, Structural)]
pub struct DrawCall {
    pub first_vertex: u32,
    pub vertex_count: u32,
    pub first_instance: u32,
    pub instance_count: u32,
}

impl DrawCall {
    /// The call draws exactly one instance of every one of `n` vertices,
    /// starting at the first.
    pub open spec fn covers_all_once(self, n: u32) -> bool {
        &&& self.first_vertex == 0
        &&& self.vertex_count == n
        &&& self.first_instance == 0
        &&& self.instance_count == 1
    }
}

/// How many vertices the hard-coded triangle has.
pub const TRIANGLE_VERTEX_COUNT: u32 = 3;

/// The draw call a frame issues: one instance covering all `vertex_count`
/// vertices from the first.
pub fn draw_all(vertex_count: u32) -> (d: DrawCall)
    ensures
        d.covers_all_once(vertex_count),
{
    DrawCall { first_vertex: 0, vertex_count, first_instance: 0, instance_count: 1 }
}

} // verus!
