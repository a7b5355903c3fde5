use vstd::prelude::*;

verus! {

#[derive(Clone, Copy, Debug, PartialEq, Eq, Structural)]
pub enum VertexFormat {
    Float32x2,
    Float32x3,
    Float32x4,
}

/// Bytes taken by one attribute of the format.
pub open spec fn format_size(f: VertexFormat) -> nat {
    match f {
        VertexFormat::Float32x2 => 8,
        VertexFormat::Float32x3 => 12,
        VertexFormat::Float32x4 => 16,
    }
}

#[derive(Clone, Copy, Debug, PartialEq, Eq, Structural)]
pub enum VertexStepMode {
    Vertex,
    Instance,
}

#[derive(Clone, Copy, Debug, PartialEq, Eq, Structural)]
pub struct VertexAttribute {
    pub offset: u64,
    pub shader_location: u32,
    pub format: VertexFormat,
}

/// How one vertex buffer is laid out for the shaders that read it.
#[derive(Clone, Debug)]
pub struct VertexBufferLayout {
    pub array_stride: u64,
    pub step_mode: VertexStepMode,
    pub attributes: Vec<VertexAttribute>,
}

pub open spec fn attribute(offset: u64, shader_location: u32, format: VertexFormat) -> VertexAttribute {
    VertexAttribute { offset, shader_location, format }
}

/// Every attribute lies inside the stride, attributes follow each other
/// without overlapping, and no two share a shader location.
pub open spec fn layout_wf(stride: u64, attrs: Seq<VertexAttribute>) -> bool {
    &&& forall|i: int| 0 <= i < attrs.len() ==> #[trigger] attrs[i].offset + format_size(attrs[i].format) <= stride
    &&& forall|i: int, j: int|
        0 <= i < j < attrs.len() ==> #[trigger] attrs[i].offset + format_size(attrs[i].format) <= #[trigger] attrs[j].offset
    &&& forall|i: int, j: int|
        0 <= i < attrs.len() && 0 <= j < attrs.len() && i != j ==> #[trigger] attrs[i].shader_location
            != #[trigger] attrs[j].shader_location
}

/// Two layouts read together by one shader use different shader locations.
pub open spec fn locations_disjoint(a: Seq<VertexAttribute>, b: Seq<VertexAttribute>) -> bool {
    forall|i: int, j: int|
        0 <= i < a.len() && 0 <= j < b.len() ==> #[trigger] a[i].shader_location != #[trigger] b[j].shader_location
}

/// Position (three floats, location 0) then texture coordinates (two
/// floats, location 1).
pub open spec fn vertex_attributes() -> Seq<VertexAttribute> {
    seq![attribute(0, 0, VertexFormat::Float32x3), attribute(12, 1, VertexFormat::Float32x2)]
}

/// The four columns of a model matrix, at locations 5 to 8.
pub open spec fn instance_attributes() -> Seq<VertexAttribute> {
    seq![
        attribute(0, 5, VertexFormat::Float32x4),
        attribute(16, 6, VertexFormat::Float32x4),
        attribute(32, 7, VertexFormat::Float32x4),
        attribute(48, 8, VertexFormat::Float32x4),
    ]
}

/// The per-vertex layout: 20 bytes per vertex.
pub fn vertex_desc() -> (r: VertexBufferLayout)
    ensures
        r.array_stride == 20,
        r.step_mode == VertexStepMode::Vertex,
        r.attributes@ == vertex_attributes(),
        layout_wf(r.array_stride, r.attributes@),
{
    let attributes = vec![
        VertexAttribute { offset: 0, shader_location: 0, format: VertexFormat::Float32x3 },
        VertexAttribute { offset: 12, shader_location: 1, format: VertexFormat::Float32x2 },
    ];
    proof {
        assert(attributes@ =~= vertex_attributes());
    }
    VertexBufferLayout { array_stride: 20, step_mode: VertexStepMode::Vertex, attributes }
}

/// The per-instance layout: one 4x4 matrix of floats, 64 bytes per instance.
pub fn instance_desc() -> (r: VertexBufferLayout)
    ensures
        r.array_stride == 64,
        r.step_mode == VertexStepMode::Instance,
        r.attributes@ == instance_attributes(),
        layout_wf(r.array_stride, r.attributes@),
{
    let attributes = vec![
        VertexAttribute { offset: 0, shader_location: 5, format: VertexFormat::Float32x4 },
        VertexAttribute { offset: 16, shader_location: 6, format: VertexFormat::Float32x4 },
        VertexAttribute { offset: 32, shader_location: 7, format: VertexFormat::Float32x4 },
        VertexAttribute { offset: 48, shader_location: 8, format: VertexFormat::Float32x4 },
    ];
    proof {
        assert(attributes@ =~= instance_attributes());
    }
    VertexBufferLayout { array_stride: 64, step_mode: VertexStepMode::Instance, attributes }
}

/// The vertex and instance layouts can be bound side by side: no shader
/// location is claimed by both.
pub proof fn lemma_vertex_and_instance_locations_disjoint()
    ensures
        locations_disjoint(vertex_attributes(), instance_attributes()),
{
}

} // verus!
