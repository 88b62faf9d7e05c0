//! Static mesh topology and vertex/instance buffer layouts.
//!
//! The mesh is a fixed pentagon fan: five vertices and nine 16-bit indices
//! forming three triangles.  The vertex attribute values themselves are
//! floating-point data owned by the host side; the core pins the index
//! topology, the counts the draw call spans, and the byte layout that the
//! shader expects for per-vertex and per-instance attributes.

use vstd::prelude::*;

verus! {

/// Number of vertices in the static mesh.
pub const VERTEX_COUNT: u16 = 5;

/// Bytes of one per-vertex record: position (3 scalars) + tex coords (2
/// scalars), 4 bytes each.
pub const VERTEX_STRIDE: u32 = 20;

/// Bytes of one per-instance record: a packed 4x4 transform matrix.
pub const INSTANCE_STRIDE: u32 = 64;

/// The index list of the static mesh, as a mathematical sequence.
pub open spec fn mesh_index_seq() -> Seq<u16> {
    seq![0u16, 1u16, 4u16, 1u16, 2u16, 4u16, 2u16, 3u16, 4u16]
}

/// Every index of the mesh addresses one of its vertices, so an indexed
/// draw over the full index range reads inside the vertex buffer.
pub open spec fn mesh_is_closed() -> bool {
    forall|i: int| 0 <= i < mesh_index_seq().len() ==> mesh_index_seq()[i] < VERTEX_COUNT
}

pub proof fn lemma_mesh_is_closed()
    ensures
        mesh_is_closed(),
{
}

/// The 16-bit index buffer contents of the static mesh.
pub fn mesh_indices() -> (r: Vec<u16>)
    ensures
        r@ == mesh_index_seq(),
{
    let mut v: Vec<u16> = Vec::new();
    v.push(0);
    v.push(1);
    v.push(4);
    v.push(1);
    v.push(2);
    v.push(4);
    v.push(2);
    v.push(3);
    v.push(4);
    proof {
        assert(v@ =~= mesh_index_seq());
    }
    v
}

/// How many indices the single draw call of a frame spans.
pub fn num_indices() -> (r: u32)
    ensures
        r == mesh_index_seq().len(),
{
    9
}

/// What a GPU buffer of this renderer holds.
#[derive(Clone, Copy, Debug, PartialEq, Eq, Structural)]
pub enum BufferKind {
    /// Per-vertex attribute data; uploaded once, read-only afterwards.
    Vertex,
    /// The 16-bit index list; uploaded once, read-only afterwards.
    Index,
    /// Per-instance transform data; uploaded once, read-only afterwards.
    Instance,
    /// The camera uniform; overwritten in place every tick.
    Uniform,
}

/// The usages a buffer is created with.
#[derive(Clone, Copy, Debug, PartialEq, Eq, Structural)]
pub struct BufferUsagePlan {
    pub vertex: bool,
    pub index: bool,
    pub uniform: bool,
    /// Whether later writes may overwrite the buffer in place.  Only the
    /// uniform buffer has it: the static buffers are upload-once.
    pub copy_dst: bool,
}

/// The usages a buffer of each kind is created with: exactly its own
/// binding usage, plus copy-destination for the uniform alone, so the
/// per-frame partial write can reach it without reallocation.
pub fn buffer_usage(kind: BufferKind) -> (r: BufferUsagePlan)
    ensures
        r.vertex == (kind == BufferKind::Vertex || kind == BufferKind::Instance),
        r.index == (kind == BufferKind::Index),
        r.uniform == (kind == BufferKind::Uniform),
        r.copy_dst == (kind == BufferKind::Uniform),
{
    match kind {
        BufferKind::Vertex | BufferKind::Instance => BufferUsagePlan {
            vertex: true,
            index: false,
            uniform: false,
            copy_dst: false,
        },
        BufferKind::Index => BufferUsagePlan {
            vertex: false,
            index: true,
            uniform: false,
            copy_dst: false,
        },
        BufferKind::Uniform => BufferUsagePlan {
            vertex: false,
            index: false,
            uniform: true,
            copy_dst: true,
        },
    }
}

/// Scalar shape of one vertex attribute, as the shader declares it.
#[derive(Clone, Copy, Debug, PartialEq, Eq, Structural)]
pub enum AttributeFormat {
    Float32x2,
    Float32x3,
    Float32x4,
}

impl AttributeFormat {
    /// Bytes one attribute of this format occupies.
    pub open spec fn spec_size(&self) -> u32 {
        match self {
            AttributeFormat::Float32x2 => 8,
            AttributeFormat::Float32x3 => 12,
            AttributeFormat::Float32x4 => 16,
        }
    }
}

/// Whether a buffer advances per vertex or per instance.
#[derive(Clone, Copy, Debug, PartialEq, Eq, Structural)]
pub enum StepMode {
    Vertex,
    Instance,
}

/// One attribute of a vertex buffer: where it sits in the record and which
/// shader location reads it.
#[derive(Clone, Copy, Debug, PartialEq, Eq, Structural)]
pub struct AttributePlan {
    pub shader_location: u32,
    pub offset: u32,
    pub format: AttributeFormat,
}

/// Byte layout of one vertex buffer slot.
#[derive(Debug)]
pub struct BufferLayoutPlan {
    pub array_stride: u32,
    pub step_mode: StepMode,
    pub attributes: Vec<AttributePlan>,
}

impl BufferLayoutPlan {
    /// Attributes lie back to back inside one record: each begins where the
    /// previous one ended, and the last ends exactly at the stride.
    pub open spec fn is_packed(&self) -> bool {
        &&& forall|i: int|
            0 <= i < self.attributes@.len() ==> #[trigger] self.attributes@[i].offset == sum_of_sizes(
                self.attributes@.take(i),
            )
        &&& sum_of_sizes(self.attributes@) == self.array_stride
    }
}

/// Total bytes of a run of attributes.
pub open spec fn sum_of_sizes(attrs: Seq<AttributePlan>) -> int
    decreases attrs.len(),
{
    if attrs.len() == 0 {
        0
    } else {
        sum_of_sizes(attrs.drop_last()) + attrs.last().format.spec_size()
    }
}

/// The per-vertex attributes, as the shader declares them: position (3
/// scalars) at location 0, texture coordinates (2 scalars) at location 1.
pub open spec fn spec_vertex_attributes() -> Seq<AttributePlan> {
    seq![
        AttributePlan { shader_location: 0, offset: 0, format: AttributeFormat::Float32x3 },
        AttributePlan { shader_location: 1, offset: 12, format: AttributeFormat::Float32x2 },
    ]
}

/// The per-instance attributes: the packed 4x4 transform matrix in four
/// consecutive vector slots, shader locations 5 through 8.
pub open spec fn spec_instance_attributes() -> Seq<AttributePlan> {
    seq![
        AttributePlan { shader_location: 5, offset: 0, format: AttributeFormat::Float32x4 },
        AttributePlan { shader_location: 6, offset: 16, format: AttributeFormat::Float32x4 },
        AttributePlan { shader_location: 7, offset: 32, format: AttributeFormat::Float32x4 },
        AttributePlan { shader_location: 8, offset: 48, format: AttributeFormat::Float32x4 },
    ]
}

/// Layout of the per-vertex buffer (slot 0): position at shader location 0,
/// texture coordinates at location 1.
pub fn vertex_buffer_layout() -> (r: BufferLayoutPlan)
    ensures
        r.array_stride == VERTEX_STRIDE,
        r.step_mode == StepMode::Vertex,
        r.attributes@ =~= spec_vertex_attributes(),
        r.is_packed(),
{
    let mut attributes: Vec<AttributePlan> = Vec::new();
    attributes.push(AttributePlan { shader_location: 0, offset: 0, format: AttributeFormat::Float32x3 });
    attributes.push(AttributePlan { shader_location: 1, offset: 12, format: AttributeFormat::Float32x2 });
    let r = BufferLayoutPlan { array_stride: VERTEX_STRIDE, step_mode: StepMode::Vertex, attributes };
    proof {
        lemma_packed_pair(r);
    }
    r
}

/// Layout of the per-instance buffer (slot 1): a 4x4 transform matrix in
/// four consecutive vector slots, shader locations 5 through 8.
pub fn instance_buffer_layout() -> (r: BufferLayoutPlan)
    ensures
        r.array_stride == INSTANCE_STRIDE,
        r.step_mode == StepMode::Instance,
        r.attributes@ =~= spec_instance_attributes(),
        r.is_packed(),
{
    let mut attributes: Vec<AttributePlan> = Vec::new();
    attributes.push(AttributePlan { shader_location: 5, offset: 0, format: AttributeFormat::Float32x4 });
    attributes.push(AttributePlan { shader_location: 6, offset: 16, format: AttributeFormat::Float32x4 });
    attributes.push(AttributePlan { shader_location: 7, offset: 32, format: AttributeFormat::Float32x4 });
    attributes.push(AttributePlan { shader_location: 8, offset: 48, format: AttributeFormat::Float32x4 });
    let r = BufferLayoutPlan { array_stride: INSTANCE_STRIDE, step_mode: StepMode::Instance, attributes };
    proof {
        lemma_packed_quad(r);
    }
    r
}

/// Pins `sum_of_sizes` on every prefix of a run of up to four attributes,
/// so that `is_packed` follows for the concrete layouts below.
proof fn lemma_sum_prefix(attrs: Seq<AttributePlan>, n: int)
    requires
        0 < n <= attrs.len(),
    ensures
        sum_of_sizes(attrs.take(n)) == sum_of_sizes(attrs.take(n - 1)) + attrs[n
            - 1].format.spec_size(),
{
    assert(attrs.take(n).drop_last() =~= attrs.take(n - 1));
    assert(attrs.take(n).last() == attrs[n - 1]);
}

proof fn lemma_packed_pair(p: BufferLayoutPlan)
    requires
        p.attributes@.len() == 2,
        p.attributes@[0].offset == 0,
        p.attributes@[1].offset == p.attributes@[0].format.spec_size(),
        p.array_stride == p.attributes@[0].format.spec_size() + p.attributes@[1].format.spec_size(),
    ensures
        p.is_packed(),
{
    let a = p.attributes@;
    assert(a.take(0) =~= Seq::<AttributePlan>::empty());
    lemma_sum_prefix(a, 1);
    lemma_sum_prefix(a, 2);
    assert(a.take(2) =~= a);
    assert forall|i: int| 0 <= i < a.len() implies #[trigger] a[i].offset == sum_of_sizes(
        a.take(i),
    ) by {
        assert(i == 0 || i == 1);
    }
}

proof fn lemma_packed_quad(p: BufferLayoutPlan)
    requires
        p.attributes@.len() == 4,
        p.attributes@[0].offset == 0,
        p.attributes@[1].offset == p.attributes@[0].format.spec_size(),
        p.attributes@[2].offset == p.attributes@[1].offset + p.attributes@[1].format.spec_size(),
        p.attributes@[3].offset == p.attributes@[2].offset + p.attributes@[2].format.spec_size(),
        p.array_stride == p.attributes@[3].offset + p.attributes@[3].format.spec_size(),
    ensures
        p.is_packed(),
{
    let a = p.attributes@;
    assert(a.take(0) =~= Seq::<AttributePlan>::empty());
    lemma_sum_prefix(a, 1);
    lemma_sum_prefix(a, 2);
    lemma_sum_prefix(a, 3);
    lemma_sum_prefix(a, 4);
    assert(a.take(4) =~= a);
    assert forall|i: int| 0 <= i < a.len() implies #[trigger] a[i].offset == sum_of_sizes(
        a.take(i),
    ) by {
        assert(i == 0 || i == 1 || i == 2 || i == 3);
    }
}

} // verus!
