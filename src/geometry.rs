//! Mesh data: a vertex count and a sequence of 16-bit indices into the
//! vertices, checked once when the mesh is built, and the draw call that
//! each draw strategy issues for it.
use vstd::prelude::*;

verus! {

/// Why a mesh was refused when it was built.
#[derive(Debug, Clone, Copy, PartialEq, Eq, Structural)]
pub enum GeometryError {
    /// The entry at `position` of the index sequence names `index`, which is
    /// not below the vertex count.
    IndexOutOfRange { position: usize, index: u16 },
    /// The index sequence is longer than a draw call can count (`u32`).
    TooManyIndices,
}

/// Whether every entry of `indices` names one of `vertex_count` vertices.
pub open spec fn indices_in_range(indices: Seq<u16>, vertex_count: nat) -> bool {
    forall|i: int| 0 <= i < indices.len() ==> (#[trigger] indices[i] as nat) < vertex_count
}

/// The mathematical content of a mesh.
pub struct MeshView {
    pub vertex_count: nat,
    pub indices: Seq<u16>,
}

/// A mesh whose index sequence only names vertices that it has.
pub struct Mesh {
    vertex_count: u32,
    indices: Vec<u16>,
}

/// The two strategies by which one mesh can be drawn.
#[derive(Debug, Clone, Copy, PartialEq, Eq, Structural)]
pub enum DrawMode {
    /// Triangles are read through the index sequence.
    Indexed,
    /// Triangles are read from the vertices in order, with no index.
    Direct,
}

impl DrawMode {
    pub open spec fn toggled_spec(self) -> DrawMode {
        match self {
            DrawMode::Indexed => DrawMode::Direct,
            DrawMode::Direct => DrawMode::Indexed,
        }
    }

    /// The other strategy.
    pub fn toggled(self) -> (r: DrawMode)
        ensures
            r == self.toggled_spec(),
            r != self,
    {
        match self {
            DrawMode::Indexed => DrawMode::Direct,
            DrawMode::Direct => DrawMode::Indexed,
        }
    }
}

/// One draw command of a render pass. The vertex range starts at 0 and the
/// instance range is `0..instance_count`.
#[derive(Debug, Clone, Copy, PartialEq, Eq, Structural)]
pub enum DrawCall {
    /// `draw_indexed(0..index_count, base_vertex, 0..instance_count)`.
    Indexed { index_count: u32, base_vertex: i32, instance_count: u32 },
    /// `draw(0..vertex_count, 0..instance_count)`.
    Direct { vertex_count: u32, instance_count: u32 },
}

impl DrawCall {
    /// How many vertices the pipeline is fed: one per index read, or one per
    /// vertex of a direct draw.
    pub open spec fn elements_spec(self) -> nat {
        match self {
            DrawCall::Indexed { index_count, .. } => index_count as nat,
            DrawCall::Direct { vertex_count, .. } => vertex_count as nat,
        }
    }

    pub open spec fn index_reads_spec(self) -> nat {
        match self {
            DrawCall::Indexed { index_count, .. } => index_count as nat,
            DrawCall::Direct { .. } => 0,
        }
    }

    pub open spec fn instances_spec(self) -> nat {
        match self {
            DrawCall::Indexed { instance_count, .. } => instance_count as nat,
            DrawCall::Direct { instance_count, .. } => instance_count as nat,
        }
    }

    /// Vertices fed to the pipeline by one instance.
    pub fn elements(&self) -> (r: u32)
        ensures
            r as nat == self.elements_spec(),
    {
        match *self {
            DrawCall::Indexed { index_count, .. } => index_count,
            DrawCall::Direct { vertex_count, .. } => vertex_count,
        }
    }

    /// Indices read from the index buffer by one instance.
    pub fn index_reads(&self) -> (r: u32)
        ensures
            r as nat == self.index_reads_spec(),
    {
        match *self {
            DrawCall::Indexed { index_count, .. } => index_count,
            DrawCall::Direct { .. } => 0,
        }
    }

    /// Instances drawn.
    pub fn instances(&self) -> (r: u32)
        ensures
            r as nat == self.instances_spec(),
    {
        match *self {
            DrawCall::Indexed { instance_count, .. } => instance_count,
            DrawCall::Direct { instance_count, .. } => instance_count,
        }
    }

    /// Whole triangles of a triangle list drawn by one instance.
    pub fn triangles(&self) -> (r: u32)
        ensures
            r as nat == self.elements_spec() / 3,
    {
        self.elements() / 3
    }
}

impl MeshView {
    /// The draw call of one instance of the whole mesh under `mode`.
    pub open spec fn draw_call(self, mode: DrawMode) -> DrawCall {
        match mode {
            DrawMode::Indexed => DrawCall::Indexed {
                index_count: self.indices.len() as u32,
                base_vertex: 0,
                instance_count: 1,
            },
            DrawMode::Direct => DrawCall::Direct {
                vertex_count: self.vertex_count as u32,
                instance_count: 1,
            },
        }
    }
}

impl View for Mesh {
    type V = MeshView;

    closed spec fn view(&self) -> MeshView {
        MeshView { vertex_count: self.vertex_count as nat, indices: self.indices@ }
    }
}

/// Relies on bytemuck::cast_slice from `u16` to `u8`: the same memory seen
/// as bytes, two for each index.
#[verifier::external_body]
fn index_memory(indices: &[u16]) -> (r: Vec<u8>)
    ensures
        r@.len() == 2 * indices@.len(),
{
    bytemuck::cast_slice::<u16, u8>(indices).to_vec()
}

impl Mesh {
    /// Every index names a vertex of the mesh, and a draw call can count the
    /// indices.
    pub open spec fn wf(&self) -> bool {
        &&& indices_in_range(self@.indices, self@.vertex_count)
        &&& self@.indices.len() <= u32::MAX
        &&& self@.vertex_count <= u32::MAX
    }

    /// Builds a mesh of `vertex_count` vertices drawn through `indices`,
    /// refusing an index sequence that names a vertex the mesh lacks.
    pub fn new(vertex_count: u32, indices: Vec<u16>) -> (r: Result<Mesh, GeometryError>)
        ensures
            r is Ok <==> indices@.len() <= u32::MAX && indices_in_range(
                indices@,
                vertex_count as nat,
            ),
            r matches Ok(m) ==> m.wf() && m@ == (MeshView {
                vertex_count: vertex_count as nat,
                indices: indices@,
            }),
            r matches Err(GeometryError::TooManyIndices) <==> indices@.len() > u32::MAX,
            r matches Err(GeometryError::IndexOutOfRange { position, index }) ==> {
                &&& position < indices@.len()
                &&& index == indices@[position as int]
                &&& index >= vertex_count
                &&& indices_in_range(indices@.take(position as int), vertex_count as nat)
            },
    {
        if indices.len() > u32::MAX as usize {
            return Err(GeometryError::TooManyIndices);
        }
        let mut i: usize = 0;
        while i < indices.len()
            invariant
                i <= indices@.len(),
                indices@.len() <= u32::MAX,
                indices_in_range(indices@.take(i as int), vertex_count as nat),
            decreases indices@.len() - i,
        {
            let index = indices[i];
            if index as u32 >= vertex_count {
                return Err(GeometryError::IndexOutOfRange { position: i, index });
            }
            assert(indices@.take(i as int + 1) == indices@.take(i as int).push(index));
            i = i + 1;
        }
        assert(indices@.take(i as int) == indices@);
        Ok(Mesh { vertex_count, indices })
    }

    pub fn vertex_count(&self) -> (r: u32)
        ensures
            r as nat == self@.vertex_count,
    {
        self.vertex_count
    }

    pub fn index_count(&self) -> (r: u32)
        requires
            self.wf(),
        ensures
            r as nat == self@.indices.len(),
    {
        self.indices.len() as u32
    }

    /// The index sequence.
    pub fn indices(&self) -> (r: &[u16])
        ensures
            r@ == self@.indices,
    {
        self.indices.as_slice()
    }

    /// The index sequence as the bytes that go into the index buffer.
    pub fn index_bytes(&self) -> (r: Vec<u8>)
        ensures
            r@.len() == 2 * self@.indices.len(),
    {
        index_memory(self.indices.as_slice())
    }

    /// The draw call of one instance of the whole mesh under `mode`.
    pub fn draw_call(&self, mode: DrawMode) -> (r: DrawCall)
        requires
            self.wf(),
        ensures
            r == self@.draw_call(mode),
            r.instances_spec() == 1,
            mode == DrawMode::Indexed ==> r.elements_spec() == self@.indices.len()
                && r.index_reads_spec() == self@.indices.len(),
            mode == DrawMode::Direct ==> r.elements_spec() == self@.vertex_count
                && r.index_reads_spec() == 0,
    {
        match mode {
            DrawMode::Indexed => DrawCall::Indexed {
                index_count: self.indices.len() as u32,
                base_vertex: 0,
                instance_count: 1,
            },
            DrawMode::Direct => DrawCall::Direct { vertex_count: self.vertex_count, instance_count: 1 },
        }
    }
}

} // verus!
