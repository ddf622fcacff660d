//! Loaded geometry and its conversion into a triangle-mesh collision shape.

use vstd::prelude::*;

verus! {

/// Names one mesh among the assets that the host has loaded.
#[derive(Clone, Copy, Debug, PartialEq, Eq, Hash, Structural)]
pub struct MeshHandle {
    pub id: u32,
}

/// What the bootstrap logic reads of a loaded mesh: whether it has a position
/// buffer and how many vertices that holds, and its index buffer.
#[derive(Clone, Debug, PartialEq, Eq)]
pub struct MeshAsset {
    pub handle: MeshHandle,
    /// Number of vertices in the position buffer; `None` where the mesh has no
    /// position buffer that a collider can be built from.
    pub vertex_count: Option<usize>,
    /// The index buffer, three entries to a triangle; `None` where the mesh has none.
    pub indices: Option<Vec<u32>>,
}

impl MeshAsset {
    /// Number of whole triangles in the index buffer. Entries that do not fill
    /// a triangle at the end of the buffer are not counted.
    pub open spec fn triangle_count(&self) -> nat
        recommends
            self.indices is Some,
    {
        (self.indices->0@.len() / 3) as nat
    }

    /// Whether a triangle mesh can be built from this geometry: both buffers
    /// are there, the index buffer holds at least one whole triangle, and every
    /// corner of every whole triangle names a vertex of the position buffer.
    pub open spec fn convertible(&self) -> bool {
        &&& self.vertex_count is Some
        &&& self.indices is Some
        &&& self.triangle_count() >= 1
        &&& forall|i: int|
            0 <= i < 3 * self.triangle_count() ==> (#[trigger] self.indices->0@[i])
                < self.vertex_count->0
    }

    /// The collision shape that the triangle-mesh conversion derives from this
    /// geometry, `None` where it is not convertible.
    pub closed spec fn shape(&self) -> Option<TriMesh> {
        if self.convertible() {
            Some(TriMesh { mesh: self.handle, triangles: self.triangle_count() as usize })
        } else {
            None
        }
    }

    /// The conversion yields a shape exactly for convertible geometry, and the
    /// shape it yields is never empty: it has the triangles of the mesh and
    /// names the mesh as its source.
    pub proof fn lemma_shape(&self)
        ensures
            self.shape() is Some <==> self.convertible(),
            self.shape() matches Some(s) ==> {
                &&& s.wf()
                &&& s.source() == self.handle
                &&& s.triangles() == self.triangle_count()
            },
    {
        if self.convertible() {
            assert(self.indices->0.len() == self.indices->0@.len());
        }
    }
}

/// A triangle-mesh collision shape derived from a mesh asset. It always holds
/// at least one triangle.
#[derive(Clone, Copy, Debug, PartialEq, Eq, Hash, Structural)]
pub struct TriMesh {
    mesh: MeshHandle,
    triangles: usize,
}

impl TriMesh {
    /// The mesh that the shape was derived from.
    pub closed spec fn source(&self) -> MeshHandle {
        self.mesh
    }

    /// Number of triangles of the shape.
    pub closed spec fn triangles(&self) -> nat {
        self.triangles as nat
    }

    /// A shape is well formed when it is not empty.
    pub open spec fn wf(&self) -> bool {
        self.triangles() >= 1
    }

    /// The mesh that the shape was derived from.
    pub fn mesh(&self) -> (handle: MeshHandle)
        ensures
            handle == self.source(),
    {
        self.mesh
    }

    /// Number of triangles of the shape.
    pub fn triangle_count(&self) -> (count: usize)
        ensures
            count == self.triangles(),
    {
        self.triangles
    }
}

/// Derives the triangle-mesh collision shape of `mesh`.
///
/// Returns `None` exactly when the geometry is not convertible: a buffer is
/// missing, there is no whole triangle, or a triangle names a vertex that the
/// mesh does not have. A shape that is returned is never empty.
pub fn tri_mesh_shape(mesh: &MeshAsset) -> (shape: Option<TriMesh>)
    ensures
        shape == mesh.shape(),
        shape is Some <==> mesh.convertible(),
        shape matches Some(s) ==> {
            &&& s.wf()
            &&& s.source() == mesh.handle
            &&& s.triangles() == mesh.triangle_count()
        },
{
    let vertex_count: usize = match mesh.vertex_count {
        Some(n) => n,
        None => {
            return None;
        },
    };
    let indices: &Vec<u32> = match &mesh.indices {
        Some(v) => v,
        None => {
            return None;
        },
    };
    let triangles: usize = indices.len() / 3;
    if triangles == 0 {
        return None;
    }
    let used: usize = triangles * 3;
    let mut i: usize = 0;
    while i < used
        invariant
            used == 3 * mesh.triangle_count(),
            used <= indices@.len(),
            mesh.indices == Some(*indices),
            mesh.vertex_count == Some(vertex_count),
            i <= used,
            forall|j: int| 0 <= j < i ==> (#[trigger] indices@[j]) < vertex_count,
        decreases used - i,
    {
        if indices[i] as usize >= vertex_count {
            return None;
        }
        i += 1;
    }
    Some(TriMesh { mesh: mesh.handle, triangles })
}

} // verus!
