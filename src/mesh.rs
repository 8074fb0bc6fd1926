use vstd::prelude::*;

verus! {

/// How the index list of a mesh is read into triangles.
#[derive(Clone, Copy, Debug, PartialEq, Eq, Structural)]
pub enum PrimitiveKind {
    /// Every index after the second closes a triangle with the two before it.
    TriangleStrip,
    /// Each group of three consecutive indices is one triangle.
    TrianglesList,
}

/// Why a mesh could not be built.
#[derive(Clone, Copy, Debug, PartialEq, Eq, Structural)]
pub enum MeshError {
    /// The entry at `position` of the index list, `index`, names no vertex.
    MeshIndexOutOfRange { position: usize, index: u16 },
}

/// Every index names one of `vertex_count` vertices.
pub open spec fn indices_in_range(indices: Seq<u16>, vertex_count: nat) -> bool {
    forall|p: int| 0 <= p < indices.len() ==> (#[trigger] indices[p] as nat) < vertex_count
}

/// `position` is the first entry of `indices` that names no vertex.
pub open spec fn first_out_of_range(indices: Seq<u16>, vertex_count: nat, position: int) -> bool {
    &&& 0 <= position < indices.len()
    &&& indices[position] as nat >= vertex_count
    &&& indices_in_range(indices.take(position), vertex_count)
}

/// What checking `indices` against `vertex_count` vertices gives.
pub open spec fn index_check(indices: Seq<u16>, vertex_count: nat, r: Result<(), MeshError>) -> bool {
    match r {
        Ok(()) => indices_in_range(indices, vertex_count),
        Err(MeshError::MeshIndexOutOfRange { position, index }) => {
            &&& first_out_of_range(indices, vertex_count, position as int)
            &&& index == indices[position as int]
        },
    }
}

/// Checks that every entry of `indices` names one of `vertex_count` vertices;
/// reports the first entry that does not.
pub fn check_indices(indices: &Vec<u16>, vertex_count: usize) -> (r: Result<(), MeshError>)
    ensures
        index_check(indices@, vertex_count as nat, r),
        r is Ok <==> indices_in_range(indices@, vertex_count as nat),
{
    let mut p: usize = 0;
    while p < indices.len()
        invariant
            p <= indices@.len(),
            indices_in_range(indices@.take(p as int), vertex_count as nat),
        decreases indices@.len() - p,
    {
        let index = indices[p];
        if index as usize >= vertex_count {
            return Err(MeshError::MeshIndexOutOfRange { position: p, index });
        }
        assert(indices@.take(p as int + 1) =~= indices@.take(p as int).push(index));
        p = p + 1;
    }
    assert(indices@.take(p as int) =~= indices@);
    Ok(())
}

/// An immutable geometry template: vertices, the primitive kind, and an
/// index list in which every entry names a vertex.
pub struct Mesh<V> {
    vertices: Vec<V>,
    kind: PrimitiveKind,
    indices: Vec<u16>,
}

impl<V> Mesh<V> {
    pub closed spec fn vertices_spec(&self) -> Seq<V> {
        self.vertices@
    }

    pub closed spec fn kind_spec(&self) -> PrimitiveKind {
        self.kind
    }

    pub closed spec fn indices_spec(&self) -> Seq<u16> {
        self.indices@
    }

    /// Every index of the mesh names one of its vertices.
    pub open spec fn wf(&self) -> bool {
        indices_in_range(self.indices_spec(), self.vertices_spec().len())
    }

    #[verifier::type_invariant]
    spec fn indices_name_vertices(&self) -> bool {
        indices_in_range(self.indices@, self.vertices@.len())
    }

    /// Builds a mesh from its vertices, primitive kind and index list. Fails
    /// with the first index that names no vertex.
    pub fn new(vertices: Vec<V>, kind: PrimitiveKind, indices: Vec<u16>) -> (r: Result<Mesh<V>, MeshError>)
        ensures
            r is Ok <==> indices_in_range(indices@, vertices@.len()),
            r matches Ok(m) ==> {
                &&& m.vertices_spec() == vertices@
                &&& m.kind_spec() == kind
                &&& m.indices_spec() == indices@
                &&& m.wf()
            },
            r matches Err(e) ==> index_check(indices@, vertices@.len(), Err(e)),
    {
        match check_indices(&indices, vertices.len()) {
            Ok(()) => Ok(Mesh { vertices, kind, indices }),
            Err(e) => Err(e),
        }
    }

    /// The vertices, in the order the index list refers to them.
    pub fn vertices(&self) -> (r: &Vec<V>)
        ensures
            r@ == self.vertices_spec(),
    {
        &self.vertices
    }

    pub fn kind(&self) -> (r: PrimitiveKind)
        ensures
            r == self.kind_spec(),
    {
        self.kind
    }

    /// The draw order: each entry is the position of a vertex.
    pub fn indices(&self) -> (r: &Vec<u16>)
        ensures
            r@ == self.indices_spec(),
            indices_in_range(r@, self.vertices_spec().len()),
    {
        proof {
            use_type_invariant(self);
        }
        &self.indices
    }
}

} // verus!
