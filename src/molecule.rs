use vstd::prelude::*;

use crate::mesh::Mesh;

verus! {

/// Why an atom could not be added to a molecule.
#[derive(Clone, Copy, Debug, PartialEq, Eq, Structural)]
pub enum SceneError {
    /// The handle names no mesh of the molecule.
    UnknownMesh { mesh: usize },
}

/// One placement of a shared mesh. The mesh is named by its handle in the
/// molecule's arena; `placement` is what the renderer needs to put it in the
/// world (position, size, colour, body matrix).
pub struct Atom<P> {
    mesh: usize,
    placement: P,
}

impl<P> Atom<P> {
    pub closed spec fn mesh_spec(&self) -> usize {
        self.mesh
    }

    pub closed spec fn placement_spec(&self) -> P {
        self.placement
    }

    /// The handle of the atom's mesh.
    pub fn mesh(&self) -> (r: usize)
        ensures
            r == self.mesh_spec(),
    {
        self.mesh
    }

    pub fn placement(&self) -> (r: &P)
        ensures
            *r == self.placement_spec(),
    {
        &self.placement
    }
}

/// Every atom names a mesh of an arena of `mesh_count` meshes.
pub open spec fn handles_valid<P>(atoms: Seq<Atom<P>>, mesh_count: nat) -> bool {
    forall|i: int| 0 <= i < atoms.len() ==> (#[trigger] atoms[i].mesh_spec() as nat) < mesh_count
}

/// `after` is `before` with one more atom at its end, placed on mesh `mesh`
/// with `placement`.
pub open spec fn appended<P>(before: Seq<Atom<P>>, after: Seq<Atom<P>>, mesh: usize, placement: P) -> bool {
    &&& after.len() == before.len() + 1
    &&& after.drop_last() == before
    &&& after.last().mesh_spec() == mesh
    &&& after.last().placement_spec() == placement
}

/// A scene: an arena of meshes shared by handle, and the atoms placed on
/// them, in insertion order.
pub struct Molecule<V, P> {
    meshes: Vec<Mesh<V>>,
    atoms: Vec<Atom<P>>,
}

impl<V, P> Molecule<V, P> {
    pub closed spec fn meshes_spec(&self) -> Seq<Mesh<V>> {
        self.meshes@
    }

    pub closed spec fn atoms_spec(&self) -> Seq<Atom<P>> {
        self.atoms@
    }

    /// Every atom's mesh handle stays valid for the molecule's lifetime.
    pub open spec fn wf(&self) -> bool {
        handles_valid(self.atoms_spec(), self.meshes_spec().len())
    }

    /// A molecule with no meshes and no atoms.
    pub fn new() -> (r: Self)
        ensures
            r.meshes_spec() == Seq::<Mesh<V>>::empty(),
            r.atoms_spec() == Seq::<Atom<P>>::empty(),
            r.wf(),
    {
        Molecule { meshes: Vec::new(), atoms: Vec::new() }
    }

    /// Puts a mesh in the arena and returns its handle.
    pub fn add_mesh(&mut self, mesh: Mesh<V>) -> (id: usize)
        requires
            old(self).wf(),
        ensures
            id == old(self).meshes_spec().len(),
            final(self).meshes_spec() == old(self).meshes_spec().push(mesh),
            final(self).atoms_spec() == old(self).atoms_spec(),
            final(self).wf(),
    {
        let id = self.meshes.len();
        self.meshes.push(mesh);
        id
    }

    /// Appends an atom placed on the mesh with handle `mesh`. Fails, and
    /// leaves the molecule as it was, when no mesh has that handle.
    pub fn add_atom(&mut self, mesh: usize, placement: P) -> (r: Result<(), SceneError>)
        requires
            old(self).wf(),
        ensures
            final(self).wf(),
            final(self).meshes_spec() == old(self).meshes_spec(),
            r is Ok <==> mesh < old(self).meshes_spec().len(),
            r is Ok ==> appended(old(self).atoms_spec(), final(self).atoms_spec(), mesh, placement),
            r is Err ==> (r == Err::<(), SceneError>(SceneError::UnknownMesh { mesh })),
            r is Err ==> final(self).atoms_spec() == old(self).atoms_spec(),
    {
        if mesh >= self.meshes.len() {
            return Err(SceneError::UnknownMesh { mesh });
        }
        self.atoms.push(Atom { mesh, placement });
        assert(self.atoms@.drop_last() =~= old(self).atoms@);
        Ok(())
    }

    /// The meshes, indexed by handle.
    pub fn meshes(&self) -> (r: &Vec<Mesh<V>>)
        ensures
            r@ == self.meshes_spec(),
    {
        &self.meshes
    }

    /// The atoms, in insertion order.
    pub fn atoms(&self) -> (r: &Vec<Atom<P>>)
        ensures
            r@ == self.atoms_spec(),
    {
        &self.atoms
    }

    /// The mesh that atom `atom` is placed on.
    pub fn mesh_of(&self, atom: usize) -> (r: &Mesh<V>)
        requires
            self.wf(),
            atom < self.atoms_spec().len(),
        ensures
            *r == self.meshes_spec()[self.atoms_spec()[atom as int].mesh_spec() as int],
    {
        let id = self.atoms[atom].mesh;
        assert(self.atoms_spec()[atom as int].mesh_spec() == id);
        &self.meshes[id]
    }
}

} // verus!
