use vstd::prelude::*;

use crate::molecule::{appended, Atom, Molecule};

verus! {

/// One step of drawing a frame, in the order the steps are carried out.
#[derive(Clone, Copy, Debug, PartialEq, Eq, Structural)]
pub enum FrameStep {
    /// Move the camera to this frame's eye position and recompute its view
    /// matrix. Comes before every draw, so no atom is drawn one frame behind.
    PlaceCamera,
    /// Clear the colour and depth buffers.
    Clear,
    /// Submit atom `atom`, with the mesh whose handle is `mesh`.
    Draw { atom: usize, mesh: usize },
    /// Hand the finished frame to the display.
    Present,
}

/// The draw submissions for `atoms`: one per atom, in insertion order.
pub open spec fn draw_steps<P>(atoms: Seq<Atom<P>>) -> Seq<FrameStep> {
    Seq::new(atoms.len(), |i: int| FrameStep::Draw { atom: i as usize, mesh: atoms[i].mesh_spec() })
}

/// A whole frame: place the camera, clear, draw every atom, present.
pub open spec fn frame_steps<P>(atoms: Seq<Atom<P>>) -> Seq<FrameStep> {
    seq![FrameStep::PlaceCamera, FrameStep::Clear] + draw_steps(atoms) + seq![FrameStep::Present]
}

/// The draw submissions among `steps`, in order.
pub open spec fn draws_of(steps: Seq<FrameStep>) -> Seq<FrameStep> {
    steps.filter(|s: FrameStep| s is Draw)
}

impl<V, P> Molecule<V, P> {
    /// The steps of one frame of this molecule.
    pub fn frame_plan(&self) -> (r: Vec<FrameStep>)
        ensures
            r@ == frame_steps(self.atoms_spec()),
    {
        let atoms = self.atoms();
        let mut r: Vec<FrameStep> = Vec::new();
        r.push(FrameStep::PlaceCamera);
        r.push(FrameStep::Clear);
        let mut i: usize = 0;
        while i < atoms.len()
            invariant
                atoms@ == self.atoms_spec(),
                i <= atoms@.len(),
                r@ == seq![FrameStep::PlaceCamera, FrameStep::Clear] + draw_steps(atoms@.take(i as int)),
            decreases atoms@.len() - i,
        {
            r.push(FrameStep::Draw { atom: i, mesh: atoms[i].mesh() });
            assert(draw_steps(atoms@.take(i as int + 1)) =~= draw_steps(atoms@.take(i as int)).push(
                FrameStep::Draw { atom: i, mesh: atoms@[i as int].mesh_spec() },
            ));
            i = i + 1;
        }
        assert(atoms@.take(i as int) =~= atoms@);
        r.push(FrameStep::Present);
        r
    }
}

proof fn lemma_draws_of_draw_steps<P>(atoms: Seq<Atom<P>>)
    ensures
        draws_of(draw_steps(atoms)) == draw_steps(atoms),
    decreases atoms.len(),
{
    reveal(Seq::filter);
    if atoms.len() > 0 {
        lemma_draws_of_draw_steps(atoms.drop_last());
        assert(draw_steps(atoms).drop_last() =~= draw_steps(atoms.drop_last()));
        assert(draw_steps(atoms) =~= draw_steps(atoms.drop_last()).push(draw_steps(atoms).last()));
    } else {
        assert(draw_steps(atoms) =~= Seq::<FrameStep>::empty());
    }
}

/// Every frame submits exactly one draw per atom, in insertion order, and
/// nothing else it does is a draw: no atoms, no draws.
pub proof fn lemma_one_draw_per_atom<P>(atoms: Seq<Atom<P>>)
    ensures
        draws_of(frame_steps(atoms)) == draw_steps(atoms),
        draws_of(frame_steps(atoms)).len() == atoms.len(),
        forall|i: int| 0 <= i < atoms.len() ==> (#[trigger] draws_of(frame_steps(atoms))[i]) == (FrameStep::Draw {
            atom: i as usize,
            mesh: atoms[i].mesh_spec(),
        }),
{
    let pred = |s: FrameStep| s is Draw;
    let head = seq![FrameStep::PlaceCamera, FrameStep::Clear];
    let tail = seq![FrameStep::Present];
    Seq::filter_distributes_over_add(head + draw_steps(atoms), tail, pred);
    Seq::filter_distributes_over_add(head, draw_steps(atoms), pred);
    reveal_with_fuel(Seq::filter, 3);
    assert(head.drop_last() =~= seq![FrameStep::PlaceCamera]);
    assert(head.drop_last().drop_last() =~= Seq::<FrameStep>::empty());
    assert(tail.drop_last() =~= Seq::<FrameStep>::empty());
    assert(head.filter(pred) =~= Seq::<FrameStep>::empty());
    assert(tail.filter(pred) =~= Seq::<FrameStep>::empty());
    lemma_draws_of_draw_steps(atoms);
    assert(draws_of(frame_steps(atoms)) =~= draw_steps(atoms));
}

/// Adding an atom to a molecule adds exactly one draw to its frames, after
/// those of the atoms already there.
pub proof fn lemma_added_atom_drawn_last<P>(before: Seq<Atom<P>>, after: Seq<Atom<P>>, mesh: usize, placement: P)
    requires
        appended(before, after, mesh, placement),
    ensures
        draw_steps(after) == draw_steps(before).push(FrameStep::Draw { atom: before.len() as usize, mesh }),
{
    assert forall|i: int| 0 <= i < before.len() implies after[i] == before[i] by {
        assert(after.drop_last()[i] == after[i]);
    }
    assert(draw_steps(after) =~= draw_steps(before).push(FrameStep::Draw { atom: before.len() as usize, mesh }));
}

} // verus!
