//! What holds of every tree, whatever the scalar.

use crate::point::Point;
use crate::scalar::{plus_yields, reciprocal_yields, Scalar};
use crate::tree::Tree;
use crate::{weights, Mass};
use vstd::prelude::*;
use vstd::seq_lib::to_multiset_insert;

verus! {

impl<S: Scalar> Mass<S> {
    /// The arithmetic counts `force` as nothing to this mass: whatever it makes
    /// of `force` scaled by one over the mass, adding that to the velocity
    /// returns the velocity.
    pub open spec fn unmoved_by(self, force: Point<S>) -> bool {
        forall|k: S, dv: Point<S>, v: Point<S>|
            reciprocal_yields(self.mass, k) && #[trigger] force.scale_yields(k, dv)
                && #[trigger] self.velocity.add_yields(dv, v) ==> v == self.velocity
    }

    /// The arithmetic counts the velocity of this mass as nothing: adding it
    /// to the position returns the position.
    pub open spec fn at_rest(self) -> bool {
        forall|p: Point<S>| #[trigger] self.position.add_yields(self.velocity, p) ==> p == self.position
    }
}

impl<S: Scalar> Tree<S> {
    /// A tree in which nothing moves under `force`: its clusters exert no force
    /// on each other, since the centres of the two children of every node
    /// coincide, and each of its masses is at rest and unmoved by `force`.
    pub open spec fn still_under(self, force: Point<S>) -> bool
        decreases self,
    {
        match self {
            Tree::Leaf(m) => m.unmoved_by(force) && m.at_rest(),
            Tree::Node { left, right, .. } => {
                &&& forall|f: Option<Point<S>>| #[trigger]
                    Tree::pair_force_yields(*left, *right, f) ==> f is None
                &&& left.still_under(force)
                &&& right.still_under(force)
            },
        }
    }

    /// A tree has one inner node less than it has leaves, and at least one
    /// leaf.
    pub proof fn lemma_node_count(self)
        ensures
            self.leaves().len() == self.node_count() + 1,
        decreases self,
    {
        match self {
            Tree::Leaf(_) => {},
            Tree::Node { left, right, .. } => {
                left.lemma_node_count();
                right.lemma_node_count();
            },
        }
    }

    /// Mass is conserved: in a well-formed tree the mass that the root keeps is
    /// the sum of the masses in the leaves, added up cluster by cluster.
    pub proof fn lemma_mass_conservation(self)
        requires
            self.well_formed(),
        ensures
            self.total_mass_yields(self.spec_mass()),
        decreases self,
    {
        match self {
            Tree::Leaf(_) => {},
            Tree::Node { left, right, mass, .. } => {
                left.lemma_mass_conservation();
                right.lemma_mass_conservation();
            },
        }
    }

    /// The centre is the centroid: in a well-formed tree the centre that a node
    /// keeps is the mean of its children's centres, weighted by their masses;
    /// and so the centre that the root keeps is the centre of mass of the
    /// leaves, computed cluster by cluster.
    pub proof fn lemma_centroid(self)
        requires
            self.well_formed(),
        ensures
            self.centroid_yields(self.spec_center()),
            self matches Tree::Node { center, mass, left, right } ==> Point::weighted_mean_yields(
                left.spec_center(),
                left.spec_mass(),
                right.spec_center(),
                right.spec_mass(),
                mass,
                center,
            ),
        decreases self,
    {
        match self {
            Tree::Leaf(_) => {},
            Tree::Node { left, right, mass, center } => {
                left.lemma_centroid();
                right.lemma_centroid();
                left.lemma_mass_conservation();
                right.lemma_mass_conservation();
            },
        }
    }

    /// What adding a mass does to a tree: the new mass becomes a leaf somewhere
    /// behind the first, and every other leaf stays, in the order it had. So
    /// the tree has one leaf and one node more, and is well formed if it was.
    pub proof fn lemma_add(self, m: Mass<S>, r: Tree<S>)
        requires
            self.add_yields(m, r),
        ensures
            exists|i: int| 1 <= i <= self.leaves().len() && r.leaves() == self.leaves().insert(i, m),
            r.leaves().to_multiset() == self.leaves().to_multiset().insert(m),
            weights(r.leaves()).to_multiset() == weights(self.leaves()).to_multiset().insert(m.mass),
            r.leaves().len() == self.leaves().len() + 1,
            r.node_count() == self.node_count() + 1,
            self.well_formed() ==> r.well_formed(),
        decreases self,
    {
        let at: int;
        match self {
            Tree::Leaf(_) => {
                at = 1;
                let (l, rr) = (r->left, r->right);
                assert(l.well_formed() && rr.well_formed());
            },
            Tree::Node { left, right, .. } => {
                let (l, rr) = (r->left, r->right);
                if *l == *left && right.add_yields(m, *rr) {
                    right.lemma_add(m, *rr);
                    let j = choose|j: int|
                        1 <= j <= right.leaves().len() && rr.leaves() == right.leaves().insert(j, m);
                    at = left.leaves().len() + j;
                    assert(r.leaves() =~= self.leaves().insert(at, m));
                } else {
                    left.lemma_add(m, *l);
                    let j = choose|j: int|
                        1 <= j <= left.leaves().len() && l.leaves() == left.leaves().insert(j, m);
                    at = j;
                    assert(r.leaves() =~= self.leaves().insert(at, m));
                }
            },
        }
        assert(1 <= at <= self.leaves().len() && r.leaves() == self.leaves().insert(at, m));
        to_multiset_insert(self.leaves(), at, m);
        assert(weights(r.leaves()) =~= weights(self.leaves()).insert(at, m.mass));
        to_multiset_insert(weights(self.leaves()), at, m.mass);
        r.lemma_node_count();
    }

    /// What building a tree makes of a sequence of masses: a well-formed tree
    /// whose leaves are those masses, each as often as the sequence holds it.
    pub proof fn lemma_build(masses: Seq<Mass<S>>, r: Tree<S>)
        requires
            Tree::build_yields(masses, Some(r)),
        ensures
            r.well_formed(),
            r.leaves().to_multiset() == masses.to_multiset(),
            weights(r.leaves()).to_multiset() == weights(masses).to_multiset(),
            r.leaves().len() == masses.len(),
            r.node_count() == masses.len() - 1,
        decreases masses.len(),
    {
        if masses.len() == 1 {
            assert(r.leaves() =~= masses);
        } else {
            let before = choose|before: Tree<S>|
                Tree::build_yields(masses.drop_last(), Some(before)) && before.add_yields(
                    masses.last(),
                    r,
                );
            Tree::lemma_build(masses.drop_last(), before);
            before.lemma_add(masses.last(), r);
            assert(masses =~= masses.drop_last().push(masses.last()));
            vstd::seq_lib::to_multiset_build(masses.drop_last(), masses.last());
            assert(weights(masses) =~= weights(masses.drop_last()).push(masses.last().mass));
            vstd::seq_lib::to_multiset_build(weights(masses.drop_last()), masses.last().mass);
        }
    }

    /// What a tick of the clock leaves of a tree: its frame. The tree keeps its
    /// shape, its nodes keep their masses and centres, and each leaf holds the
    /// mass it held, accelerated by some force.
    pub proof fn lemma_update_with(self, force: Point<S>, r: Tree<S>)
        requires
            self.update_with_yields(force, r),
        ensures
            self.same_frame(r),
            r.node_count() == self.node_count(),
            r.leaves().len() == self.leaves().len(),
            weights(r.leaves()) == weights(self.leaves()),
            forall|i: int|
                0 <= i < self.leaves().len() ==> (#[trigger] self.leaves()[i]).accelerated(
                    r.leaves()[i],
                ),
        decreases self,
    {
        match self {
            Tree::Leaf(_) => {},
            Tree::Node { left, right, .. } => {
                let (l, rr) = (r->left, r->right);
                let between = choose|between: Option<Point<S>>|
                    {
                        &&& Tree::pair_force_yields(*left, *right, between)
                        &&& match between {
                            Some(f) => exists|fl: Point<S>, fr: Point<S>|
                                {
                                    &&& force.add_yields(f, fl)
                                    &&& force.minus_yields(f, fr)
                                    &&& left.update_with_yields(fl, *l)
                                    &&& right.update_with_yields(fr, *rr)
                                },
                            None => {
                                &&& left.update_with_yields(force, *l)
                                &&& right.update_with_yields(force, *rr)
                            },
                        }
                    };
                match between {
                    Some(f) => {
                        let (fl, fr) = choose|fl: Point<S>, fr: Point<S>|
                            {
                                &&& force.add_yields(f, fl)
                                &&& force.minus_yields(f, fr)
                                &&& left.update_with_yields(fl, *l)
                                &&& right.update_with_yields(fr, *rr)
                            };
                        left.lemma_update_with(fl, *l);
                        right.lemma_update_with(fr, *rr);
                    },
                    None => {
                        left.lemma_update_with(force, *l);
                        right.lemma_update_with(force, *rr);
                    },
                }
            },
        }
    }

    /// A single mass is stable: a tree of one leaf, updated with a force that
    /// the arithmetic counts as nothing to its mass, holds that mass with the
    /// velocity it had, moved on by that velocity.
    pub proof fn lemma_single_mass(m: Mass<S>, force: Point<S>, r: Tree<S>)
        requires
            Tree::Leaf(m).update_with_yields(force, r),
            m.unmoved_by(force),
        ensures
            r matches Tree::Leaf(n) && m.coast_yields(n),
    {
    }

    /// Where no force is, nothing changes: a tree that is still under `force`
    /// is left by an update with `force` exactly as it was.
    pub proof fn lemma_no_force(self, force: Point<S>, r: Tree<S>)
        requires
            self.update_with_yields(force, r),
            self.still_under(force),
        ensures
            r == self,
        decreases self,
    {
        match self {
            Tree::Leaf(_) => {},
            Tree::Node { left, right, .. } => {
                let (l, rr) = (r->left, r->right);
                left.lemma_no_force(force, *l);
                right.lemma_no_force(force, *rr);
            },
        }
    }

    /// Taking a tree apart and building one anew from its leaves gives a
    /// well-formed tree with the same leaves, as many nodes, and a root that
    /// keeps the sum of their masses. Its shape may be another.
    pub proof fn lemma_round_trip(self, r: Tree<S>)
        requires
            Tree::build_yields(self.leaves(), Some(r)),
        ensures
            r.well_formed(),
            r.leaves().to_multiset() == self.leaves().to_multiset(),
            r.node_count() == self.node_count(),
            r.total_mass_yields(r.spec_mass()),
    {
        Tree::lemma_build(self.leaves(), r);
        self.lemma_node_count();
        r.lemma_mass_conservation();
    }
}

} // verus!
