//! The tree of clusters: how it grows, what its nodes keep, and how a force
//! on the whole is handed down to the masses in its leaves.

use crate::point::Point;
use crate::scalar::{
    exceeds_yields, is_positive, is_positive_yields, over_yields, plus_yields, times_yields, Scalar,
};
use crate::Mass;
use vstd::prelude::*;

verus! {

/// A cluster of masses.
///
/// A leaf is one mass. A node is two clusters taken together; it keeps their
/// total mass and their common centre of mass, computed when the node is made
/// and never touched again. A node has exactly two children, so a tree with `n`
/// leaves has `n - 1` nodes.
#[derive(Debug, PartialEq)]
pub enum Tree<S> {
    Node { center: Point<S>, mass: S, left: Box<Tree<S>>, right: Box<Tree<S>> },
    Leaf(Mass<S>),
}

impl<S: Scalar> Tree<S> {
    /// The centre of mass of the cluster: of a leaf, where its mass is; of a
    /// node, what the node keeps.
    pub open spec fn spec_center(&self) -> Point<S> {
        match *self {
            Tree::Leaf(m) => m.position,
            Tree::Node { center, .. } => center,
        }
    }

    /// The mass of the cluster: of a leaf, that of its mass; of a node, what the
    /// node keeps.
    pub open spec fn spec_mass(&self) -> S {
        match *self {
            Tree::Leaf(m) => m.mass,
            Tree::Node { mass, .. } => mass,
        }
    }

    /// The masses of the cluster, from the leftmost leaf to the rightmost.
    pub open spec fn leaves(self) -> Seq<Mass<S>>
        decreases self,
    {
        match self {
            Tree::Leaf(m) => seq![m],
            Tree::Node { left, right, .. } => left.leaves() + right.leaves(),
        }
    }

    /// The number of inner nodes of the tree.
    pub open spec fn node_count(self) -> nat
        decreases self,
    {
        match self {
            Tree::Leaf(_) => 0,
            Tree::Node { left, right, .. } => 1 + left.node_count() + right.node_count(),
        }
    }

    /// `r` is what `Tree::new_node(left, right)` returned: the node over `left`
    /// and `right` whose mass is the sum of their masses and whose centre is
    /// the mean of their centres, each weighted by its cluster's mass.
    pub open spec fn new_node_yields(left: Tree<S>, right: Tree<S>, r: Tree<S>) -> bool {
        &&& r matches Tree::Node { center, mass, left: l, right: rr }
        &&& *l == left
        &&& *rr == right
        &&& plus_yields(left.spec_mass(), right.spec_mass(), mass)
        &&& Point::weighted_mean_yields(
            left.spec_center(),
            left.spec_mass(),
            right.spec_center(),
            right.spec_mass(),
            mass,
            center,
        )
    }

    /// Every node of the tree keeps what `new_node` would have computed from its
    /// two children as they are now.
    pub open spec fn well_formed(self) -> bool
        decreases self,
    {
        match self {
            Tree::Leaf(_) => true,
            Tree::Node { left, right, .. } => {
                &&& left.well_formed()
                &&& right.well_formed()
                &&& Tree::new_node_yields(*left, *right, self)
            },
        }
    }

    /// `r` is what `self.pull(p)` returned. The squared distance from the
    /// cluster's centre to `p` is computed and tested. Where it was found
    /// positive, `r` holds the cluster's mass over that squared distance; where
    /// it was not (`p` lies on the centre), `r` is `None`.
    pub open spec fn pull_yields(self, p: Point<S>, r: Option<S>) -> bool {
        exists|d: Point<S>, dd: S, apart: bool|
            {
                &&& self.spec_center().minus_yields(p, d)
                &&& d.magnitude_squared_yields(dd)
                &&& is_positive_yields(dd, apart)
                &&& if apart {
                    r matches Some(q) && over_yields(self.spec_mass(), dd, q)
                } else {
                    r is None
                }
            }
    }

    /// `r` is what `Tree::goes_right(left, right, p)` returned. Both pulls on `p`
    /// are computed. A cluster on whose centre `p` lies has no pull to compare
    /// and is never chosen for that reason: so `r` is false where the right
    /// cluster has none, true where only the left has none, and otherwise says
    /// whether the right pull was found to exceed the left.
    pub open spec fn goes_right_yields(
        left: Tree<S>,
        right: Tree<S>,
        p: Point<S>,
        r: bool,
    ) -> bool {
        exists|pl: Option<S>, pr: Option<S>|
            {
                &&& left.pull_yields(p, pl)
                &&& right.pull_yields(p, pr)
                &&& match (pl, pr) {
                    (_, None) => !r,
                    (None, Some(_)) => r,
                    (Some(a), Some(b)) => exceeds_yields(b, a, r),
                }
            }
    }

    /// `r` is what `self.add(m)` returned.
    ///
    /// A leaf becomes the node over itself, on the left, and the leaf of `m`, on
    /// the right. A node hands `m` to one of its children, the right one where
    /// `goes_right` said so and the left one where it did not, keeps the other
    /// child as it is, and is made anew over the two.
    pub open spec fn add_yields(self, m: Mass<S>, r: Tree<S>) -> bool
        decreases self,
    {
        match self {
            Tree::Leaf(_) => Tree::new_node_yields(self, Tree::Leaf(m), r),
            Tree::Node { left, right, .. } => {
                &&& r matches Tree::Node { left: l, right: rr, .. }
                &&& Tree::new_node_yields(*l, *rr, r)
                &&& {
                    ||| {
                        &&& Tree::goes_right_yields(*left, *right, m.position, true)
                        &&& *l == *left
                        &&& right.add_yields(m, *rr)
                    }
                    ||| {
                        &&& Tree::goes_right_yields(*left, *right, m.position, false)
                        &&& *rr == *right
                        &&& left.add_yields(m, *l)
                    }
                }
            },
        }
    }

    /// `r` is what `Tree::pair_force(left, right)` returned. The vector `d` from
    /// the centre of `right` to the centre of `left` is computed, and its squared
    /// length tested. Where that was found positive, `r` holds the unit vector of
    /// `d` scaled by the product of the two masses over the length of `d`; where
    /// it was not (the centres coincide), `r` is `None`.
    pub open spec fn pair_force_yields(left: Tree<S>, right: Tree<S>, r: Option<Point<S>>) -> bool {
        exists|d: Point<S>, dd: S, apart: bool|
            {
                &&& left.spec_center().minus_yields(right.spec_center(), d)
                &&& d.magnitude_squared_yields(dd)
                &&& is_positive_yields(dd, apart)
                &&& if apart {
                    r matches Some(f) && exists|u: Point<S>, dist: S, mm: S, k: S|
                        {
                            &&& d.unit_vector_yields(u)
                            &&& d.magnitude_yields(dist)
                            &&& times_yields(left.spec_mass(), right.spec_mass(), mm)
                            &&& over_yields(mm, dist, k)
                            &&& u.scale_yields(k, f)
                        }
                } else {
                    r is None
                }
            }
    }

    /// `r` is what `self.update_with(force)` left in the place of `self`.
    ///
    /// A leaf's mass is accelerated by `force`. A node keeps its own mass and
    /// centre, and hands to its left child `force` plus the force between its
    /// two children, to its right child `force` minus that force; where the
    /// children have no force between them, both are handed `force` itself.
    pub open spec fn update_with_yields(self, force: Point<S>, r: Tree<S>) -> bool
        decreases self,
    {
        match self {
            Tree::Leaf(m) => r matches Tree::Leaf(n) && m.accelerate_yields(force, n),
            Tree::Node { center, mass, left, right } => {
                &&& r matches Tree::Node { center: c, mass: k, left: l, right: rr }
                &&& c == center
                &&& k == mass
                &&& exists|between: Option<Point<S>>|
                    {
                        &&& Tree::pair_force_yields(*left, *right, between)
                        &&& match between {
                            Some(f) => exists|fl: Point<S>, fr: Point<S>|
                                {
                                    &&& force.add_yields(f, fl)
                                    &&& force.minus_yields(f, fr)
                                    &&& left.update_with_yields(fl, *l)
                                    &&& right.update_with_yields(fr, *rr)
                                },
                            None => {
                                &&& left.update_with_yields(force, *l)
                                &&& right.update_with_yields(force, *rr)
                            },
                        }
                    }
            },
        }
    }

    /// `r` is what `Tree::build(masses)` returned: nothing for no masses, the
    /// leaf of the one mass for one, and for more the tree that `add` made of
    /// the last mass and of what had been built of those before it.
    pub open spec fn build_yields(masses: Seq<Mass<S>>, r: Option<Tree<S>>) -> bool
        decreases masses.len(),
    {
        if masses.len() == 0 {
            r is None
        } else if masses.len() == 1 {
            r == Some(Tree::Leaf(masses[0]))
        } else {
            &&& r matches Some(t)
            &&& exists|before: Tree<S>|
                Tree::build_yields(masses.drop_last(), Some(before)) && before.add_yields(
                    masses.last(),
                    t,
                )
        }
    }

    /// The sum of the masses in the leaves, as the tree's shape groups them:
    /// `r` is the mass of a leaf, or what adding such sums of the two children of
    /// a node returned.
    pub open spec fn total_mass_yields(self, r: S) -> bool
        decreases self,
    {
        match self {
            Tree::Leaf(m) => r == m.mass,
            Tree::Node { left, right, .. } => exists|a: S, b: S|
                left.total_mass_yields(a) && right.total_mass_yields(b) && plus_yields(a, b, r),
        }
    }

    /// The centre of mass of the leaves, as the tree's shape groups them: `r` is
    /// the position of a leaf, or what the weighted mean of such centres of the
    /// two children of a node returned, each child weighted by such a sum of its
    /// masses as `total_mass_yields` describes.
    pub open spec fn centroid_yields(self, r: Point<S>) -> bool
        decreases self,
    {
        match self {
            Tree::Leaf(m) => r == m.position,
            Tree::Node { left, right, .. } => exists|
                cl: Point<S>,
                cr: Point<S>,
                ml: S,
                mr: S,
                total: S,
            |
                {
                    &&& left.centroid_yields(cl)
                    &&& right.centroid_yields(cr)
                    &&& left.total_mass_yields(ml)
                    &&& right.total_mass_yields(mr)
                    &&& plus_yields(ml, mr, total)
                    &&& Point::weighted_mean_yields(cl, ml, cr, mr, total, r)
                },
        }
    }

    /// Two trees of one shape, whose nodes keep the same masses and centres and
    /// whose leaves are as heavy, leaf by leaf.
    pub open spec fn same_frame(self, that: Tree<S>) -> bool
        decreases self,
    {
        match self {
            Tree::Leaf(m) => that matches Tree::Leaf(n) && n.mass == m.mass,
            Tree::Node { center, mass, left, right } => {
                &&& that matches Tree::Node { center: c, mass: k, left: l, right: r }
                &&& c == center
                &&& k == mass
                &&& left.same_frame(*l)
                &&& right.same_frame(*r)
            },
        }
    }

    /// The cluster made of the clusters `left` and `right`.
    pub fn new_node(left: Tree<S>, right: Tree<S>) -> (r: Tree<S>)
        ensures
            Tree::new_node_yields(left, right, r),
            left.well_formed() && right.well_formed() ==> r.well_formed(),
            r.leaves() == left.leaves() + right.leaves(),
    {
        let mass = left.mass().plus(right.mass());
        let center = Point::weighted_mean(
            left.center(),
            left.mass(),
            right.center(),
            right.mass(),
            mass,
        );
        Tree::Node { center, mass, left: Box::new(left), right: Box::new(right) }
    }

    /// The centre of mass of the cluster.
    #[verifier::when_used_as_spec(spec_center)]
    pub fn center(&self) -> (r: Point<S>)
        ensures
            r == self.spec_center(),
    {
        match self {
            Tree::Leaf(m) => m.position,
            Tree::Node { center, .. } => *center,
        }
    }

    /// The mass of the cluster.
    #[verifier::when_used_as_spec(spec_mass)]
    pub fn mass(&self) -> (r: S)
        ensures
            r == self.spec_mass(),
    {
        match self {
            Tree::Leaf(m) => m.mass,
            Tree::Node { mass, .. } => *mass,
        }
    }

    /// How hard the cluster pulls on a unit mass at `p`: its mass over the
    /// squared distance from its centre to `p`. `None` where that distance is
    /// not positive, so that nothing is ever divided by it.
    pub fn pull(&self, p: Point<S>) -> (r: Option<S>)
        ensures
            self.pull_yields(p, r),
    {
        let d = self.center().minus(p);
        let dd = d.magnitude_squared();
        let apart = is_positive(dd);
        if apart {
            Some(self.mass().over(dd))
        } else {
            None
        }
    }

    /// Which of two sibling clusters takes in a new mass at `p`: true for
    /// `right`, false for `left`.
    ///
    /// The new mass goes where it is pulled harder, and to the left where neither
    /// pull exceeds the other. A cluster whose centre is exactly at `p` has no
    /// finite pull; it counts as pulling least, so the mass goes to the other
    /// cluster, and to the left where that holds of both.
    pub fn goes_right(left: &Tree<S>, right: &Tree<S>, p: Point<S>) -> (r: bool)
        ensures
            Tree::goes_right_yields(*left, *right, p, r),
    {
        let pl = left.pull(p);
        let pr = right.pull(p);
        match (pl, pr) {
            (_, None) => false,
            (None, Some(_)) => true,
            (Some(a), Some(b)) => b.exceeds(a),
        }
    }

    /// The tree with one more leaf, holding `new_mass`.
    ///
    /// Every node on the way from the root to the new leaf is made anew, so the
    /// masses and centres that the nodes keep are those of the tree as it now
    /// is. The way can be as long as the tree has leaves: nothing keeps the tree
    /// balanced.
    pub fn add(self, new_mass: Mass<S>) -> (r: Tree<S>)
        ensures
            self.add_yields(new_mass, r),
            self.well_formed() ==> r.well_formed(),
            r.leaves().to_multiset() == self.leaves().to_multiset().insert(new_mass),
            r.leaves().len() == self.leaves().len() + 1,
            r.node_count() == self.node_count() + 1,
        decreases self,
    {
        let ghost before = self;
        let r = match self {
            Tree::Leaf(mass) => Tree::new_node(Tree::Leaf(mass), Tree::Leaf(new_mass)),
            Tree::Node { left, right, .. } => {
                if Tree::goes_right(&left, &right, new_mass.position) {
                    let grown = (*right).add(new_mass);
                    Tree::new_node(*left, grown)
                } else {
                    let grown = (*left).add(new_mass);
                    Tree::new_node(grown, *right)
                }
            },
        };
        proof {
            before.lemma_add(new_mass, r);
        }
        r
    }

    /// The force that two sibling clusters exert on each other, as it is added
    /// to the forces on `left` and taken from the forces on `right`.
    ///
    /// The two clusters count as two point masses at their centres. The force
    /// lies along the line through the centres, in the direction from `right`
    /// to `left`, and its size is the product of the masses over the distance:
    /// over the distance itself, not over its square, by which `pull` divides.
    /// `None` where the distance is not positive: two clusters with one centre
    /// exert no force on each other, and nothing is ever divided by a distance
    /// of zero.
    pub fn pair_force(left: &Tree<S>, right: &Tree<S>) -> (r: Option<Point<S>>)
        ensures
            Tree::pair_force_yields(*left, *right, r),
    {
        let d = left.center().minus(right.center());
        let dd = d.magnitude_squared();
        let apart = is_positive(dd);
        if apart {
            let u = d.unit_vector();
            let dist = d.magnitude();
            let mm = left.mass().times(right.mass());
            let k = mm.over(dist);
            let f = u.scale(k);
            assert(Tree::pair_force_yields(*left, *right, Some(f))) by {
                assert(d.unit_vector_yields(u) && d.magnitude_yields(dist) && times_yields(
                    left.spec_mass(),
                    right.spec_mass(),
                    mm,
                ) && over_yields(mm, dist, k) && u.scale_yields(k, f));
            }
            Some(f)
        } else {
            None
        }
    }

    /// One tick of the clock for every mass of the cluster, `force` being what
    /// acts on the cluster as a whole.
    ///
    /// Only the masses in the leaves change. The nodes keep the masses and
    /// centres they had, which afterwards are those of the cluster one tick ago.
    pub fn update_with(&mut self, force: Point<S>)
        ensures
            old(self).update_with_yields(force, *final(self)),
            old(self).same_frame(*final(self)),
            final(self).leaves().len() == old(self).leaves().len(),
        decreases *old(self),
    {
        match self {
            Tree::Leaf(mass) => {
                *mass = mass.accelerate(force);
            },
            Tree::Node { left, right, .. } => {
                let between = Tree::pair_force(left, right);
                match between {
                    Some(f) => {
                        let fl = force.add(f);
                        let fr = force.minus(f);
                        left.update_with(fl);
                        right.update_with(fr);
                    },
                    None => {
                        left.update_with(force);
                        right.update_with(force);
                    },
                }
            },
        }
    }

    /// The tree over `masses`, grown by adding them one by one, the first
    /// first. `None` where there is no mass to make a leaf of.
    pub fn build(masses: &Vec<Mass<S>>) -> (r: Option<Tree<S>>)
        ensures
            Tree::build_yields(masses@, r),
            r is Some <==> masses.len() > 0,
            r matches Some(t) ==> {
                &&& t.well_formed()
                &&& t.leaves().to_multiset() == masses@.to_multiset()
                &&& t.leaves().len() == masses.len()
                &&& t.node_count() == masses.len() - 1
            },
    {
        if masses.len() == 0 {
            return None;
        }
        let mut tree = Tree::Leaf(masses[0]);
        let mut i: usize = 1;
        while i < masses.len()
            invariant
                1 <= i <= masses.len(),
                Tree::build_yields(masses@.take(i as int), Some(tree)),
            decreases masses.len() - i,
        {
            let ghost before = tree;
            tree = tree.add(masses[i]);
            i += 1;
            proof {
                let now = masses@.take(i as int);
                assert(now.drop_last() == masses@.take(i - 1));
                assert(Tree::build_yields(now.drop_last(), Some(before)) && before.add_yields(
                    now.last(),
                    tree,
                ));
            }
        }
        assert(masses@.take(i as int) == masses@);
        proof {
            Tree::lemma_build(masses@, tree);
        }
        Some(tree)
    }

    /// The masses of the cluster, from the leftmost leaf to the rightmost.
    pub fn masses(&self) -> (r: Vec<Mass<S>>)
        ensures
            r@ == self.leaves(),
        decreases *self,
    {
        match self {
            Tree::Leaf(m) => {
                let mut v = Vec::new();
                v.push(*m);
                v
            },
            Tree::Node { left, right, .. } => {
                let mut v = left.masses();
                let mut w = right.masses();
                v.append(&mut w);
                v
            },
        }
    }
}

} // verus!
