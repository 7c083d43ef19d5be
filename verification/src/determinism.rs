//! What the contracts come to where the arithmetic is repeatable.
//!
//! The contracts of this crate say which operations produced a result. Where
//! each operation of the scalar returns the same for the same operands, that
//! leaves one result only: growing a tree, updating it and stepping a
//! simulation are then functions in the mathematical sense, and two runs from
//! the same masses end in the same masses.

use crate::joe::JoeSimulator;
use crate::matt::MattSimulator;
use crate::no_gravity::NoGravitySimulator;
use crate::point::Point;
use crate::scalar::{
    exceeds_yields, from_int_yields, is_positive_yields, minus_yields, over_yields, plus_yields,
    reciprocal_yields, root_yields, times_yields, Scalar,
};
use crate::tree::Tree;
use crate::Mass;
use vstd::prelude::*;

verus! {

/// Each operation of the scalar `S` returns the same for the same operands.
pub open spec fn repeatable<S: Scalar>() -> bool {
    &&& forall|n: int, r: S, s: S| from_int_yields(n, r) && from_int_yields(n, s) ==> r == s
    &&& forall|a: S, b: S, r: S, s: S| plus_yields(a, b, r) && plus_yields(a, b, s) ==> r == s
    &&& forall|a: S, b: S, r: S, s: S| minus_yields(a, b, r) && minus_yields(a, b, s) ==> r == s
    &&& forall|a: S, b: S, r: S, s: S| times_yields(a, b, r) && times_yields(a, b, s) ==> r == s
    &&& forall|a: S, b: S, r: S, s: S| over_yields(a, b, r) && over_yields(a, b, s) ==> r == s
    &&& forall|a: S, r: S, s: S| root_yields(a, r) && root_yields(a, s) ==> r == s
    &&& forall|a: S, b: S, r: bool, s: bool|
        exceeds_yields(a, b, r) && exceeds_yields(a, b, s) ==> r == s
}

/// One over a scalar, and the test for being positive, are repeatable.
pub proof fn lemma_scalar_repeatable<S: Scalar>(a: S)
    requires
        repeatable::<S>(),
    ensures
        forall|r: S, s: S| reciprocal_yields(a, r) && reciprocal_yields(a, s) ==> r == s,
        forall|r: bool, s: bool| is_positive_yields(a, r) && is_positive_yields(a, s) ==> r == s,
{
}

impl<S: Scalar> Point<S> {
    /// The operations on one point are repeatable.
    pub proof fn lemma_repeatable(self)
        requires
            repeatable::<S>(),
        ensures
            forall|k: S, r: Point<S>, s: Point<S>|
                self.scale_yields(k, r) && self.scale_yields(k, s) ==> r == s,
            forall|k: S, r: Point<S>, s: Point<S>|
                self.shrink_yields(k, r) && self.shrink_yields(k, s) ==> r == s,
            forall|r: Point<S>, s: Point<S>| self.inverse_yields(r) && self.inverse_yields(s) ==> r == s,
            forall|r: S, s: S|
                self.magnitude_squared_yields(r) && self.magnitude_squared_yields(s) ==> r == s,
            forall|r: S, s: S| self.magnitude_yields(r) && self.magnitude_yields(s) ==> r == s,
            forall|r: Point<S>, s: Point<S>|
                self.unit_vector_yields(r) && self.unit_vector_yields(s) ==> r == s,
    {
        assert forall|k: S, r: Point<S>, s: Point<S>|
            self.shrink_yields(k, r) && self.shrink_yields(k, s) implies r == s by {
            lemma_scalar_repeatable(k);
        }
        assert forall|r: Point<S>, s: Point<S>|
            self.unit_vector_yields(r) && self.unit_vector_yields(s) implies r == s by {
            let (m, k) = choose|m: S, k: S|
                self.magnitude_yields(m) && reciprocal_yields(m, k) && self.scale_yields(k, r);
            lemma_scalar_repeatable(m);
        }
    }

    /// The operations on two points are repeatable.
    pub proof fn lemma_pair_repeatable(self, that: Point<S>)
        requires
            repeatable::<S>(),
        ensures
            forall|r: Point<S>, s: Point<S>|
                self.add_yields(that, r) && self.add_yields(that, s) ==> r == s,
            forall|r: Point<S>, s: Point<S>|
                self.minus_yields(that, r) && self.minus_yields(that, s) ==> r == s,
    {
        that.lemma_repeatable();
    }

    /// The weighted mean is repeatable.
    pub proof fn lemma_weighted_mean_repeatable(
        p: Point<S>,
        wp: S,
        q: Point<S>,
        wq: S,
        total: S,
        r: Point<S>,
        s: Point<S>,
    )
        requires
            repeatable::<S>(),
            Point::weighted_mean_yields(p, wp, q, wq, total, r),
            Point::weighted_mean_yields(p, wp, q, wq, total, s),
        ensures
            r == s,
    {
        let (a, b, c) = choose|a: Point<S>, b: Point<S>, c: Point<S>|
            p.scale_yields(wp, a) && q.scale_yields(wq, b) && a.add_yields(b, c)
                && c.shrink_yields(total, r);
        p.lemma_repeatable();
        q.lemma_repeatable();
        a.lemma_pair_repeatable(b);
        c.lemma_repeatable();
    }
}

impl<S: Scalar> Mass<S> {
    /// A tick of the clock for one mass is repeatable.
    pub proof fn lemma_accelerate_repeatable(self, force: Point<S>, r: Mass<S>, s: Mass<S>)
        requires
            repeatable::<S>(),
            self.accelerate_yields(force, r),
            self.accelerate_yields(force, s),
        ensures
            r == s,
    {
        lemma_scalar_repeatable(self.mass);
        force.lemma_repeatable();
        let (k, dv) = choose|k: S, dv: Point<S>|
            reciprocal_yields(self.mass, k) && force.scale_yields(k, dv)
                && self.velocity.add_yields(dv, r.velocity);
        self.velocity.lemma_pair_repeatable(dv);
        self.position.lemma_pair_repeatable(r.velocity);
    }
}

impl<S: Scalar> Tree<S> {
    /// The pull of a cluster on a point is repeatable.
    pub proof fn lemma_pull_repeatable(self, p: Point<S>, r: Option<S>, s: Option<S>)
        requires
            repeatable::<S>(),
            self.pull_yields(p, r),
            self.pull_yields(p, s),
        ensures
            r == s,
    {
        self.spec_center().lemma_pair_repeatable(p);
        let (d, dd, apart) = choose|d: Point<S>, dd: S, apart: bool|
            {
                &&& self.spec_center().minus_yields(p, d)
                &&& d.magnitude_squared_yields(dd)
                &&& is_positive_yields(dd, apart)
                &&& if apart {
                    r matches Some(q) && over_yields(self.spec_mass(), dd, q)
                } else {
                    r is None
                }
            };
        d.lemma_repeatable();
        lemma_scalar_repeatable(dd);
    }

    /// The choice between two siblings is repeatable.
    pub proof fn lemma_goes_right_repeatable(
        left: Tree<S>,
        right: Tree<S>,
        p: Point<S>,
        r: bool,
        s: bool,
    )
        requires
            repeatable::<S>(),
            Tree::goes_right_yields(left, right, p, r),
            Tree::goes_right_yields(left, right, p, s),
        ensures
            r == s,
    {
        assert forall|a: Option<S>, b: Option<S>|
            left.pull_yields(p, a) && left.pull_yields(p, b) implies a == b by {
            left.lemma_pull_repeatable(p, a, b);
        }
        assert forall|a: Option<S>, b: Option<S>|
            right.pull_yields(p, a) && right.pull_yields(p, b) implies a == b by {
            right.lemma_pull_repeatable(p, a, b);
        }
    }

    /// Making a node is repeatable.
    pub proof fn lemma_new_node_repeatable(left: Tree<S>, right: Tree<S>, r: Tree<S>, s: Tree<S>)
        requires
            repeatable::<S>(),
            Tree::new_node_yields(left, right, r),
            Tree::new_node_yields(left, right, s),
        ensures
            r == s,
    {
        Point::lemma_weighted_mean_repeatable(
            left.spec_center(),
            left.spec_mass(),
            right.spec_center(),
            right.spec_mass(),
            r->mass,
            r->center,
            s->center,
        );
    }

    /// Adding a mass is repeatable: the same mass added to the same tree gives
    /// the same tree, ties included.
    pub proof fn lemma_add_repeatable(self, m: Mass<S>, r: Tree<S>, s: Tree<S>)
        requires
            repeatable::<S>(),
            self.add_yields(m, r),
            self.add_yields(m, s),
        ensures
            r == s,
        decreases self,
    {
        match self {
            Tree::Leaf(_) => {
                Tree::lemma_new_node_repeatable(self, Tree::Leaf(m), r, s);
            },
            Tree::Node { left, right, .. } => {
                assert forall|a: bool, b: bool|
                    Tree::goes_right_yields(*left, *right, m.position, a)
                        && Tree::goes_right_yields(*left, *right, m.position, b) implies a == b by {
                    Tree::lemma_goes_right_repeatable(*left, *right, m.position, a, b);
                }
                if Tree::goes_right_yields(*left, *right, m.position, true) {
                    right.lemma_add_repeatable(m, *r->right, *s->right);
                } else {
                    left.lemma_add_repeatable(m, *r->left, *s->left);
                }
                Tree::lemma_new_node_repeatable(*r->left, *r->right, r, s);
            },
        }
    }

    /// The force between two clusters is repeatable.
    pub proof fn lemma_pair_force_repeatable(
        left: Tree<S>,
        right: Tree<S>,
        r: Option<Point<S>>,
        s: Option<Point<S>>,
    )
        requires
            repeatable::<S>(),
            Tree::pair_force_yields(left, right, r),
            Tree::pair_force_yields(left, right, s),
        ensures
            r == s,
    {
        left.spec_center().lemma_pair_repeatable(right.spec_center());
        let (d, dd, apart) = choose|d: Point<S>, dd: S, apart: bool|
            {
                &&& left.spec_center().minus_yields(right.spec_center(), d)
                &&& d.magnitude_squared_yields(dd)
                &&& is_positive_yields(dd, apart)
                &&& if apart {
                    r matches Some(f) && exists|u: Point<S>, dist: S, mm: S, k: S|
                        {
                            &&& d.unit_vector_yields(u)
                            &&& d.magnitude_yields(dist)
                            &&& times_yields(left.spec_mass(), right.spec_mass(), mm)
                            &&& over_yields(mm, dist, k)
                            &&& u.scale_yields(k, f)
                        }
                } else {
                    r is None
                }
            };
        d.lemma_repeatable();
        lemma_scalar_repeatable(dd);
        if apart {
            let f = r->0;
            let (u, dist, mm, k) = choose|u: Point<S>, dist: S, mm: S, k: S|
                {
                    &&& d.unit_vector_yields(u)
                    &&& d.magnitude_yields(dist)
                    &&& times_yields(left.spec_mass(), right.spec_mass(), mm)
                    &&& over_yields(mm, dist, k)
                    &&& u.scale_yields(k, f)
                };
            u.lemma_repeatable();
        }
    }

    /// A tick of the clock is repeatable: the same force on the same tree
    /// leaves the same tree.
    pub proof fn lemma_update_with_repeatable(self, force: Point<S>, r: Tree<S>, s: Tree<S>)
        requires
            repeatable::<S>(),
            self.update_with_yields(force, r),
            self.update_with_yields(force, s),
        ensures
            r == s,
        decreases self,
    {
        match self {
            Tree::Leaf(m) => {
                m.lemma_accelerate_repeatable(force, r->0, s->0);
            },
            Tree::Node { left, right, .. } => {
                assert forall|a: Option<Point<S>>, b: Option<Point<S>>|
                    Tree::pair_force_yields(*left, *right, a) && Tree::pair_force_yields(
                        *left,
                        *right,
                        b,
                    ) implies a == b by {
                    Tree::lemma_pair_force_repeatable(*left, *right, a, b);
                }
                let between = choose|between: Option<Point<S>>|
                    Tree::pair_force_yields(*left, *right, between);
                match between {
                    Some(f) => {
                        force.lemma_pair_repeatable(f);
                        let (fl, fr) = choose|fl: Point<S>, fr: Point<S>|
                            {
                                &&& force.add_yields(f, fl)
                                &&& force.minus_yields(f, fr)
                                &&& left.update_with_yields(fl, *r->left)
                                &&& right.update_with_yields(fr, *r->right)
                            };
                        left.lemma_update_with_repeatable(fl, *r->left, *s->left);
                        right.lemma_update_with_repeatable(fr, *r->right, *s->right);
                    },
                    None => {
                        left.lemma_update_with_repeatable(force, *r->left, *s->left);
                        right.lemma_update_with_repeatable(force, *r->right, *s->right);
                    },
                }
            },
        }
    }

    /// Building a tree is repeatable: the same masses in the same order give
    /// the same tree.
    pub proof fn lemma_build_repeatable(
        masses: Seq<Mass<S>>,
        r: Option<Tree<S>>,
        s: Option<Tree<S>>,
    )
        requires
            repeatable::<S>(),
            Tree::build_yields(masses, r),
            Tree::build_yields(masses, s),
        ensures
            r == s,
        decreases masses.len(),
    {
        if masses.len() >= 2 {
            let a = choose|a: Tree<S>|
                Tree::build_yields(masses.drop_last(), Some(a)) && a.add_yields(
                    masses.last(),
                    r->0,
                );
            let b = choose|b: Tree<S>|
                Tree::build_yields(masses.drop_last(), Some(b)) && b.add_yields(
                    masses.last(),
                    s->0,
                );
            Tree::lemma_build_repeatable(masses.drop_last(), Some(a), Some(b));
            a.lemma_add_repeatable(masses.last(), r->0, s->0);
        }
    }
}

impl<S: Scalar> JoeSimulator<S> {
    /// A step of the simulation by clusters is repeatable: from the same
    /// masses in the same order it leads to the same masses in the same order.
    pub proof fn lemma_step_repeatable(before: Seq<Mass<S>>, r: Seq<Mass<S>>, s: Seq<Mass<S>>)
        requires
            repeatable::<S>(),
            JoeSimulator::step_yields(before, r),
            JoeSimulator::step_yields(before, s),
        ensures
            r == s,
    {
        if before.len() > 0 {
            let (g1, z1, m1) = choose|grown: Tree<S>, zero: Point<S>, moved: Tree<S>|
                {
                    &&& Tree::build_yields(before, Some(grown))
                    &&& Point::zero_yields(zero)
                    &&& #[trigger] grown.update_with_yields(zero, moved)
                    &&& r == moved.leaves()
                };
            let (g2, z2, m2) = choose|grown: Tree<S>, zero: Point<S>, moved: Tree<S>|
                {
                    &&& Tree::build_yields(before, Some(grown))
                    &&& Point::zero_yields(zero)
                    &&& #[trigger] grown.update_with_yields(zero, moved)
                    &&& s == moved.leaves()
                };
            Tree::lemma_build_repeatable(before, Some(g1), Some(g2));
            g1.lemma_update_with_repeatable(z1, m1, m2);
        }
    }
}

impl<S: Scalar> MattSimulator<S> {
    /// The pull of the mean field on one mass is repeatable.
    pub proof fn lemma_pull_repeatable(
        m: Mass<S>,
        numerator: Point<S>,
        denominator: S,
        r: Mass<S>,
        s: Mass<S>,
    )
        requires
            repeatable::<S>(),
            MattSimulator::pull_yields(m, numerator, denominator, r),
            MattSimulator::pull_yields(m, numerator, denominator, s),
        ensures
            r == s,
    {
        m.position.lemma_pair_repeatable(m.velocity);
        let p = r.position;
        let (cm, rest, dv) = choose|cm: Point<S>, rest: S, dv: Point<S>|
            {
                &&& MattSimulator::others_yields(numerator, denominator, p, m.mass, cm, rest)
                &&& MattSimulator::tug_yields(p, m.mass, cm, rest, dv)
                &&& m.velocity.add_yields(dv, r.velocity)
            };
        let (cm2, rest2, dv2) = choose|cm: Point<S>, rest: S, dv: Point<S>|
            {
                &&& MattSimulator::others_yields(numerator, denominator, p, m.mass, cm, rest)
                &&& MattSimulator::tug_yields(p, m.mass, cm, rest, dv)
                &&& m.velocity.add_yields(dv, s.velocity)
            };
        assert(cm == cm2 && rest == rest2) by {
            let (own, others) = choose|own: Point<S>, others: Point<S>|
                p.scale_yields(m.mass, own) && numerator.minus_yields(own, others)
                    && others.shrink_yields(rest, cm);
            p.lemma_repeatable();
            numerator.lemma_pair_repeatable(own);
            others.lemma_repeatable();
        }
        assert(dv == dv2) by {
            let (force, toward, k) = choose|force: S, toward: Point<S>, k: S|
                {
                    &&& MattSimulator::force_yields(p, m.mass, cm, rest, force)
                    &&& cm.minus_yields(p, toward)
                    &&& over_yields(force, m.mass, k)
                    &&& toward.scale_yields(k, dv)
                };
            let (away, dd, mm) = choose|away: Point<S>, dd: S, mm: S|
                {
                    &&& p.minus_yields(cm, away)
                    &&& away.magnitude_squared_yields(dd)
                    &&& times_yields(m.mass, rest, mm)
                    &&& over_yields(mm, dd, force)
                };
            p.lemma_pair_repeatable(cm);
            away.lemma_repeatable();
            cm.lemma_pair_repeatable(p);
            toward.lemma_repeatable();
        }
        m.velocity.lemma_pair_repeatable(dv);
    }

    /// A step of the mean-field simulation is repeatable.
    pub proof fn lemma_step_repeatable(
        before: Seq<Mass<S>>,
        numerator: Point<S>,
        denominator: S,
        r: Seq<Mass<S>>,
        s: Seq<Mass<S>>,
    )
        requires
            repeatable::<S>(),
            MattSimulator::step_yields(before, numerator, denominator, r),
            MattSimulator::step_yields(before, numerator, denominator, s),
        ensures
            r == s,
    {
        assert forall|i: int| 0 <= i < before.len() implies r[i] == s[i] by {
            MattSimulator::lemma_pull_repeatable(before[i], numerator, denominator, r[i], s[i]);
        }
    }
}

impl<S: Scalar> NoGravitySimulator<S> {
    /// A step of the simulation without gravity is repeatable.
    pub proof fn lemma_step_repeatable(before: Seq<Mass<S>>, r: Seq<Mass<S>>, s: Seq<Mass<S>>)
        requires
            repeatable::<S>(),
            NoGravitySimulator::step_yields(before, r),
            NoGravitySimulator::step_yields(before, s),
        ensures
            r == s,
    {
        assert forall|i: int| 0 <= i < before.len() implies r[i] == s[i] by {
            before[i].position.lemma_pair_repeatable(before[i].velocity);
        }
    }
}

} // verus!
