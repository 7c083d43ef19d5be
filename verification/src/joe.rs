//! The simulation by clusters: each tick builds the tree of clusters over the
//! masses and hands the forces down from its root.

use crate::point::Point;
use crate::scalar::{Scalar, Source};
use crate::tree::Tree;
use crate::{random_masses, weights, Mass, SimFactory, Simulator};
use vstd::prelude::*;

verus! {

/// Sets up simulations by clusters.
#[derive(Debug)]
pub struct JoeFactory;

/// Masses that pull on each other cluster by cluster.
///
/// Between two ticks the simulation keeps the masses, not the tree: a tree is
/// built for one tick, and taken apart when the masses have moved.
#[derive(Debug)]
pub struct JoeSimulator<S> {
    pub masses: Vec<Mass<S>>,
}

impl<S: Scalar> JoeSimulator<S> {
    /// `after` is what a tick of the clock made of `before`. The tree is built
    /// over `before`, updated with a force of zero on the whole, and `after` is
    /// its leaves from left to right. Of no masses nothing is made.
    pub open spec fn step_yields(before: Seq<Mass<S>>, after: Seq<Mass<S>>) -> bool {
        if before.len() == 0 {
            after == before
        } else {
            exists|grown: Tree<S>, zero: Point<S>, moved: Tree<S>|
                {
                    &&& Tree::build_yields(before, Some(grown))
                    &&& Point::zero_yields(zero)
                    &&& #[trigger] grown.update_with_yields(zero, moved)
                    &&& after == moved.leaves()
                }
        }
    }

    /// The simulation of `masses`.
    pub fn new(masses: Vec<Mass<S>>) -> (r: JoeSimulator<S>)
        ensures
            r.masses == masses,
    {
        JoeSimulator { masses }
    }

    /// The tree of clusters over the masses as they now are; `None` where the
    /// simulation has no mass.
    pub fn tree(&self) -> (r: Option<Tree<S>>)
        ensures
            Tree::build_yields(self.masses@, r),
    {
        Tree::build(&self.masses)
    }
}

impl<S: Scalar + core::fmt::Debug + Send + Sync> Simulator<S> for JoeSimulator<S> {
    open spec fn masses(&self) -> Seq<Mass<S>> {
        self.masses@
    }

    fn step(&mut self)
        ensures
            JoeSimulator::step_yields(old(self).masses@, final(self).masses@),
    {
        match self.tree() {
            None => {},
            Some(mut tree) => {
                let ghost grown = tree;
                let zero = Point::zero();
                tree.update_with(zero);
                proof {
                    Tree::lemma_build(self.masses@, grown);
                    grown.lemma_update_with(zero, tree);
                }
                self.masses = tree.masses();
            },
        }
    }

    fn mass_iter(&self) -> (r: Vec<Mass<S>>) {
        self.masses.clone()
    }
}

impl JoeFactory {
    /// What the simulation is called.
    pub fn name(&self) -> (r: String)
        ensures
            r@ == "Joe's Simulator"@,
    {
        "Joe's Simulator".to_owned()
    }
}

impl<S: Scalar + core::fmt::Debug + Send + Sync> SimFactory<S> for JoeFactory {
    type Simulation = JoeSimulator<S>;

    open spec fn title(&self) -> Seq<char> {
        "Joe's Simulator"@
    }

    fn new<R: Source<S>>(&self, count: usize, source: &mut R) -> (r: JoeSimulator<S>) {
        JoeSimulator::new(random_masses(count, source))
    }

    fn name(&self) -> (r: String) {
        JoeFactory::name(self)
    }
}

} // verus!
