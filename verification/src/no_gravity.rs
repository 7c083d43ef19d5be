//! The simulation without gravity: every mass keeps its velocity.

use crate::scalar::{Scalar, Source};
use crate::{random_masses, weights, Mass, SimFactory, Simulator};
use vstd::prelude::*;

verus! {

/// Sets up simulations without gravity.
#[derive(Debug)]
pub struct NoGravityFactory;

/// Masses on which no force acts.
#[derive(Debug)]
pub struct NoGravitySimulator<S> {
    pub masses: Vec<Mass<S>>,
}

impl<S: Scalar> NoGravitySimulator<S> {
    /// The simulation of `masses`.
    pub fn new(masses: Vec<Mass<S>>) -> (r: NoGravitySimulator<S>)
        ensures
            r.masses == masses,
    {
        NoGravitySimulator { masses }
    }

    /// `after` is what a tick of the clock made of `before`: each mass has
    /// coasted.
    pub open spec fn step_yields(before: Seq<Mass<S>>, after: Seq<Mass<S>>) -> bool {
        &&& after.len() == before.len()
        &&& forall|i: int| 0 <= i < before.len() ==> (#[trigger] before[i]).coast_yields(after[i])
    }
}

impl<S: Scalar + core::fmt::Debug + Send + Sync> Simulator<S> for NoGravitySimulator<S> {
    open spec fn masses(&self) -> Seq<Mass<S>> {
        self.masses@
    }

    fn step(&mut self)
        ensures
            NoGravitySimulator::step_yields(old(self).masses@, final(self).masses@),
    {
        let mut moved: Vec<Mass<S>> = Vec::new();
        let mut i: usize = 0;
        while i < self.masses.len()
            invariant
                i <= self.masses.len(),
                moved.len() == i,
                forall|j: int| 0 <= j < i ==> (#[trigger] self.masses[j]).coast_yields(moved[j]),
            decreases self.masses.len() - i,
        {
            let m = self.masses[i].coast();
            moved.push(m);
            i += 1;
        }
        assert(weights(moved@) =~= weights(self.masses@));
        self.masses = moved;
    }

    fn mass_iter(&self) -> (r: Vec<Mass<S>>) {
        self.masses.clone()
    }
}

impl NoGravityFactory {
    /// What the simulation is called.
    pub fn name(&self) -> (r: String)
        ensures
            r@ == "No Gravity Simulator"@,
    {
        "No Gravity Simulator".to_owned()
    }
}

impl<S: Scalar + core::fmt::Debug + Send + Sync> SimFactory<S> for NoGravityFactory {
    type Simulation = NoGravitySimulator<S>;

    open spec fn title(&self) -> Seq<char> {
        "No Gravity Simulator"@
    }

    fn new<R: Source<S>>(&self, count: usize, source: &mut R) -> (r: NoGravitySimulator<S>) {
        NoGravitySimulator::new(random_masses(count, source))
    }

    fn name(&self) -> (r: String) {
        NoGravityFactory::name(self)
    }
}

} // verus!
