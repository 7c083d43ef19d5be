//! A gravity simulation for a cloud of point masses in the plane.
//!
//! Instead of summing the pull of every mass on every other, the simulation
//! gathers nearby masses into clusters, arranged as a binary [`tree::Tree`]: each
//! leaf holds one mass, each inner node the total mass and the centre of mass of
//! what lies below it. One tick of the clock builds the tree, hands forces down
//! from the root, cluster against cluster, and moves every mass.
//!
//! All arithmetic goes through [`scalar::Scalar`], of which nothing is assumed;
//! see that module for how the contracts of this crate are to be read.
//!
//! - [`scalar`]: the arithmetic, and a source of draws;
//! - [`point`]: vectors in the plane;
//! - [`Mass`], [`Simulator`], [`SimFactory`]: a body, and what every simulation
//!   and every way to set one up have in common;
//! - [`tree`]: the tree of clusters;
//! - [`joe`]: the simulation by clusters;
//! - [`matt`], [`no_gravity`]: two simpler simulations to hold against it;
//! - [`select`]: the choice between the three;
//! - [`laws`], [`determinism`]: what is proved of all of this.

pub mod determinism;
pub mod joe;
pub mod laws;
pub mod matt;
pub mod no_gravity;
pub mod point;
pub mod scalar;
pub mod select;
pub mod tree;

use crate::point::Point;
use crate::scalar::{from_int_yields, over_yields, reciprocal, reciprocal_yields, Scalar, Source};
use vstd::prelude::*;

verus! {

/// One simulated body: where it is, how fast it moves, how heavy it is.
#[derive(Debug, PartialEq)]
pub struct Mass<S> {
    pub position: Point<S>,
    pub velocity: Point<S>,
    pub mass: S,
}

impl<S: Copy> Clone for Mass<S> {
    fn clone(&self) -> (r: Self)
        ensures
            r == *self,
    {
        *self
    }
}

impl<S: Copy> Copy for Mass<S> {

}

impl<S: Scalar> Mass<S> {
    /// `r` is what `Mass::from_draws(position, velocity, weight)` returned: the
    /// body at `position` with `velocity`, as heavy as a thousandth of `weight`.
    pub open spec fn from_draws_yields(
        position: Point<S>,
        velocity: Point<S>,
        weight: S,
        r: Mass<S>,
    ) -> bool {
        &&& r.position == position
        &&& r.velocity == velocity
        &&& exists|k: S| from_int_yields(1000, k) && over_yields(weight, k, r.mass)
    }

    /// `r` is what `self.accelerate(force)` returned. The velocity of `r` is that
    /// of `self` plus `force` scaled by one over the mass; the position of `r` is
    /// that of `self` plus the velocity *of `r`*; the mass is unchanged.
    pub open spec fn accelerate_yields(self, force: Point<S>, r: Mass<S>) -> bool {
        &&& r.mass == self.mass
        &&& exists|k: S, dv: Point<S>|
            reciprocal_yields(self.mass, k) && force.scale_yields(k, dv)
                && self.velocity.add_yields(dv, r.velocity)
        &&& self.position.add_yields(r.velocity, r.position)
    }

    /// `r` is `self` one tick later, under some force: what `self.accelerate(f)`
    /// returned for some `f`.
    pub open spec fn accelerated(self, r: Mass<S>) -> bool {
        exists|f: Point<S>| self.accelerate_yields(f, r)
    }

    /// `r` is what `self.coast()` returned: `self` moved on by its velocity.
    pub open spec fn coast_yields(self, r: Mass<S>) -> bool {
        &&& r.mass == self.mass
        &&& r.velocity == self.velocity
        &&& self.position.add_yields(self.velocity, r.position)
    }

    /// `r` is what `Mass::new_random` returned for some five draws.
    pub open spec fn new_random_yields(r: Mass<S>) -> bool {
        exists|a: S, b: S, c: S, d: S, weight: S, position: Point<S>, velocity: Point<S>|
            Point::from_draws_yields(a, b, position) && Point::from_draws_yields(c, d, velocity)
                && Mass::from_draws_yields(position, velocity, weight, r)
    }

    /// The body that three draws stand for. `weight` is a draw from the unit
    /// interval; the body's mass is a thousandth of it.
    pub fn from_draws(position: Point<S>, velocity: Point<S>, weight: S) -> (r: Mass<S>)
        ensures
            Mass::from_draws_yields(position, velocity, weight, r),
    {
        let k = S::from_int(1000);
        let mass = weight.over(k);
        assert(from_int_yields(1000, k) && over_yields(weight, k, mass));
        Mass { position, velocity, mass }
    }

    /// A body made of the next five draws of `source`: two for the position, two
    /// for the velocity, one for the mass.
    pub fn new_random<R: Source<S>>(source: &mut R) -> (r: Mass<S>)
        ensures
            Mass::new_random_yields(r),
    {
        let a = source.draw();
        let b = source.draw();
        let position = Point::from_draws(a, b);
        let c = source.draw();
        let d = source.draw();
        let velocity = Point::from_draws(c, d);
        let weight = source.draw();
        Mass::from_draws(position, velocity, weight)
    }

    /// One tick of the clock for a body that `force` acts on: first the velocity
    /// takes up the force, divided by the mass, then the position takes up the
    /// new velocity.
    pub fn accelerate(self, force: Point<S>) -> (r: Mass<S>)
        ensures
            self.accelerate_yields(force, r),
    {
        let k = reciprocal(self.mass);
        let dv = force.scale(k);
        let velocity = self.velocity.add(dv);
        let position = self.position.add(velocity);
        Mass { position, velocity, mass: self.mass }
    }

    /// One tick of the clock for a body that no force acts on.
    pub fn coast(self) -> (r: Mass<S>)
        ensures
            self.coast_yields(r),
    {
        Mass { position: self.position.add(self.velocity), velocity: self.velocity, mass: self.mass }
    }
}

/// How heavy the masses of `masses` are, one by one.
pub open spec fn weights<S>(masses: Seq<Mass<S>>) -> Seq<S> {
    masses.map_values(|m: Mass<S>| m.mass)
}

/// `count` bodies, each made of the next five draws of `source`.
pub fn random_masses<S: Scalar, R: Source<S>>(count: usize, source: &mut R) -> (r: Vec<Mass<S>>)
    ensures
        r.len() == count,
        forall|i: int| 0 <= i < count ==> Mass::new_random_yields(#[trigger] r[i]),
{
    let mut masses: Vec<Mass<S>> = Vec::new();
    let mut i: usize = 0;
    while i < count
        invariant
            i <= count,
            masses.len() == i,
            forall|j: int| 0 <= j < i ==> Mass::new_random_yields(#[trigger] masses[j]),
        decreases count - i,
    {
        let m = Mass::new_random(source);
        masses.push(m);
        i += 1;
    }
    masses
}

/// A simulation: a fixed number of masses, and a clock.
///
/// The three simulations of this crate differ in the forces they let act. They
/// agree in this: a tick of the clock neither makes nor loses a mass, and
/// leaves each mass as heavy as it was. The order in which the masses are
/// handed out may change from tick to tick.
pub trait Simulator<S: Scalar>: core::fmt::Debug + Send + Sync {
    /// The masses of the simulation, in the order in which `mass_iter` hands
    /// them out.
    spec fn masses(&self) -> Seq<Mass<S>>;

    /// One tick of the clock.
    fn step(&mut self)
        ensures
            final(self).masses().len() == old(self).masses().len(),
            weights(final(self).masses()).to_multiset() == weights(
                old(self).masses(),
            ).to_multiset(),
    ;

    /// The masses as they now are.
    fn mass_iter(&self) -> (r: Vec<Mass<S>>)
        ensures
            r@ == self.masses(),
    ;
}

/// A way to set up a simulation over the scalar `S`.
pub trait SimFactory<S: Scalar> {
    /// The simulation that the factory sets up.
    type Simulation: Simulator<S>;

    /// The characters of the simulation's name.
    spec fn title(&self) -> Seq<char>;

    /// A simulation of `count` masses, each made of the next five draws of
    /// `source`.
    fn new<R: Source<S>>(&self, count: usize, source: &mut R) -> (r: Self::Simulation)
        ensures
            r.masses().len() == count,
            forall|i: int| 0 <= i < count ==> Mass::new_random_yields(#[trigger] r.masses()[i]),
    ;

    /// What the simulation is called.
    fn name(&self) -> (r: String)
        ensures
            r@ == self.title(),
    ;
}

} // verus!
