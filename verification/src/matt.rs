//! The mean-field simulation: each mass is pulled by all the others taken as
//! one point mass.

use crate::point::Point;
use crate::scalar::{
    from_int_yields, minus_yields, over_yields, plus_yields, times_yields, Scalar, Source,
};
use crate::{random_masses, weights, Mass, SimFactory, Simulator};
use vstd::prelude::*;

verus! {

/// Sets up mean-field simulations.
#[derive(Debug)]
pub struct MattFactory;

/// Masses, and two sums over them that are taken once, when the simulation is
/// set up: of the positions, each scaled by its mass, and of the masses.
#[derive(Debug)]
pub struct MattSimulator<S> {
    pub masses: Vec<Mass<S>>,
    pub cm_numerator: Point<S>,
    pub cm_denominator: S,
}

impl<S: Scalar> MattSimulator<S> {
    /// `numerator` and `denominator` are what the two sums `n` and `d` became
    /// when the mass `m` was counted in: its position scaled by its mass was
    /// added to the first, its mass to the second.
    pub open spec fn count_in_yields(
        n: Point<S>,
        d: S,
        m: Mass<S>,
        numerator: Point<S>,
        denominator: S,
    ) -> bool {
        &&& exists|moment: Point<S>|
            m.position.scale_yields(m.mass, moment) && n.add_yields(moment, numerator)
        &&& plus_yields(d, m.mass, denominator)
    }

    /// `numerator` and `denominator` are the two sums that
    /// `MattSimulator::new(masses)` took: both start from what stands for 0, and
    /// the masses are counted in one by one, the first first.
    pub open spec fn sums_yield(masses: Seq<Mass<S>>, numerator: Point<S>, denominator: S) -> bool
        decreases masses.len(),
    {
        if masses.len() == 0 {
            Point::zero_yields(numerator) && from_int_yields(0, denominator)
        } else {
            exists|n: Point<S>, d: S|
                #![trigger MattSimulator::count_in_yields(n, d, masses.last(), numerator, denominator)]
                MattSimulator::sums_yield(masses.drop_last(), n, d)
                    && MattSimulator::count_in_yields(n, d, masses.last(), numerator, denominator)
        }
    }

    /// `cm` and `rest` are the centre and the mass of all the masses but one,
    /// as `MattSimulator::others` computed them from the two sums for the one
    /// mass `own_mass` at `position`: `own_mass` taken from the denominator
    /// gives `rest`, and `position` scaled by `own_mass`, taken from the
    /// numerator and shrunk by `rest`, gives `cm`.
    pub open spec fn others_yields(
        numerator: Point<S>,
        denominator: S,
        position: Point<S>,
        own_mass: S,
        cm: Point<S>,
        rest: S,
    ) -> bool {
        &&& minus_yields(denominator, own_mass, rest)
        &&& exists|own: Point<S>, others: Point<S>|
            position.scale_yields(own_mass, own) && numerator.minus_yields(own, others)
                && others.shrink_yields(rest, cm)
    }

    /// `dv` is the change of velocity that `MattSimulator::tug` computed for
    /// the mass `own_mass` at `position`, pulled by the mass `rest` at `cm`: the
    /// vector from `position` to `cm`, scaled by the pull over `own_mass`, where
    /// the pull is `own_mass * rest` over the squared distance between the two.
    pub open spec fn tug_yields(
        position: Point<S>,
        own_mass: S,
        cm: Point<S>,
        rest: S,
        dv: Point<S>,
    ) -> bool {
        exists|force: S, toward: Point<S>, k: S|
            {
                &&& MattSimulator::force_yields(position, own_mass, cm, rest, force)
                &&& cm.minus_yields(position, toward)
                &&& over_yields(force, own_mass, k)
                &&& toward.scale_yields(k, dv)
            }
    }

    /// `force` is the size of the pull between the mass `own_mass` at
    /// `position` and the mass `rest` at `cm`, as `MattSimulator::force`
    /// computed it: the product of the masses over the squared distance.
    pub open spec fn force_yields(
        position: Point<S>,
        own_mass: S,
        cm: Point<S>,
        rest: S,
        force: S,
    ) -> bool {
        exists|away: Point<S>, dd: S, mm: S|
            {
                &&& position.minus_yields(cm, away)
                &&& away.magnitude_squared_yields(dd)
                &&& times_yields(own_mass, rest, mm)
                &&& over_yields(mm, dd, force)
            }
    }

    /// `r` is what a tick of the clock made of the mass `m`, the two sums being
    /// `numerator` and `denominator`.
    ///
    /// The mass first moves on by its velocity. From where it then is, the
    /// centre and the mass of all the others are computed, and the velocity
    /// takes up what their tug adds to it.
    pub open spec fn pull_yields(m: Mass<S>, numerator: Point<S>, denominator: S, r: Mass<S>) -> bool {
        &&& r.mass == m.mass
        &&& m.position.add_yields(m.velocity, r.position)
        &&& exists|cm: Point<S>, rest: S, dv: Point<S>|
            {
                &&& MattSimulator::others_yields(
                    numerator,
                    denominator,
                    r.position,
                    m.mass,
                    cm,
                    rest,
                )
                &&& MattSimulator::tug_yields(r.position, m.mass, cm, rest, dv)
                &&& m.velocity.add_yields(dv, r.velocity)
            }
    }

    /// `after` is what a tick of the clock made of `before`: each mass was
    /// pulled, against the same two sums.
    pub open spec fn step_yields(
        before: Seq<Mass<S>>,
        numerator: Point<S>,
        denominator: S,
        after: Seq<Mass<S>>,
    ) -> bool {
        &&& after.len() == before.len()
        &&& forall|i: int|
            0 <= i < before.len() ==> MattSimulator::pull_yields(
                #[trigger] before[i],
                numerator,
                denominator,
                after[i],
            )
    }

    /// The simulation of `masses`, with the two sums taken over them.
    pub fn new(masses: Vec<Mass<S>>) -> (r: MattSimulator<S>)
        ensures
            r.masses == masses,
            MattSimulator::sums_yield(masses@, r.cm_numerator, r.cm_denominator),
    {
        let mut cm_numerator = Point::zero();
        let mut cm_denominator = S::from_int(0);
        let mut i: usize = 0;
        while i < masses.len()
            invariant
                i <= masses.len(),
                MattSimulator::sums_yield(masses@.take(i as int), cm_numerator, cm_denominator),
            decreases masses.len() - i,
        {
            let ghost n = cm_numerator;
            let ghost d = cm_denominator;
            let m = masses[i];
            let moment = m.position.scale(m.mass);
            cm_numerator = cm_numerator.add(moment);
            cm_denominator = cm_denominator.plus(m.mass);
            i += 1;
            proof {
                let now = masses@.take(i as int);
                assert(now.drop_last() == masses@.take(i - 1));
                assert(MattSimulator::sums_yield(now.drop_last(), n, d)
                    && MattSimulator::count_in_yields(
                    n,
                    d,
                    now.last(),
                    cm_numerator,
                    cm_denominator,
                ));
            }
        }
        assert(masses@.take(i as int) == masses@);
        MattSimulator { masses, cm_numerator, cm_denominator }
    }

    /// The centre and the mass of all the masses but the one of mass
    /// `own_mass` at `position`.
    pub fn others(numerator: Point<S>, denominator: S, position: Point<S>, own_mass: S) -> (r: (
        Point<S>,
        S,
    ))
        ensures
            MattSimulator::others_yields(numerator, denominator, position, own_mass, r.0, r.1),
    {
        let own = position.scale(own_mass);
        let others = numerator.minus(own);
        let rest = denominator.minus(own_mass);
        let cm = others.shrink(rest);
        (cm, rest)
    }

    /// The size of the pull between the mass `own_mass` at `position` and the
    /// mass `rest` at `cm`.
    pub fn force(position: Point<S>, own_mass: S, cm: Point<S>, rest: S) -> (r: S)
        ensures
            MattSimulator::force_yields(position, own_mass, cm, rest, r),
    {
        let away = position.minus(cm);
        let dd = away.magnitude_squared();
        let mm = own_mass.times(rest);
        let r = mm.over(dd);
        assert(position.minus_yields(cm, away) && away.magnitude_squared_yields(dd) && times_yields(
            own_mass,
            rest,
            mm,
        ) && over_yields(mm, dd, r));
        r
    }

    /// What the pull of the mass `rest` at `cm` adds to the velocity of the
    /// mass `own_mass` at `position`.
    pub fn tug(position: Point<S>, own_mass: S, cm: Point<S>, rest: S) -> (r: Point<S>)
        ensures
            MattSimulator::tug_yields(position, own_mass, cm, rest, r),
    {
        let force = MattSimulator::force(position, own_mass, cm, rest);
        let toward = cm.minus(position);
        let k = force.over(own_mass);
        let r = toward.scale(k);
        assert(MattSimulator::force_yields(position, own_mass, cm, rest, force)
            && cm.minus_yields(position, toward) && over_yields(force, own_mass, k)
            && toward.scale_yields(k, r));
        r
    }

    /// One tick of the clock for the mass `m`, pulled by all the other masses
    /// as the two sums describe them.
    pub fn pull(m: Mass<S>, numerator: Point<S>, denominator: S) -> (r: Mass<S>)
        ensures
            MattSimulator::pull_yields(m, numerator, denominator, r),
    {
        let position = m.position.add(m.velocity);
        let (cm, rest) = MattSimulator::others(numerator, denominator, position, m.mass);
        let dv = MattSimulator::tug(position, m.mass, cm, rest);
        let velocity = m.velocity.add(dv);
        let r = Mass { position, velocity, mass: m.mass };
        assert(MattSimulator::others_yields(numerator, denominator, r.position, m.mass, cm, rest)
            && MattSimulator::tug_yields(r.position, m.mass, cm, rest, dv)
            && m.velocity.add_yields(dv, r.velocity));
        r
    }
}

impl<S: Scalar + core::fmt::Debug + Send + Sync> Simulator<S> for MattSimulator<S> {
    open spec fn masses(&self) -> Seq<Mass<S>> {
        self.masses@
    }

    fn step(&mut self)
        ensures
            MattSimulator::step_yields(
                old(self).masses@,
                old(self).cm_numerator,
                old(self).cm_denominator,
                final(self).masses@,
            ),
            final(self).cm_numerator == old(self).cm_numerator,
            final(self).cm_denominator == old(self).cm_denominator,
    {
        let mut moved: Vec<Mass<S>> = Vec::new();
        let mut i: usize = 0;
        while i < self.masses.len()
            invariant
                i <= self.masses.len(),
                moved.len() == i,
                forall|j: int|
                    0 <= j < i ==> MattSimulator::pull_yields(
                        #[trigger] self.masses[j],
                        self.cm_numerator,
                        self.cm_denominator,
                        moved[j],
                    ),
            decreases self.masses.len() - i,
        {
            let m = MattSimulator::pull(self.masses[i], self.cm_numerator, self.cm_denominator);
            moved.push(m);
            i += 1;
        }
        assert(weights(moved@) =~= weights(self.masses@));
        self.masses = moved;
    }

    fn mass_iter(&self) -> (r: Vec<Mass<S>>) {
        self.masses.clone()
    }
}

impl MattFactory {
    /// What the simulation is called.
    pub fn name(&self) -> (r: String)
        ensures
            r@ == "Matt's Simulator"@,
    {
        "Matt's Simulator".to_owned()
    }
}

impl<S: Scalar + core::fmt::Debug + Send + Sync> SimFactory<S> for MattFactory {
    type Simulation = MattSimulator<S>;

    open spec fn title(&self) -> Seq<char> {
        "Matt's Simulator"@
    }

    fn new<R: Source<S>>(&self, count: usize, source: &mut R) -> (r: MattSimulator<S>)
        ensures
            MattSimulator::sums_yield(r.masses@, r.cm_numerator, r.cm_denominator),
    {
        MattSimulator::new(random_masses(count, source))
    }

    fn name(&self) -> (r: String) {
        MattFactory::name(self)
    }
}

} // verus!
