use rand::Rng;
use space::joe::{JoeFactory, JoeSimulator};
use space::matt::{MattFactory, MattSimulator};
use space::no_gravity::{NoGravityFactory, NoGravitySimulator};
use space::point::Point;
use space::scalar::{Scalar, Source};
use space::select::{factory_for, select_factory, Choice};
use space::tree::Tree;
use space::{random_masses, Mass, SimFactory, Simulator};

/// Double-precision floating point as the scalar of the simulation.
#[derive(Debug, Clone, Copy, PartialEq, PartialOrd)]
struct Real(f64);

impl Scalar for Real {
    fn from_int(n: i32) -> Self {
        Real(f64::from(n))
    }

    fn plus(self, that: Self) -> Self {
        Real(self.0 + that.0)
    }

    fn minus(self, that: Self) -> Self {
        Real(self.0 - that.0)
    }

    fn times(self, that: Self) -> Self {
        Real(self.0 * that.0)
    }

    fn over(self, that: Self) -> Self {
        Real(self.0 / that.0)
    }

    fn root(self) -> Self {
        Real(self.0.sqrt())
    }

    fn exceeds(self, that: Self) -> bool {
        self.0 > that.0
    }
}

/// Draws from the unit interval, by the thread's random number generator.
struct Dice;

impl Source<Real> for Dice {
    fn draw(&mut self) -> Real {
        Real(rand::thread_rng().gen::<f64>())
    }
}

/// Hands out the scalars of a list, one by one.
struct Script(Vec<f64>);

impl Source<Real> for Script {
    fn draw(&mut self) -> Real {
        Real(self.0.remove(0))
    }
}

const ZERO: Point<Real> = Point(Real(0.0), Real(0.0));

fn pt(x: f64, y: f64) -> Point<Real> {
    Point(Real(x), Real(y))
}

fn at(x: f64, y: f64, mass: f64) -> Mass<Real> {
    Mass { position: pt(x, y), velocity: ZERO, mass: Real(mass) }
}

fn sorted_weights(masses: &[Mass<Real>]) -> Vec<f64> {
    let mut weights: Vec<f64> = masses.iter().map(|m| m.mass.0).collect();
    weights.sort_by(|a, b| a.partial_cmp(b).unwrap());
    weights
}

fn args(words: &[&str]) -> Vec<String> {
    words.iter().map(|w| w.to_string()).collect()
}

#[test]
fn test_velocity() {
    let test_mass = Mass { position: ZERO, velocity: pt(1.0, 1.0), mass: Real(1.0) };
    let mut sim = MattSimulator {
        masses: vec![test_mass],
        cm_numerator: test_mass.position * test_mass.mass,
        cm_denominator: test_mass.mass,
    };

    sim.step();
    assert!((sim.masses[0].position - pt(1.0, 1.0)).magnitude_squared() < Point::<Real>::epsilon());
    assert!(sim.masses[0].position == pt(1.0, 1.0));
}

#[test]
fn test_gravity_vector() {
    // two masses, on either side of the coordinate origin
    let test_mass1 = Mass { position: pt(-1.0, 0.0), velocity: ZERO, mass: Real(1.0) };
    let test_mass2 = Mass { position: pt(1.0, 0.0), ..test_mass1 };
    let mut sim = MattSimulator {
        masses: vec![test_mass1, test_mass2],
        cm_numerator: (test_mass1.position * test_mass1.mass)
            + (test_mass2.position * test_mass2.mass),
        cm_denominator: test_mass1.mass.plus(test_mass2.mass),
    };

    sim.step();

    // masses should be moving towards each other
    assert!(sim.masses[0].velocity.0 .0 > 0.0);
    assert!(sim.masses[0].velocity.1 .0 == 0.0);
    assert!(sim.masses[1].velocity.0 .0 < 0.0);
    assert!(sim.masses[1].velocity.1 .0 == 0.0);

    // travel should be along the axis
    assert!(sim.masses[0].position.1 .0 == 0.0);
    assert!(sim.masses[1].position.1 .0 == 0.0);

    sim.step();

    // travel should be along the axis
    assert!(sim.masses[0].position.1 .0 == 0.0);
    assert!(sim.masses[1].position.1 .0 == 0.0);
}

#[test]
fn the_mean_field_pulls_towards_the_other_masses() {
    let mut sim = MattSimulator::new(vec![at(-1.0, 0.0, 1.0), at(1.0, 0.0, 1.0)]);
    assert_eq!(sim.cm_numerator, pt(0.0, 0.0));
    assert_eq!(sim.cm_denominator, Real(2.0));
    sim.step();
    assert_eq!(sim.masses[0].velocity, pt(0.5, 0.0));
    assert_eq!(sim.masses[1].velocity, pt(-0.5, 0.0));
    assert_eq!(sim.masses[0].position, pt(-1.0, 0.0));
    assert_eq!(sim.masses[1].position, pt(1.0, 0.0));
    sim.step();
    assert_eq!(sim.masses[0].position, pt(-0.5, 0.0));
    assert_eq!(sim.masses[1].position, pt(0.5, 0.0));
    assert_eq!(sim.cm_numerator, pt(0.0, 0.0));
    assert_eq!(sim.cm_denominator, Real(2.0));
}

#[test]
fn the_mean_field_sums_are_taken_over_all_masses() {
    let sim = MattSimulator::new(vec![at(1.0, 2.0, 2.0), at(-3.0, 0.5, 4.0), at(0.0, 1.0, 0.5)]);
    assert_eq!(sim.cm_numerator, pt(-10.0, 6.5));
    assert_eq!(sim.cm_denominator, Real(6.5));
    assert_eq!(sim.masses, vec![at(1.0, 2.0, 2.0), at(-3.0, 0.5, 4.0), at(0.0, 1.0, 0.5)]);
    let none = MattSimulator::<Real>::new(vec![]);
    assert_eq!(none.cm_numerator, ZERO);
    assert_eq!(none.cm_denominator, Real(0.0));
}

#[test]
fn the_parts_of_the_mean_field_pull() {
    let (cm, rest) = MattSimulator::others(pt(-10.0, 6.5), Real(6.5), pt(1.0, 2.0), Real(2.0));
    assert_eq!(rest, Real(4.5));
    assert_eq!(cm, pt(-12.0 * (1.0 / 4.5), 2.5 * (1.0 / 4.5)));
    assert_eq!(MattSimulator::force(pt(0.0, 0.0), Real(2.0), pt(0.0, 4.0), Real(8.0)), Real(1.0));
    assert_eq!(MattSimulator::tug(pt(0.0, 0.0), Real(2.0), pt(0.0, 4.0), Real(8.0)), pt(0.0, 2.0));
    let pulled = MattSimulator::pull(at(-1.0, 0.0, 1.0), pt(0.0, 0.0), Real(2.0));
    assert_eq!(pulled, Mass { position: pt(-1.0, 0.0), velocity: pt(0.5, 0.0), mass: Real(1.0) });
}

#[test]
fn without_gravity_a_mass_keeps_its_velocity() {
    let moving = Mass { position: pt(1.0, 2.0), velocity: pt(0.5, -1.0), mass: Real(3.0) };
    let mut sim = NoGravitySimulator::new(vec![moving, at(4.0, 4.0, 1.0)]);
    sim.step();
    sim.step();
    let expected = Mass { position: pt(2.0, 0.0), velocity: pt(0.5, -1.0), mass: Real(3.0) };
    assert_eq!(sim.mass_iter(), vec![expected, at(4.0, 4.0, 1.0)]);
}

#[test]
fn two_clusters_push_each_other_along_the_axis() {
    let mut sim = JoeSimulator::new(vec![at(-1.0, 0.0, 1.0), at(1.0, 0.0, 1.0)]);
    sim.step();
    let after = sim.mass_iter();
    assert_eq!(after[0], Mass { position: pt(-1.5, 0.0), velocity: pt(-0.5, 0.0), mass: Real(1.0) });
    assert_eq!(after[1], Mass { position: pt(1.5, 0.0), velocity: pt(0.5, 0.0), mass: Real(1.0) });
}

#[test]
fn a_step_by_clusters_is_build_update_and_take_apart() {
    let masses = vec![at(0.0, 0.0, 1.0), at(4.0, 0.0, 2.0), at(1.0, 3.0, 0.5), at(-2.0, 1.0, 1.5)];
    let mut sim = JoeSimulator::new(masses.clone());
    assert_eq!(sim.tree(), Tree::build(&masses));
    sim.step();
    let mut tree = Tree::build(&masses).unwrap();
    tree.update_with(ZERO);
    assert_eq!(sim.mass_iter(), tree.masses());
    assert_eq!(sim.masses, tree.masses());
}

#[test]
fn a_simulation_of_nothing_steps_to_nothing() {
    let mut joe = JoeSimulator::<Real>::new(vec![]);
    assert_eq!(joe.tree(), None);
    joe.step();
    assert_eq!(joe.mass_iter(), vec![]);
    let mut matt = MattSimulator::<Real>::new(vec![]);
    matt.step();
    assert_eq!(matt.mass_iter(), vec![]);
    let mut still = NoGravitySimulator::<Real>::new(vec![]);
    still.step();
    assert_eq!(still.mass_iter(), vec![]);
}

#[test]
fn a_single_mass_coasts_in_the_simulation_by_clusters() {
    let moving = Mass { position: pt(1.0, 2.0), velocity: pt(0.5, -1.0), mass: Real(3.0) };
    let mut sim = JoeSimulator::new(vec![moving]);
    sim.step();
    assert_eq!(sim.mass_iter(), vec![moving.coast()]);
}

#[test]
fn every_simulation_keeps_its_masses_as_heavy_as_they_were() {
    let masses = random_masses(30, &mut Dice);
    let weights = sorted_weights(&masses);
    let mut sims: Vec<Box<dyn Simulator<Real>>> = vec![
        Box::new(JoeSimulator::new(masses.clone())),
        Box::new(MattSimulator::new(masses.clone())),
        Box::new(NoGravitySimulator::new(masses)),
    ];
    for sim in sims.iter_mut() {
        for _ in 0..10 {
            sim.step();
            let now = sim.mass_iter();
            assert_eq!(now.len(), 30);
            assert_eq!(sorted_weights(&now), weights);
        }
    }
}

#[test]
fn the_factories_are_called_by_their_makers() {
    assert_eq!(JoeFactory.name(), "Joe's Simulator");
    assert_eq!(MattFactory.name(), "Matt's Simulator");
    assert_eq!(NoGravityFactory.name(), "No Gravity Simulator");
    assert_eq!(SimFactory::<Real>::name(&JoeFactory), "Joe's Simulator");
    assert_eq!(SimFactory::<Real>::name(&MattFactory), "Matt's Simulator");
    assert_eq!(SimFactory::<Real>::name(&NoGravityFactory), "No Gravity Simulator");
}

#[test]
fn a_factory_makes_as_many_masses_as_asked_for() {
    for count in [0, 1, 2, 10] {
        assert_eq!(JoeFactory.new(count, &mut Dice).mass_iter().len(), count);
        assert_eq!(MattFactory.new(count, &mut Dice).mass_iter().len(), count);
        assert_eq!(NoGravityFactory.new(count, &mut Dice).mass_iter().len(), count);
    }
}

#[test]
fn a_factory_takes_five_draws_for_each_mass() {
    let draws = vec![0.75, 0.25, 0.5, 1.0, 0.5, 0.0, 0.5, 0.125, 0.875, 0.25, 0.0625];
    let first = Mass { position: pt(0.25, -0.25), velocity: pt(0.0, 0.5), mass: Real(0.5 / 1000.0) };
    let second =
        Mass { position: pt(-0.5, 0.0), velocity: pt(-0.375, 0.375), mass: Real(0.25 / 1000.0) };

    let mut script = Script(draws.clone());
    assert_eq!(JoeFactory.new(2, &mut script).masses, vec![first, second]);
    assert_eq!(script.0, vec![0.0625]);

    let mut script = Script(draws.clone());
    assert_eq!(NoGravityFactory.new(2, &mut script).masses, vec![first, second]);

    let mut script = Script(draws.clone());
    let matt = MattFactory.new(2, &mut script);
    assert_eq!(matt.masses, vec![first, second]);
    let weight = 0.0 + 0.5 / 1000.0 + 0.25 / 1000.0;
    assert_eq!(matt.cm_denominator, Real(weight));
    let x = 0.0 + 0.25 * (0.5 / 1000.0) + -0.5 * (0.25 / 1000.0);
    let y = 0.0 + -0.25 * (0.5 / 1000.0) + 0.0 * (0.25 / 1000.0);
    assert_eq!(matt.cm_numerator, pt(x, y));

    let mut script = Script(draws);
    assert_eq!(Mass::new_random(&mut script), first);
}

#[test]
fn a_mass_is_a_thousandth_of_its_draw() {
    let m = Mass::from_draws(pt(1.0, 2.0), pt(3.0, 4.0), Real(0.5));
    assert_eq!(m, Mass { position: pt(1.0, 2.0), velocity: pt(3.0, 4.0), mass: Real(0.0005) });
}

#[test]
fn random_masses_are_light_and_near_the_origin() {
    let masses = random_masses(200, &mut Dice);
    assert_eq!(masses.len(), 200);
    for m in masses.iter() {
        for c in [m.position.0, m.position.1, m.velocity.0, m.velocity.1] {
            assert!(-0.5 <= c.0 && c.0 < 0.5);
        }
        assert!(0.0 <= m.mass.0 && m.mass.0 < 0.001);
    }
    assert_ne!(masses[0], masses[1]);
}

#[test]
fn the_number_picks_the_simulation() {
    assert_eq!(factory_for(Some(1)), Choice::Joe);
    assert_eq!(factory_for(Some(2)), Choice::Matt);
    assert_eq!(factory_for(Some(3)), Choice::NoGravity);
    assert_eq!(factory_for(Some(0)), Choice::Matt);
    assert_eq!(factory_for(Some(4)), Choice::Matt);
    assert_eq!(factory_for(Some(-1)), Choice::Matt);
    assert_eq!(factory_for(Some(i32::MAX)), Choice::Matt);
    assert_eq!(factory_for(None), Choice::Matt);
}

#[test]
fn one_argument_picks_the_simulation() {
    assert_eq!(select_factory(&args(&["space", "1"])), Choice::Joe);
    assert_eq!(select_factory(&args(&["space", "2"])), Choice::Matt);
    assert_eq!(select_factory(&args(&["space", "3"])), Choice::NoGravity);
    assert_eq!(select_factory(&args(&["space", "+3"])), Choice::NoGravity);
    assert_eq!(select_factory(&args(&["space", "001"])), Choice::Joe);
}

#[test]
fn anything_else_picks_the_default() {
    assert_eq!(select_factory(&args(&[])), Choice::Matt);
    assert_eq!(select_factory(&args(&["space"])), Choice::Matt);
    assert_eq!(select_factory(&args(&["space", "1", "3"])), Choice::Matt);
    assert_eq!(select_factory(&args(&["space", "3", "1"])), Choice::Matt);
    assert_eq!(select_factory(&args(&["space", "0"])), Choice::Matt);
    assert_eq!(select_factory(&args(&["space", "4"])), Choice::Matt);
    assert_eq!(select_factory(&args(&["space", "-1"])), Choice::Matt);
    assert_eq!(select_factory(&args(&["space", "joe"])), Choice::Matt);
    assert_eq!(select_factory(&args(&["space", ""])), Choice::Matt);
    assert_eq!(select_factory(&args(&["space", " 1"])), Choice::Matt);
    assert_eq!(select_factory(&args(&["space", "1.0"])), Choice::Matt);
    assert_eq!(select_factory(&args(&["space", "99999999999"])), Choice::Matt);
    assert_eq!(select_factory(&args(&["1", "space"])), Choice::Matt);
}

#[test]
fn a_step_is_the_same_each_time() {
    let masses = random_masses(20, &mut Dice);
    let (mut first, mut second) = (JoeSimulator::new(masses.clone()), JoeSimulator::new(masses));
    for _ in 0..5 {
        first.step();
        second.step();
        assert_eq!(first.mass_iter(), second.mass_iter());
    }
}

#[test]
fn after_a_step_the_masses_come_in_the_order_of_the_leaves() {
    let masses = vec![at(0.0, 0.0, 1.0), at(10.0, 0.0, 2.0), at(1.0, 0.0, 3.0)];
    let mut sim = JoeSimulator::new(masses);
    sim.step();
    let after = sim.mass_iter();
    let tags: Vec<f64> = after.iter().map(|m| m.mass.0).collect();
    assert_eq!(tags, vec![1.0, 3.0, 2.0]);
}
