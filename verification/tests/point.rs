use rand::Rng;
use space::point::Point;
use space::scalar::{Scalar, Source};

/// Double-precision floating point as the scalar of the simulation.
#[derive(Debug, Clone, Copy, PartialEq, PartialOrd)]
struct Real(f64);

impl Scalar for Real {
    fn from_int(n: i32) -> Self {
        Real(f64::from(n))
    }

    fn plus(self, that: Self) -> Self {
        Real(self.0 + that.0)
    }

    fn minus(self, that: Self) -> Self {
        Real(self.0 - that.0)
    }

    fn times(self, that: Self) -> Self {
        Real(self.0 * that.0)
    }

    fn over(self, that: Self) -> Self {
        Real(self.0 / that.0)
    }

    fn root(self) -> Self {
        Real(self.0.sqrt())
    }

    fn exceeds(self, that: Self) -> bool {
        self.0 > that.0
    }
}

/// Draws from the unit interval, by the thread's random number generator.
struct Dice;

impl Source<Real> for Dice {
    fn draw(&mut self) -> Real {
        Real(rand::thread_rng().gen::<f64>())
    }
}

/// Hands out the scalars of a list, one by one.
struct Script(Vec<f64>);

impl Source<Real> for Script {
    fn draw(&mut self) -> Real {
        Real(self.0.remove(0))
    }
}

fn pt(x: f64, y: f64) -> Point<Real> {
    Point(Real(x), Real(y))
}

fn epsilon() -> f64 {
    Point::<Real>::epsilon().0
}

fn assert_delta(x: f64, y: f64, d: f64) {
    if !((x - y).abs() < d) {
        panic!();
    }
}

fn assert_def(x: f64, y: f64) {
    assert_delta(x, y, epsilon())
}

#[test]
fn test_scale() {
    assert!(pt(1.0, 1.0).scale(Real(2.0)) == pt(2.0, 2.0));
    assert!(pt(1.0, 1.0).scale(Real(-3.0)) == pt(-3.0, -3.0));
    assert!(pt(1.0, 2.0).scale(Real(-3.0)) == pt(-3.0, -6.0));
    assert!(pt(1.0, 2.0).scale(Real(0.5)) == pt(0.5, 1.0));
}

#[test]
fn test_add() {
    assert!(pt(4.0, 5.0).add(pt(1.0, 2.0)) == pt(5.0, 7.0));
}

#[test]
fn test_minus() {
    assert!(pt(4.0, 5.0).minus(pt(1.0, 2.0)) == pt(3.0, 3.0));
}

#[test]
fn test_inverse() {
    assert!(pt(1.0, 2.0).inverse() == pt(-1.0, -2.0));
}

#[test]
fn test_magnitude_squared() {
    assert!(pt(3.0, 4.0).magnitude_squared() == Real(25.0));
}

#[test]
fn test_magnitude() {
    assert!(pt(3.0, 4.0).magnitude() == Real(5.0));
}

#[test]
fn test_unit_vector() {
    assert!((Point::new_random(&mut Dice).unit_vector().magnitude().0 - 1.0) < epsilon());
}

#[test]
fn test_random() {
    assert!(Point::new_random(&mut Dice) != Point::new_random(&mut Dice));
}

#[test]
fn test_add2() {
    let one = pt(1.0, 1.0);
    let zero = pt(0.0, 0.0);
    assert_eq!(one, one.add(zero));
    assert_eq!(one, one.add(one).minus(one));
}

#[test]
fn test_magnitude2() {
    let one = pt(1.0, 1.0);
    assert_def(2.0, one.magnitude_squared().0);
    assert_def(2.0, one.magnitude().0 * one.magnitude().0);
}

#[test]
fn test_unit_vector2() {
    let one = pt(2.0, 2.0);
    assert_def(1.0, one.unit_vector().magnitude().0);
    assert_def(one.unit_vector().0 .0, one.unit_vector().1 .0)
}

#[test]
fn test_traits() {
    let two = pt(2.0, 2.0);
    let one = pt(1.0, 1.0);
    let zero = pt(0.0, 0.0);

    // operator +=
    let mut result = zero;
    result += one;
    assert_eq!(result, one);
    result += one;
    assert_eq!(result, two);

    // operator +
    assert_eq!(one, one + zero);
    assert_eq!(two, one + one);
    assert!(pt(4.0, 5.0) + pt(1.0, 2.0) == pt(5.0, 7.0));

    // operator -=
    result = two;
    result -= one;
    assert_eq!(result, one);
    result -= one;
    assert_eq!(result, zero);

    // operator -
    assert_eq!(zero, one - one);
    assert_eq!(one, one - zero);
    assert_eq!(one, two - one);
    assert!(pt(4.0, 5.0) - pt(1.0, 2.0) == pt(3.0, 3.0));

    // operator *=
    result = one;
    result *= Real(2.0);
    assert_eq!(result, two);

    // operator *
    assert_eq!(two, one * Real(2.0));
    assert_eq!(zero, one * Real(0.0));
}

#[test]
fn division_operators_scale_by_the_reciprocal() {
    let mut p = pt(3.0, -6.0);
    assert_eq!(p / Real(2.0), pt(1.5, -3.0));
    p /= Real(4.0);
    assert_eq!(p, pt(0.75, -1.5));
    assert_eq!(pt(3.0, -6.0).shrink(Real(2.0)), pt(1.5, -3.0));
}

#[test]
fn zero_is_the_origin() {
    assert_eq!(Point::<Real>::zero(), pt(0.0, 0.0));
    assert_eq!(Point::<Real>::zero().magnitude_squared(), Real(0.0));
}

#[test]
fn epsilon_is_a_ten_millionth() {
    assert_eq!(epsilon(), 0.0000001);
}

#[test]
fn inverse_of_the_origin_compares_equal_to_it() {
    assert_eq!(pt(0.0, 0.0).inverse(), pt(0.0, 0.0));
    assert_eq!(pt(0.0, 0.0).minus(pt(0.0, 0.0)), pt(0.0, 0.0));
}

#[test]
fn unit_vector_of_no_length_is_not_a_number() {
    let u = pt(0.0, 0.0).unit_vector();
    assert!(u.0 .0.is_nan());
    assert!(u.1 .0.is_nan());
}

#[test]
fn unit_vector_keeps_the_direction() {
    assert_eq!(pt(3.0, 4.0).unit_vector(), pt(3.0 * (1.0 / 5.0), 4.0 * (1.0 / 5.0)));
    assert_eq!(pt(0.0, -2.0).unit_vector(), pt(0.0, -1.0));
}

#[test]
fn weighted_mean_is_the_centre_of_mass() {
    let c = Point::weighted_mean(pt(0.0, 0.0), Real(1.0), pt(4.0, 8.0), Real(3.0), Real(4.0));
    assert_eq!(c, pt(3.0, 6.0));
}

#[test]
fn from_draws_moves_the_unit_square_around_the_origin() {
    assert_eq!(Point::from_draws(Real(0.0), Real(1.0)), pt(-0.5, 0.5));
    assert_eq!(Point::from_draws(Real(0.5), Real(0.25)), pt(0.0, -0.25));
}

#[test]
fn new_random_takes_x_first() {
    let mut script = Script(vec![0.75, 0.25, 1.0]);
    assert_eq!(Point::new_random(&mut script), pt(0.25, -0.25));
    assert_eq!(script.0, vec![1.0]);
}

#[test]
fn new_random_lies_in_the_centred_unit_square() {
    for _ in 0..100 {
        let p = Point::new_random(&mut Dice);
        assert!(-0.5 <= p.0 .0 && p.0 .0 < 0.5);
        assert!(-0.5 <= p.1 .0 && p.1 .0 < 0.5);
    }
}
