//! The arithmetic that the simulation is written against.
//!
//! Every quantity of the simulation (a coordinate, a speed, a mass) is a value of
//! one scalar type, and the library touches such a value only through the
//! operations of [`Scalar`]. Nothing is assumed of these operations: not that
//! they are exact, not that they obey the laws of a field, not even that asking
//! twice gives the same answer. A contract therefore never says what a result
//! *is*; it says which operations, applied to which operands, produced it. The
//! predicates of this module are the vocabulary for that: `plus_yields(a, b, r)`
//! reads "`r` is what `a.plus(b)` returned".

use vstd::prelude::*;

verus! {

/// A number the simulation can compute with.
pub trait Scalar: Copy {
    /// The scalar that stands for the whole number `n`.
    fn from_int(n: i32) -> Self;

    /// `self + that`.
    fn plus(self, that: Self) -> Self;

    /// `self - that`.
    fn minus(self, that: Self) -> Self;

    /// `self * that`.
    fn times(self, that: Self) -> Self;

    /// `self / that`.
    fn over(self, that: Self) -> Self;

    /// The square root of `self`.
    fn root(self) -> Self;

    /// Whether `self` is strictly greater than `that`.
    fn exceeds(self, that: Self) -> bool;
}

/// A supply of scalars that the library has no say over, such as a random
/// number generator.
pub trait Source<S> {
    /// The next scalar of the supply.
    fn draw(&mut self) -> S;
}

/// `r` is what `S::from_int(n)` returned.
pub open spec fn from_int_yields<S: Scalar>(n: int, r: S) -> bool
    recommends
        i32::MIN <= n <= i32::MAX,
{
    call_ensures(S::from_int, (n as i32,), r)
}

/// `r` is what `a.plus(b)` returned.
pub open spec fn plus_yields<S: Scalar>(a: S, b: S, r: S) -> bool {
    call_ensures(S::plus, (a, b), r)
}

/// `r` is what `a.minus(b)` returned.
pub open spec fn minus_yields<S: Scalar>(a: S, b: S, r: S) -> bool {
    call_ensures(S::minus, (a, b), r)
}

/// `r` is what `a.times(b)` returned.
pub open spec fn times_yields<S: Scalar>(a: S, b: S, r: S) -> bool {
    call_ensures(S::times, (a, b), r)
}

/// `r` is what `a.over(b)` returned.
pub open spec fn over_yields<S: Scalar>(a: S, b: S, r: S) -> bool {
    call_ensures(S::over, (a, b), r)
}

/// `r` is what `a.root()` returned.
pub open spec fn root_yields<S: Scalar>(a: S, r: S) -> bool {
    call_ensures(S::root, (a,), r)
}

/// `r` is what `a.exceeds(b)` returned.
pub open spec fn exceeds_yields<S: Scalar>(a: S, b: S, r: bool) -> bool {
    call_ensures(S::exceeds, (a, b), r)
}

/// `r` is what dividing one by `a` returned: `S::from_int(1).over(a)`.
pub open spec fn reciprocal_yields<S: Scalar>(a: S, r: S) -> bool {
    exists|one: S| from_int_yields(1, one) && over_yields(one, a, r)
}

/// One over `a`.
pub fn reciprocal<S: Scalar>(a: S) -> (r: S)
    ensures
        reciprocal_yields(a, r),
{
    let one = S::from_int(1);
    let r = one.over(a);
    assert(from_int_yields(1, one) && over_yields(one, a, r));
    r
}

/// `r` says whether `a` was found to be positive: `a.exceeds(S::from_int(0))`.
pub open spec fn is_positive_yields<S: Scalar>(a: S, r: bool) -> bool {
    exists|zero: S| from_int_yields(0, zero) && exceeds_yields(a, zero, r)
}

/// Whether `a` is strictly greater than zero.
pub fn is_positive<S: Scalar>(a: S) -> (r: bool)
    ensures
        is_positive_yields(a, r),
{
    let zero = S::from_int(0);
    let r = a.exceeds(zero);
    assert(from_int_yields(0, zero) && exceeds_yields(a, zero, r));
    r
}

} // verus!
