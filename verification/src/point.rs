//! Two-dimensional vectors over a [`Scalar`].

use crate::scalar::{
    from_int_yields, minus_yields, over_yields, plus_yields, reciprocal, reciprocal_yields,
    root_yields, times_yields, Scalar, Source,
};
use vstd::prelude::*;
use vstd::std_specs::ops::{AddSpecImpl, DivSpecImpl, MulSpecImpl, SubSpecImpl};

verus! {

/// A vector, or a position, in the plane: its `x` and its `y` component.
///
/// A point is a value: no operation changes the point it is called on.
#[derive(Debug, PartialEq)]
pub struct Point<S>(pub S, pub S);

impl<S: Copy> Clone for Point<S> {
    fn clone(&self) -> (r: Self)
        ensures
            r == *self,
    {
        *self
    }
}

impl<S: Copy> Copy for Point<S> {

}

impl<S: Scalar> Point<S> {
    /// `r` is what [`Point::zero`] returned: both components stand for 0.
    pub open spec fn zero_yields(r: Point<S>) -> bool {
        from_int_yields(0, r.0) && from_int_yields(0, r.1)
    }

    /// `r` is what [`Point::epsilon`] returned: one over ten million.
    pub open spec fn epsilon_yields(r: S) -> bool {
        exists|one: S, many: S|
            from_int_yields(1, one) && from_int_yields(10_000_000, many) && over_yields(
                one,
                many,
                r,
            )
    }

    /// `r` is what `self.scale(s)` returned: each component times `s`.
    pub open spec fn scale_yields(self, s: S, r: Point<S>) -> bool {
        times_yields(self.0, s, r.0) && times_yields(self.1, s, r.1)
    }

    /// `r` is what `self.add(that)` returned: the sums of the components.
    pub open spec fn add_yields(self, that: Point<S>, r: Point<S>) -> bool {
        plus_yields(self.0, that.0, r.0) && plus_yields(self.1, that.1, r.1)
    }

    /// `r` is what `self.inverse()` returned: `self` scaled by what stands for -1.
    pub open spec fn inverse_yields(self, r: Point<S>) -> bool {
        exists|k: S| from_int_yields(-1, k) && self.scale_yields(k, r)
    }

    /// `r` is what `self.minus(that)` returned: `self` added to the inverse of
    /// `that`.
    pub open spec fn minus_yields(self, that: Point<S>, r: Point<S>) -> bool {
        exists|n: Point<S>| that.inverse_yields(n) && self.add_yields(n, r)
    }

    /// `r` is what `self.magnitude_squared()` returned: `x * x + y * y`.
    pub open spec fn magnitude_squared_yields(self, r: S) -> bool {
        exists|xx: S, yy: S|
            times_yields(self.0, self.0, xx) && times_yields(self.1, self.1, yy) && plus_yields(
                xx,
                yy,
                r,
            )
    }

    /// `r` is what `self.magnitude()` returned: the root of the squared
    /// magnitude.
    pub open spec fn magnitude_yields(self, r: S) -> bool {
        exists|m: S| self.magnitude_squared_yields(m) && root_yields(m, r)
    }

    /// `r` is what `self.unit_vector()` returned: `self` scaled by one over its
    /// magnitude.
    pub open spec fn unit_vector_yields(self, r: Point<S>) -> bool {
        exists|m: S, k: S|
            self.magnitude_yields(m) && reciprocal_yields(m, k) && self.scale_yields(k, r)
    }

    /// `r` is what `self.shrink(s)` returned: `self` scaled by one over `s`.
    pub open spec fn shrink_yields(self, s: S, r: Point<S>) -> bool {
        exists|k: S| reciprocal_yields(s, k) && self.scale_yields(k, r)
    }

    /// `r` is what `Point::weighted_mean(p, wp, q, wq, total)` returned: `p`
    /// scaled by `wp` and `q` scaled by `wq`, added, and the sum shrunk by
    /// `total`.
    pub open spec fn weighted_mean_yields(
        p: Point<S>,
        wp: S,
        q: Point<S>,
        wq: S,
        total: S,
        r: Point<S>,
    ) -> bool {
        exists|a: Point<S>, b: Point<S>, s: Point<S>|
            p.scale_yields(wp, a) && q.scale_yields(wq, b) && a.add_yields(b, s)
                && s.shrink_yields(total, r)
    }

    /// `r` is what `Point::from_draws(a, b)` returned: each draw less one half.
    pub open spec fn from_draws_yields(a: S, b: S, r: Point<S>) -> bool {
        exists|one: S, two: S, half: S|
            from_int_yields(1, one) && from_int_yields(2, two) && over_yields(one, two, half)
                && minus_yields(a, half, r.0) && minus_yields(b, half, r.1)
    }

    /// The origin, and the vector of no length.
    pub fn zero() -> (r: Point<S>)
        ensures
            Point::zero_yields(r),
    {
        Point(S::from_int(0), S::from_int(0))
    }

    /// The tolerance within which two computed scalars count as equal.
    pub fn epsilon() -> (r: S)
        ensures
            Point::<S>::epsilon_yields(r),
    {
        let one = S::from_int(1);
        let many = S::from_int(10_000_000);
        let r = one.over(many);
        assert(from_int_yields(1, one) && from_int_yields(10_000_000, many) && over_yields(
            one,
            many,
            r,
        ));
        r
    }

    /// `self` stretched by the factor `s`.
    pub fn scale(self, s: S) -> (r: Point<S>)
        ensures
            self.scale_yields(s, r),
    {
        Point(self.0.times(s), self.1.times(s))
    }

    /// The sum of `self` and `that`.
    pub fn add(self, that: Point<S>) -> (r: Point<S>)
        ensures
            self.add_yields(that, r),
    {
        Point(self.0.plus(that.0), self.1.plus(that.1))
    }

    /// The vector from `that` to `self`.
    pub fn minus(self, that: Point<S>) -> (r: Point<S>)
        ensures
            self.minus_yields(that, r),
    {
        self.add(that.inverse())
    }

    /// `self` turned round: the same length, the opposite direction.
    pub fn inverse(self) -> (r: Point<S>)
        ensures
            self.inverse_yields(r),
    {
        self.scale(S::from_int(-1))
    }

    /// The square of the length of `self`.
    pub fn magnitude_squared(self) -> (r: S)
        ensures
            self.magnitude_squared_yields(r),
    {
        let xx = self.0.times(self.0);
        let yy = self.1.times(self.1);
        let r = xx.plus(yy);
        assert(times_yields(self.0, self.0, xx) && times_yields(self.1, self.1, yy) && plus_yields(
            xx,
            yy,
            r,
        ));
        r
    }

    /// The length of `self`.
    pub fn magnitude(self) -> (r: S)
        ensures
            self.magnitude_yields(r),
    {
        self.magnitude_squared().root()
    }

    /// The vector of length one in the direction of `self`.
    ///
    /// Nothing is special about a vector of no length: its unit vector is `self`
    /// scaled by whatever the scalar makes of one over zero. A caller that cannot
    /// use that tests the length first.
    pub fn unit_vector(self) -> (r: Point<S>)
        ensures
            self.unit_vector_yields(r),
    {
        self.scale(reciprocal(self.magnitude()))
    }

    /// `self` shrunk by the factor `s`: scaled by one over `s`.
    pub fn shrink(self, s: S) -> (r: Point<S>)
        ensures
            self.shrink_yields(s, r),
    {
        self.scale(reciprocal(s))
    }

    /// The mean of `p` and `q`, the first counted `wp` times and the second
    /// `wq` times, `total` being the sum of the two weights.
    pub fn weighted_mean(p: Point<S>, wp: S, q: Point<S>, wq: S, total: S) -> (r: Point<S>)
        ensures
            Point::weighted_mean_yields(p, wp, q, wq, total, r),
    {
        p.scale(wp).add(q.scale(wq)).shrink(total)
    }

    /// The point that two draws from the unit interval stand for: each draw is
    /// moved down by one half, so that the points lie around the origin.
    pub fn from_draws(a: S, b: S) -> (r: Point<S>)
        ensures
            Point::from_draws_yields(a, b, r),
    {
        let one = S::from_int(1);
        let two = S::from_int(2);
        let half = one.over(two);
        let r = Point(a.minus(half), b.minus(half));
        assert(from_int_yields(1, one) && from_int_yields(2, two) && over_yields(one, two, half)
            && minus_yields(a, half, r.0) && minus_yields(b, half, r.1));
        r
    }

    /// A point made of the next two draws of `source`, the first for `x`.
    pub fn new_random<R: Source<S>>(source: &mut R) -> (r: Point<S>)
        ensures
            exists|a: S, b: S| Point::from_draws_yields(a, b, r),
    {
        let a = source.draw();
        let b = source.draw();
        Point::from_draws(a, b)
    }
}

// The operators. What `+` on two points returns depends on the scalar's own
// `plus`, which may answer differently each time it is asked, so no operator
// can name the value it returns: `obeys_.._spec` is false, and the value that
// `.._spec` names is never used. Each promises instead, like the method it
// stands for, which operations produced its result.
impl<S: Scalar> AddSpecImpl for Point<S> {
    open spec fn obeys_add_spec() -> bool {
        false
    }

    open spec fn add_req(self, rhs: Point<S>) -> bool {
        true
    }

    open spec fn add_spec(self, rhs: Point<S>) -> Point<S> {
        self
    }
}

impl<S: Scalar> core::ops::Add for Point<S> {
    type Output = Point<S>;

    /// `self + rhs` is `self.add(rhs)`.
    fn add(self, rhs: Point<S>) -> (r: Point<S>)
        ensures
            self.add_yields(rhs, r),
    {
        Point::add(self, rhs)
    }
}

impl<S: Scalar> SubSpecImpl for Point<S> {
    open spec fn obeys_sub_spec() -> bool {
        false
    }

    open spec fn sub_req(self, rhs: Point<S>) -> bool {
        true
    }

    open spec fn sub_spec(self, rhs: Point<S>) -> Point<S> {
        self
    }
}

impl<S: Scalar> core::ops::Sub for Point<S> {
    type Output = Point<S>;

    /// `self - rhs` is `self.minus(rhs)`.
    fn sub(self, rhs: Point<S>) -> (r: Point<S>)
        ensures
            self.minus_yields(rhs, r),
    {
        self.minus(rhs)
    }
}

impl<S: Scalar> MulSpecImpl<S> for Point<S> {
    open spec fn obeys_mul_spec() -> bool {
        false
    }

    open spec fn mul_req(self, rhs: S) -> bool {
        true
    }

    open spec fn mul_spec(self, rhs: S) -> Point<S> {
        self
    }
}

impl<S: Scalar> core::ops::Mul<S> for Point<S> {
    type Output = Point<S>;

    /// `self * rhs` is `self.scale(rhs)`.
    fn mul(self, rhs: S) -> (r: Point<S>)
        ensures
            self.scale_yields(rhs, r),
    {
        self.scale(rhs)
    }
}

impl<S: Scalar> DivSpecImpl<S> for Point<S> {
    open spec fn obeys_div_spec() -> bool {
        false
    }

    open spec fn div_req(self, rhs: S) -> bool {
        true
    }

    open spec fn div_spec(self, rhs: S) -> Point<S> {
        self
    }
}

impl<S: Scalar> core::ops::Div<S> for Point<S> {
    type Output = Point<S>;

    /// `self / rhs` is `self.shrink(rhs)`.
    fn div(self, rhs: S) -> (r: Point<S>)
        ensures
            self.shrink_yields(rhs, r),
    {
        self.shrink(rhs)
    }
}

impl<S: Scalar> core::ops::AddAssign for Point<S> {
    /// `self += rhs` puts `self.add(rhs)` in the place of `self`.
    fn add_assign(&mut self, rhs: Point<S>)
        ensures
            old(self).add_yields(rhs, *final(self)),
    {
        *self = Point::add(*self, rhs);
    }
}

impl<S: Scalar> core::ops::SubAssign for Point<S> {
    /// `self -= rhs` puts `self.minus(rhs)` in the place of `self`.
    fn sub_assign(&mut self, rhs: Point<S>)
        ensures
            old(self).minus_yields(rhs, *final(self)),
    {
        *self = self.minus(rhs);
    }
}

impl<S: Scalar> core::ops::MulAssign<S> for Point<S> {
    /// `self *= rhs` puts `self.scale(rhs)` in the place of `self`.
    fn mul_assign(&mut self, rhs: S)
        ensures
            old(self).scale_yields(rhs, *final(self)),
    {
        *self = self.scale(rhs);
    }
}

impl<S: Scalar> core::ops::DivAssign<S> for Point<S> {
    /// `self /= rhs` puts `self.shrink(rhs)` in the place of `self`.
    fn div_assign(&mut self, rhs: S)
        ensures
            old(self).shrink_yields(rhs, *final(self)),
    {
        *self = self.shrink(rhs);
    }
}

} // verus!
