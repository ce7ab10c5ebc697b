//! Ordering and integer helpers: clamping, range membership, and the
//! sign-adjusted modulo operation.

use vstd::prelude::*;
use vstd::std_specs::cmp::PartialOrdSpec;
use vstd::math::abs;
use std::cmp::Ordering;

verus! {

/// `a` is strictly below `b` according to the type's comparison.
pub open spec fn lt_spec<T: PartialOrd>(a: T, b: T) -> bool {
    a.partial_cmp_spec(&b) == Some(Ordering::Less)
}

/// `a` is strictly above `b` according to the type's comparison.
pub open spec fn gt_spec<T: PartialOrd>(a: T, b: T) -> bool {
    a.partial_cmp_spec(&b) == Some(Ordering::Greater)
}

/// What `clamp` returns: `val` pulled into `[min, max]`.
pub open spec fn clamp_spec<T: PartialOrd>(val: T, min: T, max: T) -> T {
    if lt_spec(val, min) {
        min
    } else if gt_spec(val, max) {
        max
    } else {
        val
    }
}

/// Clamp a value to a range.
pub fn clamp<T: PartialOrd>(val: T, min: T, max: T) -> (r: T)
    ensures
        T::obeys_partial_cmp_spec() ==> r == clamp_spec(val, min, max),
{
    if val < min {
        min
    } else {
        if val > max {
            max
        } else {
            val
        }
    }
}

/// What `in_range` returns: `min <= val <= max`.
pub open spec fn in_range_spec<T: Ord>(val: T, min: T, max: T) -> bool {
    &&& val.partial_cmp_spec(&min) matches Some(Ordering::Greater | Ordering::Equal)
    &&& val.partial_cmp_spec(&max) matches Some(Ordering::Less | Ordering::Equal)
}

/// Check if value is in range.
pub fn in_range<T: Ord>(val: T, min: T, max: T) -> (r: bool)
    ensures
        T::obeys_partial_cmp_spec() ==> r == in_range_spec(val, min, max),
{
    val >= min && val <= max
}

/// What `modulo` returns: the remainder of `a / b` carrying the sign of
/// the divisor `b` (or zero), so that for positive `b` the result lies in
/// `[0, b)` and for negative `b` in `(b, 0]`.
pub open spec fn modulo_spec(a: int, b: int) -> int {
    let m = (abs(a) % abs(b)) as int;
    if m == 0 {
        0
    } else if a >= 0 && b > 0 {
        m
    } else if a < 0 && b > 0 {
        b - m
    } else if a >= 0 && b < 0 {
        m + b
    } else {
        -m
    }
}

/// The modulo function: a remainder that, unlike `%` on signed integers,
/// carries the divisor's sign.
pub fn modulo(a: i64, b: i64) -> (r: i64)
    requires
        b != 0,
    ensures
        r == modulo_spec(a as int, b as int),
        b > 0 ==> 0 <= r < b,
        b < 0 ==> b < r && r <= 0,
{
    let aw: i128 = a as i128;
    let bw: i128 = b as i128;
    let mag_a: i128 = if aw >= 0 { aw } else { -aw };
    let mag_b: i128 = if bw >= 0 { bw } else { -bw };
    let m: i128 = mag_a % mag_b;
    let adjusted: i128 = if m == 0 {
        0
    } else if (aw >= 0) == (bw >= 0) {
        if aw >= 0 { m } else { -m }
    } else {
        if bw >= 0 { bw - m } else { m + bw }
    };
    adjusted as i64
}

/// The scalar operations the signal and interpolation helpers need from
/// their number type, each exec operation pinned to its own spec-level
/// function. The library computes with these operations symbolically; a
/// floating-point implementation is supplied by the code that uses it, so
/// any float-like scalar can stand in.
///
/// The spec members default to an unspecified value, so an implementation
/// written outside verified code need not mention them; a verified
/// implementation overrides each spec member with its own meaning and
/// proves its operations against it.
pub trait SignalNum: Sized + Copy {
    /// The additive identity.
    open spec fn zero_spec() -> Self {
        vstd::pervasive::arbitrary()
    }

    /// The multiplicative identity.
    open spec fn one_spec() -> Self {
        vstd::pervasive::arbitrary()
    }

    /// A full turn: two times pi.
    open spec fn two_pi_spec() -> Self {
        vstd::pervasive::arbitrary()
    }

    /// What `plus` returns.
    open spec fn plus_spec(self, other: Self) -> Self {
        vstd::pervasive::arbitrary()
    }

    /// What `minus` returns.
    open spec fn minus_spec(self, other: Self) -> Self {
        vstd::pervasive::arbitrary()
    }

    /// What `times` returns.
    open spec fn times_spec(self, other: Self) -> Self {
        vstd::pervasive::arbitrary()
    }

    /// What `div` returns.
    open spec fn div_spec(self, other: Self) -> Self {
        vstd::pervasive::arbitrary()
    }

    /// What `sin` returns.
    open spec fn sin_spec(self) -> Self {
        vstd::pervasive::arbitrary()
    }

    /// What `cos` returns.
    open spec fn cos_spec(self) -> Self {
        vstd::pervasive::arbitrary()
    }

    /// What `signum` returns.
    open spec fn signum_spec(self) -> Self {
        vstd::pervasive::arbitrary()
    }

    /// What `floor` returns.
    open spec fn floor_spec(self) -> Self {
        vstd::pervasive::arbitrary()
    }

    /// What `from_i8` returns.
    open spec fn from_i8_spec(x: i8) -> Self {
        vstd::pervasive::arbitrary()
    }

    fn zero() -> (r: Self)
        ensures
            r == Self::zero_spec(),
    ;

    fn one() -> (r: Self)
        ensures
            r == Self::one_spec(),
    ;

    fn two_pi() -> (r: Self)
        ensures
            r == Self::two_pi_spec(),
    ;

    fn plus(self, other: Self) -> (r: Self)
        ensures
            r == self.plus_spec(other),
    ;

    fn minus(self, other: Self) -> (r: Self)
        ensures
            r == self.minus_spec(other),
    ;

    fn times(self, other: Self) -> (r: Self)
        ensures
            r == self.times_spec(other),
    ;

    fn div(self, other: Self) -> (r: Self)
        ensures
            r == self.div_spec(other),
    ;

    fn sin(self) -> (r: Self)
        ensures
            r == self.sin_spec(),
    ;

    fn cos(self) -> (r: Self)
        ensures
            r == self.cos_spec(),
    ;

    fn signum(self) -> (r: Self)
        ensures
            r == self.signum_spec(),
    ;

    fn floor(self) -> (r: Self)
        ensures
            r == self.floor_spec(),
    ;

    fn from_i8(x: i8) -> (r: Self)
        ensures
            r == Self::from_i8_spec(x),
    ;

    /// A fresh random sample in the signal's unit range. Nothing is
    /// promised of the value: it may differ on every call.
    fn random_signal() -> Self;
}

/// What `fmod` returns: the remainder left after taking out the floored
/// quotient, as the C `fmod` family does.
pub open spec fn fmod_spec<F: SignalNum>(numer: F, denom: F) -> F {
    numer.minus_spec(numer.div_spec(denom).floor_spec().times_spec(denom))
}

/// Models the C fmod function.
pub fn fmod<F: SignalNum>(numer: F, denom: F) -> (r: F)
    ensures
        r == fmod_spec(numer, denom),
{
    let rquot: F = numer.div(denom).floor();
    numer.minus(rquot.times(denom))
}

/// What `lerp` returns: the value `amt` of the way from `start` to `stop`.
pub open spec fn lerp_spec<F: SignalNum>(start: F, stop: F, amt: F) -> F {
    start.plus_spec(stop.minus_spec(start).times_spec(amt))
}

/// Interpolate from start to stop, `amt` amount.
pub fn lerp<F: SignalNum>(start: F, stop: F, amt: F) -> (r: F)
    ensures
        r == lerp_spec(start, stop, amt),
{
    start.plus(stop.minus(start).times(amt))
}

} // verus!
