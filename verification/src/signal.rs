//! A generic oscillator type for simplifying signal generation: sine,
//! cosine, saw and square waves over a configurable value, frequency,
//! amplitude and bezier depth, plus a noise source.

use vstd::prelude::*;
use crate::math::fmod;
use crate::math::fmod_spec;
use crate::math::SignalNum;

verus! {

/// Signal generic struct for simplifying signal generation. Signal can
/// handle any scalar type implementing [`SignalNum`].
#[derive(Clone, Copy, Debug)]
pub struct Signal<F> {
    /// The main value. If Signal were to be plotted on a cartesian plane,
    /// this value would be 'x' for which we will solve 'y'.
    pub val: F,
    /// The 'x' value of the second point (from which we calculate our
    /// range and gradient).
    pub x: F,
    /// The 'y' value of the second point (from which we calculate our
    /// range and gradient).
    pub y: F,
    /// The calculated gradient.
    pub grad: F,
    /// Depth of the bezier curve.
    pub bez_depth: F,
    /// Frequency of the signal.
    pub freq: F,
    /// Amplitude of the signal.
    pub amp: F,
}

/// What `times_two_pi` returns: the scalar scaled by a full turn.
pub open spec fn times_two_pi_spec<F: SignalNum>(f: F) -> F {
    f.times_spec(F::two_pi_spec())
}

/// Times two pi, needed by most of the oscillators.
fn times_two_pi<F: SignalNum>(f: F) -> (r: F)
    ensures
        r == times_two_pi_spec(f),
{
    f.times(F::two_pi())
}

/// A fresh random sample for `get_noise`; unconstrained, as randomness
/// must be.
fn get_rand_signal<F: SignalNum>() -> F {
    F::random_signal()
}

/// What `get_bezier_pt` returns: the point `perc` of the way from `na` to
/// `nb`.
pub open spec fn bezier_pt_spec<F: SignalNum>(na: F, nb: F, perc: F) -> F {
    nb.minus_spec(na).times_spec(perc).plus_spec(na)
}

/// What `get_y1` returns: `y` halved by way of `one + one`.
pub open spec fn y1_spec<F: SignalNum>(y: F, one: F) -> F {
    y.div_spec(one.plus_spec(one))
}

impl<F: SignalNum> Signal<F> {
    /// What `get_bezier` returns: the second point's 'y' pulled through a
    /// quadratic bezier whose middle control point is deepened by
    /// `bez_depth`, evaluated at `val / x`.
    pub open spec fn bezier_spec(self) -> F {
        let y1 = y1_spec(self.y, F::one_spec());
        let y2 = y1.plus_spec(self.bez_depth.times_spec(y1));
        let relative_val = self.val.div_spec(self.x);
        let ya = bezier_pt_spec(F::zero_spec(), y2, relative_val);
        let yb = bezier_pt_spec(y2, self.y, relative_val);
        bezier_pt_spec(ya, yb, relative_val)
    }

    /// What `get_result` returns: the oscillator value under the
    /// amplitude, lifted by the bezier.
    pub open spec fn result_spec(self, v: F) -> F {
        self.amp.times_spec(v).plus_spec(self.bezier_spec())
    }

    /// The phase fed to the periodic oscillators: a full turn of `val`,
    /// scaled by the frequency over the range `x`.
    pub open spec fn phase_spec(self) -> F {
        times_two_pi_spec(self.val).times_spec(self.freq).div_spec(self.x)
    }

    /// Constructor for Signal.
    pub fn new(val: F) -> (r: Signal<F>)
        ensures
            r == (Signal {
                val,
                x: F::one_spec(),
                y: F::zero_spec(),
                grad: F::zero_spec(),
                bez_depth: F::zero_spec(),
                freq: F::one_spec(),
                amp: F::one_spec(),
            }),
    {
        Signal {
            val,
            x: F::one(),
            y: F::zero(),
            grad: F::zero(),
            bez_depth: F::zero(),
            freq: F::one(),
            amp: F::one(),
        }
    }

    /// Set the value for which the signal (get_sin/cos/sqr/saw) is
    /// returned.
    pub fn set_val(&mut self, val: F)
        ensures
            *final(self) == (Signal { val, ..*old(self) }),
    {
        self.val = val;
    }

    /// To return the signal value on a slope, set the gradient here.
    pub fn set_gradient(&mut self, x: F, y: F)
        ensures
            *final(self) == (Signal { x, y, grad: x.div_spec(y), ..*old(self) }),
    {
        self.x = x;
        self.y = y;
        self.grad = x.div(y);
    }

    /// Set frequency of signal.
    pub fn set_freq(&mut self, freq: F)
        ensures
            *final(self) == (Signal { freq, ..*old(self) }),
    {
        self.freq = freq;
    }

    /// Set amplitude of signal.
    pub fn set_amp(&mut self, amp: F)
        ensures
            *final(self) == (Signal { amp, ..*old(self) }),
    {
        self.amp = amp;
    }

    /// Set depth of the bezier curve. Defaults to zero.
    pub fn set_bez_depth(&mut self, bez_depth: F)
        ensures
            *final(self) == (Signal { bez_depth, ..*old(self) }),
    {
        self.bez_depth = bez_depth;
    }

    /// Helper function for `get_bezier`.
    fn get_bezier_pt(na: F, nb: F, perc: F) -> (r: F)
        ensures
            r == bezier_pt_spec(na, nb, perc),
    {
        let diff: F = nb.minus(na);
        diff.times(perc).plus(na)
    }

    /// Helper function for `get_bezier`.
    fn get_y1(y: F, one: F) -> (r: F)
        ensures
            r == y1_spec(y, one),
    {
        y.div(one.plus(one))
    }

    /// Get signal with bezier curve.
    pub fn get_bezier(&self) -> (r: F)
        ensures
            r == self.bezier_spec(),
    {
        let y1: F = Signal::<F>::get_y1(self.y, F::one());
        let y2: F = y1.plus(self.bez_depth.times(y1));
        let relative_val: F = self.val.div(self.x);
        let ya: F = Signal::<F>::get_bezier_pt(F::zero(), y2, relative_val);
        let yb: F = Signal::<F>::get_bezier_pt(y2, self.y, relative_val);
        Signal::<F>::get_bezier_pt(ya, yb, relative_val)
    }

    /// Get oscillator with amplitude and bezier.
    pub fn get_result(&self, val: F) -> (r: F)
        ensures
            r == self.result_spec(val),
    {
        self.amp.times(val).plus(self.get_bezier())
    }

    /// Get sine wave signal result at val.
    pub fn get_sin(&self) -> (r: F)
        ensures
            r == self.result_spec(self.phase_spec().sin_spec()),
    {
        self.get_result(times_two_pi(self.val).times(self.freq).div(self.x).sin())
    }

    /// Get cosine wave signal result at val.
    pub fn get_cos(&self) -> (r: F)
        ensures
            r == self.result_spec(self.phase_spec().cos_spec()),
    {
        self.get_result(times_two_pi(self.val).times(self.freq).div(self.x).cos())
    }

    /// Get saw wave signal result at val.
    pub fn get_saw(&self) -> (r: F)
        ensures
            r == self.result_spec(
                fmod_spec(self.val.times_spec(self.freq).div_spec(self.x), F::one_spec())
                    .times_spec(F::from_i8_spec(-2i8)).plus_spec(F::from_i8_spec(1i8)),
            ),
    {
        self.get_result(
            fmod(self.val.times(self.freq).div(self.x), F::one()).times(F::from_i8(-2)).plus(
                F::from_i8(1),
            ),
        )
    }

    /// Get square wave signal result at val.
    pub fn get_sqr(&self) -> (r: F)
        ensures
            r == self.result_spec(self.phase_spec().sin_spec().signum_spec()),
    {
        self.get_result(times_two_pi(self.val).times(self.freq).div(self.x).sin().signum())
    }

    /// Get noise signal result at val: the oscillator applied to a fresh
    /// random sample, so only the shape of the result can be promised.
    pub fn get_noise(&self) -> (r: F)
        ensures
            exists|v: F| r == self.result_spec(v),
    {
        let v = get_rand_signal();
        let r = self.get_result(v);
        proof {
            assert(r == self.result_spec(v));
        }
        r
    }
}

} // verus!
