use utils::math::SignalNum;
use utils::signal::Signal;

#[derive(Clone, Copy, Debug, PartialEq)]
struct N(f64);

impl SignalNum for N {
    fn zero() -> N {
        N(0.0)
    }

    fn one() -> N {
        N(1.0)
    }

    fn two_pi() -> N {
        N(std::f64::consts::PI * 2.0)
    }

    fn plus(self, other: N) -> N {
        N(self.0 + other.0)
    }

    fn minus(self, other: N) -> N {
        N(self.0 - other.0)
    }

    fn times(self, other: N) -> N {
        N(self.0 * other.0)
    }

    fn div(self, other: N) -> N {
        N(self.0 / other.0)
    }

    fn sin(self) -> N {
        N(self.0.sin())
    }

    fn cos(self) -> N {
        N(self.0.cos())
    }

    fn signum(self) -> N {
        N(self.0.signum())
    }

    fn floor(self) -> N {
        N(self.0.floor())
    }

    fn from_i8(x: i8) -> N {
        N(x as f64)
    }

    fn random_signal() -> N {
        // A fixed sample keeps the oscillator tests deterministic.
        N(0.5)
    }
}

#[test]
fn new_signal_defaults() {
    let s: Signal<N> = Signal::new(N(0.25));
    assert_eq!(s.val, N(0.25));
    assert_eq!(s.x, N(1.0));
    assert_eq!(s.y, N(0.0));
    assert_eq!(s.grad, N(0.0));
    assert_eq!(s.bez_depth, N(0.0));
    assert_eq!(s.freq, N(1.0));
    assert_eq!(s.amp, N(1.0));
}

#[test]
fn setters_update_their_fields() {
    let mut s: Signal<N> = Signal::new(N(0.0));
    s.set_val(N(0.5));
    assert_eq!(s.val, N(0.5));
    s.set_freq(N(3.0));
    assert_eq!(s.freq, N(3.0));
    s.set_amp(N(2.0));
    assert_eq!(s.amp, N(2.0));
    s.set_bez_depth(N(0.25));
    assert_eq!(s.bez_depth, N(0.25));
    s.set_gradient(N(4.0), N(2.0));
    assert_eq!(s.x, N(4.0));
    assert_eq!(s.y, N(2.0));
    assert_eq!(s.grad, N(2.0));
}

#[test]
fn flat_signal_oscillators_at_zero() {
    let s: Signal<N> = Signal::new(N(0.0));
    assert_eq!(s.get_bezier(), N(0.0));
    assert_eq!(s.get_sin(), N(0.0));
    assert_eq!(s.get_cos(), N(1.0));
    assert_eq!(s.get_saw(), N(1.0));
    assert_eq!(s.get_sqr(), N(1.0));
}

#[test]
fn amplitude_scales_the_result() {
    let mut s: Signal<N> = Signal::new(N(0.0));
    s.set_amp(N(2.0));
    assert_eq!(s.get_result(N(3.0)), N(6.0));
    assert_eq!(s.get_cos(), N(2.0));
}

#[test]
fn saw_wave_quarter_point() {
    let mut s: Signal<N> = Signal::new(N(0.25));
    assert_eq!(s.get_saw(), N(0.5));
    s.set_val(N(0.5));
    assert_eq!(s.get_saw(), N(0.0));
}

#[test]
fn noise_uses_the_type_sample() {
    let mut s: Signal<N> = Signal::new(N(0.0));
    s.set_amp(N(2.0));
    assert_eq!(s.get_noise(), N(1.0));
}

#[test]
fn bezier_lifts_the_result() {
    let mut s: Signal<N> = Signal::new(N(0.5));
    s.set_gradient(N(1.0), N(4.0));
    // y1 = 2, y2 = 2, relative val = 0.5: ya = 1, yb = 3, bezier = 2.
    assert_eq!(s.get_bezier(), N(2.0));
    assert_eq!(s.get_result(N(0.0)), N(2.0));
}
