use utils::math::clamp;
use utils::math::fmod;
use utils::math::in_range;
use utils::math::lerp;
use utils::math::modulo;
use utils::math::SignalNum;
use utils::epsilon::Epsilon;
use utils::epsilon::epsilon;

#[derive(Clone, Copy, Debug, PartialEq)]
struct N(f64);

impl SignalNum for N {
    fn zero() -> N {
        N(0.0)
    }

    fn one() -> N {
        N(1.0)
    }

    fn two_pi() -> N {
        N(std::f64::consts::PI * 2.0)
    }

    fn plus(self, other: N) -> N {
        N(self.0 + other.0)
    }

    fn minus(self, other: N) -> N {
        N(self.0 - other.0)
    }

    fn times(self, other: N) -> N {
        N(self.0 * other.0)
    }

    fn div(self, other: N) -> N {
        N(self.0 / other.0)
    }

    fn sin(self) -> N {
        N(self.0.sin())
    }

    fn cos(self) -> N {
        N(self.0.cos())
    }

    fn signum(self) -> N {
        N(self.0.signum())
    }

    fn floor(self) -> N {
        N(self.0.floor())
    }

    fn from_i8(x: i8) -> N {
        N(x as f64)
    }

    fn random_signal() -> N {
        N(rand::random::<f64>() * 2.0 - 1.0)
    }
}

#[test]
fn clamp_pulls_into_range() {
    assert_eq!(clamp(5, 0, 10), 5);
    assert_eq!(clamp(-3, 0, 10), 0);
    assert_eq!(clamp(42, 0, 10), 10);
    assert_eq!(clamp(2.5f64, 0.0, 1.0), 1.0);
}

#[test]
fn in_range_is_inclusive() {
    assert!(in_range(0, 0, 10));
    assert!(in_range(10, 0, 10));
    assert!(in_range(5, 0, 10));
    assert!(!in_range(11, 0, 10));
    assert!(!in_range(-1, 0, 10));
}

#[test]
fn modulo_follows_the_divisor_sign() {
    assert_eq!(modulo(5, 3), 2);
    assert_eq!(modulo(-5, 3), 1);
    assert_eq!(modulo(5, -3), -1);
    assert_eq!(modulo(-5, -3), -2);
    assert_eq!(modulo(6, 3), 0);
    assert_eq!(modulo(-6, 3), 0);
    assert_eq!(modulo(i64::MIN, -1), 0);
}

#[test]
fn fmod_takes_out_the_floored_quotient() {
    assert_eq!(fmod(N(5.25), N(1.0)), N(0.25));
    assert_eq!(fmod(N(7.0), N(2.0)), N(1.0));
    assert_eq!(fmod(N(-1.5), N(1.0)), N(0.5));
}

#[test]
fn lerp_interpolates() {
    assert_eq!(lerp(N(0.0), N(10.0), N(0.5)), N(5.0));
    assert_eq!(lerp(N(2.0), N(4.0), N(0.0)), N(2.0));
    assert_eq!(lerp(N(2.0), N(4.0), N(1.0)), N(4.0));
}

#[derive(Clone, Copy, Debug, PartialEq)]
struct Eps(f64);

impl Epsilon for Eps {
    fn epsilon() -> Eps {
        Eps(f64::EPSILON)
    }
}

#[test]
fn epsilon_comes_from_the_type() {
    let e: Eps = epsilon();
    assert_eq!(e, Eps(f64::EPSILON));
}

#[test]
fn perm_table_lookup() {
    assert_eq!(utils::noise_walk::get_perm_val(0), 151);
    assert_eq!(utils::noise_walk::get_perm_val(5), 15);
    assert_eq!(utils::noise_walk::get_perm_val(255), 180);
    // The table holds one 256-entry cycle twice.
    assert_eq!(utils::noise_walk::get_perm_val(256), 151);
    assert_eq!(utils::noise_walk::get_perm_val(511), 180);
}
