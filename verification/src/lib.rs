//! A small collection of utilities: a latest-value channel (plain and
//! keyed), ordering and integer helpers, factorisation and primality
//! routines, a generic oscillator type, and iterator and vector adaptors.

pub mod channel;
pub mod epsilon;
pub mod factorisation;
pub mod fps;
pub mod iter;
pub mod linked_list;
pub mod math;
pub mod noise_walk;
pub mod signal;
pub mod vec;

pub use epsilon::Epsilon;
pub use epsilon::epsilon;
pub use factorisation::are_all_factors;
pub use factorisation::are_any_factors;
pub use factorisation::get_all_factors;
pub use factorisation::is_factor;
pub use factorisation::is_prime;
pub use factorisation::lowest_non_one;
pub use iter::SampleOn;
pub use math::clamp;
pub use math::fmod;
pub use math::in_range;
pub use math::lerp;
pub use math::modulo;
pub use signal::Signal;
pub use vec::TakeOnly;
