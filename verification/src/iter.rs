//! A collection of custom iterators for iterating things.

pub mod sample_on;

pub use sample_on::SampleOn;
