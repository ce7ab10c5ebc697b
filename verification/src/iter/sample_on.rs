//! Sampling one iterator on the ticks of another.

use vstd::prelude::*;
use vstd::pervasive::cloned;

verus! {

/// Iterator pairing returned from the `sample_on` method: a source to
/// sample and an iterator to sample it on. Stepping the pair waits for a
/// tick of `on`, for as long as that takes, and then samples `sample`;
/// a wait without any bound has no place in verified code, so the loop
/// that does the waiting belongs to the unverified caller, which reads
/// the pair through `into_parts`.
pub struct Items<A, B> where A: Iterator, B: Iterator {
    sample: A,
    on: B,
    last_sample: Option<A::Item>,
    is_infinite: bool,
}

impl<A, B> Items<A, B> where A: Iterator, B: Iterator {
    /// The source iterator being sampled.
    pub closed spec fn sample_part(self) -> A {
        self.sample
    }

    /// The iterator whose ticks drive the sampling.
    pub closed spec fn on_part(self) -> B {
        self.on
    }

    /// The sample kept back for the infinite mode.
    pub closed spec fn last_part(self) -> Option<A::Item> {
        self.last_sample
    }

    /// Whether the pairing repeats its last sample once the source runs
    /// out.
    pub closed spec fn infinite_mode(self) -> bool {
        self.is_infinite
    }

    /// Construct a never-ending signal: once the source runs out, its last
    /// sample is repeated forever. Only the mode changes; the iterators
    /// and the kept sample move unchanged.
    pub fn infinite(self) -> (r: Items<A, B>)
        ensures
            r.infinite_mode(),
            r.sample_part() == self.sample_part(),
            r.on_part() == self.on_part(),
            r.last_part() == self.last_part(),
    {
        Items { is_infinite: true, ..self }
    }

    /// Surrender the pairing, unchanged: the source, the iterator sampled
    /// on, the sample kept for the infinite mode, and whether that mode is
    /// on.
    pub fn into_parts(self) -> (r: (A, B, Option<A::Item>, bool))
        ensures
            r.0 == self.sample_part(),
            r.1 == self.on_part(),
            r.2 == self.last_part(),
            r.3 == self.infinite_mode(),
    {
        (self.sample, self.on, self.last_sample, self.is_infinite)
    }
}

/// The decision one sampling step makes once the tick has arrived, from
/// what the source yielded, the sample kept so far and the mode: a fresh
/// sample is yielded and a clone of it kept; a drained source yields a
/// clone of the kept sample in the infinite mode, and nothing otherwise.
/// The result is the pair (yielded, kept afterwards). Only the waiting for
/// the tick is left to the caller that owns the iterators.
pub fn next_sample<T: Clone>(sampled: Option<T>, kept: Option<T>, infinite: bool) -> (r: (
    Option<T>,
    Option<T>,
))
    ensures
        (sampled matches Some(s) ==> r.0 == Some(s) && (r.1 matches Some(c) && cloned(s, c))),
        sampled is None && infinite ==> r.1 == kept && (kept matches Some(kv) ==> (r.0 matches Some(
            c,
        ) && cloned(kv, c))) && (kept is None ==> r.0 is None),
        sampled is None && !infinite ==> r.0 is None && r.1 == kept,
{
    match sampled {
        Some(s) => {
            let c = s.clone();
            proof {
                assert(cloned(s, c));
            }
            (Some(s), Some(c))
        },
        None => if infinite {
            match kept {
                Some(kv) => {
                    let c = kv.clone();
                    proof {
                        assert(cloned(kv, c));
                    }
                    (Some(c), Some(kv))
                },
                None => (None, None),
            }
        } else {
            (None, kept)
        },
    }
}

/// Sample from the current iterator every time an iteration occurs on
/// another iterator; primarily for binding an iterator to a timed one.
pub trait SampleOn: Sized + Iterator {
    /// Pair this iterator with another, sampling it on the other's ticks:
    /// both iterators move in unchanged, no sample is kept yet, and the
    /// infinite mode is off.
    fn sample_on<O: Iterator>(self, other: O) -> (r: Items<Self, O>)
        ensures
            r.sample_part() == self,
            r.on_part() == other,
            r.last_part() is None,
            !r.infinite_mode(),
    {
        Items { sample: self, on: other, last_sample: None, is_infinite: false }
    }
}

} // verus!
