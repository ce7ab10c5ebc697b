//! The timing arithmetic of a frames-per-second signal: how long ago the
//! last frame was, on a nanosecond counter that may wrap around, and
//! whether the next frame is due. The clock readings themselves, and the
//! sleeping between frames, belong to the caller that owns the clock.

use vstd::prelude::*;

verus! {

/// What `get_dt_ns` returns: the nanoseconds from the previous reading
/// `last_ns` to the current reading `t`, counting one wrap-around of the
/// counter when `t` lies below `last_ns`.
pub open spec fn dt_ns_spec(last_ns: u64, t: u64) -> int {
    if t >= last_ns {
        t - last_ns
    } else {
        (u64::MAX - last_ns) + t
    }
}

/// Return the dt in nanoseconds between the previous reading and `t`.
pub fn get_dt_ns(last_ns: u64, t: u64) -> (r: u64)
    ensures
        r == dt_ns_spec(last_ns, t),
{
    if t >= last_ns {
        t - last_ns
    } else {
        (u64::MAX - last_ns) + t
    }
}

/// Whether a full frame of `frame_ns` nanoseconds has passed since the
/// previous reading: the decision that a frame-rate loop polls after each
/// clock reading.
pub fn frame_due(last_ns: u64, frame_ns: u64, t: u64) -> (r: bool)
    ensures
        r == (dt_ns_spec(last_ns, t) >= frame_ns),
{
    get_dt_ns(last_ns, t) >= frame_ns
}

} // verus!
