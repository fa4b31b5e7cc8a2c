//! Socket timeouts given in milliseconds.
use vstd::prelude::*;

verus! {

/// A timeout of `ms` milliseconds as the whole seconds and the remaining
/// microseconds of a socket `timeval`; 0 ms gives the zero `timeval`, which
/// disables the timeout.
pub fn timeout_parts(ms: u64) -> (r: (u64, u32))
    ensures
        r.0 == ms / 1000,
        r.1 == (ms % 1000) * 1000,
        r.1 < 1_000_000,
{
    let secs = ms / 1000;
    let micros = ((ms % 1000) * 1000) as u32;
    (secs, micros)
}

} // verus!
