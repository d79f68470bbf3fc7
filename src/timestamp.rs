//! Wall-clock and CPU timestamps, and the boot time measured between two of them.

use vstd::prelude::*;

verus! {

/// A timestamp with microsecond resolution: wall-clock time and CPU time.
#[derive(Clone, Copy, Debug, PartialEq, Eq, Structural)]
pub struct TimestampUs {
    /// Wall-clock time, in microseconds since the Unix epoch.
    pub time_us: u64,
    /// CPU time of the process, in microseconds.
    pub cputime_us: u64,
}

impl Default for TimestampUs {
    fn default() -> (r: TimestampUs)
        ensures
            r == (TimestampUs { time_us: 0, cputime_us: 0 }),
    {
        TimestampUs { time_us: 0, cputime_us: 0 }
    }
}

/// Microseconds from a nanosecond timestamp; a missing or negative one counts as 0.
pub open spec fn us_from_nanos(nanos: Option<i64>) -> u64 {
    match nanos {
        Some(n) => if n >= 0 { (n / 1000) as u64 } else { 0 },
        None => 0,
    }
}

/// Converts a nanosecond timestamp to microseconds; a missing or negative one counts
/// as 0.
pub fn time_us_from_nanos(nanos: Option<i64>) -> (r: u64)
    ensures
        r == us_from_nanos(nanos),
{
    match nanos {
        Some(n) => if n >= 0 { (n / 1000) as u64 } else { 0 },
        None => 0,
    }
}

/// Wall-clock and CPU time elapsed from `t0` to `now`, in microseconds; a clock that
/// went backwards counts as no time.
pub fn elapsed_us(t0: &TimestampUs, now: &TimestampUs) -> (r: (u64, u64))
    ensures
        r.0 == if now.time_us >= t0.time_us { (now.time_us - t0.time_us) as u64 } else { 0 },
        r.1 == if now.cputime_us >= t0.cputime_us { (now.cputime_us - t0.cputime_us) as u64 } else { 0 },
{
    let wall = if now.time_us >= t0.time_us { now.time_us - t0.time_us } else { 0 };
    let cpu = if now.cputime_us >= t0.cputime_us { now.cputime_us - t0.cputime_us } else { 0 };
    (wall, cpu)
}

} // verus!
