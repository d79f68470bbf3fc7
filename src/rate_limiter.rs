//! Rate limiter configuration of block and network devices.

use vstd::prelude::*;

verus! {

/// A token bucket: `size` tokens refilled over `refill_time` milliseconds, with an
/// optional one-time burst.
#[derive(Clone, Copy, Debug, PartialEq, Eq, Structural)]
pub struct TokenBucketConfig {
    /// Bucket size, in tokens.
    pub size: u64,
    /// Tokens available once on top of the bucket.
    pub one_time_burst: Option<u64>,
    /// Time to refill the whole bucket, in milliseconds.
    pub refill_time: u64,
}

/// A rate limiter: an optional bandwidth bucket and an optional operations bucket.
#[derive(Clone, Copy, Debug, PartialEq, Eq, Structural)]
pub struct RateLimiterConfig {
    /// Bucket counting bytes.
    pub bandwidth: Option<TokenBucketConfig>,
    /// Bucket counting operations.
    pub ops: Option<TokenBucketConfig>,
}

impl RateLimiterConfig {
    /// `self` with each bucket that `new` sets replaced.
    pub open spec fn merged(self, new: RateLimiterConfig) -> RateLimiterConfig {
        RateLimiterConfig {
            bandwidth: if new.bandwidth is Some { new.bandwidth } else { self.bandwidth },
            ops: if new.ops is Some { new.ops } else { self.ops },
        }
    }

    /// Replaces each bucket that `new` sets and keeps the others.
    pub fn update(&mut self, new: &RateLimiterConfig)
        ensures
            *final(self) == old(self).merged(*new),
    {
        if new.bandwidth.is_some() {
            self.bandwidth = new.bandwidth;
        }
        if new.ops.is_some() {
            self.ops = new.ops;
        }
    }
}

/// The limiter after an update request: none requested keeps the current one, none
/// present takes the requested one, otherwise the two are merged bucket by bucket.
pub open spec fn limiter_after(
    current: Option<RateLimiterConfig>,
    req: Option<RateLimiterConfig>,
) -> Option<RateLimiterConfig> {
    match req {
        None => current,
        Some(n) => match current {
            None => Some(n),
            Some(c) => Some(c.merged(n)),
        },
    }
}

/// Applies an update request to an optional limiter.
pub fn update_limiter(current: &mut Option<RateLimiterConfig>, req: &Option<RateLimiterConfig>)
    ensures
        *final(current) == limiter_after(*old(current), *req),
{
    if let Some(n) = req {
        match current {
            Some(c) => c.update(n),
            None => {
                *current = Some(*n);
            },
        }
    }
}

} // verus!
