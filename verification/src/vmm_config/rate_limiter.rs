//! Token buckets and rate limiters, as far as configuration reaches: sizes and
//! refill times, and which bucket replaces which.

use vstd::prelude::*;

verus! {

/// How one token bucket is to be set up.
#[derive(Clone, Copy, Debug, PartialEq, Eq, Default)]
pub struct TokenBucketConfig {
    /// The bucket's capacity in tokens.
    pub size: u64,
    /// Extra tokens that are granted once, at the start.
    pub one_time_burst: Option<u64>,
    /// The time in milliseconds in which an empty bucket fills up.
    pub refill_time: u64,
}

/// A token bucket as a device holds it.
#[derive(Clone, Copy, Debug, PartialEq, Eq)]
pub struct TokenBucket {
    /// The bucket's capacity in tokens.
    pub size: u64,
    /// Extra tokens that are granted once, at the start.
    pub one_time_burst: Option<u64>,
    /// The time in milliseconds in which an empty bucket fills up.
    pub refill_time: u64,
}

impl TokenBucketConfig {
    /// The bucket that this configuration describes.
    pub open spec fn bucket(self) -> TokenBucket {
        TokenBucket {
            size: self.size,
            one_time_burst: self.one_time_burst,
            refill_time: self.refill_time,
        }
    }

    /// Makes the bucket that this configuration describes.
    pub fn into_token_bucket(self) -> (r: TokenBucket)
        ensures
            r == self.bucket(),
    {
        TokenBucket {
            size: self.size,
            one_time_burst: self.one_time_burst,
            refill_time: self.refill_time,
        }
    }
}

/// The bucket that an optional configuration describes, if there is one.
pub open spec fn optional_bucket(config: Option<TokenBucketConfig>) -> Option<TokenBucket> {
    match config {
        Some(c) => Some(c.bucket()),
        None => None,
    }
}

/// How a rate limiter is to be set up: a bucket for bytes and one for
/// operations, each optional.
#[derive(Clone, Copy, Debug, PartialEq, Eq, Default)]
pub struct RateLimiterConfig {
    /// The bucket that limits bytes.
    pub bandwidth: Option<TokenBucketConfig>,
    /// The bucket that limits operations.
    pub ops: Option<TokenBucketConfig>,
}

impl RateLimiterConfig {
    /// This configuration after `new` was laid over it: a bucket that `new`
    /// names replaces the one here, the other stays.
    pub open spec fn updated(self, new: RateLimiterConfig) -> RateLimiterConfig {
        RateLimiterConfig {
            bandwidth: if new.bandwidth is Some {
                new.bandwidth
            } else {
                self.bandwidth
            },
            ops: if new.ops is Some {
                new.ops
            } else {
                self.ops
            },
        }
    }

    /// Lays `new` over this configuration.
    pub fn update(&mut self, new: &RateLimiterConfig)
        ensures
            *final(self) == old(self).updated(*new),
    {
        if new.bandwidth.is_some() {
            self.bandwidth = new.bandwidth;
        }
        if new.ops.is_some() {
            self.ops = new.ops;
        }
    }

    /// The limiter that this configuration describes.
    pub open spec fn limiter(self) -> RateLimiter {
        RateLimiter { bandwidth: optional_bucket(self.bandwidth), ops: optional_bucket(self.ops) }
    }

    /// Makes the limiter that this configuration describes.
    pub fn into_rate_limiter(self) -> (r: RateLimiter)
        ensures
            r == self.limiter(),
    {
        let bandwidth = match self.bandwidth {
            Some(c) => Some(c.into_token_bucket()),
            None => None,
        };
        let ops = match self.ops {
            Some(c) => Some(c.into_token_bucket()),
            None => None,
        };
        RateLimiter { bandwidth, ops }
    }
}

/// The limiter that an optional configuration describes; without one, a
/// limiter that limits nothing.
pub open spec fn optional_limiter(config: Option<RateLimiterConfig>) -> RateLimiter {
    match config {
        Some(c) => c.limiter(),
        None => RateLimiter { bandwidth: None, ops: None },
    }
}

/// The buckets of a rate limiter as a device holds them. A missing bucket
/// limits nothing.
#[derive(Clone, Copy, Debug, PartialEq, Eq)]
pub struct RateLimiter {
    /// The bucket that limits bytes.
    pub bandwidth: Option<TokenBucket>,
    /// The bucket that limits operations.
    pub ops: Option<TokenBucket>,
}

impl RateLimiter {
    /// This limiter after its buckets were replaced by those that are given;
    /// where none is given the bucket stays.
    pub open spec fn patched(self, bytes: Option<TokenBucket>, ops: Option<TokenBucket>)
        -> RateLimiter {
        RateLimiter {
            bandwidth: if bytes is Some {
                bytes
            } else {
                self.bandwidth
            },
            ops: if ops is Some {
                ops
            } else {
                self.ops
            },
        }
    }

    /// Of two patches in a row the later one decides: each bucket that it
    /// names is the one in force, whatever the earlier patch named; a bucket
    /// that it leaves out is as the earlier patch left it.
    pub proof fn lemma_later_patch_decides(
        self,
        first_bytes: Option<TokenBucket>,
        first_ops: Option<TokenBucket>,
        later_bytes: Option<TokenBucket>,
        later_ops: Option<TokenBucket>,
    )
        ensures
            later_bytes is Some ==> self.patched(first_bytes, first_ops).patched(
                later_bytes,
                later_ops,
            ).bandwidth == later_bytes,
            later_ops is Some ==> self.patched(first_bytes, first_ops).patched(
                later_bytes,
                later_ops,
            ).ops == later_ops,
            later_bytes is None ==> self.patched(first_bytes, first_ops).patched(
                later_bytes,
                later_ops,
            ).bandwidth == self.patched(first_bytes, first_ops).bandwidth,
            later_ops is None ==> self.patched(first_bytes, first_ops).patched(
                later_bytes,
                later_ops,
            ).ops == self.patched(first_bytes, first_ops).ops,
    {
    }

    /// A limiter without buckets.
    pub fn unlimited() -> (r: RateLimiter)
        ensures
            r == (RateLimiter { bandwidth: None, ops: None }),
    {
        RateLimiter { bandwidth: None, ops: None }
    }

    /// Replaces the buckets by those that are given, in place.
    pub fn update_buckets(&mut self, bytes: Option<TokenBucket>, ops: Option<TokenBucket>)
        ensures
            *final(self) == old(self).patched(bytes, ops),
    {
        if bytes.is_some() {
            self.bandwidth = bytes;
        }
        if ops.is_some() {
            self.ops = ops;
        }
    }
}

} // verus!
