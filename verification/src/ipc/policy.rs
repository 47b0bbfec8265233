//! Budgets for unknown traffic: frames of unknown type and ignored fields
//! of known types.
//!
//! Unknown-type frames are bounded per consecutive streak (count and
//! bytes), over the connection lifetime (count and bytes), and in rate by a
//! token bucket. Ignored fields are bounded per frame by the
//! forward-compatibility policy and over the lifetime by key and byte
//! totals. A limit of `0` disables that control.
//!
//! Time is a monotonic clock reading in nanoseconds supplied by the
//! caller. The token bucket is kept exactly, in billionths of a token.

use crate::ipc::codec::DEFAULT_MAX_UNKNOWN_SKIPS;
use crate::ipc::error::{IpcError, ProtocolError};
use crate::ipc::forward_compat::{
    enforce, forward_compat_verdict, is_breach_error, promote_for_container, promote_for_host,
    promoted_container_policy, container_base_policy, host_base_policy, ForwardCompatPolicy,
    IgnoredFieldTally,
};
use crate::ipc::message::{container_wire_type, host_wire_type, ContainerToHost, HostToContainer};
use crate::ipc::semantics::ProtocolSemantics;
use vstd::prelude::*;

verus! {

/// Cumulative byte budget for consecutive unknown-type frames (1 MiB).
pub const DEFAULT_MAX_UNKNOWN_BYTES: usize = 1048576;

/// Maximum unknown frames over a connection lifetime.
pub const DEFAULT_MAX_UNKNOWN_TOTAL_MESSAGES: usize = 256;

/// Maximum unknown-message bytes over a connection lifetime (4 MiB).
pub const DEFAULT_MAX_UNKNOWN_TOTAL_BYTES: usize = 4194304;

/// Unknown-message token-bucket burst capacity.
pub const DEFAULT_UNKNOWN_RATE_BURST_CAPACITY: u32 = 64;

/// Unknown-message token-bucket refill rate per second.
pub const DEFAULT_UNKNOWN_RATE_REFILL_PER_SECOND: u32 = 16;

/// Default lifetime cap on ignored-field leaves across all known messages.
pub const DEFAULT_IGNORED_FIELD_LIFETIME_KEYS: u32 = 1024;

/// Default lifetime cap on ignored-field bytes across all known messages.
pub const DEFAULT_IGNORED_FIELD_LIFETIME_BYTES: u32 = 1048576;

/// Processing-phase heartbeat timeout, in seconds.
pub const DEFAULT_HEARTBEAT_TIMEOUT_SECS: u64 = 60;

/// One whole token, in billionths.
pub const TOKEN: u64 = 1000000000;

/// Nanoseconds per second.
pub const NANOS_PER_SECOND: u64 = 1000000000;

/// `a + b`, saturating at `usize::MAX`.
pub open spec fn sat_add_usize(a: nat, b: nat) -> nat {
    if a + b > usize::MAX {
        usize::MAX as nat
    } else {
        a + b
    }
}

/// `a + b`, saturating at `u32::MAX`.
pub open spec fn sat_add_u32(a: nat, b: nat) -> nat {
    if a + b > u32::MAX {
        u32::MAX as nat
    } else {
        a + b
    }
}

/// `e` is the error a streak of `count` frames and `bytes` bytes over
/// its limits is refused with: the count limit is checked first.
pub open spec fn streak_error(e: IpcError, count: nat, bytes: nat) -> bool {
    if count > DEFAULT_MAX_UNKNOWN_SKIPS {
        e matches IpcError::Protocol(ProtocolError::TooManyUnknownMessages { count: c, limit })
            && c == count && limit == DEFAULT_MAX_UNKNOWN_SKIPS
    } else {
        e matches IpcError::Protocol(ProtocolError::TooManyUnknownBytes { bytes: b, limit })
            && b == bytes && limit == DEFAULT_MAX_UNKNOWN_BYTES
    }
}

/// Per-connection consecutive unknown-frame accounting.
#[derive(Debug, Clone, Copy)]
pub struct UnknownFrameBudget {
    count: usize,
    bytes: usize,
}

impl UnknownFrameBudget {
    /// Frames in the current streak.
    pub closed spec fn count_spec(&self) -> nat {
        self.count as nat
    }

    /// Bytes in the current streak.
    pub closed spec fn bytes_spec(&self) -> nat {
        self.bytes as nat
    }

    /// An empty streak.
    pub fn new() -> (b: Self)
        ensures
            b.count_spec() == 0,
            b.bytes_spec() == 0,
    {
        UnknownFrameBudget { count: 0, bytes: 0 }
    }

    /// Reset consecutive unknown-message counters.
    pub fn reset(&mut self)
        ensures
            final(self).count_spec() == 0,
            final(self).bytes_spec() == 0,
    {
        self.count = 0;
        self.bytes = 0;
    }

    /// Record one unknown frame of `frame_len` bytes: the frame is counted
    /// (bytes saturating), then the streak count and the streak bytes are
    /// held to their limits.
    pub fn on_unknown(&mut self, frame_len: usize) -> (r: Result<(), IpcError>)
        requires
            old(self).count_spec() < usize::MAX,
        ensures
            final(self).count_spec() == old(self).count_spec() + 1,
            final(self).bytes_spec() == sat_add_usize(old(self).bytes_spec(), frame_len as nat),
            final(self).count_spec() > DEFAULT_MAX_UNKNOWN_SKIPS ==> (r matches Err(
                IpcError::Protocol(ProtocolError::TooManyUnknownMessages { count, limit }),
            ) && count == final(self).count_spec() && limit == DEFAULT_MAX_UNKNOWN_SKIPS),
            final(self).count_spec() <= DEFAULT_MAX_UNKNOWN_SKIPS && final(self).bytes_spec()
                > DEFAULT_MAX_UNKNOWN_BYTES ==> (r matches Err(
                IpcError::Protocol(ProtocolError::TooManyUnknownBytes { bytes, limit }),
            ) && bytes == final(self).bytes_spec() && limit == DEFAULT_MAX_UNKNOWN_BYTES),
            final(self).count_spec() <= DEFAULT_MAX_UNKNOWN_SKIPS && final(self).bytes_spec()
                <= DEFAULT_MAX_UNKNOWN_BYTES ==> r is Ok,
    {
        self.count = self.count + 1;
        self.bytes = self.bytes.saturating_add(frame_len);
        if self.count > DEFAULT_MAX_UNKNOWN_SKIPS {
            return Err(
                IpcError::Protocol(
                    ProtocolError::TooManyUnknownMessages {
                        count: self.count,
                        limit: DEFAULT_MAX_UNKNOWN_SKIPS,
                    },
                ),
            );
        }
        if self.bytes > DEFAULT_MAX_UNKNOWN_BYTES {
            return Err(
                IpcError::Protocol(
                    ProtocolError::TooManyUnknownBytes {
                        bytes: self.bytes,
                        limit: DEFAULT_MAX_UNKNOWN_BYTES,
                    },
                ),
            );
        }
        Ok(())
    }

    /// Number of consecutive unknown messages in the current streak.
    pub fn count(&self) -> (n: usize)
        ensures
            n == self.count_spec(),
    {
        self.count
    }

    /// Cumulative bytes across the current unknown streak.
    pub fn bytes(&self) -> (n: usize)
        ensures
            n == self.bytes_spec(),
    {
        self.bytes
    }
}

impl Default for UnknownFrameBudget {
    fn default() -> (b: Self)
        ensures
            b.count_spec() == 0,
            b.bytes_spec() == 0,
    {
        UnknownFrameBudget { count: 0, bytes: 0 }
    }
}

/// Independent unknown-traffic controls applied per connection. Any field
/// set to `0` disables that control.
#[derive(Debug, Clone, Copy, PartialEq, Eq)]
pub struct UnknownTrafficLimitConfig {
    /// Max unknown frames over connection lifetime (`0` disables).
    pub lifetime_message_limit: usize,
    /// Max unknown bytes over connection lifetime (`0` disables).
    pub lifetime_byte_limit: usize,
    /// Token-bucket burst capacity for unknown frame rate (`0` disables).
    pub rate_limit_burst_capacity: u32,
    /// Token refill rate (per second) for unknown frame rate (`0` disables).
    pub rate_limit_refill_per_second: u32,
    /// Max ignored-field leaves across all known-type messages (`0`
    /// disables).
    pub ignored_field_lifetime_keys: u32,
    /// Max ignored-field bytes across all known-type messages (`0`
    /// disables).
    pub ignored_field_lifetime_bytes: u32,
}

impl Default for UnknownTrafficLimitConfig {
    fn default() -> (c: Self)
        ensures
            c.lifetime_message_limit == DEFAULT_MAX_UNKNOWN_TOTAL_MESSAGES,
            c.lifetime_byte_limit == DEFAULT_MAX_UNKNOWN_TOTAL_BYTES,
            c.rate_limit_burst_capacity == DEFAULT_UNKNOWN_RATE_BURST_CAPACITY,
            c.rate_limit_refill_per_second == DEFAULT_UNKNOWN_RATE_REFILL_PER_SECOND,
            c.ignored_field_lifetime_keys == DEFAULT_IGNORED_FIELD_LIFETIME_KEYS,
            c.ignored_field_lifetime_bytes == DEFAULT_IGNORED_FIELD_LIFETIME_BYTES,
    {
        UnknownTrafficLimitConfig {
            lifetime_message_limit: DEFAULT_MAX_UNKNOWN_TOTAL_MESSAGES,
            lifetime_byte_limit: DEFAULT_MAX_UNKNOWN_TOTAL_BYTES,
            rate_limit_burst_capacity: DEFAULT_UNKNOWN_RATE_BURST_CAPACITY,
            rate_limit_refill_per_second: DEFAULT_UNKNOWN_RATE_REFILL_PER_SECOND,
            ignored_field_lifetime_keys: DEFAULT_IGNORED_FIELD_LIFETIME_KEYS,
            ignored_field_lifetime_bytes: DEFAULT_IGNORED_FIELD_LIFETIME_BYTES,
        }
    }
}

/// The rate limiter is on only when both burst and refill are positive.
pub open spec fn rate_enabled(c: UnknownTrafficLimitConfig) -> bool {
    c.rate_limit_burst_capacity > 0 && c.rate_limit_refill_per_second > 0
}

/// `c` with a half-disabled rate limiter fully disabled.
pub open spec fn normalized_spec(c: UnknownTrafficLimitConfig) -> UnknownTrafficLimitConfig {
    if rate_enabled(c) {
        c
    } else {
        UnknownTrafficLimitConfig {
            rate_limit_burst_capacity: 0,
            rate_limit_refill_per_second: 0,
            ..c
        }
    }
}

impl UnknownTrafficLimitConfig {
    /// Disables the rate limiter entirely when either of its two settings
    /// is `0`.
    pub fn normalized(self) -> (c: Self)
        ensures
            c == normalized_spec(self),
    {
        let mut normalized = self;
        if normalized.rate_limit_burst_capacity == 0 || normalized.rate_limit_refill_per_second
            == 0 {
            normalized.rate_limit_burst_capacity = 0;
            normalized.rate_limit_refill_per_second = 0;
        }
        normalized
    }

    /// Whether the rate limiter is on.
    pub fn rate_limiter_enabled(self) -> (r: bool)
        ensures
            r == rate_enabled(self),
    {
        self.rate_limit_burst_capacity > 0 && self.rate_limit_refill_per_second > 0
    }
}

/// The bucket's capacity, in billionths of a token.
pub open spec fn bucket_capacity(c: UnknownTrafficLimitConfig) -> nat {
    c.rate_limit_burst_capacity as nat * TOKEN as nat
}

/// The bucket after refilling from `last` to `now`: `elapsed_ns × refill`
/// billionths are added (capped at capacity) when time has advanced;
/// otherwise it is unchanged.
pub open spec fn refilled(tokens: nat, last: u64, now: u64, c: UnknownTrafficLimitConfig) -> (nat, u64) {
    if now > last {
        let added: nat = tokens + ((now - last) as nat) * (c.rate_limit_refill_per_second as nat);
        (if added > bucket_capacity(c) {
            bucket_capacity(c)
        } else {
            added
        }, now)
    } else {
        (tokens, last)
    }
}

/// One rate check at `now`: the refilled bucket and whether a whole
/// token was taken.
pub open spec fn rate_step(tokens: nat, last: u64, now: u64, c: UnknownTrafficLimitConfig) -> (
    nat,
    u64,
    bool,
) {
    if !rate_enabled(c) {
        (tokens, last, true)
    } else {
        let (t, l) = refilled(tokens, last, now, c);
        if t >= TOKEN {
            ((t - TOKEN) as nat, l, true)
        } else {
            (t, l, false)
        }
    }
}

/// Refilling only ever adds: when time advances from `last` to `now`, the
/// bucket holds `min(capacity, tokens + elapsed_ns × refill)` and the clock
/// moves to `now`; when it does not, nothing changes. So a bucket within
/// its capacity never holds fewer tokens after a refill than before, and a
/// later refill never holds fewer than an earlier one.
pub proof fn lemma_refill_adds(
    tokens: nat,
    last: u64,
    now: u64,
    later: u64,
    c: UnknownTrafficLimitConfig,
)
    requires
        tokens <= bucket_capacity(c),
        now <= later,
    ensures
        now > last ==> {
            let sum: int = tokens + (now - last) * c.rate_limit_refill_per_second;
            &&& refilled(tokens, last, now, c).0 == if sum > bucket_capacity(c) {
                bucket_capacity(c) as int
            } else {
                sum
            }
            &&& refilled(tokens, last, now, c).1 == now
        },
        now <= last ==> refilled(tokens, last, now, c) == (tokens, last),
        tokens <= refilled(tokens, last, now, c).0 <= bucket_capacity(c),
        refilled(tokens, last, now, c).0 <= refilled(tokens, last, later, c).0,
{
    if now > last {
        assert((now - last) * c.rate_limit_refill_per_second <= (later - last)
            * c.rate_limit_refill_per_second) by (nonlinear_arith)
            requires
                last < now <= later,
        ;
        assert(0 <= (now - last) * c.rate_limit_refill_per_second) by (nonlinear_arith)
            requires
                now > last,
        ;
    } else if later > last {
        assert(0 <= (later - last) * c.rate_limit_refill_per_second) by (nonlinear_arith)
            requires
                later > last,
        ;
    }
}

/// A bucket holding a whole token always admits a frame, whenever the
/// check is made: refilling never takes tokens away, so the check passes
/// and leaves one token less than the refilled bucket held.
pub proof fn lemma_whole_token_admits(tokens: nat, last: u64, now: u64, c: UnknownTrafficLimitConfig)
    requires
        TOKEN <= tokens <= bucket_capacity(c),
    ensures
        rate_step(tokens, last, now, c).2,
        rate_enabled(c) ==> rate_step(tokens, last, now, c).0 + TOKEN == refilled(
            tokens,
            last,
            now,
            c,
        ).0,
{
    lemma_refill_adds(tokens, last, now, now, c);
}

/// How many of `k` rate checks made at one instant `now` succeed.
pub open spec fn admitted_at(tokens: nat, last: u64, now: u64, c: UnknownTrafficLimitConfig, k: nat) -> nat
    decreases k,
{
    if k == 0 {
        0
    } else {
        let (t, l, ok) = rate_step(tokens, last, now, c);
        (if ok {
            1nat
        } else {
            0nat
        }) + admitted_at(t, l, now, c, (k - 1) as nat)
    }
}

/// At a fixed instant, a bucket holding `n` whole tokens (and nothing to
/// refill) admits exactly `min(n, k)` of `k` unknown frames: a burst of
/// unknown traffic is bounded by the bucket's content.
pub proof fn lemma_burst_bound(n: nat, last: u64, c: UnknownTrafficLimitConfig, k: nat)
    requires
        rate_enabled(c),
    ensures
        admitted_at(n * TOKEN as nat, last, last, c, k) == if n < k {
            n
        } else {
            k
        },
    decreases k,
{
    if k > 0 {
        if n > 0 {
            assert(n * TOKEN as nat - TOKEN as nat == (n - 1) as nat * TOKEN as nat) by (nonlinear_arith)
                requires
                    n > 0,
            ;
            lemma_burst_bound((n - 1) as nat, last, c, (k - 1) as nat);
        } else {
            lemma_burst_bound(0, last, c, (k - 1) as nat);
        }
    }
}

/// Server-side unknown-traffic tracker: the consecutive streak, lifetime
/// totals, the rate bucket and lifetime ignored-field totals.
#[derive(Debug, Clone, Copy)]
pub struct UnknownTrafficBudget {
    consecutive: UnknownFrameBudget,
    total_count: usize,
    total_bytes: usize,
    ignored_field_total_keys: u32,
    ignored_field_total_bytes: u32,
    limits: UnknownTrafficLimitConfig,
    rate_tokens: u64,
    rate_last_refill: u64,
}

impl UnknownTrafficBudget {
    /// The consecutive streak.
    pub closed spec fn streak(&self) -> UnknownFrameBudget {
        self.consecutive
    }

    /// Unknown frames over the lifetime (saturating).
    pub closed spec fn total_count_spec(&self) -> nat {
        self.total_count as nat
    }

    /// Unknown bytes over the lifetime (saturating).
    pub closed spec fn total_bytes_spec(&self) -> nat {
        self.total_bytes as nat
    }

    /// Ignored-field leaves over the lifetime (saturating).
    pub closed spec fn ignored_keys_spec(&self) -> nat {
        self.ignored_field_total_keys as nat
    }

    /// Ignored-field bytes over the lifetime (saturating).
    pub closed spec fn ignored_bytes_spec(&self) -> nat {
        self.ignored_field_total_bytes as nat
    }

    /// The (normalized) limits.
    pub closed spec fn limits_spec(&self) -> UnknownTrafficLimitConfig {
        self.limits
    }

    /// The bucket's content, in billionths of a token.
    pub closed spec fn tokens_spec(&self) -> nat {
        self.rate_tokens as nat
    }

    /// The clock reading of the last refill.
    pub closed spec fn last_refill_spec(&self) -> u64 {
        self.rate_last_refill
    }

    /// A fresh tracker at clock reading `now`, with a full bucket.
    pub fn new(now: u64, limits: UnknownTrafficLimitConfig) -> (b: Self)
        ensures
            b.limits_spec() == normalized_spec(limits),
            b.streak().count_spec() == 0 && b.streak().bytes_spec() == 0,
            b.total_count_spec() == 0 && b.total_bytes_spec() == 0,
            b.ignored_keys_spec() == 0 && b.ignored_bytes_spec() == 0,
            b.tokens_spec() == bucket_capacity(normalized_spec(limits)),
            b.last_refill_spec() == now,
    {
        let limits = limits.normalized();
        let tokens: u64 = (limits.rate_limit_burst_capacity as u64) * TOKEN;
        UnknownTrafficBudget {
            consecutive: UnknownFrameBudget::new(),
            total_count: 0,
            total_bytes: 0,
            ignored_field_total_keys: 0,
            ignored_field_total_bytes: 0,
            limits,
            rate_tokens: tokens,
            rate_last_refill: now,
        }
    }

    /// Reset the consecutive streak (a known message arrived).
    pub fn reset_consecutive(&mut self)
        ensures
            streak_cleared(*old(self), *final(self)),
    {
        self.consecutive.reset();
    }

    /// Takes one token at clock reading `now`, refilling first.
    fn consume_rate_token(&mut self, now: u64) -> (r: Result<(), IpcError>)
        ensures
            final(self).streak() == old(self).streak(),
            final(self).total_count_spec() == old(self).total_count_spec(),
            final(self).total_bytes_spec() == old(self).total_bytes_spec(),
            final(self).ignored_keys_spec() == old(self).ignored_keys_spec(),
            final(self).ignored_bytes_spec() == old(self).ignored_bytes_spec(),
            final(self).limits_spec() == old(self).limits_spec(),
            ({
                let (t, l, ok) = rate_step(
                    old(self).tokens_spec(),
                    old(self).last_refill_spec(),
                    now,
                    old(self).limits_spec(),
                );
                &&& final(self).tokens_spec() == t
                &&& final(self).last_refill_spec() == l
                &&& ok ==> r is Ok
                &&& !ok ==> (r matches Err(
                    IpcError::Protocol(
                        ProtocolError::UnknownMessageRateLimitExceeded {
                            burst_capacity,
                            refill_per_second,
                        },
                    ),
                ) && burst_capacity == old(self).limits_spec().rate_limit_burst_capacity
                    && refill_per_second == old(self).limits_spec().rate_limit_refill_per_second)
            }),
    {
        if !self.limits.rate_limiter_enabled() {
            return Ok(());
        }
        let capacity: u64 = (self.limits.rate_limit_burst_capacity as u64) * TOKEN;
        if now > self.rate_last_refill {
            let elapsed: u128 = (now - self.rate_last_refill) as u128;
            let refill: u128 = self.limits.rate_limit_refill_per_second as u128;
            assert(elapsed * refill <= 0xffff_ffff_ffff_ffffu128 * 0xffff_ffffu128) by (nonlinear_arith)
                requires
                    elapsed <= 0xffff_ffff_ffff_ffffu128,
                    refill <= 0xffff_ffffu128,
            ;
            let added: u128 = (self.rate_tokens as u128) + elapsed * refill;
            let tokens: u64 = if added > capacity as u128 {
                capacity
            } else {
                added as u64
            };
            self.rate_tokens = tokens;
            self.rate_last_refill = now;
        }
        if self.rate_tokens >= TOKEN {
            self.rate_tokens = self.rate_tokens - TOKEN;
            return Ok(());
        }
        Err(
            IpcError::Protocol(
                ProtocolError::UnknownMessageRateLimitExceeded {
                    burst_capacity: self.limits.rate_limit_burst_capacity,
                    refill_per_second: self.limits.rate_limit_refill_per_second,
                },
            ),
        )
    }

    /// Record one unknown frame of `frame_len` bytes at clock reading
    /// `now`: the streak is charged first (its limits are checked there),
    /// then the lifetime totals (count, then bytes), then the rate bucket.
    pub fn on_unknown(&mut self, frame_len: usize, now: u64) -> (r: Result<(), IpcError>)
        requires
            old(self).streak().count_spec() < usize::MAX,
        ensures
            unknown_frame_outcome(*old(self), *final(self), frame_len as nat, now, r),
    {
        match self.consecutive.on_unknown(frame_len) {
            Ok(()) => {},
            Err(e) => return Err(e),
        }
        self.total_count = self.total_count.saturating_add(1);
        self.total_bytes = self.total_bytes.saturating_add(frame_len);
        if self.limits.lifetime_message_limit > 0 && self.total_count
            > self.limits.lifetime_message_limit {
            return Err(
                IpcError::Protocol(
                    ProtocolError::TooManyUnknownMessagesTotal {
                        count: self.total_count,
                        limit: self.limits.lifetime_message_limit,
                    },
                ),
            );
        }
        if self.limits.lifetime_byte_limit > 0 && self.total_bytes
            > self.limits.lifetime_byte_limit {
            return Err(
                IpcError::Protocol(
                    ProtocolError::TooManyUnknownBytesTotal {
                        bytes: self.total_bytes,
                        limit: self.limits.lifetime_byte_limit,
                    },
                ),
            );
        }
        self.consume_rate_token(now)
    }

    /// Applies the per-frame policy to `tally`, then charges it to the
    /// lifetime ignored-field totals (saturating) and holds them to their
    /// non-zero limits, keys before bytes.
    pub fn apply_tally(
        &mut self,
        policy: ForwardCompatPolicy,
        tally: IgnoredFieldTally,
        message_type: &'static str,
    ) -> (r: Result<(), IpcError>)
        ensures
            final(self).streak() == old(self).streak(),
            final(self).total_count_spec() == old(self).total_count_spec(),
            final(self).total_bytes_spec() == old(self).total_bytes_spec(),
            final(self).limits_spec() == old(self).limits_spec(),
            final(self).tokens_spec() == old(self).tokens_spec(),
            final(self).last_refill_spec() == old(self).last_refill_spec(),
            ({
                let lim = old(self).limits_spec();
                let empty = tally.keys == 0 && tally.bytes == 0;
                let keys = sat_add_u32(old(self).ignored_keys_spec(), tally.keys as nat);
                let bytes = sat_add_u32(old(self).ignored_bytes_spec(), tally.bytes as nat);
                let keys_over = lim.ignored_field_lifetime_keys > 0 && keys
                    > lim.ignored_field_lifetime_keys;
                let bytes_over = lim.ignored_field_lifetime_bytes > 0 && bytes
                    > lim.ignored_field_lifetime_bytes;
                &&& forward_compat_verdict(policy, tally) is Some ==> (r matches Err(e) && is_breach_error(e, policy, tally, message_type@)) && final(self).ignored_keys_spec() == old(self).ignored_keys_spec() && final(self).ignored_bytes_spec() == old(self).ignored_bytes_spec()
                &&& forward_compat_verdict(policy, tally) is None && empty ==> r is Ok && final(self).ignored_keys_spec() == old(self).ignored_keys_spec() && final(self).ignored_bytes_spec() == old(self).ignored_bytes_spec()
                &&& forward_compat_verdict(policy, tally) is None && !empty ==> {
                    &&& final(self).ignored_keys_spec() == keys
                    &&& final(self).ignored_bytes_spec() == bytes
                    &&& keys_over ==> (r matches Err(
                        IpcError::Protocol(
                            ProtocolError::IgnoredFieldBudgetExceeded {
                                message_type: m,
                                scope,
                                dimension,
                                observed,
                                limit,
                            },
                        ),
                    ) && m == message_type && scope@ == "lifetime"@ && dimension@ == "keys"@
                        && observed == keys && limit == lim.ignored_field_lifetime_keys)
                    &&& !keys_over && bytes_over ==> (r matches Err(
                        IpcError::Protocol(
                            ProtocolError::IgnoredFieldBudgetExceeded {
                                message_type: m,
                                scope,
                                dimension,
                                observed,
                                limit,
                            },
                        ),
                    ) && m == message_type && scope@ == "lifetime"@ && dimension@ == "bytes"@
                        && observed == bytes && limit == lim.ignored_field_lifetime_bytes)
                    &&& !keys_over && !bytes_over ==> r is Ok
                }
            }),
    {
        match enforce(policy, tally, message_type) {
            Ok(()) => {},
            Err(e) => return Err(e),
        }
        if tally.is_empty() {
            return Ok(());
        }
        self.ignored_field_total_keys = self.ignored_field_total_keys.saturating_add(tally.keys);
        self.ignored_field_total_bytes = self.ignored_field_total_bytes.saturating_add(
            tally.bytes,
        );
        if self.limits.ignored_field_lifetime_keys > 0 && self.ignored_field_total_keys
            > self.limits.ignored_field_lifetime_keys {
            return Err(
                IpcError::Protocol(
                    ProtocolError::IgnoredFieldBudgetExceeded {
                        message_type,
                        scope: "lifetime",
                        dimension: "keys",
                        observed: self.ignored_field_total_keys,
                        limit: self.limits.ignored_field_lifetime_keys,
                    },
                ),
            );
        }
        if self.limits.ignored_field_lifetime_bytes > 0 && self.ignored_field_total_bytes
            > self.limits.ignored_field_lifetime_bytes {
            return Err(
                IpcError::Protocol(
                    ProtocolError::IgnoredFieldBudgetExceeded {
                        message_type,
                        scope: "lifetime",
                        dimension: "bytes",
                        observed: self.ignored_field_total_bytes,
                        limit: self.limits.ignored_field_lifetime_bytes,
                    },
                ),
            );
        }
        Ok(())
    }

    /// Ignored-field accounting for an inbound container → host message:
    /// its baseline policy, promoted for `semantics`, then
    /// [`Self::apply_tally`] under its wire type.
    pub fn on_ignored_container(
        &mut self,
        msg: &ContainerToHost,
        tally: IgnoredFieldTally,
        semantics: ProtocolSemantics,
    ) -> (r: Result<(), IpcError>)
        ensures
            final(self).streak() == old(self).streak(),
            final(self).limits_spec() == old(self).limits_spec(),
            forward_compat_verdict(
                promoted_container_policy(container_base_policy(*msg), *msg, semantics),
                tally,
            ) is Some ==> (r matches Err(e) && is_breach_error(
                e,
                promoted_container_policy(container_base_policy(*msg), *msg, semantics),
                tally,
                container_wire_type(*msg),
            )),
            tally.keys == 0 && tally.bytes == 0 ==> r is Ok,
    {
        let policy = promote_for_container(msg.forward_compat_base(), msg, semantics);
        self.apply_tally(policy, tally, msg.wire_type())
    }

    /// Ignored-field accounting for an inbound host → container message:
    /// its baseline policy (no promotions), then [`Self::apply_tally`]
    /// under its wire type.
    pub fn on_ignored_host(
        &mut self,
        msg: &HostToContainer,
        tally: IgnoredFieldTally,
        semantics: ProtocolSemantics,
    ) -> (r: Result<(), IpcError>)
        ensures
            final(self).streak() == old(self).streak(),
            final(self).limits_spec() == old(self).limits_spec(),
            forward_compat_verdict(host_base_policy(*msg), tally) is Some ==> (r matches Err(e)
                && is_breach_error(e, host_base_policy(*msg), tally, host_wire_type(*msg))),
            tally.keys == 0 && tally.bytes == 0 ==> r is Ok,
    {
        let policy = promote_for_host(msg.forward_compat_base(), msg, semantics);
        self.apply_tally(policy, tally, msg.wire_type())
    }

    /// Frames in the current streak.
    pub fn count(&self) -> (n: usize)
        ensures
            n == self.streak().count_spec(),
    {
        self.consecutive.count()
    }

    /// Bytes in the current streak.
    pub fn bytes(&self) -> (n: usize)
        ensures
            n == self.streak().bytes_spec(),
    {
        self.consecutive.bytes()
    }

    /// Unknown frames over the lifetime.
    pub fn total_count(&self) -> (n: usize)
        ensures
            n == self.total_count_spec(),
    {
        self.total_count
    }

    /// Unknown bytes over the lifetime.
    pub fn total_bytes(&self) -> (n: usize)
        ensures
            n == self.total_bytes_spec(),
    {
        self.total_bytes
    }

    /// The (normalized) limits.
    pub fn limits(&self) -> (c: UnknownTrafficLimitConfig)
        ensures
            c == self.limits_spec(),
    {
        self.limits
    }
}

/// `post` is `pre` with the consecutive streak emptied and all else kept.
pub open spec fn streak_cleared(pre: UnknownTrafficBudget, post: UnknownTrafficBudget) -> bool {
    &&& post.streak().count_spec() == 0
    &&& post.streak().bytes_spec() == 0
    &&& post.total_count_spec() == pre.total_count_spec()
    &&& post.total_bytes_spec() == pre.total_bytes_spec()
    &&& post.ignored_keys_spec() == pre.ignored_keys_spec()
    &&& post.ignored_bytes_spec() == pre.ignored_bytes_spec()
    &&& post.limits_spec() == pre.limits_spec()
    &&& post.tokens_spec() == pre.tokens_spec()
    &&& post.last_refill_spec() == pre.last_refill_spec()
}

/// What charging one unknown frame of `frame_len` bytes at clock reading
/// `now` does: `pre` becomes `post` and the charge answers `r`. The streak
/// is charged and checked first; past it, the lifetime totals are charged
/// (saturating) and checked, count before bytes; past them, one token is
/// taken from the refilled bucket. A check that fails ends the charge.
pub open spec fn unknown_frame_outcome(
    pre: UnknownTrafficBudget,
    post: UnknownTrafficBudget,
    frame_len: nat,
    now: u64,
    r: Result<(), IpcError>,
) -> bool {
    let streak_count = pre.streak().count_spec() + 1;
    let streak_bytes = sat_add_usize(pre.streak().bytes_spec(), frame_len);
    let streak_ok = streak_count <= DEFAULT_MAX_UNKNOWN_SKIPS && streak_bytes
        <= DEFAULT_MAX_UNKNOWN_BYTES;
    let lim = pre.limits_spec();
    let count = sat_add_usize(pre.total_count_spec(), 1);
    let bytes = sat_add_usize(pre.total_bytes_spec(), frame_len);
    let count_over = lim.lifetime_message_limit > 0 && count > lim.lifetime_message_limit;
    let bytes_over = lim.lifetime_byte_limit > 0 && bytes > lim.lifetime_byte_limit;
    let (t, l, ok) = rate_step(pre.tokens_spec(), pre.last_refill_spec(), now, lim);
    &&& post.streak().count_spec() == streak_count
    &&& post.streak().bytes_spec() == streak_bytes
    &&& post.limits_spec() == lim
    &&& post.ignored_keys_spec() == pre.ignored_keys_spec()
    &&& post.ignored_bytes_spec() == pre.ignored_bytes_spec()
    &&& if !streak_ok {
        &&& r matches Err(e) && streak_error(e, streak_count, streak_bytes)
        &&& post.total_count_spec() == pre.total_count_spec()
        &&& post.total_bytes_spec() == pre.total_bytes_spec()
        &&& post.tokens_spec() == pre.tokens_spec()
        &&& post.last_refill_spec() == pre.last_refill_spec()
    } else {
        &&& post.total_count_spec() == count
        &&& post.total_bytes_spec() == bytes
        &&& if count_over || bytes_over {
            &&& post.tokens_spec() == pre.tokens_spec()
            &&& post.last_refill_spec() == pre.last_refill_spec()
            &&& count_over ==> (r matches Err(
                IpcError::Protocol(ProtocolError::TooManyUnknownMessagesTotal { count: c, limit }),
            ) && c == count && limit == lim.lifetime_message_limit)
            &&& !count_over ==> (r matches Err(
                IpcError::Protocol(ProtocolError::TooManyUnknownBytesTotal { bytes: b, limit }),
            ) && b == bytes && limit == lim.lifetime_byte_limit)
        } else {
            &&& post.tokens_spec() == t
            &&& post.last_refill_spec() == l
            &&& ok ==> r is Ok
            &&& !ok ==> (r matches Err(
                IpcError::Protocol(
                    ProtocolError::UnknownMessageRateLimitExceeded {
                        burst_capacity,
                        refill_per_second,
                    },
                ),
            ) && burst_capacity == lim.rate_limit_burst_capacity && refill_per_second
                == lim.rate_limit_refill_per_second)
        }
    }
}

} // verus!
