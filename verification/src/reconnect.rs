//! Reconnection backoff policy: exponential delay with an optional jitter
//! factor, a cap, and an attempt counter that resets on a successful
//! authenticated session.
//!
//! All delays are in milliseconds. The jitter source is a raw entropy word
//! supplied by the caller; the delay computation itself is deterministic in
//! its inputs.

use vstd::prelude::*;

verus! {

/// `mult^n` over naturals.
pub open spec fn spec_pow(mult: nat, n: nat) -> nat
    decreases n,
{
    if n == 0 {
        1
    } else {
        mult * spec_pow(mult, (n - 1) as nat)
    }
}

/// The uncapped backoff delay for a given attempt: `base * mult^attempt`.
pub open spec fn spec_raw_delay(base: u64, mult: u64, attempt: nat) -> nat {
    (base * spec_pow(mult as nat, attempt)) as nat
}

/// The policy delay: `min(max_delay, base * mult^attempt)`.
pub open spec fn spec_backoff_delay(base: u64, mult: u64, max_delay: u64, attempt: nat) -> int {
    vstd::math::min(max_delay as int, spec_raw_delay(base, mult, attempt) as int)
}

/// The jitter factor drawn from an entropy word: a value in `[500, 1500]`,
/// interpreted in thousandths.
pub open spec fn spec_jitter_factor(entropy: u64) -> int {
    500 + entropy as int % 1001
}

/// A jittered delay: `delay * factor / 1000`, saturating at `u64::MAX`.
pub open spec fn spec_jittered_delay(delay: int, entropy: u64) -> int {
    vstd::math::min(delay * spec_jitter_factor(entropy) / 1000, u64::MAX as int)
}

/// With a multiplier of at least one, the power function never decreases
/// as the exponent grows.
proof fn lemma_pow_monotonic(mult: nat, a: nat, b: nat)
    requires
        mult >= 1,
        a <= b,
    ensures
        spec_pow(mult, a) <= spec_pow(mult, b),
    decreases b,
{
    if a < b {
        lemma_pow_monotonic(mult, a, (b - 1) as nat);
        assert(spec_pow(mult, b) == mult * spec_pow(mult, (b - 1) as nat));
        assert(spec_pow(mult, (b - 1) as nat) <= mult * spec_pow(mult, (b - 1) as nat))
            by (nonlinear_arith)
            requires mult >= 1, spec_pow(mult, (b - 1) as nat) >= 0;
    }
}

/// Once the raw delay reaches the cap at some attempt, it stays at or above
/// the cap for every later attempt.
proof fn lemma_raw_delay_monotonic(base: u64, mult: u64, a: nat, b: nat)
    requires
        mult >= 1,
        a <= b,
    ensures
        spec_raw_delay(base, mult, a) <= spec_raw_delay(base, mult, b),
{
    lemma_pow_monotonic(mult as nat, a, b);
    assert(base * spec_pow(mult as nat, a) <= base * spec_pow(mult as nat, b))
        by (nonlinear_arith)
        requires spec_pow(mult as nat, a) <= spec_pow(mult as nat, b), base >= 0;
}

/// Computes `min(max_delay, base * mult^attempt)` without overflow.
fn backoff_delay(base: u64, mult: u64, max_delay: u64, attempt: u32) -> (r: u64)
    requires
        mult >= 1,
    ensures
        r as int == spec_backoff_delay(base, mult, max_delay, attempt as nat),
{
    let mut d: u64 = base;
    let mut i: u32 = 0;
    proof {
        assert(spec_pow(mult as nat, 0) == 1);
    }
    while i < attempt
        invariant
            mult >= 1,
            i <= attempt,
            d as int == spec_raw_delay(base, mult, i as nat),
        decreases attempt - i,
    {
        if d >= max_delay {
            // The raw delay only grows from here, so the cap is the answer.
            proof {
                lemma_raw_delay_monotonic(base, mult, i as nat, attempt as nat);
            }
            return max_delay;
        }
        let next = match d.checked_mul(mult) {
            Some(x) => x,
            None => {
                // The true product already exceeds u64::MAX >= max_delay,
                // and it only grows from here.
                proof {
                    assert(spec_raw_delay(base, mult, (i + 1) as nat)
                        == spec_raw_delay(base, mult, i as nat) * mult) by {
                        assert(spec_pow(mult as nat, (i + 1) as nat)
                            == mult * spec_pow(mult as nat, i as nat));
                        assert(base * (mult * spec_pow(mult as nat, i as nat))
                            == (base * spec_pow(mult as nat, i as nat)) * mult)
                            by (nonlinear_arith);
                    }
                    lemma_raw_delay_monotonic(base, mult, (i + 1) as nat, attempt as nat);
                }
                return max_delay;
            },
        };
        proof {
            assert(spec_raw_delay(base, mult, (i + 1) as nat)
                == spec_raw_delay(base, mult, i as nat) * mult) by {
                assert(spec_pow(mult as nat, (i + 1) as nat)
                    == mult * spec_pow(mult as nat, i as nat));
                assert(base * (mult * spec_pow(mult as nat, i as nat))
                    == (base * spec_pow(mult as nat, i as nat)) * mult)
                    by (nonlinear_arith);
            }
        }
        d = next;
        i = i + 1;
    }
    if d > max_delay {
        max_delay
    } else {
        d
    }
}

/// Applies the jitter factor drawn from `entropy` to a delay.
fn apply_jitter(delay: u64, entropy: u64) -> (r: u64)
    ensures
        r as int == spec_jittered_delay(delay as int, entropy),
{
    let factor: u64 = 500 + entropy % 1001;
    proof {
        assert(delay as int * factor as int <= u64::MAX as int * 1500) by (nonlinear_arith)
            requires delay <= u64::MAX, factor <= 1500;
    }
    let q: u128 = (delay as u128) * (factor as u128) / 1000;
    if q > u64::MAX as u128 {
        u64::MAX
    } else {
        q as u64
    }
}

/// Drives the reconnection schedule for one WebSocket endpoint: how many
/// attempts were made, whether another is allowed, and how long to wait
/// before it.
pub struct ReconnectManager {
    pub max_attempts: u32,
    pub current_attempt: u32,
    pub base_delay_ms: u64,
    pub max_delay_ms: u64,
    pub backoff_multiplier: u64,
    pub jitter: bool,
}

impl ReconnectManager {
    /// The multiplier is kept at one or above so the delay schedule never
    /// shrinks between attempts.
    pub open spec fn wf(&self) -> bool {
        self.backoff_multiplier >= 1
    }

    pub open spec fn spec_should_reconnect(&self) -> bool {
        self.max_attempts == 0 || self.current_attempt < self.max_attempts
    }

    /// The deterministic (jitter-free) delay for a given attempt number
    /// under this manager's policy.
    pub open spec fn spec_delay(&self, attempt: nat) -> int {
        spec_backoff_delay(self.base_delay_ms, self.backoff_multiplier, self.max_delay_ms, attempt)
    }

    /// Default policy: unbounded attempts, 1 s base delay, 5 min cap,
    /// doubling, jitter on.
    pub fn new() -> (r: Self)
        ensures
            r.wf(),
            r.max_attempts == 0,
            r.current_attempt == 0,
            r.base_delay_ms == 1000,
            r.max_delay_ms == 300000,
            r.backoff_multiplier == 2,
            r.jitter,
    {
        ReconnectManager {
            max_attempts: 0,
            current_attempt: 0,
            base_delay_ms: 1000,
            max_delay_ms: 300000,
            backoff_multiplier: 2,
            jitter: true,
        }
    }

    /// Sets the attempt limit; zero means unbounded.
    pub fn with_max_attempts(self, max_attempts: u32) -> (r: Self)
        ensures
            r == (Self { max_attempts, ..self }),
    {
        Self { max_attempts, ..self }
    }

    /// Sets the base delay in milliseconds.
    pub fn with_base_delay(self, delay_ms: u64) -> (r: Self)
        ensures
            r == (Self { base_delay_ms: delay_ms, ..self }),
    {
        Self { base_delay_ms: delay_ms, ..self }
    }

    /// Sets the delay cap in milliseconds.
    pub fn with_max_delay(self, delay_ms: u64) -> (r: Self)
        ensures
            r == (Self { max_delay_ms: delay_ms, ..self }),
    {
        Self { max_delay_ms: delay_ms, ..self }
    }

    /// Sets the backoff multiplier; a value of zero is raised to one so the
    /// schedule stays well formed.
    pub fn with_backoff_multiplier(self, multiplier: u64) -> (r: Self)
        ensures
            r == (Self {
                backoff_multiplier: if multiplier == 0 { 1u64 } else { multiplier },
                ..self
            }),
            r.wf(),
    {
        let m: u64 = if multiplier == 0 { 1 } else { multiplier };
        Self { backoff_multiplier: m, ..self }
    }

    /// Enables or disables jitter.
    pub fn with_jitter(self, jitter: bool) -> (r: Self)
        ensures
            r == (Self { jitter, ..self }),
    {
        Self { jitter, ..self }
    }

    /// Whether another connection attempt is allowed.
    pub fn should_reconnect(&self) -> (r: bool)
        ensures
            r == self.spec_should_reconnect(),
    {
        self.max_attempts == 0 || self.current_attempt < self.max_attempts
    }

    /// The delay before the next attempt, and one more attempt counted.
    ///
    /// With jitter off the result is exactly `min(max_delay, base * mult^n)`
    /// for the current attempt number `n`; with jitter on it is that delay
    /// scaled by a factor in `[0.5, 1.5]` drawn from `entropy`. When no
    /// further attempt is allowed the result is zero and nothing changes.
    pub fn next_delay_from_entropy(&mut self, entropy: u64) -> (r: u64)
        requires
            old(self).wf(),
        ensures
            final(self).wf(),
            !old(self).spec_should_reconnect() ==> r == 0 && *final(self) == *old(self),
            old(self).spec_should_reconnect() ==> {
                &&& final(self).current_attempt == vstd::math::min(
                    old(self).current_attempt as int + 1,
                    u32::MAX as int,
                )
                &&& *final(self) == (ReconnectManager {
                    current_attempt: final(self).current_attempt,
                    ..*old(self)
                })
                &&& !old(self).jitter ==> r as int == old(self).spec_delay(
                    old(self).current_attempt as nat,
                )
                &&& old(self).jitter ==> r as int == spec_jittered_delay(
                    old(self).spec_delay(old(self).current_attempt as nat),
                    entropy,
                )
            },
    {
        if !self.should_reconnect() {
            return 0;
        }
        let d = backoff_delay(
            self.base_delay_ms,
            self.backoff_multiplier,
            self.max_delay_ms,
            self.current_attempt,
        );
        let r = if self.jitter {
            apply_jitter(d, entropy)
        } else {
            d
        };
        if self.current_attempt < u32::MAX {
            self.current_attempt = self.current_attempt + 1;
        }
        r
    }

    /// Resets the attempt counter after a successful connection.
    pub fn reset(&mut self)
        ensures
            final(self).current_attempt == 0,
            *final(self) == (ReconnectManager { current_attempt: 0, ..*old(self) }),
    {
        self.current_attempt = 0;
    }

    pub fn current_attempt(&self) -> (r: u32)
        ensures
            r == self.current_attempt,
    {
        self.current_attempt
    }

    pub fn max_attempts(&self) -> (r: u32)
        ensures
            r == self.max_attempts,
    {
        self.max_attempts
    }

    /// Whether the attempt limit has been reached.
    pub fn is_exhausted(&self) -> (r: bool)
        ensures
            r == (self.max_attempts > 0 && self.current_attempt >= self.max_attempts),
    {
        self.max_attempts > 0 && self.current_attempt >= self.max_attempts
    }
}

/// With jitter off, the delay for attempt `n` is exactly
/// `min(max_delay, base * mult^n)`; this is the backoff policy law.
pub proof fn lemma_backoff_follows_policy(m: ReconnectManager, n: nat)
    requires
        m.wf(),
    ensures
        m.spec_delay(n) == vstd::math::min(
            m.max_delay_ms as int,
            (m.base_delay_ms * spec_pow(m.backoff_multiplier as nat, n)) as int,
        ),
{
}

/// With jitter on, the observed delay stays within half and one-and-a-half
/// times the policy delay.
pub proof fn lemma_jitter_bounds(delay: int, entropy: u64)
    requires
        0 <= delay <= u64::MAX,
    ensures
        delay * 500 / 1000 <= spec_jittered_delay(delay, entropy),
        spec_jittered_delay(delay, entropy) <= delay * 1500 / 1000,
{
    let f = spec_jitter_factor(entropy);
    assert(500 <= f <= 1500);
    assert(delay * 500 <= delay * f <= delay * 1500) by (nonlinear_arith)
        requires 0 <= delay, 500 <= f <= 1500;
    vstd::arithmetic::div_mod::lemma_div_is_ordered(delay * 500, delay * f, 1000);
    vstd::arithmetic::div_mod::lemma_div_is_ordered(delay * f, delay * 1500, 1000);
    assert(delay * 500 / 1000 <= u64::MAX as int) by {
        assert(delay * 500 <= u64::MAX * 500) by (nonlinear_arith)
            requires delay <= u64::MAX;
        vstd::arithmetic::div_mod::lemma_div_is_ordered(delay * 500, u64::MAX * 500, 1000);
        assert(u64::MAX * 500 / 1000 <= u64::MAX as int);
    }
}

/// After a reset, the next computed backoff starts the schedule over: it is
/// the delay for attempt zero, `min(max_delay, base)`.
pub proof fn lemma_reset_restarts_schedule(m: ReconnectManager)
    requires
        m.wf(),
        m.current_attempt == 0,
    ensures
        m.spec_delay(m.current_attempt as nat) == vstd::math::min(
            m.max_delay_ms as int,
            m.base_delay_ms as int,
        ),
{
    assert(spec_pow(m.backoff_multiplier as nat, 0) == 1);
}

/// A reconnection schedule for the alternate strategies: a fixed delay, a
/// linear ramp, or an exponential ramp with a cap. Delays are milliseconds.
pub enum ReconnectStrategy {
    Fixed(u64),
    Linear { base_ms: u64, increment_ms: u64 },
    Exponential { base_ms: u64, multiplier: u64, max_ms: u64 },
}

/// The delay an alternate strategy prescribes for a given attempt,
/// saturating at `u64::MAX`.
pub open spec fn spec_strategy_delay(s: ReconnectStrategy, attempt: nat) -> int {
    match s {
        ReconnectStrategy::Fixed(d) => d as int,
        ReconnectStrategy::Linear { base_ms, increment_ms } => vstd::math::min(
            base_ms + increment_ms * attempt,
            u64::MAX as int,
        ),
        ReconnectStrategy::Exponential { base_ms, multiplier, max_ms } => spec_backoff_delay(
            base_ms,
            if multiplier == 0 { 1u64 } else { multiplier },
            max_ms,
            attempt,
        ),
    }
}

impl ReconnectStrategy {
    /// The delay for a given attempt number under this strategy.
    pub fn calculate_delay(&self, attempt: u32) -> (r: u64)
        ensures
            r as int == spec_strategy_delay(*self, attempt as nat),
    {
        match self {
            ReconnectStrategy::Fixed(d) => *d,
            ReconnectStrategy::Linear { base_ms, increment_ms } => {
                let step = match increment_ms.checked_mul(attempt as u64) {
                    Some(x) => x,
                    None => u64::MAX,
                };
                let total = base_ms.saturating_add(step);
                proof {
                    if *increment_ms as int * attempt as int > u64::MAX as int {
                        assert(*base_ms + *increment_ms * attempt >= u64::MAX);
                    }
                }
                total
            },
            ReconnectStrategy::Exponential { base_ms, multiplier, max_ms } => {
                let m: u64 = if *multiplier == 0 { 1 } else { *multiplier };
                backoff_delay(*base_ms, m, *max_ms, attempt)
            },
        }
    }
}

/// A pseudo-random word drawn from the current time.
///
/// Relies on std::time::SystemTime and std's default hasher; nothing is
/// promised of the value.
#[verifier::external_body]
fn time_entropy() -> u64 {
    let mut hasher = std::collections::hash_map::DefaultHasher::new();
    std::hash::Hash::hash(&std::time::SystemTime::now(), &mut hasher);
    std::hash::Hasher::finish(&hasher)
}

impl ReconnectManager {
    /// The delay before the next attempt, drawing jitter from the clock.
    /// With jitter off the result is exactly the policy delay; with jitter
    /// on it stays within half and one-and-a-half times the policy delay.
    pub fn next_delay(&mut self) -> (r: u64)
        requires
            old(self).wf(),
        ensures
            final(self).wf(),
            !old(self).spec_should_reconnect() ==> r == 0 && *final(self) == *old(self),
            old(self).spec_should_reconnect() ==> ({
                let d = old(self).spec_delay(old(self).current_attempt as nat);
                &&& final(self).current_attempt == vstd::math::min(
                    old(self).current_attempt as int + 1,
                    u32::MAX as int,
                )
                &&& *final(self) == (ReconnectManager {
                    current_attempt: final(self).current_attempt,
                    ..*old(self)
                })
                &&& !old(self).jitter ==> r as int == d
                &&& old(self).jitter ==> d * 500 / 1000 <= r as int <= d * 1500 / 1000
            }),
    {
        let entropy = time_entropy();
        let ghost pre = *self;
        let r = self.next_delay_from_entropy(entropy);
        proof {
            if pre.spec_should_reconnect() && pre.jitter {
                let d = pre.spec_delay(pre.current_attempt as nat);
                assert(0 <= d <= u64::MAX);
                lemma_jitter_bounds(d, entropy);
            }
        }
        r
    }
}

/// A reconnection manager driven by one of the alternate strategies, with
/// a minimum interval between attempts. Time is handed in by the caller
/// as milliseconds on a monotonic clock.
pub struct AdvancedReconnectManager {
    pub strategy: ReconnectStrategy,
    pub max_attempts: u32,
    pub current_attempt: u32,
    pub last_attempt_ms: Option<u64>,
    pub min_interval_ms: u64,
}

impl AdvancedReconnectManager {
    /// A fresh manager under a strategy: unbounded attempts, tenth-second
    /// minimum interval.
    pub fn new(strategy: ReconnectStrategy) -> (r: Self)
        ensures
            r.strategy == strategy,
            r.max_attempts == 0,
            r.current_attempt == 0,
            r.last_attempt_ms is None,
            r.min_interval_ms == 100,
    {
        AdvancedReconnectManager {
            strategy,
            max_attempts: 0,
            current_attempt: 0,
            last_attempt_ms: None,
            min_interval_ms: 100,
        }
    }

    /// Sets the attempt limit; zero means unbounded.
    pub fn with_max_attempts(self, max_attempts: u32) -> (r: Self)
        ensures
            r == (Self { max_attempts, ..self }),
    {
        Self { max_attempts, ..self }
    }

    /// Sets the minimum interval between attempts.
    pub fn with_min_interval(self, interval_ms: u64) -> (r: Self)
        ensures
            r == (Self { min_interval_ms: interval_ms, ..self }),
    {
        Self { min_interval_ms: interval_ms, ..self }
    }

    /// Whether another attempt is allowed now: under the attempt limit,
    /// and at least the minimum interval after the last attempt.
    pub open spec fn spec_should_reconnect(&self, now_ms: u64) -> bool {
        &&& self.max_attempts == 0 || self.current_attempt < self.max_attempts
        &&& match self.last_attempt_ms {
            Some(last) => now_ms >= last && now_ms - last >= self.min_interval_ms,
            None => true,
        }
    }

    /// Whether to attempt a reconnection at the given time.
    pub fn should_reconnect(&self, now_ms: u64) -> (r: bool)
        ensures
            r == self.spec_should_reconnect(now_ms),
    {
        if self.max_attempts > 0 && self.current_attempt >= self.max_attempts {
            return false;
        }
        match self.last_attempt_ms {
            Some(last) => now_ms >= last && now_ms - last >= self.min_interval_ms,
            None => true,
        }
    }

    /// The delay before the next attempt under the strategy, or nothing
    /// when no attempt is allowed now; the attempt is recorded.
    pub fn next_delay(&mut self, now_ms: u64) -> (r: Option<u64>)
        ensures
            !old(self).spec_should_reconnect(now_ms) ==> r is None && *final(self) == *old(self),
            old(self).spec_should_reconnect(now_ms) ==> ({
                &&& r matches Some(d) && d as int == spec_strategy_delay(
                    old(self).strategy,
                    old(self).current_attempt as nat,
                )
                &&& final(self).current_attempt as int == vstd::math::min(
                    old(self).current_attempt as int + 1,
                    u32::MAX as int,
                )
                &&& final(self).last_attempt_ms == Some(now_ms)
                &&& final(self).strategy == old(self).strategy
                &&& final(self).max_attempts == old(self).max_attempts
                &&& final(self).min_interval_ms == old(self).min_interval_ms
            }),
    {
        if !self.should_reconnect(now_ms) {
            return None;
        }
        let d = self.strategy.calculate_delay(self.current_attempt);
        if self.current_attempt < u32::MAX {
            self.current_attempt = self.current_attempt + 1;
        }
        self.last_attempt_ms = Some(now_ms);
        Some(d)
    }

    /// Resets the schedule after a successful connection.
    pub fn reset(&mut self)
        ensures
            final(self).current_attempt == 0,
            final(self).last_attempt_ms is None,
            final(self).strategy == old(self).strategy,
            final(self).max_attempts == old(self).max_attempts,
            final(self).min_interval_ms == old(self).min_interval_ms,
    {
        self.current_attempt = 0;
        self.last_attempt_ms = None;
    }

    /// A snapshot of the schedule, naming the strategy in words.
    pub fn stats(&self, now_ms: u64) -> (r: crate::wire_config::ReconnectStats)
        ensures
            r.current_attempt == self.current_attempt,
            r.max_attempts == self.max_attempts,
            ({
                match self.last_attempt_ms {
                    Some(last) => r.last_attempt_ms matches Some(e) && (now_ms >= last ==> e
                        == now_ms - last),
                    None => r.last_attempt_ms is None,
                }
            }),
    {
        let last_attempt_ms = match self.last_attempt_ms {
            Some(last) => Some(if now_ms >= last { now_ms - last } else { 0 }),
            None => None,
        };
        let strategy_name: &str = match &self.strategy {
            ReconnectStrategy::Fixed(_) => "fixed",
            ReconnectStrategy::Linear { .. } => "linear",
            ReconnectStrategy::Exponential { .. } => "exponential",
        };
        crate::wire_config::ReconnectStats {
            current_attempt: self.current_attempt,
            max_attempts: self.max_attempts,
            last_attempt_ms,
            strategy_name: strategy_name.to_owned(),
        }
    }
}

} // verus!
