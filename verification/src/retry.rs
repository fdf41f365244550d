//! Retry and backoff configuration with jitter support.
//!
//! Retries are only safe for idempotent operations: reads, metadata
//! requests, and producer appends carried by a `(id, epoch, seq)`
//! triple. Delays are handled in whole milliseconds, and the backoff
//! multiplier in thousandths, so a multiplier of 1300 grows each delay
//! by a factor of 1.3.

use vstd::prelude::*;
use rand::Rng;

verus! {

/// The resolution of the random draw behind jitter: draws are uniform
/// over `[0, JITTER_RESOLUTION)`.
pub const JITTER_RESOLUTION: u64 = 1000000;

/// Relies on rand::thread_rng and rand::Rng::gen_range for a uniform
/// draw in `[0, JITTER_RESOLUTION)`; nothing but the bound holds of a
/// random value.
#[verifier::external_body]
fn random_fraction() -> (r: u64)
    ensures
        r < 1000000,
{
    rand::thread_rng().gen_range(0..1000000u64)
}

/// Jitter mode for retry backoff.
#[derive(Debug, PartialEq, Eq, Structural)]
pub enum JitterMode {
    /// No jitter: use the exact backoff delay.
    NoJitter,
    /// Full jitter: uniform over `[0, delay]`.
    Full,
    /// Equal jitter: half fixed plus half random.
    Equal,
    /// Decorrelated jitter: uniform between a third of the delay and
    /// three times the delay.
    Decorrelated,
}

impl Clone for JitterMode {
    fn clone(&self) -> (res: Self)
        ensures
            res == *self,
    {
        match self {
            JitterMode::NoJitter => JitterMode::NoJitter,
            JitterMode::Full => JitterMode::Full,
            JitterMode::Equal => JitterMode::Equal,
            JitterMode::Decorrelated => JitterMode::Decorrelated,
        }
    }
}

impl Default for JitterMode {
    fn default() -> (r: Self)
        ensures
            r == JitterMode::Full,
    {
        JitterMode::Full
    }
}

/// The jittered delay for a draw `frac` in `[0, JITTER_RESOLUTION)`:
/// the exact delay without jitter; a uniform fraction of it with full
/// jitter; half plus a uniform fraction of the other half with equal
/// jitter; and a point between a third and three times the delay with
/// decorrelated jitter, the top saturating at the `u64` range.
pub open spec fn spec_jittered(delay_ms: u64, mode: JitterMode, frac: int) -> int {
    match mode {
        JitterMode::NoJitter => delay_ms as int,
        JitterMode::Full => delay_ms * frac / (JITTER_RESOLUTION as int),
        JitterMode::Equal => delay_ms / 2 + (delay_ms / 2) * frac / (JITTER_RESOLUTION as int),
        JitterMode::Decorrelated => {
            let lo = delay_ms as int / 3;
            let hi = if delay_ms > u64::MAX / 3 {
                u64::MAX as int
            } else {
                3 * delay_ms
            };
            lo + (hi - lo) * frac / (JITTER_RESOLUTION as int)
        },
    }
}

/// `x` scaled by `frac / JITTER_RESOLUTION`, rounded down. Never more
/// than `x`.
fn mul_frac(x: u64, frac: u64) -> (r: u64)
    requires
        frac < 1000000,
    ensures
        r == x * frac / 1000000,
        r <= x,
{
    proof {
        vstd::arithmetic::mul::lemma_mul_upper_bound(
            x as int,
            u64::MAX as int,
            frac as int,
            999999int,
        );
        vstd::arithmetic::mul::lemma_mul_inequality(frac as int, 1000000int, x as int);
        vstd::arithmetic::div_mod::lemma_div_is_ordered(
            (frac as int) * (x as int),
            1000000int * (x as int),
            1000000int,
        );
        vstd::arithmetic::div_mod::lemma_div_multiples_vanish(x as int, 1000000int);
        assert((x as int) * (frac as int) == (frac as int) * (x as int));
    }
    let prod: u128 = (x as u128) * (frac as u128);
    (prod / 1000000) as u64
}

/// Apply jitter to a backoff delay. The result depends on a fresh
/// uniform draw; it always lies in the mode's band around the given
/// delay.
pub fn apply_jitter(delay_ms: u64, mode: &JitterMode) -> (r: u64)
    ensures
        exists|frac: int|
            0 <= frac < JITTER_RESOLUTION && r == spec_jittered(delay_ms, *mode, frac),
        mode is NoJitter ==> r == delay_ms,
        (mode is Full || mode is Equal) ==> r <= delay_ms,
        mode is Equal ==> r >= delay_ms / 2,
        mode is Decorrelated ==> r >= delay_ms / 3,
{
    let frac = random_fraction();
    let r = match mode {
        JitterMode::NoJitter => delay_ms,
        JitterMode::Full => mul_frac(delay_ms, frac),
        JitterMode::Equal => {
            let half = delay_ms / 2;
            half + mul_frac(half, frac)
        },
        JitterMode::Decorrelated => {
            let lo = delay_ms / 3;
            let hi = if delay_ms > u64::MAX / 3 {
                u64::MAX
            } else {
                3 * delay_ms
            };
            lo + mul_frac(hi - lo, frac)
        },
    };
    proof {
        assert(r == spec_jittered(delay_ms, *mode, frac as int));
    }
    r
}

/// Retry and backoff configuration.
#[derive(Debug)]
pub struct RetryConfig {
    /// The delay before the first retry, in milliseconds.
    pub initial_backoff_ms: u64,
    /// The ceiling on the un-jittered delay, in milliseconds.
    pub max_backoff_ms: u64,
    /// The growth factor between delays, in thousandths.
    pub multiplier_permille: u64,
    /// How many retries are attempted before giving up.
    pub max_retries: u32,
    /// The jitter applied to each delay.
    pub jitter: JitterMode,
}

impl Default for RetryConfig {
    fn default() -> (r: Self)
        ensures
            r.initial_backoff_ms == 100,
            r.max_backoff_ms == 60000,
            r.multiplier_permille == 1300,
            r.max_retries == 10,
            r.jitter == JitterMode::Full,
    {
        RetryConfig {
            initial_backoff_ms: 100,
            max_backoff_ms: 60000,
            multiplier_permille: 1300,
            max_retries: 10,
            jitter: JitterMode::Full,
        }
    }
}

/// The un-jittered delay for a retry attempt: the initial delay for the
/// first, and afterwards the previous delay grown by the multiplier and
/// clipped to the ceiling.
pub open spec fn spec_base_backoff(c: RetryConfig, attempt: u32, current_ms: u64) -> int {
    if attempt == 0 {
        c.initial_backoff_ms as int
    } else {
        let grown = current_ms * c.multiplier_permille / 1000;
        if grown > c.max_backoff_ms {
            c.max_backoff_ms as int
        } else {
            grown
        }
    }
}

impl RetryConfig {
    /// Create a retry config with the defaults.
    pub fn new() -> (r: Self)
        ensures
            r.initial_backoff_ms == 100,
            r.max_backoff_ms == 60000,
            r.multiplier_permille == 1300,
            r.max_retries == 10,
            r.jitter == JitterMode::Full,
    {
        RetryConfig::default()
    }

    /// Set the initial backoff delay, in milliseconds.
    pub fn with_initial_backoff(self, delay_ms: u64) -> (r: Self)
        ensures
            r == (RetryConfig { initial_backoff_ms: delay_ms, ..self }),
    {
        RetryConfig { initial_backoff_ms: delay_ms, ..self }
    }

    /// Set the maximum backoff delay, in milliseconds.
    pub fn with_max_backoff(self, delay_ms: u64) -> (r: Self)
        ensures
            r == (RetryConfig { max_backoff_ms: delay_ms, ..self }),
    {
        RetryConfig { max_backoff_ms: delay_ms, ..self }
    }

    /// Set the backoff multiplier, in thousandths.
    pub fn with_multiplier(self, multiplier_permille: u64) -> (r: Self)
        ensures
            r == (RetryConfig { multiplier_permille, ..self }),
    {
        RetryConfig { multiplier_permille, ..self }
    }

    /// Set the maximum number of retry attempts.
    pub fn with_max_retries(self, retries: u32) -> (r: Self)
        ensures
            r == (RetryConfig { max_retries: retries, ..self }),
    {
        RetryConfig { max_retries: retries, ..self }
    }

    /// Set the jitter mode.
    pub fn with_jitter(self, jitter: JitterMode) -> (r: Self)
        ensures
            r == (RetryConfig { jitter, ..self }),
    {
        RetryConfig { jitter, ..self }
    }

    /// The next backoff delay: the attempt's base delay with this
    /// config's jitter applied. The result depends on a fresh uniform
    /// draw; it always lies in the jitter mode's band around the base
    /// delay.
    pub fn next_backoff(&self, attempt: u32, current_ms: u64) -> (r: u64)
        requires
            current_ms <= self.max_backoff_ms,
            self.max_backoff_ms * self.multiplier_permille <= u64::MAX,
        ensures
            exists|frac: int|
                0 <= frac < JITTER_RESOLUTION && r == #[trigger] spec_jittered(
                    (spec_base_backoff(*self, attempt, current_ms)) as u64,
                    self.jitter,
                    frac,
                ),
            self.jitter is NoJitter ==> r == spec_base_backoff(*self, attempt, current_ms),
    {
        let base: u64 = if attempt == 0 {
            self.initial_backoff_ms
        } else {
            proof {
                vstd::arithmetic::mul::lemma_mul_inequality(
                    current_ms as int,
                    self.max_backoff_ms as int,
                    self.multiplier_permille as int,
                );
                vstd::arithmetic::div_mod::lemma_div_is_ordered(
                    current_ms * self.multiplier_permille,
                    self.max_backoff_ms * self.multiplier_permille,
                    1000,
                );
            }
            let grown = current_ms * self.multiplier_permille / 1000;
            if grown > self.max_backoff_ms {
                self.max_backoff_ms
            } else {
                grown
            }
        };
        proof {
            assert(base == spec_base_backoff(*self, attempt, current_ms));
        }
        let jittered = apply_jitter(base, &self.jitter);
        proof {
            let frac0 = choose|frac: int|
                0 <= frac < JITTER_RESOLUTION && jittered == #[trigger] spec_jittered(
                    base,
                    self.jitter,
                    frac,
                );
            assert(jittered == spec_jittered(
                (spec_base_backoff(*self, attempt, current_ms)) as u64,
                self.jitter,
                frac0,
            ));
        }
        jittered
    }

    /// Whether another retry is allowed after `attempt` attempts.
    pub fn should_retry(&self, attempt: u32) -> (r: bool)
        ensures
            r == (attempt < self.max_retries),
    {
        attempt < self.max_retries
    }
}

} // verus!
