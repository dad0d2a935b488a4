//! The resilient-fetch retry policy: bounded exponential backoff with full
//! random jitter. The surrounding application performs the calls and the
//! sleeps; this module decides whether to retry, for how long to back off,
//! and models how many invocations a run of the policy makes.

use vstd::prelude::*;
use crate::rng::random_in_range;

verus! {

/// The default cap on retries: an operation is invoked at most once more
/// than this many times.
pub const MAX_ATTEMPTS: u64 = 10;

/// The default base delay, in milliseconds, before the first retry.
pub const BASE_DELAY_MILLIS: u64 = 500;

/// Two to the given power.
pub open spec fn spec_pow2(n: nat) -> nat
    decreases n,
{
    if n == 0 {
        1
    } else {
        2 * spec_pow2((n - 1) as nat)
    }
}

/// Relies on `retry::delay::jitter`: scales a duration by a random factor
/// drawn uniformly from [0, 1), so the result never exceeds the input. The
/// scaling passes through `f64`, whose rounding stays under one millisecond
/// only while the input fits in `f64`'s mantissa; larger delays are ruled
/// out.
#[verifier::external_body]
fn jitter_millis(ms: u64) -> (r: u64)
    requires
        ms <= 0x10_0000_0000_0000,
    ensures
        r <= ms,
{
    retry::delay::jitter(core::time::Duration::from_millis(ms)).as_millis() as u64
}

/// The jittered delay before attempt number `attempt` (counting from one):
/// `base * 2^(attempt - 1)`, scaled by a random factor in [0, 1).
pub fn backoff_delay_millis(attempt: u64, base: u64) -> (r: u64)
    requires
        1 <= attempt,
        base * spec_pow2((attempt - 1) as nat) <= 0x10_0000_0000_0000,
    ensures
        r <= base * spec_pow2((attempt - 1) as nat),
{
    let mut d: u64 = base;
    let mut k: u64 = 1;
    proof {
        assert(spec_pow2((k - 1) as nat) == 1);
        assert(d == base * spec_pow2((k - 1) as nat)) by (nonlinear_arith)
            requires
                d == base,
                spec_pow2((k - 1) as nat) == 1,
        ;
    }
    while k < attempt
        invariant
            1 <= k <= attempt,
            d == base * spec_pow2((k - 1) as nat),
            base * spec_pow2((attempt - 1) as nat) <= 0x10_0000_0000_0000,
        decreases attempt - k,
    {
        proof {
            lemma_pow2_mul_monotonic(base, k as nat, (attempt - 1) as nat);
            assert(spec_pow2(k as nat) == 2 * spec_pow2((k - 1) as nat));
            assert(2 * d == base * spec_pow2(k as nat)) by (nonlinear_arith)
                requires
                    d == base * spec_pow2((k - 1) as nat),
                    spec_pow2(k as nat) == 2 * spec_pow2((k - 1) as nat),
            ;
        }
        d = d * 2;
        k = k + 1;
    }
    jitter_millis(d)
}

/// `base * 2^a` grows with the exponent.
proof fn lemma_pow2_mul_monotonic(base: u64, a: nat, b: nat)
    requires
        a <= b,
    ensures
        base * spec_pow2(a) <= base * spec_pow2(b),
    decreases b - a,
{
    if a < b {
        lemma_pow2_mul_monotonic(base, a, (b - 1) as nat);
        assert(base * spec_pow2((b - 1) as nat) <= base * spec_pow2(b)) by (nonlinear_arith)
            requires
                spec_pow2(b) == 2 * spec_pow2((b - 1) as nat),
                spec_pow2((b - 1) as nat) >= 0,
                base >= 0,
        ;
    }
}

/// What the retry loop does once attempt number `attempt` (counting from
/// one) has failed: back off and retry while the cap allows, give up after
/// `max_attempts + 1` invocations. Returns the jittered delay to sleep
/// before the next attempt, or `None` to stop with the last error.
pub fn retry_after_failure(attempt: u64, max_attempts: u64, base_delay: u64) -> (r: Option<u64>)
    requires
        1 <= attempt,
        attempt <= max_attempts ==> base_delay * spec_pow2((attempt - 1) as nat)
            <= 0x10_0000_0000_0000,
    ensures
        (r is Some) == (attempt <= max_attempts),
        r matches Some(d) ==> d <= base_delay * spec_pow2((attempt - 1) as nat),
{
    if attempt <= max_attempts {
        Some(backoff_delay_millis(attempt, base_delay))
    } else {
        None
    }
}

/// A run of the retry policy over the outcomes its attempts would have:
/// `outcomes[i]` says whether invocation `i + 1` succeeds. Returns how many
/// invocations the run makes and whether it ends in success. An operation
/// that fails `n` times and then succeeds, with `n <= max_attempts`, is
/// invoked exactly `n + 1` times; one that never succeeds is invoked exactly
/// `max_attempts + 1` times and ends with the final error.
pub fn retry_run(outcomes: &Vec<bool>, max_attempts: usize) -> (r: (usize, bool))
    requires
        outcomes@.len() > max_attempts,
        max_attempts < usize::MAX,
    ensures
        r.1 == exists|i: int| 0 <= i <= max_attempts && outcomes@[i],
        r.1 ==> 1 <= r.0 <= max_attempts + 1 && outcomes@[r.0 - 1] && (forall|i: int|
            0 <= i < r.0 - 1 ==> !outcomes@[i]),
        !r.1 ==> r.0 == max_attempts + 1 && (forall|i: int| 0 <= i <= max_attempts
            ==> !outcomes@[i]),
{
    let mut k: usize = 0;
    while k <= max_attempts
        invariant
            0 <= k <= max_attempts + 1,
            max_attempts < usize::MAX,
            outcomes@.len() > max_attempts,
            forall|i: int| 0 <= i < k ==> !outcomes@[i],
        decreases max_attempts + 1 - k,
    {
        if outcomes[k] {
            return (k + 1, true);
        }
        k = k + 1;
    }
    (max_attempts + 1, false)
}

} // verus!
