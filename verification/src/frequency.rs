//! The frequencies on offer and the blink interval that goes with each.

use vstd::prelude::*;
use vstd::arithmetic::div_mod::lemma_fundamental_div_mod;
use vstd::arithmetic::div_mod::lemma_fundamental_div_mod_converse;
use vstd::arithmetic::div_mod::lemma_mod_bound;
use crate::units::NANOS_PER_SECOND;

verus! {

/// Lowest frequency on offer, in hertz.
pub const MIN_FREQUENCY: u64 = 8;

/// Highest frequency on offer, in hertz.
pub const MAX_FREQUENCY: u64 = 13;

/// Frequency in effect until another is picked.
pub const DEFAULT_FREQUENCY: u64 = 10;

/// Whether `hz` is one of the frequencies on offer: 8, 9, 10, 11, 12 or 13.
pub open spec fn is_frequency_choice(hz: int) -> bool {
    MIN_FREQUENCY <= hz <= MAX_FREQUENCY
}

/// Time between two blinks at `hz` blinks per second: `1 / hz` seconds,
/// rounded up to a whole number of nanoseconds.
pub open spec fn interval_for(hz: int) -> int {
    (NANOS_PER_SECOND + hz - 1) / hz
}

/// The frequencies on offer, lowest first.
pub fn frequency_choices() -> (choices: Vec<u64>)
    ensures
        choices@ == seq![8u64, 9u64, 10u64, 11u64, 12u64, 13u64],
        forall|i: int| 0 <= i < choices@.len() ==> is_frequency_choice(#[trigger] choices@[i] as int),
        forall|hz: u64| is_frequency_choice(hz as int) ==> choices@.contains(hz),
{
    let mut choices: Vec<u64> = Vec::new();
    let mut hz: u64 = MIN_FREQUENCY;
    while hz <= MAX_FREQUENCY
        invariant
            MIN_FREQUENCY <= hz <= MAX_FREQUENCY + 1,
            choices@.len() == hz - MIN_FREQUENCY,
            forall|i: int| 0 <= i < choices@.len() ==> choices@[i] == MIN_FREQUENCY + i,
        decreases MAX_FREQUENCY + 1 - hz,
    {
        choices.push(hz);
        hz += 1;
    }
    assert forall|hz: u64| is_frequency_choice(hz as int) implies choices@.contains(hz) by {
        assert(choices@[hz - MIN_FREQUENCY] == hz);
    }
    choices
}

/// Tells whether `hz` is one of the frequencies on offer.
pub fn frequency_is_offered(hz: u64) -> (offered: bool)
    ensures
        offered == is_frequency_choice(hz as int),
{
    MIN_FREQUENCY <= hz && hz <= MAX_FREQUENCY
}

/// Computes the blink interval for `hz` blinks per second.
pub fn blink_interval(hz: u64) -> (interval: u64)
    requires
        hz >= 1,
    ensures
        interval == interval_for(hz as int),
        1 <= interval <= NANOS_PER_SECOND,
{
    let whole: u64 = NANOS_PER_SECOND / hz;
    let rest: u64 = NANOS_PER_SECOND % hz;
    proof {
        let n: int = NANOS_PER_SECOND as int;
        let d: int = hz as int;
        let q: int = whole as int;
        let r: int = rest as int;
        lemma_fundamental_div_mod(n, d);
        lemma_mod_bound(n, d);
        assert(q * d == n - r && (q + 1) * d == n - r + d && q <= n - r && (q == 0 ==> n == r))
            by (nonlinear_arith)
            requires
                n == d * q + r,
                d >= 1,
                q >= 0,
        ;
        if r == 0 {
            lemma_fundamental_div_mod_converse(n + d - 1, d, q, d - 1);
        } else {
            lemma_fundamental_div_mod_converse(n + d - 1, d, q + 1, r - 1);
        }
    }
    if rest == 0 {
        whole
    } else {
        whole + 1
    }
}

/// The interval is the reciprocal of the frequency to the nanosecond: it is
/// the least whole number of nanoseconds that lasts at least `1 / hz`
/// seconds, so a span of time reaches the interval exactly when it reaches
/// `1 / hz` seconds.
pub proof fn interval_is_reciprocal(hz: nat, span: nat)
    requires
        hz >= 1,
    ensures
        interval_for(hz as int) * hz >= NANOS_PER_SECOND,
        (interval_for(hz as int) - 1) * hz < NANOS_PER_SECOND,
        span >= interval_for(hz as int) <==> span * hz >= NANOS_PER_SECOND,
{
    let n: int = NANOS_PER_SECOND as int;
    let d: int = hz as int;
    let i: int = interval_for(d);
    let s: int = span as int;
    lemma_fundamental_div_mod(n + d - 1, d);
    lemma_mod_bound(n + d - 1, d);
    let r: int = (n + d - 1) % d;
    assert(i * d >= n && (i - 1) * d < n) by (nonlinear_arith)
        requires
            n + d - 1 == d * i + r,
            0 <= r < d,
    ;
    assert(s >= i ==> s * d >= n) by (nonlinear_arith)
        requires
            i * d >= n,
            d >= 1,
    ;
    assert(s < i ==> s * d < n) by (nonlinear_arith)
        requires
            (i - 1) * d < n,
            d >= 1,
    ;
}

/// At the frequencies that divide a second evenly the interval is exactly
/// `1 / hz` seconds.
pub proof fn interval_is_exact_when_it_divides(hz: nat)
    requires
        hz >= 1,
        NANOS_PER_SECOND as int % hz as int == 0,
    ensures
        interval_for(hz as int) * hz == NANOS_PER_SECOND,
{
    let n: int = NANOS_PER_SECOND as int;
    let d: int = hz as int;
    let q: int = n / d;
    lemma_fundamental_div_mod(n, d);
    assert(q * d == n) by (nonlinear_arith)
        requires
            n == d * q + 0,
    ;
    lemma_fundamental_div_mod_converse(n + d - 1, d, q, d - 1);
}

} // verus!
