use vstd::prelude::*;

verus! {

/// Length of the pacing budget of one attempt, in microseconds: one second.
pub const BUDGET_MICROS: u64 = 1_000_000;

/// Time that has passed between `started_at` and `now`; zero when the clock
/// reads earlier than the start.
pub open spec fn spec_elapsed(started_at: u64, now: u64) -> nat {
    if now >= started_at {
        (now - started_at) as nat
    } else {
        0
    }
}

/// What is left of the one-second budget of an attempt that started at
/// `started_at`, seen at `now`.
pub open spec fn spec_replacement_delay(started_at: u64, now: u64) -> nat {
    if spec_elapsed(started_at, now) < BUDGET_MICROS {
        (BUDGET_MICROS - spec_elapsed(started_at, now)) as nat
    } else {
        0
    }
}

/// Delay before the replacement of an attempt may be issued, so that the
/// replacement never starts before the replaced attempt's second is over.
pub fn replacement_delay_micros(started_at: u64, now: u64) -> (delay: u64)
    ensures
        delay == spec_replacement_delay(started_at, now),
        delay <= BUDGET_MICROS,
{
    let elapsed: u64 = if now >= started_at {
        now - started_at
    } else {
        0
    };
    if elapsed < BUDGET_MICROS {
        BUDGET_MICROS - elapsed
    } else {
        0
    }
}

/// Delay of the `index`-th of `target_rate` initial attempts: `index /
/// target_rate` seconds, in whole microseconds.
pub open spec fn spec_stagger_delay(index: u64, target_rate: u64) -> nat {
    ((BUDGET_MICROS * index) / (target_rate as int)) as nat
}

/// Delay before the `index`-th of `target_rate` initial attempts issues its
/// request, so that the initial burst is spread evenly over the first second.
pub fn stagger_delay_micros(index: u64, target_rate: u64) -> (delay: u64)
    requires
        index < target_rate,
    ensures
        delay == spec_stagger_delay(index, target_rate),
        delay < BUDGET_MICROS,
{
    let budget: u128 = BUDGET_MICROS as u128;
    assert(budget * index <= 1_000_000 * u64::MAX) by (nonlinear_arith)
        requires
            budget == 1_000_000,
            0 <= index <= u64::MAX,
    ;
    let scaled: u128 = budget * (index as u128);
    let delay: u128 = scaled / (target_rate as u128);
    assert(delay < BUDGET_MICROS) by (nonlinear_arith)
        requires
            delay == (BUDGET_MICROS * index) / (target_rate as int),
            0 <= index < target_rate,
            BUDGET_MICROS == 1_000_000,
    ;
    delay as u64
}

/// The staggered delays grow with the index: a later attempt of the burst is
/// never issued before an earlier one.
pub proof fn lemma_stagger_is_monotone(i: u64, j: u64, target_rate: u64)
    requires
        i <= j < target_rate,
    ensures
        spec_stagger_delay(i, target_rate) <= spec_stagger_delay(j, target_rate),
{
    assert((BUDGET_MICROS * i) / (target_rate as int) <= (BUDGET_MICROS * j) / (target_rate as int))
        by (nonlinear_arith)
        requires
            0 <= i <= j,
            0 < target_rate,
            BUDGET_MICROS == 1_000_000,
    ;
}

} // verus!
