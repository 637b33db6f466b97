use crate::controller::{lemma_window_fits, ControllerState};
use crate::outcome::Outcome;
use vstd::arithmetic::div_mod::{lemma_fundamental_div_mod, lemma_fundamental_div_mod_converse};
use vstd::prelude::*;

verus! {

/// The part of the gap since the last decrease that counts against the next
/// one: the gap itself, up to `w + 1`.
pub open spec fn counted_gap(c: ControllerState, w: nat) -> nat {
    if c.gap() <= w {
        c.gap()
    } else {
        w + 1
    }
}

/// One completion leaves a valid controller valid, with the same
/// configuration and one more completion seen.
pub proof fn lemma_step_keeps_valid(c: ControllerState, outcome: Outcome)
    requires
        c.valid(),
    ensures
        c.on_completion(outcome).valid(),
        c.on_completion(outcome).config == c.config,
        c.on_completion(outcome).completions_seen == c.completions_seen + 1,
{
}

/// Whatever the completions are, the target rate is never negative, never
/// under the floor and never over `max_in_flight`.
pub proof fn lemma_rate_stays_in_bounds(c: ControllerState, outcomes: Seq<Outcome>)
    requires
        c.valid(),
    ensures
        c.run(outcomes).valid(),
        0 <= c.config.rate_floor <= c.run(outcomes).target_rate <= c.config.max_in_flight,
        c.run(outcomes).config == c.config,
        c.run(outcomes).completions_seen == c.completions_seen + outcomes.len(),
    decreases outcomes.len(),
{
    if outcomes.len() > 0 {
        lemma_rate_stays_in_bounds(c, outcomes.drop_last());
        lemma_step_keeps_valid(c.run(outcomes.drop_last()), outcomes.last());
    }
}

/// Decreases cannot fire on every completion. Over a stream of completions
/// during which the cooldown window never drops under `w`, each decrease
/// uses up `w + 1` completions: the number of decreases times `w + 1` is at
/// most the number of completions plus what had passed since the last
/// decrease before the stream. For a controller that has just decreased, or
/// a new one, that is at most `K / (w + 1)` decreases over `K` completions,
/// even where every outcome signals overload.
pub proof fn lemma_decreases_are_gated(c: ControllerState, outcomes: Seq<Outcome>, w: nat)
    requires
        c.valid(),
        forall|i: int|
            0 <= i < outcomes.len() ==> #[trigger] c.run(outcomes.take(i)).cooldown_window() >= w,
    ensures
        c.decreases_applied(outcomes) * (w + 1) + counted_gap(c.run(outcomes), w) <= outcomes.len()
            + counted_gap(c, w),
        c.gap() == 0 ==> c.decreases_applied(outcomes) * (w + 1) <= outcomes.len(),
    decreases outcomes.len(),
{
    if outcomes.len() > 0 {
        let before = outcomes.drop_last();
        assert forall|i: int| 0 <= i < before.len() implies #[trigger] c.run(
            before.take(i),
        ).cooldown_window() >= w by {
            assert(before.take(i) =~= outcomes.take(i));
        }
        lemma_decreases_are_gated(c, before, w);
        lemma_rate_stays_in_bounds(c, before);
        let s = c.run(before);
        assert(before =~= outcomes.take(outcomes.len() - 1));
        assert(s.cooldown_window() >= w);
        let d = c.decreases_applied(before);
        if s.decrease_due(outcomes.last()) {
            assert((d + 1) * (w + 1) == d * (w + 1) + (w + 1)) by (nonlinear_arith);
        }
    }
}

/// The same with the one bound on the window that every valid controller
/// has: the configured multiple of the rate floor.
pub proof fn lemma_decreases_are_gated_by_floor(c: ControllerState, outcomes: Seq<Outcome>)
    requires
        c.valid(),
    ensures
        ({
            let w = (c.config.decrease_cooldown_multiplier * c.config.rate_floor) as nat;
            &&& c.decreases_applied(outcomes) * (w + 1) + counted_gap(c.run(outcomes), w)
                <= outcomes.len() + counted_gap(c, w)
            &&& c.gap() == 0 ==> c.decreases_applied(outcomes) * (w + 1) <= outcomes.len()
        }),
{
    let w = (c.config.decrease_cooldown_multiplier * c.config.rate_floor) as nat;
    assert forall|i: int| 0 <= i < outcomes.len() implies #[trigger] c.run(
        outcomes.take(i),
    ).cooldown_window() >= w by {
        lemma_rate_stays_in_bounds(c, outcomes.take(i));
        lemma_window_fits(c.run(outcomes.take(i)));
    }
    lemma_decreases_are_gated(c, outcomes, w);
}

/// For `1 <= n <= d`, `seen + n` is a multiple of `d` exactly when `n` fills
/// up what `seen` lacks to the next multiple.
proof fn lemma_next_multiple(seen: nat, n: nat, d: nat)
    requires
        1 <= n <= d,
    ensures
        (seen + n) % d == 0 <==> seen % d + n == d,
{
    let q = (seen as int) / (d as int);
    let r = (seen as int) % (d as int);
    lemma_fundamental_div_mod(seen as int, d as int);
    assert(0 <= r < d);
    if r + n < d {
        assert(seen + n == q * d + (r + n)) by (nonlinear_arith)
            requires
                seen == d * q + r,
        ;
        lemma_fundamental_div_mod_converse((seen + n) as int, d as int, q, r + n);
    } else {
        assert(seen + n == (q + 1) * d + (r + n - d)) by (nonlinear_arith)
            requires
                seen == d * q + r,
        ;
        lemma_fundamental_div_mod_converse((seen + n) as int, d as int, q + 1, r + n - d);
    }
}

/// Over at most one increase interval without an overload signal, the rate
/// is raised once if the stretch reaches the next multiple of the interval,
/// and is otherwise unchanged.
pub proof fn lemma_increase_within_interval(c: ControllerState, outcomes: Seq<Outcome>)
    requires
        c.valid(),
        outcomes.len() <= c.config.rate_increase_interval,
        forall|i: int| 0 <= i < outcomes.len() ==> outcomes[i] == Outcome::Success,
    ensures
        c.run(outcomes).target_rate == if c.completions_seen % (
        c.config.rate_increase_interval as nat) + outcomes.len()
            >= c.config.rate_increase_interval {
            c.raised(c.target_rate)
        } else {
            c.target_rate
        },
        c.run(outcomes).last_decrease_at == c.last_decrease_at,
        c.decreases_applied(outcomes) == 0,
    decreases outcomes.len(),
{
    if outcomes.len() > 0 {
        let before = outcomes.drop_last();
        lemma_increase_within_interval(c, before);
        lemma_rate_stays_in_bounds(c, before);
        lemma_next_multiple(
            c.completions_seen,
            outcomes.len(),
            c.config.rate_increase_interval as nat,
        );
        assert(outcomes.last() == outcomes[outcomes.len() - 1]);
    }
}

/// Additive increase: over exactly one increase interval of completions
/// without an overload signal, the target rate goes up by exactly one
/// `rate_increase_step`, or to `max_in_flight` where the step would pass it.
pub proof fn lemma_additive_increase(c: ControllerState, outcomes: Seq<Outcome>)
    requires
        c.valid(),
        outcomes.len() == c.config.rate_increase_interval,
        forall|i: int| 0 <= i < outcomes.len() ==> outcomes[i] == Outcome::Success,
    ensures
        c.run(outcomes).target_rate == c.raised(c.target_rate),
        c.target_rate + c.config.rate_increase_step <= c.config.max_in_flight ==> c.run(
            outcomes,
        ).target_rate == c.target_rate + c.config.rate_increase_step,
{
    lemma_increase_within_interval(c, outcomes);
}

} // verus!
