use crate::config::Config;
use crate::controller_laws::lemma_step_keeps_valid;
use crate::scheduler::{Event, Phase, SchedulerState};
use vstd::prelude::*;

verus! {

/// A scheduler built from an accepted configuration is valid.
pub proof fn lemma_initial_is_valid(config: Config)
    requires
        config.valid(),
    ensures
        SchedulerState::initial(config).valid(),
        SchedulerState::initial(config).config() == config,
{
}

/// No event takes a valid scheduler out of validity or changes its configuration.
pub proof fn lemma_next_keeps_valid(s: SchedulerState, event: Event)
    requires
        s.valid(),
    ensures
        s.next(event).valid(),
        s.next(event).config() == s.config(),
{
    match event {
        Event::Completion { started_at, signal, now } => {
            if s.accepts_completion() {
                match signal {
                    Some(outcome) => {
                        lemma_step_keeps_valid(s.controller, outcome);
                    },
                    None => {},
                }
            }
        },
        _ => {},
    }
}

/// The concurrency ceiling. Whatever happens to a run, in whatever order,
/// the number of attempts in flight never exceeds `max_in_flight`, and the
/// target rate is never negative and never above `max_in_flight`.
pub proof fn lemma_in_flight_stays_under_ceiling(s: SchedulerState, events: Seq<Event>)
    requires
        s.valid(),
    ensures
        s.after(events).valid(),
        s.after(events).config() == s.config(),
        s.after(events).in_flight <= s.config().max_in_flight,
        0 <= s.after(events).controller.target_rate <= s.config().max_in_flight,
    decreases events.len(),
{
    if events.len() > 0 {
        lemma_in_flight_stays_under_ceiling(s, events.drop_last());
        lemma_next_keeps_valid(s.after(events.drop_last()), events.last());
    }
}

/// The same from the start of a run: under an accepted configuration every
/// state that a run can reach keeps the ceiling.
pub proof fn lemma_ceiling_holds_from_the_start(config: Config, events: Seq<Event>)
    requires
        config.valid(),
    ensures
        SchedulerState::initial(config).after(events).in_flight <= config.max_in_flight,
        SchedulerState::initial(config).after(events).controller.target_rate
            <= config.max_in_flight,
{
    lemma_initial_is_valid(config);
    lemma_in_flight_stays_under_ceiling(SchedulerState::initial(config), events);
}

/// A request to end a steady run makes it drain, or stop where nothing is
/// in flight; it launches and aborts nothing.
pub proof fn lemma_cancel_drains(s: SchedulerState)
    requires
        s.valid(),
        s.phase == Phase::SteadyState,
    ensures
        s.next(Event::Cancel).phase == if s.in_flight == 0 {
            Phase::Stopped
        } else {
            Phase::Draining
        },
        s.next(Event::Cancel).in_flight == s.in_flight,
        s.next(Event::Cancel).issued == s.issued,
{
}

/// A run that has stopped stays as it is, whatever happens.
pub proof fn lemma_stopped_is_terminal(s: SchedulerState, event: Event)
    requires
        s.valid(),
        s.phase == Phase::Stopped,
    ensures
        s.next(event) == s,
{
}

/// Once a run drains, nothing is launched any more: whatever happens, the
/// number of attempts issued stays, the number in flight does not grow, and
/// the run drains until it has stopped.
pub proof fn lemma_nothing_launched_after_drain(s: SchedulerState, events: Seq<Event>)
    requires
        s.valid(),
        s.phase == Phase::Draining || s.phase == Phase::Stopped,
    ensures
        s.after(events).issued == s.issued,
        s.after(events).in_flight <= s.in_flight,
        s.after(events).phase == if s.after(events).in_flight == 0 {
            Phase::Stopped
        } else {
            Phase::Draining
        },
    decreases events.len(),
{
    if events.len() > 0 {
        lemma_nothing_launched_after_drain(s, events.drop_last());
        lemma_in_flight_stays_under_ceiling(s, events.drop_last());
    }
}

/// A draining run stops exactly when the last outstanding attempt has
/// completed: after fewer completions than were in flight it still drains,
/// after as many it has stopped, however the attempts ended.
pub proof fn lemma_draining_runs_dry(s: SchedulerState, completions: Seq<Event>)
    requires
        s.valid(),
        s.phase == Phase::Draining,
        completions.len() <= s.in_flight,
        forall|i: int| 0 <= i < completions.len() ==> #[trigger] completions[i] is Completion,
    ensures
        s.after(completions).in_flight == s.in_flight - completions.len(),
        s.after(completions).issued == s.issued,
        s.after(completions).phase == if completions.len() == s.in_flight {
            Phase::Stopped
        } else {
            Phase::Draining
        },
    decreases completions.len(),
{
    if completions.len() > 0 {
        let before = completions.drop_last();
        assert forall|i: int| 0 <= i < before.len() implies #[trigger] before[i] is Completion by {
            assert(before[i] == completions[i]);
        }
        lemma_draining_runs_dry(s, before);
        lemma_in_flight_stays_under_ceiling(s, before);
        assert(completions.last() == completions[completions.len() - 1]);
    }
}

} // verus!
