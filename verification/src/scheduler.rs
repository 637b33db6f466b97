use crate::config::{Config, ConfigError};
use crate::controller::{ControllerState, RateController};
use crate::outcome::{classify, spec_classify, Outcome, RunResult};
use crate::pacing::{
    replacement_delay_micros, spec_replacement_delay, spec_stagger_delay, stagger_delay_micros,
};
use crate::sampling::{Sample, Sampler, SamplerState};
use crate::window::{recent, SlidingWindowCounter};
use vstd::prelude::*;

verus! {

/// Where a run stands.
#[derive(Clone, Copy, Debug, PartialEq, Eq, Structural)]
pub enum Phase {
    /// Nothing has been launched yet.
    Filling,
    /// Completions are awaited and replacements launched.
    SteadyState,
    /// Nothing is launched any more; what is in flight is awaited.
    Draining,
    /// Nothing is in flight and nothing will be: the pool can be released.
    Stopped,
}

/// An attempt for the driver to launch: on which client, and how long to
/// wait before the request is issued.
#[derive(Clone, Copy, Debug, PartialEq, Eq, Structural)]
pub struct SpawnOrder {
    pub client_index: usize,
    pub delay_micros: u64,
}

/// What the driver is to do after a completion: launch these attempts, in
/// this order, and pass the sample on, if there is one.
#[derive(Debug)]
pub struct Step {
    pub spawns: Vec<SpawnOrder>,
    pub sample: Option<Sample>,
}

/// An event that the scheduler has no use for. The scheduler is unchanged.
#[derive(Clone, Copy, Debug, PartialEq, Eq, Structural)]
pub enum SchedulerError {
    /// `start` on a run that has left `Filling`.
    NotFilling,
    /// A completion while no attempt is outstanding.
    NothingInFlight,
}

/// The figures of a run that has stopped.
#[derive(Clone, Copy, Debug, PartialEq, Eq, Structural)]
pub struct RunSummary {
    pub attempts_issued: u64,
    pub overloaded: u64,
    pub transport_errors: u64,
    pub final_target_rate: u64,
}

/// What can happen to a run.
pub enum Event {
    /// The driver starts the run at `now`.
    Start { now: u64 },
    /// An attempt that started at `started_at` has completed at `now`, with a
    /// feedback signal or, for `None`, with a transport failure.
    Completion { started_at: u64, signal: Option<Outcome>, now: u64 },
    /// The operator asks for the run to end.
    Cancel,
}

/// The scheduler as a mathematical value.
pub struct SchedulerState {
    pub controller: ControllerState,
    /// Start timestamps of completed attempts that may still count.
    pub window: Seq<u64>,
    pub sampler: SamplerState,
    pub phase: Phase,
    /// Number of attempts launched and not yet completed.
    pub in_flight: nat,
    /// Number of attempts launched since the start.
    pub issued: nat,
    /// Number of completions that signalled overload.
    pub overloaded: nat,
    /// Number of attempts that failed at the transport layer.
    pub transport_errors: nat,
}

/// The phase once the stop conditions are applied: a steady run whose
/// attempts are used up drains, and a draining run with nothing in flight
/// has stopped.
pub open spec fn settled(phase: Phase, in_flight: nat, issued: nat, cap: nat) -> Phase {
    let winding = if phase == Phase::SteadyState && issued >= cap {
        Phase::Draining
    } else {
        phase
    };
    if winding == Phase::Draining && in_flight == 0 {
        Phase::Stopped
    } else {
        winding
    }
}

impl SchedulerState {
    /// The scheduler as it is built from a configuration.
    pub open spec fn initial(config: Config) -> SchedulerState {
        SchedulerState {
            controller: ControllerState::initial(config),
            window: Seq::empty(),
            sampler: SamplerState::starting_at(0),
            phase: Phase::Filling,
            in_flight: 0,
            issued: 0,
            overloaded: 0,
            transport_errors: 0,
        }
    }

    pub open spec fn config(self) -> Config {
        self.controller.config
    }

    /// Number of attempts after which the run drains.
    pub open spec fn cap(self) -> nat {
        self.config().spec_attempts_cap()
    }

    /// Number of attempts that have completed, one way or the other.
    pub open spec fn completed(self) -> nat {
        self.controller.completions_seen + self.transport_errors
    }

    /// What holds of every scheduler. The first line after the controller's
    /// own is the concurrency ceiling.
    pub open spec fn valid(self) -> bool {
        &&& self.controller.valid()
        &&& self.in_flight <= self.config().max_in_flight
        &&& self.completed() + self.in_flight == self.issued
        &&& self.issued <= self.cap()
        &&& self.overloaded <= self.controller.completions_seen
        &&& self.sampler.emitted <= self.completed()
        &&& self.sampler.tally <= self.completed()
        &&& self.phase == Phase::Filling ==> self.issued == 0
        &&& self.phase == Phase::SteadyState ==> self.issued < self.cap()
        &&& self.phase == Phase::Draining ==> self.in_flight > 0
        &&& self.phase == Phase::Stopped ==> self.in_flight == 0
    }

    /// Number of attempts of the initial burst: the target rate, as far as
    /// the cap on attempts allows.
    pub open spec fn initial_burst(self) -> nat {
        if self.controller.target_rate <= self.cap() {
            self.controller.target_rate
        } else {
            self.cap()
        }
    }

    /// The initial burst: attempt `i` goes to client `i mod num_clients` and
    /// waits `i / target_rate` seconds.
    pub open spec fn initial_orders(self) -> Seq<SpawnOrder> {
        Seq::new(
            self.initial_burst(),
            |i: int|
                SpawnOrder {
                    client_index: (i % self.config().num_clients as int) as usize,
                    delay_micros: spec_stagger_delay(i as u64, self.controller.target_rate as u64) as u64,
                },
        )
    }

    /// The scheduler after the initial burst has been launched at `now`.
    pub open spec fn started(self, now: u64) -> SchedulerState {
        let burst = self.initial_burst();
        SchedulerState {
            sampler: SamplerState::starting_at(now),
            phase: settled(Phase::SteadyState, burst, burst, self.cap()),
            in_flight: burst,
            issued: burst,
            ..self
        }
    }

    /// Whether a completion can be taken: the run is under way and an attempt
    /// is outstanding.
    pub open spec fn accepts_completion(self) -> bool {
        (self.phase == Phase::SteadyState || self.phase == Phase::Draining) && self.in_flight > 0
    }

    /// The controller after the completion: a feedback signal is fed to it, a
    /// transport failure is not.
    pub open spec fn fed(self, signal: Option<Outcome>) -> ControllerState {
        match signal {
            Some(outcome) => self.controller.on_completion(outcome),
            None => self.controller,
        }
    }

    /// The window after the completion of an attempt that started at
    /// `started_at`: in a steady run the start is recorded and the window
    /// read at `now`.
    pub open spec fn window_after(self, started_at: u64, now: u64) -> Seq<u64> {
        if self.phase == Phase::SteadyState {
            recent(self.window.push(started_at), now)
        } else {
            self.window
        }
    }

    /// Number of attempts launched on a completion. In a steady run it is
    /// what the controller asks for, given the rate achieved over the last
    /// second and the attempts still outstanding, as far as the cap on
    /// attempts allows. A draining run launches nothing.
    pub open spec fn spawn_count(self, started_at: u64, signal: Option<Outcome>, now: u64) -> nat {
        if self.phase == Phase::SteadyState {
            let wanted = self.fed(signal).desired_spawn_count(
                self.window_after(started_at, now).len(),
                (self.in_flight - 1) as nat,
            );
            if wanted <= self.cap() - self.issued {
                wanted
            } else {
                (self.cap() - self.issued) as nat
            }
        } else {
            0
        }
    }

    /// The attempts launched on a completion: each goes to the next client
    /// in turn and waits until the second of the attempt that it replaces is over.
    pub open spec fn replacement_orders(
        self,
        started_at: u64,
        signal: Option<Outcome>,
        now: u64,
    ) -> Seq<SpawnOrder> {
        Seq::new(
            self.spawn_count(started_at, signal, now),
            |j: int|
                SpawnOrder {
                    client_index: ((self.issued + j) % self.config().num_clients as int) as usize,
                    delay_micros: spec_replacement_delay(started_at, now) as u64,
                },
        )
    }

    /// The scheduler after a completion that it accepts.
    pub open spec fn completed_one(
        self,
        started_at: u64,
        signal: Option<Outcome>,
        now: u64,
    ) -> SchedulerState {
        let launched = self.spawn_count(started_at, signal, now);
        let in_flight = (self.in_flight - 1 + launched) as nat;
        SchedulerState {
            controller: self.fed(signal),
            window: self.window_after(started_at, now),
            sampler: self.sampler.observe(now),
            phase: settled(self.phase, in_flight, self.issued + launched, self.cap()),
            in_flight,
            issued: self.issued + launched,
            overloaded: if signal == Some(Outcome::Overloaded) {
                self.overloaded + 1
            } else {
                self.overloaded
            },
            transport_errors: if signal is None {
                self.transport_errors + 1
            } else {
                self.transport_errors
            },
        }
    }

    /// The scheduler after a request to end the run: a run that has not
    /// started stops, a steady run drains, or stops if nothing is in flight.
    pub open spec fn cancelled(self) -> SchedulerState {
        match self.phase {
            Phase::Filling => SchedulerState { phase: Phase::Stopped, ..self },
            Phase::SteadyState => SchedulerState {
                phase: if self.in_flight == 0 {
                    Phase::Stopped
                } else {
                    Phase::Draining
                },
                ..self
            },
            _ => self,
        }
    }

    /// The scheduler after an event. An event that it has no use for leaves
    /// it as it is.
    pub open spec fn next(self, event: Event) -> SchedulerState {
        match event {
            Event::Start { now } => if self.phase == Phase::Filling {
                self.started(now)
            } else {
                self
            },
            Event::Completion { started_at, signal, now } => if self.accepts_completion() {
                self.completed_one(started_at, signal, now)
            } else {
                self
            },
            Event::Cancel => self.cancelled(),
        }
    }

    /// The scheduler after a history of events, first to last.
    pub open spec fn after(self, events: Seq<Event>) -> SchedulerState
        decreases events.len(),
    {
        if events.len() == 0 {
            self
        } else {
            self.after(events.drop_last()).next(events.last())
        }
    }
}

/// The driver's decisions: it owns the count of outstanding attempts, feeds
/// the rate controller and the window, and says what to launch next.
#[derive(Debug)]
pub struct Scheduler {
    controller: RateController,
    window: SlidingWindowCounter,
    sampler: Sampler,
    phase: Phase,
    in_flight: u64,
    issued: u64,
    overloaded: u64,
    transport_errors: u64,
}

impl View for Scheduler {
    type V = SchedulerState;

    closed spec fn view(&self) -> SchedulerState {
        SchedulerState {
            controller: self.controller@,
            window: self.window@,
            sampler: self.sampler@,
            phase: self.phase,
            in_flight: self.in_flight as nat,
            issued: self.issued as nat,
            overloaded: self.overloaded as nat,
            transport_errors: self.transport_errors as nat,
        }
    }
}

/// Applies the stop conditions to a phase.
fn settle(phase: Phase, in_flight: u64, issued: u64, cap: u64) -> (next: Phase)
    ensures
        next == settled(phase, in_flight as nat, issued as nat, cap as nat),
{
    let winding: Phase = if phase == Phase::SteadyState && issued >= cap {
        Phase::Draining
    } else {
        phase
    };
    if winding == Phase::Draining && in_flight == 0 {
        Phase::Stopped
    } else {
        winding
    }
}

impl Scheduler {
    /// Builds a scheduler from a configuration, which is checked first. The
    /// run is in `Filling`.
    pub fn new(config: Config) -> (made: Result<Scheduler, ConfigError>)
        ensures
            match config.spec_validate() {
                Ok(_) => made is Ok && made->Ok_0@ == SchedulerState::initial(config)
                    && made->Ok_0@.valid(),
                Err(defect) => made == Err::<Scheduler, ConfigError>(defect),
            },
    {
        match RateController::new(config) {
            Ok(controller) => Ok(
                Scheduler {
                    controller,
                    window: SlidingWindowCounter::new(),
                    sampler: Sampler::new(0),
                    phase: Phase::Filling,
                    in_flight: 0,
                    issued: 0,
                    overloaded: 0,
                    transport_errors: 0,
                },
            ),
            Err(defect) => Err(defect),
        }
    }

    /// Where the run stands.
    pub fn phase(&self) -> (phase: Phase)
        ensures
            phase == self@.phase,
    {
        self.phase
    }

    /// Whether the run has stopped.
    pub fn is_stopped(&self) -> (stopped: bool)
        ensures
            stopped == (self@.phase == Phase::Stopped),
    {
        self.phase == Phase::Stopped
    }

    /// Number of attempts launched and not yet completed.
    pub fn in_flight(&self) -> (n: u64)
        ensures
            n == self@.in_flight,
    {
        self.in_flight
    }

    /// Number of attempts launched since the start.
    pub fn attempts_issued(&self) -> (n: u64)
        ensures
            n == self@.issued,
    {
        self.issued
    }

    /// Requests per second currently aimed at.
    pub fn target_rate(&self) -> (rate: u64)
        ensures
            rate == self@.controller.target_rate,
    {
        self.controller.target_rate()
    }

    /// The configuration that the scheduler was built from.
    pub fn config(&self) -> (config: Config)
        ensures
            config == self@.config(),
    {
        self.controller.config()
    }

    /// The figures of the run, once it has stopped.
    pub fn summary(&self) -> (summary: Option<RunSummary>)
        ensures
            self@.phase != Phase::Stopped ==> summary is None,
            self@.phase == Phase::Stopped ==> summary == Some(
                RunSummary {
                    attempts_issued: self@.issued as u64,
                    overloaded: self@.overloaded as u64,
                    transport_errors: self@.transport_errors as u64,
                    final_target_rate: self@.controller.target_rate as u64,
                },
            ),
    {
        if self.phase == Phase::Stopped {
            Some(
                RunSummary {
                    attempts_issued: self.issued,
                    overloaded: self.overloaded,
                    transport_errors: self.transport_errors,
                    final_target_rate: self.controller.target_rate(),
                },
            )
        } else {
            None
        }
    }

    /// Launches the initial burst at `now`, in microseconds, and enters the
    /// steady state. The orders come back in the order of launch.
    pub fn start(&mut self, now: u64) -> (orders: Result<Vec<SpawnOrder>, SchedulerError>)
        requires
            old(self)@.valid(),
        ensures
            final(self)@.valid(),
            final(self)@ == old(self)@.next(Event::Start { now }),
            old(self)@.phase != Phase::Filling ==> orders is Err && orders->Err_0
                == SchedulerError::NotFilling,
            old(self)@.phase == Phase::Filling ==> orders is Ok && orders->Ok_0@
                == old(self)@.initial_orders(),
    {
        if self.phase != Phase::Filling {
            return Err(SchedulerError::NotFilling);
        }
        let config: Config = self.controller.config();
        let cap: u64 = config.attempts_cap();
        let rate: u64 = self.controller.target_rate();
        let burst: u64 = if rate <= cap {
            rate
        } else {
            cap
        };
        let clients: u64 = config.num_clients as u64;
        let mut orders: Vec<SpawnOrder> = Vec::new();
        let mut i: u64 = 0;
        while i < burst
            invariant
                i <= burst <= rate,
                clients == config.num_clients,
                clients > 0,
                orders@.len() == i,
                forall|k: int|
                    0 <= k < i ==> orders@[k] == (SpawnOrder {
                        client_index: (k % config.num_clients as int) as usize,
                        delay_micros: spec_stagger_delay(k as u64, rate) as u64,
                    }),
            decreases burst - i,
        {
            orders.push(
                SpawnOrder {
                    client_index: (i % clients) as usize,
                    delay_micros: stagger_delay_micros(i, rate),
                },
            );
            i = i + 1;
        }
        self.sampler = Sampler::new(now);
        self.in_flight = burst;
        self.issued = burst;
        self.phase = settle(Phase::SteadyState, burst, burst, cap);
        assert(orders@ =~= old(self)@.initial_orders());
        Ok(orders)
    }

    /// Takes the completion, at `now`, of an attempt that started at
    /// `started_at`, both in microseconds. The outcome is fed to the rate
    /// controller; a transport failure is counted and changes no rate. In
    /// the steady state the replacements to launch come back.
    pub fn on_completion<E>(
        &mut self,
        started_at: u64,
        result: Result<RunResult, E>,
        now: u64,
    ) -> (step: Result<Step, SchedulerError>)
        requires
            old(self)@.valid(),
        ensures
            final(self)@.valid(),
            final(self)@ == old(self)@.next(
                Event::Completion { started_at, signal: spec_classify(result), now },
            ),
            !old(self)@.accepts_completion() ==> step is Err && step->Err_0
                == SchedulerError::NothingInFlight,
            old(self)@.accepts_completion() ==> step is Ok && step->Ok_0.spawns@
                == old(self)@.replacement_orders(started_at, spec_classify(result), now)
                && step->Ok_0.sample == old(self)@.sampler.sample_at(now),
    {
        let steady: bool = self.phase == Phase::SteadyState;
        if !(steady || self.phase == Phase::Draining) || self.in_flight == 0 {
            return Err(SchedulerError::NothingInFlight);
        }
        let signal: Option<Outcome> = classify(&result);
        match signal {
            Some(outcome) => {
                self.controller.on_completion(outcome);
                match outcome {
                    Outcome::Overloaded => {
                        self.overloaded = self.overloaded + 1;
                    },
                    Outcome::Success => {},
                }
            },
            None => {
                self.transport_errors = self.transport_errors + 1;
            },
        }
        let sample: Option<Sample> = self.sampler.observe(now);
        let mut in_flight: u64 = self.in_flight - 1;
        let mut spawns: Vec<SpawnOrder> = Vec::new();
        let config: Config = self.controller.config();
        let cap: u64 = config.attempts_cap();
        if steady {
            self.window.record_start(started_at);
            let achieved: u64 = self.window.count_recent(now) as u64;
            let wanted: u64 = self.controller.desired_spawn_count(achieved, in_flight);
            let room: u64 = cap - self.issued;
            let launched: u64 = if wanted <= room {
                wanted
            } else {
                room
            };
            let delay: u64 = replacement_delay_micros(started_at, now);
            let clients: u64 = config.num_clients as u64;
            let first: u64 = self.issued;
            let mut j: u64 = 0;
            while j < launched
                invariant
                    j <= launched,
                    first + launched <= u64::MAX,
                    clients == config.num_clients,
                    clients > 0,
                    spawns@.len() == j,
                    forall|k: int|
                        0 <= k < j ==> spawns@[k] == (SpawnOrder {
                            client_index: ((first + k) % config.num_clients as int) as usize,
                            delay_micros: delay,
                        }),
                decreases launched - j,
            {
                spawns.push(
                    SpawnOrder { client_index: ((first + j) % clients) as usize, delay_micros: delay },
                );
                j = j + 1;
            }
            in_flight = in_flight + launched;
            self.issued = first + launched;
        }
        self.in_flight = in_flight;
        self.phase = settle(self.phase, in_flight, self.issued, cap);
        assert(spawns@ =~= old(self)@.replacement_orders(started_at, spec_classify(result), now));
        Ok(Step { spawns, sample })
    }

    /// Asks for the run to end. Nothing is aborted: a steady run drains, and
    /// stops once nothing is in flight.
    pub fn request_cancel(&mut self)
        requires
            old(self)@.valid(),
        ensures
            final(self)@.valid(),
            final(self)@ == old(self)@.next(Event::Cancel),
    {
        match self.phase {
            Phase::Filling => {
                self.phase = Phase::Stopped;
            },
            Phase::SteadyState => {
                self.phase = if self.in_flight == 0 {
                    Phase::Stopped
                } else {
                    Phase::Draining
                };
            },
            _ => {},
        }
    }
}

} // verus!
