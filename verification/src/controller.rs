use crate::config::{Config, ConfigError};
use crate::outcome::Outcome;
use vstd::prelude::*;

verus! {

/// The rate controller as a mathematical value: its configuration and the
/// three numbers that change as completions come in.
pub struct ControllerState {
    pub config: Config,
    /// Requests per second currently aimed at.
    pub target_rate: nat,
    /// Number of completions fed to the controller so far.
    pub completions_seen: nat,
    /// Value of `completions_seen` when the rate was last decreased.
    pub last_decrease_at: nat,
}

impl ControllerState {
    /// The controller as it is built from a configuration.
    pub open spec fn initial(config: Config) -> ControllerState {
        ControllerState {
            config,
            target_rate: config.initial_target_rate as nat,
            completions_seen: 0,
            last_decrease_at: 0,
        }
    }

    /// What holds of every controller: the configuration is an accepted one,
    /// the rate lies between the floor and the ceiling, and the last decrease
    /// is not in the future.
    pub open spec fn valid(self) -> bool {
        &&& self.config.valid()
        &&& self.config.rate_floor <= self.target_rate <= self.config.max_in_flight
        &&& self.last_decrease_at <= self.completions_seen
    }

    /// Number of completions that must lie between two decreases: the
    /// configured multiple of the current target rate.
    pub open spec fn cooldown_window(self) -> nat {
        self.config.decrease_cooldown_multiplier as nat * self.target_rate
    }

    /// Number of completions seen since the last decrease.
    pub open spec fn gap(self) -> nat {
        (self.completions_seen - self.last_decrease_at) as nat
    }

    /// Whether the next completion, with this outcome, lowers the rate: it
    /// signals overload, and counting it more completions than the cooldown
    /// window have passed since the last decrease.
    pub open spec fn decrease_due(self, outcome: Outcome) -> bool {
        outcome == Outcome::Overloaded && self.gap() + 1 > self.cooldown_window()
    }

    /// Whether the next completion raises the rate: counting it, the number
    /// of completions is a multiple of the increase interval.
    pub open spec fn increase_due(self) -> bool {
        (self.completions_seen + 1) % (self.config.rate_increase_interval as nat) == 0
    }

    /// The rate after a decrease: what the policy makes of it, but not under the floor.
    pub open spec fn lowered(self, rate: nat) -> nat {
        let by_policy = self.config.decrease_policy.spec_apply(rate);
        if by_policy >= self.config.rate_floor {
            by_policy
        } else {
            self.config.rate_floor as nat
        }
    }

    /// The rate after an increase: one step more, but not over the ceiling.
    pub open spec fn raised(self, rate: nat) -> nat {
        if rate + self.config.rate_increase_step <= self.config.max_in_flight {
            (rate + self.config.rate_increase_step) as nat
        } else {
            self.config.max_in_flight as nat
        }
    }

    /// The controller after one more completion. The decrease, where it is
    /// due, comes first; the increase, where it is due, is applied to the result.
    pub open spec fn on_completion(self, outcome: Outcome) -> ControllerState {
        let after_decrease = if self.decrease_due(outcome) {
            self.lowered(self.target_rate)
        } else {
            self.target_rate
        };
        ControllerState {
            config: self.config,
            target_rate: if self.increase_due() {
                self.raised(after_decrease)
            } else {
                after_decrease
            },
            completions_seen: self.completions_seen + 1,
            last_decrease_at: if self.decrease_due(outcome) {
                self.completions_seen + 1
            } else {
                self.last_decrease_at
            },
        }
    }

    /// Number of attempts to launch now: the shortfall of the achieved rate
    /// against the target, but never more than the ceiling leaves room for.
    pub open spec fn desired_spawn_count(self, achieved_recent_rate: nat, current_in_flight: nat) -> nat {
        let shortfall = if self.target_rate > achieved_recent_rate {
            (self.target_rate - achieved_recent_rate) as nat
        } else {
            0
        };
        let headroom = if self.config.max_in_flight > current_in_flight {
            (self.config.max_in_flight - current_in_flight) as nat
        } else {
            0
        };
        if shortfall <= headroom {
            shortfall
        } else {
            headroom
        }
    }

    /// The controller after a stream of completions, first to last.
    pub open spec fn run(self, outcomes: Seq<Outcome>) -> ControllerState
        decreases outcomes.len(),
    {
        if outcomes.len() == 0 {
            self
        } else {
            self.run(outcomes.drop_last()).on_completion(outcomes.last())
        }
    }

    /// Number of decreases applied over a stream of completions.
    pub open spec fn decreases_applied(self, outcomes: Seq<Outcome>) -> nat
        decreases outcomes.len(),
    {
        if outcomes.len() == 0 {
            0
        } else {
            let before = self.decreases_applied(outcomes.drop_last());
            if self.run(outcomes.drop_last()).decrease_due(outcomes.last()) {
                before + 1
            } else {
                before
            }
        }
    }
}

/// What one completion did to the target rate.
#[derive(Clone, Copy, Debug, PartialEq, Eq, Structural)]
pub struct RateChange {
    pub decreased: bool,
    pub increased: bool,
}

/// The adaptive rate controller: additive, periodic increase and sharp
/// decrease on overload, the decrease held back by a cooldown.
#[derive(Debug)]
pub struct RateController {
    config: Config,
    target_rate: u64,
    completions_seen: u64,
    last_decrease_at: u64,
}

impl View for RateController {
    type V = ControllerState;

    closed spec fn view(&self) -> ControllerState {
        ControllerState {
            config: self.config,
            target_rate: self.target_rate as nat,
            completions_seen: self.completions_seen as nat,
            last_decrease_at: self.last_decrease_at as nat,
        }
    }
}

impl RateController {
    /// Builds a controller from a configuration, which is checked first.
    pub fn new(config: Config) -> (made: Result<RateController, ConfigError>)
        ensures
            match config.spec_validate() {
                Ok(_) => made is Ok && made->Ok_0@ == ControllerState::initial(config)
                    && made->Ok_0@.valid(),
                Err(defect) => made == Err::<RateController, ConfigError>(defect),
            },
    {
        match config.validate() {
            Ok(_) => Ok(
                RateController {
                    config,
                    target_rate: config.initial_target_rate,
                    completions_seen: 0,
                    last_decrease_at: 0,
                },
            ),
            Err(defect) => Err(defect),
        }
    }

    /// Requests per second currently aimed at. It never exceeds the ceiling
    /// and never falls under the floor.
    pub fn target_rate(&self) -> (rate: u64)
        ensures
            rate == self@.target_rate,
    {
        self.target_rate
    }

    /// Number of completions fed to the controller so far.
    pub fn completions_seen(&self) -> (seen: u64)
        ensures
            seen == self@.completions_seen,
    {
        self.completions_seen
    }

    /// Value of `completions_seen` when the rate was last decreased; zero
    /// before the first decrease.
    pub fn last_decrease_at(&self) -> (at: u64)
        ensures
            at == self@.last_decrease_at,
    {
        self.last_decrease_at
    }

    /// The configuration that the controller was built from.
    pub fn config(&self) -> (config: Config)
        ensures
            config == self@.config,
    {
        self.config
    }

    /// Number of completions that must lie between two decreases, at the
    /// current rate.
    pub fn cooldown_window(&self) -> (window: u64)
        requires
            self@.valid(),
        ensures
            window == self@.cooldown_window(),
    {
        proof {
            lemma_window_fits(self@);
        }
        self.config.decrease_cooldown_multiplier * self.target_rate
    }

    /// Feeds one completion to the controller.
    pub fn on_completion(&mut self, outcome: Outcome) -> (change: RateChange)
        requires
            old(self)@.valid(),
            old(self)@.completions_seen < u64::MAX,
        ensures
            final(self)@ == old(self)@.on_completion(outcome),
            final(self)@.valid(),
            change.decreased == old(self)@.decrease_due(outcome),
            change.increased == old(self)@.increase_due(),
    {
        let seen: u64 = self.completions_seen + 1;
        let mut rate: u64 = self.target_rate;
        let mut decreased: bool = false;
        match outcome {
            Outcome::Overloaded => {
                let window: u64 = self.cooldown_window();
                if seen - self.last_decrease_at > window {
                    let by_policy: u64 = self.config.decrease_policy.apply(rate);
                    rate = if by_policy >= self.config.rate_floor {
                        by_policy
                    } else {
                        self.config.rate_floor
                    };
                    decreased = true;
                }
            },
            Outcome::Success => {},
        }
        let increased: bool = seen % self.config.rate_increase_interval == 0;
        if increased {
            rate = if self.config.rate_increase_step <= self.config.max_in_flight - rate {
                rate + self.config.rate_increase_step
            } else {
                self.config.max_in_flight
            };
        }
        self.target_rate = rate;
        self.completions_seen = seen;
        if decreased {
            self.last_decrease_at = seen;
        }
        RateChange { decreased, increased }
    }

    /// Number of attempts to launch now, given the rate achieved over the
    /// last second and the number of attempts outstanding.
    pub fn desired_spawn_count(&self, achieved_recent_rate: u64, current_in_flight: u64) -> (count: u64)
        ensures
            count == self@.desired_spawn_count(achieved_recent_rate as nat, current_in_flight as nat),
            current_in_flight >= self@.config.max_in_flight ==> count == 0,
            current_in_flight <= self@.config.max_in_flight ==> count + current_in_flight
                <= self@.config.max_in_flight,
    {
        let shortfall: u64 = if self.target_rate > achieved_recent_rate {
            self.target_rate - achieved_recent_rate
        } else {
            0
        };
        let headroom: u64 = if self.config.max_in_flight > current_in_flight {
            self.config.max_in_flight - current_in_flight
        } else {
            0
        };
        if shortfall <= headroom {
            shortfall
        } else {
            headroom
        }
    }
}

/// The cooldown window of a valid controller fits in 64 bits, and is at
/// least the configured multiple of the floor.
pub proof fn lemma_window_fits(c: ControllerState)
    requires
        c.valid(),
    ensures
        c.config.decrease_cooldown_multiplier * c.config.rate_floor <= c.cooldown_window()
            <= u64::MAX,
{
    let m = c.config.decrease_cooldown_multiplier as int;
    let t = c.target_rate as int;
    let f = c.config.rate_floor as int;
    let x = c.config.max_in_flight as int;
    assert(m * f <= m * t <= m * x) by (nonlinear_arith)
        requires
            0 <= m,
            f <= t <= x,
    ;
}

} // verus!
