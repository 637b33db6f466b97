use vstd::prelude::*;

verus! {

/// Why a configuration is refused before any traffic is issued.
#[derive(Clone, Copy, Debug, PartialEq, Eq, Structural)]
pub enum ConfigError {
    /// `num_clients` is zero: there is no handle to issue a request on.
    NoClients,
    /// `initial_target_rate` is above `max_in_flight`.
    RateAboveCeiling,
    /// `rate_floor` is above `initial_target_rate`.
    FloorAboveRate,
    /// `rate_increase_interval` is zero: "every zero completions" has no meaning.
    ZeroIncreaseInterval,
    /// `decrease_cooldown_multiplier` times `max_in_flight` does not fit in 64 bits.
    CooldownTooLong,
}

/// How far the target rate drops when a decrease is applied.
#[derive(Clone, Copy, Debug, PartialEq, Eq, Structural)]
pub enum DecreasePolicy {
    /// The rate is halved, rounding down.
    Halve,
    /// A fixed amount is taken off the rate, stopping at zero.
    Subtract(u64),
}

impl DecreasePolicy {
    /// The rate that the policy turns `rate` into, before the floor is applied.
    pub open spec fn spec_apply(self, rate: nat) -> nat {
        match self {
            DecreasePolicy::Halve => rate / 2,
            DecreasePolicy::Subtract(amount) => if rate >= amount {
                (rate - amount) as nat
            } else {
                0
            },
        }
    }

    /// Applies the policy to `rate`. The floor is the controller's business.
    pub fn apply(&self, rate: u64) -> (lowered: u64)
        ensures
            lowered == self.spec_apply(rate as nat),
            lowered <= rate,
    {
        match self {
            DecreasePolicy::Halve => rate / 2,
            DecreasePolicy::Subtract(amount) => if rate >= *amount {
                rate - *amount
            } else {
                0
            },
        }
    }
}

/// Everything that can be tuned, in one place. It is checked once, by
/// [`Config::validate`], before a controller or a scheduler is built from it.
#[derive(Clone, Copy, Debug)]
pub struct Config {
    /// Requests per second aimed at when the run starts.
    pub initial_target_rate: u64,
    /// Hard ceiling on the number of attempts outstanding at one time.
    pub max_in_flight: u64,
    /// Number of client handles in the pool.
    pub num_clients: usize,
    /// What is added to the target rate at each increase.
    pub rate_increase_step: u64,
    /// Number of completions between two increases.
    pub rate_increase_interval: u64,
    /// The cooldown window is this many times the current target rate.
    pub decrease_cooldown_multiplier: u64,
    /// How far a decrease lowers the rate.
    pub decrease_policy: DecreasePolicy,
    /// No decrease brings the rate under this.
    pub rate_floor: u64,
    /// Total number of attempts after which the run drains; `None` runs until cancelled.
    pub total_attempts_cap: Option<u64>,
}

impl Config {
    /// The verdict on a configuration: the first of the five defects that it
    /// has, in the order of [`ConfigError`], or `Ok`.
    pub open spec fn spec_validate(self) -> Result<(), ConfigError> {
        if self.num_clients == 0 {
            Err(ConfigError::NoClients)
        } else if self.max_in_flight < self.initial_target_rate {
            Err(ConfigError::RateAboveCeiling)
        } else if self.initial_target_rate < self.rate_floor {
            Err(ConfigError::FloorAboveRate)
        } else if self.rate_increase_interval == 0 {
            Err(ConfigError::ZeroIncreaseInterval)
        } else if self.decrease_cooldown_multiplier * self.max_in_flight > u64::MAX {
            Err(ConfigError::CooldownTooLong)
        } else {
            Ok(())
        }
    }

    /// A configuration that [`Config::validate`] accepts.
    pub open spec fn valid(self) -> bool {
        self.spec_validate() is Ok
    }

    /// The number of attempts after which the run drains. Without a configured
    /// cap it is the largest count that the counters can hold.
    pub open spec fn spec_attempts_cap(self) -> nat {
        match self.total_attempts_cap {
            Some(cap) => cap as nat,
            None => u64::MAX as nat,
        }
    }

    /// Checks the configuration, once, at startup.
    pub fn validate(&self) -> (verdict: Result<(), ConfigError>)
        ensures
            verdict == self.spec_validate(),
    {
        if self.num_clients == 0 {
            Err(ConfigError::NoClients)
        } else if self.max_in_flight < self.initial_target_rate {
            Err(ConfigError::RateAboveCeiling)
        } else if self.initial_target_rate < self.rate_floor {
            Err(ConfigError::FloorAboveRate)
        } else if self.rate_increase_interval == 0 {
            Err(ConfigError::ZeroIncreaseInterval)
        } else if self.decrease_cooldown_multiplier.checked_mul(self.max_in_flight).is_none() {
            Err(ConfigError::CooldownTooLong)
        } else {
            Ok(())
        }
    }

    /// The number of attempts after which the run drains.
    pub fn attempts_cap(&self) -> (cap: u64)
        ensures
            cap == self.spec_attempts_cap(),
    {
        match self.total_attempts_cap {
            Some(cap) => cap,
            None => u64::MAX,
        }
    }
}

impl Default for Config {
    /// 1000 requests per second to begin with, at most 10000 in flight, ten
    /// clients, 100 more per 1000 completions, a cooldown of twice the rate,
    /// halving on overload down to a floor of one, and no cap on attempts.
    fn default() -> (config: Config)
        ensures
            config.initial_target_rate == 1000,
            config.max_in_flight == 10000,
            config.num_clients == 10,
            config.rate_increase_step == 100,
            config.rate_increase_interval == 1000,
            config.decrease_cooldown_multiplier == 2,
            config.decrease_policy == DecreasePolicy::Halve,
            config.rate_floor == 1,
            config.total_attempts_cap == None::<u64>,
            config.valid(),
    {
        Config {
            initial_target_rate: 1000,
            max_in_flight: 10000,
            num_clients: 10,
            rate_increase_step: 100,
            rate_increase_interval: 1000,
            decrease_cooldown_multiplier: 2,
            decrease_policy: DecreasePolicy::Halve,
            rate_floor: 1,
            total_attempts_cap: None,
        }
    }
}

} // verus!
