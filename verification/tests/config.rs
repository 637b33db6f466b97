use adaptive_load::config::{Config, ConfigError, DecreasePolicy};
use adaptive_load::fault::{fault_of, Fault};
use adaptive_load::outcome::{classify, Outcome};
use adaptive_load::pool::PoolError;
use adaptive_load::RunResult;

#[test]
fn default_configuration_is_the_documented_one() {
    let config = Config::default();
    assert_eq!(config.initial_target_rate, 1000);
    assert_eq!(config.max_in_flight, 10000);
    assert_eq!(config.num_clients, 10);
    assert_eq!(config.rate_increase_step, 100);
    assert_eq!(config.rate_increase_interval, 1000);
    assert_eq!(config.decrease_cooldown_multiplier, 2);
    assert_eq!(config.decrease_policy, DecreasePolicy::Halve);
    assert_eq!(config.rate_floor, 1);
    assert_eq!(config.total_attempts_cap, None);
    assert_eq!(config.validate(), Ok(()));
    assert_eq!(config.attempts_cap(), u64::MAX);
}

#[test]
fn zero_clients_is_refused() {
    let config = Config { num_clients: 0, ..Config::default() };
    assert_eq!(config.validate(), Err(ConfigError::NoClients));
}

#[test]
fn rate_above_the_ceiling_is_refused() {
    let config = Config { initial_target_rate: 10001, ..Config::default() };
    assert_eq!(config.validate(), Err(ConfigError::RateAboveCeiling));
    let at_ceiling = Config { initial_target_rate: 10000, ..Config::default() };
    assert_eq!(at_ceiling.validate(), Ok(()));
}

#[test]
fn floor_above_the_rate_is_refused() {
    let config = Config { rate_floor: 1001, ..Config::default() };
    assert_eq!(config.validate(), Err(ConfigError::FloorAboveRate));
    let at_rate = Config { rate_floor: 1000, ..Config::default() };
    assert_eq!(at_rate.validate(), Ok(()));
}

#[test]
fn zero_increase_interval_is_refused() {
    let config = Config { rate_increase_interval: 0, ..Config::default() };
    assert_eq!(config.validate(), Err(ConfigError::ZeroIncreaseInterval));
}

#[test]
fn cooldown_that_overflows_is_refused() {
    let config = Config { decrease_cooldown_multiplier: u64::MAX / 10000 + 1, ..Config::default() };
    assert_eq!(config.validate(), Err(ConfigError::CooldownTooLong));
    let largest = Config { decrease_cooldown_multiplier: u64::MAX / 10000, ..Config::default() };
    assert_eq!(largest.validate(), Ok(()));
}

#[test]
fn defects_are_reported_in_order() {
    let config = Config {
        num_clients: 0,
        initial_target_rate: 20000,
        rate_floor: 30000,
        rate_increase_interval: 0,
        ..Config::default()
    };
    assert_eq!(config.validate(), Err(ConfigError::NoClients));
    let config = Config { num_clients: 1, ..config };
    assert_eq!(config.validate(), Err(ConfigError::RateAboveCeiling));
    let config = Config { max_in_flight: 20000, ..config };
    assert_eq!(config.validate(), Err(ConfigError::FloorAboveRate));
    let config = Config { rate_floor: 0, ..config };
    assert_eq!(config.validate(), Err(ConfigError::ZeroIncreaseInterval));
}

#[test]
fn a_configured_cap_is_the_cap() {
    let config = Config { total_attempts_cap: Some(42), ..Config::default() };
    assert_eq!(config.attempts_cap(), 42);
}

#[test]
fn reports_carry_their_feedback_signal() {
    let fine = RunResult::Success(chrono::Duration::milliseconds(12));
    assert_eq!(fine.outcome(), Outcome::Success);
    assert_eq!(RunResult::SlowDown.outcome(), Outcome::Overloaded);
    assert_eq!(fine, RunResult::Success(chrono::Duration::milliseconds(12)));
    assert_ne!(fine, RunResult::SlowDown);
}

#[test]
fn a_transport_failure_is_no_feedback_signal() {
    let finished: Result<RunResult, String> = Ok(RunResult::Success(chrono::Duration::zero()));
    let slow: Result<RunResult, String> = Ok(RunResult::SlowDown);
    let failed: Result<RunResult, String> = Err(String::from("connection reset"));
    assert_eq!(classify(&finished), Some(Outcome::Success));
    assert_eq!(classify(&slow), Some(Outcome::Overloaded));
    assert_eq!(classify(&failed), None);
}

#[test]
fn only_startup_faults_are_fatal() {
    assert!(Fault::Setup.is_fatal());
    assert!(Fault::Configuration.is_fatal());
    assert!(!Fault::SoftOverload.is_fatal());
    assert!(!Fault::Transport.is_fatal());
    assert!(!Fault::Teardown.is_fatal());
}

#[test]
fn faults_of_completions_and_errors() {
    assert_eq!(fault_of(Some(Outcome::Success)), None);
    assert_eq!(fault_of(Some(Outcome::Overloaded)), Some(Fault::SoftOverload));
    assert_eq!(fault_of(None), Some(Fault::Transport));
    assert_eq!(ConfigError::NoClients.fault(), Fault::Configuration);
    assert_eq!(ConfigError::CooldownTooLong.fault(), Fault::Configuration);
    assert_eq!(PoolError::NoClients.fault(), Fault::Configuration);
    assert_eq!(PoolError::SetupIncomplete.fault(), Fault::Setup);
}
