use adaptive_load::config::{Config, ConfigError, DecreasePolicy};
use adaptive_load::controller::{RateChange, RateController};
use adaptive_load::outcome::Outcome;

fn controller(config: Config) -> RateController {
    RateController::new(config).expect("the configuration is an accepted one")
}

fn feed(controller: &mut RateController, outcome: Outcome, times: u64) -> u64 {
    let mut decreases = 0;
    for _ in 0..times {
        if controller.on_completion(outcome).decreased {
            decreases += 1;
        }
    }
    decreases
}

#[test]
fn thousand_successes_raise_the_rate_once() {
    let mut c = controller(Config::default());
    assert_eq!(c.target_rate(), 1000);
    feed(&mut c, Outcome::Success, 999);
    assert_eq!(c.target_rate(), 1000);
    let change = c.on_completion(Outcome::Success);
    assert_eq!(change, RateChange { decreased: false, increased: true });
    assert_eq!(c.target_rate(), 1100);
    assert_eq!(c.completions_seen(), 1000);
}

#[test]
fn overload_within_cooldown_changes_nothing() {
    let mut c = controller(Config::default());
    feed(&mut c, Outcome::Success, 4);
    assert_eq!(c.cooldown_window(), 2000);
    let change = c.on_completion(Outcome::Overloaded);
    assert_eq!(change, RateChange { decreased: false, increased: false });
    assert_eq!(c.completions_seen(), 5);
    assert_eq!(c.target_rate(), 1000);
    assert_eq!(c.last_decrease_at(), 0);
}

#[test]
fn overload_after_cooldown_lowers_the_rate() {
    let mut c = controller(Config::default());
    feed(&mut c, Outcome::Success, 4);
    feed(&mut c, Outcome::Overloaded, 1);
    feed(&mut c, Outcome::Success, 2395);
    assert_eq!(c.completions_seen(), 2400);
    assert_eq!(c.target_rate(), 1200);
    assert_eq!(c.cooldown_window(), 2400);
    let change = c.on_completion(Outcome::Overloaded);
    assert_eq!(change, RateChange { decreased: true, increased: false });
    assert_eq!(c.target_rate(), 600);
    assert_eq!(c.last_decrease_at(), 2401);
    assert_eq!(c.cooldown_window(), 1200);
}

#[test]
fn cooldown_ends_strictly_after_the_window() {
    let config = Config { rate_increase_step: 0, ..Config::default() };
    let mut c = controller(config);
    feed(&mut c, Outcome::Success, 1999);
    assert!(!c.on_completion(Outcome::Overloaded).decreased);
    assert_eq!(c.target_rate(), 1000);
    assert!(c.on_completion(Outcome::Overloaded).decreased);
    assert_eq!(c.target_rate(), 500);
    assert_eq!(c.last_decrease_at(), 2001);
}

#[test]
fn nothing_is_spawned_at_the_ceiling() {
    let c = controller(Config::default());
    assert_eq!(c.desired_spawn_count(0, 10000), 0);
    assert_eq!(c.desired_spawn_count(999, 10000), 0);
    assert_eq!(c.desired_spawn_count(0, 10001), 0);
    assert_eq!(c.desired_spawn_count(0, u64::MAX), 0);
}

#[test]
fn desired_spawn_count_is_the_clamped_shortfall() {
    let c = controller(Config::default());
    assert_eq!(c.desired_spawn_count(0, 0), 1000);
    assert_eq!(c.desired_spawn_count(400, 0), 600);
    assert_eq!(c.desired_spawn_count(400, 9500), 500);
    assert_eq!(c.desired_spawn_count(400, 9999), 1);
    assert_eq!(c.desired_spawn_count(1000, 0), 0);
    assert_eq!(c.desired_spawn_count(5000, 0), 0);
    assert_eq!(c.desired_spawn_count(u64::MAX, 3), 0);
}

#[test]
fn decreases_are_gated_under_constant_overload() {
    let config = Config { rate_increase_step: 0, rate_floor: 1000, ..Config::default() };
    let mut c = controller(config);
    let mut fired_at = Vec::new();
    for completion in 1..=10_000u64 {
        if c.on_completion(Outcome::Overloaded).decreased {
            fired_at.push(completion);
        }
    }
    assert_eq!(fired_at, vec![2001, 4002, 6003, 8004]);
    assert!(fired_at.len() as u64 <= 10_000 / 2000);
    assert_eq!(c.target_rate(), 1000);
}

#[test]
fn constant_overload_with_the_default_configuration() {
    let mut c = controller(Config::default());
    let mut fired = Vec::new();
    for completion in 1..=5000u64 {
        if c.on_completion(Outcome::Overloaded).decreased {
            fired.push((completion, c.target_rate()));
        }
    }
    assert_eq!(fired, vec![(2401, 600), (3802, 350), (4703, 225)]);
    assert_eq!(c.target_rate(), 325);
    assert_eq!(c.last_decrease_at(), 4703);
}

#[test]
fn additive_increase_over_one_interval_from_any_offset() {
    let mut c = controller(Config::default());
    feed(&mut c, Outcome::Success, 137);
    let before = c.target_rate();
    feed(&mut c, Outcome::Success, 1000);
    assert_eq!(c.target_rate(), before + 100);
    feed(&mut c, Outcome::Success, 1000);
    assert_eq!(c.target_rate(), before + 200);
}

#[test]
fn increase_stops_at_the_ceiling() {
    let config = Config { initial_target_rate: 9950, ..Config::default() };
    let mut c = controller(config);
    feed(&mut c, Outcome::Success, 1000);
    assert_eq!(c.target_rate(), 10000);
    feed(&mut c, Outcome::Success, 5000);
    assert_eq!(c.target_rate(), 10000);
}

#[test]
fn subtracting_policy_stops_at_the_floor() {
    let config = Config {
        decrease_policy: DecreasePolicy::Subtract(500),
        decrease_cooldown_multiplier: 1,
        rate_floor: 200,
        ..Config::default()
    };
    let mut c = controller(config);
    let mut changes = Vec::new();
    for completion in 1..=2000u64 {
        let change = c.on_completion(Outcome::Overloaded);
        if change.decreased || change.increased {
            changes.push((completion, c.target_rate()));
        }
    }
    assert_eq!(changes, vec![(1000, 1100), (1101, 600), (1702, 200), (1903, 200), (2000, 300)]);
}

#[test]
fn decrease_and_increase_on_one_completion() {
    let config = Config {
        decrease_cooldown_multiplier: 0,
        rate_increase_interval: 1,
        rate_increase_step: 7,
        ..Config::default()
    };
    let mut c = controller(config);
    let change = c.on_completion(Outcome::Overloaded);
    assert_eq!(change, RateChange { decreased: true, increased: true });
    assert_eq!(c.target_rate(), 507);
    assert_eq!(c.last_decrease_at(), 1);
}

#[test]
fn rate_stays_between_floor_and_ceiling() {
    let config = Config {
        initial_target_rate: 40,
        max_in_flight: 50,
        rate_increase_step: 7,
        rate_increase_interval: 3,
        decrease_cooldown_multiplier: 0,
        rate_floor: 9,
        ..Config::default()
    };
    let mut c = controller(config);
    for completion in 0..5000u64 {
        let outcome = if completion % 7 < 3 || completion % 11 == 0 {
            Outcome::Overloaded
        } else {
            Outcome::Success
        };
        c.on_completion(outcome);
        assert!(c.target_rate() >= 9);
        assert!(c.target_rate() <= 50);
        assert!(c.last_decrease_at() <= c.completions_seen());
    }
}

#[test]
fn halving_rounds_down_and_policies_apply() {
    assert_eq!(DecreasePolicy::Halve.apply(1001), 500);
    assert_eq!(DecreasePolicy::Halve.apply(1), 0);
    assert_eq!(DecreasePolicy::Subtract(500).apply(1000), 500);
    assert_eq!(DecreasePolicy::Subtract(500).apply(499), 0);
    assert_eq!(DecreasePolicy::Subtract(0).apply(77), 77);
}

#[test]
fn an_invalid_configuration_builds_no_controller() {
    let config = Config { max_in_flight: 999, ..Config::default() };
    assert_eq!(RateController::new(config).err(), Some(ConfigError::RateAboveCeiling));
}
