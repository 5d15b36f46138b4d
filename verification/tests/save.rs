use idle_terminal::buildings::BuildingKind;
use idle_terminal::fixed::{from_units, FIXED_MAX};
use idle_terminal::resources::Resources;
use idle_terminal::save::{load_game, offline_ticks, MAX_OFFLINE_TICKS, SAVE_VERSION, TICK_MS};
use idle_terminal::state::GameState;

fn producing_game() -> GameState {
    let mut state = GameState::with_seed(1);
    state.resources = Resources {
        compute: from_units(100),
        bandwidth: from_units(15),
        crypto: from_units(50_000),
        ..Default::default()
    };
    for _ in 0..4 {
        state.purchase_building(BuildingKind::RaspberryPi);
    }
    state.purchase_building(BuildingKind::HomeRouter);
    state.purchase_building(BuildingKind::CryptoMiner);
    state
}

#[test]
fn ticks_that_fit_in_the_time_away() {
    assert_eq!(TICK_MS, 250);
    assert_eq!(SAVE_VERSION, 1);
    assert_eq!(offline_ticks(0), 0);
    assert_eq!(offline_ticks(-1), 0);
    assert_eq!(offline_ticks(i64::MIN), 0);
    assert_eq!(offline_ticks(249), 0);
    assert_eq!(offline_ticks(250), 1);
    assert_eq!(offline_ticks(499), 1);
    assert_eq!(offline_ticks(1_000), 4);
    assert_eq!(offline_ticks(8 * 3_600_000 - 1), 115_199);
    assert_eq!(offline_ticks(8 * 3_600_000), 115_200);
    assert_eq!(offline_ticks(8 * 3_600_000 + 250), 115_200);
    assert_eq!(offline_ticks(i64::MAX), MAX_OFFLINE_TICKS);
}

#[test]
fn a_hundred_hours_away_credit_eight_hours() {
    let state = producing_game();
    let before = state.resources;
    assert_eq!(state.production_per_tick.compute, 2_000_000);
    let result = load_game(state, 100 * 3_600_000);
    assert_eq!(result.offline_ticks, 115_200);
    assert_eq!(result.state.total_ticks, 115_200);
    assert_eq!(result.state.resources.compute, before.compute + 115_200 * 500_000);
    assert_eq!(result.state.resources.bandwidth, before.bandwidth + 115_200 * 75_000);
    assert_eq!(result.state.resources.crypto, before.crypto + 115_200 * 25_000);
    assert_eq!(
        result.offline_earnings,
        Resources {
            compute: 115_200 * 500_000,
            bandwidth: 115_200 * 75_000,
            crypto: 115_200 * 25_000,
            ..Default::default()
        }
    );
    let eight = load_game(producing_game(), 8 * 3_600_000);
    assert_eq!(eight.state.resources, result.state.resources);
    assert_eq!(eight.offline_earnings, result.offline_earnings);
}

#[test]
fn a_short_time_away() {
    let state = producing_game();
    let before = state.resources;
    let result = load_game(state, 1_100);
    assert_eq!(result.offline_ticks, 4);
    assert_eq!(result.state.resources.compute, before.compute + 2_000_000);
    assert_eq!(result.offline_earnings.compute, 2_000_000);
    assert_eq!(result.offline_earnings.reputation, 0);
    assert_eq!(result.state.total_ticks, 4);
}

#[test]
fn no_time_away_changes_nothing_but_the_history() {
    let mut state = producing_game();
    for _ in 0..8 {
        state.advance(None);
    }
    assert_eq!(state.compute_history.len(), 2);
    let before = state.clone();
    let result = load_game(state, -5_000);
    assert_eq!(result.offline_ticks, 0);
    assert_eq!(result.offline_earnings, Resources::zero());
    assert_eq!(result.state.resources, before.resources);
    assert_eq!(result.state.total_ticks, before.total_ticks);
    assert_eq!(result.state.buildings, before.buildings);
    assert_eq!(result.state.lifetime_compute, before.lifetime_compute);
    assert!(result.state.compute_history.is_empty());
}

#[test]
fn offline_efficiency_scales_the_credit() {
    let mut state = producing_game();
    state.offline_efficiency = 750_000;
    let before = state.resources;
    let result = load_game(state, 2_500);
    assert_eq!(result.offline_ticks, 10);
    assert_eq!(result.state.resources.compute, before.compute + 10 * 1_500_000);
    let mut none = producing_game();
    none.offline_efficiency = 0;
    let result = load_game(none, 2_500);
    assert_eq!(result.offline_earnings, Resources::zero());
    assert_eq!(result.state.total_ticks, 10);
}

#[test]
fn no_event_fires_while_away() {
    let mut state = producing_game();
    state.buildings[BuildingKind::MonitoringStack.index()].count = 498;
    let result = load_game(state, 1_000_000);
    assert!(result.state.event_log.is_empty());
    assert_eq!(result.state.traffic_spike_remaining, 0);
    assert_eq!(result.state.lifetime_compute, 0);
}

#[test]
fn catch_up_stops_at_the_ceiling() {
    let mut state = producing_game();
    state.resources.compute = FIXED_MAX - 1_000_000;
    let result = load_game(state, 100 * 3_600_000);
    assert_eq!(result.state.resources.compute, FIXED_MAX);
    assert_eq!(result.offline_earnings.compute, 1_000_000);
}

#[test]
fn every_resource_of_the_snapshot_accrues_at_the_offline_rate() {
    let mut state = GameState::with_seed(1);
    state.resources = Resources::zero();
    state.production_per_tick =
        Resources { compute: 4, bandwidth: 8, storage: 12, reputation: 16, crypto: 20 };
    state.offline_efficiency = 250_000;
    let result = load_game(state, 2_500);
    assert_eq!(result.offline_ticks, 10);
    let credited = Resources { compute: 10, bandwidth: 20, storage: 30, reputation: 40, crypto: 50 };
    assert_eq!(result.state.resources, credited);
    assert_eq!(result.offline_earnings, credited);
}

#[test]
fn loading_leaves_what_is_above_the_ceiling_alone() {
    let mut state = producing_game();
    state.resources.storage = FIXED_MAX + 5;
    let result = load_game(state, 1_000);
    assert_eq!(result.state.resources.storage, FIXED_MAX + 5);
    assert_eq!(result.offline_earnings.storage, 0);
}

