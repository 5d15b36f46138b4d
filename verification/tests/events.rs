use idle_terminal::buildings::BuildingKind;
use idle_terminal::events::{
    apply_event, event_band, event_chance, event_from_draws, event_kind, first_bound,
    maybe_generate_event, second_bound, BonusResource, EventBand, EventSeverity, GameEvent,
    GameEventKind,
};
use idle_terminal::fixed::{from_units, FIXED_MAX};
use idle_terminal::resources::Resources;
use rand::rngs::StdRng;
use rand::SeedableRng;

#[test]
fn test_apply_bonus_drop() {
    let mut resources = Resources {
        compute: from_units(100),
        ..Default::default()
    };
    apply_event(
        &GameEventKind::BonusDrop {
            resource: BonusResource::Compute,
            amount: from_units(50),
        },
        &mut resources,
    );
    assert_eq!(resources.compute, from_units(150));
}

#[test]
fn test_apply_ddos() {
    let mut resources = Resources {
        bandwidth: from_units(100),
        ..Default::default()
    };
    apply_event(&GameEventKind::DDoSAttack { severity: 5 }, &mut resources);
    assert!(resources.bandwidth < from_units(100));
    assert!(resources.bandwidth >= from_units(0));
}

#[test]
fn ddos_drain_is_clamped_at_zero() {
    let mut resources = Resources { bandwidth: from_units(100), compute: 9, ..Default::default() };
    apply_event(&GameEventKind::DDoSAttack { severity: 20 }, &mut resources);
    assert_eq!(resources.bandwidth, 0);
    apply_event(&GameEventKind::DDoSAttack { severity: 255 }, &mut resources);
    assert_eq!(resources.bandwidth, 0);
    assert_eq!(resources.compute, 9);
    let mut one = Resources { bandwidth: from_units(100), ..Default::default() };
    apply_event(&GameEventKind::DDoSAttack { severity: 1 }, &mut one);
    assert_eq!(one.bandwidth, from_units(95));
    apply_event(&GameEventKind::DDoSAttack { severity: 5 }, &mut one);
    assert_eq!(one.bandwidth, 71_250_000);
}

#[test]
fn security_breach_is_clamped_at_zero() {
    let mut resources = Resources { compute: from_units(10), ..Default::default() };
    apply_event(&GameEventKind::SecurityBreach { lost_compute: from_units(4) }, &mut resources);
    assert_eq!(resources.compute, from_units(6));
    apply_event(&GameEventKind::SecurityBreach { lost_compute: from_units(7) }, &mut resources);
    assert_eq!(resources.compute, 0);
}

#[test]
fn reputation_bonuses_are_credited() {
    let mut resources = Resources { reputation: 1_000_000, ..Default::default() };
    apply_event(&GameEventKind::ViralRepo { bonus_reputation: 2_500_000 }, &mut resources);
    assert_eq!(resources.reputation, 3_500_000);
    apply_event(
        &GameEventKind::OpenSourceContribution { bonus_reputation: 500_000 },
        &mut resources,
    );
    assert_eq!(resources.reputation, 4_000_000);
    apply_event(&GameEventKind::ViralRepo { bonus_reputation: FIXED_MAX }, &mut resources);
    assert_eq!(resources.reputation, FIXED_MAX);
}

#[test]
fn bonus_drop_targets_one_resource() {
    let mut resources = Resources::zero();
    apply_event(
        &GameEventKind::BonusDrop { resource: BonusResource::Bandwidth, amount: 3 },
        &mut resources,
    );
    apply_event(
        &GameEventKind::BonusDrop { resource: BonusResource::Storage, amount: 4 },
        &mut resources,
    );
    assert_eq!(resources, Resources { bandwidth: 3, storage: 4, ..Default::default() });
}

#[test]
fn lasting_events_change_nothing_at_once() {
    let before = Resources { compute: 1, bandwidth: 2, storage: 3, reputation: 4, crypto: 5 };
    for kind in [
        GameEventKind::TrafficSpike { multiplier: 3_000_000, duration_ticks: 59 },
        GameEventKind::ServerOverloaded(BuildingKind::RaspberryPi),
        GameEventKind::HardwareFailure(BuildingKind::VPS),
    ] {
        let mut resources = before;
        apply_event(&kind, &mut resources);
        assert_eq!(resources, before);
    }
}

#[test]
fn severity_of_each_kind() {
    assert_eq!(
        GameEventKind::ServerOverloaded(BuildingKind::RaspberryPi).severity_color(),
        EventSeverity::Warning
    );
    assert_eq!(GameEventKind::DDoSAttack { severity: 1 }.severity_color(), EventSeverity::Error);
    assert_eq!(
        GameEventKind::ViralRepo { bonus_reputation: 1 }.severity_color(),
        EventSeverity::Good
    );
    assert_eq!(
        GameEventKind::SecurityBreach { lost_compute: 1 }.severity_color(),
        EventSeverity::Error
    );
    assert_eq!(
        GameEventKind::TrafficSpike { multiplier: 1, duration_ticks: 1 }.severity_color(),
        EventSeverity::Good
    );
    assert_eq!(
        GameEventKind::HardwareFailure(BuildingKind::VPS).severity_color(),
        EventSeverity::Warning
    );
    assert_eq!(
        GameEventKind::BonusDrop { resource: BonusResource::Compute, amount: 1 }.severity_color(),
        EventSeverity::Good
    );
    assert_eq!(
        GameEventKind::OpenSourceContribution { bonus_reputation: 1 }.severity_color(),
        EventSeverity::Good
    );
}

#[test]
fn event_chance_grows_with_monitoring() {
    assert_eq!(event_chance(0), 5_000);
    assert_eq!(event_chance(1), 7_000);
    assert_eq!(event_chance(10), 25_000);
    assert_eq!(event_chance(u32::MAX), 5_000 + 2_000 * u32::MAX as u64);
}

#[test]
fn bands_of_the_roll() {
    let expected = [
        (0, EventBand::BonusDrop),
        (24, EventBand::BonusDrop),
        (25, EventBand::TrafficSpike),
        (39, EventBand::TrafficSpike),
        (40, EventBand::ViralRepo),
        (49, EventBand::ViralRepo),
        (50, EventBand::OpenSource),
        (59, EventBand::OpenSource),
        (60, EventBand::DDoS),
        (74, EventBand::DDoS),
        (75, EventBand::SecurityBreach),
        (84, EventBand::SecurityBreach),
        (85, EventBand::ServerOverloaded),
        (94, EventBand::ServerOverloaded),
        (95, EventBand::HardwareFailure),
        (99, EventBand::HardwareFailure),
    ];
    for (roll, band) in expected {
        assert_eq!(event_band(roll), band, "roll {roll}");
    }
    let mut counts = [0u32; 8];
    for roll in 0..100 {
        counts[event_band(roll) as usize] += 1;
    }
    assert_eq!(counts, [25, 15, 10, 10, 15, 10, 10, 5]);
}

#[test]
fn draw_bounds_of_each_band() {
    assert_eq!((first_bound(EventBand::BonusDrop), second_bound(EventBand::BonusDrop)), (3, 1));
    assert_eq!(
        (first_bound(EventBand::TrafficSpike), second_bound(EventBand::TrafficSpike)),
        (1_500_000, 40)
    );
    assert_eq!(first_bound(EventBand::ViralRepo), 5_000_000);
    assert_eq!(first_bound(EventBand::OpenSource), 2_000_000);
    assert_eq!(first_bound(EventBand::DDoS), 5);
    assert_eq!(first_bound(EventBand::SecurityBreach), 1);
    assert_eq!(first_bound(EventBand::ServerOverloaded), 1);
    assert_eq!(first_bound(EventBand::HardwareFailure), 1);
    assert_eq!(second_bound(EventBand::DDoS), 1);
}

#[test]
fn events_from_their_draws() {
    let compute = from_units(1_000);
    assert_eq!(
        event_kind(EventBand::BonusDrop, 0, 0, compute),
        GameEventKind::BonusDrop { resource: BonusResource::Compute, amount: from_units(20) }
    );
    assert_eq!(
        event_kind(EventBand::BonusDrop, 1, 0, 0),
        GameEventKind::BonusDrop { resource: BonusResource::Bandwidth, amount: from_units(10) }
    );
    assert_eq!(
        event_kind(EventBand::BonusDrop, 2, 0, compute),
        GameEventKind::BonusDrop { resource: BonusResource::Storage, amount: from_units(20) }
    );
    assert_eq!(
        event_kind(EventBand::TrafficSpike, 0, 0, compute),
        GameEventKind::TrafficSpike { multiplier: 1_500_000, duration_ticks: 20 }
    );
    assert_eq!(
        event_kind(EventBand::TrafficSpike, 1_499_999, 39, compute),
        GameEventKind::TrafficSpike { multiplier: 2_999_999, duration_ticks: 59 }
    );
    assert_eq!(
        event_kind(EventBand::ViralRepo, 4_999_999, 0, compute),
        GameEventKind::ViralRepo { bonus_reputation: 5_999_999 }
    );
    assert_eq!(
        event_kind(EventBand::OpenSource, 0, 0, compute),
        GameEventKind::OpenSourceContribution { bonus_reputation: 500_000 }
    );
    assert_eq!(
        event_kind(EventBand::DDoS, 4, 0, compute),
        GameEventKind::DDoSAttack { severity: 5 }
    );
    assert_eq!(
        event_kind(EventBand::DDoS, 0, 0, compute),
        GameEventKind::DDoSAttack { severity: 1 }
    );
    assert_eq!(
        event_kind(EventBand::SecurityBreach, 0, 0, compute),
        GameEventKind::SecurityBreach { lost_compute: from_units(20) }
    );
    assert_eq!(
        event_kind(EventBand::ServerOverloaded, 0, 0, compute),
        GameEventKind::ServerOverloaded(BuildingKind::RaspberryPi)
    );
    assert_eq!(
        event_kind(EventBand::HardwareFailure, 0, 0, compute),
        GameEventKind::HardwareFailure(BuildingKind::VPS)
    );
}

#[test]
fn an_event_fires_only_below_the_chance() {
    assert_eq!(event_from_draws(5_000, 0, 0, 0, 7, 0, 0), None);
    assert_eq!(event_from_draws(999_999, 99, 0, 0, 7, 0, 0), None);
    assert_eq!(
        event_from_draws(4_999, 99, 0, 0, 7, 0, 0),
        Some(GameEvent { kind: GameEventKind::HardwareFailure(BuildingKind::VPS), tick: 7 })
    );
    assert_eq!(event_from_draws(6_999, 60, 2, 0, 9, 0, 0), None);
    assert_eq!(
        event_from_draws(6_999, 60, 2, 0, 9, 1, 0),
        Some(GameEvent { kind: GameEventKind::DDoSAttack { severity: 3 }, tick: 9 })
    );
}

fn check_allowed(kind: &GameEventKind, compute: u128) {
    match kind {
        GameEventKind::BonusDrop { amount, .. } => {
            assert_eq!(*amount, compute / 100 + from_units(10));
        }
        GameEventKind::TrafficSpike { multiplier, duration_ticks } => {
            assert!((1_500_000..3_000_000).contains(multiplier));
            assert!((20..60).contains(duration_ticks));
        }
        GameEventKind::ViralRepo { bonus_reputation } => {
            assert!((1_000_000..6_000_000).contains(bonus_reputation));
        }
        GameEventKind::OpenSourceContribution { bonus_reputation } => {
            assert!((500_000..2_500_000).contains(bonus_reputation));
        }
        GameEventKind::DDoSAttack { severity } => {
            assert!((1..=5).contains(severity));
        }
        GameEventKind::SecurityBreach { lost_compute } => {
            assert_eq!(*lost_compute, compute / 50);
        }
        GameEventKind::ServerOverloaded(kind) => assert_eq!(*kind, BuildingKind::RaspberryPi),
        GameEventKind::HardwareFailure(kind) => assert_eq!(*kind, BuildingKind::VPS),
    }
}

#[test]
fn generated_events_are_within_the_catalog() {
    let mut rng = StdRng::seed_from_u64(42);
    let compute = from_units(12_345);
    let mut seen = [false; 8];
    for tick in 0..4_000u64 {
        let event = maybe_generate_event(&mut rng, tick, 498, compute);
        let event = event.expect("with a chance of a whole an event always fires");
        assert_eq!(event.tick, tick);
        check_allowed(&event.kind, compute);
        let slot = match event.kind {
            GameEventKind::BonusDrop { .. } => 0,
            GameEventKind::TrafficSpike { .. } => 1,
            GameEventKind::ViralRepo { .. } => 2,
            GameEventKind::OpenSourceContribution { .. } => 3,
            GameEventKind::DDoSAttack { .. } => 4,
            GameEventKind::SecurityBreach { .. } => 5,
            GameEventKind::ServerOverloaded(_) => 6,
            GameEventKind::HardwareFailure(_) => 7,
        };
        seen[slot] = true;
    }
    assert_eq!(seen, [true; 8]);
}

#[test]
fn events_are_rare_without_monitoring() {
    let mut rng = StdRng::seed_from_u64(7);
    let mut fired = 0;
    for tick in 0..100_000u64 {
        if maybe_generate_event(&mut rng, tick, 0, 0).is_some() {
            fired += 1;
        }
    }
    assert!(fired > 300 && fired < 700, "fired {fired}");
}
