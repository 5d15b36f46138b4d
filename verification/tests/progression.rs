use idle_terminal::fixed::{from_units, SCALE};
use idle_terminal::progression::{
    achievement_def, all_achievement_defs, prestige_reputation, reputation_multiplier,
    ACHIEVEMENT_COUNT,
};

fn as_real(x: u128) -> f64 {
    x as f64 / SCALE as f64
}

#[test]
fn test_prestige_reputation() {
    assert_eq!(prestige_reputation(from_units(0)), from_units(0));
    assert_eq!(prestige_reputation(from_units(999_999)), from_units(0));
    assert_eq!(prestige_reputation(from_units(1_000_000)), from_units(1));
    assert_eq!(prestige_reputation(from_units(4_000_000)), from_units(2));
    assert_eq!(prestige_reputation(from_units(9_000_000)), from_units(3));
    assert_eq!(prestige_reputation(from_units(100_000_000)), from_units(10));
}

#[test]
fn test_reputation_multiplier() {
    assert_eq!(reputation_multiplier(from_units(0)), SCALE);
    assert!((as_real(reputation_multiplier(from_units(1))) - 1.1).abs() < 0.001);
    assert!((as_real(reputation_multiplier(from_units(10))) - 2.0).abs() < 0.001);
}

#[test]
fn test_achievement_ids_unique() {
    let defs = all_achievement_defs();
    let mut ids: Vec<_> = defs.iter().map(|d| d.id).collect();
    ids.sort();
    ids.dedup();
    assert_eq!(ids.len(), defs.len());
}

#[test]
fn prestige_reputation_rounds_down() {
    assert_eq!(prestige_reputation(from_units(3_999_999)), from_units(1));
    assert_eq!(prestige_reputation(from_units(8_999_999)), from_units(2));
    assert_eq!(prestige_reputation(from_units(1_000_000) - 1), 0);
    assert_eq!(prestige_reputation(from_units(1_000_000_000_000)), from_units(1_000));
}

#[test]
fn reputation_multiplier_exact_values() {
    assert_eq!(reputation_multiplier(from_units(1)), 1_100_000);
    assert_eq!(reputation_multiplier(from_units(2)), 1_200_000);
    assert_eq!(reputation_multiplier(from_units(10)), 2_000_000);
    assert_eq!(reputation_multiplier(1_500_000), 1_150_000);
}

#[test]
fn achievement_table_in_order() {
    let defs = all_achievement_defs();
    assert_eq!(defs.len(), ACHIEVEMENT_COUNT);
    let ids: Vec<&str> = defs.iter().map(|d| d.id).collect();
    assert_eq!(
        ids,
        vec![
            "first_build",
            "ten_builds",
            "first_upgrade",
            "first_prestige",
            "compute_1m",
            "compute_1b",
            "compute_1t",
            "task_10",
            "task_50",
            "prestige_5",
        ]
    );
    assert_eq!(defs[0].name, "Hello World");
    assert_eq!(defs[8].name, "Incident Commander");
    assert_eq!(defs[9].description, "Prestige 5 times");
    assert_eq!(achievement_def(3).name, "Reboot");
}

#[test]
fn achievement_names_unique() {
    let defs = all_achievement_defs();
    let mut names: Vec<_> = defs.iter().map(|d| d.name).collect();
    names.sort();
    names.dedup();
    assert_eq!(names.len(), defs.len());
}
