use idle_terminal::buildings::BuildingKind;
use idle_terminal::fixed::from_units;
use idle_terminal::resources::Resources;
use idle_terminal::upgrades::{all_upgrades, upgrade_def, UpgradeEffect, UPGRADE_COUNT};

#[test]
fn test_upgrade_ids_unique() {
    let upgrades = all_upgrades();
    let mut ids: Vec<_> = upgrades.iter().map(|u| u.id).collect();
    ids.sort();
    ids.dedup();
    assert_eq!(ids.len(), upgrades.len());
}

#[test]
fn test_prerequisites_valid() {
    let upgrades = all_upgrades();
    let ids: Vec<_> = upgrades.iter().map(|u| u.id).collect();
    for upgrade in &upgrades {
        for prereq in &upgrade.prerequisites {
            assert!(ids.contains(prereq), "Upgrade {} has invalid prerequisite {}", upgrade.id, prereq);
        }
    }
}

#[test]
fn upgrade_catalog_values() {
    let upgrades = all_upgrades();
    assert_eq!(upgrades.len(), UPGRADE_COUNT);
    for (i, u) in upgrades.iter().enumerate() {
        assert_eq!(u.id, i);
        assert!(!u.purchased);
        for p in &u.prerequisites {
            assert!(*p < i);
        }
    }
    assert_eq!(upgrades[0].name, "Overclocking");
    assert_eq!(upgrades[0].description, "x2 Raspberry Pi production");
    assert_eq!(upgrades[0].cost, Resources { compute: from_units(500), ..Default::default() });
    assert_eq!(upgrades[0].prerequisites, Vec::<usize>::new());
    assert_eq!(
        upgrades[0].effect,
        UpgradeEffect::MultiplyProduction(BuildingKind::RaspberryPi, 2_000_000)
    );
    assert_eq!(upgrades[3].prerequisites, vec![0]);
    assert_eq!(upgrades[6].effect, UpgradeEffect::MultiplyAllProduction(1_250_000));
    assert_eq!(
        upgrades[7].cost,
        Resources {
            compute: from_units(100_000),
            bandwidth: from_units(50_000),
            ..Default::default()
        }
    );
    assert_eq!(upgrades[7].prerequisites, vec![6]);
    assert_eq!(
        upgrades[10].effect,
        UpgradeEffect::MultiplyProduction(BuildingKind::LoadBalancer, 3_000_000)
    );
    assert_eq!(upgrades[11].effect, UpgradeEffect::IncreaseTaskReward(2_000_000));
    assert_eq!(upgrades[12].effect, UpgradeEffect::IncreaseOfflineEfficiency(500_000));
    assert_eq!(upgrades[12].prerequisites, vec![6]);
    assert_eq!(upgrades[13].name, "Systemd Timers");
    assert_eq!(upgrades[13].effect, UpgradeEffect::IncreaseOfflineEfficiency(750_000));
    assert_eq!(upgrades[13].prerequisites, vec![12]);
    assert_eq!(upgrade_def(5).name, "RAID Configuration");
}
