use idle_terminal::buildings::{
    all_building_defs, building_def, BuildingInstance, BuildingKind, ResourceType, KIND_COUNT,
};
use idle_terminal::fixed::{from_units, SCALE};
use idle_terminal::resources::Resources;

#[test]
fn catalog_has_every_kind_once_in_order() {
    let defs = all_building_defs();
    assert_eq!(defs.len(), KIND_COUNT);
    for (i, def) in defs.iter().enumerate() {
        assert_eq!(def.kind.index(), i);
        assert_eq!(BuildingKind::from_index(i), Some(def.kind));
        assert_eq!(building_def(def.kind).name, def.name);
    }
    assert_eq!(BuildingKind::from_index(KIND_COUNT), None);
    assert_eq!(BuildingKind::from_index(usize::MAX), None);
}

#[test]
fn catalog_values() {
    let pi = building_def(BuildingKind::RaspberryPi);
    assert_eq!(pi.name, "Raspberry Pi");
    assert_eq!(pi.description, "A tiny single-board computer");
    assert_eq!(pi.base_cost, from_units(10));
    assert_eq!(pi.cost_multiplier, 1_150_000);
    assert_eq!(pi.base_production, 500_000);
    assert_eq!(pi.level_bonus, 500_000);
    assert_eq!(pi.resource_type, ResourceType::Compute);
    assert_eq!(pi.unlock_threshold, 0);
    assert_eq!(pi.tier, 1);

    let fs = building_def(BuildingKind::DistributedFS);
    assert_eq!(fs.base_cost, from_units(2_000_000));
    assert_eq!(fs.base_production, from_units(4_500));
    assert_eq!(fs.resource_type, ResourceType::Storage);
    assert_eq!(fs.unlock_threshold, from_units(1_000_000_000_000));
    assert_eq!(fs.tier, 6);

    let cicd = building_def(BuildingKind::CICDPipeline);
    assert_eq!(cicd.base_cost, from_units(5_000));
    assert_eq!(cicd.cost_multiplier, 1_200_000);
    assert_eq!(cicd.base_production, 0);
    assert_eq!(cicd.level_bonus, 0);
    assert_eq!(cicd.tier, 3);

    let miner = building_def(BuildingKind::CryptoMiner);
    assert_eq!(miner.base_production, 100_000);
    assert_eq!(miner.resource_type, ResourceType::Crypto);
    assert_eq!(miner.tier, 5);

    let monitoring = building_def(BuildingKind::MonitoringStack);
    assert_eq!(monitoring.base_cost, from_units(3_000));
    assert_eq!(monitoring.unlock_threshold, from_units(25_000));
    assert_eq!(monitoring.tier, 2);
}

#[test]
fn new_instance_owns_nothing() {
    let b = BuildingInstance::new(BuildingKind::VPS);
    assert_eq!(b, BuildingInstance { kind: BuildingKind::VPS, count: 0, level: 0 });
}

#[test]
fn next_cost_and_cost_as_resources() {
    let router = building_def(BuildingKind::HomeRouter);
    assert_eq!(router.next_cost(0), from_units(15));
    assert_eq!(router.next_cost(1), 17_250_000);
    assert_eq!(
        router.cost_as_resources(1),
        Resources { bandwidth: 17_250_000, ..Default::default() }
    );
    let miner = building_def(BuildingKind::CryptoMiner);
    assert_eq!(
        miner.cost_as_resources(0),
        Resources { crypto: from_units(50_000), ..Default::default() }
    );
}

#[test]
fn production_per_tick_of_a_definition() {
    let vps = building_def(BuildingKind::VPS);
    assert_eq!(vps.production_per_tick(1, 0, SCALE), from_units(4));
    assert_eq!(vps.production_per_tick(2, 1, SCALE), from_units(12));
    assert_eq!(vps.production_per_tick(2, 1, 1_500_000), from_units(18));
}
