use idle_terminal::buildings::ResourceType;
use idle_terminal::fixed::{from_units, FIXED_MAX};
use idle_terminal::resources::Resources;

#[test]
fn test_can_afford() {
    let res = Resources {
        compute: from_units(100),
        bandwidth: from_units(50),
        ..Default::default()
    };
    let cost = Resources {
        compute: from_units(80),
        ..Default::default()
    };
    assert!(res.can_afford(&cost));

    let expensive = Resources {
        compute: from_units(200),
        ..Default::default()
    };
    assert!(!res.can_afford(&expensive));
}

#[test]
fn default_ledger_is_empty() {
    let r = Resources::default();
    assert_eq!(r, Resources::zero());
    assert_eq!(r.compute + r.bandwidth + r.storage + r.reputation + r.crypto, 0);
    assert!(r.can_afford(&Resources::zero()));
}

#[test]
fn can_afford_needs_every_resource() {
    let held = Resources { compute: 5, bandwidth: 5, storage: 5, reputation: 5, crypto: 5 };
    assert!(held.can_afford(&held));
    assert!(!held.can_afford(&Resources { compute: 6, ..held }));
    assert!(!held.can_afford(&Resources { bandwidth: 6, ..held }));
    assert!(!held.can_afford(&Resources { storage: 6, ..held }));
    assert!(!held.can_afford(&Resources { reputation: 6, ..held }));
    assert!(!held.can_afford(&Resources { crypto: 6, ..held }));
}

#[test]
fn debit_and_credit_are_component_wise() {
    let mut held = Resources { compute: 10, bandwidth: 20, storage: 30, reputation: 40, crypto: 50 };
    let cost = Resources { compute: 1, bandwidth: 2, storage: 3, reputation: 4, crypto: 5 };
    held.subtract(&cost);
    assert_eq!(held, Resources { compute: 9, bandwidth: 18, storage: 27, reputation: 36, crypto: 45 });
    held.add(&cost);
    assert_eq!(held, Resources { compute: 10, bandwidth: 20, storage: 30, reputation: 40, crypto: 50 });
}

#[test]
fn debit_never_goes_below_zero_and_credit_never_above_the_ceiling() {
    let mut held = Resources { compute: 1, ..Default::default() };
    held.subtract(&Resources { compute: 2, bandwidth: 7, ..Default::default() });
    assert_eq!(held, Resources::zero());
    let mut full = Resources { crypto: FIXED_MAX, ..Default::default() };
    full.add(&Resources { crypto: 1, ..Default::default() });
    assert_eq!(full.crypto, FIXED_MAX);
}

#[test]
fn a_single_resource_ledger() {
    assert_eq!(ResourceType::Compute.only(7), Resources { compute: 7, ..Default::default() });
    assert_eq!(ResourceType::Bandwidth.only(7), Resources { bandwidth: 7, ..Default::default() });
    assert_eq!(ResourceType::Storage.only(7), Resources { storage: 7, ..Default::default() });
    assert_eq!(ResourceType::Crypto.only(7), Resources { crypto: 7, ..Default::default() });
}

#[test]
fn a_purchase_leaves_the_resources_it_does_not_cost_alone() {
    let mut held = Resources {
        compute: from_units(100),
        bandwidth: FIXED_MAX + 9,
        storage: u128::MAX,
        reputation: 0,
        crypto: FIXED_MAX,
    };
    held.subtract(&Resources { compute: from_units(40), ..Default::default() });
    assert_eq!(
        held,
        Resources {
            compute: from_units(60),
            bandwidth: FIXED_MAX + 9,
            storage: u128::MAX,
            reputation: 0,
            crypto: FIXED_MAX,
        }
    );
    held.add(&Resources { compute: from_units(1), ..Default::default() });
    assert_eq!(held.bandwidth, FIXED_MAX + 9);
    assert_eq!(held.storage, u128::MAX);
    assert_eq!(held.compute, from_units(61));
    assert!(!held.is_in_range());
    assert!(Resources::zero().is_in_range());
}

#[test]
fn scaling_a_ledger_scales_every_resource() {
    let r = Resources { compute: 2, bandwidth: 4, storage: 6, reputation: 8, crypto: 10 };
    assert_eq!(
        r.scaled(2_500_000),
        Resources { compute: 5, bandwidth: 10, storage: 15, reputation: 20, crypto: 25 }
    );
    assert_eq!(r.scaled(0), Resources::zero());
    assert_eq!(r.scaled(1_000_000), r);
}

