use idle_terminal::fixed::{from_units, FIXED_MAX, SCALE};
use idle_terminal::formulas::{building_cost, building_production, level_cost};

fn as_real(x: u128) -> f64 {
    x as f64 / SCALE as f64
}

#[test]
fn test_building_cost() {
    let base = from_units(10);
    let mult = 1_150_000;
    assert!((as_real(building_cost(base, mult, 0)) - 10.0).abs() < 0.001);
    assert!((as_real(building_cost(base, mult, 1)) - 11.5).abs() < 0.001);
    assert!((as_real(building_cost(base, mult, 10)) - 10.0 * 1.15_f64.powi(10)).abs() < 0.01);
}

#[test]
fn test_building_production() {
    let prod = building_production(5, from_units(1), 2, 500_000, SCALE);
    assert!((as_real(prod) - 10.0).abs() < 0.001);
}

#[test]
fn building_cost_exact_values() {
    let base = from_units(10);
    assert_eq!(building_cost(base, 1_150_000, 0), 10_000_000);
    assert_eq!(building_cost(base, 1_150_000, 1), 11_500_000);
    assert_eq!(building_cost(base, 1_150_000, 2), 13_225_000);
    assert_eq!(building_cost(base, 1_150_000, 3), 15_208_750);
    assert_eq!(building_cost(from_units(5_000), 1_200_000, 2), 7_200_000_000);
}

#[test]
fn building_cost_is_strictly_increasing_in_count() {
    let base = from_units(10);
    let mut previous = building_cost(base, 1_150_000, 0);
    assert_eq!(previous, base);
    for count in 1..200u32 {
        let next = building_cost(base, 1_150_000, count);
        assert!(next > previous, "count {count}");
        previous = next;
    }
}

#[test]
fn building_cost_stops_at_the_ceiling() {
    assert_eq!(building_cost(from_units(10), 2_000_000, 500), FIXED_MAX);
    assert_eq!(building_cost(from_units(10), 2_000_000, u32::MAX), FIXED_MAX);
}

#[test]
fn building_cost_with_flat_or_falling_ratio() {
    assert_eq!(building_cost(from_units(10), SCALE, 1_000_000), from_units(10));
    assert_eq!(building_cost(from_units(10), 500_000, 1), from_units(5));
    assert_eq!(building_cost(from_units(10), 500_000, u32::MAX), 0);
    assert_eq!(building_cost(0, 1_150_000, 7), 0);
}

#[test]
fn building_production_exact_values() {
    assert_eq!(building_production(5, from_units(1), 2, 500_000, SCALE), 10_000_000);
    assert_eq!(building_production(1, 500_000, 0, 500_000, SCALE), 500_000);
    assert_eq!(building_production(1, 500_000, 0, 500_000, 2_000_000), 1_000_000);
    assert_eq!(building_production(3, 300_000, 1, 500_000, 1_100_000), 1_485_000);
    assert_eq!(building_production(0, from_units(1), 5, 500_000, SCALE), 0);
    assert_eq!(building_production(7, from_units(1), 5, 500_000, 0), 0);
}

#[test]
fn level_cost_doubles_with_each_level() {
    let base = from_units(10);
    assert_eq!(level_cost(base, 0), from_units(100));
    assert_eq!(level_cost(base, 1), from_units(200));
    assert_eq!(level_cost(base, 2), from_units(400));
    assert_eq!(level_cost(base, 10), from_units(102_400));
    assert_eq!(level_cost(base, 200), FIXED_MAX);
    assert_eq!(level_cost(base, u32::MAX), FIXED_MAX);
    assert_eq!(level_cost(0, 9), 0);
}
