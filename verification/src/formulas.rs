//! The two pricing and production curves of the economy.

use vstd::prelude::*;
use vstd::arithmetic::power2::{lemma_pow2_pos, lemma_pow2_unfold, pow2};
use crate::fixed::{
    clamp, fixed_add, fixed_mul, fixed_times, lemma_mul_grows, spec_add, spec_mul, spec_times,
    Fixed, FIXED_MAX, SCALE,
};

verus! {

/// The price of the next unit of a building of which `count` are owned:
/// the base price, scaled `count` times by the growth ratio.
pub open spec fn spec_building_cost(base_cost: Fixed, cost_multiplier: Fixed, count: nat) -> Fixed
    decreases count,
{
    if count == 0 {
        base_cost
    } else {
        spec_mul(spec_building_cost(base_cost, cost_multiplier, (count - 1) as nat), cost_multiplier)
    }
}

/// What `count` units of a building yield in one tick:
/// `count x base x (1 + bonus x level) x multiplier`.
pub open spec fn spec_building_production(
    count: u32,
    base_production: Fixed,
    level: u32,
    level_bonus: Fixed,
    global_multiplier: Fixed,
) -> Fixed {
    spec_mul(
        spec_mul(
            spec_times(base_production, count as int),
            spec_add(SCALE, spec_times(level_bonus, level as int)),
        ),
        global_multiplier,
    )
}

/// Once a price is left unchanged by the growth ratio, it stays unchanged.
proof fn lemma_cost_settles(base_cost: Fixed, cost_multiplier: Fixed, i: nat, n: nat)
    requires
        i <= n,
        spec_building_cost(base_cost, cost_multiplier, i + 1) == spec_building_cost(
            base_cost,
            cost_multiplier,
            i,
        ),
    ensures
        spec_building_cost(base_cost, cost_multiplier, n) == spec_building_cost(
            base_cost,
            cost_multiplier,
            i,
        ),
    decreases n - i,
{
    if n > i {
        lemma_cost_settles(base_cost, cost_multiplier, i, (n - 1) as nat);
    }
}

/// The price of the next unit of a building of which `count` are owned.
pub fn building_cost(base_cost: Fixed, cost_multiplier: Fixed, count: u32) -> (cost: Fixed)
    ensures
        cost == spec_building_cost(base_cost, cost_multiplier, count as nat),
{
    let mut cost: Fixed = base_cost;
    let mut i: u32 = 0;
    while i < count
        invariant
            i <= count,
            cost == spec_building_cost(base_cost, cost_multiplier, i as nat),
        decreases count - i,
    {
        let next: Fixed = fixed_mul(cost, cost_multiplier);
        if next == cost {
            proof {
                lemma_cost_settles(base_cost, cost_multiplier, i as nat, count as nat);
            }
            return cost;
        }
        cost = next;
        i = i + 1;
    }
    cost
}

/// What `count` units of a building at `level` yield in one tick.
pub fn building_production(
    count: u32,
    base_production: Fixed,
    level: u32,
    level_bonus: Fixed,
    global_multiplier: Fixed,
) -> (production: Fixed)
    ensures
        production == spec_building_production(
            count,
            base_production,
            level,
            level_bonus,
            global_multiplier,
        ),
        production <= FIXED_MAX,
{
    let owned: Fixed = fixed_times(base_production, count);
    let level_factor: Fixed = fixed_add(SCALE, fixed_times(level_bonus, level));
    fixed_mul(fixed_mul(owned, level_factor), global_multiplier)
}

/// The price of raising a building from `level` to the next:
/// `base x 10 x 2^level`.
pub open spec fn spec_level_cost(base_cost: Fixed, level: nat) -> Fixed {
    clamp(base_cost as int * 10 * pow2(level) as int)
}

/// Doubling the price of one level gives the price of the next.
proof fn lemma_level_cost_doubles(base_cost: Fixed, level: nat)
    ensures
        spec_level_cost(base_cost, level + 1) == spec_times(spec_level_cost(base_cost, level), 2),
{
    lemma_pow2_unfold(level + 1);
    lemma_pow2_pos(level);
    let p = pow2(level) as int;
    assert(base_cost as int * 10 * (2 * p) == (base_cost as int * 10 * p) * 2)
        by (nonlinear_arith);
    assert(base_cost as int * 10 * p >= 0) by (nonlinear_arith)
        requires
            base_cost >= 0,
            p > 0,
    ;
}

/// A price that doubling leaves unchanged stays unchanged at every later
/// level.
proof fn lemma_level_cost_settles(base_cost: Fixed, i: nat, n: nat)
    requires
        i <= n,
        spec_level_cost(base_cost, i + 1) == spec_level_cost(base_cost, i),
    ensures
        spec_level_cost(base_cost, n) == spec_level_cost(base_cost, i),
    decreases n - i,
{
    if n > i {
        lemma_level_cost_settles(base_cost, i, (n - 1) as nat);
        lemma_level_cost_doubles(base_cost, (n - 1) as nat);
        lemma_level_cost_doubles(base_cost, i);
    }
}

/// The price of raising a building from `level` to the next.
pub fn level_cost(base_cost: Fixed, level: u32) -> (cost: Fixed)
    ensures
        cost == spec_level_cost(base_cost, level as nat),
        cost <= FIXED_MAX,
{
    let mut cost: Fixed = fixed_times(base_cost, 10);
    let mut i: u32 = 0;
    proof {
        assert(pow2(0) == 1) by {
            vstd::arithmetic::power2::lemma2_to64();
        }
    }
    while i < level
        invariant
            i <= level,
            cost == spec_level_cost(base_cost, i as nat),
            cost <= FIXED_MAX,
        decreases level - i,
    {
        let next: Fixed = fixed_times(cost, 2);
        proof {
            lemma_level_cost_doubles(base_cost, i as nat);
        }
        if next == cost {
            proof {
                lemma_level_cost_settles(base_cost, i as nat, level as nat);
            }
            return cost;
        }
        cost = next;
        i = i + 1;
    }
    cost
}

/// With nothing owned the next unit costs the base price.
pub proof fn lemma_first_cost_is_base(base_cost: Fixed, cost_multiplier: Fixed)
    ensures
        spec_building_cost(base_cost, cost_multiplier, 0) == base_cost,
{
}

/// Every price after the first is within range.
pub proof fn lemma_cost_in_range(base_cost: Fixed, cost_multiplier: Fixed, count: nat)
    requires
        base_cost <= FIXED_MAX,
    ensures
        spec_building_cost(base_cost, cost_multiplier, count) <= FIXED_MAX,
    decreases count,
{
    if count > 0 {
        lemma_cost_in_range(base_cost, cost_multiplier, (count - 1) as nat);
    }
}

/// With a growth ratio of at least 1.0 the price never falls as more units
/// are owned.
pub proof fn lemma_cost_never_falls(base_cost: Fixed, cost_multiplier: Fixed, fewer: nat, more: nat)
    requires
        base_cost <= FIXED_MAX,
        cost_multiplier >= SCALE,
        fewer <= more,
    ensures
        spec_building_cost(base_cost, cost_multiplier, fewer) <= spec_building_cost(
            base_cost,
            cost_multiplier,
            more,
        ),
    decreases more - fewer,
{
    if fewer < more {
        lemma_cost_never_falls(base_cost, cost_multiplier, fewer, (more - 1) as nat);
        lemma_cost_in_range(base_cost, cost_multiplier, (more - 1) as nat);
        lemma_mul_grows(
            spec_building_cost(base_cost, cost_multiplier, (more - 1) as nat),
            cost_multiplier,
        );
    }
}

/// One more unit owned makes the next one strictly dearer, as long as the
/// growth ratio adds at least a millionth to the base price and the price
/// has not reached the ceiling.
proof fn lemma_cost_step_rises(base_cost: Fixed, cost_multiplier: Fixed, count: nat)
    requires
        base_cost <= FIXED_MAX,
        cost_multiplier > SCALE,
        base_cost as int * (cost_multiplier - SCALE) >= SCALE as int,
        spec_building_cost(base_cost, cost_multiplier, count) < FIXED_MAX,
    ensures
        spec_building_cost(base_cost, cost_multiplier, count) < spec_building_cost(
            base_cost,
            cost_multiplier,
            count + 1,
        ),
{
    let c = spec_building_cost(base_cost, cost_multiplier, count);
    lemma_cost_never_falls(base_cost, cost_multiplier, 0, count);
    assert(c >= base_cost);
    assert((c as int * cost_multiplier as int) / 1_000_000 >= c + 1) by (nonlinear_arith)
        requires
            c >= base_cost,
            cost_multiplier > 1_000_000,
            base_cost as int * (cost_multiplier - 1_000_000) >= 1_000_000,
    ;
}

/// The price is strictly increasing in the number of units owned: for a
/// base price within range and a growth ratio above 1.0 that adds at least
/// a millionth to the base price, owning more makes the next unit strictly
/// dearer until the price reaches the ceiling.
pub proof fn lemma_cost_strictly_increasing(
    base_cost: Fixed,
    cost_multiplier: Fixed,
    fewer: nat,
    more: nat,
)
    requires
        base_cost <= FIXED_MAX,
        cost_multiplier > SCALE,
        base_cost as int * (cost_multiplier - SCALE) >= SCALE as int,
        fewer < more,
        spec_building_cost(base_cost, cost_multiplier, (more - 1) as nat) < FIXED_MAX,
    ensures
        spec_building_cost(base_cost, cost_multiplier, fewer) < spec_building_cost(
            base_cost,
            cost_multiplier,
            more,
        ),
    decreases more - fewer,
{
    lemma_cost_step_rises(base_cost, cost_multiplier, (more - 1) as nat);
    lemma_cost_never_falls(base_cost, cost_multiplier, fewer, (more - 1) as nat);
}

} // verus!
