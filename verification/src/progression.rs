//! Prestige rewards and the table of achievements.

use vstd::prelude::*;
use crate::fixed::{
    fixed_add, fixed_mul, is_sqrt_floor, isqrt, lemma_sqrt_floor_exists, spec_add, spec_isqrt,
    spec_mul, Fixed, FIXED_MAX, SCALE,
};

verus! {

/// The compute a player must hold to prestige: one million units.
pub const PRESTIGE_THRESHOLD: Fixed = 1_000_000_000_000;

/// The share of a reputation point that is added to the global multiplier.
pub const REPUTATION_BONUS: Fixed = 100_000;

/// The number of achievements.
pub const ACHIEVEMENT_COUNT: usize = 10;

/// The reputation a prestige earns: the square root, rounded down to a
/// whole number, of the compute held counted in millions of units.
pub open spec fn spec_prestige_reputation(compute: Fixed) -> Fixed {
    (spec_isqrt(compute as int / PRESTIGE_THRESHOLD as int) * SCALE as int) as Fixed
}

/// The global multiplier that a reputation gives: 1.0 plus a tenth of the
/// reputation.
pub open spec fn spec_reputation_multiplier(reputation: Fixed) -> Fixed {
    spec_add(SCALE, spec_mul(reputation, REPUTATION_BONUS))
}

/// The reputation earned by a prestige with `compute` held.
pub fn prestige_reputation(compute: Fixed) -> (reputation: Fixed)
    ensures
        reputation == spec_prestige_reputation(compute),
        is_sqrt_floor(
            compute as int / PRESTIGE_THRESHOLD as int,
            reputation as int / SCALE as int,
        ),
        reputation as int % SCALE as int == 0,
        reputation <= FIXED_MAX,
{
    let millions: u128 = compute / PRESTIGE_THRESHOLD;
    let root: u128 = isqrt(millions);
    assert(root <= 0x1_0000_0000_0000) by (nonlinear_arith)
        requires
            root * root <= millions,
            millions <= 0x1_0000_0000_0000_0000_0000_0000,
    ;
    root * SCALE
}

/// The global multiplier that a reputation gives.
pub fn reputation_multiplier(reputation: Fixed) -> (multiplier: Fixed)
    ensures
        multiplier == spec_reputation_multiplier(reputation),
        SCALE <= multiplier <= FIXED_MAX,
{
    fixed_add(SCALE, fixed_mul(reputation, REPUTATION_BONUS))
}

/// Below the threshold a prestige earns nothing; at it, one point.
pub proof fn lemma_prestige_threshold(compute: Fixed)
    ensures
        compute < PRESTIGE_THRESHOLD ==> spec_prestige_reputation(compute) == 0,
        compute >= PRESTIGE_THRESHOLD ==> spec_prestige_reputation(compute) >= SCALE,
{
    let millions = compute as int / PRESTIGE_THRESHOLD as int;
    lemma_sqrt_floor_exists(millions);
    let r = spec_isqrt(millions);
    if compute < PRESTIGE_THRESHOLD {
        assert(millions == 0);
        assert(r == 0) by (nonlinear_arith)
            requires
                0 <= r,
                r * r <= 0,
        ;
    } else {
        assert(millions >= 1);
        assert(r >= 1) by (nonlinear_arith)
            requires
                0 <= r,
                1 <= millions,
                millions < (r + 1) * (r + 1),
        ;
        assert(r <= 0x1_0000_0000_0000) by (nonlinear_arith)
            requires
                0 <= r,
                r * r <= millions,
                millions <= 0x1_0000_0000_0000_0000_0000_0000,
        ;
    }
}

/// One entry of the achievement table.
#[derive(Debug, Clone, Copy)]
pub struct AchievementDef {
    pub id: &'static str,
    pub name: &'static str,
    pub description: &'static str,
}

/// The achievement table, by position.
pub open spec fn spec_achievement_def(i: int) -> AchievementDef {
    if i == 0 {
        AchievementDef {
            id: "first_build",
            name: "Hello World",
            description: "Purchase your first building",
        }
    } else if i == 1 {
        AchievementDef { id: "ten_builds", name: "Sys Admin", description: "Own 10 buildings total" }
    } else if i == 2 {
        AchievementDef {
            id: "first_upgrade",
            name: "Patch Tuesday",
            description: "Purchase your first upgrade",
        }
    } else if i == 3 {
        AchievementDef {
            id: "first_prestige",
            name: "Reboot",
            description: "Prestige for the first time",
        }
    } else if i == 4 {
        AchievementDef { id: "compute_1m", name: "Megahertz", description: "Accumulate 1M compute" }
    } else if i == 5 {
        AchievementDef { id: "compute_1b", name: "Gigaflops", description: "Accumulate 1B compute" }
    } else if i == 6 {
        AchievementDef { id: "compute_1t", name: "Teraflops", description: "Accumulate 1T compute" }
    } else if i == 7 {
        AchievementDef { id: "task_10", name: "On Call", description: "Complete 10 tasks" }
    } else if i == 8 {
        AchievementDef {
            id: "task_50",
            name: "Incident Commander",
            description: "Complete 50 tasks",
        }
    } else {
        AchievementDef { id: "prestige_5", name: "Veteran", description: "Prestige 5 times" }
    }
}

/// The entry of the achievement table at a position.
pub fn achievement_def(i: usize) -> (d: AchievementDef)
    requires
        i < ACHIEVEMENT_COUNT,
    ensures
        d == spec_achievement_def(i as int),
{
    if i == 0 {
        AchievementDef {
            id: "first_build",
            name: "Hello World",
            description: "Purchase your first building",
        }
    } else if i == 1 {
        AchievementDef { id: "ten_builds", name: "Sys Admin", description: "Own 10 buildings total" }
    } else if i == 2 {
        AchievementDef {
            id: "first_upgrade",
            name: "Patch Tuesday",
            description: "Purchase your first upgrade",
        }
    } else if i == 3 {
        AchievementDef {
            id: "first_prestige",
            name: "Reboot",
            description: "Prestige for the first time",
        }
    } else if i == 4 {
        AchievementDef { id: "compute_1m", name: "Megahertz", description: "Accumulate 1M compute" }
    } else if i == 5 {
        AchievementDef { id: "compute_1b", name: "Gigaflops", description: "Accumulate 1B compute" }
    } else if i == 6 {
        AchievementDef { id: "compute_1t", name: "Teraflops", description: "Accumulate 1T compute" }
    } else if i == 7 {
        AchievementDef { id: "task_10", name: "On Call", description: "Complete 10 tasks" }
    } else if i == 8 {
        AchievementDef {
            id: "task_50",
            name: "Incident Commander",
            description: "Complete 50 tasks",
        }
    } else {
        AchievementDef { id: "prestige_5", name: "Veteran", description: "Prestige 5 times" }
    }
}

/// The whole achievement table, in order.
pub fn all_achievement_defs() -> (defs: Vec<AchievementDef>)
    ensures
        defs@.len() == ACHIEVEMENT_COUNT,
        forall|i: int| 0 <= i < ACHIEVEMENT_COUNT ==> #[trigger] defs@[i] == spec_achievement_def(i),
{
    let mut defs: Vec<AchievementDef> = Vec::new();
    let mut i: usize = 0;
    while i < ACHIEVEMENT_COUNT
        invariant
            i <= ACHIEVEMENT_COUNT,
            defs@.len() == i,
            forall|j: int| 0 <= j < i ==> #[trigger] defs@[j] == spec_achievement_def(j),
        decreases ACHIEVEMENT_COUNT - i,
    {
        defs.push(achievement_def(i));
        i = i + 1;
    }
    defs
}

/// No two achievements share an identifier, and no two share a name.
pub proof fn lemma_achievements_distinct(i: int, j: int)
    requires
        0 <= i < ACHIEVEMENT_COUNT,
        0 <= j < ACHIEVEMENT_COUNT,
        i != j,
    ensures
        spec_achievement_def(i).id@ != spec_achievement_def(j).id@,
        spec_achievement_def(i).name@ != spec_achievement_def(j).name@,
{
    reveal_strlit("first_build");
    reveal_strlit("ten_builds");
    reveal_strlit("first_upgrade");
    reveal_strlit("first_prestige");
    reveal_strlit("compute_1m");
    reveal_strlit("compute_1b");
    reveal_strlit("compute_1t");
    reveal_strlit("task_10");
    reveal_strlit("task_50");
    reveal_strlit("prestige_5");
    reveal_strlit("Hello World");
    reveal_strlit("Sys Admin");
    reveal_strlit("Patch Tuesday");
    reveal_strlit("Reboot");
    reveal_strlit("Megahertz");
    reveal_strlit("Gigaflops");
    reveal_strlit("Teraflops");
    reveal_strlit("On Call");
    reveal_strlit("Incident Commander");
    reveal_strlit("Veteran");
    let a = spec_achievement_def(i);
    let b = spec_achievement_def(j);
    assert(a.id@.len() != b.id@.len() || a.id@[0] != b.id@[0] || a.id@[5] != b.id@[5] || a.id@[9]
        != b.id@[9]);
    assert(a.name@.len() != b.name@.len() || a.name@[0] != b.name@[0]);
}

} // verus!
