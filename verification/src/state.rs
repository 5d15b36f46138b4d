//! The simulation itself: the state of a game, one tick of it, and the
//! commands a player gives.

use vstd::prelude::*;
use vstd::string::StringExecFns;
use std::collections::VecDeque;
use rand::rngs::StdRng;
use crate::buildings::{
    building_def, spec_building_def, BuildingInstance, BuildingKind, KIND_COUNT,
};
use crate::events::{
    apply_event, maybe_generate_event, spec_apply_event, spec_event_chance, spec_possible_event,
    GameEvent, GameEventKind, CHANCE_SCALE,
};
use crate::fixed::{
    fixed_add, fixed_mul, fixed_times, spec_add, spec_mul, spec_times, Fixed, SCALE,
};
use crate::formulas::{level_cost, spec_level_cost};
use crate::progression::{
    achievement_def, prestige_reputation, reputation_multiplier, spec_achievement_def,
    spec_prestige_reputation, spec_reputation_multiplier, ACHIEVEMENT_COUNT, PRESTIGE_THRESHOLD,
};
use crate::random::{fresh_rng, seeded_rng, spec_seeded_rng};
use crate::resources::Resources;
use crate::text::texts;
use crate::upgrades::{
    all_upgrades, spec_upgrade, Upgrade, UpgradeEffect, UpgradeId, UpgradeView, UPGRADE_COUNT,
};

verus! {

/// The most events the log keeps; the oldest is dropped first.
pub const MAX_EVENT_LOG: usize = 100;

/// The most samples the compute history keeps.
pub const MAX_HISTORY: usize = 60;

/// The compute a new game starts with, and a prestige resets to: 50 units.
pub const STARTING_COMPUTE: Fixed = 50_000_000;

/// The share of production that accrues while away, before any upgrade.
pub const BASE_OFFLINE_EFFICIENCY: Fixed = 250_000;

/// The highest tier of the catalog.
pub const MAX_TIER: u8 = 6;

/// The ticks between two samples of the compute history.
pub const HISTORY_INTERVAL: u64 = 4;

/// What each automation unit adds to all other production: a tenth.
pub const AUTOMATION_BONUS: Fixed = 100_000;

/// The whole state of a game.
#[derive(Debug, Clone)]
pub struct GameState {
    pub resources: Resources,
    /// One entry per kind of building, in catalog order.
    pub buildings: Vec<BuildingInstance>,
    pub upgrades: Vec<Upgrade>,
    pub total_ticks: u64,
    /// The multiplier on all production; set by prestige, raised by upgrades.
    pub global_multiplier: Fixed,
    /// What one tick yields, as last recomputed.
    pub production_per_tick: Resources,
    pub task_reward_multiplier: Fixed,
    pub offline_efficiency: Fixed,
    pub event_log: VecDeque<GameEvent>,
    pub traffic_spike_remaining: u32,
    pub traffic_spike_multiplier: Fixed,
    /// The source of random events; not part of what a game is.
    pub rng: StdRng,
    pub prestige_count: u32,
    /// All compute ever produced; never reset.
    pub lifetime_compute: Fixed,
    pub tasks_completed: u32,
    /// The identifiers of the achievements unlocked so far.
    pub achievements: Vec<String>,
    /// Samples of the compute held, in hundredths of a unit.
    pub compute_history: VecDeque<u64>,
}

/// A game as plain values: every field but the random source.
pub struct GameView {
    pub resources: Resources,
    pub buildings: Seq<BuildingInstance>,
    pub upgrades: Seq<UpgradeView>,
    pub total_ticks: u64,
    pub global_multiplier: Fixed,
    pub production_per_tick: Resources,
    pub task_reward_multiplier: Fixed,
    pub offline_efficiency: Fixed,
    pub event_log: Seq<GameEvent>,
    pub traffic_spike_remaining: u32,
    pub traffic_spike_multiplier: Fixed,
    pub prestige_count: u32,
    pub lifetime_compute: Fixed,
    pub tasks_completed: u32,
    pub achievements: Seq<Seq<char>>,
    pub compute_history: Seq<u64>,
}

/// The upgrades of a list as plain values.
pub open spec fn upgrade_views(upgrades: Seq<Upgrade>) -> Seq<UpgradeView> {
    Seq::new(upgrades.len(), |i: int| upgrades[i]@)
}

impl View for GameState {
    type V = GameView;

    open spec fn view(&self) -> GameView {
        GameView {
            resources: self.resources,
            buildings: self.buildings@,
            upgrades: upgrade_views(self.upgrades@),
            total_ticks: self.total_ticks,
            global_multiplier: self.global_multiplier,
            production_per_tick: self.production_per_tick,
            task_reward_multiplier: self.task_reward_multiplier,
            offline_efficiency: self.offline_efficiency,
            event_log: self.event_log@,
            traffic_spike_remaining: self.traffic_spike_remaining,
            traffic_spike_multiplier: self.traffic_spike_multiplier,
            prestige_count: self.prestige_count,
            lifetime_compute: self.lifetime_compute,
            tasks_completed: self.tasks_completed,
            achievements: texts(self.achievements@),
            compute_history: self.compute_history@,
        }
    }
}

/// The product of the multipliers of all purchased upgrades that multiply
/// what `kind` yields, taken in catalog order; 1.0 where there is none.
pub open spec fn spec_kind_multiplier(upgrades: Seq<UpgradeView>, kind: BuildingKind) -> Fixed
    decreases upgrades.len(),
{
    if upgrades.len() == 0 {
        SCALE
    } else {
        let rest = spec_kind_multiplier(upgrades.drop_last(), kind);
        let last = upgrades.last();
        match last.effect {
            UpgradeEffect::MultiplyProduction(target, multiplier) => if last.purchased && target
                == kind {
                spec_mul(rest, multiplier)
            } else {
                rest
            },
            _ => rest,
        }
    }
}

/// The position of the first upgrade at or after `from` with the given
/// identifier; the length of the list where there is none.
pub open spec fn spec_find_upgrade(upgrades: Seq<UpgradeView>, id: UpgradeId, from: int) -> int
    decreases upgrades.len() - from,
{
    if from < 0 || from >= upgrades.len() {
        upgrades.len() as int
    } else if upgrades[from].id == id {
        from
    } else {
        spec_find_upgrade(upgrades, id, from + 1)
    }
}

/// Some upgrade with the given identifier is purchased.
pub open spec fn spec_is_purchased(upgrades: Seq<UpgradeView>, id: UpgradeId) -> bool {
    exists|j: int|
        0 <= j < upgrades.len() && (#[trigger] upgrades[j]).id == id && upgrades[j].purchased
}

/// Every one of the prerequisites is purchased.
pub open spec fn spec_prerequisites_met(
    upgrades: Seq<UpgradeView>,
    prerequisites: Seq<UpgradeId>,
) -> bool {
    forall|k: int|
        0 <= k < prerequisites.len() ==> spec_is_purchased(upgrades, #[trigger] prerequisites[k])
}

/// An upgrade is on offer: not yet purchased, all its prerequisites purchased.
pub open spec fn spec_is_available(upgrades: Seq<UpgradeView>, upgrade: UpgradeView) -> bool {
    !upgrade.purchased && spec_prerequisites_met(upgrades, upgrade.prerequisites)
}

/// The positions, in order, of the upgrades among the first `n` that are on
/// offer.
pub open spec fn spec_available_upto(upgrades: Seq<UpgradeView>, n: int) -> Seq<int>
    decreases n,
{
    if n <= 0 {
        Seq::empty()
    } else if spec_is_available(upgrades, upgrades[n - 1]) {
        spec_available_upto(upgrades, n - 1).push(n - 1)
    } else {
        spec_available_upto(upgrades, n - 1)
    }
}

/// The references are, in order, the upgrades at the given positions.
pub open spec fn spec_refer_to(
    references: Seq<&Upgrade>,
    upgrades: Seq<Upgrade>,
    positions: Seq<int>,
) -> bool {
    &&& references.len() == positions.len()
    &&& forall|k: int|
        0 <= k < positions.len() ==> 0 <= #[trigger] positions[k] < upgrades.len()
            && *references[k] == upgrades[positions[k]]
}

/// The search for an upgrade finds the first one with the identifier.
pub proof fn lemma_find_upgrade(upgrades: Seq<UpgradeView>, id: UpgradeId, from: int)
    requires
        0 <= from,
    ensures
        from <= spec_find_upgrade(upgrades, id, from) || spec_find_upgrade(upgrades, id, from)
            == upgrades.len(),
        spec_find_upgrade(upgrades, id, from) <= upgrades.len(),
        spec_find_upgrade(upgrades, id, from) < upgrades.len() ==> upgrades[spec_find_upgrade(
            upgrades,
            id,
            from,
        )].id == id,
        forall|j: int|
            from <= j < spec_find_upgrade(upgrades, id, from) && j < upgrades.len()
                ==> (#[trigger] upgrades[j]).id != id,
    decreases upgrades.len() - from,
{
    if from < upgrades.len() && upgrades[from].id != id {
        lemma_find_upgrade(upgrades, id, from + 1);
    }
}

/// The sample of the compute history for an amount of compute: the amount
/// in hundredths of a unit, rounded down, stopping at the largest sample.
pub open spec fn spec_sample(compute: Fixed) -> u64 {
    if compute / 10_000 > u64::MAX {
        u64::MAX
    } else {
        (compute / 10_000) as u64
    }
}

/// A bounded window after one more entry: the entry is appended, and the
/// oldest entry leaves where the window then holds more than `limit`.
pub open spec fn spec_window_push<T>(window: Seq<T>, entry: T, limit: int) -> Seq<T> {
    if window.len() + 1 > limit {
        window.push(entry).subrange(1, window.len() as int + 1)
    } else {
        window.push(entry)
    }
}

/// The units owned over the first `n` entries of a list of buildings.
pub open spec fn spec_total_owned(buildings: Seq<BuildingInstance>, n: int) -> int
    decreases n,
{
    if n <= 0 {
        0
    } else {
        spec_total_owned(buildings, n - 1) + buildings[n - 1].count
    }
}

/// Some upgrade of the list is purchased.
pub open spec fn spec_any_purchased(upgrades: Seq<UpgradeView>) -> bool {
    exists|j: int| 0 <= j < upgrades.len() && (#[trigger] upgrades[j]).purchased
}

/// What a check of the achievements finds: the identifiers unlocked after
/// it, and the names of those it newly unlocked.
pub struct AchievementCheck {
    pub unlocked: Seq<Seq<char>>,
    pub names: Seq<Seq<char>>,
}

impl GameView {
    /// The units owned of a kind; none where the kind has no entry.
    pub open spec fn count_of(self, kind: BuildingKind) -> u32 {
        if kind.spec_index() < self.buildings.len() {
            self.buildings[kind.spec_index()].count
        } else {
            0
        }
    }

    /// The level of a kind; zero where the kind has no entry.
    pub open spec fn level_of(self, kind: BuildingKind) -> u32 {
        if kind.spec_index() < self.buildings.len() {
            self.buildings[kind.spec_index()].level
        } else {
            0
        }
    }

    /// What the automation units give: 1.0 plus a tenth per unit.
    pub open spec fn automation_multiplier(self) -> Fixed {
        spec_add(
            SCALE,
            spec_times(AUTOMATION_BONUS, self.count_of(BuildingKind::CICDPipeline) as int),
        )
    }

    /// The multiplier on every kind: the global one times the automation one.
    pub open spec fn total_multiplier(self) -> Fixed {
        spec_mul(self.global_multiplier, self.automation_multiplier())
    }

    /// What the units owned of a kind yield per tick. The automation kind
    /// yields nothing itself, and so does a kind of which nothing is owned.
    pub open spec fn output_of(self, kind: BuildingKind) -> Fixed {
        if kind == BuildingKind::CICDPipeline || self.count_of(kind) == 0 {
            0
        } else {
            spec_building_def(kind).spec_production_per_tick(
                self.count_of(kind),
                self.level_of(kind),
                spec_mul(self.total_multiplier(), spec_kind_multiplier(self.upgrades, kind)),
            )
        }
    }

    /// What the first `n` kinds of the catalog yield per tick together,
    /// each credited to the resource it yields.
    pub open spec fn production_upto(self, n: int) -> Resources
        decreases n,
    {
        if n <= 0 {
            Resources::spec_zero()
        } else {
            let kind = BuildingKind::spec_from_index(n - 1);
            self.production_upto(n - 1).spec_plus(
                spec_building_def(kind).resource_type.spec_only(self.output_of(kind)),
            )
        }
    }

    /// What all buildings yield per tick.
    pub open spec fn production(self) -> Resources {
        self.production_upto(KIND_COUNT as int)
    }

    /// The game with its production snapshot rebuilt.
    pub open spec fn recalculated(self) -> GameView {
        GameView { production_per_tick: self.production(), ..self }
    }

    /// A game as it starts: the starting stake, nothing built, nothing
    /// purchased, all multipliers at their base.
    pub open spec fn new_game() -> GameView {
        GameView {
            resources: Resources { compute: STARTING_COMPUTE, ..Resources::spec_zero() },
            buildings: Seq::new(
                KIND_COUNT as nat,
                |i: int|
                    BuildingInstance { kind: BuildingKind::spec_from_index(i), count: 0, level: 0 },
            ),
            upgrades: Seq::new(UPGRADE_COUNT as nat, |i: int| spec_upgrade(i)),
            total_ticks: 0,
            global_multiplier: SCALE,
            production_per_tick: Resources::spec_zero(),
            task_reward_multiplier: SCALE,
            offline_efficiency: BASE_OFFLINE_EFFICIENCY,
            event_log: Seq::empty(),
            traffic_spike_remaining: 0,
            traffic_spike_multiplier: SCALE,
            prestige_count: 0,
            lifetime_compute: 0,
            tasks_completed: 0,
            achievements: Seq::empty(),
            compute_history: Seq::empty(),
        }
    }

    /// The price of the next unit of a kind.
    pub open spec fn building_price(self, kind: BuildingKind) -> Resources {
        spec_building_def(kind).spec_cost_as_resources(self.count_of(kind))
    }

    /// A unit of a kind can be bought: the kind has an entry and the ledger
    /// covers the price.
    pub open spec fn can_purchase_building(self, kind: BuildingKind) -> bool {
        kind.spec_index() < self.buildings.len() && self.resources.spec_can_afford(
            self.building_price(kind),
        )
    }

    /// The game after a command to buy a unit of a kind: where it can be
    /// bought, the price is debited, the count goes up by one and the
    /// snapshot is rebuilt; else nothing changes.
    pub open spec fn after_purchase_building(self, kind: BuildingKind) -> GameView {
        if self.can_purchase_building(kind) {
            let idx = kind.spec_index();
            GameView {
                resources: self.resources.spec_minus(self.building_price(kind)),
                buildings: self.buildings.update(
                    idx,
                    BuildingInstance {
                        count: (self.buildings[idx].count + 1) as u32,
                        ..self.buildings[idx]
                    },
                ),
                ..self
            }.recalculated()
        } else {
            self
        }
    }

    /// The price of the next level of a kind, in the resource it yields.
    pub open spec fn level_price(self, kind: BuildingKind) -> Resources {
        spec_building_def(kind).resource_type.spec_only(
            spec_level_cost(spec_building_def(kind).base_cost, self.level_of(kind) as nat),
        )
    }

    /// The level of a kind can be raised: something is owned of it and the
    /// ledger covers the price.
    pub open spec fn can_upgrade_building(self, kind: BuildingKind) -> bool {
        self.count_of(kind) > 0 && self.resources.spec_can_afford(self.level_price(kind))
    }

    /// The game after a command to raise the level of a kind.
    pub open spec fn after_upgrade_building(self, kind: BuildingKind) -> GameView {
        if self.can_upgrade_building(kind) {
            let idx = kind.spec_index();
            GameView {
                resources: self.resources.spec_minus(self.level_price(kind)),
                buildings: self.buildings.update(
                    idx,
                    BuildingInstance {
                        level: (self.buildings[idx].level + 1) as u32,
                        ..self.buildings[idx]
                    },
                ),
                ..self
            }.recalculated()
        } else {
            self
        }
    }

    /// An upgrade can be purchased: it is in the list, not yet purchased,
    /// all its prerequisites are purchased and the ledger covers its price.
    pub open spec fn can_purchase_upgrade(self, id: UpgradeId) -> bool {
        let i = spec_find_upgrade(self.upgrades, id, 0);
        &&& i < self.upgrades.len()
        &&& spec_is_available(self.upgrades, self.upgrades[i])
        &&& self.resources.spec_can_afford(self.upgrades[i].cost)
    }

    /// The game with the effect of an upgrade applied: an all-production
    /// multiplier compounds into the global multiplier; a task-reward
    /// multiplier and an offline efficiency replace the value held; the
    /// other effects change no field.
    pub open spec fn with_effect(self, effect: UpgradeEffect) -> GameView {
        match effect {
            UpgradeEffect::MultiplyAllProduction(multiplier) => GameView {
                global_multiplier: spec_mul(self.global_multiplier, multiplier),
                ..self
            },
            UpgradeEffect::IncreaseTaskReward(multiplier) => GameView {
                task_reward_multiplier: multiplier,
                ..self
            },
            UpgradeEffect::IncreaseOfflineEfficiency(efficiency) => GameView {
                offline_efficiency: efficiency,
                ..self
            },
            _ => self,
        }
    }

    /// The game after a command to purchase an upgrade: where it can be
    /// purchased, its price is debited, it is marked purchased, its effect
    /// is applied and the snapshot is rebuilt; else nothing changes.
    pub open spec fn after_purchase_upgrade(self, id: UpgradeId) -> GameView {
        if self.can_purchase_upgrade(id) {
            let i = spec_find_upgrade(self.upgrades, id, 0);
            GameView {
                resources: self.resources.spec_minus(self.upgrades[i].cost),
                upgrades: self.upgrades.update(
                    i,
                    UpgradeView { purchased: true, ..self.upgrades[i] },
                ),
                ..self
            }.with_effect(self.upgrades[i].effect).recalculated()
        } else {
            self
        }
    }

    /// A kind shows up for the player: the compute held reaches its unlock
    /// threshold, or something is owned of it.
    pub open spec fn is_visible(self, kind: BuildingKind) -> bool {
        self.resources.compute >= spec_building_def(kind).unlock_threshold || self.count_of(kind)
            > 0
    }

    /// The visible kinds of one tier among the first `n` of the catalog,
    /// in catalog order.
    pub open spec fn visible_in_tier(self, tier: u8, n: int) -> Seq<BuildingKind>
        decreases n,
    {
        if n <= 0 {
            Seq::empty()
        } else {
            let kind = BuildingKind::spec_from_index(n - 1);
            if spec_building_def(kind).tier == tier && self.is_visible(kind) {
                self.visible_in_tier(tier, n - 1).push(kind)
            } else {
                self.visible_in_tier(tier, n - 1)
            }
        }
    }

    /// The visible kinds of the tiers up to `tier`, ordered by tier and
    /// within a tier in catalog order.
    pub open spec fn unlocked_upto(self, tier: int) -> Seq<BuildingKind>
        decreases tier,
    {
        if tier <= 0 {
            Seq::empty()
        } else {
            self.unlocked_upto(tier - 1) + self.visible_in_tier(tier as u8, KIND_COUNT as int)
        }
    }

    /// All visible kinds, ordered by tier.
    pub open spec fn unlocked(self) -> Seq<BuildingKind> {
        self.unlocked_upto(MAX_TIER as int)
    }

    /// A prestige is allowed: the compute held reaches the threshold.
    pub open spec fn can_prestige(self) -> bool {
        self.resources.compute >= PRESTIGE_THRESHOLD
    }

    /// The reputation held after a prestige now.
    pub open spec fn reputation_after_prestige(self) -> Fixed {
        spec_add(self.resources.reputation, spec_prestige_reputation(self.resources.compute))
    }

    /// The game after a command to prestige: where it is allowed, the
    /// reputation earned is credited and kept, compute returns to the
    /// starting stake, the other resources, all buildings and all purchases
    /// are reset, the global multiplier follows from the reputation, the
    /// log, the history and the spike are cleared and the prestige is
    /// counted; the lifetime counters and the achievements stay. Else
    /// nothing changes.
    pub open spec fn after_prestige(self) -> GameView {
        if self.can_prestige() {
            GameView {
                resources: Resources {
                    compute: STARTING_COMPUTE,
                    bandwidth: 0,
                    storage: 0,
                    reputation: self.reputation_after_prestige(),
                    crypto: 0,
                },
                buildings: Seq::new(
                    self.buildings.len(),
                    |i: int| BuildingInstance { count: 0, level: 0, ..self.buildings[i] },
                ),
                upgrades: Seq::new(
                    self.upgrades.len(),
                    |i: int| UpgradeView { purchased: false, ..self.upgrades[i] },
                ),
                global_multiplier: spec_reputation_multiplier(self.reputation_after_prestige()),
                production_per_tick: Resources::spec_zero(),
                task_reward_multiplier: SCALE,
                offline_efficiency: BASE_OFFLINE_EFFICIENCY,
                event_log: Seq::empty(),
                traffic_spike_remaining: 0,
                traffic_spike_multiplier: SCALE,
                prestige_count: (self.prestige_count + 1) as u32,
                compute_history: Seq::empty(),
                ..self
            }
        } else {
            self
        }
    }

    /// What this tick yields: the snapshot, every resource of it scaled by
    /// the spike multiplier while a spike lasts.
    pub open spec fn yield_of_tick(self) -> Resources {
        if self.traffic_spike_remaining > 0 {
            self.production_per_tick.spec_scaled(self.traffic_spike_multiplier)
        } else {
            self.production_per_tick
        }
    }

    /// The game after the production of one tick: the tick is counted, the
    /// yield is credited and added to the lifetime compute, a spike lasts
    /// one tick less, and every fourth tick the compute held is sampled
    /// into the history.
    pub open spec fn after_production(self) -> GameView {
        let ticks = (self.total_ticks + 1) as u64;
        let resources = self.resources.spec_plus(self.yield_of_tick());
        GameView {
            total_ticks: ticks,
            resources,
            traffic_spike_remaining: if self.traffic_spike_remaining > 0 {
                (self.traffic_spike_remaining - 1) as u32
            } else {
                0
            },
            lifetime_compute: spec_add(self.lifetime_compute, self.yield_of_tick().compute),
            compute_history: if ticks % HISTORY_INTERVAL == 0 {
                spec_window_push(
                    self.compute_history,
                    spec_sample(resources.compute),
                    MAX_HISTORY as int,
                )
            } else {
                self.compute_history
            },
            ..self
        }
    }

    /// The game after an event: its immediate effect is applied to the
    /// ledger, a traffic spike sets the spike's multiplier and duration,
    /// and the event enters the bounded log.
    pub open spec fn after_event(self, event: GameEvent) -> GameView {
        let applied = GameView {
            resources: spec_apply_event(event.kind, self.resources),
            event_log: spec_window_push(self.event_log, event, MAX_EVENT_LOG as int),
            ..self
        };
        match event.kind {
            GameEventKind::TrafficSpike { multiplier, duration_ticks } => GameView {
                traffic_spike_remaining: duration_ticks,
                traffic_spike_multiplier: multiplier,
                ..applied
            },
            _ => applied,
        }
    }

    /// The game after one tick that brought the given event, or none.
    pub open spec fn after_tick(self, event: Option<GameEvent>) -> GameView {
        match event {
            Some(e) => self.after_production().after_event(e),
            None => self.after_production(),
        }
    }

    /// One tick leads from `self` to `after` with the given event: the
    /// event, if any, carries the tick's number and is one the catalog of
    /// events allows with the compute held after production; and with
    /// enough monitoring stacks for a chance of a whole there is an event.
    pub open spec fn ticks_to(self, after: GameView, event: Option<GameEvent>) -> bool {
        &&& after == self.after_tick(event)
        &&& event matches Some(e) ==> e.tick == self.total_ticks + 1 && spec_possible_event(
            e.kind,
            self.after_production().resources.compute,
        )
        &&& spec_event_chance(self.count_of(BuildingKind::MonitoringStack)) >= CHANCE_SCALE
            ==> event is Some
    }

    /// The units owned over all kinds.
    pub open spec fn total_owned(self) -> int {
        spec_total_owned(self.buildings, self.buildings.len() as int)
    }

    /// The condition of the achievement at a position of the table holds.
    pub open spec fn achievement_met(self, i: int) -> bool {
        if i == 0 {
            self.total_owned() >= 1
        } else if i == 1 {
            self.total_owned() >= 10
        } else if i == 2 {
            spec_any_purchased(self.upgrades)
        } else if i == 3 {
            self.prestige_count >= 1
        } else if i == 4 {
            self.lifetime_compute >= 1_000_000_000_000
        } else if i == 5 {
            self.lifetime_compute >= 1_000_000_000_000_000
        } else if i == 6 {
            self.lifetime_compute >= 1_000_000_000_000_000_000
        } else if i == 7 {
            self.tasks_completed >= 10
        } else if i == 8 {
            self.tasks_completed >= 50
        } else {
            self.prestige_count >= 5
        }
    }

    /// What a check of the first `n` achievements of the table finds: each
    /// one whose condition holds and whose identifier is not yet unlocked is
    /// unlocked, and its name reported.
    pub open spec fn checked_upto(self, n: int) -> AchievementCheck
        decreases n,
    {
        if n <= 0 {
            AchievementCheck { unlocked: self.achievements, names: Seq::empty() }
        } else {
            let before = self.checked_upto(n - 1);
            let def = spec_achievement_def(n - 1);
            if self.achievement_met(n - 1) && !before.unlocked.contains(def.id@) {
                AchievementCheck {
                    unlocked: before.unlocked.push(def.id@),
                    names: before.names.push(def.name@),
                }
            } else {
                before
            }
        }
    }

    /// What a check of all achievements finds.
    pub open spec fn checked(self) -> AchievementCheck {
        self.checked_upto(ACHIEVEMENT_COUNT as int)
    }

    /// The game after a check of the achievements.
    pub open spec fn after_check(self) -> GameView {
        GameView { achievements: self.checked().unlocked, ..self }
    }

    /// No counter of the game is at the end of its range: every command
    /// and a tick can count once more.
    pub open spec fn within_limits(self) -> bool {
        &&& self.total_ticks < u64::MAX
        &&& self.prestige_count < u32::MAX
        &&& self.tasks_completed < u32::MAX
        &&& forall|i: int|
            0 <= i < self.buildings.len() ==> (#[trigger] self.buildings[i]).count < u32::MAX
                && self.buildings[i].level < u32::MAX
    }

    /// Nothing is owned of any kind.
    pub open spec fn nothing_built(self) -> bool {
        forall|i: int| 0 <= i < self.buildings.len() ==> (#[trigger] self.buildings[i]).count == 0
    }
}

/// With nothing built, nothing is produced.
pub proof fn lemma_nothing_built_yields_nothing(v: GameView, n: int)
    requires
        v.nothing_built(),
        n <= KIND_COUNT,
    ensures
        v.production_upto(n) == Resources::spec_zero(),
    decreases n,
{
    if n > 0 {
        lemma_nothing_built_yields_nothing(v, n - 1);
        let kind = BuildingKind::spec_from_index(n - 1);
        assert(v.count_of(kind) == 0);
    }
}

/// The snapshot never exceeds the ceiling in any resource.
pub proof fn lemma_production_in_range(v: GameView, n: int)
    ensures
        v.production_upto(n).in_range(),
    decreases n,
{
    if n > 0 {
        lemma_production_in_range(v, n - 1);
    }
}

impl GameState {
    /// The units owned of a kind; none where the kind has no entry.
    pub fn count_of(&self, kind: BuildingKind) -> (count: u32)
        ensures
            count == self@.count_of(kind),
    {
        let idx = kind.index();
        if idx < self.buildings.len() {
            self.buildings[idx].count
        } else {
            0
        }
    }

    /// The level of a kind; zero where the kind has no entry.
    pub fn level_of(&self, kind: BuildingKind) -> (level: u32)
        ensures
            level == self@.level_of(kind),
    {
        let idx = kind.index();
        if idx < self.buildings.len() {
            self.buildings[idx].level
        } else {
            0
        }
    }

    /// The product of the multipliers of the purchased upgrades that
    /// multiply what `kind` yields.
    pub fn kind_multiplier(&self, kind: BuildingKind) -> (multiplier: Fixed)
        ensures
            multiplier == spec_kind_multiplier(self@.upgrades, kind),
    {
        let mut multiplier: Fixed = SCALE;
        let mut i: usize = 0;
        let ghost views = upgrade_views(self.upgrades@);
        while i < self.upgrades.len()
            invariant
                i <= self.upgrades@.len(),
                views == upgrade_views(self.upgrades@),
                multiplier == spec_kind_multiplier(views.take(i as int), kind),
            decreases self.upgrades@.len() - i,
        {
            let upgrade = &self.upgrades[i];
            proof {
                assert(views.take(i as int + 1).drop_last() =~= views.take(i as int));
                assert(views.take(i as int + 1).last() == upgrade@);
            }
            match upgrade.effect {
                UpgradeEffect::MultiplyProduction(target, factor) => {
                    if upgrade.purchased && target == kind {
                        multiplier = fixed_mul(multiplier, factor);
                    }
                },
                _ => {},
            }
            i = i + 1;
        }
        proof {
            assert(views.take(i as int) =~= views);
        }
        multiplier
    }

    /// What the units owned of a kind yield per tick.
    pub fn output_of(&self, kind: BuildingKind) -> (output: Fixed)
        ensures
            output == self@.output_of(kind),
    {
        let count = self.count_of(kind);
        if kind == BuildingKind::CICDPipeline || count == 0 {
            return 0;
        }
        let automation = fixed_add(
            SCALE,
            fixed_times(AUTOMATION_BONUS, self.count_of(BuildingKind::CICDPipeline)),
        );
        let total = fixed_mul(self.global_multiplier, automation);
        let multiplier = fixed_mul(total, self.kind_multiplier(kind));
        building_def(kind).production_per_tick(count, self.level_of(kind), multiplier)
    }

    /// Rebuilds the production snapshot from the buildings owned, the
    /// global multiplier and the purchased upgrades.
    pub fn recalculate_production(&mut self)
        ensures
            final(self)@ == old(self)@.recalculated(),
            final(self).rng == old(self).rng,
    {
        let mut production = Resources::zero();
        let mut i: usize = 0;
        while i < KIND_COUNT
            invariant
                i <= KIND_COUNT,
                *self == *old(self),
                production == self@.production_upto(i as int),
            decreases KIND_COUNT - i,
        {
            match BuildingKind::from_index(i) {
                Some(kind) => {
                    let output = self.output_of(kind);
                    production.add(&building_def(kind).resource_type.only(output));
                },
                None => {},
            }
            i = i + 1;
        }
        self.production_per_tick = production;
    }

    /// A new game that draws its events from the given random source.
    pub fn with_rng(rng: StdRng) -> (state: GameState)
        ensures
            state@ == GameView::new_game(),
            state.rng == rng,
    {
        let mut buildings: Vec<BuildingInstance> = Vec::new();
        let mut i: usize = 0;
        while i < KIND_COUNT
            invariant
                i <= KIND_COUNT,
                buildings@.len() == i,
                forall|j: int|
                    0 <= j < i ==> #[trigger] buildings@[j] == (BuildingInstance {
                        kind: BuildingKind::spec_from_index(j),
                        count: 0,
                        level: 0,
                    }),
            decreases KIND_COUNT - i,
        {
            match BuildingKind::from_index(i) {
                Some(kind) => {
                    buildings.push(BuildingInstance::new(kind));
                },
                None => {},
            }
            i = i + 1;
        }
        let mut resources = Resources::zero();
        resources.compute = STARTING_COMPUTE;
        let mut state = GameState {
            resources,
            buildings,
            upgrades: all_upgrades(),
            total_ticks: 0,
            global_multiplier: SCALE,
            production_per_tick: Resources::zero(),
            task_reward_multiplier: SCALE,
            offline_efficiency: BASE_OFFLINE_EFFICIENCY,
            event_log: VecDeque::new(),
            traffic_spike_remaining: 0,
            traffic_spike_multiplier: SCALE,
            rng,
            prestige_count: 0,
            lifetime_compute: 0,
            tasks_completed: 0,
            achievements: Vec::new(),
            compute_history: VecDeque::new(),
        };
        proof {
            assert(state@.buildings =~= GameView::new_game().buildings);
            assert(state@.upgrades =~= GameView::new_game().upgrades);
            assert(state@.achievements =~= GameView::new_game().achievements);
            assert(state@ == GameView::new_game());
            lemma_nothing_built_yields_nothing(state@, KIND_COUNT as int);
        }
        state.recalculate_production();
        state
    }

    /// A new game whose events follow from the seed: its random source is
    /// the generator that the seed determines.
    pub fn with_seed(seed: u64) -> (state: GameState)
        ensures
            state@ == GameView::new_game(),
            state.rng == spec_seeded_rng(seed),
    {
        GameState::with_rng(seeded_rng(seed))
    }

    /// A new game with a random source seeded by the system.
    pub fn new() -> (state: GameState)
        ensures
            state@ == GameView::new_game(),
    {
        GameState::with_rng(fresh_rng())
    }

    /// Buys one unit of a kind. Refused, with nothing changed, where the
    /// ledger does not cover the price.
    pub fn purchase_building(&mut self, kind: BuildingKind) -> (bought: bool)
        requires
            old(self)@.count_of(kind) < u32::MAX,
        ensures
            bought == old(self)@.can_purchase_building(kind),
            final(self)@ == old(self)@.after_purchase_building(kind),
            final(self).rng == old(self).rng,
            !bought ==> *final(self) == *old(self),
    {
        let idx = kind.index();
        if idx >= self.buildings.len() {
            return false;
        }
        let def = building_def(kind);
        let cost = def.cost_as_resources(self.buildings[idx].count);
        if !self.resources.can_afford(&cost) {
            return false;
        }
        self.resources.subtract(&cost);
        self.buildings[idx].count = self.buildings[idx].count + 1;
        self.recalculate_production();
        true
    }

    /// Raises the level of a kind by one. Refused, with nothing changed,
    /// where nothing is owned of the kind or the ledger does not cover the
    /// price.
    pub fn upgrade_building(&mut self, kind: BuildingKind) -> (raised: bool)
        requires
            old(self)@.level_of(kind) < u32::MAX,
        ensures
            raised == old(self)@.can_upgrade_building(kind),
            final(self)@ == old(self)@.after_upgrade_building(kind),
            final(self).rng == old(self).rng,
            !raised ==> *final(self) == *old(self),
    {
        let idx = kind.index();
        if idx >= self.buildings.len() || self.buildings[idx].count == 0 {
            return false;
        }
        let def = building_def(kind);
        let cost = def.resource_type.only(level_cost(def.base_cost, self.buildings[idx].level));
        if !self.resources.can_afford(&cost) {
            return false;
        }
        self.resources.subtract(&cost);
        self.buildings[idx].level = self.buildings[idx].level + 1;
        self.recalculate_production();
        true
    }

    /// The position of the first upgrade with the given identifier.
    pub fn find_upgrade(&self, id: UpgradeId) -> (position: Option<usize>)
        ensures
            match position {
                Some(i) => i as int == spec_find_upgrade(self@.upgrades, id, 0) && i
                    < self.upgrades@.len(),
                None => spec_find_upgrade(self@.upgrades, id, 0) == self.upgrades@.len(),
            },
    {
        let mut i: usize = 0;
        while i < self.upgrades.len()
            invariant
                i <= self.upgrades@.len(),
                spec_find_upgrade(self@.upgrades, id, 0) == spec_find_upgrade(
                    self@.upgrades,
                    id,
                    i as int,
                ),
            decreases self.upgrades@.len() - i,
        {
            if self.upgrades[i].id == id {
                return Some(i);
            }
            i = i + 1;
        }
        None
    }

    /// Whether some upgrade with the given identifier is purchased.
    pub fn is_purchased(&self, id: UpgradeId) -> (purchased: bool)
        ensures
            purchased == spec_is_purchased(self@.upgrades, id),
    {
        let mut i: usize = 0;
        while i < self.upgrades.len()
            invariant
                i <= self.upgrades@.len(),
                forall|j: int|
                    0 <= j < i ==> !((#[trigger] self@.upgrades[j]).id == id
                        && self@.upgrades[j].purchased),
            decreases self.upgrades@.len() - i,
        {
            if self.upgrades[i].id == id && self.upgrades[i].purchased {
                assert(self@.upgrades[i as int].id == id);
                return true;
            }
            i = i + 1;
        }
        false
    }

    /// Whether the upgrade at a position is on offer: not yet purchased,
    /// all its prerequisites purchased.
    pub fn is_available(&self, position: usize) -> (available: bool)
        requires
            position < self.upgrades@.len(),
        ensures
            available == spec_is_available(self@.upgrades, self@.upgrades[position as int]),
    {
        let upgrade = &self.upgrades[position];
        if upgrade.purchased {
            return false;
        }
        let mut k: usize = 0;
        while k < upgrade.prerequisites.len()
            invariant
                k <= upgrade.prerequisites@.len(),
                position < self.upgrades@.len(),
                *upgrade == self.upgrades@[position as int],
                !upgrade.purchased,
                forall|j: int|
                    0 <= j < k ==> spec_is_purchased(
                        self@.upgrades,
                        #[trigger] upgrade.prerequisites@[j],
                    ),
            decreases upgrade.prerequisites@.len() - k,
        {
            if !self.is_purchased(upgrade.prerequisites[k]) {
                assert(self@.upgrades[position as int].prerequisites[k as int]
                    == upgrade.prerequisites@[k as int]);
                return false;
            }
            k = k + 1;
        }
        true
    }

    /// Purchases an upgrade. Refused, with nothing changed, where it is
    /// already purchased, a prerequisite is not purchased, or the ledger
    /// does not cover its price.
    pub fn purchase_upgrade(&mut self, id: UpgradeId) -> (purchased: bool)
        ensures
            purchased == old(self)@.can_purchase_upgrade(id),
            final(self)@ == old(self)@.after_purchase_upgrade(id),
            final(self).rng == old(self).rng,
            !purchased ==> *final(self) == *old(self),
    {
        let position = match self.find_upgrade(id) {
            Some(i) => i,
            None => {
                return false;
            },
        };
        if !self.is_available(position) {
            return false;
        }
        let cost = self.upgrades[position].cost;
        if !self.resources.can_afford(&cost) {
            return false;
        }
        self.resources.subtract(&cost);
        self.upgrades[position].purchased = true;
        let effect = self.upgrades[position].effect;
        match effect {
            UpgradeEffect::MultiplyAllProduction(multiplier) => {
                self.global_multiplier = fixed_mul(self.global_multiplier, multiplier);
            },
            UpgradeEffect::IncreaseTaskReward(multiplier) => {
                self.task_reward_multiplier = multiplier;
            },
            UpgradeEffect::IncreaseOfflineEfficiency(efficiency) => {
                self.offline_efficiency = efficiency;
            },
            _ => {},
        }
        proof {
            let before = old(self)@;
            assert(self@.upgrades =~= before.upgrades.update(
                position as int,
                UpgradeView { purchased: true, ..before.upgrades[position as int] },
            ));
        }
        self.recalculate_production();
        true
    }

    /// The upgrades on offer, in catalog order: those not yet purchased
    /// whose prerequisites are all purchased.
    pub fn available_upgrades(&self) -> (available: Vec<&Upgrade>)
        ensures
            spec_refer_to(
                available@,
                self.upgrades@,
                spec_available_upto(self@.upgrades, self.upgrades@.len() as int),
            ),
    {
        let mut available: Vec<&Upgrade> = Vec::new();
        let mut i: usize = 0;
        while i < self.upgrades.len()
            invariant
                i <= self.upgrades@.len(),
                spec_refer_to(
                    available@,
                    self.upgrades@,
                    spec_available_upto(self@.upgrades, i as int),
                ),
            decreases self.upgrades@.len() - i,
        {
            let ghost before = spec_available_upto(self@.upgrades, i as int);
            if self.is_available(i) {
                available.push(&self.upgrades[i]);
                proof {
                    let after = spec_available_upto(self@.upgrades, i as int + 1);
                    assert(after == before.push(i as int));
                    assert forall|k: int| 0 <= k < available@.len() implies 0 <= #[trigger] after[k]
                        < self.upgrades@.len() && *available@[k] == self.upgrades@[after[k]] by {
                        if k < before.len() {
                            assert(after[k] == before[k]);
                        }
                    }
                }
            }
            i = i + 1;
        }
        available
    }

    /// The kinds that show up for the player, ordered by tier and within a
    /// tier in catalog order.
    pub fn unlocked_buildings(&self) -> (unlocked: Vec<BuildingKind>)
        ensures
            unlocked@ == self@.unlocked(),
    {
        let mut unlocked: Vec<BuildingKind> = Vec::new();
        let mut tier: u8 = 1;
        while tier <= MAX_TIER
            invariant
                1 <= tier <= MAX_TIER + 1,
                unlocked@ == self@.unlocked_upto(tier - 1),
            decreases MAX_TIER + 1 - tier,
        {
            let ghost earlier = unlocked@;
            let mut i: usize = 0;
            while i < KIND_COUNT
                invariant
                    i <= KIND_COUNT,
                    1 <= tier <= MAX_TIER,
                    earlier == self@.unlocked_upto(tier - 1),
                    unlocked@ == earlier + self@.visible_in_tier(tier, i as int),
                decreases KIND_COUNT - i,
            {
                match BuildingKind::from_index(i) {
                    Some(kind) => {
                        let def = building_def(kind);
                        if def.tier == tier && (self.resources.compute >= def.unlock_threshold
                            || self.count_of(kind) > 0) {
                            unlocked.push(kind);
                        }
                    },
                    None => {},
                }
                i = i + 1;
            }
            tier = tier + 1;
        }
        unlocked
    }

    /// Whether a prestige is allowed.
    pub fn can_prestige(&self) -> (allowed: bool)
        ensures
            allowed == self@.can_prestige(),
    {
        self.resources.compute >= PRESTIGE_THRESHOLD
    }

    /// Resets the economy for reputation and returns the reputation earned.
    /// Below the threshold nothing changes and nothing is earned.
    pub fn prestige(&mut self) -> (earned: Fixed)
        requires
            old(self).prestige_count < u32::MAX,
        ensures
            final(self)@ == old(self)@.after_prestige(),
            final(self).rng == old(self).rng,
            earned == if old(self)@.can_prestige() {
                spec_prestige_reputation(old(self).resources.compute)
            } else {
                0
            },
            !old(self)@.can_prestige() ==> *final(self) == *old(self),
    {
        if !self.can_prestige() {
            return 0;
        }
        let earned = prestige_reputation(self.resources.compute);
        self.resources.reputation = fixed_add(self.resources.reputation, earned);
        self.resources.compute = STARTING_COMPUTE;
        self.resources.bandwidth = 0;
        self.resources.storage = 0;
        self.resources.crypto = 0;
        let mut i: usize = 0;
        while i < self.buildings.len()
            invariant
                i <= self.buildings@.len(),
                self.buildings@.len() == old(self).buildings@.len(),
                forall|j: int|
                    0 <= j < i ==> #[trigger] self.buildings@[j] == (BuildingInstance {
                        count: 0,
                        level: 0,
                        ..old(self).buildings@[j]
                    }),
                forall|j: int|
                    i <= j < self.buildings@.len() ==> #[trigger] self.buildings@[j] == old(
                        self,
                    ).buildings@[j],
                self.upgrades == old(self).upgrades,
                self.resources.reputation == old(self)@.reputation_after_prestige(),
                self.resources.compute == STARTING_COMPUTE,
                self.resources.bandwidth == 0,
                self.resources.storage == 0,
                self.resources.crypto == 0,
                self.total_ticks == old(self).total_ticks,
                self.prestige_count == old(self).prestige_count,
                self.lifetime_compute == old(self).lifetime_compute,
                self.tasks_completed == old(self).tasks_completed,
                self.achievements == old(self).achievements,
                self.rng == old(self).rng,
            decreases self.buildings@.len() - i,
        {
            self.buildings[i].count = 0;
            self.buildings[i].level = 0;
            i = i + 1;
        }
        let mut k: usize = 0;
        while k < self.upgrades.len()
            invariant
                k <= self.upgrades@.len(),
                self.upgrades@.len() == old(self).upgrades@.len(),
                forall|j: int|
                    0 <= j < k ==> (#[trigger] self.upgrades@[j])@ == (UpgradeView {
                        purchased: false,
                        ..old(self).upgrades@[j]@
                    }),
                forall|j: int|
                    k <= j < self.upgrades@.len() ==> #[trigger] self.upgrades@[j] == old(
                        self,
                    ).upgrades@[j],
                self.buildings@ =~= old(self)@.after_prestige().buildings,
                self.resources.reputation == old(self)@.reputation_after_prestige(),
                self.resources.compute == STARTING_COMPUTE,
                self.resources.bandwidth == 0,
                self.resources.storage == 0,
                self.resources.crypto == 0,
                self.total_ticks == old(self).total_ticks,
                self.prestige_count == old(self).prestige_count,
                self.lifetime_compute == old(self).lifetime_compute,
                self.tasks_completed == old(self).tasks_completed,
                self.achievements == old(self).achievements,
                self.rng == old(self).rng,
            decreases self.upgrades@.len() - k,
        {
            self.upgrades[k].purchased = false;
            k = k + 1;
        }
        self.global_multiplier = reputation_multiplier(self.resources.reputation);
        self.task_reward_multiplier = SCALE;
        self.offline_efficiency = BASE_OFFLINE_EFFICIENCY;
        self.event_log.clear();
        self.traffic_spike_remaining = 0;
        self.traffic_spike_multiplier = SCALE;
        self.compute_history.clear();
        self.prestige_count = self.prestige_count + 1;
        proof {
            assert(self@.upgrades =~= old(self)@.after_prestige().upgrades);
            assert(self@.nothing_built());
            lemma_nothing_built_yields_nothing(self@, KIND_COUNT as int);
        }
        self.recalculate_production();
        earned
    }

    /// The production of one tick.
    pub fn produce(&mut self)
        requires
            old(self).total_ticks < u64::MAX,
        ensures
            final(self)@ == old(self)@.after_production(),
            final(self).rng == old(self).rng,
    {
        self.total_ticks = self.total_ticks + 1;
        let mut production = self.production_per_tick;
        if self.traffic_spike_remaining > 0 {
            production = production.scaled(self.traffic_spike_multiplier);
            self.traffic_spike_remaining = self.traffic_spike_remaining - 1;
        }
        self.resources.add(&production);
        self.lifetime_compute = fixed_add(self.lifetime_compute, production.compute);
        if self.total_ticks % HISTORY_INTERVAL == 0 {
            let hundredths: u128 = self.resources.compute / 10_000;
            let sample: u64 = if hundredths > u64::MAX as u128 {
                u64::MAX
            } else {
                hundredths as u64
            };
            self.compute_history.push_back(sample);
            if self.compute_history.len() > MAX_HISTORY {
                self.compute_history.pop_front();
            }
        }
    }

    /// Takes an event in: applies its immediate effect, starts the spike
    /// if it is one, and appends it to the bounded log.
    pub fn record_event(&mut self, event: GameEvent)
        ensures
            final(self)@ == old(self)@.after_event(event),
            final(self).rng == old(self).rng,
    {
        apply_event(&event.kind, &mut self.resources);
        match event.kind {
            GameEventKind::TrafficSpike { multiplier, duration_ticks } => {
                self.traffic_spike_remaining = duration_ticks;
                self.traffic_spike_multiplier = multiplier;
            },
            _ => {},
        }
        self.event_log.push_back(event);
        if self.event_log.len() > MAX_EVENT_LOG {
            self.event_log.pop_front();
        }
    }

    /// One tick that brings the given event, or none.
    pub fn advance(&mut self, event: Option<GameEvent>)
        requires
            old(self).total_ticks < u64::MAX,
        ensures
            final(self)@ == old(self)@.after_tick(event),
            final(self).rng == old(self).rng,
    {
        self.produce();
        match event {
            Some(e) => {
                self.record_event(e);
            },
            None => {},
        }
    }

    /// One tick: production, then at most one random event. Which event,
    /// if any, is random; the game after the tick is the one that this
    /// event gives.
    pub fn tick(&mut self)
        requires
            old(self).total_ticks < u64::MAX,
        ensures
            exists|event: Option<GameEvent>| #[trigger] old(self)@.ticks_to(final(self)@, event),
    {
        self.produce();
        let monitoring = self.count_of(BuildingKind::MonitoringStack);
        let event = maybe_generate_event(
            &mut self.rng,
            self.total_ticks,
            monitoring,
            self.resources.compute,
        );
        match event {
            Some(e) => {
                self.record_event(e);
            },
            None => {},
        }
        assert(old(self)@.ticks_to(self@, event));
    }

    /// The units owned over all kinds.
    pub fn total_owned(&self) -> (total: u128)
        ensures
            total as int == self@.total_owned(),
    {
        let mut total: u128 = 0;
        let mut i: usize = 0;
        while i < self.buildings.len()
            invariant
                i <= self.buildings@.len(),
                total as int == spec_total_owned(self.buildings@, i as int),
                total <= i * u32::MAX,
            decreases self.buildings@.len() - i,
        {
            assert((i + 1) * u32::MAX <= u128::MAX) by (nonlinear_arith)
                requires
                    i <= u64::MAX,
            ;
            assert((i + 1) * u32::MAX == i * u32::MAX + u32::MAX) by (nonlinear_arith);
            total = total + self.buildings[i].count as u128;
            i = i + 1;
        }
        total
    }

    /// Whether some upgrade is purchased.
    pub fn any_purchased(&self) -> (any: bool)
        ensures
            any == spec_any_purchased(self@.upgrades),
    {
        let mut i: usize = 0;
        while i < self.upgrades.len()
            invariant
                i <= self.upgrades@.len(),
                forall|j: int| 0 <= j < i ==> !(#[trigger] self@.upgrades[j]).purchased,
            decreases self.upgrades@.len() - i,
        {
            if self.upgrades[i].purchased {
                assert(self@.upgrades[i as int].purchased);
                return true;
            }
            i = i + 1;
        }
        false
    }

    /// Whether an identifier is among the unlocked achievements.
    pub fn has_achievement(&self, id: &str) -> (unlocked: bool)
        ensures
            unlocked == self@.achievements.contains(id@),
    {
        let wanted = String::from_str(id);
        let mut i: usize = 0;
        while i < self.achievements.len()
            invariant
                i <= self.achievements@.len(),
                wanted@ == id@,
                forall|j: int| 0 <= j < i ==> #[trigger] self@.achievements[j] != id@,
            decreases self.achievements@.len() - i,
        {
            if self.achievements[i] == wanted {
                assert(self@.achievements[i as int] == id@);
                return true;
            }
            i = i + 1;
        }
        false
    }

    /// Unlocks every achievement whose condition now holds and that was not
    /// unlocked before, and returns the names of those newly unlocked, in
    /// the order of the table.
    pub fn check_achievements(&mut self) -> (names: Vec<String>)
        ensures
            final(self)@ == old(self)@.after_check(),
            final(self).rng == old(self).rng,
            texts(names@) == old(self)@.checked().names,
    {
        let total = self.total_owned();
        let any = self.any_purchased();
        let mut names: Vec<String> = Vec::new();
        let mut i: usize = 0;
        assert(texts(names@) =~= Seq::<Seq<char>>::empty());
        while i < ACHIEVEMENT_COUNT
            invariant
                i <= ACHIEVEMENT_COUNT,
                total as int == old(self)@.total_owned(),
                any == spec_any_purchased(old(self)@.upgrades),
                self@ == (GameView {
                    achievements: old(self)@.checked_upto(i as int).unlocked,
                    ..old(self)@
                }),
                texts(names@) == old(self)@.checked_upto(i as int).names,
                self.rng == old(self).rng,
            decreases ACHIEVEMENT_COUNT - i,
        {
            let met = if i == 0 {
                total >= 1
            } else if i == 1 {
                total >= 10
            } else if i == 2 {
                any
            } else if i == 3 {
                self.prestige_count >= 1
            } else if i == 4 {
                self.lifetime_compute >= 1_000_000_000_000
            } else if i == 5 {
                self.lifetime_compute >= 1_000_000_000_000_000
            } else if i == 6 {
                self.lifetime_compute >= 1_000_000_000_000_000_000
            } else if i == 7 {
                self.tasks_completed >= 10
            } else if i == 8 {
                self.tasks_completed >= 50
            } else {
                self.prestige_count >= 5
            };
            assert(met == old(self)@.achievement_met(i as int));
            let def = achievement_def(i);
            if met && !self.has_achievement(def.id) {
                let ghost unlocked = self@.achievements;
                let ghost reported = texts(names@);
                self.achievements.push(String::from_str(def.id));
                names.push(String::from_str(def.name));
                proof {
                    assert(self@.achievements =~= unlocked.push(def.id@));
                    assert(texts(names@) =~= reported.push(def.name@));
                }
            }
            i = i + 1;
        }
        names
    }

    /// Whether every counter of the game can count once more.
    pub fn within_limits(&self) -> (within: bool)
        ensures
            within == self@.within_limits(),
    {
        if self.total_ticks == u64::MAX || self.prestige_count == u32::MAX || self.tasks_completed
            == u32::MAX {
            return false;
        }
        let mut i: usize = 0;
        while i < self.buildings.len()
            invariant
                i <= self.buildings@.len(),
                forall|j: int|
                    0 <= j < i ==> (#[trigger] self.buildings@[j]).count < u32::MAX
                        && self.buildings@[j].level < u32::MAX,
            decreases self.buildings@.len() - i,
        {
            if self.buildings[i].count == u32::MAX || self.buildings[i].level == u32::MAX {
                return false;
            }
            i = i + 1;
        }
        true
    }
}

impl Default for GameState {
    fn default() -> (state: GameState)
        ensures
            state@ == GameView::new_game(),
    {
        GameState::new()
    }
}

} // verus!
