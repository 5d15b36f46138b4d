//! What holds of every game: the shape that every command keeps, and what
//! refusals and repeated checks never do.

use vstd::prelude::*;
use crate::buildings::{
    lemma_catalog_is_sound, lemma_kind_index_roundtrip, spec_building_def, BuildingInstance,
    BuildingKind, KIND_COUNT,
};
use crate::events::{lemma_event_effect_is_bounded, GameEvent, GameEventKind};
use crate::fixed::{
    lemma_mul_grows, lemma_mul_monotone, spec_add, spec_mul, spec_times, Fixed, FIXED_MAX, SCALE,
};
use crate::progression::{lemma_achievements_distinct, spec_achievement_def, ACHIEVEMENT_COUNT};
use crate::state::{
    lemma_find_upgrade, lemma_nothing_built_yields_nothing, lemma_production_in_range,
    spec_find_upgrade, spec_is_purchased, spec_kind_multiplier, spec_prerequisites_met,
    GameState, GameView, MAX_EVENT_LOG, MAX_HISTORY, MAX_TIER,
};
use crate::upgrades::{UpgradeEffect, UpgradeId, UpgradeView, UPGRADE_COUNT};

verus! {

impl GameView {
    /// The shape of every game that started as a new game: one entry per
    /// kind of building in catalog order, the upgrades of the catalog each
    /// at the position of its identifier, a log and a history within their
    /// bounds, and every quantity within range.
    pub open spec fn well_formed(self) -> bool {
        &&& self.buildings.len() == KIND_COUNT
        &&& forall|i: int|
            0 <= i < KIND_COUNT ==> (#[trigger] self.buildings[i]).kind
                == BuildingKind::spec_from_index(i)
        &&& self.upgrades.len() == UPGRADE_COUNT
        &&& forall|i: int| 0 <= i < UPGRADE_COUNT ==> (#[trigger] self.upgrades[i]).id == i
        &&& self.event_log.len() <= MAX_EVENT_LOG
        &&& self.compute_history.len() <= MAX_HISTORY
        &&& self.resources.in_range()
        &&& self.production_per_tick.in_range()
    }
}

impl GameState {
    /// Whether the game has the shape of every game that started as a new
    /// game. A game put together from a document is to be asked this before
    /// it is played: the entries of the buildings are read by position.
    pub fn is_well_formed(&self) -> (formed: bool)
        ensures
            formed == self@.well_formed(),
    {
        if self.buildings.len() != KIND_COUNT || self.upgrades.len() != UPGRADE_COUNT
            || self.event_log.len() > MAX_EVENT_LOG || self.compute_history.len() > MAX_HISTORY
            || !self.resources.is_in_range() || !self.production_per_tick.is_in_range() {
            return false;
        }
        let mut i: usize = 0;
        while i < KIND_COUNT
            invariant
                i <= KIND_COUNT,
                self.buildings@.len() == KIND_COUNT,
                forall|j: int|
                    0 <= j < i ==> (#[trigger] self.buildings@[j]).kind
                        == BuildingKind::spec_from_index(j),
            decreases KIND_COUNT - i,
        {
            match BuildingKind::from_index(i) {
                Some(kind) => {
                    if self.buildings[i].kind != kind {
                        return false;
                    }
                },
                None => {},
            }
            i = i + 1;
        }
        let mut k: usize = 0;
        while k < UPGRADE_COUNT
            invariant
                k <= UPGRADE_COUNT,
                self.upgrades@.len() == UPGRADE_COUNT,
                forall|j: int| 0 <= j < k ==> (#[trigger] self@.upgrades[j]).id == j,
            decreases UPGRADE_COUNT - k,
        {
            if self.upgrades[k].id != k {
                assert(self@.upgrades[k as int].id != k);
                return false;
            }
            k = k + 1;
        }
        true
    }
}

/// A new game is well formed.
pub proof fn lemma_new_game_is_well_formed()
    ensures
        GameView::new_game().well_formed(),
{
}

/// Every command and every tick keeps a game well formed.
pub proof fn lemma_commands_keep_well_formed(
    v: GameView,
    kind: BuildingKind,
    id: UpgradeId,
    event: Option<GameEvent>,
)
    requires
        v.well_formed(),
    ensures
        v.recalculated().well_formed(),
        v.after_purchase_building(kind).well_formed(),
        v.after_upgrade_building(kind).well_formed(),
        v.after_purchase_upgrade(id).well_formed(),
        v.after_prestige().well_formed(),
        v.after_check().well_formed(),
        v.after_tick(event).well_formed(),
{
    lemma_production_in_range(v, KIND_COUNT as int);
    lemma_production_in_range(v.after_purchase_building(kind), KIND_COUNT as int);
    lemma_production_in_range(v.after_upgrade_building(kind), KIND_COUNT as int);
    lemma_production_in_range(v.after_purchase_upgrade(id), KIND_COUNT as int);
    assert(v.after_purchase_building(kind).well_formed()) by {
        if v.can_purchase_building(kind) {
            let idx = kind.spec_index();
            let bought = GameView {
                resources: v.resources.spec_minus(v.building_price(kind)),
                buildings: v.buildings.update(
                    idx,
                    BuildingInstance {
                        count: (v.buildings[idx].count + 1) as u32,
                        ..v.buildings[idx]
                    },
                ),
                ..v
            };
            lemma_production_in_range(bought, KIND_COUNT as int);
        }
    }
    assert(v.after_upgrade_building(kind).well_formed()) by {
        if v.can_upgrade_building(kind) {
            let idx = kind.spec_index();
            let raised = GameView {
                resources: v.resources.spec_minus(v.level_price(kind)),
                buildings: v.buildings.update(
                    idx,
                    BuildingInstance {
                        level: (v.buildings[idx].level + 1) as u32,
                        ..v.buildings[idx]
                    },
                ),
                ..v
            };
            lemma_production_in_range(raised, KIND_COUNT as int);
        }
    }
    assert(v.after_purchase_upgrade(id).well_formed()) by {
        if v.can_purchase_upgrade(id) {
            let i = spec_find_upgrade(v.upgrades, id, 0);
            lemma_find_upgrade(v.upgrades, id, 0);
            let purchased = GameView {
                resources: v.resources.spec_minus(v.upgrades[i].cost),
                upgrades: v.upgrades.update(
                    i,
                    UpgradeView { purchased: true, ..v.upgrades[i] },
                ),
                ..v
            }.with_effect(v.upgrades[i].effect);
            lemma_production_in_range(purchased, KIND_COUNT as int);
        }
    }
    assert(v.after_tick(event).well_formed()) by {
        lemma_event_effect_is_bounded(
            match event {
                Some(e) => e.kind,
                None => GameEventKind::DDoSAttack { severity: 0 },
            },
            v.after_production().resources,
        );
    }
}

impl GameView {
    /// The production snapshot is what the buildings owned, the global
    /// multiplier and the purchased upgrades yield now.
    pub open spec fn snapshot_is_current(self) -> bool {
        self.production_per_tick == self.production()
    }

    /// Two games agree in all that production is computed from.
    pub open spec fn same_economy(self, other: GameView) -> bool {
        &&& self.buildings == other.buildings
        &&& self.upgrades == other.upgrades
        &&& self.global_multiplier == other.global_multiplier
    }
}

/// Production is a function of the buildings, the upgrades and the global
/// multiplier alone.
pub proof fn lemma_production_depends_on_economy(a: GameView, b: GameView, n: int)
    requires
        a.same_economy(b),
    ensures
        a.production_upto(n) == b.production_upto(n),
    decreases n,
{
    if n > 0 {
        lemma_production_depends_on_economy(a, b, n - 1);
        let kind = BuildingKind::spec_from_index(n - 1);
        assert(a.output_of(kind) == b.output_of(kind));
    }
}

/// Rebuilding the snapshot twice gives what rebuilding it once gives, and
/// a rebuilt snapshot is current.
pub proof fn lemma_recalculation_is_idempotent(v: GameView)
    ensures
        v.recalculated().recalculated() == v.recalculated(),
        v.recalculated().snapshot_is_current(),
{
    lemma_production_depends_on_economy(v.recalculated(), v, KIND_COUNT as int);
}

/// A new game has a current snapshot, and every command and every tick
/// keeps the snapshot current: whenever a purchase or a prestige changes
/// the economy the snapshot is rebuilt, and nothing else changes what it
/// is computed from.
pub proof fn lemma_snapshot_stays_current(
    v: GameView,
    kind: BuildingKind,
    id: UpgradeId,
    event: Option<GameEvent>,
)
    requires
        v.snapshot_is_current(),
    ensures
        GameView::new_game().snapshot_is_current(),
        v.after_purchase_building(kind).snapshot_is_current(),
        v.after_upgrade_building(kind).snapshot_is_current(),
        v.after_purchase_upgrade(id).snapshot_is_current(),
        v.after_prestige().snapshot_is_current(),
        v.after_check().snapshot_is_current(),
        v.after_tick(event).snapshot_is_current(),
{
    lemma_nothing_built_yields_nothing(GameView::new_game(), KIND_COUNT as int);
    if v.can_purchase_building(kind) {
        let idx = kind.spec_index();
        let bought = GameView {
            resources: v.resources.spec_minus(v.building_price(kind)),
            buildings: v.buildings.update(
                idx,
                BuildingInstance {
                    count: (v.buildings[idx].count + 1) as u32,
                    ..v.buildings[idx]
                },
            ),
            ..v
        };
        lemma_recalculation_is_idempotent(bought);
    }
    if v.can_upgrade_building(kind) {
        let idx = kind.spec_index();
        let raised = GameView {
            resources: v.resources.spec_minus(v.level_price(kind)),
            buildings: v.buildings.update(
                idx,
                BuildingInstance {
                    level: (v.buildings[idx].level + 1) as u32,
                    ..v.buildings[idx]
                },
            ),
            ..v
        };
        lemma_recalculation_is_idempotent(raised);
    }
    if v.can_purchase_upgrade(id) {
        let i = spec_find_upgrade(v.upgrades, id, 0);
        let purchased = GameView {
            resources: v.resources.spec_minus(v.upgrades[i].cost),
            upgrades: v.upgrades.update(i, UpgradeView { purchased: true, ..v.upgrades[i] }),
            ..v
        }.with_effect(v.upgrades[i].effect);
        lemma_recalculation_is_idempotent(purchased);
    }
    if v.can_prestige() {
        assert(v.after_prestige().nothing_built());
        lemma_nothing_built_yields_nothing(v.after_prestige(), KIND_COUNT as int);
    }
    lemma_production_depends_on_economy(v.after_check(), v, KIND_COUNT as int);
    lemma_production_depends_on_economy(v.after_tick(event), v, KIND_COUNT as int);
}

/// The visible kinds of a tier among the first `n` of the catalog are
/// exactly the kinds there that are in the tier and visible.
pub proof fn lemma_visible_in_tier(v: GameView, tier: u8, n: int, kind: BuildingKind)
    requires
        0 <= n <= KIND_COUNT,
    ensures
        v.visible_in_tier(tier, n).contains(kind) <==> kind.spec_index() < n && spec_building_def(
            kind,
        ).tier == tier && v.is_visible(kind),
    decreases n,
{
    if n > 0 {
        lemma_visible_in_tier(v, tier, n - 1, kind);
        let earlier = v.visible_in_tier(tier, n - 1);
        let last = BuildingKind::spec_from_index(n - 1);
        lemma_kind_index_roundtrip(kind, n - 1);
        if spec_building_def(last).tier == tier && v.is_visible(last) {
            lemma_push_contains(earlier, last, kind);
        }
    }
}

/// The list of unlocked kinds holds exactly the visible kinds: a kind is
/// listed if and only if the compute held reaches its unlock threshold or
/// something is owned of it.
pub proof fn lemma_unlocked_are_the_visible(v: GameView, kind: BuildingKind)
    ensures
        v.unlocked().contains(kind) <==> v.is_visible(kind),
{
    lemma_catalog_is_sound(kind);
    lemma_unlocked_upto(v, MAX_TIER as int, kind);
}

/// The unlocked kinds of the tiers up to `tier` are exactly the visible
/// kinds of those tiers.
proof fn lemma_unlocked_upto(v: GameView, tier: int, kind: BuildingKind)
    requires
        0 <= tier <= MAX_TIER,
    ensures
        v.unlocked_upto(tier).contains(kind) <==> 1 <= spec_building_def(kind).tier <= tier
            && v.is_visible(kind),
    decreases tier,
{
    if tier > 0 {
        lemma_unlocked_upto(v, tier - 1, kind);
        lemma_visible_in_tier(v, tier as u8, KIND_COUNT as int, kind);
        lemma_kind_index_roundtrip(kind, 0);
        lemma_concat_contains(
            v.unlocked_upto(tier - 1),
            v.visible_in_tier(tier as u8, KIND_COUNT as int),
            kind,
        );
    }
}

/// A list with one more entry holds what it held before and the new entry.
proof fn lemma_push_contains<T>(list: Seq<T>, entry: T, wanted: T)
    ensures
        list.push(entry).contains(wanted) <==> list.contains(wanted) || wanted == entry,
{
    let longer = list.push(entry);
    if list.contains(wanted) {
        let i = choose|i: int| 0 <= i < list.len() && list[i] == wanted;
        assert(longer[i] == wanted);
    }
    if wanted == entry {
        assert(longer[list.len() as int] == wanted);
    }
    if longer.contains(wanted) {
        let i = choose|i: int| 0 <= i < longer.len() && longer[i] == wanted;
        if i < list.len() {
            assert(list[i] == wanted);
        }
    }
}

/// Two lists joined hold what either of them holds.
proof fn lemma_concat_contains<T>(first: Seq<T>, second: Seq<T>, wanted: T)
    ensures
        (first + second).contains(wanted) <==> first.contains(wanted) || second.contains(wanted),
{
    let joined = first + second;
    if first.contains(wanted) {
        let i = choose|i: int| 0 <= i < first.len() && first[i] == wanted;
        assert(joined[i] == wanted);
    }
    if second.contains(wanted) {
        let i = choose|i: int| 0 <= i < second.len() && second[i] == wanted;
        assert(joined[first.len() + i] == wanted);
    }
    if joined.contains(wanted) {
        let i = choose|i: int| 0 <= i < joined.len() && joined[i] == wanted;
        if i < first.len() {
            assert(first[i] == wanted);
        } else {
            assert(second[i - first.len()] == wanted);
        }
    }
}

/// An upgrade is purchased and multiplies what `kind` yields.
pub open spec fn spec_multiplies(upgrade: UpgradeView, kind: BuildingKind) -> bool {
    upgrade.purchased && (upgrade.effect matches UpgradeEffect::MultiplyProduction(target, _)
        && target == kind)
}

/// The multiplier of a kind over the first `n` upgrades of a list follows
/// from the one over the first `n - 1` by the upgrade at `n - 1`.
proof fn lemma_kind_multiplier_step(upgrades: Seq<UpgradeView>, kind: BuildingKind, n: int)
    requires
        0 < n <= upgrades.len(),
    ensures
        spec_kind_multiplier(upgrades.take(n), kind) == (if spec_multiplies(upgrades[n - 1], kind) {
            spec_mul(
                spec_kind_multiplier(upgrades.take(n - 1), kind),
                upgrades[n - 1].effect->MultiplyProduction_1,
            )
        } else {
            spec_kind_multiplier(upgrades.take(n - 1), kind)
        }),
        spec_kind_multiplier(upgrades.take(n - 1), kind) <= FIXED_MAX,
        spec_kind_multiplier(upgrades.take(n), kind) <= FIXED_MAX,
    decreases n,
{
    assert(upgrades.take(n).drop_last() =~= upgrades.take(n - 1));
    assert(upgrades.take(n).last() == upgrades[n - 1]);
    if n > 1 {
        lemma_kind_multiplier_step(upgrades, kind, n - 1);
    } else {
        assert(upgrades.take(0).len() == 0);
    }
}

/// What marking the upgrade at `position` purchased does to the multiplier
/// of each kind over the first `n` upgrades: where the upgrade multiplies
/// `kind` by `factor` and no purchased upgrade after it does so too, the
/// multiplier of `kind` is multiplied by `factor` once the upgrade is among
/// the first `n`; the multiplier of every other kind stays.
proof fn lemma_marking_multiplies(
    upgrades: Seq<UpgradeView>,
    position: int,
    kind: BuildingKind,
    factor: Fixed,
    other: BuildingKind,
    n: int,
)
    requires
        0 <= position < upgrades.len(),
        0 <= n <= upgrades.len(),
        !upgrades[position].purchased,
        upgrades[position].effect == UpgradeEffect::MultiplyProduction(kind, factor),
        forall|j: int|
            position < j < upgrades.len() ==> !spec_multiplies(#[trigger] upgrades[j], kind),
        other != kind,
    ensures
        ({
            let marked = upgrades.update(
                position,
                UpgradeView { purchased: true, ..upgrades[position] },
            );
            &&& spec_kind_multiplier(marked.take(n), other) == spec_kind_multiplier(
                upgrades.take(n),
                other,
            )
            &&& n <= position ==> spec_kind_multiplier(marked.take(n), kind)
                == spec_kind_multiplier(upgrades.take(n), kind)
            &&& n > position ==> spec_kind_multiplier(marked.take(n), kind) == spec_mul(
                spec_kind_multiplier(upgrades.take(n), kind),
                factor,
            )
        }),
    decreases n,
{
    let marked = upgrades.update(position, UpgradeView { purchased: true, ..upgrades[position] });
    if n > 0 {
        lemma_marking_multiplies(upgrades, position, kind, factor, other, n - 1);
        lemma_kind_multiplier_step(upgrades, kind, n);
        lemma_kind_multiplier_step(marked, kind, n);
        lemma_kind_multiplier_step(upgrades, other, n);
        lemma_kind_multiplier_step(marked, other, n);
        if n - 1 != position {
            assert(marked[n - 1] == upgrades[n - 1]);
        }
    } else {
        assert(marked.take(0) =~= upgrades.take(0));
    }
}

/// Purchasing an upgrade that multiplies what a kind yields multiplies the
/// multiplier of that kind by the declared factor and leaves the
/// multiplier of every other kind as it was, provided no upgrade purchased
/// after it in the list multiplies the same kind (in the catalog no two
/// upgrades do). With a factor of at least 1.0 the kind then yields no
/// less than before, and every other kind yields what it did.
pub proof fn lemma_kind_upgrade_multiplies(
    v: GameView,
    id: UpgradeId,
    kind: BuildingKind,
    factor: Fixed,
    other: BuildingKind,
)
    requires
        v.can_purchase_upgrade(id),
        v.upgrades[spec_find_upgrade(v.upgrades, id, 0)].effect
            == UpgradeEffect::MultiplyProduction(kind, factor),
        forall|j: int|
            spec_find_upgrade(v.upgrades, id, 0) < j < v.upgrades.len() ==> !spec_multiplies(
                #[trigger] v.upgrades[j],
                kind,
            ),
        other != kind,
    ensures
        spec_kind_multiplier(v.after_purchase_upgrade(id).upgrades, kind) == spec_mul(
            spec_kind_multiplier(v.upgrades, kind),
            factor,
        ),
        spec_kind_multiplier(v.after_purchase_upgrade(id).upgrades, other) == spec_kind_multiplier(
            v.upgrades,
            other,
        ),
        v.after_purchase_upgrade(id).output_of(other) == v.output_of(other),
        v.after_purchase_upgrade(id).production_per_tick == v.after_purchase_upgrade(
            id,
        ).production(),
        factor >= SCALE ==> v.after_purchase_upgrade(id).output_of(kind) >= v.output_of(kind),
{
    let position = spec_find_upgrade(v.upgrades, id, 0);
    lemma_find_upgrade(v.upgrades, id, 0);
    let after = v.after_purchase_upgrade(id);
    let marked = v.upgrades.update(position, UpgradeView { purchased: true, ..v.upgrades[position] });
    assert(after.upgrades == marked);
    let n = v.upgrades.len() as int;
    lemma_marking_multiplies(v.upgrades, position, kind, factor, other, n);
    assert(v.upgrades.take(n) =~= v.upgrades);
    assert(marked.take(n) =~= marked);
    lemma_kind_multiplier_step(v.upgrades, kind, n);
    lemma_recalculation_is_idempotent(
        GameView {
            resources: v.resources.spec_minus(v.upgrades[position].cost),
            upgrades: marked,
            ..v
        }.with_effect(v.upgrades[position].effect),
    );
    if factor >= SCALE {
        let before = spec_kind_multiplier(v.upgrades, kind);
        lemma_mul_grows(before, factor);
        lemma_mul_monotone(before, spec_mul(before, factor), v.total_multiplier());
        if !(kind == BuildingKind::CICDPipeline || v.count_of(kind) == 0) {
            let def = spec_building_def(kind);
            let inner = spec_mul(
                spec_times(def.base_production, v.count_of(kind) as int),
                spec_add(SCALE, spec_times(def.level_bonus, v.level_of(kind) as int)),
            );
            lemma_mul_monotone(
                spec_mul(v.total_multiplier(), before),
                spec_mul(v.total_multiplier(), spec_mul(before, factor)),
                inner,
            );
        }
    }
}

/// A purchase that the ledger does not cover changes nothing: not the
/// count, not the resources, not the production snapshot.
pub proof fn lemma_unaffordable_purchase_changes_nothing(v: GameView, kind: BuildingKind)
    requires
        !v.resources.spec_can_afford(v.building_price(kind)),
    ensures
        !v.can_purchase_building(kind),
        v.after_purchase_building(kind) == v,
{
}

/// An upgrade with a prerequisite that is not purchased cannot be
/// purchased, whatever the ledger holds, and the command changes nothing.
pub proof fn lemma_missing_prerequisite_refuses(v: GameView, id: UpgradeId, k: int)
    requires
        spec_find_upgrade(v.upgrades, id, 0) < v.upgrades.len(),
        0 <= k < v.upgrades[spec_find_upgrade(v.upgrades, id, 0)].prerequisites.len(),
        !spec_is_purchased(
            v.upgrades,
            v.upgrades[spec_find_upgrade(v.upgrades, id, 0)].prerequisites[k],
        ),
    ensures
        !v.can_purchase_upgrade(id),
        v.after_purchase_upgrade(id) == v,
{
}

/// Once an upgrade is purchased it counts as purchased for every upgrade
/// that names it as a prerequisite, and it cannot be purchased again.
pub proof fn lemma_purchase_satisfies_prerequisite(v: GameView, id: UpgradeId)
    requires
        v.can_purchase_upgrade(id),
    ensures
        spec_is_purchased(v.after_purchase_upgrade(id).upgrades, id),
        spec_prerequisites_met(v.after_purchase_upgrade(id).upgrades, seq![id]),
        !v.after_purchase_upgrade(id).can_purchase_upgrade(id),
{
    let i = spec_find_upgrade(v.upgrades, id, 0);
    lemma_find_upgrade(v.upgrades, id, 0);
    let after = v.after_purchase_upgrade(id);
    assert(after.upgrades[i].id == id && after.upgrades[i].purchased);
    lemma_find_upgrade(after.upgrades, id, 0);
    let j = spec_find_upgrade(after.upgrades, id, 0);
    assert(j == i) by {
        if j < i {
            assert(v.upgrades[j].id == after.upgrades[j].id);
        }
    }
}

/// An identifier that is unlocked before a check stays unlocked through
/// it, and one whose name the check reports is unlocked after it.
pub proof fn lemma_check_only_unlocks(v: GameView, n: int)
    requires
        0 <= n <= ACHIEVEMENT_COUNT,
    ensures
        forall|id: Seq<char>|
            v.achievements.contains(id) ==> #[trigger] v.checked_upto(n).unlocked.contains(id),
        forall|name: Seq<char>| #[trigger]
            v.checked_upto(n).names.contains(name) ==> exists|i: int|
                0 <= i < n && name == (#[trigger] spec_achievement_def(i)).name@
                    && v.checked_upto(n).unlocked.contains(spec_achievement_def(i).id@)
                    && !v.achievements.contains(spec_achievement_def(i).id@),
    decreases n,
{
    if n > 0 {
        lemma_check_only_unlocks(v, n - 1);
        let before = v.checked_upto(n - 1);
        let after = v.checked_upto(n);
        let def = spec_achievement_def(n - 1);
        if v.achievement_met(n - 1) && !before.unlocked.contains(def.id@) {
            assert forall|id: Seq<char>| v.achievements.contains(id) implies #[trigger]
                after.unlocked.contains(id) by {
                assert(before.unlocked.contains(id));
                let k = choose|k: int| 0 <= k < before.unlocked.len() && before.unlocked[k] == id;
                assert(after.unlocked[k] == id);
            }
            assert(after.unlocked[before.unlocked.len() as int] == def.id@);
            assert forall|name: Seq<char>| #[trigger] after.names.contains(name) implies exists|
                i: int,
            |
                0 <= i < n && name == (#[trigger] spec_achievement_def(i)).name@
                    && after.unlocked.contains(spec_achievement_def(i).id@)
                    && !v.achievements.contains(spec_achievement_def(i).id@) by {
                let k = choose|k: int| 0 <= k < after.names.len() && after.names[k] == name;
                if k < before.names.len() {
                    assert(before.names[k] == name);
                    assert(before.names.contains(name));
                    let i = choose|i: int|
                        0 <= i < n - 1 && name == (#[trigger] spec_achievement_def(i)).name@
                            && before.unlocked.contains(spec_achievement_def(i).id@)
                            && !v.achievements.contains(spec_achievement_def(i).id@);
                    let id = spec_achievement_def(i).id@;
                    let m = choose|m: int| 0 <= m < before.unlocked.len() && before.unlocked[m] == id;
                    assert(after.unlocked[m] == id);
                } else {
                    assert(name == def.name@);
                    assert(!v.achievements.contains(def.id@));
                }
            }
        }
    } else {
        assert(v.checked_upto(0).names.len() == 0);
    }
}

/// A check never reports a name that an earlier check reported: whatever
/// the game has become since, as long as no achievement was taken away
/// again, the names of a later check are all new.
pub proof fn lemma_achievements_never_repeat(first: GameView, later: GameView, name: Seq<char>)
    requires
        forall|id: Seq<char>| #[trigger]
            first.checked().unlocked.contains(id) ==> later.achievements.contains(id),
        first.checked().names.contains(name),
    ensures
        !later.checked().names.contains(name),
{
    lemma_check_only_unlocks(first, ACHIEVEMENT_COUNT as int);
    lemma_check_only_unlocks(later, ACHIEVEMENT_COUNT as int);
    if later.checked().names.contains(name) {
        let i = choose|i: int|
            0 <= i < ACHIEVEMENT_COUNT && name == (#[trigger] spec_achievement_def(i)).name@
                && first.checked().unlocked.contains(spec_achievement_def(i).id@)
                && !first.achievements.contains(spec_achievement_def(i).id@);
        let j = choose|j: int|
            0 <= j < ACHIEVEMENT_COUNT && name == (#[trigger] spec_achievement_def(j)).name@
                && later.checked().unlocked.contains(spec_achievement_def(j).id@)
                && !later.achievements.contains(spec_achievement_def(j).id@);
        if i != j {
            lemma_achievements_distinct(i, j);
        }
        assert(later.achievements.contains(spec_achievement_def(i).id@));
    }
}

/// Checking again right away reports nothing: with the game unchanged, a
/// second check finds no name that the first reported.
pub proof fn lemma_second_check_reports_nothing_again(v: GameView, name: Seq<char>)
    requires
        v.checked().names.contains(name),
    ensures
        !v.after_check().checked().names.contains(name),
{
    lemma_achievements_never_repeat(v, v.after_check(), name);
}

} // verus!
