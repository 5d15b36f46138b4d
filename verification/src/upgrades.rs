//! The catalog of upgrades: one-time purchases gated by prerequisites.

use vstd::prelude::*;
use vstd::string::StringExecFns;
use crate::buildings::BuildingKind;
use crate::fixed::Fixed;
use crate::resources::Resources;

verus! {

/// The identifier of an upgrade: its position in the catalog.
pub type UpgradeId = usize;

/// The number of upgrades in the catalog.
pub const UPGRADE_COUNT: usize = 14;

/// What an upgrade does once purchased. Multipliers are in millionths.
#[derive(Debug, Clone, Copy, PartialEq, Eq)]
pub enum UpgradeEffect {
    /// Multiplies what one kind of building yields.
    MultiplyProduction(BuildingKind, Fixed),
    /// Multiplies the global multiplier.
    MultiplyAllProduction(Fixed),
    /// Declared by the catalog format; prices do not read it.
    ReduceCost(BuildingKind, Fixed),
    /// Declared by the catalog format; unlocking does not read it.
    UnlockBuilding(BuildingKind),
    /// Sets the share of production that accrues while away.
    IncreaseOfflineEfficiency(Fixed),
    /// Multiplies the reward multiplier of tasks.
    IncreaseTaskReward(Fixed),
}

/// An upgrade of the catalog together with its purchase state.
#[derive(Debug, Clone)]
pub struct Upgrade {
    pub id: UpgradeId,
    pub name: String,
    pub description: String,
    pub cost: Resources,
    /// The upgrades that must all be purchased first.
    pub prerequisites: Vec<UpgradeId>,
    pub effect: UpgradeEffect,
    pub purchased: bool,
}

/// An upgrade as plain values.
pub struct UpgradeView {
    pub id: UpgradeId,
    pub name: Seq<char>,
    pub description: Seq<char>,
    pub cost: Resources,
    pub prerequisites: Seq<UpgradeId>,
    pub effect: UpgradeEffect,
    pub purchased: bool,
}

impl View for Upgrade {
    type V = UpgradeView;

    open spec fn view(&self) -> UpgradeView {
        UpgradeView {
            id: self.id,
            name: self.name@,
            description: self.description@,
            cost: self.cost,
            prerequisites: self.prerequisites@,
            effect: self.effect,
            purchased: self.purchased,
        }
    }
}

/// A price from its five columns: compute, bandwidth, storage, reputation
/// and crypto, in millionths.
pub open spec fn spec_cost(
    compute: Fixed,
    bandwidth: Fixed,
    storage: Fixed,
    reputation: Fixed,
    crypto: Fixed,
) -> Resources {
    Resources { compute, bandwidth, storage, reputation, crypto }
}

/// An unpurchased catalog entry from its columns.
pub open spec fn spec_entry(
    id: UpgradeId,
    name: &'static str,
    description: &'static str,
    cost: Resources,
    prerequisite: Option<UpgradeId>,
    effect: UpgradeEffect,
) -> UpgradeView {
    UpgradeView {
        id,
        name: name@,
        description: description@,
        cost,
        prerequisites: match prerequisite {
            Some(p) => seq![p],
            None => Seq::empty(),
        },
        effect,
        purchased: false,
    }
}

/// The catalog of upgrades as first offered, by identifier.
pub open spec fn spec_upgrade(id: int) -> UpgradeView {
    if id == 0 {
        spec_entry(
            0,
            "Overclocking",
            "x2 Raspberry Pi production",
            spec_cost(500_000_000, 0, 0, 0, 0),
            None,
            UpgradeEffect::MultiplyProduction(BuildingKind::RaspberryPi, 2_000_000),
        )
    } else if id == 1 {
        spec_entry(
            1,
            "QoS Rules",
            "x2 Home Router production",
            spec_cost(0, 300_000_000, 0, 0, 0),
            None,
            UpgradeEffect::MultiplyProduction(BuildingKind::HomeRouter, 2_000_000),
        )
    } else if id == 2 {
        spec_entry(
            2,
            "USB 3.0",
            "x2 USB Drive production",
            spec_cost(0, 0, 400_000_000, 0, 0),
            None,
            UpgradeEffect::MultiplyProduction(BuildingKind::USBDrive, 2_000_000),
        )
    } else if id == 3 {
        spec_entry(
            3,
            "Containerization",
            "x2 VPS production",
            spec_cost(5_000_000_000, 0, 0, 0, 0),
            Some(0usize),
            UpgradeEffect::MultiplyProduction(BuildingKind::VPS, 2_000_000),
        )
    } else if id == 4 {
        spec_entry(
            4,
            "Fiber Optic Upgrade",
            "x2 Fiber Connection production",
            spec_cost(0, 3_000_000_000, 0, 0, 0),
            Some(1usize),
            UpgradeEffect::MultiplyProduction(BuildingKind::FiberConnection, 2_000_000),
        )
    } else if id == 5 {
        spec_entry(
            5,
            "RAID Configuration",
            "x2 NAS Box production",
            spec_cost(0, 0, 4_000_000_000, 0, 0),
            Some(2usize),
            UpgradeEffect::MultiplyProduction(BuildingKind::NASBox, 2_000_000),
        )
    } else if id == 6 {
        spec_entry(
            6,
            "Automation Scripts",
            "x1.25 all production",
            spec_cost(10_000_000_000, 0, 0, 0, 0),
            Some(3usize),
            UpgradeEffect::MultiplyAllProduction(1_250_000),
        )
    } else if id == 7 {
        spec_entry(
            7,
            "Kubernetes",
            "x1.5 all production",
            spec_cost(100_000_000_000, 50_000_000_000, 0, 0, 0),
            Some(6usize),
            UpgradeEffect::MultiplyAllProduction(1_500_000),
        )
    } else if id == 8 {
        spec_entry(
            8,
            "Terraform",
            "x1.5 all production",
            spec_cost(1_000_000_000_000, 0, 0, 0, 0),
            Some(7usize),
            UpgradeEffect::MultiplyAllProduction(1_500_000),
        )
    } else if id == 9 {
        spec_entry(
            9,
            "Blade Servers",
            "x3 Dedicated Server production",
            spec_cost(50_000_000_000, 0, 0, 0, 0),
            Some(3usize),
            UpgradeEffect::MultiplyProduction(BuildingKind::DedicatedServer, 3_000_000),
        )
    } else if id == 10 {
        spec_entry(
            10,
            "Anycast Routing",
            "x3 Load Balancer production",
            spec_cost(0, 30_000_000_000, 0, 0, 0),
            Some(4usize),
            UpgradeEffect::MultiplyProduction(BuildingKind::LoadBalancer, 3_000_000),
        )
    } else if id == 11 {
        spec_entry(
            11,
            "Incident Playbooks",
            "x2 task rewards",
            spec_cost(20_000_000_000, 0, 0, 0, 0),
            None,
            UpgradeEffect::IncreaseTaskReward(2_000_000),
        )
    } else if id == 12 {
        spec_entry(
            12,
            "Cron Jobs",
            "50% offline efficiency (up from 25%)",
            spec_cost(50_000_000_000, 0, 0, 0, 0),
            Some(6usize),
            UpgradeEffect::IncreaseOfflineEfficiency(500_000),
        )
    } else {
        spec_entry(
            13,
            "Systemd Timers",
            "75% offline efficiency",
            spec_cost(500_000_000_000, 0, 0, 0, 0),
            Some(12usize),
            UpgradeEffect::IncreaseOfflineEfficiency(750_000),
        )
    }
}

/// A price from its five columns, in the order of `spec_cost`.
fn cost(compute: Fixed, bandwidth: Fixed, storage: Fixed, reputation: Fixed, crypto: Fixed) -> (r:
    Resources)
    ensures
        r == spec_cost(compute, bandwidth, storage, reputation, crypto),
{
    Resources { compute, bandwidth, storage, reputation, crypto }
}

/// An unpurchased catalog entry from its columns.
fn entry(
    id: UpgradeId,
    name: &'static str,
    description: &'static str,
    cost: Resources,
    prerequisite: Option<UpgradeId>,
    effect: UpgradeEffect,
) -> (u: Upgrade)
    ensures
        u@ == spec_entry(id, name, description, cost, prerequisite, effect),
{
    let mut prerequisites: Vec<UpgradeId> = Vec::new();
    match prerequisite {
        Some(p) => {
            prerequisites.push(p);
        },
        None => {},
    }
    Upgrade {
        id,
        name: String::from_str(name),
        description: String::from_str(description),
        cost,
        prerequisites,
        effect,
        purchased: false,
    }
}

/// The catalog entry with a given identifier, as first offered.
pub fn upgrade_def(id: UpgradeId) -> (u: Upgrade)
    requires
        id < UPGRADE_COUNT,
    ensures
        u@ == spec_upgrade(id as int),
        u.id == id,
        !u.purchased,
{
    if id == 0 {
        entry(
            0,
            "Overclocking",
            "x2 Raspberry Pi production",
            cost(500_000_000, 0, 0, 0, 0),
            None,
            UpgradeEffect::MultiplyProduction(BuildingKind::RaspberryPi, 2_000_000),
        )
    } else if id == 1 {
        entry(
            1,
            "QoS Rules",
            "x2 Home Router production",
            cost(0, 300_000_000, 0, 0, 0),
            None,
            UpgradeEffect::MultiplyProduction(BuildingKind::HomeRouter, 2_000_000),
        )
    } else if id == 2 {
        entry(
            2,
            "USB 3.0",
            "x2 USB Drive production",
            cost(0, 0, 400_000_000, 0, 0),
            None,
            UpgradeEffect::MultiplyProduction(BuildingKind::USBDrive, 2_000_000),
        )
    } else if id == 3 {
        entry(
            3,
            "Containerization",
            "x2 VPS production",
            cost(5_000_000_000, 0, 0, 0, 0),
            Some(0),
            UpgradeEffect::MultiplyProduction(BuildingKind::VPS, 2_000_000),
        )
    } else if id == 4 {
        entry(
            4,
            "Fiber Optic Upgrade",
            "x2 Fiber Connection production",
            cost(0, 3_000_000_000, 0, 0, 0),
            Some(1),
            UpgradeEffect::MultiplyProduction(BuildingKind::FiberConnection, 2_000_000),
        )
    } else if id == 5 {
        entry(
            5,
            "RAID Configuration",
            "x2 NAS Box production",
            cost(0, 0, 4_000_000_000, 0, 0),
            Some(2),
            UpgradeEffect::MultiplyProduction(BuildingKind::NASBox, 2_000_000),
        )
    } else if id == 6 {
        entry(
            6,
            "Automation Scripts",
            "x1.25 all production",
            cost(10_000_000_000, 0, 0, 0, 0),
            Some(3),
            UpgradeEffect::MultiplyAllProduction(1_250_000),
        )
    } else if id == 7 {
        entry(
            7,
            "Kubernetes",
            "x1.5 all production",
            cost(100_000_000_000, 50_000_000_000, 0, 0, 0),
            Some(6),
            UpgradeEffect::MultiplyAllProduction(1_500_000),
        )
    } else if id == 8 {
        entry(
            8,
            "Terraform",
            "x1.5 all production",
            cost(1_000_000_000_000, 0, 0, 0, 0),
            Some(7),
            UpgradeEffect::MultiplyAllProduction(1_500_000),
        )
    } else if id == 9 {
        entry(
            9,
            "Blade Servers",
            "x3 Dedicated Server production",
            cost(50_000_000_000, 0, 0, 0, 0),
            Some(3),
            UpgradeEffect::MultiplyProduction(BuildingKind::DedicatedServer, 3_000_000),
        )
    } else if id == 10 {
        entry(
            10,
            "Anycast Routing",
            "x3 Load Balancer production",
            cost(0, 30_000_000_000, 0, 0, 0),
            Some(4),
            UpgradeEffect::MultiplyProduction(BuildingKind::LoadBalancer, 3_000_000),
        )
    } else if id == 11 {
        entry(
            11,
            "Incident Playbooks",
            "x2 task rewards",
            cost(20_000_000_000, 0, 0, 0, 0),
            None,
            UpgradeEffect::IncreaseTaskReward(2_000_000),
        )
    } else if id == 12 {
        entry(
            12,
            "Cron Jobs",
            "50% offline efficiency (up from 25%)",
            cost(50_000_000_000, 0, 0, 0, 0),
            Some(6),
            UpgradeEffect::IncreaseOfflineEfficiency(500_000),
        )
    } else {
        entry(
            13,
            "Systemd Timers",
            "75% offline efficiency",
            cost(500_000_000_000, 0, 0, 0, 0),
            Some(12),
            UpgradeEffect::IncreaseOfflineEfficiency(750_000),
        )
    }
}

/// The whole catalog as first offered, in identifier order.
pub fn all_upgrades() -> (upgrades: Vec<Upgrade>)
    ensures
        upgrades@.len() == UPGRADE_COUNT,
        forall|i: int| 0 <= i < UPGRADE_COUNT ==> (#[trigger] upgrades@[i])@ == spec_upgrade(i),
{
    let mut upgrades: Vec<Upgrade> = Vec::new();
    let mut i: usize = 0;
    while i < UPGRADE_COUNT
        invariant
            i <= UPGRADE_COUNT,
            upgrades@.len() == i,
            forall|j: int| 0 <= j < i ==> (#[trigger] upgrades@[j])@ == spec_upgrade(j),
        decreases UPGRADE_COUNT - i,
    {
        upgrades.push(upgrade_def(i));
        i = i + 1;
    }
    upgrades
}

/// In the catalog every identifier is the entry's position, and every
/// prerequisite is an earlier entry: identifiers are unique and the
/// prerequisite graph has no cycle.
pub proof fn lemma_upgrade_catalog_is_sound(id: int, k: int)
    requires
        0 <= id < UPGRADE_COUNT,
        0 <= k < spec_upgrade(id).prerequisites.len(),
    ensures
        spec_upgrade(id).id == id,
        0 <= spec_upgrade(id).prerequisites[k] < id,
{
}

/// Every catalog identifier is the entry's own position.
pub proof fn lemma_upgrade_ids_are_positions(id: int)
    requires
        0 <= id < UPGRADE_COUNT,
    ensures
        spec_upgrade(id).id == id,
        !spec_upgrade(id).purchased,
{
}

} // verus!
