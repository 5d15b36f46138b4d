//! The catalog of buildings: for each kind its price curve, its production
//! curve, the resource it yields and the threshold at which it shows up.

use vstd::prelude::*;
use crate::fixed::{Fixed, FIXED_MAX, SCALE};
use crate::formulas::{
    building_cost, building_production, spec_building_cost, spec_building_production,
};
use crate::resources::Resources;

verus! {

/// The kinds of building, in catalog order: six tiers of three, then the
/// three special kinds.
#[derive(Debug, Clone, Copy, PartialEq, Eq, Hash, Structural)]
pub enum BuildingKind {
    RaspberryPi,
    HomeRouter,
    USBDrive,
    VPS,
    FiberConnection,
    NASBox,
    DedicatedServer,
    LoadBalancer,
    SANArray,
    ServerCluster,
    CDN,
    DataWarehouse,
    Datacenter,
    BackboneLink,
    ObjectStorage,
    CloudRegion,
    SubmarineCable,
    DistributedFS,
    /// Yields nothing itself; each unit adds a tenth to all other production.
    CICDPipeline,
    /// Each unit makes random events more frequent.
    MonitoringStack,
    /// The one kind that yields crypto.
    CryptoMiner,
}

/// The number of building kinds.
pub const KIND_COUNT: usize = 21;

/// The resource a building yields and is paid in.
#[derive(Debug, Clone, Copy, PartialEq, Eq, Structural)]
pub enum ResourceType {
    Compute,
    Bandwidth,
    Storage,
    Crypto,
}

/// The owned units of one kind of building and their upgrade level.
#[derive(Debug, Clone, Copy, PartialEq, Eq)]
pub struct BuildingInstance {
    pub kind: BuildingKind,
    pub count: u32,
    pub level: u32,
}

/// The fixed definition of one kind of building.
#[derive(Debug, Clone, Copy)]
pub struct BuildingDef {
    pub kind: BuildingKind,
    pub name: &'static str,
    pub description: &'static str,
    pub base_cost: Fixed,
    pub cost_multiplier: Fixed,
    pub base_production: Fixed,
    pub level_bonus: Fixed,
    pub resource_type: ResourceType,
    /// The compute a player must hold for the kind to show up.
    pub unlock_threshold: Fixed,
    /// Display order only.
    pub tier: u8,
}

impl BuildingKind {
    /// The position of the kind in the catalog.
    pub open spec fn spec_index(self) -> int {
        match self {
            BuildingKind::RaspberryPi => 0,
            BuildingKind::HomeRouter => 1,
            BuildingKind::USBDrive => 2,
            BuildingKind::VPS => 3,
            BuildingKind::FiberConnection => 4,
            BuildingKind::NASBox => 5,
            BuildingKind::DedicatedServer => 6,
            BuildingKind::LoadBalancer => 7,
            BuildingKind::SANArray => 8,
            BuildingKind::ServerCluster => 9,
            BuildingKind::CDN => 10,
            BuildingKind::DataWarehouse => 11,
            BuildingKind::Datacenter => 12,
            BuildingKind::BackboneLink => 13,
            BuildingKind::ObjectStorage => 14,
            BuildingKind::CloudRegion => 15,
            BuildingKind::SubmarineCable => 16,
            BuildingKind::DistributedFS => 17,
            BuildingKind::CICDPipeline => 18,
            BuildingKind::MonitoringStack => 19,
            BuildingKind::CryptoMiner => 20,
        }
    }

    /// The kind at a position of the catalog.
    pub open spec fn spec_from_index(i: int) -> BuildingKind {
        if i == 0 {
            BuildingKind::RaspberryPi
        } else if i == 1 {
            BuildingKind::HomeRouter
        } else if i == 2 {
            BuildingKind::USBDrive
        } else if i == 3 {
            BuildingKind::VPS
        } else if i == 4 {
            BuildingKind::FiberConnection
        } else if i == 5 {
            BuildingKind::NASBox
        } else if i == 6 {
            BuildingKind::DedicatedServer
        } else if i == 7 {
            BuildingKind::LoadBalancer
        } else if i == 8 {
            BuildingKind::SANArray
        } else if i == 9 {
            BuildingKind::ServerCluster
        } else if i == 10 {
            BuildingKind::CDN
        } else if i == 11 {
            BuildingKind::DataWarehouse
        } else if i == 12 {
            BuildingKind::Datacenter
        } else if i == 13 {
            BuildingKind::BackboneLink
        } else if i == 14 {
            BuildingKind::ObjectStorage
        } else if i == 15 {
            BuildingKind::CloudRegion
        } else if i == 16 {
            BuildingKind::SubmarineCable
        } else if i == 17 {
            BuildingKind::DistributedFS
        } else if i == 18 {
            BuildingKind::CICDPipeline
        } else if i == 19 {
            BuildingKind::MonitoringStack
        } else {
            BuildingKind::CryptoMiner
        }
    }

    /// The position of the kind in the catalog.
    pub fn index(self) -> (i: usize)
        ensures
            i as int == self.spec_index(),
            i < KIND_COUNT,
            BuildingKind::spec_from_index(i as int) == self,
    {
        match self {
            BuildingKind::RaspberryPi => 0,
            BuildingKind::HomeRouter => 1,
            BuildingKind::USBDrive => 2,
            BuildingKind::VPS => 3,
            BuildingKind::FiberConnection => 4,
            BuildingKind::NASBox => 5,
            BuildingKind::DedicatedServer => 6,
            BuildingKind::LoadBalancer => 7,
            BuildingKind::SANArray => 8,
            BuildingKind::ServerCluster => 9,
            BuildingKind::CDN => 10,
            BuildingKind::DataWarehouse => 11,
            BuildingKind::Datacenter => 12,
            BuildingKind::BackboneLink => 13,
            BuildingKind::ObjectStorage => 14,
            BuildingKind::CloudRegion => 15,
            BuildingKind::SubmarineCable => 16,
            BuildingKind::DistributedFS => 17,
            BuildingKind::CICDPipeline => 18,
            BuildingKind::MonitoringStack => 19,
            BuildingKind::CryptoMiner => 20,
        }
    }

    /// The identifier of the kind, as the log writes it.
    pub open spec fn spec_identifier(self) -> Seq<char> {
        match self {
            BuildingKind::RaspberryPi => "RaspberryPi"@,
            BuildingKind::HomeRouter => "HomeRouter"@,
            BuildingKind::USBDrive => "USBDrive"@,
            BuildingKind::VPS => "VPS"@,
            BuildingKind::FiberConnection => "FiberConnection"@,
            BuildingKind::NASBox => "NASBox"@,
            BuildingKind::DedicatedServer => "DedicatedServer"@,
            BuildingKind::LoadBalancer => "LoadBalancer"@,
            BuildingKind::SANArray => "SANArray"@,
            BuildingKind::ServerCluster => "ServerCluster"@,
            BuildingKind::CDN => "CDN"@,
            BuildingKind::DataWarehouse => "DataWarehouse"@,
            BuildingKind::Datacenter => "Datacenter"@,
            BuildingKind::BackboneLink => "BackboneLink"@,
            BuildingKind::ObjectStorage => "ObjectStorage"@,
            BuildingKind::CloudRegion => "CloudRegion"@,
            BuildingKind::SubmarineCable => "SubmarineCable"@,
            BuildingKind::DistributedFS => "DistributedFS"@,
            BuildingKind::CICDPipeline => "CICDPipeline"@,
            BuildingKind::MonitoringStack => "MonitoringStack"@,
            BuildingKind::CryptoMiner => "CryptoMiner"@,
        }
    }

    /// The identifier of the kind, as the log writes it.
    pub fn identifier(self) -> (name: &'static str)
        ensures
            name@ == self.spec_identifier(),
    {
        match self {
            BuildingKind::RaspberryPi => "RaspberryPi",
            BuildingKind::HomeRouter => "HomeRouter",
            BuildingKind::USBDrive => "USBDrive",
            BuildingKind::VPS => "VPS",
            BuildingKind::FiberConnection => "FiberConnection",
            BuildingKind::NASBox => "NASBox",
            BuildingKind::DedicatedServer => "DedicatedServer",
            BuildingKind::LoadBalancer => "LoadBalancer",
            BuildingKind::SANArray => "SANArray",
            BuildingKind::ServerCluster => "ServerCluster",
            BuildingKind::CDN => "CDN",
            BuildingKind::DataWarehouse => "DataWarehouse",
            BuildingKind::Datacenter => "Datacenter",
            BuildingKind::BackboneLink => "BackboneLink",
            BuildingKind::ObjectStorage => "ObjectStorage",
            BuildingKind::CloudRegion => "CloudRegion",
            BuildingKind::SubmarineCable => "SubmarineCable",
            BuildingKind::DistributedFS => "DistributedFS",
            BuildingKind::CICDPipeline => "CICDPipeline",
            BuildingKind::MonitoringStack => "MonitoringStack",
            BuildingKind::CryptoMiner => "CryptoMiner",
        }
    }

    /// The kind at a position of the catalog, if there is one.
    pub fn from_index(i: usize) -> (kind: Option<BuildingKind>)
        ensures
            i < KIND_COUNT ==> kind == Some(BuildingKind::spec_from_index(i as int)),
            i >= KIND_COUNT ==> kind is None,
            kind matches Some(k) ==> k.spec_index() == i,
    {
        if i == 0 {
            Some(BuildingKind::RaspberryPi)
        } else if i == 1 {
            Some(BuildingKind::HomeRouter)
        } else if i == 2 {
            Some(BuildingKind::USBDrive)
        } else if i == 3 {
            Some(BuildingKind::VPS)
        } else if i == 4 {
            Some(BuildingKind::FiberConnection)
        } else if i == 5 {
            Some(BuildingKind::NASBox)
        } else if i == 6 {
            Some(BuildingKind::DedicatedServer)
        } else if i == 7 {
            Some(BuildingKind::LoadBalancer)
        } else if i == 8 {
            Some(BuildingKind::SANArray)
        } else if i == 9 {
            Some(BuildingKind::ServerCluster)
        } else if i == 10 {
            Some(BuildingKind::CDN)
        } else if i == 11 {
            Some(BuildingKind::DataWarehouse)
        } else if i == 12 {
            Some(BuildingKind::Datacenter)
        } else if i == 13 {
            Some(BuildingKind::BackboneLink)
        } else if i == 14 {
            Some(BuildingKind::ObjectStorage)
        } else if i == 15 {
            Some(BuildingKind::CloudRegion)
        } else if i == 16 {
            Some(BuildingKind::SubmarineCable)
        } else if i == 17 {
            Some(BuildingKind::DistributedFS)
        } else if i == 18 {
            Some(BuildingKind::CICDPipeline)
        } else if i == 19 {
            Some(BuildingKind::MonitoringStack)
        } else if i == 20 {
            Some(BuildingKind::CryptoMiner)
        } else {
            None
        }
    }
}

/// Positions and kinds correspond one to one.
pub proof fn lemma_kind_index_roundtrip(kind: BuildingKind, i: int)
    ensures
        0 <= kind.spec_index() < KIND_COUNT,
        BuildingKind::spec_from_index(kind.spec_index()) == kind,
        0 <= i < KIND_COUNT ==> BuildingKind::spec_from_index(i).spec_index() == i,
{
}

impl ResourceType {
    /// A ledger that holds `amount` of this resource and nothing else.
    pub open spec fn spec_only(self, amount: Fixed) -> Resources {
        match self {
            ResourceType::Compute => Resources { compute: amount, ..Resources::spec_zero() },
            ResourceType::Bandwidth => Resources { bandwidth: amount, ..Resources::spec_zero() },
            ResourceType::Storage => Resources { storage: amount, ..Resources::spec_zero() },
            ResourceType::Crypto => Resources { crypto: amount, ..Resources::spec_zero() },
        }
    }

    /// A ledger that holds `amount` of this resource and nothing else.
    pub fn only(self, amount: Fixed) -> (r: Resources)
        ensures
            r == self.spec_only(amount),
    {
        let mut r = Resources::zero();
        match self {
            ResourceType::Compute => {
                r.compute = amount;
            },
            ResourceType::Bandwidth => {
                r.bandwidth = amount;
            },
            ResourceType::Storage => {
                r.storage = amount;
            },
            ResourceType::Crypto => {
                r.crypto = amount;
            },
        }
        r
    }
}

impl BuildingInstance {
    /// Nothing owned, level zero.
    pub fn new(kind: BuildingKind) -> (b: BuildingInstance)
        ensures
            b == (BuildingInstance { kind, count: 0, level: 0 }),
    {
        BuildingInstance { kind, count: 0, level: 0 }
    }
}

impl BuildingDef {
    /// The price of the next unit when `count` are owned.
    pub open spec fn spec_next_cost(self, count: u32) -> Fixed {
        spec_building_cost(self.base_cost, self.cost_multiplier, count as nat)
    }

    /// What `count` units at `level` yield per tick under a multiplier.
    pub open spec fn spec_production_per_tick(
        self,
        count: u32,
        level: u32,
        global_multiplier: Fixed,
    ) -> Fixed {
        spec_building_production(
            count,
            self.base_production,
            level,
            self.level_bonus,
            global_multiplier,
        )
    }

    /// The price of the next unit as a ledger: in the resource the building
    /// yields, nothing of the others.
    pub open spec fn spec_cost_as_resources(self, count: u32) -> Resources {
        self.resource_type.spec_only(self.spec_next_cost(count))
    }

    /// The price of the next unit when `count` are owned.
    pub fn next_cost(&self, count: u32) -> (cost: Fixed)
        ensures
            cost == self.spec_next_cost(count),
    {
        building_cost(self.base_cost, self.cost_multiplier, count)
    }

    /// What `count` units at `level` yield per tick under a multiplier.
    pub fn production_per_tick(&self, count: u32, level: u32, global_multiplier: Fixed) -> (p: Fixed)
        ensures
            p == self.spec_production_per_tick(count, level, global_multiplier),
            p <= FIXED_MAX,
    {
        building_production(
            count,
            self.base_production,
            level,
            self.level_bonus,
            global_multiplier,
        )
    }

    /// The price of the next unit as a ledger.
    pub fn cost_as_resources(&self, count: u32) -> (cost: Resources)
        ensures
            cost == self.spec_cost_as_resources(count),
    {
        let cost = self.next_cost(count);
        self.resource_type.only(cost)
    }
}

/// A definition from its columns: kind, name, description, base price,
/// price growth ratio, base yield per tick, yield bonus per level, resource,
/// unlock threshold and tier. Quantities are in millionths.
pub open spec fn spec_def(
    kind: BuildingKind,
    name: &'static str,
    description: &'static str,
    base_cost: Fixed,
    cost_multiplier: Fixed,
    base_production: Fixed,
    level_bonus: Fixed,
    resource_type: ResourceType,
    unlock_threshold: Fixed,
    tier: u8,
) -> BuildingDef {
    BuildingDef {
        kind,
        name,
        description,
        base_cost,
        cost_multiplier,
        base_production,
        level_bonus,
        resource_type,
        unlock_threshold,
        tier,
    }
}

/// The catalog: the definition of each kind of building.
pub open spec fn spec_building_def(kind: BuildingKind) -> BuildingDef {
    match kind {
        BuildingKind::RaspberryPi => spec_def(
            kind,
            "Raspberry Pi",
            "A tiny single-board computer",
            10_000_000,
            1_150_000,
            500_000,
            500_000,
            ResourceType::Compute,
            0,
            1,
        ),
        BuildingKind::HomeRouter => spec_def(
            kind,
            "Home Router",
            "Basic network connectivity",
            15_000_000,
            1_150_000,
            300_000,
            500_000,
            ResourceType::Bandwidth,
            0,
            1,
        ),
        BuildingKind::USBDrive => spec_def(
            kind,
            "USB Drive",
            "Portable storage",
            20_000_000,
            1_150_000,
            200_000,
            500_000,
            ResourceType::Storage,
            0,
            1,
        ),
        BuildingKind::VPS => spec_def(
            kind,
            "VPS",
            "Virtual private server",
            100_000_000,
            1_150_000,
            4_000_000,
            500_000,
            ResourceType::Compute,
            1_000_000_000,
            2,
        ),
        BuildingKind::FiberConnection => spec_def(
            kind,
            "Fiber Connection",
            "High-speed fiber optic link",
            150_000_000,
            1_150_000,
            2_500_000,
            500_000,
            ResourceType::Bandwidth,
            1_000_000_000,
            2,
        ),
        BuildingKind::NASBox => spec_def(
            kind,
            "NAS Box",
            "Network-attached storage",
            200_000_000,
            1_150_000,
            1_500_000,
            500_000,
            ResourceType::Storage,
            1_000_000_000,
            2,
        ),
        BuildingKind::DedicatedServer => spec_def(
            kind,
            "Dedicated Server",
            "Full rack-mounted server",
            1_000_000_000,
            1_150_000,
            30_000_000,
            500_000,
            ResourceType::Compute,
            100_000_000_000,
            3,
        ),
        BuildingKind::LoadBalancer => spec_def(
            kind,
            "Load Balancer",
            "Distributes network traffic",
            1_500_000_000,
            1_150_000,
            20_000_000,
            500_000,
            ResourceType::Bandwidth,
            100_000_000_000,
            3,
        ),
        BuildingKind::SANArray => spec_def(
            kind,
            "SAN Array",
            "Storage area network",
            2_000_000_000,
            1_150_000,
            12_000_000,
            500_000,
            ResourceType::Storage,
            100_000_000_000,
            3,
        ),
        BuildingKind::ServerCluster => spec_def(
            kind,
            "Server Cluster",
            "Clustered compute nodes",
            10_000_000_000,
            1_150_000,
            200_000_000,
            500_000,
            ResourceType::Compute,
            10_000_000_000_000,
            4,
        ),
        BuildingKind::CDN => spec_def(
            kind,
            "CDN",
            "Content delivery network",
            15_000_000_000,
            1_150_000,
            130_000_000,
            500_000,
            ResourceType::Bandwidth,
            10_000_000_000_000,
            4,
        ),
        BuildingKind::DataWarehouse => spec_def(
            kind,
            "Data Warehouse",
            "Enterprise data storage",
            20_000_000_000,
            1_150_000,
            80_000_000,
            500_000,
            ResourceType::Storage,
            10_000_000_000_000,
            4,
        ),
        BuildingKind::Datacenter => spec_def(
            kind,
            "Datacenter",
            "Full-scale data center",
            100_000_000_000,
            1_150_000,
            1_500_000_000,
            500_000,
            ResourceType::Compute,
            1_000_000_000_000_000,
            5,
        ),
        BuildingKind::BackboneLink => spec_def(
            kind,
            "Backbone Link",
            "Internet backbone connection",
            150_000_000_000,
            1_150_000,
            1_000_000_000,
            500_000,
            ResourceType::Bandwidth,
            1_000_000_000_000_000,
            5,
        ),
        BuildingKind::ObjectStorage => spec_def(
            kind,
            "Object Storage",
            "Cloud object store (S3-like)",
            200_000_000_000,
            1_150_000,
            600_000_000,
            500_000,
            ResourceType::Storage,
            1_000_000_000_000_000,
            5,
        ),
        BuildingKind::CloudRegion => spec_def(
            kind,
            "Cloud Region",
            "Entire cloud availability zone",
            1_000_000_000_000,
            1_150_000,
            10_000_000_000,
            500_000,
            ResourceType::Compute,
            1_000_000_000_000_000_000,
            6,
        ),
        BuildingKind::SubmarineCable => spec_def(
            kind,
            "Submarine Cable",
            "Undersea fiber optic cable",
            1_500_000_000_000,
            1_150_000,
            7_000_000_000,
            500_000,
            ResourceType::Bandwidth,
            1_000_000_000_000_000_000,
            6,
        ),
        BuildingKind::DistributedFS => spec_def(
            kind,
            "Distributed FS",
            "Planet-scale filesystem",
            2_000_000_000_000,
            1_150_000,
            4_500_000_000,
            500_000,
            ResourceType::Storage,
            1_000_000_000_000_000_000,
            6,
        ),
        BuildingKind::CICDPipeline => spec_def(
            kind,
            "CI/CD Pipeline",
            "Automates all production (+10% global)",
            5_000_000_000,
            1_200_000,
            0,
            0,
            ResourceType::Compute,
            50_000_000_000,
            3,
        ),
        BuildingKind::MonitoringStack => spec_def(
            kind,
            "Monitoring Stack",
            "Generates bonus events",
            3_000_000_000,
            1_200_000,
            5_000_000,
            500_000,
            ResourceType::Compute,
            25_000_000_000,
            2,
        ),
        BuildingKind::CryptoMiner => spec_def(
            kind,
            "Crypto Miner",
            "Mines cryptocurrency",
            50_000_000_000,
            1_200_000,
            100_000,
            500_000,
            ResourceType::Crypto,
            1_000_000_000_000_000,
            5,
        ),
    }
}

/// A definition from its columns, in the order of `spec_def`.
fn def(
    kind: BuildingKind,
    name: &'static str,
    description: &'static str,
    base_cost: Fixed,
    cost_multiplier: Fixed,
    base_production: Fixed,
    level_bonus: Fixed,
    resource_type: ResourceType,
    unlock_threshold: Fixed,
    tier: u8,
) -> (d: BuildingDef)
    ensures
        d == spec_def(
            kind,
            name,
            description,
            base_cost,
            cost_multiplier,
            base_production,
            level_bonus,
            resource_type,
            unlock_threshold,
            tier,
        ),
{
    BuildingDef {
        kind,
        name,
        description,
        base_cost,
        cost_multiplier,
        base_production,
        level_bonus,
        resource_type,
        unlock_threshold,
        tier,
    }
}

/// The definition of one kind of building.
pub fn building_def(kind: BuildingKind) -> (d: BuildingDef)
    ensures
        d == spec_building_def(kind),
        d.kind == kind,
{
    match kind {
        BuildingKind::RaspberryPi => def(
            kind,
            "Raspberry Pi",
            "A tiny single-board computer",
            10_000_000,
            1_150_000,
            500_000,
            500_000,
            ResourceType::Compute,
            0,
            1,
        ),
        BuildingKind::HomeRouter => def(
            kind,
            "Home Router",
            "Basic network connectivity",
            15_000_000,
            1_150_000,
            300_000,
            500_000,
            ResourceType::Bandwidth,
            0,
            1,
        ),
        BuildingKind::USBDrive => def(
            kind,
            "USB Drive",
            "Portable storage",
            20_000_000,
            1_150_000,
            200_000,
            500_000,
            ResourceType::Storage,
            0,
            1,
        ),
        BuildingKind::VPS => def(
            kind,
            "VPS",
            "Virtual private server",
            100_000_000,
            1_150_000,
            4_000_000,
            500_000,
            ResourceType::Compute,
            1_000_000_000,
            2,
        ),
        BuildingKind::FiberConnection => def(
            kind,
            "Fiber Connection",
            "High-speed fiber optic link",
            150_000_000,
            1_150_000,
            2_500_000,
            500_000,
            ResourceType::Bandwidth,
            1_000_000_000,
            2,
        ),
        BuildingKind::NASBox => def(
            kind,
            "NAS Box",
            "Network-attached storage",
            200_000_000,
            1_150_000,
            1_500_000,
            500_000,
            ResourceType::Storage,
            1_000_000_000,
            2,
        ),
        BuildingKind::DedicatedServer => def(
            kind,
            "Dedicated Server",
            "Full rack-mounted server",
            1_000_000_000,
            1_150_000,
            30_000_000,
            500_000,
            ResourceType::Compute,
            100_000_000_000,
            3,
        ),
        BuildingKind::LoadBalancer => def(
            kind,
            "Load Balancer",
            "Distributes network traffic",
            1_500_000_000,
            1_150_000,
            20_000_000,
            500_000,
            ResourceType::Bandwidth,
            100_000_000_000,
            3,
        ),
        BuildingKind::SANArray => def(
            kind,
            "SAN Array",
            "Storage area network",
            2_000_000_000,
            1_150_000,
            12_000_000,
            500_000,
            ResourceType::Storage,
            100_000_000_000,
            3,
        ),
        BuildingKind::ServerCluster => def(
            kind,
            "Server Cluster",
            "Clustered compute nodes",
            10_000_000_000,
            1_150_000,
            200_000_000,
            500_000,
            ResourceType::Compute,
            10_000_000_000_000,
            4,
        ),
        BuildingKind::CDN => def(
            kind,
            "CDN",
            "Content delivery network",
            15_000_000_000,
            1_150_000,
            130_000_000,
            500_000,
            ResourceType::Bandwidth,
            10_000_000_000_000,
            4,
        ),
        BuildingKind::DataWarehouse => def(
            kind,
            "Data Warehouse",
            "Enterprise data storage",
            20_000_000_000,
            1_150_000,
            80_000_000,
            500_000,
            ResourceType::Storage,
            10_000_000_000_000,
            4,
        ),
        BuildingKind::Datacenter => def(
            kind,
            "Datacenter",
            "Full-scale data center",
            100_000_000_000,
            1_150_000,
            1_500_000_000,
            500_000,
            ResourceType::Compute,
            1_000_000_000_000_000,
            5,
        ),
        BuildingKind::BackboneLink => def(
            kind,
            "Backbone Link",
            "Internet backbone connection",
            150_000_000_000,
            1_150_000,
            1_000_000_000,
            500_000,
            ResourceType::Bandwidth,
            1_000_000_000_000_000,
            5,
        ),
        BuildingKind::ObjectStorage => def(
            kind,
            "Object Storage",
            "Cloud object store (S3-like)",
            200_000_000_000,
            1_150_000,
            600_000_000,
            500_000,
            ResourceType::Storage,
            1_000_000_000_000_000,
            5,
        ),
        BuildingKind::CloudRegion => def(
            kind,
            "Cloud Region",
            "Entire cloud availability zone",
            1_000_000_000_000,
            1_150_000,
            10_000_000_000,
            500_000,
            ResourceType::Compute,
            1_000_000_000_000_000_000,
            6,
        ),
        BuildingKind::SubmarineCable => def(
            kind,
            "Submarine Cable",
            "Undersea fiber optic cable",
            1_500_000_000_000,
            1_150_000,
            7_000_000_000,
            500_000,
            ResourceType::Bandwidth,
            1_000_000_000_000_000_000,
            6,
        ),
        BuildingKind::DistributedFS => def(
            kind,
            "Distributed FS",
            "Planet-scale filesystem",
            2_000_000_000_000,
            1_150_000,
            4_500_000_000,
            500_000,
            ResourceType::Storage,
            1_000_000_000_000_000_000,
            6,
        ),
        BuildingKind::CICDPipeline => def(
            kind,
            "CI/CD Pipeline",
            "Automates all production (+10% global)",
            5_000_000_000,
            1_200_000,
            0,
            0,
            ResourceType::Compute,
            50_000_000_000,
            3,
        ),
        BuildingKind::MonitoringStack => def(
            kind,
            "Monitoring Stack",
            "Generates bonus events",
            3_000_000_000,
            1_200_000,
            5_000_000,
            500_000,
            ResourceType::Compute,
            25_000_000_000,
            2,
        ),
        BuildingKind::CryptoMiner => def(
            kind,
            "Crypto Miner",
            "Mines cryptocurrency",
            50_000_000_000,
            1_200_000,
            100_000,
            500_000,
            ResourceType::Crypto,
            1_000_000_000_000_000,
            5,
        ),
    }
}

/// The whole catalog, one definition per kind, in catalog order.
pub fn all_building_defs() -> (defs: Vec<BuildingDef>)
    ensures
        defs@.len() == KIND_COUNT,
        forall|i: int|
            0 <= i < KIND_COUNT ==> #[trigger] defs@[i] == spec_building_def(
                BuildingKind::spec_from_index(i),
            ),
{
    let mut defs: Vec<BuildingDef> = Vec::new();
    let mut i: usize = 0;
    while i < KIND_COUNT
        invariant
            i <= KIND_COUNT,
            defs@.len() == i,
            forall|j: int|
                0 <= j < i ==> #[trigger] defs@[j] == spec_building_def(
                    BuildingKind::spec_from_index(j),
                ),
        decreases KIND_COUNT - i,
    {
        match BuildingKind::from_index(i) {
            Some(kind) => {
                defs.push(building_def(kind));
            },
            None => {},
        }
        i = i + 1;
    }
    defs
}

/// Every definition of the catalog is within the limits the economy
/// relies on: prices start at one unit or more and grow, and every quantity
/// is within range.
pub proof fn lemma_catalog_is_sound(kind: BuildingKind)
    ensures
        spec_building_def(kind).kind == kind,
        SCALE <= spec_building_def(kind).base_cost <= FIXED_MAX,
        spec_building_def(kind).cost_multiplier > SCALE,
        spec_building_def(kind).base_cost as int * (spec_building_def(kind).cost_multiplier
            - SCALE) >= SCALE as int,
        1 <= spec_building_def(kind).tier <= 6,
{
    let d = spec_building_def(kind);
    assert(d.base_cost as int * (d.cost_multiplier - 1_000_000) >= 1_000_000) by (nonlinear_arith)
        requires
            d.base_cost >= 1_000_000,
            d.cost_multiplier > 1_000_000,
    ;
}

} // verus!
