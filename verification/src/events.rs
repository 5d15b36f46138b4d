//! Random events: which event a tick brings, and what it does to the
//! ledger at once.

use vstd::prelude::*;
use vstd::string::StringExecFns;
use rand::rngs::StdRng;
use crate::buildings::BuildingKind;
use crate::fixed::{fixed_add, fixed_mul, fixed_sub, spec_add, spec_mul, spec_sub, Fixed, SCALE};
use crate::format::{fixed_text, push_decimal, spec_decimal, spec_fixed_text};
use crate::random::random_below;
use crate::resources::Resources;

verus! {

/// The resource a bonus drop credits.
#[derive(Debug, Clone, Copy, PartialEq, Eq)]
pub enum BonusResource {
    Compute,
    Bandwidth,
    Storage,
}

/// What happened. Quantities and multipliers are in millionths.
#[derive(Debug, Clone, Copy, PartialEq, Eq)]
pub enum GameEventKind {
    ServerOverloaded(BuildingKind),
    DDoSAttack { severity: u8 },
    ViralRepo { bonus_reputation: Fixed },
    SecurityBreach { lost_compute: Fixed },
    TrafficSpike { multiplier: Fixed, duration_ticks: u32 },
    HardwareFailure(BuildingKind),
    BonusDrop { resource: BonusResource, amount: Fixed },
    OpenSourceContribution { bonus_reputation: Fixed },
}

/// An event and the tick at which it fired.
#[derive(Debug, Clone, Copy, PartialEq, Eq)]
pub struct GameEvent {
    pub kind: GameEventKind,
    pub tick: u64,
}

/// How an event is shown in the log.
#[derive(Debug, Clone, Copy, PartialEq, Eq)]
pub enum EventSeverity {
    Good,
    Warning,
    Error,
}

/// The eight kinds of event, as the bands of a roll out of a hundred.
#[derive(Debug, Clone, Copy, PartialEq, Eq)]
pub enum EventBand {
    BonusDrop,
    TrafficSpike,
    ViralRepo,
    OpenSource,
    DDoS,
    SecurityBreach,
    ServerOverloaded,
    HardwareFailure,
}

/// The number of outcomes of the draw that decides whether an event fires.
pub const CHANCE_SCALE: u32 = 1_000_000;

/// Out of `CHANCE_SCALE`, the chance per tick that an event fires.
pub const BASE_EVENT_CHANCE: u64 = 5_000;

/// What each monitoring stack adds to that chance.
pub const MONITORING_BONUS: u64 = 2_000;

/// The number of outcomes of the roll that picks the kind of event.
pub const ROLL_SCALE: u32 = 100;

/// The share of the bandwidth that a DDoS attack drains per point of severity.
pub const DDOS_DRAIN: Fixed = 50_000;

/// The chance, out of `CHANCE_SCALE`, that a tick brings an event.
pub open spec fn spec_event_chance(monitoring_count: u32) -> int {
    BASE_EVENT_CHANCE as int + monitoring_count as int * MONITORING_BONUS as int
}

/// An event fires when the draw is below the chance.
pub open spec fn spec_event_fires(draw: u32, monitoring_count: u32) -> bool {
    (draw as int) < spec_event_chance(monitoring_count)
}

/// The band of a roll: a quarter bonus drops, then 15 traffic spikes, 10
/// viral repositories, 10 open-source contributions, 15 DDoS attacks, 10
/// security breaches, 10 overloads, and hardware failures for the rest.
pub open spec fn spec_event_band(roll: u32) -> EventBand {
    if roll < 25 {
        EventBand::BonusDrop
    } else if roll < 40 {
        EventBand::TrafficSpike
    } else if roll < 50 {
        EventBand::ViralRepo
    } else if roll < 60 {
        EventBand::OpenSource
    } else if roll < 75 {
        EventBand::DDoS
    } else if roll < 85 {
        EventBand::SecurityBreach
    } else if roll < 95 {
        EventBand::ServerOverloaded
    } else {
        EventBand::HardwareFailure
    }
}

/// The number of outcomes of the first parameter draw of a band.
pub open spec fn spec_first_bound(band: EventBand) -> u32 {
    match band {
        EventBand::BonusDrop => 3,
        EventBand::TrafficSpike => 1_500_000,
        EventBand::ViralRepo => 5_000_000,
        EventBand::OpenSource => 2_000_000,
        EventBand::DDoS => 5,
        _ => 1,
    }
}

/// The number of outcomes of the second parameter draw of a band.
pub open spec fn spec_second_bound(band: EventBand) -> u32 {
    match band {
        EventBand::TrafficSpike => 40,
        _ => 1,
    }
}

/// The event of a band with its parameters drawn:
/// a bonus drop of one percent of the compute held plus ten units, to one
/// of three resources; a traffic spike of 1.5 to 3.0 times for 20 to 59
/// ticks; 1.0 to 6.0 reputation for a viral repository and 0.5 to 2.5 for
/// a contribution; a DDoS attack of severity 1 to 5; a breach that costs
/// two percent of the compute held.
pub open spec fn spec_event_kind(
    band: EventBand,
    first: u32,
    second: u32,
    total_compute: Fixed,
) -> GameEventKind {
    match band {
        EventBand::BonusDrop => GameEventKind::BonusDrop {
            resource: if first == 0 {
                BonusResource::Compute
            } else if first == 1 {
                BonusResource::Bandwidth
            } else {
                BonusResource::Storage
            },
            amount: spec_add(spec_mul(total_compute, 10_000), 10_000_000),
        },
        EventBand::TrafficSpike => GameEventKind::TrafficSpike {
            multiplier: (1_500_000 + first) as Fixed,
            duration_ticks: (20 + second) as u32,
        },
        EventBand::ViralRepo => GameEventKind::ViralRepo {
            bonus_reputation: (1_000_000 + first) as Fixed,
        },
        EventBand::OpenSource => GameEventKind::OpenSourceContribution {
            bonus_reputation: (500_000 + first) as Fixed,
        },
        EventBand::DDoS => GameEventKind::DDoSAttack { severity: (1 + first) as u8 },
        EventBand::SecurityBreach => GameEventKind::SecurityBreach {
            lost_compute: spec_mul(total_compute, 20_000),
        },
        EventBand::ServerOverloaded => GameEventKind::ServerOverloaded(BuildingKind::RaspberryPi),
        EventBand::HardwareFailure => GameEventKind::HardwareFailure(BuildingKind::VPS),
    }
}

/// What the four draws of a tick give: nothing where the event does not
/// fire, else the event of the rolled band at this tick.
pub open spec fn spec_event_from_draws(
    trigger: u32,
    roll: u32,
    first: u32,
    second: u32,
    tick: u64,
    monitoring_count: u32,
    total_compute: Fixed,
) -> Option<GameEvent> {
    if spec_event_fires(trigger, monitoring_count) {
        Some(
            GameEvent {
                kind: spec_event_kind(spec_event_band(roll), first, second, total_compute),
                tick,
            },
        )
    } else {
        None
    }
}

/// An event that some roll and some parameter draws give with this much
/// compute held.
pub open spec fn spec_possible_event(kind: GameEventKind, total_compute: Fixed) -> bool {
    exists|band: EventBand, first: u32, second: u32|
        first < spec_first_bound(band) && second < spec_second_bound(band) && kind
            == #[trigger] spec_event_kind(band, first, second, total_compute)
}

/// The ledger after the immediate effect of an event: a DDoS attack drains
/// a twentieth of the bandwidth per point of severity, a breach takes its
/// compute, both stopping at zero; reputation bonuses and bonus drops are
/// credited; the other kinds change nothing at once.
pub open spec fn spec_apply_event(event: GameEventKind, resources: Resources) -> Resources {
    match event {
        GameEventKind::DDoSAttack { severity } => Resources {
            bandwidth: spec_sub(
                resources.bandwidth,
                spec_mul(resources.bandwidth, (DDOS_DRAIN * severity) as Fixed),
            ),
            ..resources
        },
        GameEventKind::SecurityBreach { lost_compute } => Resources {
            compute: spec_sub(resources.compute, lost_compute),
            ..resources
        },
        GameEventKind::ViralRepo { bonus_reputation } => Resources {
            reputation: spec_add(resources.reputation, bonus_reputation),
            ..resources
        },
        GameEventKind::OpenSourceContribution { bonus_reputation } => Resources {
            reputation: spec_add(resources.reputation, bonus_reputation),
            ..resources
        },
        GameEventKind::BonusDrop { resource, amount } => match resource {
            BonusResource::Compute => Resources {
                compute: spec_add(resources.compute, amount),
                ..resources
            },
            BonusResource::Bandwidth => Resources {
                bandwidth: spec_add(resources.bandwidth, amount),
                ..resources
            },
            BonusResource::Storage => Resources {
                storage: spec_add(resources.storage, amount),
                ..resources
            },
        },
        _ => resources,
    }
}

impl GameEventKind {
    /// How the event is shown: gains are good, attacks and breaches are
    /// errors, the rest warnings.
    pub open spec fn spec_severity(self) -> EventSeverity {
        match self {
            GameEventKind::ServerOverloaded(_) => EventSeverity::Warning,
            GameEventKind::DDoSAttack { .. } => EventSeverity::Error,
            GameEventKind::ViralRepo { .. } => EventSeverity::Good,
            GameEventKind::SecurityBreach { .. } => EventSeverity::Error,
            GameEventKind::TrafficSpike { .. } => EventSeverity::Good,
            GameEventKind::HardwareFailure(_) => EventSeverity::Warning,
            GameEventKind::BonusDrop { .. } => EventSeverity::Good,
            GameEventKind::OpenSourceContribution { .. } => EventSeverity::Good,
        }
    }

    /// How the event is shown in the log.
    pub fn severity_color(&self) -> (s: EventSeverity)
        ensures
            s == self.spec_severity(),
    {
        match self {
            GameEventKind::ServerOverloaded(_) => EventSeverity::Warning,
            GameEventKind::DDoSAttack { .. } => EventSeverity::Error,
            GameEventKind::ViralRepo { .. } => EventSeverity::Good,
            GameEventKind::SecurityBreach { .. } => EventSeverity::Error,
            GameEventKind::TrafficSpike { .. } => EventSeverity::Good,
            GameEventKind::HardwareFailure(_) => EventSeverity::Warning,
            GameEventKind::BonusDrop { .. } => EventSeverity::Good,
            GameEventKind::OpenSourceContribution { .. } => EventSeverity::Good,
        }
    }
}

impl BonusResource {
    /// The name of the resource in the log.
    pub open spec fn spec_name(self) -> Seq<char> {
        match self {
            BonusResource::Compute => "compute"@,
            BonusResource::Bandwidth => "bandwidth"@,
            BonusResource::Storage => "storage"@,
        }
    }

    /// The name of the resource in the log.
    pub fn name(self) -> (name: &'static str)
        ensures
            name@ == self.spec_name(),
    {
        match self {
            BonusResource::Compute => "compute",
            BonusResource::Bandwidth => "bandwidth",
            BonusResource::Storage => "storage",
        }
    }
}

impl GameEventKind {
    /// The line that the log shows for the event: quantities rounded to
    /// whole units, a multiplier to one decimal, a duration in seconds.
    pub open spec fn spec_description(self) -> Seq<char> {
        match self {
            GameEventKind::ServerOverloaded(kind) => "Server overloaded: "@
                + kind.spec_identifier() + " throttled"@,
            GameEventKind::DDoSAttack { severity } => "DDoS attack! Severity "@ + spec_decimal(
                severity as nat,
            ) + "/10 - bandwidth drain"@,
            GameEventKind::ViralRepo { bonus_reputation } => "Repo went viral! +"@
                + spec_fixed_text(bonus_reputation, 0) + " reputation"@,
            GameEventKind::SecurityBreach { lost_compute } => "Security breach! Lost "@
                + spec_fixed_text(lost_compute, 0) + " compute"@,
            GameEventKind::TrafficSpike { multiplier, duration_ticks } => "Traffic spike! x"@
                + spec_fixed_text(multiplier, 1) + " production for "@ + spec_decimal(
                (duration_ticks / 4) as nat,
            ) + "s"@,
            GameEventKind::HardwareFailure(kind) => "Hardware failure: "@ + kind.spec_identifier()
                + " offline temporarily"@,
            GameEventKind::BonusDrop { resource, amount } => "Bonus drop! +"@ + spec_fixed_text(
                amount,
                0,
            ) + " "@ + resource.spec_name(),
            GameEventKind::OpenSourceContribution { bonus_reputation } =>
                "Open source PR merged! +"@ + spec_fixed_text(bonus_reputation, 0)
                    + " reputation"@,
        }
    }

    /// The line that the log shows for the event.
    pub fn description(&self) -> (text: String)
        ensures
            text@ == self.spec_description(),
            text@.len() > 0,
    {
        proof {
            reveal_strlit("Server overloaded: ");
            reveal_strlit("DDoS attack! Severity ");
            reveal_strlit("Repo went viral! +");
            reveal_strlit("Security breach! Lost ");
            reveal_strlit("Traffic spike! x");
            reveal_strlit("Hardware failure: ");
            reveal_strlit("Bonus drop! +");
            reveal_strlit("Open source PR merged! +");
        }
        match self {
            GameEventKind::ServerOverloaded(kind) => {
                let mut text = String::from_str("Server overloaded: ");
                text.append(kind.identifier());
                text.append(" throttled");
                text
            },
            GameEventKind::DDoSAttack { severity } => {
                let mut text = String::from_str("DDoS attack! Severity ");
                push_decimal(&mut text, *severity as u128);
                text.append("/10 - bandwidth drain");
                text
            },
            GameEventKind::ViralRepo { bonus_reputation } => {
                let mut text = String::from_str("Repo went viral! +");
                text.append(fixed_text(*bonus_reputation, 0).as_str());
                text.append(" reputation");
                text
            },
            GameEventKind::SecurityBreach { lost_compute } => {
                let mut text = String::from_str("Security breach! Lost ");
                text.append(fixed_text(*lost_compute, 0).as_str());
                text.append(" compute");
                text
            },
            GameEventKind::TrafficSpike { multiplier, duration_ticks } => {
                let mut text = String::from_str("Traffic spike! x");
                text.append(fixed_text(*multiplier, 1).as_str());
                text.append(" production for ");
                push_decimal(&mut text, (*duration_ticks / 4) as u128);
                text.append("s");
                text
            },
            GameEventKind::HardwareFailure(kind) => {
                let mut text = String::from_str("Hardware failure: ");
                text.append(kind.identifier());
                text.append(" offline temporarily");
                text
            },
            GameEventKind::BonusDrop { resource, amount } => {
                let mut text = String::from_str("Bonus drop! +");
                text.append(fixed_text(*amount, 0).as_str());
                text.append(" ");
                text.append(resource.name());
                text
            },
            GameEventKind::OpenSourceContribution { bonus_reputation } => {
                let mut text = String::from_str("Open source PR merged! +");
                text.append(fixed_text(*bonus_reputation, 0).as_str());
                text.append(" reputation");
                text
            },
        }
    }
}

/// Applies the immediate effect of an event to the ledger.
pub fn apply_event(event: &GameEventKind, resources: &mut Resources)
    ensures
        *final(resources) == spec_apply_event(*event, *old(resources)),
{
    match event {
        GameEventKind::DDoSAttack { severity } => {
            let share: Fixed = DDOS_DRAIN * (*severity as u128);
            let drain: Fixed = fixed_mul(resources.bandwidth, share);
            resources.bandwidth = fixed_sub(resources.bandwidth, drain);
        },
        GameEventKind::SecurityBreach { lost_compute } => {
            resources.compute = fixed_sub(resources.compute, *lost_compute);
        },
        GameEventKind::ViralRepo { bonus_reputation } => {
            resources.reputation = fixed_add(resources.reputation, *bonus_reputation);
        },
        GameEventKind::OpenSourceContribution { bonus_reputation } => {
            resources.reputation = fixed_add(resources.reputation, *bonus_reputation);
        },
        GameEventKind::BonusDrop { resource, amount } => match resource {
            BonusResource::Compute => {
                resources.compute = fixed_add(resources.compute, *amount);
            },
            BonusResource::Bandwidth => {
                resources.bandwidth = fixed_add(resources.bandwidth, *amount);
            },
            BonusResource::Storage => {
                resources.storage = fixed_add(resources.storage, *amount);
            },
        },
        _ => {},
    }
}

/// The chance, out of `CHANCE_SCALE`, that a tick brings an event.
pub fn event_chance(monitoring_count: u32) -> (chance: u64)
    ensures
        chance as int == spec_event_chance(monitoring_count),
        chance >= BASE_EVENT_CHANCE,
{
    BASE_EVENT_CHANCE + (monitoring_count as u64) * MONITORING_BONUS
}

/// The band of a roll out of a hundred.
pub fn event_band(roll: u32) -> (band: EventBand)
    ensures
        band == spec_event_band(roll),
{
    if roll < 25 {
        EventBand::BonusDrop
    } else if roll < 40 {
        EventBand::TrafficSpike
    } else if roll < 50 {
        EventBand::ViralRepo
    } else if roll < 60 {
        EventBand::OpenSource
    } else if roll < 75 {
        EventBand::DDoS
    } else if roll < 85 {
        EventBand::SecurityBreach
    } else if roll < 95 {
        EventBand::ServerOverloaded
    } else {
        EventBand::HardwareFailure
    }
}

/// The number of outcomes of the first parameter draw of a band.
pub fn first_bound(band: EventBand) -> (bound: u32)
    ensures
        bound == spec_first_bound(band),
        bound >= 1,
{
    match band {
        EventBand::BonusDrop => 3,
        EventBand::TrafficSpike => 1_500_000,
        EventBand::ViralRepo => 5_000_000,
        EventBand::OpenSource => 2_000_000,
        EventBand::DDoS => 5,
        _ => 1,
    }
}

/// The number of outcomes of the second parameter draw of a band.
pub fn second_bound(band: EventBand) -> (bound: u32)
    ensures
        bound == spec_second_bound(band),
        bound >= 1,
{
    match band {
        EventBand::TrafficSpike => 40,
        _ => 1,
    }
}

/// The event of a band with its parameters drawn.
pub fn event_kind(band: EventBand, first: u32, second: u32, total_compute: Fixed) -> (kind:
    GameEventKind)
    requires
        first < spec_first_bound(band),
        second < spec_second_bound(band),
    ensures
        kind == spec_event_kind(band, first, second, total_compute),
        spec_possible_event(kind, total_compute),
{
    match band {
        EventBand::BonusDrop => GameEventKind::BonusDrop {
            resource: if first == 0 {
                BonusResource::Compute
            } else if first == 1 {
                BonusResource::Bandwidth
            } else {
                BonusResource::Storage
            },
            amount: fixed_add(fixed_mul(total_compute, 10_000), 10_000_000),
        },
        EventBand::TrafficSpike => GameEventKind::TrafficSpike {
            multiplier: 1_500_000 + first as u128,
            duration_ticks: 20 + second,
        },
        EventBand::ViralRepo => GameEventKind::ViralRepo {
            bonus_reputation: SCALE + first as u128,
        },
        EventBand::OpenSource => GameEventKind::OpenSourceContribution {
            bonus_reputation: 500_000 + first as u128,
        },
        EventBand::DDoS => GameEventKind::DDoSAttack { severity: 1 + first as u8 },
        EventBand::SecurityBreach => GameEventKind::SecurityBreach {
            lost_compute: fixed_mul(total_compute, 20_000),
        },
        EventBand::ServerOverloaded => GameEventKind::ServerOverloaded(BuildingKind::RaspberryPi),
        EventBand::HardwareFailure => GameEventKind::HardwareFailure(BuildingKind::VPS),
    }
}

/// What the four draws of a tick give.
pub fn event_from_draws(
    trigger: u32,
    roll: u32,
    first: u32,
    second: u32,
    tick: u64,
    monitoring_count: u32,
    total_compute: Fixed,
) -> (event: Option<GameEvent>)
    requires
        first < spec_first_bound(spec_event_band(roll)),
        second < spec_second_bound(spec_event_band(roll)),
    ensures
        event == spec_event_from_draws(
            trigger,
            roll,
            first,
            second,
            tick,
            monitoring_count,
            total_compute,
        ),
{
    if (trigger as u64) < event_chance(monitoring_count) {
        Some(GameEvent { kind: event_kind(event_band(roll), first, second, total_compute), tick })
    } else {
        None
    }
}

/// Draws whether this tick brings an event and, if so, which. The outcome
/// is random: whatever is drawn, an event that fires carries this tick and
/// is one that the catalog of events allows with this much compute held;
/// with a chance of a whole, one always fires.
pub fn maybe_generate_event(
    rng: &mut StdRng,
    tick: u64,
    monitoring_count: u32,
    total_compute: Fixed,
) -> (event: Option<GameEvent>)
    ensures
        event matches Some(e) ==> e.tick == tick && spec_possible_event(e.kind, total_compute),
        spec_event_chance(monitoring_count) >= CHANCE_SCALE ==> event is Some,
{
    let trigger = random_below(rng, CHANCE_SCALE);
    if (trigger as u64) >= event_chance(monitoring_count) {
        return None;
    }
    let roll = random_below(rng, ROLL_SCALE);
    let band = event_band(roll);
    let first = random_below(rng, first_bound(band));
    let second = random_below(rng, second_bound(band));
    event_from_draws(trigger, roll, first, second, tick, monitoring_count, total_compute)
}

/// Events never leave a resource above the ceiling nor, the ledger being
/// unsigned, below zero; and no event lowers reputation or storage.
pub proof fn lemma_event_effect_is_bounded(event: GameEventKind, resources: Resources)
    requires
        resources.in_range(),
    ensures
        spec_apply_event(event, resources).in_range(),
        spec_apply_event(event, resources).reputation >= resources.reputation,
        spec_apply_event(event, resources).storage >= resources.storage,
        spec_apply_event(event, resources).crypto == resources.crypto,
{
}

} // verus!
