//! Trouble in Mineville: event payloads and the mode's extension handler.

use vstd::prelude::*;

use crate::event::BukkitDamageCause;
use crate::event::EventType;
use crate::event::ExtensionPayload;
use crate::event::spec_bukkit_damage_desc;
use crate::gamelog::GameLogExtension;
use crate::log::GameLog;

verus! {

/// How a player died.
#[derive(Clone, Copy, PartialEq, Eq, Structural, Debug)]
pub enum DeathCause {
    Bukkit,
    Claymore,
    SuicideBomb,
    TraitorTrap,
    Creeper,
    Wolf,
    TesterBomb,
    Cat,
    EnderChest,
    Zombie,
}

/// A player death, with the mode's own cause taxonomy; a generic death
/// defers to the server's damage cause.
pub struct DeathEvent {
    pub player: String,
    pub cause: DeathCause,
    pub last_damage_cause: BukkitDamageCause,
}

/// A player using the tester.
pub struct TestEvent {
    pub player: String,
}

/// A body being found.
pub struct BodyEvent {
    pub player: String,
}

/// A traitor trap being triggered.
pub struct TrapEvent {
    pub player: String,
}

/// The detective inspecting a body.
pub struct DetectiveBodyEvent {
    pub player: String,
}

/// A psychic subrole report.
pub struct SubrolePsychicReportEvent {
    pub player: String,
}

/// A purchase made with shared points.
pub struct SharedPointsPurchaseEvent {
    pub player: String,
}

/// The display label for a death cause.
pub open spec fn spec_timv_damage_desc(e: DeathEvent) -> Seq<char> {
    match e.cause {
        DeathCause::Bukkit => spec_bukkit_damage_desc(e.last_damage_cause),
        DeathCause::Claymore => "Claymore"@,
        DeathCause::SuicideBomb => "Suicide Bomb"@,
        DeathCause::TraitorTrap => "Trap"@,
        DeathCause::Creeper => "Creepers"@,
        DeathCause::Wolf => "Wolf"@,
        DeathCause::TesterBomb => "Tester Bomb"@,
        DeathCause::Cat => "Cat"@,
        DeathCause::EnderChest => "Ender Chest"@,
        DeathCause::Zombie => "Zombie"@,
    }
}

impl DeathEvent {
    /// The display label of this death's cause.
    pub fn get_damage_desc(&self) -> (r: &'static str)
        ensures
            r@ == spec_timv_damage_desc(*self),
    {
        match self.cause {
            DeathCause::Bukkit => self.last_damage_cause.get_damage_desc(),
            DeathCause::Claymore => "Claymore",
            DeathCause::SuicideBomb => "Suicide Bomb",
            DeathCause::TraitorTrap => "Trap",
            DeathCause::Creeper => "Creepers",
            DeathCause::Wolf => "Wolf",
            DeathCause::TesterBomb => "Tester Bomb",
            DeathCause::Cat => "Cat",
            DeathCause::EnderChest => "Ender Chest",
            DeathCause::Zombie => "Zombie",
        }
    }
}

/// The Trouble in Mineville extension handler.  Stateless.
#[derive(Clone, Copy)]
pub struct TimvExtension {}

/// What this mode's probe yields: its own tags, in the order death,
/// test, body, trap, detective, psychic, shared purchase; anything else
/// is `Unknown`.
pub open spec fn spec_parse_timv(p: ExtensionPayload) -> EventType {
    match p {
        ExtensionPayload::TimvDeath(e) => EventType::TimvDeath(e),
        ExtensionPayload::TimvTest(e) => EventType::TimvTest(e),
        ExtensionPayload::TimvBody(e) => EventType::TimvBody(e),
        ExtensionPayload::TimvTrap(e) => EventType::TimvTrap(e),
        ExtensionPayload::TimvDetectiveBody(e) => EventType::TimvDetectiveBody(e),
        ExtensionPayload::TimvPsychicReport(e) => EventType::TimvPsychicReport(e),
        ExtensionPayload::TimvSharedPurchase(e) => EventType::TimvSharedPurchase(e),
        _ => EventType::Unknown,
    }
}

/// How this mode classifies events for display.
pub open spec fn spec_timv_box_color(e: EventType) -> Seq<char> {
    match e {
        EventType::TimvTest(_) => "list-group-item-primary"@,
        EventType::TimvTrap(_) => "list-group-item-danger"@,
        EventType::TimvBody(_) => "list-group-item-warning"@,
        EventType::TimvDeath(_) => "list-group-item-secondary"@,
        EventType::TimvDetectiveBody(_) => "list-group-item-primary"@,
        EventType::TimvPsychicReport(_) => "list-group-item-primary"@,
        EventType::TimvSharedPurchase(_) => "list-group-item-primary"@,
        _ => ""@,
    }
}

impl GameLogExtension for TimvExtension {
    /// Probes the payload for this mode's tags, in the order death, test,
    /// body, trap, detective, psychic, shared purchase.
    fn parse_event(&self, payload: ExtensionPayload) -> (r: EventType)
        ensures
            r == spec_parse_timv(payload),
    {
        match payload {
            ExtensionPayload::TimvDeath(e) => EventType::TimvDeath(e),
            ExtensionPayload::TimvTest(e) => EventType::TimvTest(e),
            ExtensionPayload::TimvBody(e) => EventType::TimvBody(e),
            ExtensionPayload::TimvTrap(e) => EventType::TimvTrap(e),
            ExtensionPayload::TimvDetectiveBody(e) => EventType::TimvDetectiveBody(e),
            ExtensionPayload::TimvPsychicReport(e) => EventType::TimvPsychicReport(e),
            ExtensionPayload::TimvSharedPurchase(e) => EventType::TimvSharedPurchase(e),
            _ => EventType::Unknown,
        }
    }

    fn get_box_color(&self, event: &EventType) -> (r: &'static str)
        ensures
            r@ == spec_timv_box_color(*event),
    {
        match event {
            EventType::TimvTest(_) => "list-group-item-primary",
            EventType::TimvTrap(_) => "list-group-item-danger",
            EventType::TimvBody(_) => "list-group-item-warning",
            EventType::TimvDeath(_) => "list-group-item-secondary",
            EventType::TimvDetectiveBody(_)
            | EventType::TimvPsychicReport(_)
            | EventType::TimvSharedPurchase(_) => "list-group-item-primary",
            _ => "",
        }
    }

    fn supports_score(&self) -> (r: bool)
        ensures
            !r,
    {
        false
    }

    fn get_map(&self, log: &GameLog) -> (r: String)
        ensures
            r@ == log.map@,
    {
        log.map.clone()
    }
}

} // verus!
