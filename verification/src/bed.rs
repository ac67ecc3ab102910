//! Bed Wars: event payloads and the mode's extension handler, which
//! carries the log's respawn flag.

use vstd::prelude::*;

use crate::event::BukkitDamageCause;
use crate::event::EventType;
use crate::event::ExtensionPayload;
use crate::event::spec_bukkit_damage_desc;
use crate::gamelog::GameLogExtension;
use crate::log::GameLog;

verus! {

/// How a player died.
#[derive(Clone, Copy, PartialEq, Eq, Structural, Debug)]
pub enum DeathCause {
    Bukkit,
    OwnedEntity,
    Disconnect,
    OutOfMap,
}

/// A player death, with the mode's own cause taxonomy; a generic death
/// defers to the server's damage cause.
pub struct DeathEvent {
    pub player: String,
    pub cause: DeathCause,
    pub last_damage_cause: BukkitDamageCause,
}

/// A player being eliminated for good.
pub struct EliminationEvent {
    pub player: String,
}

/// A team's bed being destroyed.
pub struct BedDestructionEvent {
    pub player: String,
}

/// The display label for a death cause.
pub open spec fn spec_bed_damage_desc(e: DeathEvent) -> Seq<char> {
    match e.cause {
        DeathCause::OwnedEntity => "Companion"@,
        DeathCause::Disconnect => "Disconnected"@,
        DeathCause::OutOfMap => "Out of Map"@,
        DeathCause::Bukkit => spec_bukkit_damage_desc(e.last_damage_cause),
    }
}

impl DeathEvent {
    /// The display label of this death's cause.
    pub fn get_damage_desc(&self) -> (r: &'static str)
        ensures
            r@ == spec_bed_damage_desc(*self),
    {
        match self.cause {
            DeathCause::OwnedEntity => "Companion",
            DeathCause::Disconnect => "Disconnected",
            DeathCause::OutOfMap => "Out of Map",
            DeathCause::Bukkit => self.last_damage_cause.get_damage_desc(),
        }
    }
}

/// The Bed Wars extension handler: remembers whether the log was recorded
/// with respawning enabled.
#[derive(Clone, Copy)]
pub struct BedExtension {
    pub respawn: bool,
}

/// The respawn flag a log carries for this mode; an absent auxiliary
/// field means no respawning.
pub open spec fn spec_bed_respawn(log: GameLog) -> bool {
    match log.respawn {
        Some(b) => b,
        None => false,
    }
}

impl BedExtension {
    /// Builds the handler from a log, taking the respawn flag from the
    /// mode's auxiliary field and falling back to `false`.
    pub fn new(log: &GameLog) -> (r: BedExtension)
        ensures
            r.respawn == spec_bed_respawn(*log),
    {
        BedExtension {
            respawn: match log.respawn {
                Some(b) => b,
                None => false,
            },
        }
    }

    /// Whether the log was recorded with respawning enabled.
    pub fn is_respawn(&self) -> (r: bool)
        ensures
            r == self.respawn,
    {
        self.respawn
    }
}

/// What this mode's probe yields: its own tags, in the order death,
/// elimination, bed destruction; anything else is `Unknown`.
pub open spec fn spec_parse_bed(p: ExtensionPayload) -> EventType {
    match p {
        ExtensionPayload::HerdDeath(e) => EventType::HerdDeath(e),
        ExtensionPayload::HerdElimination(e) => EventType::HerdElimination(e),
        ExtensionPayload::BedBedDestruction(e) => EventType::BedBedDestruction(e),
        _ => EventType::Unknown,
    }
}

/// How this mode classifies events for display.
pub open spec fn spec_bed_box_color(e: EventType) -> Seq<char> {
    match e {
        EventType::HerdDeath(_) => "list-group-item-secondary"@,
        EventType::HerdElimination(_) => "list-group-item-warning"@,
        EventType::BedBedDestruction(_) => "list-group-item-primary"@,
        _ => ""@,
    }
}

impl GameLogExtension for BedExtension {
    /// Probes the payload for this mode's tags, in the order death,
    /// elimination, bed destruction.
    fn parse_event(&self, payload: ExtensionPayload) -> (r: EventType)
        ensures
            r == spec_parse_bed(payload),
    {
        match payload {
            ExtensionPayload::HerdDeath(e) => EventType::HerdDeath(e),
            ExtensionPayload::HerdElimination(e) => EventType::HerdElimination(e),
            ExtensionPayload::BedBedDestruction(e) => EventType::BedBedDestruction(e),
            _ => EventType::Unknown,
        }
    }

    fn get_box_color(&self, event: &EventType) -> (r: &'static str)
        ensures
            r@ == spec_bed_box_color(*event),
    {
        match event {
            EventType::HerdDeath(_) => "list-group-item-secondary",
            EventType::HerdElimination(_) => "list-group-item-warning",
            EventType::BedBedDestruction(_) => "list-group-item-primary",
            _ => "",
        }
    }

    fn supports_score(&self) -> (r: bool)
        ensures
            !r,
    {
        false
    }

    fn get_map(&self, log: &GameLog) -> (r: String)
        ensures
            r@ == log.map@,
    {
        log.map.clone()
    }
}

} // verus!
