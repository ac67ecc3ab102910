//! BlockParty: event payloads and the mode's extension handler.

use vstd::prelude::*;

use crate::event::EventType;
use crate::event::ExtensionPayload;
use crate::gamelog::GameLogExtension;
use crate::log::GameLog;

verus! {

/// How a player was eliminated from the floor.
#[derive(Clone, Copy, PartialEq, Eq, Structural, Debug)]
pub enum PlayerDeathCause {
    Void,
    Detection,
    Unknown,
}

/// One player's elimination inside a round's death event.
pub struct PlayerDeathEvent {
    pub player: String,
    pub death_cause: PlayerDeathCause,
}

/// The eliminations of one round.
pub struct DeathEvent {
    pub deaths: Vec<PlayerDeathEvent>,
}

/// A new round starting.
pub struct RoundEvent {
    pub round: u32,
}

/// The winners of the game.
pub struct WinnersEvent {
    pub winners: Vec<String>,
}

/// A power-up being picked up.
pub struct PowerUpEvent {
    pub player: String,
}

/// The display label for a player's elimination cause.
pub open spec fn spec_bp_damage_desc(c: PlayerDeathCause) -> Seq<char> {
    match c {
        PlayerDeathCause::Void => "Void"@,
        PlayerDeathCause::Detection => "Void"@,
        PlayerDeathCause::Unknown => "Unknown cause"@,
    }
}

impl PlayerDeathEvent {
    /// The display label of this elimination's cause.
    pub fn get_damage_desc(&self) -> (r: &'static str)
        ensures
            r@ == spec_bp_damage_desc(self.death_cause),
    {
        match self.death_cause {
            PlayerDeathCause::Void => "Void",
            PlayerDeathCause::Detection => "Void",
            PlayerDeathCause::Unknown => "Unknown cause",
        }
    }
}

/// The BlockParty extension handler.  Stateless.
#[derive(Clone, Copy)]
pub struct BpExtension {}

/// What this mode's probe yields: its own tags, in the order death,
/// round, powerup, winners; anything else is `Unknown`.
pub open spec fn spec_parse_bp(p: ExtensionPayload) -> EventType {
    match p {
        ExtensionPayload::BpDeath(e) => EventType::BpDeath(e),
        ExtensionPayload::BpRound(e) => EventType::BpRound(e),
        ExtensionPayload::BpPowerup(e) => EventType::BpPowerup(e),
        ExtensionPayload::BpWinners(e) => EventType::BpWinners(e),
        _ => EventType::Unknown,
    }
}

/// How this mode classifies events for display.
pub open spec fn spec_bp_box_color(e: EventType) -> Seq<char> {
    match e {
        EventType::BpRound(_) => "list-group-item-primary"@,
        EventType::BpWinners(_) => "list-group-item-success"@,
        EventType::BpPowerup(_) => "list-group-item-warning"@,
        EventType::BpDeath(_) => "list-group-item-secondary"@,
        _ => ""@,
    }
}

impl GameLogExtension for BpExtension {
    /// Probes the payload for this mode's tags, in the order death,
    /// round, powerup, winners.
    fn parse_event(&self, payload: ExtensionPayload) -> (r: EventType)
        ensures
            r == spec_parse_bp(payload),
    {
        match payload {
            ExtensionPayload::BpDeath(e) => EventType::BpDeath(e),
            ExtensionPayload::BpRound(e) => EventType::BpRound(e),
            ExtensionPayload::BpPowerup(e) => EventType::BpPowerup(e),
            ExtensionPayload::BpWinners(e) => EventType::BpWinners(e),
            _ => EventType::Unknown,
        }
    }

    fn get_box_color(&self, event: &EventType) -> (r: &'static str)
        ensures
            r@ == spec_bp_box_color(*event),
    {
        match event {
            EventType::BpRound(_) => "list-group-item-primary",
            EventType::BpWinners(_) => "list-group-item-success",
            EventType::BpPowerup(_) => "list-group-item-warning",
            EventType::BpDeath(_) => "list-group-item-secondary",
            _ => "",
        }
    }

    fn supports_score(&self) -> (r: bool)
        ensures
            !r,
    {
        false
    }

    fn get_map(&self, log: &GameLog) -> (r: String)
        ensures
            r@ == log.map@,
    {
        log.map.clone()
    }
}

} // verus!
