//! The decoded log: the external input to the resolution pipeline.
//!
//! A log arrives already decoded from its wire form: an ordered sequence of
//! timestamped raw events, the declared teams, an optional winner name, an
//! optional starting-player count, and mode-specific auxiliary fields.  The
//! core only reads it.

use vstd::prelude::*;

use crate::event::ExtensionPayload;

verus! {

/// One record of the log: a timestamp and at most one extension payload.
pub struct RawEvent {
    /// Milliseconds since the start of the game.
    pub time: i32,
    /// The extension payload, if the record carries one.
    pub extension: Option<ExtensionPayload>,
}

/// A player as declared in the log.
pub struct SourcePlayer {
    pub name: String,
    /// Most significant half of the player's 128-bit identity.
    pub uuid_msb: u64,
    /// Least significant half of the player's 128-bit identity.
    pub uuid_lsb: u64,
    /// A nickname the player was displayed under, if any.
    pub nick: Option<String>,
}

/// A team as declared in the log.
pub struct SourceTeam {
    pub name: String,
    /// An explicit single-character color code, if the log carries one.
    pub color: Option<char>,
    pub score: i32,
    pub players: Vec<SourcePlayer>,
}

/// A decoded game log.
pub struct GameLog {
    pub events: Vec<RawEvent>,
    pub teams: Vec<SourceTeam>,
    /// The declared winner's name; absent when the log declares none.
    pub winner: Option<String>,
    /// The declared number of players at game start; `0` when not recorded.
    pub start_players: u32,
    /// The raw map name.
    pub map: String,
    /// Gravity's stage list, when the log carries that auxiliary field.
    pub stages: Option<Vec<String>>,
    /// Bed Wars' respawn flag, when the log carries that auxiliary field.
    pub respawn: Option<bool>,
}

} // verus!
