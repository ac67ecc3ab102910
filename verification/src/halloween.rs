//! Kig-o'-ween: event payloads and the mode's extension handler, shared by
//! both seasonal variants.

use vstd::prelude::*;

use crate::event::EventType;
use crate::event::ExtensionPayload;
use crate::gamelog::GameLogExtension;
use crate::log::GameLog;

verus! {

/// A player death.
pub struct DeathEvent {
    pub player: String,
}

/// The Kig-o'-ween extension handler.  Stateless.
#[derive(Clone, Copy)]
pub struct HalloweenExtension {}

/// What this mode's probe yields: its death tag; anything else is
/// `Unknown`.
pub open spec fn spec_parse_halloween(p: ExtensionPayload) -> EventType {
    match p {
        ExtensionPayload::HalloweenDeath(e) => EventType::HalloweenDeath(e),
        _ => EventType::Unknown,
    }
}

/// How this mode classifies events for display.
pub open spec fn spec_halloween_box_color(e: EventType) -> Seq<char> {
    match e {
        EventType::HalloweenDeath(_) => "list-group-item-secondary"@,
        _ => ""@,
    }
}

impl GameLogExtension for HalloweenExtension {
    /// Probes the payload for this mode's single death tag.
    fn parse_event(&self, payload: ExtensionPayload) -> (r: EventType)
        ensures
            r == spec_parse_halloween(payload),
    {
        match payload {
            ExtensionPayload::HalloweenDeath(e) => EventType::HalloweenDeath(e),
            _ => EventType::Unknown,
        }
    }

    fn get_box_color(&self, event: &EventType) -> (r: &'static str)
        ensures
            r@ == spec_halloween_box_color(*event),
    {
        match event {
            EventType::HalloweenDeath(_) => "list-group-item-secondary",
            _ => "",
        }
    }

    fn supports_score(&self) -> (r: bool)
        ensures
            !r,
    {
        false
    }

    fn get_map(&self, log: &GameLog) -> (r: String)
        ensures
            r@ == log.map@,
    {
        log.map.clone()
    }
}

} // verus!
