//! Cowboys and Indians: event payloads and the mode's extension handler.

use vstd::prelude::*;

use crate::event::EventType;
use crate::event::ExtensionPayload;
use crate::gamelog::GameLogExtension;
use crate::log::GameLog;

verus! {

/// A player death.
pub struct DeathEvent {
    pub player: String,
}

/// A captured player being brought in.
pub struct CaptureEvent {
    pub player: String,
}

/// A player being caught.
pub struct CatchEvent {
    pub player: String,
}

/// A captured player escaping.
pub struct EscapeEvent {
    pub player: String,
}

/// The Cowboys and Indians extension handler.  Stateless.
#[derive(Clone, Copy)]
pub struct CaiExtension {}

/// What this mode's probe yields: its own tags, in the order death,
/// capture, catch, escape; anything else is `Unknown`.
pub open spec fn spec_parse_cai(p: ExtensionPayload) -> EventType {
    match p {
        ExtensionPayload::CaiDeath(e) => EventType::CaiDeath(e),
        ExtensionPayload::CaiCapture(e) => EventType::CaiCapture(e),
        ExtensionPayload::CaiCatch(e) => EventType::CaiCatch(e),
        ExtensionPayload::CaiEscape(e) => EventType::CaiEscape(e),
        _ => EventType::Unknown,
    }
}

/// How this mode classifies events for display.
pub open spec fn spec_cai_box_color(e: EventType) -> Seq<char> {
    match e {
        EventType::CaiCatch(_) => "list-group-item-primary"@,
        EventType::CaiEscape(_) => "list-group-item-primary"@,
        EventType::CaiCapture(_) => "list-group-item-primary"@,
        EventType::CaiDeath(_) => "list-group-item-secondary"@,
        _ => ""@,
    }
}

impl GameLogExtension for CaiExtension {
    /// Probes the payload for this mode's tags, in the order death,
    /// capture, catch, escape.
    fn parse_event(&self, payload: ExtensionPayload) -> (r: EventType)
        ensures
            r == spec_parse_cai(payload),
    {
        match payload {
            ExtensionPayload::CaiDeath(e) => EventType::CaiDeath(e),
            ExtensionPayload::CaiCapture(e) => EventType::CaiCapture(e),
            ExtensionPayload::CaiCatch(e) => EventType::CaiCatch(e),
            ExtensionPayload::CaiEscape(e) => EventType::CaiEscape(e),
            _ => EventType::Unknown,
        }
    }

    fn get_box_color(&self, event: &EventType) -> (r: &'static str)
        ensures
            r@ == spec_cai_box_color(*event),
    {
        match event {
            EventType::CaiCatch(_) => "list-group-item-primary",
            EventType::CaiEscape(_) => "list-group-item-primary",
            EventType::CaiCapture(_) => "list-group-item-primary",
            EventType::CaiDeath(_) => "list-group-item-secondary",
            _ => "",
        }
    }

    fn supports_score(&self) -> (r: bool)
        ensures
            r,
    {
        true
    }

    fn get_map(&self, log: &GameLog) -> (r: String)
        ensures
            r@ == log.map@,
    {
        log.map.clone()
    }
}

} // verus!
