//! Gravity: event payloads and the mode's extension handler, which carries
//! the log's stage list.

use vstd::prelude::*;

use crate::event::EventType;
use crate::event::ExtensionPayload;
use crate::gamelog::GameLogExtension;
use crate::gamelog::WrappedExtension;
use crate::log::GameLog;
use crate::strutil::dec_seq;
use crate::strutil::pad0;
use crate::strutil::dec_pad;

verus! {

/// A player finishing one stage.
pub struct StageCompletionEvent {
    pub player: String,
    /// The completed stage, as an index into the log's stage list.
    pub stage: u32,
    /// Time spent on the stage, in nanoseconds.
    pub time: u64,
}

/// A player finishing the whole course.
pub struct GameFinishEvent {
    pub player: String,
    /// Total course time, in nanoseconds.
    pub time: u64,
}

/// A player failing a stage in hardcore mode.
pub struct HardcoreModeFailEvent {
    pub player: String,
}

/// The Gravity extension handler: remembers the log's stage list, which
/// doubles as the mode's notion of a map.
pub struct GravExtension {
    pub stages: Vec<String>,
}

/// The stage list a log carries for this mode; an absent auxiliary field
/// is an empty list.
pub open spec fn spec_grav_stages(log: GameLog) -> Seq<Seq<char>> {
    match log.stages {
        Some(s) => s.deep_view(),
        None => Seq::empty(),
    }
}

impl GravExtension {
    /// Builds the handler from a log, taking the stage list from the
    /// mode's auxiliary field and falling back to an empty list.
    pub fn new(log: &GameLog) -> (r: GravExtension)
        ensures
            r.stages.deep_view() == spec_grav_stages(*log),
    {
        let stages = match &log.stages {
            Some(s) => s.clone(),
            None => Vec::new(),
        };
        proof {
            assert(stages.deep_view() =~= spec_grav_stages(*log));
        }
        GravExtension { stages }
    }
}

/// What this mode's probe yields: its own tags, in the order game
/// finish, stage completion, hardcore fail; anything else is `Unknown`.
pub open spec fn spec_parse_grav(p: ExtensionPayload) -> EventType {
    match p {
        ExtensionPayload::GravGameFinish(e) => EventType::GravGameFinish(e),
        ExtensionPayload::GravStageCompletion(e) => EventType::GravStageCompletion(e),
        ExtensionPayload::GravHardcoreFail(e) => EventType::GravHardcoreFail(e),
        _ => EventType::Unknown,
    }
}

/// How this mode classifies events for display.
pub open spec fn spec_grav_box_color(e: EventType) -> Seq<char> {
    match e {
        EventType::GravGameFinish(_) => "list-group-item-success"@,
        EventType::GravStageCompletion(_) => "list-group-item-primary"@,
        EventType::GravHardcoreFail(_) => "list-group-item-danger"@,
        _ => ""@,
    }
}

/// The stage names joined with a comma: this mode's map label.
pub open spec fn spec_join_stages(stages: Seq<Seq<char>>) -> Seq<char>
    decreases stages.len(),
{
    if stages.len() == 0 {
        Seq::empty()
    } else if stages.len() == 1 {
        stages[0]
    } else {
        spec_join_stages(stages.drop_last()) + ", "@ + stages.last()
    }
}

impl GameLogExtension for GravExtension {
    /// Probes the payload for this mode's tags, in the order game finish,
    /// stage completion, hardcore fail.
    fn parse_event(&self, payload: ExtensionPayload) -> (r: EventType)
        ensures
            r == spec_parse_grav(payload),
    {
        match payload {
            ExtensionPayload::GravGameFinish(e) => EventType::GravGameFinish(e),
            ExtensionPayload::GravStageCompletion(e) => EventType::GravStageCompletion(e),
            ExtensionPayload::GravHardcoreFail(e) => EventType::GravHardcoreFail(e),
            _ => EventType::Unknown,
        }
    }

    fn get_box_color(&self, event: &EventType) -> (r: &'static str)
        ensures
            r@ == spec_grav_box_color(*event),
    {
        match event {
            EventType::GravGameFinish(_) => "list-group-item-success",
            EventType::GravStageCompletion(_) => "list-group-item-primary",
            EventType::GravHardcoreFail(_) => "list-group-item-danger",
            _ => "",
        }
    }

    fn supports_score(&self) -> (r: bool)
        ensures
            !r,
    {
        false
    }

    /// The mode's location is its stage list, not the raw map field.
    fn get_map(&self, _log: &GameLog) -> (r: String)
        ensures
            r@ == spec_join_stages(self.stages.deep_view()),
    {
        let ghost stages = self.stages.deep_view();
        let mut s = String::new();
        let mut i: usize = 0;
        proof {
            assert(stages.take(0) =~= Seq::<Seq<char>>::empty());
        }
        while i < self.stages.len()
            invariant
                i <= self.stages.len(),
                stages == self.stages.deep_view(),
                s@ == spec_join_stages(stages.take(i as int)),
            decreases self.stages.len() - i,
        {
            if i > 0 {
                s.append(", ");
            }
            s.append(self.stages[i].as_str());
            proof {
                assert(stages.take(i as int + 1).drop_last() =~= stages.take(i as int));
                if i == 0 {
                    assert(s@ =~= spec_join_stages(stages.take(1)));
                }
            }
            i += 1;
        }
        proof {
            assert(stages.take(self.stages.len() as int) =~= stages);
        }
        s
    }
}

/// The rendering of a stage time: minutes, seconds and milliseconds from
/// a nanosecond count, each zero padded.
pub open spec fn spec_grav_format_time(nanos: int) -> Seq<char> {
    let millis = nanos / 1_000_000;
    pad0(dec_seq(millis / 60000), 2) + ":"@ + pad0(dec_seq(millis / 1000 % 60), 2) + "."@ + pad0(
        dec_seq(millis % 1000),
        3,
    )
}

/// Renders a stage time measured in nanoseconds as `mm:ss.mmm`.
pub fn grav_format_time(nanos: u64) -> (r: String)
    ensures
        r@ == spec_grav_format_time(nanos as int),
{
    let millis = nanos / 1_000_000;
    let mut s = dec_pad(millis / 60000, 2);
    s.append(":");
    let secs = dec_pad(millis / 1000 % 60, 2);
    s.append(secs.as_str());
    s.append(".");
    let ms = dec_pad(millis % 1000, 3);
    s.append(ms.as_str());
    proof {
        assert(s@ =~= spec_grav_format_time(nanos as int));
    }
    s
}

/// The name of a stage by its index in the active handler's stage list;
/// any mode but this one has no stages, and yields an empty name.
pub fn grav_stage_name(index: u32, ext: &WrappedExtension) -> (r: String)
    requires
        ext matches WrappedExtension::Grav(g) ==> (index as int) < g.stages.deep_view().len(),
    ensures
        r@ == match *ext {
            WrappedExtension::Grav(g) => g.stages.deep_view()[index as int],
            _ => Seq::<char>::empty(),
        },
{
    if let WrappedExtension::Grav(g) = ext {
        let mut s = String::new();
        s.append(g.stages[index as usize].as_str());
        s
    } else {
        String::new()
    }
}

} // verus!
