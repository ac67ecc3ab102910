//! Core resolution: the extension-handler capability, per-mode dispatch,
//! the typed-event resolver, chat-channel resolution, and the top-level
//! pipeline that turns a decoded log into a render-ready model.

use vstd::prelude::*;

use crate::bed::BedExtension;
use crate::bed;
use crate::bp::BpExtension;
use crate::bp;
use crate::cai::CaiExtension;
use crate::cai;
use crate::error::Error;
use crate::event::ChatEvent;
use crate::event::ChatType;
use crate::event::EventType;
use crate::event::ExtensionPayload;
use crate::grav::GravExtension;
use crate::grav;
use crate::halloween::HalloweenExtension;
use crate::halloween;
use crate::log::GameLog;
use crate::log::RawEvent;
use crate::modes::GameMode;
use crate::modes::spec_mode_from_key;
use crate::roster::Team;
use crate::roster::TeamView;
use crate::roster::build_teams;
use crate::roster::resolve_winner;
use crate::roster::spec_build_teams;
use crate::roster::spec_resolve_winner;
use crate::roster::spec_roster_size;
use crate::roster::spec_total_players;
use crate::roster::total_players;
use crate::strutil::is_ascii_alnum;
use crate::strutil::lower_alnum_str;
use crate::strutil::lower_seq;
use crate::strutil::signed_dec_pad;
use crate::strutil::signed_pad;
use crate::strutil::trunc_div;
use crate::strutil::trunc_mod;
use crate::strutil::upper_seq;
use crate::timv::TimvExtension;
use crate::timv;
use crate::wire::decode_game_id;
use crate::wire::spec_base62_val;
use crate::wire::spec_game_id_bytes;
use crate::wire::spec_valid_game_id;

verus! {

/// The capability every mode's extension handler provides: probing a raw
/// extension payload for the mode's own event kinds, classifying the
/// mode's events for display, and overriding score visibility and the
/// map label.  Handler methods never fail; absence of a match is a
/// sentinel (`Unknown`, an empty classification, the raw map).
pub trait GameLogExtension {
    /// Attempts to interpret a payload as one of this mode's event kinds;
    /// anything else resolves to `Unknown`.
    fn parse_event(&self, payload: ExtensionPayload) -> EventType;

    /// The display classification of an event of this mode; the empty
    /// string is the neutral class for anything the mode does not
    /// recognize.
    fn get_box_color(&self, event: &EventType) -> &'static str;

    /// Whether total/team scores are meaningful for this mode.
    fn supports_score(&self) -> bool;

    /// The map/stage label to display for a log of this mode.
    fn get_map(&self, log: &GameLog) -> String;
}

/// The closed set of extension handlers, one per supported mode family.
pub enum WrappedExtension {
    Cai(CaiExtension),
    Timv(TimvExtension),
    Bp(BpExtension),
    Grav(GravExtension),
    Bed(BedExtension),
    Halloween(HalloweenExtension),
}

/// What the active handler's probe yields for a payload.
pub open spec fn spec_parse_ext(ext: WrappedExtension, p: ExtensionPayload) -> EventType {
    match ext {
        WrappedExtension::Cai(_) => cai::spec_parse_cai(p),
        WrappedExtension::Timv(_) => timv::spec_parse_timv(p),
        WrappedExtension::Bp(_) => bp::spec_parse_bp(p),
        WrappedExtension::Grav(_) => grav::spec_parse_grav(p),
        WrappedExtension::Bed(_) => bed::spec_parse_bed(p),
        WrappedExtension::Halloween(_) => halloween::spec_parse_halloween(p),
    }
}

/// What the active handler classifies an event as.
pub open spec fn spec_ext_box_color(ext: WrappedExtension, e: EventType) -> Seq<char> {
    match ext {
        WrappedExtension::Cai(_) => cai::spec_cai_box_color(e),
        WrappedExtension::Timv(_) => timv::spec_timv_box_color(e),
        WrappedExtension::Bp(_) => bp::spec_bp_box_color(e),
        WrappedExtension::Grav(_) => grav::spec_grav_box_color(e),
        WrappedExtension::Bed(_) => bed::spec_bed_box_color(e),
        WrappedExtension::Halloween(_) => halloween::spec_halloween_box_color(e),
    }
}

/// Whether the active handler treats scores as meaningful.
pub open spec fn spec_ext_supports_score(ext: WrappedExtension) -> bool {
    match ext {
        WrappedExtension::Cai(_) => true,
        WrappedExtension::Timv(_) => false,
        WrappedExtension::Bp(_) => false,
        WrappedExtension::Grav(_) => false,
        WrappedExtension::Bed(_) => false,
        WrappedExtension::Halloween(_) => false,
    }
}

/// The map label the active handler displays for a log: the raw map
/// field, except where a mode's notion of location is not a single map.
pub open spec fn spec_ext_map(ext: WrappedExtension, log: GameLog) -> Seq<char> {
    match ext {
        WrappedExtension::Grav(g) => grav::spec_join_stages(g.stages.deep_view()),
        _ => log.map@,
    }
}

impl WrappedExtension {
    /// Probes a payload with the active mode's handler.
    pub fn parse_event(&self, payload: ExtensionPayload) -> (r: EventType)
        ensures
            r == spec_parse_ext(*self, payload),
    {
        match self {
            WrappedExtension::Cai(ext) => ext.parse_event(payload),
            WrappedExtension::Timv(ext) => ext.parse_event(payload),
            WrappedExtension::Bp(ext) => ext.parse_event(payload),
            WrappedExtension::Grav(ext) => ext.parse_event(payload),
            WrappedExtension::Bed(ext) => ext.parse_event(payload),
            WrappedExtension::Halloween(ext) => ext.parse_event(payload),
        }
    }

    /// Classifies an event with the active mode's handler.
    pub fn get_box_color(&self, event: &EventType) -> (r: &'static str)
        ensures
            r@ == spec_ext_box_color(*self, *event),
    {
        match self {
            WrappedExtension::Cai(ext) => ext.get_box_color(event),
            WrappedExtension::Timv(ext) => ext.get_box_color(event),
            WrappedExtension::Bp(ext) => ext.get_box_color(event),
            WrappedExtension::Grav(ext) => ext.get_box_color(event),
            WrappedExtension::Bed(ext) => ext.get_box_color(event),
            WrappedExtension::Halloween(ext) => ext.get_box_color(event),
        }
    }

    /// Whether scores are meaningful for the active mode.
    pub fn supports_score(&self) -> (r: bool)
        ensures
            r == spec_ext_supports_score(*self),
    {
        match self {
            WrappedExtension::Cai(ext) => ext.supports_score(),
            WrappedExtension::Timv(ext) => ext.supports_score(),
            WrappedExtension::Bp(ext) => ext.supports_score(),
            WrappedExtension::Grav(ext) => ext.supports_score(),
            WrappedExtension::Bed(ext) => ext.supports_score(),
            WrappedExtension::Halloween(ext) => ext.supports_score(),
        }
    }

    /// The map label for a log under the active mode.
    pub fn get_map(&self, log: &GameLog) -> (r: String)
        ensures
            r@ == spec_ext_map(*self, *log),
    {
        match self {
            WrappedExtension::Cai(ext) => ext.get_map(log),
            WrappedExtension::Timv(ext) => ext.get_map(log),
            WrappedExtension::Bp(ext) => ext.get_map(log),
            WrappedExtension::Grav(ext) => ext.get_map(log),
            WrappedExtension::Bed(ext) => ext.get_map(log),
            WrappedExtension::Halloween(ext) => ext.get_map(log),
        }
    }

    /// Whether the log was recorded with respawning enabled; meaningful
    /// only for the mode that carries the flag.
    pub fn is_respawn(&self) -> (r: bool)
        ensures
            r == match *self {
                WrappedExtension::Bed(b) => b.respawn,
                _ => false,
            },
    {
        match self {
            WrappedExtension::Bed(b) => b.is_respawn(),
            _ => false,
        }
    }
}

/// Whether `ext` is the handler the registry builds for `mode` over
/// `log`: the variant matches the mode, and log-derived handler state
/// (a stage list, a respawn flag) comes from the log's auxiliary fields.
pub open spec fn spec_ext_for(mode: GameMode, log: GameLog, ext: WrappedExtension) -> bool {
    match mode {
        GameMode::CAI => ext is Cai,
        GameMode::TIMV => ext is Timv,
        GameMode::BP => ext is Bp,
        GameMode::GRAV => match ext {
            WrappedExtension::Grav(g) => g.stages.deep_view() == grav::spec_grav_stages(log),
            _ => false,
        },
        GameMode::BED => match ext {
            WrappedExtension::Bed(b) => b.respawn == bed::spec_bed_respawn(log),
            _ => false,
        },
        GameMode::Halloween2023 => ext is Halloween,
        GameMode::Halloween2024 => ext is Halloween,
    }
}

impl GameMode {
    /// The total factory from mode to extension handler: every mode
    /// yields a handler, and construction never fails — absent auxiliary
    /// fields fall back to an empty or default handler state.
    pub fn to_gamelog_ext(&self, log: &GameLog) -> (r: WrappedExtension)
        ensures
            spec_ext_for(*self, *log, r),
    {
        match self {
            GameMode::CAI => WrappedExtension::Cai(CaiExtension {  }),
            GameMode::TIMV => WrappedExtension::Timv(TimvExtension {  }),
            GameMode::BP => WrappedExtension::Bp(BpExtension {  }),
            GameMode::GRAV => WrappedExtension::Grav(GravExtension::new(log)),
            GameMode::BED => WrappedExtension::Bed(BedExtension::new(log)),
            GameMode::Halloween2023 | GameMode::Halloween2024 => WrappedExtension::Halloween(
                HalloweenExtension {  },
            ),
        }
    }
}

/// One resolved event: a timestamp and the typed event it resolved to.
pub struct WrappedEvent {
    pub event: EventType,
    pub time: i32,
}

/// What a payload resolves to: the mode handler is consulted first, then
/// the three global kinds in the order chat, join, leave, and `Unknown`
/// is terminal.  The mode-first order is load-bearing: a mode could in
/// principle shadow a global tag.
pub open spec fn spec_resolve_payload(ext: WrappedExtension, p: ExtensionPayload) -> EventType {
    let parsed = spec_parse_ext(ext, p);
    if parsed != EventType::Unknown {
        parsed
    } else {
        match p {
            ExtensionPayload::Chat(e) => EventType::Chat(e),
            ExtensionPayload::Join(e) => EventType::Join(e),
            ExtensionPayload::Leave(e) => EventType::Leave(e),
            _ => EventType::Unknown,
        }
    }
}

/// What a raw event resolves to: `Unknown` when it carries no payload,
/// else whatever its payload resolves to.
pub open spec fn spec_resolve_event(ext: WrappedExtension, e: RawEvent) -> EventType {
    match e.extension {
        None => EventType::Unknown,
        Some(p) => spec_resolve_payload(ext, p),
    }
}

impl WrappedEvent {
    /// Resolves one raw event under the active mode's handler, keeping
    /// its timestamp.
    pub fn parse(event: RawEvent, extension: &WrappedExtension) -> (w: WrappedEvent)
        ensures
            w.time == event.time,
            w.event == spec_resolve_event(*extension, event),
    {
        let time = event.time;
        WrappedEvent { time, event: Self::parse_event(event, extension) }
    }

    /// Resolves a raw event's payload: the mode handler first, then the
    /// global kinds, then `Unknown`.  No mode's tags overlap the global
    /// payload variants, so the global kinds can be split off before the
    /// handler takes the payload; the result provably matches the
    /// mode-first order that `spec_resolve_payload` spells out.
    pub fn parse_event(event: RawEvent, extension: &WrappedExtension) -> (r: EventType)
        ensures
            r == spec_resolve_event(*extension, event),
    {
        let payload = match event.extension {
            None => {
                return EventType::Unknown;
            },
            Some(payload) => payload,
        };
        match payload {
            ExtensionPayload::Chat(e) => EventType::Chat(e),
            ExtensionPayload::Join(e) => EventType::Join(e),
            ExtensionPayload::Leave(e) => EventType::Leave(e),
            p => extension.parse_event(p),
        }
    }

    /// The event's timestamp.
    pub fn get_time(&self) -> (r: i32)
        ensures
            r == self.time,
    {
        self.time
    }

    /// The resolved typed event.
    pub fn get_raw_event(&self) -> (r: &EventType)
        ensures
            r == &self.event,
    {
        &self.event
    }

    /// Whether this event is a chat message.
    pub fn is_chat(&self) -> (r: bool)
        ensures
            r == (self.event is Chat),
    {
        matches!(self.event, EventType::Chat(_))
    }
}

/// The per-request function table handed to the renderer: the active
/// mode's handler, behind classification that handles the global kinds
/// itself.
pub struct Functions {
    pub extension: WrappedExtension,
}

/// The display classification of a resolved event: the global kinds take
/// precedence and are classified here, independent of the active mode;
/// everything else is delegated to the mode's handler.
pub open spec fn spec_box_color(ext: WrappedExtension, e: EventType) -> Seq<char> {
    match e {
        EventType::Chat(_) => ""@,
        EventType::Join(_) => "list-group-item-info"@,
        EventType::Leave(_) => "list-group-item-dark"@,
        _ => spec_ext_box_color(ext, e),
    }
}

impl Functions {
    /// Classifies a resolved event for display.  Chat, join and leave are
    /// classified here; the mode handler is never asked about them.
    pub fn get_box_color(&self, event: &WrappedEvent) -> (r: &str)
        ensures
            r@ == spec_box_color(self.extension, event.event),
    {
        match event.get_raw_event() {
            EventType::Chat(_) => "",
            EventType::Join(_) => "list-group-item-info",
            EventType::Leave(_) => "list-group-item-dark",
            _ => self.extension.get_box_color(&event.event),
        }
    }

    /// The map label for a log under the active mode.
    pub fn get_map(&self, log: &GameLog) -> (r: String)
        ensures
            r@ == spec_ext_map(self.extension, *log),
    {
        self.extension.get_map(log)
    }
}

/// The audience a chat message resolves to for display: a static named
/// channel, a team channel with a name and color, or no distinct channel
/// (the message renders as an ordinary one).
pub enum ChatChannel {
    Static(&'static str),
    Team(String, &'static str),
    NoChannel,
}

/// The mathematical value of a resolved chat channel.
#[verifier::ext_equal]
pub enum ChatChannelView {
    Static(Seq<char>),
    Team(Seq<char>, Seq<char>),
    NoChannel,
}

impl View for ChatChannel {
    type V = ChatChannelView;

    open spec fn view(&self) -> ChatChannelView {
        match self {
            ChatChannel::Static(s) => ChatChannelView::Static(s@),
            ChatChannel::Team(name, color) => ChatChannelView::Team(name@, color@),
            ChatChannel::NoChannel => ChatChannelView::NoChannel,
        }
    }
}

/// The channel a chat message was directed to, given the roster: team
/// messages resolve through the explicit team index when the event
/// carries one (out-of-range indexes fall back to the spectators team),
/// else through the sender's team, falling back to the spectators team
/// for a sender on no team.
pub open spec fn spec_chat_channel(e: EventType, chat: ChatEvent, ts: Seq<TeamView>) -> ChatChannelView {
    match e {
        EventType::Chat(own) => match own.chat_type {
            ChatType::Lobby => ChatChannelView::Static("Lobby"@),
            ChatType::Team => {
                let team = match chat.team {
                    Some(idx) => if idx < ts.len() {
                        Some(ts[idx as int])
                    } else {
                        None
                    },
                    None => match crate::roster::spec_player_team(ts, chat.sender@) {
                        Some(i) => Some(ts[i]),
                        None => None,
                    },
                };
                match team {
                    Some(t) => ChatChannelView::Team(t.name, t.color),
                    None => ChatChannelView::Team("Spec"@, "#AAAAAA"@),
                }
            },
            ChatType::Shout => ChatChannelView::Static("Shout"@),
            ChatType::Broadcast => ChatChannelView::Static("Broadcast"@),
            ChatType::Global => ChatChannelView::NoChannel,
        },
        _ => ChatChannelView::NoChannel,
    }
}

impl WrappedEvent {
    /// Resolves the audience of a chat message against the roster.  This
    /// is a pure function of the event and the roster snapshot, total
    /// over every declared chat type.
    pub fn get_chat_channel(&self, event: &ChatEvent, teams: &Vec<Team>) -> (r: ChatChannel)
        ensures
            r@ == spec_chat_channel(self.event, *event, teams.deep_view()),
    {
        if let EventType::Chat(chat_event) = &self.event {
            match chat_event.chat_type {
                ChatType::Lobby => ChatChannel::Static("Lobby"),
                ChatType::Team => {
                    let found: Option<usize> = match event.team {
                        Some(idx) => {
                            if (idx as usize) < teams.len() {
                                Some(idx as usize)
                            } else {
                                None
                            }
                        },
                        None => crate::roster::find_player_team(teams, event.sender.as_str()),
                    };
                    match found {
                        Some(i) => ChatChannel::Team(teams[i].name.clone(), teams[i].color),
                        None => ChatChannel::Team(
                            String::from_str("Spec"),
                            crate::roster::mc_to_rgb('7'),
                        ),
                    }
                },
                ChatType::Shout => ChatChannel::Static("Shout"),
                ChatType::Broadcast => ChatChannel::Static("Broadcast"),
                ChatType::Global => ChatChannel::NoChannel,
            }
        } else {
            ChatChannel::NoChannel
        }
    }
}

/// The rendering of a duration: minutes and seconds from a millisecond
/// count, each zero padded, with machine division's behavior on a
/// negative count.
pub open spec fn spec_format_duration(millis: int) -> Seq<char> {
    signed_pad(trunc_div(millis, 60000), 2) + ":"@ + signed_pad(
        trunc_mod(trunc_div(millis, 1000), 60),
        2,
    )
}

/// Renders a duration measured in milliseconds as `mm:ss`.
pub fn format_duration(millis: i32) -> (r: String)
    ensures
        r@ == spec_format_duration(millis as int),
{
    let neg = millis < 0;
    let abs: u64 = if neg {
        (-(millis as i64)) as u64
    } else {
        millis as u64
    };
    let mut s = signed_dec_pad(neg, abs / 60000, 2);
    s.append(":");
    let secs = signed_dec_pad(neg, abs / 1000 % 60, 2);
    s.append(secs.as_str());
    proof {
        assert(s@ =~= spec_format_duration(millis as int));
    }
    s
}

/// Relies on regex (`Regex::new`, `Regex::replace_all`): the pattern
/// matches exactly one character outside `[a-zA-Z0-9]` per match, and
/// replacing every match with the empty string keeps exactly the ASCII
/// letters and digits, in order.  The pattern is a valid expression, so
/// compiling it cannot fail.
#[verifier::external_body]
fn strip_non_alnum(s: &str) -> (r: String)
    ensures
        r@ == s@.filter(|c: char| is_ascii_alnum(c)),
{
    regex::Regex::new("[^a-zA-Z0-9]").unwrap().replace_all(s, "").into_owned()
}

/// The file-name form of a map name: its ASCII letters and digits,
/// lowercased; an empty name falls back to `default`.
pub open spec fn spec_map_file_name(s: Seq<char>) -> Seq<char> {
    if s.len() == 0 {
        "default"@
    } else {
        lower_seq(s.filter(|c: char| is_ascii_alnum(c)))
    }
}

/// Turns a map name into the name of its image file.
pub fn map_file_name(map_name: &str) -> (r: String)
    ensures
        r@ == spec_map_file_name(map_name@),
{
    if map_name.unicode_len() == 0 {
        return String::from_str("default");
    }
    let stripped = strip_non_alnum(map_name);
    let ghost kept = map_name@.filter(|c: char| is_ascii_alnum(c));
    let n = stripped.as_str().unicode_len();
    let mut r = String::new();
    let mut i: usize = 0;
    proof {
        assert(r@ =~= lower_seq(kept.take(0)));
    }
    while i < n
        invariant
            i <= n,
            n == kept.len(),
            kept == map_name@.filter(|c: char| is_ascii_alnum(c)),
            stripped@ == kept,
            r@ == lower_seq(kept.take(i as int)),
        decreases n - i,
    {
        let c = stripped.as_str().get_char(i);
        proof {
            map_name@.lemma_filter_pred(|c: char| is_ascii_alnum(c), i as int);
        }
        r.append(lower_alnum_str(c));
        proof {
            assert(r@ =~= lower_seq(kept.take(i as int + 1)));
        }
        i += 1;
    }
    proof {
        assert(kept.take(n as int) =~= kept);
    }
    r
}

/// Resolves the request path: the game id is decoded first — a malformed
/// id is a bad request regardless of the mode key — then the mode key is
/// looked up in the registry.
pub fn parse_request(mode_key: &str, path_id: &str) -> (r: Result<(GameMode, Vec<u8>), Error>)
    ensures
        !spec_valid_game_id(path_id@) ==> r == Err::<(GameMode, Vec<u8>), Error>(
            Error::InvalidGameId,
        ),
        spec_valid_game_id(path_id@) && spec_mode_from_key(upper_seq(mode_key@)) is None ==> r
            == Err::<(GameMode, Vec<u8>), Error>(Error::ModeNotFound),
        spec_valid_game_id(path_id@) && spec_mode_from_key(upper_seq(mode_key@)) is Some ==> {
            &&& r is Ok
            &&& Some(r.unwrap().0) == spec_mode_from_key(upper_seq(mode_key@))
            &&& r.unwrap().1@ == spec_game_id_bytes(spec_base62_val(path_id@))
        },
{
    let id = match decode_game_id(path_id) {
        None => {
            return Err(Error::InvalidGameId);
        },
        Some(id) => id,
    };
    match GameMode::from_key(mode_key) {
        None => Err(Error::ModeNotFound),
        Some(mode) => Ok((mode, id)),
    }
}

/// The render-ready model of one log: everything the renderer consumes,
/// owned.
pub struct ResolvedLog {
    pub mode: GameMode,
    /// The displayed player total.
    pub total_players: usize,
    /// The resolved roster, in source order.
    pub teams: Vec<Team>,
    /// One resolved event per raw event, in log order.
    pub events: Vec<WrappedEvent>,
    /// The resolved winner: a roster team, a placeholder, or absent.
    pub winner: Option<Team>,
    /// The resolved map/stage label.
    pub map: String,
    /// The active mode's handler, behind global-kind classification.
    pub functions: Functions,
}

/// Turns a decoded log into the render-ready model: builds the mode's
/// extension handler, resolves every event through it in order, builds
/// the roster with display colors, and resolves the winner and the
/// player total.
pub fn resolve_log(mode: GameMode, log: GameLog) -> (r: ResolvedLog)
    requires
        spec_roster_size(spec_build_teams(log.teams@)) <= usize::MAX,
    ensures
        r.mode == mode,
        spec_ext_for(mode, log, r.functions.extension),
        r.teams.deep_view() == spec_build_teams(log.teams@),
        r.winner.deep_view() == spec_resolve_winner(
            spec_build_teams(log.teams@),
            log.winner.deep_view(),
        ),
        r.total_players as int == spec_total_players(
            spec_build_teams(log.teams@),
            log.start_players,
        ),
        r.map@ == spec_ext_map(r.functions.extension, log),
        r.events.len() == log.events.len(),
        forall|i: int|
            0 <= i < log.events.len() ==> (#[trigger] r.events[i]).time == log.events[i].time
                && r.events[i].event == spec_resolve_event(r.functions.extension, log.events[i]),
{
    let extension = mode.to_gamelog_ext(&log);
    let map = extension.get_map(&log);
    let GameLog { events, teams: src_teams, winner, start_players, .. } = log;
    let teams = build_teams(src_teams);
    let winner = resolve_winner(&teams, winner);
    let total = total_players(&teams, start_players);
    let ghost evs = events@;
    let mut resolved: Vec<WrappedEvent> = Vec::new();
    for e in iter: events.into_iter()
        invariant
            iter.seq() == evs,
            resolved.len() == iter.index(),
            forall|i: int|
                0 <= i < resolved.len() ==> (#[trigger] resolved[i]).time == evs[i].time
                    && resolved[i].event == spec_resolve_event(extension, evs[i]),
    {
        resolved.push(WrappedEvent::parse(e, &extension));
    }
    ResolvedLog {
        mode,
        total_players: total,
        teams,
        events: resolved,
        winner,
        map,
        functions: Functions { extension },
    }
}

/// A raw event with no extension payload resolves to `Unknown` under
/// every handler, and `Unknown` is classified to the neutral (empty)
/// class by every handler.
pub proof fn lemma_no_payload_resolves_unknown(ext: WrappedExtension, e: RawEvent)
    requires
        e.extension is None,
    ensures
        spec_resolve_event(ext, e) == EventType::Unknown,
        spec_box_color(ext, spec_resolve_event(ext, e)) == ""@,
{
}

/// No orphan variants: every event that a mode's probe can produce is
/// classified to a non-neutral display class by that mode's handler.
/// Every mode-specific variant of the event model is producible by its
/// mode's probe, so this covers each mode's whole declared catalogue.
pub proof fn lemma_no_orphan_variants(ext: WrappedExtension, p: ExtensionPayload)
    requires
        spec_parse_ext(ext, p) != EventType::Unknown,
    ensures
        spec_ext_box_color(ext, spec_parse_ext(ext, p)) != ""@,
        spec_box_color(ext, spec_parse_ext(ext, p)) != ""@,
{
    reveal_strlit("");
    reveal_strlit("list-group-item-primary");
    reveal_strlit("list-group-item-secondary");
    reveal_strlit("list-group-item-success");
    reveal_strlit("list-group-item-warning");
    reveal_strlit("list-group-item-danger");
    assert(""@.len() == 0);
    assert("list-group-item-primary"@.len() != 0);
    assert("list-group-item-secondary"@.len() != 0);
    assert("list-group-item-success"@.len() != 0);
    assert("list-group-item-warning"@.len() != 0);
    assert("list-group-item-danger"@.len() != 0);
}

/// The global event kinds are classified by the resolver itself, to the
/// same fixed classes under every handler: the active mode plays no part
/// in them, and no mode handler is consulted for them.
pub proof fn lemma_global_classification_mode_independent(
    ext1: WrappedExtension,
    ext2: WrappedExtension,
    e: EventType,
)
    requires
        e is Chat || e is Join || e is Leave,
    ensures
        spec_box_color(ext1, e) == spec_box_color(ext2, e),
        e is Chat ==> spec_box_color(ext1, e) == ""@,
        e is Join ==> spec_box_color(ext1, e) == "list-group-item-info"@,
        e is Leave ==> spec_box_color(ext1, e) == "list-group-item-dark"@,
{
}

/// Round trip: in a log where every event carries a payload that the
/// active mode's probe recognizes, every event resolves to a
/// non-`Unknown` typed event.  Together with the resolver's own
/// contract — one resolved event per raw event, in order, with the
/// timestamp kept — a log of `N` such events yields exactly `N`
/// resolved, non-`Unknown` events in original order.
pub proof fn lemma_round_trip(ext: WrappedExtension, events: Seq<RawEvent>)
    requires
        forall|i: int|
            0 <= i < events.len() ==> (#[trigger] events[i]).extension is Some && spec_parse_ext(
                ext,
                events[i].extension.unwrap(),
            ) != EventType::Unknown,
    ensures
        forall|i: int|
            0 <= i < events.len() ==> #[trigger] spec_resolve_event(ext, events[i])
                != EventType::Unknown,
{
    assert forall|i: int| 0 <= i < events.len() implies #[trigger] spec_resolve_event(
        ext,
        events[i],
    ) != EventType::Unknown by {
        assert(spec_resolve_event(ext, events[i]) == spec_parse_ext(
            ext,
            events[i].extension.unwrap(),
        ));
    }
}

} // verus!
