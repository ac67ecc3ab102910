//! The resolved roster: teams and players derived from the decoded log,
//! display-color assignment, winner resolution, and the player-to-team
//! lookup used for chat attribution and name coloring.

use vstd::prelude::*;

use crate::log::SourcePlayer;
use crate::log::SourceTeam;
use crate::strutil::hex_seq;
use crate::strutil::hex_pad;
use crate::strutil::str_eq;
use vstd::arithmetic::power::pow;

verus! {

/// A 128-bit player identity, as two 64-bit halves.
#[derive(Clone, Copy, PartialEq, Eq, Structural, Debug)]
pub struct UUID {
    pub msb: u64,
    pub lsb: u64,
}

/// A resolved player: identity plus display names.
pub struct Player {
    pub uuid: UUID,
    pub name: String,
    pub nick: Option<String>,
}

/// A resolved team: display name, resolved color, score, and its players
/// in source order.
pub struct Team {
    pub name: String,
    pub players: Vec<Player>,
    pub score: i32,
    pub color: &'static str,
}

/// The mathematical value of a resolved player.
#[verifier::ext_equal]
pub struct PlayerView {
    pub uuid: UUID,
    pub name: Seq<char>,
    pub nick: Option<Seq<char>>,
}

/// The mathematical value of a resolved team.
#[verifier::ext_equal]
pub struct TeamView {
    pub name: Seq<char>,
    pub players: Seq<PlayerView>,
    pub score: i32,
    pub color: Seq<char>,
}

impl View for Player {
    type V = PlayerView;

    open spec fn view(&self) -> PlayerView {
        PlayerView {
            uuid: self.uuid,
            name: self.name@,
            nick: match self.nick {
                Some(n) => Some(n@),
                None => None,
            },
        }
    }
}

impl DeepView for Player {
    type V = PlayerView;

    open spec fn deep_view(&self) -> PlayerView {
        self.view()
    }
}

impl View for Team {
    type V = TeamView;

    open spec fn view(&self) -> TeamView {
        TeamView {
            name: self.name@,
            players: self.players.deep_view(),
            score: self.score,
            color: self.color@,
        }
    }
}

impl DeepView for Team {
    type V = TeamView;

    open spec fn deep_view(&self) -> TeamView {
        self.view()
    }
}

impl Clone for Player {
    /// A cloned player equals the original.
    fn clone(&self) -> (res: Self)
        ensures
            res == *self,
    {
        Player { uuid: self.uuid, name: self.name.clone(), nick: self.nick.clone() }
    }
}

impl Clone for Team {
    /// A cloned team has the same mathematical value as the original.
    fn clone(&self) -> (res: Self)
        ensures
            res@ == self@,
            res.color == self.color,
    {
        let res = Team {
            name: self.name.clone(),
            players: self.players.clone(),
            score: self.score,
            color: self.color,
        };
        proof {
            assert(res.players.deep_view() =~= self.players.deep_view());
            assert(res@ =~= self@);
        }
        res
    }
}

/// The CSS color for a single-character color code; codes outside the
/// 16-entry table map to black.
pub open spec fn spec_mc_to_rgb(mc: char) -> Seq<char> {
    if mc == '1' {
        "#0000AA"@
    } else if mc == '2' {
        "#00AA00"@
    } else if mc == '3' {
        "#00AAAA"@
    } else if mc == '4' {
        "#AA0000"@
    } else if mc == '5' {
        "#AA00AA"@
    } else if mc == '6' {
        "#FFAA00"@
    } else if mc == '7' {
        "#AAAAAA"@
    } else if mc == '8' {
        "#555555"@
    } else if mc == '9' {
        "#5555FF"@
    } else if mc == 'a' || mc == 'A' {
        "#55FF55"@
    } else if mc == 'b' || mc == 'B' {
        "#55FFFF"@
    } else if mc == 'c' || mc == 'C' {
        "#e00b0b"@
    } else if mc == 'd' || mc == 'D' {
        "#FF55FF"@
    } else if mc == 'e' || mc == 'E' {
        "#cc901e"@
    } else if mc == 'f' || mc == 'F' {
        "#FFFFFF"@
    } else {
        "#000000"@
    }
}

/// Converts a single-character color code to a CSS color.
pub fn mc_to_rgb(mc: char) -> (r: &'static str)
    ensures
        r@ == spec_mc_to_rgb(mc),
{
    match mc {
        '1' => "#0000AA",
        '2' => "#00AA00",
        '3' => "#00AAAA",
        '4' => "#AA0000",
        '5' => "#AA00AA",
        '6' => "#FFAA00",
        '7' => "#AAAAAA",
        '8' => "#555555",
        '9' => "#5555FF",
        'a' | 'A' => "#55FF55",
        'b' | 'B' => "#55FFFF",
        'c' | 'C' => "#e00b0b",
        'd' | 'D' => "#FF55FF",
        'e' | 'E' => "#cc901e",
        'f' | 'F' => "#FFFFFF",
        _ => "#000000",
    }
}

/// The default palette code for a team at roster position `idx`: the
/// two-entry palette is indexed modulo its length.
pub open spec fn spec_default_color(idx: int) -> char {
    if idx % 2 == 0 {
        'c'
    } else {
        'e'
    }
}

/// The resolved color of a team: its explicit code when present, else the
/// default palette entry for its roster position.
pub open spec fn spec_team_color(color: Option<char>, idx: int) -> Seq<char> {
    match color {
        Some(mc) => spec_mc_to_rgb(mc),
        None => spec_mc_to_rgb(spec_default_color(idx)),
    }
}

/// Resolves the display color of the team at roster position `idx`.
pub fn get_team_color(team: &SourceTeam, idx: usize) -> (r: &'static str)
    ensures
        r@ == spec_team_color(team.color, idx as int),
{
    mc_to_rgb(match team.color {
        Some(mc) => mc,
        None => {
            if idx % 2 == 0 {
                'c'
            } else {
                'e'
            }
        },
    })
}

/// The synthetic spectators team: empty roster, zero score, gray.
pub open spec fn spec_spectators() -> TeamView {
    TeamView { name: "Spec"@, players: Seq::empty(), score: 0, color: "#AAAAAA"@ }
}

/// Builds the synthetic spectators team, used whenever a player cannot be
/// attributed to any declared team.
pub fn spectators() -> (r: Team)
    ensures
        r@ == spec_spectators(),
        r.color@ == spec_mc_to_rgb('7'),
{
    let r = Team { name: String::from_str("Spec"), players: Vec::new(), score: 0, color: mc_to_rgb('7') };
    proof {
        assert(r@ =~= spec_spectators());
    }
    r
}

/// The resolved value of one declared player.
pub open spec fn spec_player_from_source(p: SourcePlayer) -> PlayerView {
    PlayerView {
        uuid: UUID { msb: p.uuid_msb, lsb: p.uuid_lsb },
        name: p.name@,
        nick: match p.nick {
            Some(n) => Some(n@),
            None => None,
        },
    }
}

/// The resolved value of one declared team at roster position `idx`.
pub open spec fn spec_team_from_source(t: SourceTeam, idx: int) -> TeamView {
    TeamView {
        name: t.name@,
        players: Seq::new(t.players@.len(), |j: int| spec_player_from_source(t.players@[j])),
        score: t.score,
        color: spec_team_color(t.color, idx),
    }
}

/// The resolved roster: every declared team, in source order.
pub open spec fn spec_build_teams(ts: Seq<SourceTeam>) -> Seq<TeamView> {
    Seq::new(ts.len(), |i: int| spec_team_from_source(ts[i], i))
}

/// Builds one resolved player, taking ownership of the declared record.
fn build_player(p: SourcePlayer) -> (r: Player)
    ensures
        r@ == spec_player_from_source(p),
{
    Player { uuid: UUID { msb: p.uuid_msb, lsb: p.uuid_lsb }, name: p.name, nick: p.nick }
}

/// Builds one resolved team from the declared record at roster position
/// `idx`.
fn build_team(t: SourceTeam, idx: usize) -> (r: Team)
    ensures
        r@ == spec_team_from_source(t, idx as int),
{
    let color = get_team_color(&t, idx);
    let mut players: Vec<Player> = Vec::new();
    let ghost src = t.players@;
    for p in iter: t.players.into_iter()
        invariant
            iter.seq() == src,
            players.len() == iter.index(),
            forall|j: int|
                0 <= j < players.len() ==> players.deep_view()[j]
                    == spec_player_from_source(src[j]),
    {
        let ghost pre = players.deep_view();
        let rp = build_player(p);
        players.push(rp);
        proof {
            assert(players.deep_view() =~= pre.push(rp@));
        }
    }
    let r = Team { name: t.name, players, score: t.score, color };
    proof {
        assert(r@.players =~= spec_team_from_source(t, idx as int).players);
        assert(r@ =~= spec_team_from_source(t, idx as int));
    }
    r
}

/// Builds the resolved roster in source order; the color palette fallback
/// depends on each team's position.
pub fn build_teams(ts: Vec<SourceTeam>) -> (r: Vec<Team>)
    ensures
        r.deep_view() == spec_build_teams(ts@),
{
    let mut teams: Vec<Team> = Vec::new();
    let ghost src = ts@;
    for t in iter: ts.into_iter()
        invariant
            iter.seq() == src,
            teams.len() == iter.index(),
            forall|i: int|
                0 <= i < teams.len() ==> teams.deep_view()[i] == spec_team_from_source(src[i], i),
    {
        let ghost pre = teams.deep_view();
        let idx = teams.len();
        let team = build_team(t, idx);
        teams.push(team);
        proof {
            assert(teams.deep_view() =~= pre.push(team@));
        }
    }
    proof {
        assert(teams.deep_view() =~= spec_build_teams(src));
    }
    teams
}

/// The first roster position whose team is named `name`, if any.
pub open spec fn spec_find_team(ts: Seq<TeamView>, name: Seq<char>) -> Option<int>
    decreases ts.len(),
{
    if ts.len() == 0 {
        None
    } else if ts[0].name == name {
        Some(0)
    } else {
        match spec_find_team(ts.drop_first(), name) {
            Some(i) => Some(i + 1),
            None => None,
        }
    }
}

/// What `spec_find_team` finds: the first matching position, or nothing
/// when no team carries the name.
pub proof fn lemma_find_team(ts: Seq<TeamView>, name: Seq<char>)
    ensures
        match spec_find_team(ts, name) {
            Some(i) => 0 <= i < ts.len() && ts[i].name == name && forall|j: int|
                0 <= j < i ==> ts[j].name != name,
            None => forall|j: int| 0 <= j < ts.len() ==> ts[j].name != name,
        },
    decreases ts.len(),
{
    if ts.len() > 0 && ts[0].name != name {
        lemma_find_team(ts.drop_first(), name);
        assert forall|j: int| 0 < j < ts.len() implies ts.drop_first()[j - 1] == ts[j] by {}
    }
}

/// The resolved winner: the first team whose name equals the declared
/// winner name, else a synthesized placeholder; absent when no winner is
/// declared.
pub open spec fn spec_resolve_winner(ts: Seq<TeamView>, winner: Option<Seq<char>>) -> Option<
    TeamView,
> {
    match winner {
        None => None,
        Some(name) => match spec_find_team(ts, name) {
            Some(i) => Some(ts[i]),
            None => Some(TeamView { name: name, players: Seq::empty(), score: 0, color: ""@ }),
        },
    }
}

/// Resolves the declared winner name against the roster.  A matching team
/// is returned as it stands in the roster; an unmatched name yields a
/// placeholder with no players, zero score and an empty color; an absent
/// name yields no winner at all.
pub fn resolve_winner(teams: &Vec<Team>, winner: Option<String>) -> (r: Option<Team>)
    ensures
        r.deep_view() == spec_resolve_winner(teams.deep_view(), winner.deep_view()),
{
    let ghost ts = teams.deep_view();
    let name = match winner {
        None => {
            return None;
        },
        Some(name) => name,
    };
    let mut i: usize = 0;
    while i < teams.len()
        invariant
            i <= teams.len(),
            ts == teams.deep_view(),
            winner.deep_view() == Some(name@),
            forall|j: int| 0 <= j < i ==> ts[j].name != name@,
        decreases teams.len() - i,
    {
        if str_eq(teams[i].name.as_str(), name.as_str()) {
            proof {
                lemma_find_team(ts, name@);
                assert(ts[i as int].name == name@);
                assert(spec_find_team(ts, name@) == Some(i as int));
            }
            let t = teams[i].clone();
            proof {
                assert(t@ == ts[i as int]);
            }
            return Some(t);
        }
        i += 1;
    }
    proof {
        lemma_find_team(ts, name@);
        assert(spec_find_team(ts, name@) is None);
    }
    let r = Team { name, players: Vec::new(), score: 0, color: "" };
    proof {
        assert(r@ =~= spec_resolve_winner(ts, Some(r.name@)).unwrap());
    }
    Some(r)
}

/// Whether the team has a player with the given display name.
pub open spec fn spec_team_has_player(t: TeamView, name: Seq<char>) -> bool {
    exists|j: int| 0 <= j < t.players.len() && t.players[j].name == name
}

/// The owning team of a player, by display name: the *last* roster
/// position whose team lists the player.  When a name appears on more
/// than one team — malformed but tolerated input — the later team wins,
/// mirroring a lookup table built by insertion in roster order.
pub open spec fn spec_player_team(ts: Seq<TeamView>, name: Seq<char>) -> Option<int>
    decreases ts.len(),
{
    if ts.len() == 0 {
        None
    } else if spec_team_has_player(ts.last(), name) {
        Some(ts.len() - 1)
    } else {
        spec_player_team(ts.drop_last(), name)
    }
}

/// Looks up the team a player belongs to, as a roster position.
pub fn find_player_team(teams: &Vec<Team>, player: &str) -> (r: Option<usize>)
    ensures
        match r {
            Some(i) => 0 <= i < teams.len() && Some(i as int) == spec_player_team(
                teams.deep_view(),
                player@,
            ),
            None => spec_player_team(teams.deep_view(), player@) is None,
        },
{
    let ghost ts = teams.deep_view();
    let mut i: usize = teams.len();
    proof {
        assert(ts.take(i as int) =~= ts);
    }
    while i > 0
        invariant
            i <= teams.len(),
            ts == teams.deep_view(),
            spec_player_team(ts, player@) == spec_player_team(ts.take(i as int), player@),
        decreases i,
    {
        proof {
            lemma_player_team_take(ts, player@, i as int);
        }
        i -= 1;
        let team = &teams[i];
        let mut j: usize = 0;
        while j < team.players.len()
            invariant
                0 <= i < teams.len(),
                team == &teams@[i as int],
                ts == teams.deep_view(),
                j <= team.players.len(),
                forall|k: int| 0 <= k < j ==> ts[i as int].players[k].name != player@,
                spec_player_team(ts, player@) == if spec_team_has_player(
                    ts[i as int],
                    player@,
                ) {
                    Some(i as int)
                } else {
                    spec_player_team(ts.take(i as int), player@)
                },
            decreases team.players.len() - j,
        {
            if str_eq(team.players[j].name.as_str(), player) {
                proof {
                    assert(ts[i as int].players[j as int].name == player@);
                    assert(spec_team_has_player(ts[i as int], player@));
                    assert(spec_player_team(ts, player@) == Some(i as int));
                }
                return Some(i);
            }
            j += 1;
        }
        proof {
            assert(forall|k: int|
                0 <= k < ts[i as int].players.len() ==> ts[i as int].players[k].name != player@);
            assert(!spec_team_has_player(ts[i as int], player@));
        }
    }
    proof {
        assert(ts.take(0) =~= Seq::empty());
    }
    None
}

proof fn lemma_player_team_take(ts: Seq<TeamView>, name: Seq<char>, i: int)
    requires
        0 < i <= ts.len(),
    ensures
        spec_player_team(ts.take(i), name) == if spec_team_has_player(ts[i - 1], name) {
            Some(i - 1)
        } else {
            spec_player_team(ts.take(i - 1), name)
        },
{
    let pre = ts.take(i);
    assert(pre.last() == ts[i - 1]);
    assert(pre.drop_last() =~= ts.take(i - 1));
}

/// The total number of players of a roster: the sum of the team sizes.
pub open spec fn spec_roster_size(ts: Seq<TeamView>) -> int
    decreases ts.len(),
{
    if ts.len() == 0 {
        0
    } else {
        spec_roster_size(ts.drop_last()) + ts.last().players.len()
    }
}

/// The displayed player total: the declared starting count, or, when the
/// log did not record one (a declared count of zero), the current roster
/// size.
pub open spec fn spec_total_players(ts: Seq<TeamView>, start_players: u32) -> int {
    if start_players == 0 {
        spec_roster_size(ts)
    } else {
        start_players as int
    }
}

/// Computes the displayed player total.  The declared count wins when it
/// is present, even when it exceeds the current roster size.
pub fn total_players(teams: &Vec<Team>, start_players: u32) -> (r: usize)
    requires
        spec_roster_size(teams.deep_view()) <= usize::MAX,
        start_players <= usize::MAX,
    ensures
        r as int == spec_total_players(teams.deep_view(), start_players),
{
    let ghost ts = teams.deep_view();
    if start_players != 0 {
        return start_players as usize;
    }
    let mut sum: usize = 0;
    let mut i: usize = 0;
    while i < teams.len()
        invariant
            i <= teams.len(),
            ts == teams.deep_view(),
            sum == spec_roster_size(ts.take(i as int)),
            spec_roster_size(ts) <= usize::MAX,
        decreases teams.len() - i,
    {
        proof {
            lemma_roster_size_take(ts, i as int + 1);
            lemma_roster_size_mono(ts, i as int + 1);
        }
        sum = sum + teams[i].players.len();
        i += 1;
    }
    proof {
        assert(ts.take(teams.len() as int) =~= ts);
    }
    sum
}

proof fn lemma_roster_size_take(ts: Seq<TeamView>, i: int)
    requires
        0 < i <= ts.len(),
    ensures
        spec_roster_size(ts.take(i)) == spec_roster_size(ts.take(i - 1)) + ts[i - 1].players.len(),
{
    assert(ts.take(i).drop_last() =~= ts.take(i - 1));
    assert(ts.take(i).last() == ts[i - 1]);
}

proof fn lemma_roster_size_mono(ts: Seq<TeamView>, i: int)
    requires
        0 <= i <= ts.len(),
    ensures
        spec_roster_size(ts.take(i)) <= spec_roster_size(ts),
        spec_roster_size(ts.take(i)) >= 0,
    decreases ts.len() - i,
{
    lemma_roster_size_nonneg(ts.take(i));
    if i == ts.len() {
        assert(ts.take(i) =~= ts);
    } else {
        lemma_roster_size_take(ts, i + 1);
        lemma_roster_size_mono(ts, i + 1);
    }
}

proof fn lemma_roster_size_nonneg(ts: Seq<TeamView>)
    ensures
        spec_roster_size(ts) >= 0,
    decreases ts.len(),
{
    if ts.len() > 0 {
        lemma_roster_size_nonneg(ts.drop_last());
    }
}

/// The team at a roster position, with out-of-range positions falling
/// back to the spectators team.
pub fn team_from_idx(teams: &Vec<Team>, idx: usize) -> (r: Team)
    ensures
        r@ == if idx < teams.len() {
            teams.deep_view()[idx as int]
        } else {
            spec_spectators()
        },
{
    if idx < teams.len() {
        teams[idx].clone()
    } else {
        spectators()
    }
}

/// The CSS color a player's name is rendered in anywhere in the output:
/// the owning team's color marked `!important`, or black for a player on
/// no team.
pub open spec fn spec_player_color(ts: Seq<TeamView>, name: Seq<char>) -> Seq<char> {
    match spec_player_team(ts, name) {
        Some(i) => ts[i].color + " !important"@,
        None => "#000000"@,
    }
}

/// Resolves the name color for a player.
pub fn player_color(teams: &Vec<Team>, player: &str) -> (r: String)
    ensures
        r@ == spec_player_color(teams.deep_view(), player@),
{
    match find_player_team(teams, player) {
        Some(i) => {
            let mut s = String::from_str(teams[i].color);
            s.append(" !important");
            s
        },
        None => String::from_str("#000000"),
    }
}

/// The big-endian value of a byte sequence.
pub open spec fn spec_be_bytes(s: Seq<u8>) -> int
    decreases s.len(),
{
    if s.len() == 0 {
        0
    } else {
        spec_be_bytes(s.drop_last()) * 256 + s.last()
    }
}

proof fn lemma_be_bytes_bound(s: Seq<u8>)
    ensures
        0 <= spec_be_bytes(s),
        spec_be_bytes(s) < pow(256, s.len() as nat),
    decreases s.len(),
{
    vstd::arithmetic::power::lemma_pow_positive(256, s.len() as nat);
    if s.len() > 0 {
        lemma_be_bytes_bound(s.drop_last());
        vstd::arithmetic::power::lemma_pow1(256);
        vstd::arithmetic::power::lemma_pow_adds(256, (s.len() - 1) as nat, 1);
    }
}

impl UUID {
    /// Reads an identity from its 16-byte big-endian wire form.
    pub fn from_bytes(bytes: &[u8]) -> (r: UUID)
        requires
            bytes@.len() == 16,
        ensures
            r.msb as int == spec_be_bytes(bytes@.subrange(0, 8)),
            r.lsb as int == spec_be_bytes(bytes@.subrange(8, 16)),
    {
        let msb = be_u64(bytes, 0);
        let lsb = be_u64(bytes, 8);
        UUID { msb, lsb }
    }

    /// Renders the identity as the canonical dashed hexadecimal string:
    /// five groups of 8, 4, 4, 4 and 12 lowercase hex digits.
    pub fn to_dashed_string(&self) -> (r: String)
        ensures
            r@ == spec_uuid_str(*self),
    {
        let mut s = hex_pad(self.msb / 0x1_0000_0000, 8);
        s.append("-");
        let g2 = hex_pad(self.msb / 0x1_0000, 4);
        s.append(g2.as_str());
        s.append("-");
        let g3 = hex_pad(self.msb, 4);
        s.append(g3.as_str());
        s.append("-");
        let g4 = hex_pad(self.lsb / 0x1_0000_0000_0000, 4);
        s.append(g4.as_str());
        s.append("-");
        let g5 = hex_pad(self.lsb, 12);
        s.append(g5.as_str());
        proof {
            assert(s@ =~= spec_uuid_str(*self));
        }
        s
    }
}

/// The canonical dashed hexadecimal rendering of an identity.
pub open spec fn spec_uuid_str(u: UUID) -> Seq<char> {
    hex_seq(u.msb as int / 0x1_0000_0000, 8) + "-"@ + hex_seq(u.msb as int / 0x1_0000, 4) + "-"@
        + hex_seq(u.msb as int, 4) + "-"@ + hex_seq(u.lsb as int / 0x1_0000_0000_0000, 4) + "-"@
        + hex_seq(u.lsb as int, 12)
}

/// Reads eight big-endian bytes starting at `start`.
fn be_u64(bytes: &[u8], start: usize) -> (r: u64)
    requires
        start + 8 <= bytes@.len(),
    ensures
        r as int == spec_be_bytes(bytes@.subrange(start as int, start as int + 8)),
{
    let ghost window = bytes@.subrange(start as int, start as int + 8);
    let n = bytes.len();
    let mut r: u64 = 0;
    let mut i: usize = 0;
    proof {
        vstd::arithmetic::power::lemma_pow0(256);
        assert(window.take(0) =~= Seq::empty());
    }
    while i < 8
        invariant
            i <= 8,
            start + 8 <= n,
            n == bytes@.len(),
            window == bytes@.subrange(start as int, start as int + 8),
            r as int == spec_be_bytes(window.take(i as int)),
            (r as int) < pow(256, i as nat),
        decreases 8 - i,
    {
        proof {
            lemma_be_bytes_bound(window.take(i as int));
            vstd::arithmetic::power::lemma_pow_adds(256, i as nat, 1);
            vstd::arithmetic::power::lemma_pow1(256);
            vstd::arithmetic::power::lemma_pow_increases(256, (i + 1) as nat, 8);
            reveal_with_fuel(pow, 9);
            assert(pow(256, 8) == 0x1_0000_0000_0000_0000);
            assert(window.take(i as int + 1).drop_last() =~= window.take(i as int));
        }
        let b = bytes[start + i];
        r = r * 256 + (b as u64);
        i += 1;
    }
    proof {
        assert(window.take(8) =~= window);
    }
    r
}

} // verus!
