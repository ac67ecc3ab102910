use gamelog_core::log::SourcePlayer;
use gamelog_core::log::SourceTeam;
use gamelog_core::roster::UUID;
use gamelog_core::roster::build_teams;
use gamelog_core::roster::find_player_team;
use gamelog_core::roster::get_team_color;
use gamelog_core::roster::mc_to_rgb;
use gamelog_core::roster::player_color;
use gamelog_core::roster::resolve_winner;
use gamelog_core::roster::spectators;
use gamelog_core::roster::team_from_idx;
use gamelog_core::roster::total_players;

fn player(name: &str) -> SourcePlayer {
    SourcePlayer { name: String::from(name), uuid_msb: 0, uuid_lsb: 0, nick: None }
}

fn team(name: &str, color: Option<char>, players: Vec<SourcePlayer>) -> SourceTeam {
    SourceTeam { name: String::from(name), color, score: 5, players }
}

#[test]
fn explicit_color_code_c_is_red() {
    let t = team("Red", Some('c'), vec![]);
    assert_eq!(get_team_color(&t, 0), "#e00b0b");
    assert_eq!(get_team_color(&t, 3), "#e00b0b");
}

#[test]
fn default_palette_is_indexed_modulo_its_length() {
    let t = team("Any", None, vec![]);
    assert_eq!(get_team_color(&t, 0), "#e00b0b");
    assert_eq!(get_team_color(&t, 1), "#cc901e");
    assert_eq!(get_team_color(&t, 2), "#e00b0b");
    assert_eq!(get_team_color(&t, 3), "#cc901e");
}

#[test]
fn color_codes_are_case_insensitive_and_unknown_is_black() {
    assert_eq!(mc_to_rgb('C'), "#e00b0b");
    assert_eq!(mc_to_rgb('a'), "#55FF55");
    assert_eq!(mc_to_rgb('A'), "#55FF55");
    assert_eq!(mc_to_rgb('7'), "#AAAAAA");
    assert_eq!(mc_to_rgb('z'), "#000000");
    assert_eq!(mc_to_rgb(' '), "#000000");
}

#[test]
fn spectators_team_is_gray_and_empty() {
    let spec = spectators();
    assert_eq!(spec.name, "Spec");
    assert_eq!(spec.color, "#AAAAAA");
    assert_eq!(spec.score, 0);
    assert!(spec.players.is_empty());
}

#[test]
fn winner_matching_a_team_is_that_team() {
    let teams = build_teams(vec![
        team("Red", Some('c'), vec![player("Ann")]),
        team("Blue", Some('9'), vec![player("Bob")]),
    ]);
    let winner = resolve_winner(&teams, Some(String::from("Blue"))).expect("winner expected");
    assert_eq!(winner.name, "Blue");
    assert_eq!(winner.color, "#5555FF");
    assert_eq!(winner.score, 5);
    assert_eq!(winner.players.len(), 1);
    assert_eq!(winner.players[0].name, "Bob");
}

#[test]
fn winner_without_a_match_is_a_placeholder() {
    let teams = build_teams(vec![team("Red", Some('c'), vec![player("Ann")])]);
    let winner = resolve_winner(&teams, Some(String::from("Green"))).expect("winner expected");
    assert_eq!(winner.name, "Green");
    assert_eq!(winner.color, "");
    assert_eq!(winner.score, 0);
    assert!(winner.players.is_empty());
}

#[test]
fn absent_winner_resolves_to_none() {
    let teams = build_teams(vec![team("Red", Some('c'), vec![player("Ann")])]);
    assert!(resolve_winner(&teams, None).is_none());
}

#[test]
fn player_total_falls_back_to_roster_size() {
    let teams = build_teams(vec![
        team("Red", None, vec![player("A"), player("B"), player("C")]),
        team("Blue", None, vec![player("D"), player("E"), player("F"), player("G")]),
    ]);
    assert_eq!(total_players(&teams, 0), 7);
}

#[test]
fn declared_player_total_wins_over_roster_size() {
    let teams = build_teams(vec![
        team("Red", None, vec![player("A"), player("B"), player("C")]),
        team("Blue", None, vec![player("D"), player("E"), player("F"), player("G")]),
    ]);
    assert_eq!(total_players(&teams, 10), 10);
}

#[test]
fn player_lookup_finds_the_owning_team() {
    let teams = build_teams(vec![
        team("Red", None, vec![player("Ann")]),
        team("Blue", None, vec![player("Bob")]),
    ]);
    assert_eq!(find_player_team(&teams, "Ann"), Some(0));
    assert_eq!(find_player_team(&teams, "Bob"), Some(1));
    assert_eq!(find_player_team(&teams, "Ghost"), None);
}

#[test]
fn duplicate_player_name_belongs_to_the_later_team() {
    // Malformed but tolerated input: the later team in roster order wins,
    // mirroring a lookup table built by insertion.
    let teams = build_teams(vec![
        team("Red", None, vec![player("Ann")]),
        team("Blue", None, vec![player("Ann")]),
    ]);
    assert_eq!(find_player_team(&teams, "Ann"), Some(1));
}

#[test]
fn player_name_color_marks_the_owning_team() {
    let teams = build_teams(vec![team("Red", Some('c'), vec![player("Ann")])]);
    assert_eq!(player_color(&teams, "Ann"), "#e00b0b !important");
    assert_eq!(player_color(&teams, "Ghost"), "#000000");
}

#[test]
fn out_of_range_team_index_falls_back_to_spectators() {
    let teams = build_teams(vec![team("Red", Some('c'), vec![])]);
    assert_eq!(team_from_idx(&teams, 0).name, "Red");
    assert_eq!(team_from_idx(&teams, 5).name, "Spec");
    assert_eq!(team_from_idx(&teams, 5).color, "#AAAAAA");
}

#[test]
fn uuid_reads_big_endian_halves() {
    let bytes: Vec<u8> = vec![
        0x00, 0x11, 0x22, 0x33, 0x44, 0x55, 0x66, 0x77, 0x88, 0x99, 0xaa, 0xbb, 0xcc, 0xdd, 0xee,
        0xff,
    ];
    let uuid = UUID::from_bytes(&bytes);
    assert_eq!(uuid.msb, 0x0011223344556677);
    assert_eq!(uuid.lsb, 0x8899aabbccddeeff);
}

#[test]
fn uuid_renders_as_canonical_dashed_hex() {
    let uuid = UUID { msb: 0x0011223344556677, lsb: 0x8899aabbccddeeff };
    assert_eq!(uuid.to_dashed_string(), "00112233-4455-6677-8899-aabbccddeeff");
}

#[test]
fn uuid_rendering_pads_zero_halves() {
    let uuid = UUID { msb: 0, lsb: 1 };
    assert_eq!(uuid.to_dashed_string(), "00000000-0000-0000-0000-000000000001");
}

#[test]
fn roster_keeps_source_order_and_nicks() {
    let teams = build_teams(vec![
        SourceTeam {
            name: String::from("Red"),
            color: None,
            score: -3,
            players: vec![SourcePlayer {
                name: String::from("Ann"),
                uuid_msb: 7,
                uuid_lsb: 9,
                nick: Some(String::from("Nickname")),
            }],
        },
        team("Blue", None, vec![]),
    ]);
    assert_eq!(teams.len(), 2);
    assert_eq!(teams[0].name, "Red");
    assert_eq!(teams[0].score, -3);
    assert_eq!(teams[1].name, "Blue");
    assert_eq!(teams[0].players[0].nick.as_deref(), Some("Nickname"));
    assert_eq!(teams[0].players[0].uuid.msb, 7);
    assert_eq!(teams[0].players[0].uuid.lsb, 9);
}
