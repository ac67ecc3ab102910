use gamelog_core::bed;
use gamelog_core::bp;
use gamelog_core::error::Error;
use gamelog_core::event::BukkitDamageCause;
use gamelog_core::gamelog::format_duration;
use gamelog_core::gamelog::map_file_name;
use gamelog_core::gamelog::parse_request;
use gamelog_core::grav::grav_format_time;
use gamelog_core::modes::GameMode;
use gamelog_core::timv;
use gamelog_core::wire::decode_game_id;

#[test]
fn mode_keys_resolve_case_insensitively() {
    assert_eq!(GameMode::from_key("cai"), Some(GameMode::CAI));
    assert_eq!(GameMode::from_key("CAI"), Some(GameMode::CAI));
    assert_eq!(GameMode::from_key("Timv"), Some(GameMode::TIMV));
    assert_eq!(GameMode::from_key("bp"), Some(GameMode::BP));
    assert_eq!(GameMode::from_key("grav"), Some(GameMode::GRAV));
    assert_eq!(GameMode::from_key("bed"), Some(GameMode::BED));
    assert_eq!(GameMode::from_key("halloween2023"), Some(GameMode::Halloween2023));
    assert_eq!(GameMode::from_key("halloween2024"), Some(GameMode::Halloween2024));
    assert_eq!(GameMode::from_key("chess"), None);
    assert_eq!(GameMode::from_key(""), None);
}

#[test]
fn mode_names_and_storage_keys() {
    assert_eq!(GameMode::CAI.get_full_name(), "Cowboys and Indians");
    assert_eq!(GameMode::TIMV.get_full_name(), "Trouble in Mineville");
    assert_eq!(GameMode::BP.get_full_name(), "BlockParty");
    assert_eq!(GameMode::GRAV.get_full_name(), "Gravity");
    assert_eq!(GameMode::BED.get_full_name(), "Bed Wars");
    assert_eq!(GameMode::Halloween2023.get_full_name(), "Kig-o'-ween (2023)");
    assert_eq!(GameMode::CAI.get_database_id(), "cai");
    assert_eq!(GameMode::Halloween2024.get_database_id(), "halloween2024");
}

#[test]
fn game_ids_decode_to_fourteen_big_endian_bytes() {
    let bytes = decode_game_id("1").expect("valid id");
    assert_eq!(bytes.len(), 14);
    assert_eq!(&bytes[..13], &[0u8; 13]);
    assert_eq!(bytes[13], 1);

    // "10" is one 62, so the low byte is 62.
    let bytes = decode_game_id("10").expect("valid id");
    assert_eq!(bytes[13], 62);
    assert_eq!(bytes[12], 0);

    // "z" is the largest single digit.
    let bytes = decode_game_id("z").expect("valid id");
    assert_eq!(bytes[13], 61);
}

#[test]
fn game_id_bytes_reassemble_to_the_numeral_value() {
    let bytes = decode_game_id("rustlang").expect("valid id");
    let mut value: u128 = 0;
    for b in bytes {
        value = value * 256 + b as u128;
    }
    assert_eq!(value, 189876682536016);
}

#[test]
fn all_zero_game_id_decodes_to_zero() {
    let bytes = decode_game_id("000").expect("valid id");
    assert_eq!(bytes, vec![0u8; 14]);
}

#[test]
fn malformed_game_ids_are_rejected() {
    assert!(decode_game_id("").is_none());
    assert!(decode_game_id("abc!").is_none());
    assert!(decode_game_id("with space").is_none());
    // 23 digits of the largest base-62 numeral exceed 128 bits.
    assert!(decode_game_id("zzzzzzzzzzzzzzzzzzzzzzz").is_none());
}

#[test]
fn request_parsing_distinguishes_bad_id_from_bad_mode() {
    assert_eq!(parse_request("cai", "!!"), Err(Error::InvalidGameId));
    assert_eq!(parse_request("chess", "!!"), Err(Error::InvalidGameId));
    assert_eq!(parse_request("chess", "abc"), Err(Error::ModeNotFound));
    let (mode, id) = parse_request("cai", "1").expect("request expected to parse");
    assert_eq!(mode, GameMode::CAI);
    assert_eq!(id.len(), 14);
    assert_eq!(id[13], 1);
}

#[test]
fn error_messages_distinguish_outcomes() {
    assert_eq!(Error::NotFound.message(), "Not found");
    assert_eq!(Error::ModeNotFound.message(), "Not found");
    assert_eq!(Error::InvalidGameId.message(), "Invalid game ID");
    assert_eq!(
        Error::Backend.message(),
        "Internal error. Please contact the server's administrators."
    );
}

#[test]
fn durations_render_as_padded_minutes_and_seconds() {
    assert_eq!(format_duration(0), "00:00");
    assert_eq!(format_duration(61000), "01:01");
    assert_eq!(format_duration(90500), "01:30");
    assert_eq!(format_duration(3600000), "60:00");
    assert_eq!(format_duration(59999), "00:59");
}

#[test]
fn negative_durations_render_like_machine_division() {
    assert_eq!(format_duration(-5000), "00:-5");
    assert_eq!(format_duration(-65000), "-1:-5");
}

#[test]
fn stage_times_render_with_milliseconds() {
    assert_eq!(grav_format_time(61_500_000_000), "01:01.500");
    assert_eq!(grav_format_time(0), "00:00.000");
    assert_eq!(grav_format_time(999_999_999), "00:00.999");
    assert_eq!(grav_format_time(600_000_000_000), "10:00.000");
}

#[test]
fn map_file_names_keep_only_lowercased_letters_and_digits() {
    assert_eq!(map_file_name("The Map_2!"), "themap2");
    assert_eq!(map_file_name("Castle"), "castle");
    assert_eq!(map_file_name("ABC-123"), "abc123");
    assert_eq!(map_file_name(""), "default");
    assert_eq!(map_file_name("!!!"), "");
}

#[test]
fn damage_descriptions_follow_the_cause_taxonomy() {
    assert_eq!(BukkitDamageCause::EntityAttack.get_damage_desc(), "Melee");
    assert_eq!(BukkitDamageCause::FireTick.get_damage_desc(), "Fire");
    assert_eq!(BukkitDamageCause::Other.get_damage_desc(), "Unknown cause");

    let death = timv::DeathEvent {
        player: String::from("Ann"),
        cause: timv::DeathCause::Bukkit,
        last_damage_cause: BukkitDamageCause::Projectile,
    };
    assert_eq!(death.get_damage_desc(), "Projectile");
    let death = timv::DeathEvent { cause: timv::DeathCause::Claymore, ..death };
    assert_eq!(death.get_damage_desc(), "Claymore");

    let death = bed::DeathEvent {
        player: String::from("Ann"),
        cause: bed::DeathCause::OutOfMap,
        last_damage_cause: BukkitDamageCause::Fall,
    };
    assert_eq!(death.get_damage_desc(), "Out of Map");
    let death = bed::DeathEvent { cause: bed::DeathCause::Bukkit, ..death };
    assert_eq!(death.get_damage_desc(), "Fall");

    let death = bp::PlayerDeathEvent {
        player: String::from("Ann"),
        death_cause: bp::PlayerDeathCause::Detection,
    };
    assert_eq!(death.get_damage_desc(), "Void");
}
