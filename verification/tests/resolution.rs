use gamelog_core::bed;
use gamelog_core::bp;
use gamelog_core::cai;
use gamelog_core::event::ChatEvent;
use gamelog_core::event::ChatType;
use gamelog_core::event::EventType;
use gamelog_core::event::ExtensionPayload;
use gamelog_core::gamelog::ChatChannel;
use gamelog_core::gamelog::Functions;
use gamelog_core::gamelog::WrappedEvent;
use gamelog_core::gamelog::WrappedExtension;
use gamelog_core::gamelog::resolve_log;
use gamelog_core::grav;
use gamelog_core::halloween;
use gamelog_core::log::GameLog;
use gamelog_core::log::RawEvent;
use gamelog_core::log::SourcePlayer;
use gamelog_core::log::SourceTeam;
use gamelog_core::modes::GameMode;
use gamelog_core::timv;

fn empty_log() -> GameLog {
    GameLog {
        events: vec![],
        teams: vec![],
        winner: None,
        start_players: 0,
        map: String::from("Castle"),
        stages: None,
        respawn: None,
    }
}

fn player(name: &str) -> SourcePlayer {
    SourcePlayer { name: String::from(name), uuid_msb: 1, uuid_lsb: 2, nick: None }
}

fn team(name: &str, color: Option<char>, players: Vec<SourcePlayer>) -> SourceTeam {
    SourceTeam { name: String::from(name), color, score: 0, players }
}

fn cai_ext() -> WrappedExtension {
    GameMode::CAI.to_gamelog_ext(&empty_log())
}

fn chat_payload(chat_type: ChatType, team: Option<u32>, sender: &str) -> ExtensionPayload {
    ExtensionPayload::Chat(ChatEvent {
        chat_type,
        team,
        sender: String::from(sender),
        message: String::from("hi"),
    })
}

#[test]
fn no_payload_resolves_to_unknown_with_neutral_class() {
    let ext = cai_ext();
    let raw = RawEvent { time: 42, extension: None };
    let resolved = WrappedEvent::parse(raw, &ext);
    assert_eq!(resolved.get_time(), 42);
    assert!(matches!(resolved.get_raw_event(), EventType::Unknown));
    let functions = Functions { extension: ext };
    assert_eq!(functions.get_box_color(&resolved), "");
}

#[test]
fn mode_payload_resolves_under_its_mode() {
    let ext = cai_ext();
    let raw = RawEvent {
        time: 7,
        extension: Some(ExtensionPayload::CaiDeath(cai::DeathEvent {
            player: String::from("Ann"),
        })),
    };
    let resolved = WrappedEvent::parse(raw, &ext);
    assert!(matches!(resolved.get_raw_event(), EventType::CaiDeath(_)));
    let functions = Functions { extension: ext };
    assert_eq!(functions.get_box_color(&resolved), "list-group-item-secondary");
}

#[test]
fn foreign_mode_payload_resolves_to_unknown() {
    let ext = GameMode::TIMV.to_gamelog_ext(&empty_log());
    let raw = RawEvent {
        time: 0,
        extension: Some(ExtensionPayload::CaiDeath(cai::DeathEvent {
            player: String::from("Ann"),
        })),
    };
    let resolved = WrappedEvent::parse(raw, &ext);
    assert!(matches!(resolved.get_raw_event(), EventType::Unknown));
}

#[test]
fn global_payloads_resolve_under_every_mode() {
    for mode in [GameMode::CAI, GameMode::TIMV, GameMode::BP, GameMode::GRAV, GameMode::BED] {
        let ext = mode.to_gamelog_ext(&empty_log());
        let chat = WrappedEvent::parse(
            RawEvent { time: 1, extension: Some(chat_payload(ChatType::Global, None, "Ann")) },
            &ext,
        );
        assert!(matches!(chat.get_raw_event(), EventType::Chat(_)));
        assert!(chat.is_chat());
        let join = WrappedEvent::parse(
            RawEvent {
                time: 2,
                extension: Some(ExtensionPayload::Join(gamelog_core::event::JoinEvent {
                    player: String::from("Ann"),
                })),
            },
            &ext,
        );
        assert!(matches!(join.get_raw_event(), EventType::Join(_)));
        assert!(!join.is_chat());
        let functions = Functions { extension: ext };
        assert_eq!(functions.get_box_color(&chat), "");
        assert_eq!(functions.get_box_color(&join), "list-group-item-info");
    }
}

#[test]
fn leave_class_is_mode_independent() {
    for mode in [GameMode::CAI, GameMode::Halloween2023, GameMode::Halloween2024] {
        let ext = mode.to_gamelog_ext(&empty_log());
        let leave = WrappedEvent::parse(
            RawEvent {
                time: 3,
                extension: Some(ExtensionPayload::Leave(gamelog_core::event::LeaveEvent {
                    player: String::from("Ann"),
                })),
            },
            &ext,
        );
        let functions = Functions { extension: ext };
        assert_eq!(functions.get_box_color(&leave), "list-group-item-dark");
    }
}

#[test]
fn every_declared_timv_variant_has_a_class() {
    let ext = GameMode::TIMV.to_gamelog_ext(&empty_log());
    let payloads = vec![
        ExtensionPayload::TimvDeath(timv::DeathEvent {
            player: String::from("A"),
            cause: timv::DeathCause::Claymore,
            last_damage_cause: gamelog_core::event::BukkitDamageCause::Other,
        }),
        ExtensionPayload::TimvTest(timv::TestEvent { player: String::from("A") }),
        ExtensionPayload::TimvBody(timv::BodyEvent { player: String::from("A") }),
        ExtensionPayload::TimvTrap(timv::TrapEvent { player: String::from("A") }),
        ExtensionPayload::TimvDetectiveBody(timv::DetectiveBodyEvent {
            player: String::from("A"),
        }),
        ExtensionPayload::TimvPsychicReport(timv::SubrolePsychicReportEvent {
            player: String::from("A"),
        }),
        ExtensionPayload::TimvSharedPurchase(timv::SharedPointsPurchaseEvent {
            player: String::from("A"),
        }),
    ];
    for p in payloads {
        let resolved = WrappedEvent::parse(RawEvent { time: 0, extension: Some(p) }, &ext);
        assert!(!matches!(resolved.get_raw_event(), EventType::Unknown));
        let class = ext.get_box_color(resolved.get_raw_event());
        assert_ne!(class, "");
    }
}

#[test]
fn every_declared_mode_variant_has_a_class() {
    let log = empty_log();
    let cases: Vec<(GameMode, ExtensionPayload)> = vec![
        (
            GameMode::CAI,
            ExtensionPayload::CaiCapture(cai::CaptureEvent { player: String::from("A") }),
        ),
        (GameMode::CAI, ExtensionPayload::CaiCatch(cai::CatchEvent { player: String::from("A") })),
        (
            GameMode::CAI,
            ExtensionPayload::CaiEscape(cai::EscapeEvent { player: String::from("A") }),
        ),
        (GameMode::BP, ExtensionPayload::BpRound(bp::RoundEvent { round: 1 })),
        (GameMode::BP, ExtensionPayload::BpWinners(bp::WinnersEvent { winners: vec![] })),
        (GameMode::BP, ExtensionPayload::BpPowerup(bp::PowerUpEvent { player: String::from("A") })),
        (GameMode::BP, ExtensionPayload::BpDeath(bp::DeathEvent { deaths: vec![] })),
        (
            GameMode::GRAV,
            ExtensionPayload::GravStageCompletion(grav::StageCompletionEvent {
                player: String::from("A"),
                stage: 0,
                time: 0,
            }),
        ),
        (
            GameMode::GRAV,
            ExtensionPayload::GravGameFinish(grav::GameFinishEvent {
                player: String::from("A"),
                time: 0,
            }),
        ),
        (
            GameMode::GRAV,
            ExtensionPayload::GravHardcoreFail(grav::HardcoreModeFailEvent {
                player: String::from("A"),
            }),
        ),
        (
            GameMode::BED,
            ExtensionPayload::HerdDeath(bed::DeathEvent {
                player: String::from("A"),
                cause: bed::DeathCause::Disconnect,
                last_damage_cause: gamelog_core::event::BukkitDamageCause::Other,
            }),
        ),
        (
            GameMode::BED,
            ExtensionPayload::HerdElimination(bed::EliminationEvent { player: String::from("A") }),
        ),
        (
            GameMode::BED,
            ExtensionPayload::BedBedDestruction(bed::BedDestructionEvent {
                player: String::from("A"),
            }),
        ),
        (
            GameMode::Halloween2024,
            ExtensionPayload::HalloweenDeath(halloween::DeathEvent { player: String::from("A") }),
        ),
    ];
    for (mode, p) in cases {
        let ext = mode.to_gamelog_ext(&log);
        let resolved = WrappedEvent::parse(RawEvent { time: 0, extension: Some(p) }, &ext);
        assert!(!matches!(resolved.get_raw_event(), EventType::Unknown));
        assert_ne!(ext.get_box_color(resolved.get_raw_event()), "");
    }
}

#[test]
fn round_trip_keeps_count_order_and_timestamps() {
    let events = vec![
        RawEvent {
            time: 10,
            extension: Some(ExtensionPayload::CaiDeath(cai::DeathEvent {
                player: String::from("Ann"),
            })),
        },
        RawEvent {
            time: 20,
            extension: Some(ExtensionPayload::CaiCatch(cai::CatchEvent {
                player: String::from("Bob"),
            })),
        },
        RawEvent {
            time: 30,
            extension: Some(ExtensionPayload::CaiEscape(cai::EscapeEvent {
                player: String::from("Cyd"),
            })),
        },
    ];
    let log = GameLog { events, ..empty_log() };
    let resolved = resolve_log(GameMode::CAI, log);
    assert_eq!(resolved.events.len(), 3);
    assert_eq!(resolved.events[0].time, 10);
    assert_eq!(resolved.events[1].time, 20);
    assert_eq!(resolved.events[2].time, 30);
    assert!(matches!(resolved.events[0].event, EventType::CaiDeath(_)));
    assert!(matches!(resolved.events[1].event, EventType::CaiCatch(_)));
    assert!(matches!(resolved.events[2].event, EventType::CaiEscape(_)));
}

#[test]
fn team_chat_with_explicit_index_resolves_to_that_team() {
    let log = GameLog {
        teams: vec![
            team("Red", Some('c'), vec![player("Ann")]),
            team("Blue", Some('9'), vec![player("Bob")]),
        ],
        ..empty_log()
    };
    let resolved = resolve_log(GameMode::CAI, log);
    let chat_event = ChatEvent {
        chat_type: ChatType::Team,
        team: Some(1),
        sender: String::from("Ann"),
        message: String::from("hello"),
    };
    let wrapped = WrappedEvent::parse(
        RawEvent {
            time: 0,
            extension: Some(ExtensionPayload::Chat(ChatEvent {
                chat_type: ChatType::Team,
                team: Some(1),
                sender: String::from("Ann"),
                message: String::from("hello"),
            })),
        },
        &resolved.functions.extension,
    );
    match wrapped.get_chat_channel(&chat_event, &resolved.teams) {
        ChatChannel::Team(name, color) => {
            assert_eq!(name, "Blue");
            assert_eq!(color, "#5555FF");
        }
        _ => panic!("expected a team channel"),
    }
}

#[test]
fn team_chat_from_unrostered_sender_falls_back_to_spectators() {
    let log = GameLog { teams: vec![team("Red", Some('c'), vec![player("Ann")])], ..empty_log() };
    let resolved = resolve_log(GameMode::CAI, log);
    let chat_event = ChatEvent {
        chat_type: ChatType::Team,
        team: None,
        sender: String::from("Ghost"),
        message: String::from("boo"),
    };
    let wrapped = WrappedEvent::parse(
        RawEvent {
            time: 0,
            extension: Some(ExtensionPayload::Chat(ChatEvent {
                chat_type: ChatType::Team,
                team: None,
                sender: String::from("Ghost"),
                message: String::from("boo"),
            })),
        },
        &resolved.functions.extension,
    );
    match wrapped.get_chat_channel(&chat_event, &resolved.teams) {
        ChatChannel::Team(name, color) => {
            assert_eq!(name, "Spec");
            assert_eq!(color, "#AAAAAA");
        }
        _ => panic!("expected the spectators channel"),
    }
}

#[test]
fn static_and_absent_chat_channels() {
    let resolved = resolve_log(GameMode::CAI, empty_log());
    for (chat_type, expected) in [
        (ChatType::Lobby, Some("Lobby")),
        (ChatType::Shout, Some("Shout")),
        (ChatType::Broadcast, Some("Broadcast")),
        (ChatType::Global, None),
    ] {
        let chat_event = ChatEvent {
            chat_type,
            team: None,
            sender: String::from("Ann"),
            message: String::from("hello"),
        };
        let wrapped = WrappedEvent::parse(
            RawEvent {
                time: 0,
                extension: Some(ExtensionPayload::Chat(ChatEvent {
                    chat_type,
                    team: None,
                    sender: String::from("Ann"),
                    message: String::from("hello"),
                })),
            },
            &resolved.functions.extension,
        );
        match (wrapped.get_chat_channel(&chat_event, &resolved.teams), expected) {
            (ChatChannel::Static(name), Some(want)) => assert_eq!(name, want),
            (ChatChannel::NoChannel, None) => {}
            _ => panic!("unexpected channel kind"),
        }
    }
}

#[test]
fn grav_without_a_stage_list_has_an_empty_map_label() {
    let resolved = resolve_log(GameMode::GRAV, empty_log());
    assert_eq!(resolved.map, "");
}

#[test]
fn mode_facts_score_map_and_respawn() {
    let grav_log = GameLog {
        stages: Some(vec![String::from("Sky"), String::from("Cave")]),
        ..empty_log()
    };
    let bed_log = GameLog { respawn: Some(true), ..empty_log() };

    let cai = resolve_log(GameMode::CAI, empty_log());
    assert!(cai.functions.extension.supports_score());
    assert!(!cai.functions.extension.is_respawn());
    assert_eq!(cai.map, "Castle");

    let timv = resolve_log(GameMode::TIMV, empty_log());
    assert!(!timv.functions.extension.supports_score());

    let grav = resolve_log(GameMode::GRAV, grav_log);
    assert!(!grav.functions.extension.supports_score());
    assert_eq!(grav.map, "Sky, Cave");
    assert_eq!(grav::grav_stage_name(1, &grav.functions.extension), "Cave");

    let bed = resolve_log(GameMode::BED, bed_log);
    assert!(bed.functions.extension.is_respawn());
    assert!(!grav.functions.extension.is_respawn());
}
