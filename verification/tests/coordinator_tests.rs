use coordinator::cli::{coordinator_id_for_port, local_coordinator, parse_args, CliCommand};
use coordinator::coordinator::{remote_status_result, NetworkedCoordinator};
use coordinator::ids::new_entity_id;
use coordinator::model::{
    AskPlan, CoordError, CoordinatorInfo, RegistrationOutcome, RegistrationRequest,
};
use coordinator::text::{decimal, parse_unsigned, reply_text};

fn info(id: &str, host: &str, port: u16) -> CoordinatorInfo {
    CoordinatorInfo { coordinator_id: id.to_string(), host: host.to_string(), port }
}

fn coord() -> NetworkedCoordinator {
    NetworkedCoordinator::new("coordinator-9000".to_string(), "127.0.0.1".to_string(), 9000)
}

fn self_registration(id: &str, port: u64) -> RegistrationRequest {
    RegistrationRequest {
        entity_id: Some(id.to_string()),
        tcp_port: Some(port),
        entity_name: None,
        entity_type: None,
        coordinator: None,
    }
}

fn remote_registration(id: &str, c: CoordinatorInfo) -> RegistrationRequest {
    RegistrationRequest {
        entity_id: Some(id.to_string()),
        tcp_port: None,
        entity_name: None,
        entity_type: None,
        coordinator: Some(c),
    }
}

fn spawned(c: &mut NetworkedCoordinator, id: &str) {
    let r = c.spawn_entity(id.to_string(), Ok(()));
    assert_eq!(r.unwrap(), id);
}

fn is_hex_lower(c: char) -> bool {
    c.is_ascii_digit() || ('a'..='f').contains(&c)
}

#[test]
fn decimal_formats_numbers() {
    assert_eq!(decimal(0), "0");
    assert_eq!(decimal(7), "7");
    assert_eq!(decimal(9000), "9000");
    assert_eq!(decimal(65535), "65535");
    assert_eq!(decimal(u64::MAX), "18446744073709551615");
}

#[test]
fn parse_unsigned_follows_str_parse() {
    assert_eq!(parse_unsigned("9000", 65535), Some(9000));
    assert_eq!(parse_unsigned("+7", 65535), Some(7));
    assert_eq!(parse_unsigned("007", 65535), Some(7));
    assert_eq!(parse_unsigned("65535", 65535), Some(65535));
    assert_eq!(parse_unsigned("65536", 65535), None);
    assert_eq!(parse_unsigned("", 65535), None);
    assert_eq!(parse_unsigned("+", 65535), None);
    assert_eq!(parse_unsigned("-1", 65535), None);
    assert_eq!(parse_unsigned(" 1", 65535), None);
    assert_eq!(parse_unsigned("12a", 65535), None);
    assert_eq!(parse_unsigned("18446744073709551615", u64::MAX), Some(u64::MAX));
    assert_eq!(parse_unsigned("18446744073709551616", u64::MAX), None);
    for s in ["0", "1", "+3", "00", "65535", "65536", "", "x", "-0", "+"] {
        assert_eq!(parse_unsigned(s, 65535).map(|v| v as u16), s.parse::<u16>().ok());
    }
}

#[test]
fn port_text_round_trip() {
    for p in [0u16, 1, 80, 9000, 65535] {
        assert_eq!(parse_unsigned(&decimal(p as u64), 65535), Some(p as u64));
    }
}

#[test]
fn reply_text_trims_white_space() {
    assert_eq!(reply_text("  pong\n"), "pong");
    assert_eq!(reply_text("\t a b \r\n"), "a b");
    assert_eq!(reply_text("\u{3000}x\u{a0}"), "x");
    assert_eq!(reply_text("\n"), "");
    assert_eq!(reply_text("plain"), "plain");
}

#[test]
fn entity_ids_are_v4_uuids() {
    let a = new_entity_id();
    let b = new_entity_id();
    for id in [&a, &b] {
        let cs: Vec<char> = id.chars().collect();
        assert_eq!(cs.len(), 36);
        for (i, c) in cs.iter().enumerate() {
            if i == 8 || i == 13 || i == 18 || i == 23 {
                assert_eq!(*c, '-');
            } else {
                assert!(is_hex_lower(*c));
            }
        }
        assert_eq!(cs[14], '4');
        assert!(matches!(cs[19], '8' | '9' | 'a' | 'b'));
    }
    assert_ne!(a, b);
}

#[test]
fn new_coordinator_is_empty() {
    let c = coord();
    assert_eq!(c.coordinator_id(), "coordinator-9000");
    assert_eq!(c.host(), "127.0.0.1");
    assert_eq!(c.port(), 9000);
    assert_eq!(c.entity_binary_path(), "../entity-core/target/release/entity-core");
    assert!(c.get_entity_list().is_empty());
    assert!(c.peer_coordinators().is_empty());
    assert_eq!(c.coordinator_url(), "http://127.0.0.1:9000");
}

#[test]
fn add_peer_keeps_order() {
    let mut c = coord();
    c.add_peer_coordinator(info("coordinator-9001", "127.0.0.1", 9001));
    c.add_peer_coordinator(info("coordinator-9002", "127.0.0.1", 9002));
    let peers = c.peer_coordinators();
    assert_eq!(peers.len(), 2);
    assert_eq!(peers[0].port, 9001);
    assert_eq!(peers[1].coordinator_id, "coordinator-9002");
}

#[test]
fn prepare_spawn_passes_id_and_url() {
    let c = coord();
    let cmd = c.prepare_spawn();
    assert_eq!(cmd.program, "../entity-core/target/release/entity-core");
    assert_eq!(cmd.args.len(), 2);
    assert_eq!(cmd.args[0], cmd.entity_id);
    assert_eq!(cmd.args[1], "http://127.0.0.1:9000");
    assert_eq!(cmd.entity_id.len(), 36);
}

#[test]
fn spawned_entity_is_not_local_until_registered() {
    let mut c = coord();
    spawned(&mut c, "e1");
    assert!(!c.is_entity_local(&"e1".to_string()));
    assert!(c.get_entity_list().is_empty());
    assert_eq!(c.register_entity(self_registration("e1", 5000)), RegistrationOutcome::SelfRegistered);
    assert!(c.is_entity_local(&"e1".to_string()));
    assert_eq!(c.get_entity_list(), vec!["e1".to_string()]);
}

#[test]
fn failed_spawn_changes_nothing() {
    let mut c = coord();
    let r = c.spawn_entity("e1".to_string(), Err("No such file or directory".to_string()));
    match r {
        Err(CoordError::SpawnFailed { reason }) => assert_eq!(reason, "No such file or directory"),
        other => panic!("unexpected {:?}", other),
    }
    assert_eq!(c.register_entity(self_registration("e1", 5000)), RegistrationOutcome::Ignored);
    assert!(!c.is_entity_local(&"e1".to_string()));
}

#[test]
fn entity_list_holds_each_registered_entity_once() {
    let mut c = coord();
    spawned(&mut c, "a");
    spawned(&mut c, "b");
    spawned(&mut c, "c");
    c.register_entity(self_registration("a", 5001));
    c.register_entity(self_registration("c", 5003));
    c.register_entity(self_registration("c", 5004));
    let mut ids = c.get_entity_list();
    ids.sort();
    assert_eq!(ids, vec!["a".to_string(), "c".to_string()]);
}

#[test]
fn self_registration_sets_port_name_and_type() {
    let mut c = coord();
    spawned(&mut c, "e1");
    let req = RegistrationRequest {
        entity_id: Some("e1".to_string()),
        tcp_port: Some(5000),
        entity_name: Some("alice".to_string()),
        entity_type: None,
        coordinator: None,
    };
    assert_eq!(c.register_entity(req), RegistrationOutcome::SelfRegistered);
    let x = c.local_message(&"e1".to_string(), &"hello".to_string()).unwrap();
    assert_eq!(x.address, "127.0.0.1:5000");
    assert_eq!(x.payload, "hello\n");
    let plan = c.share_entity_directory(&info("coordinator-9001", "127.0.0.1", 9001));
    assert_eq!(plan.registrations.len(), 1);
    assert_eq!(plan.registrations[0].entity_id, "e1");
    assert_eq!(plan.registrations[0].coordinator.coordinator_id, "coordinator-9000");
    assert_eq!(plan.registrations[0].coordinator.host, "127.0.0.1");
    assert_eq!(plan.registrations[0].coordinator.port, 9000);
}

#[test]
fn registration_port_is_cut_to_sixteen_bits() {
    let mut c = coord();
    spawned(&mut c, "e1");
    spawned(&mut c, "e2");
    assert_eq!(c.register_entity(self_registration("e1", 70000)), RegistrationOutcome::SelfRegistered);
    assert_eq!(c.local_message(&"e1".to_string(), &"m".to_string()).unwrap().address, "127.0.0.1:4464");
    assert_eq!(c.register_entity(self_registration("e2", 65536)), RegistrationOutcome::SelfRegistered);
    assert!(!c.is_entity_local(&"e2".to_string()));
    let plan = c.share_entity_directory(&info("p", "h", 1));
    assert_eq!(plan.registrations.len(), 2);
}

#[test]
fn registration_of_unknown_local_entity_is_ignored() {
    let mut c = coord();
    assert_eq!(c.register_entity(self_registration("ghost", 5000)), RegistrationOutcome::Ignored);
    assert!(!c.is_entity_local(&"ghost".to_string()));
    let r = c.plan_ask(&"ghost".to_string(), b"hi");
    assert!(matches!(r, Err(CoordError::NotInDirectory { .. })));
}

#[test]
fn registration_without_id_or_target_is_ignored() {
    let mut c = coord();
    let none = RegistrationRequest {
        entity_id: None,
        tcp_port: Some(5000),
        entity_name: None,
        entity_type: None,
        coordinator: Some(info("x", "h", 1)),
    };
    assert_eq!(c.register_entity(none), RegistrationOutcome::Ignored);
    let bare = RegistrationRequest {
        entity_id: Some("e".to_string()),
        tcp_port: None,
        entity_name: None,
        entity_type: None,
        coordinator: None,
    };
    assert_eq!(c.register_entity(bare), RegistrationOutcome::Ignored);
    assert!(c.share_entity_directory(&info("p", "h", 1)).registrations.is_empty());
}

#[test]
fn remote_registration_routes_messages_to_its_coordinator() {
    let mut c = coord();
    assert_eq!(
        c.register_entity(remote_registration("r1", info("coordinator-9001", "127.0.0.1", 9001))),
        RegistrationOutcome::RemoteRegistered
    );
    match c.plan_ask(&"r1".to_string(), b"Hello!").unwrap() {
        AskPlan::Remote(x) => {
            assert_eq!(x.url, "http://127.0.0.1:9001/ask_entity/r1");
            assert_eq!(x.body, "Hello!");
        },
        other => panic!("unexpected {:?}", other),
    }
    // entities of other coordinators are not shared onward
    assert!(c.share_entity_directory(&info("p", "h", 1)).registrations.is_empty());
    assert!(c.get_entity_list().is_empty());
}

#[test]
fn local_entity_is_reached_directly() {
    let mut c = coord();
    spawned(&mut c, "e1");
    c.register_entity(self_registration("e1", 6000));
    match c.plan_ask(&"e1".to_string(), b"Hello!").unwrap() {
        AskPlan::Local(x) => {
            assert_eq!(x.address, "127.0.0.1:6000");
            assert_eq!(x.payload, "Hello!\n");
        },
        other => panic!("unexpected {:?}", other),
    }
}

#[test]
fn invalid_utf8_body_is_replaced() {
    let mut c = coord();
    c.register_entity(remote_registration("r1", info("c2", "h", 2)));
    match c.plan_ask(&"r1".to_string(), &[b'a', 0xff, b'b']).unwrap() {
        AskPlan::Remote(x) => assert_eq!(x.body, "a\u{fffd}b"),
        other => panic!("unexpected {:?}", other),
    }
}

#[test]
fn local_message_to_unknown_entity_is_refused() {
    let c = coord();
    match c.local_message(&"nope".to_string(), &"m".to_string()) {
        Err(CoordError::NotFoundLocally { entity_id }) => assert_eq!(entity_id, "nope"),
        other => panic!("unexpected {:?}", other),
    }
    match c.remote_message(&"nope".to_string(), "m".to_string()) {
        Err(CoordError::NotInDirectory { entity_id }) => assert_eq!(entity_id, "nope"),
        other => panic!("unexpected {:?}", other),
    }
}

#[test]
fn remote_status_must_be_success() {
    assert!(remote_status_result(200).is_ok());
    assert!(remote_status_result(204).is_ok());
    assert!(remote_status_result(299).is_ok());
    for s in [100, 199, 300, 404, 500] {
        match remote_status_result(s) {
            Err(CoordError::RemoteRequestFailed { status }) => assert_eq!(status, s),
            other => panic!("unexpected {:?}", other),
        }
    }
}

#[test]
fn registration_is_idempotent() {
    let mut c = coord();
    spawned(&mut c, "e1");
    let twice = || RegistrationRequest {
        entity_id: Some("e1".to_string()),
        tcp_port: Some(5000),
        entity_name: Some("n".to_string()),
        entity_type: Some("t".to_string()),
        coordinator: None,
    };
    assert_eq!(c.register_entity(twice()), RegistrationOutcome::SelfRegistered);
    assert_eq!(c.register_entity(twice()), RegistrationOutcome::SelfRegistered);
    assert_eq!(c.get_entity_list(), vec!["e1".to_string()]);
    assert_eq!(c.share_entity_directory(&info("p", "h", 1)).registrations.len(), 1);
}

#[test]
fn entity_reachable_across_coordinators() {
    let mut main = coord();
    let mut peer =
        NetworkedCoordinator::new("coordinator-9001".to_string(), "127.0.0.1".to_string(), 9001);
    spawned(&mut peer, "e1");
    peer.register_entity(self_registration("e1", 7000));
    let plan = peer.share_entity_directory(&main.self_info());
    assert_eq!(plan.url, "http://127.0.0.1:9000/register_entity");
    for reg in plan.registrations {
        let outcome = main.register_entity(remote_registration(&reg.entity_id, reg.coordinator));
        assert_eq!(outcome, RegistrationOutcome::RemoteRegistered);
    }
    match main.plan_ask(&"e1".to_string(), b"ping").unwrap() {
        AskPlan::Remote(x) => assert_eq!(x.url, "http://127.0.0.1:9001/ask_entity/e1"),
        other => panic!("unexpected {:?}", other),
    }
    match peer.plan_ask(&"e1".to_string(), b"ping").unwrap() {
        AskPlan::Local(x) => assert_eq!(x.address, "127.0.0.1:7000"),
        other => panic!("unexpected {:?}", other),
    }
}

fn args(v: &[&str]) -> Vec<String> {
    v.iter().map(|s| s.to_string()).collect()
}

#[test]
fn cli_usage_without_port() {
    assert!(matches!(parse_args(&args(&["coordinator"])), CliCommand::Usage));
}

#[test]
fn cli_reads_port_peer_and_count() {
    match parse_args(&args(&["coordinator", "9001", "9000", "--entities", "2"])) {
        CliCommand::Run(c) => {
            assert_eq!(c.port, 9001);
            assert_eq!(c.peer_port, Some(9000));
            assert_eq!(c.auto_spawn_count, Some(2));
            assert!(c.unknown_args.is_empty());
        },
        other => panic!("unexpected {:?}", other),
    }
}

#[test]
fn cli_defaults_and_unknown_arguments() {
    match parse_args(&args(&["coordinator", "notaport", "x", "9001", "9002", "--entities", "many"])) {
        CliCommand::Run(c) => {
            assert_eq!(c.port, 9000);
            assert_eq!(c.peer_port, Some(9001));
            assert_eq!(c.auto_spawn_count, None);
            assert_eq!(c.unknown_args, args(&["x", "9002"]));
        },
        other => panic!("unexpected {:?}", other),
    }
}

#[test]
fn cli_entities_without_count() {
    match parse_args(&args(&["coordinator", "9000", "junk", "--entities"])) {
        CliCommand::MissingEntitiesCount { unknown_args } => assert_eq!(unknown_args, args(&["junk"])),
        other => panic!("unexpected {:?}", other),
    }
}

#[test]
fn cli_last_entities_flag_wins() {
    match parse_args(&args(&["coordinator", "9000", "--entities", "3", "--entities", "bad"])) {
        CliCommand::Run(c) => assert_eq!(c.auto_spawn_count, None),
        other => panic!("unexpected {:?}", other),
    }
}

#[test]
fn coordinator_names() {
    assert_eq!(coordinator_id_for_port(9000), "coordinator-9000");
    let p = local_coordinator(9001);
    assert_eq!(p.coordinator_id, "coordinator-9001");
    assert_eq!(p.host, "127.0.0.1");
    assert_eq!(p.port, 9001);
}

#[test]
fn error_messages() {
    let c = coord();
    let e = c.local_message(&"e1".to_string(), &"ping".to_string()).unwrap_err();
    assert_eq!(e.message(), "entity e1 not found locally");
    let e = c.remote_message(&"e1".to_string(), "Hello!".to_string()).unwrap_err();
    assert_eq!(e.message(), "Entity e1 not found in directory");
    let e = c.plan_ask(&"e1".to_string(), b"Hello!").unwrap_err();
    assert_eq!(e.message(), "Entity e1 not found in directory");
    let e = remote_status_result(404).unwrap_err();
    assert_eq!(e.message(), "Remote coordinator request failed: 404 Not Found");
    let e = remote_status_result(503).unwrap_err();
    assert_eq!(e.message(), "Remote coordinator request failed: 503 Service Unavailable");
    let e = remote_status_result(599).unwrap_err();
    assert_eq!(e.message(), "Remote coordinator request failed: 599 <unknown status code>");
    let e = remote_status_result(42).unwrap_err();
    assert_eq!(e.message(), "Remote coordinator request failed: 42");
    let e = CoordError::SpawnFailed { reason: "No such file or directory (os error 2)".to_string() };
    assert_eq!(e.message(), "No such file or directory (os error 2)");
    assert_eq!(
        e.spawn_failure_message(),
        "Failed to spawn entity: No such file or directory (os error 2)"
    );
}

#[test]
fn unregistered_entity_stays_unavailable_across_calls() {
    let mut c = coord();
    spawned(&mut c, "e1");
    c.add_peer_coordinator(info("p", "h", 1));
    c.register_entity(remote_registration("e1", info("x", "h", 2)));
    c.register_entity(self_registration("other", 5000));
    spawned(&mut c, "e2");
    c.register_entity(self_registration("e2", 5002));
    assert!(!c.is_entity_local(&"e1".to_string()));
    c.register_entity(self_registration("e1", 5001));
    assert!(c.is_entity_local(&"e1".to_string()));
    // every registered local entity is in the directory
    match c.remote_message(&"e1".to_string(), "m".to_string()) {
        Ok(x) => assert_eq!(x.url, "http://127.0.0.1:9000/ask_entity/e1"),
        Err(e) => panic!("unexpected {:?}", e),
    }
    assert!(c.remote_message(&"e2".to_string(), "m".to_string()).is_ok());
}
