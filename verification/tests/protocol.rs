use crdt_websocket::crdt::{CrdtCounter, GCounter, PNCounter};
use crdt_websocket::websocket::{
    apply_command, command_fits, command_from_member, handle_crdt, handle_gcounter,
    handle_pncounter, handle_text_message, parse_command, process_message, Command, Handling,
    MessageError, Response,
};

fn fresh() -> (CrdtCounter, GCounter, PNCounter) {
    (CrdtCounter::new(), GCounter::new(), PNCounter::new())
}

#[test]
fn parse_command_reads_each_known_command() {
    let cases = [
        ("increment_crdt", Command::IncrementCrdt),
        ("reset_crdt", Command::ResetCrdt),
        ("get_crdt", Command::GetCrdt),
        ("increment_gcounter", Command::IncrementGCounter),
        ("get_gcounter", Command::GetGCounter),
        ("increment_pncounter", Command::IncrementPNCounter),
        ("decrement_pncounter", Command::DecrementPNCounter),
        ("get_pncounter", Command::GetPNCounter),
    ];
    for (name, cmd) in cases {
        let text = format!("{{\"command\": \"{}\", \"other\": [1, 2]}}", name);
        assert_eq!(parse_command(&text), Ok(cmd));
    }
}

#[test]
fn parse_command_unknown_or_missing_command() {
    assert_eq!(parse_command("{\"command\":\"increment\"}"), Ok(Command::Unknown));
    assert_eq!(parse_command("{\"command\":\"INCREMENT_CRDT\"}"), Ok(Command::Unknown));
    assert_eq!(parse_command("{\"cmd\":\"increment_crdt\"}"), Ok(Command::Unknown));
    assert_eq!(parse_command("{\"command\":5}"), Ok(Command::Unknown));
    assert_eq!(parse_command("[\"increment_crdt\"]"), Ok(Command::Unknown));
    assert_eq!(parse_command("\"increment_crdt\""), Ok(Command::Unknown));
    assert_eq!(parse_command("{}"), Ok(Command::Unknown));
}

#[test]
fn parse_command_rejects_text_that_is_not_json() {
    assert_eq!(parse_command("increment_crdt"), Err(MessageError::InvalidJson));
    assert_eq!(parse_command("{\"command\":"), Err(MessageError::InvalidJson));
    assert_eq!(parse_command(""), Err(MessageError::InvalidJson));
}

#[test]
fn command_from_member_names() {
    assert_eq!(command_from_member(Some("get_gcounter".to_string())), Command::GetGCounter);
    assert_eq!(command_from_member(Some("get_gcounter ".to_string())), Command::Unknown);
    assert_eq!(command_from_member(None), Command::Unknown);
}

#[test]
fn handle_crdt_increments_and_resets() {
    let mut c = CrdtCounter { count: 41 };
    assert_eq!(handle_crdt(&mut c, true).count, 42);
    assert_eq!(c.count, 42);
    assert_eq!(handle_crdt(&mut c, false).count, 0);
    assert_eq!(c.count, 0);
}

#[test]
fn handle_gcounter_and_pncounter() {
    let mut g = GCounter { count: 1 };
    assert_eq!(handle_gcounter(&mut g).count, 2);
    let mut p = PNCounter::new();
    let after = handle_pncounter(&mut p, false);
    assert_eq!((after.positive, after.negative), (0, 1));
    let after = handle_pncounter(&mut p, true);
    assert_eq!((after.positive, after.negative), (1, 1));
    assert_eq!(p.value(), 0);
}

#[test]
fn reset_crdt_over_messages() {
    let (mut c, mut g, mut p) = fresh();
    for _ in 0..3 {
        process_message("{\"command\":\"increment_crdt\"}", &mut c, &mut g, &mut p).unwrap();
    }
    assert_eq!(c.count, 3);
    match process_message("{\"command\":\"reset_crdt\"}", &mut c, &mut g, &mut p) {
        Ok(Response::Crdt(r)) => assert_eq!(r.count, 0),
        other => panic!("unexpected {:?}", other),
    }
    assert_eq!(c.count, 0);
}

#[test]
fn commands_touch_only_their_counter() {
    let (mut c, mut g, mut p) = fresh();
    process_message("{\"command\":\"increment_gcounter\"}", &mut c, &mut g, &mut p).unwrap();
    assert_eq!((c.count, g.count, p.positive, p.negative), (0, 1, 0, 0));
    process_message("{\"command\":\"decrement_pncounter\"}", &mut c, &mut g, &mut p).unwrap();
    assert_eq!((c.count, g.count, p.positive, p.negative), (0, 1, 0, 1));
    match process_message("{\"command\":\"get_pncounter\"}", &mut c, &mut g, &mut p) {
        Ok(Response::PNCounter(r)) => assert_eq!(r.value(), -1),
        other => panic!("unexpected {:?}", other),
    }
}

#[test]
fn invalid_json_changes_nothing() {
    let (mut c, mut g, mut p) = fresh();
    c.count = 5;
    match process_message("not json", &mut c, &mut g, &mut p) {
        Err(MessageError::InvalidJson) => {}
        other => panic!("unexpected {:?}", other),
    }
    assert_eq!(c.count, 5);
    match handle_text_message("{oops", &mut c, &mut g, &mut p) {
        Handling::Processed(Err(MessageError::InvalidJson)) => {}
        other => panic!("unexpected {:?}", other),
    }
}

#[test]
fn unknown_command_answers_error() {
    let (mut c, mut g, mut p) = fresh();
    match process_message("{\"command\":42}", &mut c, &mut g, &mut p) {
        Ok(Response::Error(m)) => assert_eq!(m, "Unknown command"),
        other => panic!("unexpected {:?}", other),
    }
}

#[test]
fn empty_message_is_ignored() {
    let (mut c, mut g, mut p) = fresh();
    assert!(matches!(handle_text_message("", &mut c, &mut g, &mut p), Handling::Ignored));
}

#[test]
fn overflowing_command_is_held_back() {
    let mut c = CrdtCounter { count: i32::MAX };
    let mut g = GCounter { count: i32::MAX };
    let mut p = PNCounter { positive: i32::MAX, negative: i32::MAX };
    for (name, cmd) in [
        ("increment_crdt", Command::IncrementCrdt),
        ("increment_gcounter", Command::IncrementGCounter),
        ("increment_pncounter", Command::IncrementPNCounter),
        ("decrement_pncounter", Command::DecrementPNCounter),
    ] {
        let text = format!("{{\"command\":\"{}\"}}", name);
        match handle_text_message(&text, &mut c, &mut g, &mut p) {
            Handling::Overflow(held) => assert_eq!(held, cmd),
            other => panic!("unexpected {:?}", other),
        }
        assert!(!command_fits(cmd, &c, &g, &p));
    }
    assert_eq!(c.count, i32::MAX);
    match handle_text_message("{\"command\":\"get_crdt\"}", &mut c, &mut g, &mut p) {
        Handling::Processed(Ok(Response::Crdt(r))) => assert_eq!(r.count, i32::MAX),
        other => panic!("unexpected {:?}", other),
    }
    match handle_text_message("{\"command\":\"reset_crdt\"}", &mut c, &mut g, &mut p) {
        Handling::Processed(Ok(Response::Crdt(r))) => assert_eq!(r.count, 0),
        other => panic!("unexpected {:?}", other),
    }
}

#[test]
fn apply_command_answers_the_touched_counter() {
    let (mut c, mut g, mut p) = fresh();
    match apply_command(Command::IncrementPNCounter, &mut c, &mut g, &mut p) {
        Response::PNCounter(r) => assert_eq!((r.positive, r.negative), (1, 0)),
        other => panic!("unexpected {:?}", other),
    }
    match apply_command(Command::GetGCounter, &mut c, &mut g, &mut p) {
        Response::GCounter(r) => assert_eq!(r.count, 0),
        other => panic!("unexpected {:?}", other),
    }
    match apply_command(Command::Unknown, &mut c, &mut g, &mut p) {
        Response::Error(m) => assert_eq!(m, "Unknown command"),
        other => panic!("unexpected {:?}", other),
    }
}

#[test]
fn commands_in_any_order_give_the_same_counters() {
    let orders = [
        ["increment_crdt", "increment_pncounter", "decrement_pncounter", "increment_gcounter"],
        ["decrement_pncounter", "increment_gcounter", "increment_crdt", "increment_pncounter"],
    ];
    let mut results = Vec::new();
    for order in orders {
        let (mut c, mut g, mut p) = fresh();
        for name in order {
            let text = format!("{{\"command\":\"{}\"}}", name);
            process_message(&text, &mut c, &mut g, &mut p).unwrap();
        }
        results.push((c.count, g.count, p.positive, p.negative));
    }
    assert_eq!(results[0], results[1]);
    assert_eq!(results[0], (1, 1, 1, 1));
}
