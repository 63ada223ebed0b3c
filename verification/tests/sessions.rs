use rand::SeedableRng;
use tauri_plugin_bin_ipc::connection::ConnectionBag;
use tauri_plugin_bin_ipc::protocol::{
    create_json_response, create_response, Action, BinIpcState, ProtocolError, STATUS_ACCEPTED,
    STATUS_OK,
};
use tauri_plugin_bin_ipc::request_url::RequestUrlParser;
use tauri_plugin_bin_ipc::secure_arena::{SecureArena, SecureArenaError};
use tauri_plugin_bin_ipc::secure_arena_id::SecureArenaId;

fn rng() -> rand::rngs::SmallRng {
    rand::rngs::SmallRng::seed_from_u64(11)
}

#[test]
fn arena_allocate_get_delete() {
    let mut arena = SecureArena::new(rng());
    let a = arena.allocate("a").unwrap();
    let b = arena.allocate("b").unwrap();
    assert_eq!(a.id(), 0);
    assert_eq!(b.id(), 1);
    assert_eq!(arena.get(a), Some(&"a"));
    assert_eq!(arena.get(b), Some(&"b"));
    assert_eq!(arena.delete(a), Some("a"));
    assert_eq!(arena.get(a), None);
    assert_eq!(arena.delete(a), None);
    assert_eq!(arena.get(b), Some(&"b"));
}

#[test]
fn arena_wrong_key_finds_nothing() {
    let mut arena = SecureArena::new(rng());
    let a = arena.allocate(10u32).unwrap();
    let forged = SecureArenaId::from_raw(a.to_raw() ^ (1u64 << 32));
    assert_eq!(forged.id(), a.id());
    assert_eq!(arena.get(forged), None);
    assert_eq!(arena.replace(forged, 11), None);
    assert_eq!(arena.get(a), Some(&10));
    // deleting goes by slot only
    assert_eq!(arena.delete(forged), Some(10));
    assert_eq!(arena.get(a), None);
}

#[test]
fn arena_reuses_freed_slots() {
    let mut arena = SecureArena::new(rng());
    let a = arena.allocate(1).unwrap();
    let _b = arena.allocate(2).unwrap();
    arena.delete(a);
    let c = arena.allocate(3).unwrap();
    assert_eq!(c.id(), 0);
    assert_eq!(arena.get(c), Some(&3));
    if c.key() != a.key() {
        assert_eq!(arena.get(a), None);
    }
}

#[test]
fn arena_replace() {
    let mut arena = SecureArena::new(rng());
    let a = arena.allocate(String::from("x")).unwrap();
    assert_eq!(arena.replace(a, String::from("y")), Some(String::from("x")));
    assert_eq!(arena.get(a), Some(&String::from("y")));
    let _ = SecureArenaError::TooManyItems;
}

#[test]
fn connection_bag_lowest_free_index() {
    let mut bag = ConnectionBag::new();
    assert_eq!(bag.insert('a'), 0);
    assert_eq!(bag.insert('b'), 1);
    assert_eq!(bag.insert('c'), 2);
    assert_eq!(bag.close(1), Ok('b'));
    assert_eq!(bag.close(1), Err(()));
    assert_eq!(bag.get(1), None);
    assert_eq!(bag.get(2), Some(&'c'));
    assert_eq!(bag.insert('d'), 1);
    assert_eq!(bag.insert('e'), 3);
    assert_eq!(bag.close(9), Err(()));
}

#[test]
fn responses_carry_headers() {
    let r = create_response(vec![1, 2], STATUS_OK);
    assert_eq!(r.status, 200);
    assert_eq!(r.body, vec![1, 2]);
    assert_eq!(r.headers, vec![("access-control-allow-origin", "*")]);
    let j = create_json_response(&SecureArenaId::from_raw(4294967298));
    assert_eq!(j.status, 200);
    assert_eq!(j.body, b"4294967298".to_vec());
    assert_eq!(
        j.headers,
        vec![
            ("access-control-allow-origin", "*"),
            ("content-type", "application/json; charset=utf-8")
        ]
    );
}

fn poll_uri(id: SecureArenaId) -> String {
    format!("bin-ipc://localhost/ipc/poll/{}", id.to_raw())
}

#[test]
fn protocol_round_trip() {
    let parser = RequestUrlParser::new("bin-ipc");
    let mut state: BinIpcState<String> = BinIpcState::new(rng());
    let uri = "bin-ipc://localhost/ipc/spawn/greet";
    let (id, body) = match state.handle_request(&parser, true, uri) {
        Ok(Action::Spawn { id, command, response }) => {
            assert_eq!(command, "greet");
            assert_eq!(response.status, STATUS_OK);
            (id, response.body)
        }
        _ => panic!("spawn refused"),
    };
    assert_eq!(String::from_utf8(body).unwrap(), id.to_raw().to_string());

    let poll = poll_uri(id);
    match state.handle_request(&parser, true, &poll) {
        Ok(Action::Respond(r)) => {
            assert_eq!(r.status, STATUS_ACCEPTED);
            assert!(r.body.is_empty());
        }
        _ => panic!("poll before completion"),
    }
    assert!(state.complete(id, Ok(b"hi".to_vec())));
    match state.handle_request(&parser, true, &poll) {
        Ok(Action::Respond(r)) => {
            assert_eq!(r.status, STATUS_OK);
            assert_eq!(r.body, b"hi".to_vec());
        }
        _ => panic!("poll after completion"),
    }
    assert_eq!(
        state.handle_request(&parser, true, &poll).err(),
        Some(ProtocolError::InvalidRequestUrl)
    );
    assert!(!state.complete(id, Ok(Vec::new())));
}

#[test]
fn protocol_handler_error_is_delivered() {
    let parser = RequestUrlParser::new("s");
    let mut state: BinIpcState<String> = BinIpcState::new(rng());
    let id = match state.handle_request(&parser, true, "s://localhost/ipc/spawn/x") {
        Ok(Action::Spawn { id, .. }) => id,
        _ => panic!("spawn refused"),
    };
    assert!(state.complete(id, Err(String::from("boom"))));
    let poll = format!("s://localhost/ipc/poll/{}", id.to_raw());
    assert_eq!(
        state.handle_request(&parser, true, &poll).err(),
        Some(ProtocolError::Handler(String::from("boom")))
    );
    assert_eq!(
        state.handle_request(&parser, true, &poll).err(),
        Some(ProtocolError::InvalidRequestUrl)
    );
}

#[test]
fn protocol_refusals() {
    let parser = RequestUrlParser::new("bin-ipc");
    let mut state: BinIpcState<String> = BinIpcState::new(rng());
    assert_eq!(
        state.handle_request(&parser, false, "bin-ipc://localhost/ipc/spawn/greet").err(),
        Some(ProtocolError::InvalidRequestMethod)
    );
    assert_eq!(
        state.handle_request(&parser, false, "bin-ipc://localhost\u{e9}x").err(),
        Some(ProtocolError::InvalidRequestMethod)
    );
    assert_eq!(
        state.handle_request(&parser, true, "bin-ipc://localhost/nope").err(),
        Some(ProtocolError::InvalidRequestUrl)
    );
    assert_eq!(
        state.handle_request(&parser, true, "bin-ipc://localhost/ipc/poll/5").err(),
        Some(ProtocolError::InvalidRequestUrl)
    );
    let e: ProtocolError<String> = ProtocolError::TooManyRequests;
    assert_eq!(e.message(), Some("Too many requests."));
    assert_eq!(ProtocolError::<String>::InvalidRequestMethod.message(), Some("Request method must be POST."));
    assert_eq!(ProtocolError::<String>::InvalidRequestUrl.message(), Some("Request URL is invalid."));
    assert_eq!(ProtocolError::Handler(1).message(), None);
}

#[test]
fn protocol_stale_id_is_refused() {
    let parser = RequestUrlParser::new("bin-ipc");
    let mut state: BinIpcState<String> = BinIpcState::new(rng());
    let id = match state.handle_request(&parser, true, "bin-ipc://localhost/ipc/spawn/a") {
        Ok(Action::Spawn { id, .. }) => id,
        _ => panic!("spawn refused"),
    };
    let forged = SecureArenaId::from_raw(id.to_raw() ^ (1u64 << 32));
    assert_eq!(
        state.handle_request(&parser, true, &poll_uri(forged)).err(),
        Some(ProtocolError::InvalidRequestUrl)
    );
    assert!(!state.complete(forged, Ok(Vec::new())));
}
