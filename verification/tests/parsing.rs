use rand::SeedableRng;
use tauri_plugin_bin_ipc::request_path::{path_connect, path_with_key, RequestPath, RequestPathError};
use tauri_plugin_bin_ipc::request_url::{RequestUrl, RequestUrlParser};
use tauri_plugin_bin_ipc::int_parse::ParseErrorKind;
use tauri_plugin_bin_ipc::secure_arena_id::{SecureArenaId, KEY_UPPER_BOUND};

#[test]
fn request_path_keyed_methods() {
    assert_eq!(RequestPath::from_str("/1/2/push"), Ok(RequestPath::Push { id: 1, key: 2 }));
    assert_eq!(RequestPath::from_str("/10/20/pop"), Ok(RequestPath::Pop { id: 10, key: 20 }));
    assert_eq!(
        RequestPath::from_str("/3/4/close/down"),
        Ok(RequestPath::CloseDown { id: 3, key: 4 })
    );
    assert_eq!(RequestPath::from_str("/3/4/close/up"), Ok(RequestPath::CloseUp { id: 3, key: 4 }));
    assert_eq!(
        RequestPath::from_str("/0/4294967295/disconnect"),
        Ok(RequestPath::Disconnect { id: 0, key: 4294967295 })
    );
}

#[test]
fn request_path_connect() {
    assert_eq!(RequestPath::from_str("/connect"), Ok(RequestPath::Connect));
    assert_eq!(path_connect("connect"), Ok(RequestPath::Connect));
    assert_eq!(path_connect("connect/"), Err(RequestPathError));
    assert_eq!("/connect".parse::<RequestPath>(), Ok(RequestPath::Connect));
}

#[test]
fn request_path_rejections() {
    assert_eq!(RequestPath::from_str("connect"), Err(RequestPathError));
    assert_eq!(RequestPath::from_str(""), Err(RequestPathError));
    assert_eq!(RequestPath::from_str("/"), Err(RequestPathError));
    assert_eq!(RequestPath::from_str("/1/2/fetch"), Err(RequestPathError));
    assert_eq!(RequestPath::from_str("/1/2/"), Err(RequestPathError));
    assert_eq!(RequestPath::from_str("/1/2"), Err(RequestPathError));
    assert_eq!(RequestPath::from_str("/x/2/pop"), Err(RequestPathError));
    assert_eq!(RequestPath::from_str("/1/-2/pop"), Err(RequestPathError));
    assert_eq!(RequestPath::from_str("/1/4294967296/pop"), Err(RequestPathError));
    assert_eq!(RequestPath::from_str("/1/2/close"), Err(RequestPathError));
    assert_eq!(path_with_key("connect"), Err(RequestPathError));
}

#[test]
fn request_path_number_forms() {
    assert_eq!(RequestPath::from_str("/+5/+6/push"), Ok(RequestPath::Push { id: 5, key: 6 }));
    assert_eq!(RequestPath::from_str("/007/0/pop"), Ok(RequestPath::Pop { id: 7, key: 0 }));
    assert_eq!(RequestPath::from_str("/ 5/6/push"), Err(RequestPathError));
    assert_eq!(path_with_key("5/6/push"), Ok(RequestPath::Push { id: 5, key: 6 }));
}

#[test]
fn request_path_error_messages() {
    assert_eq!(RequestPathError.message(), "the request URI is invalid.");
    assert_eq!(
        tauri_plugin_bin_ipc::request_path::InvalidMethodError.message(),
        "bin-ipc request method must be POST"
    );
}

#[test]
fn request_url_spawn_and_poll() {
    let parser = RequestUrlParser::new("bin-ipc");
    assert_eq!(parser.parse("bin-ipc://localhost/ipc/spawn/greet"), Ok(RequestUrl::IpcSpawn("greet")));
    assert_eq!(parser.parse("bin-ipc://localhost/ipc/spawn/a/b"), Ok(RequestUrl::IpcSpawn("a/b")));
    assert_eq!(parser.parse("bin-ipc://localhost/ipc/spawn/"), Ok(RequestUrl::IpcSpawn("")));
    assert_eq!(
        parser.parse("bin-ipc://localhost/ipc/poll/42"),
        Ok(RequestUrl::IpcPoll(SecureArenaId::from_raw(42)))
    );
}

#[test]
fn request_url_rejections() {
    let parser = RequestUrlParser::new("bin-ipc");
    assert_eq!(parser.parse("bin-ipc://localhost/"), Err(()));
    assert_eq!(parser.parse("short"), Err(()));
    assert_eq!(parser.parse("bin-ipc://localhost/ipc"), Err(()));
    assert_eq!(parser.parse("bin-ipc://localhost/ipc/spawn"), Err(()));
    assert_eq!(parser.parse("bin-ipc://localhost/api/spawn/x"), Err(()));
    assert_eq!(parser.parse("bin-ipc://localhost/ipc/kill/x"), Err(()));
    assert_eq!(parser.parse("bin-ipc://localhost/ipc/poll/abc"), Err(()));
    assert_eq!(parser.parse("bin-ipc://localhost/ipc/poll/18446744073709551616"), Err(()));
}

#[test]
fn request_url_prefix_is_not_read() {
    assert_eq!(RequestUrlParser::new("bin-ipc").url_prefix_len(), 20);
    let parser = RequestUrlParser::new("abc");
    assert_eq!(parser.url_prefix_len(), 16);
    assert_eq!(parser.parse("xyz:!!!!!!!!!!!!ipc/spawn/run"), Ok(RequestUrl::IpcSpawn("run")));
}

#[test]
fn secure_arena_id_packing() {
    let mut rng = rand::rngs::SmallRng::seed_from_u64(7);
    let id = SecureArenaId::new(12345, &mut rng).unwrap();
    assert_eq!(id.id(), 12345);
    assert!(id.key() < KEY_UPPER_BOUND);
    assert_eq!(id.to_raw(), 12345 + (id.key() << 32));
    assert!(id.to_raw() < (1u64 << 53));
    let top = SecureArenaId::new(0xFFFF_FFFF, &mut rng).unwrap();
    assert_eq!(top.id(), 0xFFFF_FFFF);
    assert_eq!(SecureArenaId::new(1usize << 32, &mut rng), Err(()));
}

#[test]
fn secure_arena_id_from_text() {
    let id = SecureArenaId::from_str_radix("123", 10).unwrap();
    assert_eq!(id.to_raw(), 123);
    assert_eq!(id.id(), 123);
    assert_eq!(id.key(), 0);
    assert_eq!(SecureArenaId::from_str_radix("ff", 16).unwrap().to_raw(), 255);
    assert_eq!(SecureArenaId::from_str_radix("+7", 10).unwrap().to_raw(), 7);
    assert!(SecureArenaId::from_str_radix("", 10).is_err());
    assert!(SecureArenaId::from_str_radix("-1", 10).is_err());
    assert!(SecureArenaId::from_str_radix("+", 10).is_err());
    assert!(SecureArenaId::from_str_radix("12a", 10).is_err());
    assert!(SecureArenaId::from_str_radix("18446744073709551616", 10).is_err());
    let big = SecureArenaId::from_str_radix("4294967296", 10).unwrap();
    assert_eq!(big.id(), 0);
    assert_eq!(big.key(), 1);
}

#[test]
fn secure_arena_id_raw_round_trip() {
    let id = SecureArenaId::from_raw(0x1234_0000_0042);
    assert_eq!(id.to_raw(), 0x1234_0000_0042);
    assert_eq!(id.id(), 0x42);
    assert_eq!(id.key(), 0x1234);
    assert_eq!(SecureArenaId::from_raw(id.to_raw()), id);
}

#[test]
fn secure_arena_id_error_kinds() {
    let kind = |s: &str, r: u32| SecureArenaId::from_str_radix(s, r).err().unwrap().kind();
    assert_eq!(kind("", 10), ParseErrorKind::Empty);
    assert_eq!(kind("+", 10), ParseErrorKind::InvalidDigit);
    assert_eq!(kind("-1", 10), ParseErrorKind::InvalidDigit);
    assert_eq!(kind("12a", 10), ParseErrorKind::InvalidDigit);
    assert_eq!(kind("g", 16), ParseErrorKind::InvalidDigit);
    assert_eq!(kind("18446744073709551616", 10), ParseErrorKind::PosOverflow);
    let e = SecureArenaId::from_str_radix("x", 10).err().unwrap();
    assert_eq!(e.into_inner().kind(), &std::num::IntErrorKind::InvalidDigit);
}

#[test]
fn secure_arena_id_failure_leaves_generator() {
    let mut rng = rand::rngs::SmallRng::seed_from_u64(3);
    let before = rng.clone();
    assert_eq!(SecureArenaId::new(1usize << 40, &mut rng), Err(()));
    assert_eq!(rng, before);
}
