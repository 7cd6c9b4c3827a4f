use session_client::decimal::{i32_to_decimal, parse_u64, u64_to_decimal};
use session_client::envelope::parse_envelope;
use session_client::error::{Error, ProtocolError, SessionError};
use session_client::json::Json;
use session_client::player::{decode_player, Player};
use session_client::state::{next_state, Event, State};

fn obj(entries: Vec<(&str, Json)>) -> Json {
    Json::Object(entries.into_iter().map(|(k, v)| (k.to_string(), v)).collect())
}

#[test]
fn envelope_returns_success_payload() {
    let payload = Json::Array(vec![Json::Int(1), Json::Str("a".to_string())]);
    let resp = obj(vec![("success", payload)]);
    match parse_envelope(resp).unwrap() {
        Json::Array(items) => {
            assert_eq!(items.len(), 2);
            assert!(matches!(items[0], Json::Int(1)));
            assert!(matches!(&items[1], Json::Str(s) if s == "a"));
        }
        other => panic!("unexpected {:?}", other),
    }
}

#[test]
fn envelope_reports_remote_error() {
    let resp = obj(vec![(
        "error",
        obj(vec![
            ("id", Json::Int(-3)),
            ("description", Json::Str("bad".to_string())),
            ("info", Json::Str("more".to_string())),
        ]),
    )]);
    match parse_envelope(resp) {
        Err(SessionError::Remote(e)) => {
            assert_eq!(e.id, -3);
            assert_eq!(e.description.as_deref(), Some("bad"));
            assert_eq!(e.info.as_deref(), Some("more"));
        }
        other => panic!("unexpected {:?}", other),
    }
}

#[test]
fn envelope_with_incomplete_error_is_malformed() {
    let resp = obj(vec![("error", obj(vec![("id", Json::Int(1))]))]);
    assert!(matches!(
        parse_envelope(resp),
        Err(SessionError::Protocol(ProtocolError::MalformedErrorEnvelope))
    ));
    let resp = obj(vec![(
        "error",
        obj(vec![
            ("id", Json::Int(1 << 40)),
            ("description", Json::Str("d".to_string())),
            ("info", Json::Str("i".to_string())),
        ]),
    )]);
    assert!(matches!(
        parse_envelope(resp),
        Err(SessionError::Protocol(ProtocolError::MalformedErrorEnvelope))
    ));
}

#[test]
fn envelope_without_keys_is_malformed() {
    assert!(matches!(
        parse_envelope(obj(vec![("other", Json::Null)])),
        Err(SessionError::Protocol(ProtocolError::MalformedEnvelope))
    ));
    assert!(matches!(
        parse_envelope(Json::Int(3)),
        Err(SessionError::Protocol(ProtocolError::MalformedEnvelope))
    ));
    assert!(matches!(
        parse_envelope(Json::Float("1.5".to_string())),
        Err(SessionError::Protocol(ProtocolError::MalformedEnvelope))
    ));
}

#[test]
fn error_from_json_and_new() {
    let e = Error::new(4, Some("d".to_string()), None);
    assert_eq!(e.id, 4);
    assert_eq!(e.description.as_deref(), Some("d"));
    assert!(e.info.is_none());
    let j = obj(vec![
        ("id", Json::Int(9)),
        ("description", Json::Str("x".to_string())),
        ("info", Json::Str("y".to_string())),
    ]);
    let e = Error::from_json(&j).unwrap();
    assert_eq!(e.id, 9);
    assert_eq!(e.info.as_deref(), Some("y"));
    assert!(matches!(Error::from_json(&Json::Null), Err(ProtocolError::MalformedErrorEnvelope)));
}

#[test]
fn state_codes_map() {
    assert!(matches!(State::from_id(0), State::Registration));
    assert!(matches!(State::from_id(1), State::Idle));
    assert!(matches!(State::from_id(2), State::Searching));
    assert!(matches!(State::from_id(3), State::Playing));
    assert!(matches!(State::from_id(4), State::Disconnected(_)));
    assert!(matches!(State::from_id(u64::MAX), State::Disconnected(_)));
}

#[test]
fn transitions_follow_table() {
    assert!(matches!(next_state(&State::Registration, Event::Registered), State::Idle));
    assert!(matches!(next_state(&State::Idle, Event::SearchStarted), State::Searching));
    assert!(matches!(next_state(&State::Playing, Event::WentIdle), State::Idle));
    assert!(matches!(next_state(&State::Searching, Event::RequestAnswered(true)), State::Playing));
    assert!(matches!(
        next_state(&State::Searching, Event::RequestAnswered(false)),
        State::Searching
    ));
    assert!(matches!(next_state(&State::Idle, Event::StateReported(3)), State::Playing));
}

#[test]
fn player_entry_splits_at_first_colon() {
    let p = decode_player("17:carol:extra").unwrap();
    assert_eq!(p.id, 17);
    assert_eq!(p.nickname, "carol:extra");
    let p = decode_player("5:").unwrap();
    assert_eq!(p.nickname, "");
    assert!(matches!(decode_player("bob"), Err(ProtocolError::MalformedPlayerEntry)));
    assert!(matches!(decode_player(":bob"), Err(ProtocolError::MalformedPlayerEntry)));
    assert!(matches!(decode_player("+:bob"), Err(ProtocolError::MalformedPlayerEntry)));
    let p = decode_player("+42:x:y").unwrap();
    assert_eq!((p.id, p.nickname.as_str()), (42, "x:y"));
    assert!(matches!(decode_player("notanid:x"), Err(ProtocolError::MalformedPlayerEntry)));
    assert!(matches!(
        decode_player("18446744073709551616:big"),
        Err(ProtocolError::MalformedPlayerEntry)
    ));
    let p = decode_player("18446744073709551615:max").unwrap();
    assert_eq!(p.id, u64::MAX);
    let q = Player::new("dave", 2);
    assert_eq!((q.id, q.nickname.as_str()), (2, "dave"));
}

#[test]
fn decimal_numerals() {
    assert_eq!(parse_u64("0"), Some(0));
    assert_eq!(parse_u64("0042"), Some(42));
    assert_eq!(parse_u64(""), None);
    assert_eq!(parse_u64("4a"), None);
    assert_eq!(parse_u64("-1"), None);
    assert_eq!(parse_u64("+17"), Some(17));
    assert_eq!(parse_u64("+"), None);
    assert_eq!(parse_u64("++1"), None);
    assert_eq!(parse_u64("1+"), None);
    assert_eq!(parse_u64("+18446744073709551615"), Some(u64::MAX));
    assert_eq!(parse_u64("+18446744073709551616"), None);
    assert_eq!(u64_to_decimal(0), "0");
    assert_eq!(u64_to_decimal(1234567890), "1234567890");
    assert_eq!(u64_to_decimal(u64::MAX), "18446744073709551615");
    assert_eq!(i32_to_decimal(-7), "-7");
    assert_eq!(i32_to_decimal(i32::MIN), "-2147483648");
    assert_eq!(i32_to_decimal(250), "250");
}

#[test]
fn registration_info_new_keeps_fields() {
    let info = session_client::player::RegPlayerInfo::new("erin", 7, 42);
    assert_eq!(info.nickname, "erin");
    assert_eq!(info.id, 7);
    assert_eq!(info.player_id, 42);
}
