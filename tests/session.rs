use session_client::connection::Connection;
use session_client::error::{ProtocolError, SessionError};
use session_client::json::Json;
use session_client::route::{Command, Method};
use session_client::state::State;

fn text(s: &str) -> Json {
    Json::Str(s.to_string())
}

fn obj(entries: Vec<(&str, Json)>) -> Json {
    Json::Object(entries.into_iter().map(|(k, v)| (k.to_string(), v)).collect())
}

fn success(payload: Json) -> Json {
    obj(vec![("success", payload)])
}

fn registration_response() -> Json {
    success(obj(vec![(
        "player",
        obj(vec![
            ("nickname", text("alice")),
            ("id", Json::Int(7)),
            ("player_id", Json::Int(42)),
        ]),
    )]))
}

fn registered() -> Connection {
    let mut c = Connection::new("http://host");
    c.register(registration_response()).unwrap();
    c
}

#[test]
fn register_binds_identity_and_goes_idle() {
    let mut c = Connection::new("http://host");
    let req = c.request(&Command::Register("alice".to_string())).unwrap();
    assert_eq!(req.method, Method::Post);
    assert_eq!(req.path, "http://host/register");
    assert_eq!(req.query, vec![("name".to_string(), "alice".to_string())]);
    assert_eq!(req.body, "");
    c.register(registration_response()).unwrap();
    assert!(matches!(c.get_stored_state(), State::Idle));
    assert_eq!(c.get_nickname().unwrap(), "alice");
}

#[test]
fn fresh_session_is_registering() {
    let c = Connection::new("http://host");
    assert!(matches!(c.get_stored_state(), State::Registration));
    assert!(matches!(c.get_nickname(), Err(SessionError::NotRegistered)));
}

#[test]
fn scoped_routes_use_server_id() {
    let c = registered();
    let req = c.request(&Command::GetState).unwrap();
    assert_eq!(req.method, Method::Get);
    assert_eq!(req.path, "http://host/7/state");
    let req = c.request(&Command::SendRequest(9)).unwrap();
    assert_eq!(req.method, Method::Post);
    assert_eq!(req.path, "http://host/7/requests");
    assert_eq!(req.query, vec![("send_to".to_string(), "9".to_string())]);
    let req = c.request(&Command::SendMessage("hi there".to_string())).unwrap();
    assert_eq!(req.path, "http://host/7/messages");
    assert_eq!(req.body, "hi there");
    assert!(req.query.is_empty());
    let req = c.request(&Command::EndGame).unwrap();
    assert_eq!(req.path, "http://host/7/end_game");
}

#[test]
fn unscoped_routes_skip_server_id() {
    let c = registered();
    let req = c.request(&Command::GetPlayers).unwrap();
    assert_eq!(req.method, Method::Get);
    assert_eq!(req.path, "http://host/players");
    let req = c.request(&Command::GetErrorDescription(-12)).unwrap();
    assert_eq!(req.path, "http://host/error_description");
    assert_eq!(req.query, vec![("id".to_string(), "-12".to_string())]);
}

#[test]
fn scoped_calls_refused_before_registration() {
    let mut c = Connection::new("http://host");
    let scoped = vec![
        Command::GetState,
        Command::Search,
        Command::Idle,
        Command::SendRequest(9),
        Command::GetRequests,
        Command::SendMessage("x".to_string()),
        Command::GetMessages,
        Command::EndGame,
    ];
    for cmd in &scoped {
        assert!(matches!(c.request(cmd), Err(SessionError::NotRegistered)));
    }
    assert!(c.request(&Command::GetPlayers).is_ok());
    assert!(c.request(&Command::GetErrorDescription(1)).is_ok());
    let ok = success(obj(vec![]));
    assert!(matches!(c.search(ok), Err(SessionError::NotRegistered)));
    assert!(matches!(c.get_stored_state(), State::Registration));
    let ok = success(obj(vec![("state", Json::Int(2))]));
    assert!(matches!(c.get_state(ok), Err(SessionError::NotRegistered)));
    assert!(matches!(c.get_stored_state(), State::Registration));
}

#[test]
fn state_query_sets_searching() {
    let mut c = registered();
    let s = c.get_state(success(obj(vec![("state", Json::Int(2))]))).unwrap();
    assert!(matches!(s, State::Searching));
    assert!(matches!(c.get_stored_state(), State::Searching));
}

#[test]
fn unknown_state_code_disconnects_without_failing() {
    let mut c = registered();
    let s = c.get_state(success(obj(vec![("state", Json::Int(99))]))).unwrap();
    match s {
        State::Disconnected(reason) => assert!(!reason.is_empty()),
        _ => panic!("expected a disconnection"),
    }
    match c.get_stored_state() {
        State::Disconnected(reason) => assert_eq!(reason, "Unknown state id"),
        _ => panic!("expected a disconnection"),
    }
}

#[test]
fn state_query_with_bad_payload_keeps_state() {
    let mut c = registered();
    let r = c.get_state(success(obj(vec![("state", text("two"))])));
    assert!(matches!(r, Err(SessionError::Protocol(ProtocolError::MalformedPayload))));
    assert!(matches!(c.get_stored_state(), State::Idle));
    let r = c.get_state(success(obj(vec![("state", Json::Int(-1))])));
    assert!(matches!(r, Err(SessionError::Protocol(ProtocolError::MalformedPayload))));
}

#[test]
fn accepted_request_starts_game() {
    let mut c = registered();
    c.send_request(success(obj(vec![("in_game", Json::Bool(true))]))).unwrap();
    assert!(matches!(c.get_stored_state(), State::Playing));
}

#[test]
fn pending_request_keeps_state() {
    let mut c = registered();
    c.search(success(Json::Null)).unwrap();
    c.send_request(success(obj(vec![("in_game", Json::Bool(false))]))).unwrap();
    assert!(matches!(c.get_stored_state(), State::Searching));
}

#[test]
fn idle_twice_stays_idle() {
    let mut c = registered();
    c.search(success(Json::Null)).unwrap();
    c.idle(success(Json::Null)).unwrap();
    assert!(matches!(c.get_stored_state(), State::Idle));
    c.idle(success(obj(vec![]))).unwrap();
    assert!(matches!(c.get_stored_state(), State::Idle));
}

#[test]
fn search_twice_stays_searching() {
    let mut c = registered();
    c.search(success(Json::Null)).unwrap();
    c.search(success(Json::Null)).unwrap();
    assert!(matches!(c.get_stored_state(), State::Searching));
}

#[test]
fn remote_error_leaves_state() {
    let mut c = registered();
    let resp = obj(vec![(
        "error",
        obj(vec![
            ("id", Json::Int(5)),
            ("description", text("busy")),
            ("info", text("try later")),
        ]),
    )]);
    match c.search(resp) {
        Err(SessionError::Remote(e)) => {
            assert_eq!(e.id, 5);
            assert_eq!(e.description.as_deref(), Some("busy"));
            assert_eq!(e.info.as_deref(), Some("try later"));
        }
        other => panic!("unexpected {:?}", other),
    }
    assert!(matches!(c.get_stored_state(), State::Idle));
}

#[test]
fn end_game_keeps_state() {
    let mut c = registered();
    c.send_request(success(obj(vec![("in_game", Json::Bool(true))]))).unwrap();
    c.end_game(success(Json::Null)).unwrap();
    assert!(matches!(c.get_stored_state(), State::Playing));
}

#[test]
fn requests_are_decoded() {
    let mut c = registered();
    let resp = success(obj(vec![("requests", Json::Array(vec![text("3:bob")]))]));
    let ps = c.get_requests(resp).unwrap();
    assert_eq!(ps.len(), 1);
    assert_eq!(ps[0].id, 3);
    assert_eq!(ps[0].nickname, "bob");
}

#[test]
fn players_are_decoded() {
    let c = Connection::new("http://host");
    let resp = success(obj(vec![(
        "players",
        Json::Array(vec![text("3:bob"), text("17:carol:extra")]),
    )]));
    let ps = c.get_players(resp).unwrap();
    assert_eq!(ps.len(), 2);
    assert_eq!((ps[0].id, ps[0].nickname.as_str()), (3, "bob"));
    assert_eq!((ps[1].id, ps[1].nickname.as_str()), (17, "carol:extra"));
}

#[test]
fn bad_player_entry_is_refused() {
    let c = Connection::new("http://host");
    let resp = success(obj(vec![("players", Json::Array(vec![text("notanid:x")]))]));
    assert!(matches!(
        c.get_players(resp),
        Err(SessionError::Protocol(ProtocolError::MalformedPlayerEntry))
    ));
    let resp = success(obj(vec![("players", text("3:bob"))]));
    assert!(matches!(
        c.get_players(resp),
        Err(SessionError::Protocol(ProtocolError::MalformedPayload))
    ));
}

#[test]
fn messages_are_decoded() {
    let mut c = registered();
    c.send_message(success(Json::Null)).unwrap();
    let resp = success(obj(vec![("messages", Json::Array(vec![text("hello"), text("gg")]))]));
    assert_eq!(c.get_messages(resp).unwrap(), vec!["hello".to_string(), "gg".to_string()]);
    let resp = success(obj(vec![("messages", Json::Array(vec![Json::Int(1)]))]));
    assert!(matches!(
        c.get_messages(resp),
        Err(SessionError::Protocol(ProtocolError::MalformedPayload))
    ));
}

#[test]
fn error_description_is_read() {
    let c = Connection::new("http://host");
    let resp = success(obj(vec![("description", text("no such player"))]));
    assert_eq!(c.get_error_description(resp).unwrap(), "no such player");
    let resp = success(obj(vec![]));
    assert!(matches!(
        c.get_error_description(resp),
        Err(SessionError::Protocol(ProtocolError::MalformedPayload))
    ));
}

#[test]
fn malformed_registration_is_refused() {
    let mut c = Connection::new("http://host");
    let resp = success(obj(vec![("player", obj(vec![("nickname", text("alice"))]))]));
    assert!(matches!(
        c.register(resp),
        Err(SessionError::Protocol(ProtocolError::MalformedPayload))
    ));
    assert!(matches!(c.get_stored_state(), State::Registration));
    assert!(c.get_nickname().is_err());
}

#[test]
fn plus_signed_player_id_is_accepted() {
    let c = Connection::new("http://host");
    let resp = success(obj(vec![("players", Json::Array(vec![text("+3:bob")]))]));
    let ps = c.get_players(resp).unwrap();
    assert_eq!(ps.len(), 1);
    assert_eq!((ps[0].id, ps[0].nickname.as_str()), (3, "bob"));
}

#[test]
fn second_registration_is_refused() {
    let mut c = registered();
    assert!(matches!(
        c.request(&Command::Register("bob".to_string())),
        Err(SessionError::AlreadyRegistered)
    ));
    let other = success(obj(vec![(
        "player",
        obj(vec![
            ("nickname", text("bob")),
            ("id", Json::Int(8)),
            ("player_id", Json::Int(43)),
        ]),
    )]));
    assert!(matches!(c.register(other), Err(SessionError::AlreadyRegistered)));
    assert_eq!(c.get_nickname().unwrap(), "alice");
    assert!(matches!(c.get_stored_state(), State::Idle));
    assert_eq!(c.request(&Command::GetState).unwrap().path, "http://host/7/state");
}
