//! The session: identity, tracked state, and how each call's response
//! moves them.
//!
//! A call goes in two steps. [`Connection::request`] builds the HTTP call,
//! refusing a scoped one before registration; the caller's transport
//! performs it; then the method named after the call takes the decoded
//! response, checks its envelope and payload, and updates the session.
//! Nothing changes unless the whole call succeeds.
use vstd::prelude::*;
use vstd::string::StringExecFns;
use crate::envelope::{envelope_result, parse_envelope};
use crate::error::{ProtocolError, SessionError};
use crate::json::Json;
use crate::payload::{
    decode_description, decode_in_game, decode_player_list, decode_registration,
    decode_state_code, decode_string_list, description_of, in_game_of, is_player_list_result,
    is_string_list_result, registration_of, state_code_of,
};
use crate::player::{Player, RegPlayerInfo};
use crate::route::{build_request, is_request_for, route, Command, Request};
use crate::state::{is_state_of_code, next_state, Event, State};

verus! {

/// One player's session with the server.
pub struct Connection {
    state: State,
    info: Option<RegPlayerInfo>,
    base_url: String,
}

/// What a response yields once the session's identity has been checked.
pub open spec fn scoped_result(pre: Connection, resp: Json) -> Result<Json, SessionError> {
    if pre.identity() is None {
        Err(SessionError::NotRegistered)
    } else {
        envelope_result(resp)
    }
}

/// `a` and `b` are the same state, a disconnection's reason compared as text.
pub open spec fn same_state(a: State, b: State) -> bool {
    match (a, b) {
        (State::Disconnected(x), State::Disconnected(y)) => x@ == y@,
        _ => a == b,
    }
}

/// `post` is `pre` with only the tracked state set to `s`.
pub open spec fn moved_to(pre: Connection, post: Connection, s: State) -> bool {
    &&& post.stored_state() == s
    &&& post.identity() == pre.identity()
    &&& post.base_url() == pre.base_url()
}

/// The effect of a registration call: refused once an identity is bound,
/// since the identity never changes after registration.
pub open spec fn register_outcome(
    pre: Connection,
    resp: Json,
    post: Connection,
    r: Result<(), SessionError>,
) -> bool {
    if pre.identity() is Some {
        r == Err::<(), SessionError>(SessionError::AlreadyRegistered) && post == pre
    } else {
        registration_outcome(pre, resp, post, r)
    }
}

/// The effect of a registration response on a session without an identity.
pub open spec fn registration_outcome(
    pre: Connection,
    resp: Json,
    post: Connection,
    r: Result<(), SessionError>,
) -> bool {
    match envelope_result(resp) {
        Err(e) => r == Err::<(), SessionError>(e) && post == pre,
        Ok(payload) => match registration_of(payload) {
            Some(info) => {
                &&& r is Ok
                &&& post.identity() == Some(info)
                &&& post.stored_state() == State::Idle
                &&& post.base_url() == pre.base_url()
            },
            None => r == Err::<(), SessionError>(
                SessionError::Protocol(ProtocolError::MalformedPayload),
            ) && post == pre,
        },
    }
}

/// The effect of a state query.
pub open spec fn get_state_outcome(
    pre: Connection,
    resp: Json,
    post: Connection,
    r: Result<State, SessionError>,
) -> bool {
    match scoped_result(pre, resp) {
        Err(e) => r == Err::<State, SessionError>(e) && post == pre,
        Ok(payload) => match state_code_of(payload) {
            Some(code) => r matches Ok(s) && is_state_of_code(code, s) && moved_to(pre, post, s),
            None => r == Err::<State, SessionError>(
                SessionError::Protocol(ProtocolError::MalformedPayload),
            ) && post == pre,
        },
    }
}

/// The effect of a call whose payload is ignored and whose success sets
/// the state to `s`.
pub open spec fn moving_outcome(
    pre: Connection,
    resp: Json,
    post: Connection,
    r: Result<(), SessionError>,
    s: State,
) -> bool {
    match scoped_result(pre, resp) {
        Err(e) => r == Err::<(), SessionError>(e) && post == pre,
        Ok(_) => r is Ok && moved_to(pre, post, s),
    }
}

/// The effect of a call whose payload is ignored and which moves nothing.
pub open spec fn plain_outcome(
    pre: Connection,
    resp: Json,
    post: Connection,
    r: Result<(), SessionError>,
) -> bool {
    &&& post == pre
    &&& match scoped_result(pre, resp) {
        Err(e) => r == Err::<(), SessionError>(e),
        Ok(_) => r is Ok,
    }
}

/// The effect of sending a match request: the state becomes `Playing`
/// when the server says a game began, and stays as it was otherwise.
pub open spec fn send_request_outcome(
    pre: Connection,
    resp: Json,
    post: Connection,
    r: Result<(), SessionError>,
) -> bool {
    match scoped_result(pre, resp) {
        Err(e) => r == Err::<(), SessionError>(e) && post == pre,
        Ok(payload) => match in_game_of(payload) {
            Some(in_game) => r is Ok && moved_to(
                pre,
                post,
                if in_game {
                    State::Playing
                } else {
                    pre.stored_state()
                },
            ),
            None => r == Err::<(), SessionError>(
                SessionError::Protocol(ProtocolError::MalformedPayload),
            ) && post == pre,
        },
    }
}

/// `r` is the player list that `payload_result` carries under `key`.
pub open spec fn player_list_outcome(
    payload_result: Result<Json, SessionError>,
    key: Seq<char>,
    r: Result<Vec<Player>, SessionError>,
) -> bool {
    match payload_result {
        Err(e) => r == Err::<Vec<Player>, SessionError>(e),
        Ok(payload) => exists|d: Result<Vec<Player>, ProtocolError>|
            #[trigger] is_player_list_result(payload, key, d) && r == (match d {
                Ok(ps) => Ok::<Vec<Player>, SessionError>(ps),
                Err(p) => Err::<Vec<Player>, SessionError>(SessionError::Protocol(p)),
            }),
    }
}

/// `r` is the string list that `payload_result` carries under `key`.
pub open spec fn string_list_outcome(
    payload_result: Result<Json, SessionError>,
    key: Seq<char>,
    r: Result<Vec<String>, SessionError>,
) -> bool {
    match payload_result {
        Err(e) => r == Err::<Vec<String>, SessionError>(e),
        Ok(payload) => exists|d: Result<Vec<String>, ProtocolError>|
            #[trigger] is_string_list_result(payload, key, d) && r == (match d {
                Ok(v) => Ok::<Vec<String>, SessionError>(v),
                Err(p) => Err::<Vec<String>, SessionError>(SessionError::Protocol(p)),
            }),
    }
}

impl Connection {
    /// The state this session tracks.
    pub closed spec fn stored_state(self) -> State {
        self.state
    }

    /// The identity bound by registration, if any.
    pub closed spec fn identity(self) -> Option<RegPlayerInfo> {
        self.info
    }

    pub closed spec fn base_url(self) -> String {
        self.base_url
    }

    /// The server id that scopes this session's routes, once registered.
    pub open spec fn server_id(self) -> Option<u64> {
        match self.identity() {
            Some(info) => Some(info.id),
            None => None,
        }
    }

    /// Without an identity the session is still registering.
    pub open spec fn wf(self) -> bool {
        self.identity() is None ==> self.stored_state() == State::Registration
    }

    /// A fresh session against the server at `url`.
    pub fn new(url: &str) -> (r: Connection)
        ensures
            r.wf(),
            r.stored_state() == State::Registration,
            r.identity() is None,
            r.base_url()@ == url@,
    {
        Connection { state: State::Registration, info: None, base_url: String::from_str(url) }
    }

    /// Builds the HTTP call for `cmd`; a scoped call before registration
    /// fails with `NotRegistered`, and registration after it with
    /// `AlreadyRegistered`, so that no transport call is made.
    pub fn request(&self, cmd: &Command) -> (r: Result<Request, SessionError>)
        ensures
            route(self.base_url()@, self.server_id(), *cmd) matches Some(path) ==> (r matches Ok(
                req,
            ) && is_request_for(req, path, *cmd)),
            route(self.base_url()@, self.server_id(), *cmd) is None && cmd.is_scoped() ==> r
                matches Err(SessionError::NotRegistered),
            route(self.base_url()@, self.server_id(), *cmd) is None && !cmd.is_scoped() ==> r
                matches Err(SessionError::AlreadyRegistered),
    {
        let server_id = match &self.info {
            Some(info) => Some(info.id),
            None => None,
        };
        match build_request(&self.base_url, server_id, cmd) {
            Some(req) => Ok(req),
            None => if cmd.scoped() {
                Err(SessionError::NotRegistered)
            } else {
                Err(SessionError::AlreadyRegistered)
            },
        }
    }

    /// The payload of a scoped call's response.
    fn scoped_payload(&self, resp: Json) -> (r: Result<Json, SessionError>)
        ensures
            r == scoped_result(*self, resp),
    {
        if self.info.is_none() {
            return Err(SessionError::NotRegistered);
        }
        parse_envelope(resp)
    }

    pub fn get_stored_state(&self) -> (r: State)
        ensures
            r == self.stored_state(),
    {
        self.state.duplicate()
    }

    /// The nickname the server registered this player under.
    pub fn get_nickname(&self) -> (r: Result<String, SessionError>)
        ensures
            self.identity() matches Some(info) ==> r == Ok::<String, SessionError>(info.nickname),
            self.identity() is None ==> r matches Err(SessionError::NotRegistered),
    {
        match &self.info {
            Some(info) => Ok(info.nickname.clone()),
            None => Err(SessionError::NotRegistered),
        }
    }

    /// Takes the response to `register`: binds the identity it carries and
    /// moves to `Idle`.
    pub fn register(&mut self, resp: Json) -> (r: Result<(), SessionError>)
        requires
            old(self).wf(),
        ensures
            final(self).wf(),
            register_outcome(*old(self), resp, *final(self), r),
    {
        if self.info.is_some() {
            return Err(SessionError::AlreadyRegistered);
        }
        let payload = parse_envelope(resp)?;
        let info = match decode_registration(&payload) {
            Ok(info) => info,
            Err(p) => return Err(SessionError::Protocol(p)),
        };
        let state = next_state(&self.state, Event::Registered);
        self.info = Some(info);
        self.state = state;
        Ok(())
    }

    /// Takes the response to `state`: the server's code overwrites the
    /// tracked state, an unknown code giving `Disconnected`.
    pub fn get_state(&mut self, resp: Json) -> (r: Result<State, SessionError>)
        requires
            old(self).wf(),
        ensures
            final(self).wf(),
            get_state_outcome(*old(self), resp, *final(self), r),
    {
        let payload = self.scoped_payload(resp)?;
        let code = match decode_state_code(&payload) {
            Ok(c) => c,
            Err(p) => return Err(SessionError::Protocol(p)),
        };
        let state = next_state(&self.state, Event::StateReported(code));
        self.state = state.duplicate();
        Ok(state)
    }

    /// Takes the response to `search`: moves to `Searching`.
    pub fn search(&mut self, resp: Json) -> (r: Result<(), SessionError>)
        requires
            old(self).wf(),
        ensures
            final(self).wf(),
            moving_outcome(*old(self), resp, *final(self), r, State::Searching),
    {
        let _ = self.scoped_payload(resp)?;
        self.state = next_state(&self.state, Event::SearchStarted);
        Ok(())
    }

    /// Takes the response to `idle`: moves to `Idle`.
    pub fn idle(&mut self, resp: Json) -> (r: Result<(), SessionError>)
        requires
            old(self).wf(),
        ensures
            final(self).wf(),
            moving_outcome(*old(self), resp, *final(self), r, State::Idle),
    {
        let _ = self.scoped_payload(resp)?;
        self.state = next_state(&self.state, Event::WentIdle);
        Ok(())
    }

    /// Takes the response to a match request: moves to `Playing` when a
    /// game began.
    pub fn send_request(&mut self, resp: Json) -> (r: Result<(), SessionError>)
        requires
            old(self).wf(),
        ensures
            final(self).wf(),
            send_request_outcome(*old(self), resp, *final(self), r),
    {
        let payload = self.scoped_payload(resp)?;
        let in_game = match decode_in_game(&payload) {
            Ok(b) => b,
            Err(p) => return Err(SessionError::Protocol(p)),
        };
        self.state = next_state(&self.state, Event::RequestAnswered(in_game));
        Ok(())
    }

    /// Takes the response to a request query: the players asking for a match.
    pub fn get_requests(&mut self, resp: Json) -> (r: Result<Vec<Player>, SessionError>)
        ensures
            *final(self) == *old(self),
            player_list_outcome(scoped_result(*old(self), resp), "requests"@, r),
    {
        let payload = self.scoped_payload(resp)?;
        match decode_player_list(&payload, "requests") {
            Ok(ps) => Ok(ps),
            Err(p) => Err(SessionError::Protocol(p)),
        }
    }

    /// Takes the response to sending a message.
    pub fn send_message(&mut self, resp: Json) -> (r: Result<(), SessionError>)
        ensures
            plain_outcome(*old(self), resp, *final(self), r),
    {
        let _ = self.scoped_payload(resp)?;
        Ok(())
    }

    /// Takes the response to a message query: the messages received.
    pub fn get_messages(&mut self, resp: Json) -> (r: Result<Vec<String>, SessionError>)
        ensures
            *final(self) == *old(self),
            string_list_outcome(scoped_result(*old(self), resp), "messages"@, r),
    {
        let payload = self.scoped_payload(resp)?;
        match decode_string_list(&payload, "messages") {
            Ok(v) => Ok(v),
            Err(p) => Err(SessionError::Protocol(p)),
        }
    }

    /// Takes the response to `end_game`; the tracked state stays as it is.
    pub fn end_game(&mut self, resp: Json) -> (r: Result<(), SessionError>)
        ensures
            plain_outcome(*old(self), resp, *final(self), r),
    {
        let _ = self.scoped_payload(resp)?;
        Ok(())
    }

    /// Takes the response to a player listing.
    pub fn get_players(&self, resp: Json) -> (r: Result<Vec<Player>, SessionError>)
        ensures
            player_list_outcome(envelope_result(resp), "players"@, r),
    {
        let payload = parse_envelope(resp)?;
        match decode_player_list(&payload, "players") {
            Ok(ps) => Ok(ps),
            Err(p) => Err(SessionError::Protocol(p)),
        }
    }

    /// Takes the response to an error description lookup.
    pub fn get_error_description(&self, resp: Json) -> (r: Result<String, SessionError>)
        ensures
            match envelope_result(resp) {
                Err(e) => r == Err::<String, SessionError>(e),
                Ok(payload) => match description_of(payload) {
                    Some(d) => r == Ok::<String, SessionError>(d),
                    None => r == Err::<String, SessionError>(
                        SessionError::Protocol(ProtocolError::MalformedPayload),
                    ),
                },
            },
    {
        let payload = parse_envelope(resp)?;
        match decode_description(&payload) {
            Ok(d) => Ok(d),
            Err(p) => Err(SessionError::Protocol(p)),
        }
    }
}

/// Before registration every scoped call is refused with `NotRegistered`:
/// no request is built for it, so no transport call happens, and a
/// response handed in anyway changes nothing.
pub proof fn unregistered_calls_refused(c: Connection, cmd: Command, resp: Json)
    requires
        c.identity() is None,
        cmd.is_scoped(),
    ensures
        route(c.base_url()@, c.server_id(), cmd) is None,
        scoped_result(c, resp) == Err::<Json, SessionError>(SessionError::NotRegistered),
        forall|post: Connection, r: Result<(), SessionError>|
            #[trigger] moving_outcome(c, resp, post, r, State::Idle) ==> post == c && r
                == Err::<(), SessionError>(SessionError::NotRegistered),
        forall|post: Connection, r: Result<(), SessionError>|
            #[trigger] moving_outcome(c, resp, post, r, State::Searching) ==> post == c && r
                == Err::<(), SessionError>(SessionError::NotRegistered),
        forall|post: Connection, r: Result<(), SessionError>|
            #[trigger] send_request_outcome(c, resp, post, r) ==> post == c && r
                == Err::<(), SessionError>(SessionError::NotRegistered),
        forall|post: Connection, r: Result<State, SessionError>|
            #[trigger] get_state_outcome(c, resp, post, r) ==> post == c && r
                == Err::<State, SessionError>(SessionError::NotRegistered),
        forall|post: Connection, r: Result<(), SessionError>|
            #[trigger] plain_outcome(c, resp, post, r) ==> post == c && r
                == Err::<(), SessionError>(SessionError::NotRegistered),
{
}

/// Once an identity is bound, registration is refused and the session,
/// identity included, stays as it was.
pub proof fn bound_identity_is_kept(
    pre: Connection,
    resp: Json,
    post: Connection,
    r: Result<(), SessionError>,
)
    requires
        pre.identity() is Some,
        register_outcome(pre, resp, post, r),
    ensures
        r == Err::<(), SessionError>(SessionError::AlreadyRegistered),
        post == pre,
        forall|nickname: String|
            #[trigger] route(pre.base_url()@, pre.server_id(), Command::Register(nickname)) is None,
{
}

/// A successful registration happens only on a session without an
/// identity, and leaves the session `Idle`, bound to the
/// identity the server handed out, whose nickname is the one reported.
pub proof fn registration_binds_identity(
    pre: Connection,
    resp: Json,
    post: Connection,
    r: Result<(), SessionError>,
)
    requires
        register_outcome(pre, resp, post, r),
        r is Ok,
    ensures
        pre.identity() is None,
        post.stored_state() == State::Idle,
        envelope_result(resp) matches Ok(payload) && registration_of(payload) matches Some(info)
            && post.identity() == Some(info),
        post.wf(),
{
}

/// Going idle twice in a row, both times with success, leaves the state
/// `Idle` after each call, and the second call changes nothing.
pub proof fn idle_is_idempotent(
    c0: Connection,
    resp1: Json,
    c1: Connection,
    r1: Result<(), SessionError>,
    resp2: Json,
    c2: Connection,
    r2: Result<(), SessionError>,
)
    requires
        moving_outcome(c0, resp1, c1, r1, State::Idle),
        moving_outcome(c1, resp2, c2, r2, State::Idle),
        r1 is Ok,
        r2 is Ok,
    ensures
        c1.stored_state() == State::Idle,
        c2.stored_state() == State::Idle,
        c2 == c1,
{
}

/// Searching twice in a row, both times with success, leaves the state
/// `Searching` after each call, and the second call changes nothing.
pub proof fn search_is_idempotent(
    c0: Connection,
    resp1: Json,
    c1: Connection,
    r1: Result<(), SessionError>,
    resp2: Json,
    c2: Connection,
    r2: Result<(), SessionError>,
)
    requires
        moving_outcome(c0, resp1, c1, r1, State::Searching),
        moving_outcome(c1, resp2, c2, r2, State::Searching),
        r1 is Ok,
        r2 is Ok,
    ensures
        c1.stored_state() == State::Searching,
        c2.stored_state() == State::Searching,
        c2 == c1,
{
}

/// Two state queries answered with the same code leave the same tracked
/// state, and the second changes nothing the first did not.
pub proof fn state_query_is_idempotent(
    c0: Connection,
    resp: Json,
    c1: Connection,
    r1: Result<State, SessionError>,
    c2: Connection,
    r2: Result<State, SessionError>,
)
    requires
        get_state_outcome(c0, resp, c1, r1),
        get_state_outcome(c1, resp, c2, r2),
        r1 is Ok,
        r2 is Ok,
    ensures
        c2.identity() == c1.identity(),
        c2.base_url() == c1.base_url(),
        same_state(c1.stored_state(), c2.stored_state()),
{
}

} // verus!
