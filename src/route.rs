//! How each call is addressed: method, path, query and body.
use vstd::prelude::*;
use vstd::string::StringExecFns;
use crate::decimal::{decimal_text, i32_to_decimal, signed_decimal_text, u64_to_decimal};

verus! {

#[derive(Debug, PartialEq, Eq, Structural, Clone, Copy)]
pub enum Method {
    Get,
    Post,
}

/// A call the session can make on the server.
#[derive(Debug)]
pub enum Command {
    /// Register under the given nickname.
    Register(String),
    GetState,
    Search,
    Idle,
    /// Ask the player with this id for a match.
    SendRequest(u64),
    GetRequests,
    /// Send this text to the opponent.
    SendMessage(String),
    GetMessages,
    EndGame,
    GetPlayers,
    /// Look up the description of this error id.
    GetErrorDescription(i32),
}

/// An HTTP call ready for a transport to perform.
#[derive(Debug)]
pub struct Request {
    pub method: Method,
    /// The full URL, without the query.
    pub path: String,
    pub query: Vec<(String, String)>,
    pub body: String,
}

/// The query pairs of a request, as text.
pub open spec fn query_view(q: Seq<(String, String)>) -> Seq<(Seq<char>, Seq<char>)> {
    q.map_values(|p: (String, String)| (p.0@, p.1@))
}

impl Command {
    /// Whether the call is made on behalf of the registered player, under
    /// its server id.
    pub open spec fn is_scoped(self) -> bool {
        !(self is Register || self is GetPlayers || self is GetErrorDescription)
    }

    /// The last segment of the call's path.
    pub open spec fn command_name(self) -> Seq<char> {
        match self {
            Command::Register(_) => "register"@,
            Command::GetState => "state"@,
            Command::Search => "search"@,
            Command::Idle => "idle"@,
            Command::SendRequest(_) => "requests"@,
            Command::GetRequests => "requests"@,
            Command::SendMessage(_) => "messages"@,
            Command::GetMessages => "messages"@,
            Command::EndGame => "end_game"@,
            Command::GetPlayers => "players"@,
            Command::GetErrorDescription(_) => "error_description"@,
        }
    }

    pub open spec fn method(self) -> Method {
        match self {
            Command::GetState | Command::GetRequests | Command::GetMessages | Command::GetPlayers
            | Command::GetErrorDescription(_) => Method::Get,
            _ => Method::Post,
        }
    }

    pub open spec fn query(self) -> Seq<(Seq<char>, Seq<char>)> {
        match self {
            Command::Register(nickname) => seq![("name"@, nickname@)],
            Command::SendRequest(to) => seq![("send_to"@, decimal_text(to as nat))],
            Command::GetErrorDescription(id) => seq![("id"@, signed_decimal_text(id as int))],
            _ => seq![],
        }
    }

    pub open spec fn body(self) -> Seq<char> {
        match self {
            Command::SendMessage(text) => text@,
            _ => Seq::empty(),
        }
    }

    pub fn name(&self) -> (r: &'static str)
        ensures
            r@ == self.command_name(),
    {
        match self {
            Command::Register(_) => "register",
            Command::GetState => "state",
            Command::Search => "search",
            Command::Idle => "idle",
            Command::SendRequest(_) => "requests",
            Command::GetRequests => "requests",
            Command::SendMessage(_) => "messages",
            Command::GetMessages => "messages",
            Command::EndGame => "end_game",
            Command::GetPlayers => "players",
            Command::GetErrorDescription(_) => "error_description",
        }
    }

    pub fn scoped(&self) -> (r: bool)
        ensures
            r == self.is_scoped(),
    {
        !matches!(self, Command::Register(_) | Command::GetPlayers | Command::GetErrorDescription(_))
    }

    pub fn http_method(&self) -> (r: Method)
        ensures
            r == self.method(),
    {
        match self {
            Command::GetState | Command::GetRequests | Command::GetMessages | Command::GetPlayers
            | Command::GetErrorDescription(_) => Method::Get,
            _ => Method::Post,
        }
    }

    pub fn query_pairs(&self) -> (r: Vec<(String, String)>)
        ensures
            query_view(r@) == self.query(),
    {
        let r = match self {
            Command::Register(nickname) => vec![(String::from_str("name"), nickname.clone())],
            Command::SendRequest(to) => vec![(String::from_str("send_to"), u64_to_decimal(*to))],
            Command::GetErrorDescription(id) => vec![(String::from_str("id"), i32_to_decimal(*id))],
            _ => Vec::new(),
        };
        assert(query_view(r@) =~= self.query());
        r
    }

    pub fn body_text(&self) -> (r: String)
        ensures
            r@ == self.body(),
    {
        match self {
            Command::SendMessage(text) => text.clone(),
            _ => String::new(),
        }
    }
}

/// The URL of a call: `{base}/{command}` for an unscoped call,
/// `{base}/{server_id}/{command}` for a scoped one. There is none for a
/// scoped call while no server id is known, nor for registration once one is.
pub open spec fn route(base: Seq<char>, server_id: Option<u64>, cmd: Command) -> Option<Seq<char>> {
    if cmd.is_scoped() {
        match server_id {
            Some(id) => Some(base + "/"@ + decimal_text(id as nat) + "/"@ + cmd.command_name()),
            None => None,
        }
    } else if cmd is Register && server_id is Some {
        None
    } else {
        Some(base + "/"@ + cmd.command_name())
    }
}

/// `req` is the call that `cmd` makes at URL `path`.
pub open spec fn is_request_for(req: Request, path: Seq<char>, cmd: Command) -> bool {
    &&& req.method == cmd.method()
    &&& req.path@ == path
    &&& query_view(req.query@) == cmd.query()
    &&& req.body@ == cmd.body()
}

/// Builds the call that `cmd` makes against `base`; `None` where `route`
/// gives no URL.
pub fn build_request(base: &String, server_id: Option<u64>, cmd: &Command) -> (r: Option<Request>)
    ensures
        route(base@, server_id, *cmd) matches Some(path) ==> (r matches Some(req)
            && is_request_for(req, path, *cmd)),
        route(base@, server_id, *cmd) is None ==> r is None,
{
    let path = if cmd.scoped() {
        match server_id {
            Some(id) => base.clone().concat("/").concat(u64_to_decimal(id).as_str()).concat(
                "/",
            ).concat(cmd.name()),
            None => return None,
        }
    } else if matches!(cmd, Command::Register(_)) && server_id.is_some() {
        return None;
    } else {
        base.clone().concat("/").concat(cmd.name())
    };
    Some(
        Request {
            method: cmd.http_method(),
            path,
            query: cmd.query_pairs(),
            body: cmd.body_text(),
        },
    )
}

} // verus!
