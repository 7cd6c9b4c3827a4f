//! The player's lifecycle as this client tracks it.
use vstd::prelude::*;
use vstd::string::StringExecFns;

verus! {

/// The player's coarse lifecycle state.
#[derive(Debug)]
pub enum State {
    /// The server reported a state code this client does not know.
    Disconnected(String),
    Registration,
    Idle,
    Searching,
    Playing,
}

/// What can move the tracked state.
#[derive(Debug, PartialEq, Eq, Structural, Clone, Copy)]
pub enum Event {
    /// Registration succeeded.
    Registered,
    /// A search for a match was accepted.
    SearchStarted,
    /// The player was put back to idle.
    WentIdle,
    /// A match request was sent; the flag says whether a game began.
    RequestAnswered(bool),
    /// The server reported its numeric state code.
    StateReported(u64),
}

/// The text a synthesized `Disconnected` state carries.
pub open spec fn unknown_state_reason() -> Seq<char> {
    "Unknown state id"@
}

/// `s` is the state that the server's code `code` stands for:
/// 0 to 3 name the four known states, any other code is a disconnection.
pub open spec fn is_state_of_code(code: u64, s: State) -> bool {
    if code == 0 {
        s == State::Registration
    } else if code == 1 {
        s == State::Idle
    } else if code == 2 {
        s == State::Searching
    } else if code == 3 {
        s == State::Playing
    } else {
        s matches State::Disconnected(reason) && reason@ == unknown_state_reason()
    }
}

/// `next` is the state that `event` leads to from `current`.
pub open spec fn is_transition(current: State, event: Event, next: State) -> bool {
    match event {
        Event::Registered => next == State::Idle,
        Event::SearchStarted => next == State::Searching,
        Event::WentIdle => next == State::Idle,
        Event::RequestAnswered(in_game) => if in_game {
            next == State::Playing
        } else {
            next == current
        },
        Event::StateReported(code) => is_state_of_code(code, next),
    }
}

impl State {
    /// The state that a server state code stands for.
    pub fn from_id(state_id: u64) -> (r: State)
        ensures
            is_state_of_code(state_id, r),
            r matches State::Disconnected(reason) ==> reason@.len() > 0,
    {
        proof {
            reveal_strlit("Unknown state id");
        }
        match state_id {
            0 => State::Registration,
            1 => State::Idle,
            2 => State::Searching,
            3 => State::Playing,
            _ => State::Disconnected(String::from_str("Unknown state id")),
        }
    }

    /// A copy of this state.
    pub fn duplicate(&self) -> (r: State)
        ensures
            r == *self,
    {
        match self {
            State::Disconnected(reason) => State::Disconnected(reason.clone()),
            State::Registration => State::Registration,
            State::Idle => State::Idle,
            State::Searching => State::Searching,
            State::Playing => State::Playing,
        }
    }
}

impl Clone for State {
    fn clone(&self) -> (r: State)
        ensures
            r == *self,
    {
        self.duplicate()
    }
}

/// The one place where the tracked state moves: the state that `event`
/// leads to from `current`.
pub fn next_state(current: &State, event: Event) -> (r: State)
    ensures
        is_transition(*current, event, r),
{
    match event {
        Event::Registered => State::Idle,
        Event::SearchStarted => State::Searching,
        Event::WentIdle => State::Idle,
        Event::RequestAnswered(in_game) => if in_game {
            State::Playing
        } else {
            current.duplicate()
        },
        Event::StateReported(code) => State::from_id(code),
    }
}

} // verus!
