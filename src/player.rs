//! Players, and the `"<id>:<nickname>"` strings that list them.
use vstd::prelude::*;
use vstd::string::StringExecFns;
use crate::decimal::{is_unsigned_numeral, parse_u64, unsigned_value};
use crate::error::ProtocolError;
use crate::json::Json;

verus! {

/// A player known to the session.
#[derive(Debug)]
pub struct Player {
    pub nickname: String,
    pub id: u64,
}

/// What registration tells about this client's own player.
#[derive(Debug)]
pub struct RegPlayerInfo {
    pub nickname: String,
    /// The id that scopes this session's routes.
    pub id: u64,
    /// The id under which the player takes part in matches.
    pub player_id: u64,
}

impl Player {
    pub fn new(nickname: &str, id: u64) -> (r: Player)
        ensures
            r.nickname@ == nickname@,
            r.id == id,
    {
        Player { nickname: String::from_str(nickname), id }
    }
}

impl RegPlayerInfo {
    pub fn new(nickname: &str, id: u64, player_id: u64) -> (r: RegPlayerInfo)
        ensures
            r.nickname@ == nickname@,
            r.id == id,
            r.player_id == player_id,
    {
        RegPlayerInfo { nickname: String::from_str(nickname), id, player_id }
    }
}

/// Index of the first `':'` at or after `i`.
pub open spec fn colon_from(s: Seq<char>, i: int) -> Option<int>
    decreases s.len() - i,
{
    if i < 0 || i >= s.len() {
        None
    } else if s[i] == ':' {
        Some(i)
    } else {
        colon_from(s, i + 1)
    }
}

/// Index of the first `':'` in `s`.
pub open spec fn first_colon(s: Seq<char>) -> Option<int> {
    colon_from(s, 0)
}

/// The id and nickname that an entry `"<id>:<nickname>"` names: the id is
/// the unsigned numeral (an optional `+`, then digits) before the first colon, the nickname all that follows it.
pub open spec fn player_entry(s: Seq<char>) -> Option<(u64, Seq<char>)> {
    match first_colon(s) {
        Some(c) => if is_unsigned_numeral(s.subrange(0, c)) && unsigned_value(s.subrange(0, c))
            <= u64::MAX {
            Some((unsigned_value(s.subrange(0, c)) as u64, s.subrange(c + 1, s.len() as int)))
        } else {
            None
        },
        None => None,
    }
}

/// The player that a list item names, when it is a well-formed entry string.
pub open spec fn player_item(j: Json) -> Option<(u64, Seq<char>)> {
    match j {
        Json::Str(s) => player_entry(s@),
        _ => None,
    }
}

/// `p` is the player that `entry` names.
pub open spec fn names_player(entry: (u64, Seq<char>), p: Player) -> bool {
    p.id == entry.0 && p.nickname@ == entry.1
}

/// Finds the first `':'` in `s`.
fn find_colon(s: &str) -> (r: Option<usize>)
    ensures
        r matches Some(i) ==> first_colon(s@) == Some(i as int) && i < s@.len(),
        r is None ==> first_colon(s@) is None,
{
    let len = s.unicode_len();
    let mut i: usize = 0;
    while i < len
        invariant
            len == s@.len(),
            i <= len,
            first_colon(s@) == colon_from(s@, i as int),
        decreases len - i,
    {
        if s.get_char(i) == ':' {
            return Some(i);
        }
        i = i + 1;
    }
    None
}

/// Decodes one `"<id>:<nickname>"` entry, splitting at the first colon.
pub fn decode_player(entry: &str) -> (r: Result<Player, ProtocolError>)
    ensures
        player_entry(entry@) matches Some(e) ==> (r matches Ok(p) && names_player(e, p)),
        player_entry(entry@) is None ==> r == Err::<Player, ProtocolError>(
            ProtocolError::MalformedPlayerEntry,
        ),
{
    let len = entry.unicode_len();
    match find_colon(entry) {
        Some(c) => {
            let prefix = entry.substring_char(0, c);
            match parse_u64(prefix) {
                Some(id) => {
                    let nickname = entry.substring_char(c + 1, len);
                    Ok(Player::new(nickname, id))
                },
                None => Err(ProtocolError::MalformedPlayerEntry),
            }
        },
        None => Err(ProtocolError::MalformedPlayerEntry),
    }
}

/// Every item of the list is a well-formed entry string.
pub open spec fn all_entries(items: Seq<Json>) -> bool {
    forall|i: int| 0 <= i < items.len() ==> (#[trigger] player_item(items[i])) is Some
}

/// `ps` holds, in order, the players that the items name.
pub open spec fn lists_players(items: Seq<Json>, ps: Seq<Player>) -> bool {
    &&& ps.len() == items.len()
    &&& forall|i: int| 0 <= i < items.len() ==> names_player(
        (#[trigger] player_item(items[i])).unwrap(),
        ps[i],
    )
}

/// Decodes a list of player entries; fails on the first item that is not a
/// well-formed entry string.
pub fn decode_players(items: &Vec<Json>) -> (r: Result<Vec<Player>, ProtocolError>)
    ensures
        all_entries(items@) ==> (r matches Ok(ps) && lists_players(items@, ps@)),
        !all_entries(items@) ==> r == Err::<Vec<Player>, ProtocolError>(
            ProtocolError::MalformedPlayerEntry,
        ),
{
    let mut players: Vec<Player> = Vec::new();
    let mut i: usize = 0;
    while i < items.len()
        invariant
            i <= items@.len(),
            players@.len() == i,
            forall|k: int| 0 <= k < i ==> (#[trigger] player_item(items@[k])) is Some,
            forall|k: int|
                0 <= k < i ==> names_player(
                    (#[trigger] player_item(items@[k])).unwrap(),
                    players@[k],
                ),
        decreases items@.len() - i,
    {
        match &items[i] {
            Json::Str(s) => match decode_player(s.as_str()) {
                Ok(p) => {
                    players.push(p);
                },
                Err(e) => {
                    assert(player_item(items@[i as int]) is None);
                    return Err(e);
                },
            },
            _ => {
                assert(player_item(items@[i as int]) is None);
                return Err(ProtocolError::MalformedPlayerEntry);
            },
        }
        i = i + 1;
    }
    Ok(players)
}

/// Every item of the list is a string.
pub open spec fn all_strings(items: Seq<Json>) -> bool {
    forall|i: int| 0 <= i < items.len() ==> (#[trigger] items[i]) is Str
}

/// `v` holds, in order, the text of each item.
pub open spec fn lists_strings(items: Seq<Json>, v: Seq<String>) -> bool {
    &&& v.len() == items.len()
    &&& forall|i: int| 0 <= i < items.len() ==> items[i] == Json::Str(#[trigger] v[i])
}

/// Decodes a list of strings; fails when an item is not a string.
pub fn decode_strings(items: &Vec<Json>) -> (r: Result<Vec<String>, ProtocolError>)
    ensures
        all_strings(items@) ==> (r matches Ok(v) && lists_strings(items@, v@)),
        !all_strings(items@) ==> r == Err::<Vec<String>, ProtocolError>(
            ProtocolError::MalformedPayload,
        ),
{
    let mut texts: Vec<String> = Vec::new();
    let mut i: usize = 0;
    while i < items.len()
        invariant
            i <= items@.len(),
            texts@.len() == i,
            forall|k: int| 0 <= k < i ==> items@[k] == Json::Str(#[trigger] texts@[k]),
        decreases items@.len() - i,
    {
        match &items[i] {
            Json::Str(s) => {
                texts.push(s.clone());
            },
            _ => {
                return Err(ProtocolError::MalformedPayload);
            },
        }
        i = i + 1;
    }
    assert(all_strings(items@)) by {
        assert forall|k: int| 0 <= k < items@.len() implies (#[trigger] items@[k]) is Str by {
            assert(items@[k] == Json::Str(texts@[k]));
        }
    }
    Ok(texts)
}

} // verus!
