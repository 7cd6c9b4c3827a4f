//! Typed decoders, one for each shape of `success` payload.
use vstd::prelude::*;
use crate::error::ProtocolError;
use crate::json::Json;
use crate::player::{
    all_entries, all_strings, decode_players, decode_strings, lists_players, lists_strings,
    Player, RegPlayerInfo,
};

verus! {

/// The identity that a registration payload `{"player": {...}}` carries.
pub open spec fn registration_of(payload: Json) -> Option<RegPlayerInfo> {
    match payload.field("player"@) {
        Some(pl) => match (pl.field("nickname"@), pl.field("id"@), pl.field("player_id"@)) {
            (Some(Json::Str(nickname)), Some(id), Some(player_id)) => if id.u64_value() is Some
                && player_id.u64_value() is Some {
                Some(
                    RegPlayerInfo {
                        nickname,
                        id: id.u64_value().unwrap(),
                        player_id: player_id.u64_value().unwrap(),
                    },
                )
            } else {
                None
            },
            _ => None,
        },
        None => None,
    }
}

/// The state code of a payload `{"state": <code>}`.
pub open spec fn state_code_of(payload: Json) -> Option<u64> {
    match payload.field("state"@) {
        Some(v) => v.u64_value(),
        None => None,
    }
}

/// The flag of a payload `{"in_game": <bool>}`.
pub open spec fn in_game_of(payload: Json) -> Option<bool> {
    match payload.field("in_game"@) {
        Some(v) => v.bool_value(),
        None => None,
    }
}

/// The text of a payload `{"description": <string>}`.
pub open spec fn description_of(payload: Json) -> Option<String> {
    match payload.field("description"@) {
        Some(v) => v.str_value(),
        None => None,
    }
}

/// `r` is what decoding the player list under `key` gives.
pub open spec fn is_player_list_result(
    payload: Json,
    key: Seq<char>,
    r: Result<Vec<Player>, ProtocolError>,
) -> bool {
    match payload.field(key) {
        Some(Json::Array(items)) => if all_entries(items@) {
            r matches Ok(ps) && lists_players(items@, ps@)
        } else {
            r == Err::<Vec<Player>, ProtocolError>(ProtocolError::MalformedPlayerEntry)
        },
        _ => r == Err::<Vec<Player>, ProtocolError>(ProtocolError::MalformedPayload),
    }
}

/// `r` is what decoding the string list under `key` gives.
pub open spec fn is_string_list_result(
    payload: Json,
    key: Seq<char>,
    r: Result<Vec<String>, ProtocolError>,
) -> bool {
    match payload.field(key) {
        Some(Json::Array(items)) => if all_strings(items@) {
            r matches Ok(v) && lists_strings(items@, v@)
        } else {
            r == Err::<Vec<String>, ProtocolError>(ProtocolError::MalformedPayload)
        },
        _ => r == Err::<Vec<String>, ProtocolError>(ProtocolError::MalformedPayload),
    }
}

fn field_u64(obj: &Json, key: &str) -> (r: Option<u64>)
    ensures
        r == (match obj.field(key@) {
            Some(v) => v.u64_value(),
            None => None,
        }),
{
    match obj.get(key) {
        Some(v) => v.as_u64(),
        None => None,
    }
}

/// Decodes the identity that registration hands out.
pub fn decode_registration(payload: &Json) -> (r: Result<RegPlayerInfo, ProtocolError>)
    ensures
        registration_of(*payload) matches Some(info) ==> r == Ok::<RegPlayerInfo, ProtocolError>(
            info,
        ),
        registration_of(*payload) is None ==> r == Err::<RegPlayerInfo, ProtocolError>(
            ProtocolError::MalformedPayload,
        ),
{
    let pl = match payload.get("player") {
        Some(pl) => pl,
        None => return Err(ProtocolError::MalformedPayload),
    };
    let nickname = match pl.get("nickname") {
        Some(Json::Str(n)) => n.clone(),
        _ => return Err(ProtocolError::MalformedPayload),
    };
    let id = match field_u64(pl, "id") {
        Some(id) => id,
        None => return Err(ProtocolError::MalformedPayload),
    };
    let player_id = match field_u64(pl, "player_id") {
        Some(p) => p,
        None => return Err(ProtocolError::MalformedPayload),
    };
    Ok(RegPlayerInfo { nickname, id, player_id })
}

/// Decodes the server's state code.
pub fn decode_state_code(payload: &Json) -> (r: Result<u64, ProtocolError>)
    ensures
        state_code_of(*payload) matches Some(c) ==> r == Ok::<u64, ProtocolError>(c),
        state_code_of(*payload) is None ==> r == Err::<u64, ProtocolError>(
            ProtocolError::MalformedPayload,
        ),
{
    match field_u64(payload, "state") {
        Some(c) => Ok(c),
        None => Err(ProtocolError::MalformedPayload),
    }
}

/// Decodes whether a sent match request started a game.
pub fn decode_in_game(payload: &Json) -> (r: Result<bool, ProtocolError>)
    ensures
        in_game_of(*payload) matches Some(b) ==> r == Ok::<bool, ProtocolError>(b),
        in_game_of(*payload) is None ==> r == Err::<bool, ProtocolError>(
            ProtocolError::MalformedPayload,
        ),
{
    match payload.get("in_game") {
        Some(v) => match v.as_bool() {
            Some(b) => Ok(b),
            None => Err(ProtocolError::MalformedPayload),
        },
        None => Err(ProtocolError::MalformedPayload),
    }
}

/// Decodes an error description.
pub fn decode_description(payload: &Json) -> (r: Result<String, ProtocolError>)
    ensures
        description_of(*payload) matches Some(d) ==> r == Ok::<String, ProtocolError>(d),
        description_of(*payload) is None ==> r == Err::<String, ProtocolError>(
            ProtocolError::MalformedPayload,
        ),
{
    match payload.get("description") {
        Some(Json::Str(d)) => Ok(d.clone()),
        _ => Err(ProtocolError::MalformedPayload),
    }
}

/// Decodes the list of player entries stored under `key`.
pub fn decode_player_list(payload: &Json, key: &str) -> (r: Result<Vec<Player>, ProtocolError>)
    ensures
        is_player_list_result(*payload, key@, r),
{
    match payload.get(key) {
        Some(Json::Array(items)) => decode_players(items),
        _ => Err(ProtocolError::MalformedPayload),
    }
}

/// Decodes the list of strings stored under `key`.
pub fn decode_string_list(payload: &Json, key: &str) -> (r: Result<Vec<String>, ProtocolError>)
    ensures
        is_string_list_result(*payload, key@, r),
{
    match payload.get(key) {
        Some(Json::Array(items)) => decode_strings(items),
        _ => Err(ProtocolError::MalformedPayload),
    }
}

} // verus!
