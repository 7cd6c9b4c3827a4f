//! Client-side session bookkeeping for a matchmaking server that speaks
//! JSON over HTTP: envelope parsing, payload decoding, request routing and
//! the player's lifecycle state machine.
pub mod connection;
pub mod decimal;
pub mod envelope;
pub mod error;
pub mod json;
pub mod payload;
pub mod player;
pub mod route;
pub mod state;
