//! A bridge to a long-lived analytics worker process that speaks
//! newline-delimited JSON over its standard input and output.
//!
//! The library holds the decisions of the bridge: when the worker must be
//! launched, which identifier a request gets, which bytes go on the wire and
//! how a response line is read back. The caller performs the process and pipe
//! operations that each decision asks for.

pub mod bridge;
pub mod champions;
pub mod commands;
pub mod correlator;
pub mod error;
pub mod framing;
pub mod json;
pub mod lcu;

pub use bridge::{Bridge, Event, Exchange};
pub use champions::{
    champion_at, champion_ids, champion_short, get_champion_icon, get_champion_splash, get_random_champion,
    parse_decimal_i32, ChampionShort, TeamPlayers,
};
pub use commands::{
    ban_payload, init_payload, next_game_payload, pick_payload, roster_payload, set_sides_requests, set_team_payload,
    side_tag, suggest_payload, sync_state_payload, MlInitConfig,
};
pub use correlator::RequestCorrelator;
pub use error::BridgeError;
pub use framing::{decode_response, frame, is_blank_line, ReadOutcome};
pub use lcu::{
    find_local_player_action, find_local_player_ban_action, find_local_player_pick_action,
    parse_lockfile, LcuInfo, Summoner};
