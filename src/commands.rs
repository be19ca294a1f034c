//! The payloads of the worker's operations.
use vstd::prelude::*;
use vstd::string::*;

use crate::json::{
    bool_value, empty_map, json_bool, json_object, json_optional_strings, json_string,
    json_strings, json_u64, object_value, optional_strings_value, set_field, string_value,
    strings_value, u64_value,
};

verus! {

/// The settings of a drafting series.
pub struct MlInitConfig {
    pub team1: String,
    pub team2: String,
    pub is_team1_blue: bool,
    pub mode: String,
    pub num_games: u8,
}

/// The team that plays on the blue side.
pub open spec fn blue_team(c: MlInitConfig) -> Seq<char> {
    if c.is_team1_blue {
        c.team1@
    } else {
        c.team2@
    }
}

/// The team that plays on the red side.
pub open spec fn red_team(c: MlInitConfig) -> Seq<char> {
    if c.is_team1_blue {
        c.team2@
    } else {
        c.team1@
    }
}

/// The payload of `init`: the series settings, with the teams by side.
pub open spec fn init_entries(c: MlInitConfig) -> Map<Seq<char>, serde_json::Value> {
    map![
        "config"@ => json_object(
            map![
                "mode"@ => json_string(c.mode@),
                "numGames"@ => json_u64(c.num_games as u64),
                "blueTeam"@ => json_string(blue_team(c)),
                "redTeam"@ => json_string(red_team(c)),
            ],
        ),
    ]
}

/// The upper-case form of a text, as `str::to_uppercase` gives it.
pub uninterp spec fn upper_of(s: Seq<char>) -> Seq<char>;

/// The side tag for a side written in upper case: `BLUE` for anything that
/// starts with `B`, else `RED`.
pub open spec fn side_tag_of(upper: Seq<char>) -> Seq<char> {
    if upper.len() > 0 && upper[0] == 'B' {
        "BLUE"@
    } else {
        "RED"@
    }
}

/// Relies on `str::to_uppercase`: the result depends on the characters alone.
#[verifier::external_body]
fn uppercase(s: &str) -> (r: String)
    ensures
        r@ == upper_of(s@),
{
    s.to_uppercase()
}

/// The side tag for a side written in upper case.
pub fn side_tag(upper: &str) -> (r: String)
    ensures
        r@ == side_tag_of(upper@),
{
    if upper.unicode_len() > 0 && upper.get_char(0) == 'B' {
        String::from_str("BLUE")
    } else {
        String::from_str("RED")
    }
}

fn string_field(
    m: &mut serde_json::Map<String, serde_json::Value>,
    key: &str,
    value: &str,
)
    ensures
        crate::json::object_entries(*final(m)) == crate::json::object_entries(*old(m)).insert(
            key@,
            json_string(value@),
        ),
{
    set_field(m, key, string_value(value));
}

/// The payload of `init`.
pub fn init_payload(config: &MlInitConfig) -> (r: serde_json::Value)
    ensures
        r == json_object(init_entries(*config)),
{
    let (blue, red) = if config.is_team1_blue {
        (config.team1.as_str(), config.team2.as_str())
    } else {
        (config.team2.as_str(), config.team1.as_str())
    };
    let mut inner = empty_map();
    string_field(&mut inner, "mode", config.mode.as_str());
    set_field(&mut inner, "numGames", u64_value(config.num_games as u64));
    string_field(&mut inner, "blueTeam", blue);
    string_field(&mut inner, "redTeam", red);
    let mut outer = empty_map();
    set_field(&mut outer, "config", object_value(inner));
    object_value(outer)
}

/// The payload of `set_team`: a side and the team's name.
pub fn set_team_payload(side: &str, name: &str) -> (r: serde_json::Value)
    ensures
        r == json_object(map!["side"@ => json_string(side@), "name"@ => json_string(name@)]),
{
    let mut m = empty_map();
    string_field(&mut m, "side", side);
    string_field(&mut m, "name", name);
    object_value(m)
}

/// The payload of `roster`: a side and the team whose roster it gets.
pub fn roster_payload(side: &str, team: &str) -> (r: serde_json::Value)
    ensures
        r == json_object(map!["side"@ => json_string(side@), "team"@ => json_string(team@)]),
{
    let mut m = empty_map();
    string_field(&mut m, "side", side);
    string_field(&mut m, "team", team);
    object_value(m)
}

/// The payload of `pick`: the side, `BLUE` when it starts with `b` in any
/// case and `RED` otherwise, and the champion.
pub fn pick_payload(side: &str, champion: &str) -> (r: serde_json::Value)
    ensures
        r == json_object(
            map![
                "side"@ => json_string(side_tag_of(upper_of(side@))),
                "champion"@ => json_string(champion@),
            ],
        ),
{
    let upper = uppercase(side);
    let tag = side_tag(upper.as_str());
    let mut m = empty_map();
    string_field(&mut m, "side", tag.as_str());
    string_field(&mut m, "champion", champion);
    object_value(m)
}

/// The payload of `ban`: the champion.
pub fn ban_payload(champion: &str) -> (r: serde_json::Value)
    ensures
        r == json_object(map!["champion"@ => json_string(champion@)]),
{
    let mut m = empty_map();
    string_field(&mut m, "champion", champion);
    object_value(m)
}

/// The payload of `next_game`: no fields.
pub fn next_game_payload() -> (r: serde_json::Value)
    ensures
        r == json_object(Map::empty()),
{
    object_value(empty_map())
}

/// The payload of `suggest`: the side in upper case, whether bans are
/// suggested, and the roles to suggest for (`null` for all).
pub fn suggest_payload(target_side: &str, is_ban_mode: bool, roles: Option<Vec<String>>) -> (r:
    serde_json::Value)
    ensures
        r == json_object(
            map![
                "target_side"@ => json_string(upper_of(target_side@)),
                "is_ban_mode"@ => json_bool(is_ban_mode),
                "roles"@ => json_optional_strings(
                    match roles {
                        Some(v) => Some(v@.map_values(|s: String| s@)),
                        None => None,
                    },
                ),
            ],
        ),
{
    let upper = uppercase(target_side);
    let mut m = empty_map();
    string_field(&mut m, "target_side", upper.as_str());
    set_field(&mut m, "is_ban_mode", bool_value(is_ban_mode));
    set_field(&mut m, "roles", optional_strings_value(roles));
    object_value(m)
}

/// The payload of `sync_state`: the picks of each side and the bans.
pub fn sync_state_payload(blue_picks: Vec<String>, red_picks: Vec<String>, bans: Vec<String>) -> (r:
    serde_json::Value)
    ensures
        r == json_object(
            map![
                "blue_picks"@ => json_strings(blue_picks@.map_values(|s: String| s@)),
                "red_picks"@ => json_strings(red_picks@.map_values(|s: String| s@)),
                "bans"@ => json_strings(bans@.map_values(|s: String| s@)),
            ],
        ),
{
    let mut m = empty_map();
    set_field(&mut m, "blue_picks", strings_value(blue_picks));
    set_field(&mut m, "red_picks", strings_value(red_picks));
    set_field(&mut m, "bans", strings_value(bans));
    object_value(m)
}

/// The requests that put two teams on their sides without resetting the
/// series, in the order they are sent: each side's team name, then each
/// side's roster. The caller sends them in order, stops at the first error,
/// and answers with the last response.
pub fn set_sides_requests(blue_team: &str, red_team: &str) -> (r: Vec<(String, serde_json::Value)>)
    ensures
        r@.len() == 4,
        r@[0].0@ == "set_team"@,
        r@[0].1 == json_object(map!["side"@ => json_string("BLUE"@), "name"@ => json_string(blue_team@)]),
        r@[1].0@ == "set_team"@,
        r@[1].1 == json_object(map!["side"@ => json_string("RED"@), "name"@ => json_string(red_team@)]),
        r@[2].0@ == "roster"@,
        r@[2].1 == json_object(map!["side"@ => json_string("BLUE"@), "team"@ => json_string(blue_team@)]),
        r@[3].0@ == "roster"@,
        r@[3].1 == json_object(map!["side"@ => json_string("RED"@), "team"@ => json_string(red_team@)]),
{
    let mut r: Vec<(String, serde_json::Value)> = Vec::new();
    r.push((String::from_str("set_team"), set_team_payload("BLUE", blue_team)));
    r.push((String::from_str("set_team"), set_team_payload("RED", red_team)));
    r.push((String::from_str("roster"), roster_payload("BLUE", blue_team)));
    r.push((String::from_str("roster"), roster_payload("RED", red_team)));
    r
}

} // verus!
