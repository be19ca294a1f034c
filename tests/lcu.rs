use atomgg_bridge::parse_lockfile;

#[test]
fn parses_a_lockfile() {
    let info = parse_lockfile("LeagueClient:12345:54321:pass:https").unwrap();
    assert_eq!(info.port, "54321");
    assert_eq!(info.password, "pass");
    assert_eq!(info.auth_header, "Basic cmlvdDpwYXNz");
}

#[test]
fn extra_fields_are_ignored() {
    let info = parse_lockfile("a:b:8080:s3cr3t:https:extra").unwrap();
    assert_eq!(info.port, "8080");
    assert_eq!(info.password, "s3cr3t");
    assert_eq!(info.auth_header, "Basic cmlvdDpzM2NyM3Q=");
}

#[test]
fn empty_fields_are_kept() {
    let info = parse_lockfile("::::").unwrap();
    assert_eq!(info.port, "");
    assert_eq!(info.password, "");
    assert_eq!(info.auth_header, "Basic cmlvdDo=");
}

#[test]
fn too_few_fields_is_no_lockfile() {
    assert!(parse_lockfile("LeagueClient:12345:54321:pass").is_none());
    assert!(parse_lockfile("").is_none());
}

fn session(s: &str) -> serde_json::Value {
    serde_json::from_str(s).unwrap()
}

#[test]
fn finds_local_pick_action() {
    let s = session(
        r#"{"localPlayerCellId": 2, "actions": [
            [{"actorCellId": 1, "type": "ban", "id": 10, "championId": 0}],
            "not a group",
            [{"actorCellId": 2, "type": "ban", "id": 11, "championId": 55},
             {"actorCellId": 2, "type": "pick", "id": 12, "championId": 103},
             {"actorCellId": 2, "type": "pick", "id": 13, "championId": 0}]
        ]}"#,
    );
    assert_eq!(atomgg_bridge::find_local_player_action(&s, "pick"), Ok((12, Some(103))));
    assert_eq!(atomgg_bridge::find_local_player_action(&s, "ban"), Ok((11, Some(55))));
}

#[test]
fn action_without_champion() {
    let s = session(r#"{"localPlayerCellId": 0, "actions": [[{"actorCellId": 0, "type": "pick", "id": 4}]]}"#);
    assert_eq!(atomgg_bridge::find_local_player_action(&s, "pick"), Ok((4, None)));
}

#[test]
fn action_search_failures() {
    let no_cell = session(r#"{"actions": []}"#);
    assert_eq!(
        atomgg_bridge::find_local_player_action(&no_cell, "pick"),
        Err("Failed to get local player cell ID".to_string())
    );
    let no_actions = session(r#"{"localPlayerCellId": 1}"#);
    assert_eq!(atomgg_bridge::find_local_player_action(&no_actions, "pick"), Err("No actions found".to_string()));
    let none = session(r#"{"localPlayerCellId": 1, "actions": [[{"actorCellId": 2, "type": "pick", "id": 1}]]}"#);
    assert_eq!(
        atomgg_bridge::find_local_player_action(&none, "pick"),
        Err("Could not find your pick action".to_string())
    );
    let no_id = session(r#"{"localPlayerCellId": 1, "actions": [[{"actorCellId": 1, "type": "ban"}]]}"#);
    assert_eq!(atomgg_bridge::find_local_player_action(&no_id, "ban"), Err("Failed to get action ID".to_string()));
}

#[test]
fn pick_and_ban_searches() {
    let s = session(
        r#"{"localPlayerCellId": 3, "actions": [[{"actorCellId": 3, "type": "ban", "id": 1, "championId": 7}],
            [{"actorCellId": 3, "type": "pick", "id": 2}]]}"#,
    );
    assert_eq!(atomgg_bridge::find_local_player_pick_action(&s), Ok((2, None)));
    assert_eq!(atomgg_bridge::find_local_player_ban_action(&s), Ok((1, Some(7))));
}

#[test]
fn first_match_without_id_does_not_fall_back() {
    let s = session(
        r#"{"localPlayerCellId": 1, "actions": [[{"actorCellId": 1, "type": "pick"}],
            [{"actorCellId": 1, "type": "pick", "id": 9}]]}"#,
    );
    assert_eq!(atomgg_bridge::find_local_player_action(&s, "pick"), Err("Failed to get action ID".to_string()));
    assert_eq!(
        atomgg_bridge::find_local_player_action(&s, "ban"),
        Err("Could not find your ban action".to_string())
    );
}
