use sbfcam::listing::{servers_from_text, ListingError};

#[test]
fn reads_each_server_in_order() {
    let body = r#"{"previousPageCursor":null,"data":[
        {"id":"a-1","maxPlayers":12,"playerTokens":["t1","t2"]},
        {"id":"b-2","maxPlayers":12,"playerTokens":[]}
    ]}"#;
    let list = servers_from_text(body).unwrap().unwrap();
    assert_eq!(list.len(), 2);
    assert_eq!(list[0].id, "a-1");
    assert_eq!(list[0].players, vec!["t1".to_string(), "t2".to_string()]);
    assert_eq!(list[1].id, "b-2");
    assert!(list[1].players.is_empty());
}

#[test]
fn empty_data_is_an_empty_list() {
    assert_eq!(servers_from_text(r#"{"data":[]}"#).unwrap().unwrap().len(), 0);
}

#[test]
fn answers_without_a_data_array_give_nothing() {
    assert!(servers_from_text("[]").unwrap().is_none());
    assert!(servers_from_text(r#"{"errors":[]}"#).unwrap().is_none());
    assert!(servers_from_text(r#"{"data":true}"#).unwrap().is_none());
    assert!(servers_from_text("\"text\"").unwrap().is_none());
}

#[test]
fn text_that_is_not_json_is_an_error() {
    assert_eq!(servers_from_text("").unwrap_err(), ListingError::NotJson);
    assert_eq!(servers_from_text("<html>Too Many Requests</html>").unwrap_err(), ListingError::NotJson);
    assert_eq!(servers_from_text(r#"{"data":[]} x"#).unwrap_err(), ListingError::NotJson);
}

#[test]
fn unreadable_entries_are_an_error() {
    let missing_tokens = r#"{"data":[{"id":"x"}]}"#;
    assert_eq!(servers_from_text(missing_tokens).unwrap_err(), ListingError::Unreadable);
    let numeric_token = r#"{"data":[{"id":"x","playerTokens":[1]}]}"#;
    assert_eq!(servers_from_text(numeric_token).unwrap_err(), ListingError::Unreadable);
    let numeric_id = r#"{"data":[{"id":3,"playerTokens":[]}]}"#;
    assert_eq!(servers_from_text(numeric_id).unwrap_err(), ListingError::Unreadable);
    let entry_not_object = r#"{"data":["x"]}"#;
    assert_eq!(servers_from_text(entry_not_object).unwrap_err(), ListingError::Unreadable);
}

#[test]
fn instances_address() {
    assert_eq!(
        sbfcam::listing::instances_url(7363647365),
        "https://games.roblox.com/v1/games/7363647365/servers/Public"
    );
}

#[test]
fn join_script_arguments() {
    let with_default = sbfcam::servers::join_game_args(7363647365, "abc-123", None);
    assert_eq!(
        with_default,
        vec![
            "/C", "poetry", "run", "python", "join_game.py", "--game", "7363647365", "--instance",
            "abc-123", "--driver", "chromedriver.exe",
        ]
    );
    let with_driver =
        sbfcam::servers::join_game_args(1, "x", Some("chromedriver-linux".to_string()));
    assert_eq!(with_driver[6], "1");
    assert_eq!(with_driver[10], "chromedriver-linux");
}
