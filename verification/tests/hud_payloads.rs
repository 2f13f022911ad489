use sbfcam::hud::{payload_text, HudEffect, HudPayload, HudRegistry, HUDInstruction};
use serde_json::Value;

fn timed_reference(message: &str, seconds: u64) -> String {
    let mut value = serde_json::Map::new();
    value.insert("seconds".to_string(), Value::from(seconds));
    value.insert("message".to_string(), Value::from(message));
    let mut outer = serde_json::Map::new();
    outer.insert("type".to_string(), Value::from("timed_message"));
    outer.insert("value".to_string(), Value::Object(value));
    Value::Object(outer).to_string()
}

fn monitor_reference(data: &str) -> String {
    let mut value = serde_json::Map::new();
    value.insert("data".to_string(), Value::from(data));
    let mut outer = serde_json::Map::new();
    outer.insert("type".to_string(), Value::from("system_monitor_update"));
    outer.insert("value".to_string(), Value::Object(value));
    Value::Object(outer).to_string()
}

#[test]
fn plain_text_is_sent_as_it_is() {
    let p = HudPayload::Text { message: "hello \"there\"".to_string() };
    assert_eq!(payload_text(&p), "hello \"there\"");
}

#[test]
fn timed_message_is_a_json_object() {
    let p = HudPayload::Timed { message: "Warping".to_string(), seconds: 5000 };
    let text = payload_text(&p);
    assert_eq!(text, "{\"type\":\"timed_message\",\"value\":{\"message\":\"Warping\",\"seconds\":5000}}");
    assert_eq!(text, timed_reference("Warping", 5000));
}

#[test]
fn strings_are_escaped_as_json() {
    let message = "a\"b\\c\nd\te\r\u{8}\u{c}\u{1}\u{1f}\u{7f} é/";
    let p = HudPayload::Timed { message: message.to_string(), seconds: 0 };
    let text = payload_text(&p);
    assert_eq!(
        text,
        "{\"type\":\"timed_message\",\"value\":{\"message\":\"a\\\"b\\\\c\\nd\\te\\r\\b\\f\\u0001\\u001f\u{7f} é/\",\"seconds\":0}}"
    );
    assert_eq!(text, timed_reference(message, 0));
}

#[test]
fn monitor_report_is_sent_as_a_string_member() {
    let data = "{\"cpu_load\":\"12.5\",\"cpu_temp\":\"48.0\"}";
    let p = HudPayload::Monitor { data: data.to_string() };
    let text = payload_text(&p);
    assert_eq!(
        text,
        "{\"type\":\"system_monitor_update\",\"value\":{\"data\":\"{\\\"cpu_load\\\":\\\"12.5\\\",\\\"cpu_temp\\\":\\\"48.0\\\"}\"}}"
    );
    assert_eq!(text, monitor_reference(data));
}

#[test]
fn registry_tracks_clients_and_calls_for_broadcasts() {
    let mut hud: HudRegistry<&str> = HudRegistry::new();
    assert_eq!(hud.len(), 0);
    assert_eq!(hud.step(HUDInstruction::AddClient { client_id: 1, responder: "one" }), HudEffect::Quiet);
    assert_eq!(hud.step(HUDInstruction::AddClient { client_id: 2, responder: "two" }), HudEffect::Quiet);
    assert_eq!(hud.len(), 2);
    assert_eq!(
        hud.step(HUDInstruction::GenericMessage { message: "hi".to_string() }),
        HudEffect::Broadcast { payload: HudPayload::Text { message: "hi".to_string() } }
    );
    assert_eq!(hud.step(HUDInstruction::RemoveClient { client_id: 1 }), HudEffect::Quiet);
    assert_eq!(hud.len(), 1);
    assert!(hud.clients().contains_key(&2));
    assert!(!hud.clients().contains_key(&1));
}

#[test]
fn log_post_body_matches_a_serialised_embed() {
    let body = sbfcam::outbound::log_post_body("Moved \"w\"\n2s", "SomeViewer");
    assert_eq!(
        body,
        "{\"embeds\":[{\"author\":{\"icon_url\":\"https://brand.twitch.tv/assets/images/black.png\",\"name\":\"SomeViewer\",\"url\":\"https://www.twitch.tv/popout/sbfcam/viewercard/someviewer\"},\"description\":\"Moved \\\"w\\\"\\n2s\"}]}"
    );
    let mut author = serde_json::Map::new();
    author.insert("name".to_string(), Value::from("SomeViewer"));
    author.insert(
        "url".to_string(),
        Value::from("https://www.twitch.tv/popout/sbfcam/viewercard/someviewer"),
    );
    author.insert(
        "icon_url".to_string(),
        Value::from("https://brand.twitch.tv/assets/images/black.png"),
    );
    let mut embed = serde_json::Map::new();
    embed.insert("description".to_string(), Value::from("Moved \"w\"\n2s"));
    embed.insert("author".to_string(), Value::Object(author));
    let mut outer = serde_json::Map::new();
    outer.insert("embeds".to_string(), Value::Array(vec![Value::Object(embed)]));
    assert_eq!(body, Value::Object(outer).to_string());
}

#[test]
fn admin_alert_body_has_one_member() {
    let body = sbfcam::outbound::admin_alert_body("1234", "help");
    assert_eq!(body, "{\"content\":\"<@1234>\\nhelp\\n<https://twitch.tv/sbfcam>\"}");
}

#[test]
fn censor_request_body_matches_a_serialised_object() {
    let body = sbfcam::relay::censor_request_body("Viewer_1", "hi \"all\"");
    assert_eq!(body, "{\"message\":\"hi \\\"all\\\"\",\"username\":\"Viewer_1\"}");
    let mut obj = serde_json::Map::new();
    obj.insert("username".to_string(), Value::from("Viewer_1"));
    obj.insert("message".to_string(), Value::from("hi \"all\""));
    assert_eq!(body, Value::Object(obj).to_string());
}

#[test]
fn registry_keeps_the_last_connect_of_each_client() {
    let mut hud: HudRegistry<&str> = HudRegistry::new();
    let events = vec![
        HUDInstruction::AddClient { client_id: 1, responder: "first" },
        HUDInstruction::AddClient { client_id: 2, responder: "two" },
        HUDInstruction::RemoveClient { client_id: 1 },
        HUDInstruction::ClientMessage { message: "hi".to_string() },
        HUDInstruction::AddClient { client_id: 1, responder: "again" },
        HUDInstruction::RemoveClient { client_id: 2 },
        HUDInstruction::RemoveClient { client_id: 3 },
    ];
    for e in events {
        hud.step(e);
    }
    assert_eq!(hud.len(), 1);
    assert_eq!(hud.clients().get(&1), Some(&"again"));
    assert!(hud.clients().get(&2).is_none());
}
