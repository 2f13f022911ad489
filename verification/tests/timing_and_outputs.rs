use sbfcam::catalog::{get_hat_types, get_warp_locations, Lookup};
use sbfcam::config::init_config;
use sbfcam::hardware::{cpu_readings, cpu_report_text, Computer, Hardware, HardwareReport, Sensor, SensorType};
use sbfcam::hud::{HUDInstruction, HudEffect, HudPayload, HudRegistry};
use sbfcam::instruction::{Amount, Instruction, InstructionPair, SystemInstruction};
use sbfcam::outbound::{
    admin_alert_content, author_url, censor_status_alert, chat_keystrokes, leap_schedule,
    log_webhook_variable, user_chat_keystrokes, warp_command, LeapSchedule,
};
use sbfcam::schedule::{
    advert_instructions, anti_afk_instructions, hardware_error_report, restart_logic, restart_warn,
    AfkCycle, ClockAction, ClockTicker,
};
use sbfcam::text::{capitalize_string, chars_of, remove_first, split_words, string_of};

fn s(x: &str) -> String {
    String::from(x)
}

#[test]
fn restart_warnings() {
    assert_eq!(restart_warn(-1, 2, 55, 1_000_000), -1);
    assert_eq!(restart_warn(-1, 3, 53, 1_000_000), -1);
    assert_eq!(restart_warn(-1, 3, 54, 1_000_000), -1);
    assert_eq!(restart_warn(-1, 3, 55, 1_000_000), 55);
    assert_eq!(restart_warn(55, 3, 55, 1_000_000), -1);
    assert_eq!(restart_warn(55, 3, 56, 1_000_000), -1);
    assert_eq!(restart_warn(55, 3, 58, 1_000_000), 58);
    assert_eq!(restart_warn(58, 3, 59, 1_000_000), 59);
    assert_eq!(restart_warn(-1, 3, 59, 119_999), -1);
    assert_eq!(restart_warn(-1, 3, 59, 120_000), 59);
}

#[test]
fn restart_batches() {
    let config = init_config(s("t"), s("p"));
    let warn: SystemInstruction<(), ()> = restart_logic(&config, 55);
    assert!(warn.client.is_none() && warn.chat_message.is_none());
    assert_eq!(warn.instructions.len(), 2);
    assert_eq!(warn.instructions[1].instruction, Instruction::SystemChatMessage { message: s("[Restarting in 5 minutes!]") });
    let warn: SystemInstruction<(), ()> = restart_logic(&config, 58);
    assert_eq!(warn.instructions[1].instruction, Instruction::SystemChatMessage { message: s("[Restarting in 1 minute!]") });
    let other: SystemInstruction<(), ()> = restart_logic(&config, 7);
    assert_eq!(other.instructions[1].instruction, Instruction::SystemChatMessage { message: s("[Restarting soon!]") });
    let last: SystemInstruction<(), ()> = restart_logic(&config, 59);
    assert_eq!(last.instructions.len(), 4);
    assert_eq!(last.instructions[1].instruction, Instruction::SystemChatMessage { message: s("[Restarting!]") });
    assert_eq!(last.instructions[2].instruction, Instruction::Wait { amount_ms: 1000 });
    assert_eq!(last.instructions[3].instruction, Instruction::Restart {});
}

#[test]
fn clock_ticks() {
    let mut c = ClockTicker::new();
    let a = c.tick(3, 55, 1_000_000);
    assert_eq!(a, ClockAction { restart: Some(55), poll_hardware: false });
    let b = c.tick(3, 55, 1_001_000);
    assert_eq!(b, ClockAction { restart: None, poll_hardware: false });
    let d = c.tick(3, 56, 1_002_000);
    assert_eq!(d, ClockAction { restart: None, poll_hardware: true });
    let e = c.tick(3, 58, 1_003_000);
    assert_eq!(e, ClockAction { restart: Some(58), poll_hardware: false });
    assert_eq!(hardware_error_report(), "{'cpu_temp': 'ERR', 'cpu_load': 'ERR'}");
}

#[test]
fn anti_idle_cycle() {
    let mut cycle = AfkCycle::new();
    let adverts: Vec<bool> = (0..7).map(|_| cycle.sweep()).collect();
    assert_eq!(adverts, vec![false, false, true, false, false, true, false]);
    let game = s("Roblox");
    let sweep = anti_afk_instructions(&game);
    let turns: i64 = sweep
        .iter()
        .map(|p| match &p.instruction {
            Instruction::MoveCameraX { x_ratio: Amount::Fixed(n) } => *n,
            _ => 0,
        })
        .sum();
    assert_eq!(turns, 0);
    assert_eq!(sweep.len(), 6);
    let advert = advert_instructions(&game);
    assert_eq!(advert[2].instruction, Instruction::SystemChatMessage { message: s("Go to its Roblox profile and click the purple T witch icon!") });
}

fn sensor(text: &str, value: &str) -> Sensor {
    Sensor { text: s(text), value: s(value) }
}

fn report(groups: Vec<SensorType>) -> HardwareReport {
    HardwareReport { children: vec![Computer { children: vec![Hardware { children: groups }] }] }
}

#[test]
fn cpu_readings_found() {
    let r = report(vec![
        SensorType { text: s("Clocks"), children: vec![sensor("CPU Package", "999")] },
        SensorType { text: s("Temperatures"), children: vec![sensor("CPU Core #1", "40"), sensor("CPU Package", "55 °C")] },
        SensorType { text: s("Load"), children: vec![sensor("CPU Total", "12 %")] },
    ]);
    assert_eq!(cpu_readings(&r), (s("55 °C"), s("12 %")));
}

#[test]
fn cpu_readings_stop_early_in_a_group() {
    let r = report(vec![SensorType {
        text: s("Load"),
        children: vec![
            sensor("CPU Package", "50"),
            sensor("CPU Total", "10"),
            sensor("Other", "x"),
            sensor("CPU Package", "70"),
        ],
    }]);
    assert_eq!(cpu_readings(&r), (s("50"), s("10")));
}

#[test]
fn cpu_readings_missing() {
    assert_eq!(cpu_readings(&report(vec![])), (s("ERR"), s("ERR")));
    let empty = HardwareReport { children: vec![Computer { children: vec![] }] };
    assert_eq!(cpu_readings(&empty), (s("ERR"), s("ERR")));
}

#[test]
fn cpu_report_as_overlay_json() {
    let r = report(vec![
        SensorType { text: s("Temperatures"), children: vec![sensor("CPU Package", "55.0 °C")] },
        SensorType { text: s("Load"), children: vec![sensor("CPU Total", "12.5 %")] },
    ]);
    assert_eq!(cpu_report_text(&r), "{\"cpu_load\":\"12.5 %\",\"cpu_temp\":\"55.0 °C\"}");
    assert_eq!(cpu_report_text(&report(vec![])), "{\"cpu_load\":\"ERR\",\"cpu_temp\":\"ERR\"}");
}

#[test]
fn overlay_clients() {
    let mut hud: HudRegistry<&str> = HudRegistry::new();
    assert_eq!(hud.step(HUDInstruction::AddClient { client_id: 1, responder: "one" }), HudEffect::Quiet);
    hud.step(HUDInstruction::AddClient { client_id: 2, responder: "two" });
    assert_eq!(hud.len(), 2);
    hud.step(HUDInstruction::RemoveClient { client_id: 1 });
    assert_eq!(hud.len(), 1);
    assert!(hud.clients().contains_key(&2));
    hud.step(HUDInstruction::RemoveClient { client_id: 9 });
    assert_eq!(hud.len(), 1);
    assert_eq!(
        hud.step(HUDInstruction::TimedMessage { message: s("wait"), time: 10 }),
        HudEffect::Broadcast { payload: HudPayload::Timed { message: s("wait"), seconds: 10 } }
    );
    assert_eq!(
        hud.step(HUDInstruction::GenericMessage { message: s("ping") }),
        HudEffect::Broadcast { payload: HudPayload::Text { message: s("ping") } }
    );
    assert_eq!(
        hud.step(HUDInstruction::SystemMonitorUpdate { data: s("{}") }),
        HudEffect::Broadcast { payload: HudPayload::Monitor { data: s("{}") } }
    );
    assert_eq!(hud.step(HUDInstruction::ClientMessage { message: s("hi") }), HudEffect::ShowText { message: s("hi") });
    assert_eq!(hud.step(HUDInstruction::ClientBinaryMessage { binary_message: vec![1, 2] }), HudEffect::ShowBytes { bytes: vec![1, 2] });
    assert_eq!(hud.len(), 1);
}

#[test]
fn keystrokes_and_posts() {
    assert_eq!(chat_keystrokes("/e dance"), "/e dance");
    assert_eq!(chat_keystrokes("hello"), "hello ");
    assert_eq!(user_chat_keystrokes("Bob:", "hi"), (s("Bob: "), s("hi ")));
    assert_eq!(leap_schedule(1000, 300), LeapSchedule { space_first: true, first_wait: 300, second_wait: 700 });
    assert_eq!(leap_schedule(0, 1000), LeapSchedule { space_first: false, first_wait: 0, second_wait: 1000 });
    assert_eq!(leap_schedule(500, 500), LeapSchedule { space_first: true, first_wait: 500, second_wait: 0 });
    assert_eq!(author_url("CamDev"), "https://www.twitch.tv/popout/sbfcam/viewercard/camdev");
    assert_eq!(log_webhook_variable(true), "DISCORD_CHAT_LOG_WEBHOOK_URL");
    assert_eq!(log_webhook_variable(false), "DISCORD_LOG_WEBHOOK_URL");
    assert_eq!(admin_alert_content("42", "help"), "<@42>\nhelp\n<https://twitch.tv/sbfcam>");
    assert_eq!(censor_status_alert("oops"), "[Censor Client Error - Response Status]\n```oops```");
    assert_eq!(
        sbfcam::outbound::censor_json_alert("Error(\"EOF\")", "{"),
        "[Censor Client Error - JSON]\nError(\"EOF\")\n```{```"
    );
    assert_eq!(warp_command("Ruins"), "warp Ruins");
}

#[test]
fn warp_table() {
    let (table, listing) = get_warp_locations();
    assert_eq!(table.len(), 20);
    assert_eq!(table.get_str("radio"), Some(s("Radio Rock + Raging Demon Raceway")));
    assert_eq!(table.get_str("RADIO"), None);
    assert_eq!(
        listing,
        "big, build, fountain, fumofas, minesweeper, pof, poolside, radio, ruins, shrimp, sky, fire, beach, beachhouse, devil, highway, sewers, bowling, cave, ice"
    );
}

#[test]
fn hat_table_keeps_the_later_duplicate() {
    let (table, listing) = get_hat_types();
    assert_eq!(table.len(), 23);
    assert_eq!(table.get_str("marisa6"), Some(s("Marisapc98Hat")));
    assert_eq!(table.get_str("none"), Some(s("none")));
    assert_eq!(listing.matches("marisa6").count(), 1);
    assert!(listing.starts_with("none, bird, doremy, fire1"));
    assert!(listing.ends_with("strawberry, youmu"));
}

#[test]
fn lookup_insert_replaces() {
    let mut t = Lookup::new();
    t.insert(s("k"), s("1"));
    t.insert(s("j"), s("2"));
    t.insert(s("k"), s("3"));
    assert_eq!(t.len(), 2);
    assert_eq!(t.get_str("k"), Some(s("3")));
    assert_eq!(t.listing(), "k, j");
}

#[test]
fn text_helpers() {
    assert_eq!(capitalize_string("hello world"), "Hello world");
    assert_eq!(capitalize_string("1abc"), "1abc");
    assert_eq!(capitalize_string("x"), "X");
    let words = split_words(&chars_of("  a  bc\nd "));
    assert_eq!(words, vec!["a", "bc", "d"]);
    assert_eq!(string_of(&remove_first(&chars_of("a dev dev b"), &chars_of("dev"))), "a  dev b");
    assert_eq!(string_of(&remove_first(&chars_of("abc"), &chars_of("x"))), "abc");
    assert_eq!(string_of(&chars_of("héllo")), "héllo");
}

#[test]
fn pairs_can_be_built() {
    let p = InstructionPair { execution_order: 4, instruction: Instruction::TerminateGame {} };
    assert_eq!(p.execution_order, 4);
}
