use sbfcam::command::CommandPlan;
use sbfcam::instruction::Instruction;
use sbfcam::relay::{
    announce_decision, announce_would_panic, censor_follow_up, dev_reply, focus_lost_alert,
    focus_lost_reply, is_command_moderator, pong_texts, rejoin_reply, relay_denial, relay_permitted,
    relay_route, CensorClientReturn, CensorOutcome, RelayRoute,
};

fn s(x: &str) -> String {
    String::from(x)
}

#[test]
fn moderator_may_relay_anything() {
    assert!(relay_permitted(&s("/kick everyone"), "CamDev", "camdev"));
    assert!(relay_permitted(&s("[SYSTEM] hi"), "camdev", "CAMDEV"));
}

#[test]
fn viewers_may_relay_only_safe_messages() {
    assert!(relay_permitted(&s("hello"), "viewer", "camdev"));
    assert!(relay_permitted(&s("/e dance"), "viewer", "camdev"));
    assert!(relay_permitted(&s("/animspeed 2"), "viewer", "camdev"));
    assert!(!relay_permitted(&s("/kick someone"), "viewer", "camdev"));
    assert!(!relay_permitted(&s("[fake system]"), "viewer", "camdev"));
    assert_eq!(relay_denial(), "[You cannot run commands other than /e or /animspeed!]");
}

#[test]
fn relay_routes() {
    let game = s("Roblox");
    assert!(matches!(relay_route(&s("hi"), &game, false), RelayRoute::FocusLost));
    assert!(matches!(relay_route(&s("hi"), &game, true), RelayRoute::Censor));
    match relay_route(&s("/e wave"), &game, true) {
        RelayRoute::Command { instructions } => {
            assert_eq!(instructions.len(), 2);
            assert_eq!(instructions[0].instruction, Instruction::CheckActive { window_title: s("Roblox") });
            assert_eq!(instructions[1].execution_order, 1);
            assert_eq!(instructions[1].instruction, Instruction::SystemChatMessage { message: s("/e wave") });
        }
        other => panic!("{:?}", other),
    }
    assert_eq!(focus_lost_alert(), "Failed to find Roblox!");
    assert_eq!(focus_lost_reply(), "[Failed to find Roblox! Notified dev.]");
}

#[test]
fn censor_failure_alerts_the_developer() {
    let step = censor_follow_up(CensorOutcome::Failed { detail: s("timeout") }, &s("Roblox"));
    assert_eq!(step.alert, Some(s("[Censor Client Error - Main]\n```timeout```")));
    assert_eq!(step.replies, vec![s("[Something went wrong, can't send a message. Contacting dev...]")]);
    assert!(step.instructions.is_none());
    let step = censor_follow_up(CensorOutcome::Unavailable, &s("Roblox"));
    assert_eq!(step.alert, None);
    assert_eq!(step.replies, vec![s("[Something went wrong, can't send a message. Contacting dev...]")]);
    assert!(step.instructions.is_none());
}

#[test]
fn censor_answer_is_relayed() {
    let answer = CensorClientReturn {
        username: s("Vi***r"),
        message: s("hello ***"),
        bot_reply_message: vec![s("watch it"), s("second")],
        send_users_message: true,
    };
    let step = censor_follow_up(CensorOutcome::Answered(answer), &s("Roblox"));
    assert_eq!(step.alert, None);
    assert_eq!(step.replies, vec![s("watch it"), s("second")]);
    let b = step.instructions.expect("instructions");
    assert_eq!(b.len(), 2);
    assert_eq!(b[0].instruction, Instruction::CheckActive { window_title: s("Roblox") });
    assert_eq!(b[1].instruction, Instruction::UserChatMessage { author: s("Vi***r:"), message: s("hello ***") });
}

#[test]
fn censor_can_hold_a_message_back() {
    let answer = CensorClientReturn {
        username: s("v"),
        message: s("m"),
        bot_reply_message: vec![],
        send_users_message: false,
    };
    let step = censor_follow_up(CensorOutcome::Answered(answer), &s("Roblox"));
    assert!(step.replies.is_empty());
    assert!(step.instructions.is_none());
}

#[test]
fn announcements() {
    let game = s("Roblox");
    match announce_decision(&s("hello all"), "Viewer", "camdev", &game) {
        CommandPlan::Reply { text, log } => {
            assert_eq!(text, "[You do not have permissions to run this!]");
            assert!(!log);
        }
        other => panic!("{:?}", other),
    }
    match announce_decision(&s(""), "CamDev", "camdev", &game) {
        CommandPlan::Reply { text, .. } => assert_eq!(text, "[Specify a message! (i.e. !a hello)]"),
        other => panic!("{:?}", other),
    }
    match announce_decision(&s("server restart soon"), "CamDev", "camdev", &game) {
        CommandPlan::Enqueue { instructions } => {
            assert_eq!(instructions[1].instruction, Instruction::SystemChatMessage { message: s("[Server restart soon]") });
        }
        other => panic!("{:?}", other),
    }
}

#[test]
fn announcement_with_a_non_ascii_start_is_flagged() {
    assert!(announce_would_panic(&s("élan"), "camdev", "camdev"));
    assert!(!announce_would_panic(&s("élan"), "viewer", "camdev"));
    assert!(!announce_would_panic(&s("elan"), "camdev", "camdev"));
    assert!(!announce_would_panic(&s(""), "camdev", "camdev"));
}

#[test]
fn moderator_names_ignore_case() {
    assert!(is_command_moderator("CamDev", "CAMDEV"));
    assert!(!is_command_moderator("CamDev2", "camdev"));
}

#[test]
fn canned_replies() {
    assert!(dev_reply(true).starts_with("[Notified dev! As a reminder"));
    assert_eq!(dev_reply(false), "[Error! Was unable to notify dev. Please join the Discord and ping CamDev.]");
    assert_eq!(rejoin_reply(false, true), "[You do not have permissions to run this!]");
    assert_eq!(rejoin_reply(true, true), "[Rejoin queued successfully!]");
    assert_eq!(rejoin_reply(true, false), "[Failed to queue rejoin, Roblox API may be down!]");
    assert_eq!(pong_texts(), (s("ping"), s("pong")));
}
