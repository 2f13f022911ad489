use sbfcam::command::{number_rule, parse_chat, plan_command, ChatCommand, ChatInput, CommandPlan, NumberReading, NumberRule};
use sbfcam::config::{init_config, BotConfig};
use sbfcam::instruction::{Amount, Instruction, InstructionPair};

fn config() -> BotConfig {
    init_config(String::from("token"), String::from("player"))
}

fn command(text: &str) -> ChatCommand {
    match parse_chat(text) {
        ChatInput::Command(c) => c,
        other => panic!("not a command: {:?}", other),
    }
}

fn all(reading: NumberReading, n: usize) -> Vec<NumberReading> {
    vec![reading; n]
}

fn plan_with(text: &str, sender: &str, readings: Vec<NumberReading>) -> CommandPlan {
    let c = command(text);
    plan_command(&c, sender, &config(), &readings)
}

fn plan(text: &str) -> CommandPlan {
    let c = command(text);
    let n = c.args.len();
    plan_command(&c, "viewer", &config(), &all(NumberReading::InRange, n))
}

fn reply_of(p: CommandPlan) -> (String, bool) {
    match p {
        CommandPlan::Reply { text, log } => (text, log),
        other => panic!("expected a reply, got {:?}", other),
    }
}

fn batch_of(p: CommandPlan) -> Vec<InstructionPair> {
    match p {
        CommandPlan::Enqueue { instructions } => instructions,
        other => panic!("expected a batch, got {:?}", other),
    }
}

fn check_first(b: &[InstructionPair]) {
    assert_eq!(b[0].execution_order, 0);
    assert_eq!(b[0].instruction, Instruction::CheckActive { window_title: String::from("Roblox") });
}

fn typed(text: &str, negated: bool) -> Amount {
    Amount::Typed { text: String::from(text), negated }
}

#[test]
fn plain_chat_is_not_a_command() {
    assert!(matches!(parse_chat("hello there"), ChatInput::Plain));
    assert!(matches!(parse_chat(" !ping"), ChatInput::Plain));
    assert!(matches!(parse_chat(""), ChatInput::Plain));
}

#[test]
fn bare_bang_has_no_command() {
    assert!(matches!(parse_chat("!"), ChatInput::Bare));
    assert!(matches!(parse_chat("!   \t "), ChatInput::Bare));
}

#[test]
fn command_words_and_lowercase_trigger() {
    let c = command("!MoVe  W\t2 ");
    assert_eq!(c.trigger, "move");
    assert_eq!(c.args, vec!["MoVe", "W", "2"]);
    assert_eq!(c.rest, "MoVe  W\t2 ");
}

#[test]
fn unicode_whitespace_splits_words() {
    let c = command("!m a\u{3000}b\u{a0}c");
    assert_eq!(c.args, vec!["m", "a", "b", "c"]);
}

#[test]
fn ping_and_help() {
    assert!(matches!(plan("!ping"), CommandPlan::Pong));
    assert!(matches!(plan("!PING extra"), CommandPlan::Pong));
    let (text, log) = reply_of(plan("!help"));
    assert_eq!(text, "For a full list of commands, visit https://sbf.fumocam.xyz/commands . If you just want to play around, try '!m hello', '!move w 2', or '!warp poolside'");
    assert!(log);
}

#[test]
fn unknown_command_is_answered_and_logged() {
    let (text, log) = reply_of(plan("!dance"));
    assert_eq!(text, "[Not a valid command! Type !help for a list of commands.]");
    assert!(log);
}

#[test]
fn chat_relay_needs_a_message() {
    let (text, log) = reply_of(plan("!m"));
    assert_eq!(text, "[Specify a message! (i.e. !m hello)]");
    assert!(!log);
    match plan("!m  hello   world ") {
        CommandPlan::Relay { message } => assert_eq!(message, "hello world"),
        other => panic!("{:?}", other),
    }
}

#[test]
fn announce_is_deferred() {
    match plan("!a big news") {
        CommandPlan::Announce { message } => assert_eq!(message, "big news"),
        other => panic!("{:?}", other),
    }
    match plan("!A") {
        CommandPlan::Announce { message } => assert_eq!(message, ""),
        other => panic!("{:?}", other),
    }
}

#[test]
fn dev_message_drops_the_command_word() {
    match plan_with("!dev the bot is stuck", "Alice", all(NumberReading::NotANumber, 5)) {
        CommandPlan::Dev { message } => assert_eq!(message, "Alice: the bot is stuck"),
        other => panic!("{:?}", other),
    }
    match plan_with("!dev", "Bob", all(NumberReading::NotANumber, 1)) {
        CommandPlan::Dev { message } => assert_eq!(message, "Bob: "),
        other => panic!("{:?}", other),
    }
    // Upper case is matched as a command but not removed from the text.
    match plan_with("!DEV x", "Bob", all(NumberReading::NotANumber, 2)) {
        CommandPlan::Dev { message } => assert_eq!(message, "Bob: DEV x"),
        other => panic!("{:?}", other),
    }
}

#[test]
fn move_needs_a_direction() {
    let (text, log) = reply_of(plan("!move"));
    assert_eq!(text, "[Specify a direction! (i.e. !move w 1)]");
    assert!(!log);
    let (text, _) = reply_of(plan("!move x"));
    assert_eq!(text, "[Invalid direction! Specify a proper direction. (w, a, s, d)]");
}

#[test]
fn move_defaults_to_one_second() {
    let b = batch_of(plan("!move W"));
    assert_eq!(b.len(), 2);
    check_first(&b);
    assert_eq!(b[1].execution_order, 1);
    assert_eq!(b[1].instruction, Instruction::MoveDirection { direction: String::from("w"), duration: Amount::Fixed(1) });
}

#[test]
fn move_uses_a_typed_duration() {
    let b = batch_of(plan_with("!move d 2.5", "v", vec![NumberReading::NotANumber, NumberReading::NotANumber, NumberReading::InRange]));
    assert_eq!(b[1].instruction, Instruction::MoveDirection { direction: String::from("d"), duration: typed("2.5", false) });
}

#[test]
fn move_rejects_bad_numbers() {
    let (text, log) = reply_of(plan_with("!move s 20", "v", vec![NumberReading::NotANumber, NumberReading::NotANumber, NumberReading::OutOfRange]));
    assert_eq!(text, "[20 is too high/low! Please specify a number between 0 or 15.]");
    assert!(!log);
    let (text, _) = reply_of(plan_with("!move s abc", "v", all(NumberReading::NotANumber, 3)));
    assert_eq!(text, "[abc is not a valid number! Please specify a number or leave it blank.]");
}

#[test]
fn warp_to_a_known_location() {
    let b = batch_of(plan("!warp poolside"));
    assert_eq!(b.len(), 4);
    check_first(&b);
    assert_eq!(b[1].execution_order, 1);
    assert_eq!(b[1].instruction, Instruction::SystemChatMessage { message: String::from("[Warping to Poolside!]") });
    assert_eq!(b[2].execution_order, 1);
    assert_eq!(b[2].instruction, Instruction::Leap { forward_amount: Amount::Fixed(1), spacebar_amount: Amount::Fixed(1), direction: 'w' });
    assert_eq!(b[3].execution_order, 1);
    assert_eq!(b[3].instruction, Instruction::ConsoleCommand { command: String::from("warp Poolside") });
}

#[test]
fn warp_requires_an_exact_location_key() {
    let (text, log) = reply_of(plan("!warp Poolside"));
    assert!(text.starts_with("[Poolside is not a valid location! Map: https://sbf.fumocam.xyz/warp-map (Valid locations: big, build, "));
    assert!(text.ends_with("cave, ice)]"));
    assert!(log);
    let (text, log) = reply_of(plan("!warp"));
    assert!(text.starts_with("[Specify a location! Map: https://sbf.fumocam.xyz/warp-map (Valid locations: big, "));
    assert!(!log);
}

#[test]
fn camera_turns() {
    let b = batch_of(plan_with("!left 90", "v", vec![NumberReading::NotANumber, NumberReading::InRange]));
    check_first(&b);
    assert_eq!(b[1].instruction, Instruction::MoveCameraX { x_ratio: typed("90", false) });
    let b = batch_of(plan_with("!right 90", "v", vec![NumberReading::NotANumber, NumberReading::InRange]));
    assert_eq!(b[1].instruction, Instruction::MoveCameraX { x_ratio: typed("90", true) });
    let b = batch_of(plan_with("!up 45", "v", vec![NumberReading::NotANumber, NumberReading::InRange]));
    assert_eq!(b[1].instruction, Instruction::MoveCameraY { y_ratio: typed("45", false) });
    let b = batch_of(plan_with("!down 45", "v", vec![NumberReading::NotANumber, NumberReading::InRange]));
    assert_eq!(b[1].instruction, Instruction::MoveCameraY { y_ratio: typed("45", true) });
}

#[test]
fn camera_turn_replies() {
    let (text, _) = reply_of(plan("!left"));
    assert_eq!(text, "[Specify degrees to rotate! (i.e. !left 90)]");
    let (text, _) = reply_of(plan("!down"));
    assert_eq!(text, "[Specify degrees to rotate! (i.e. !down 45)]");
    let (text, _) = reply_of(plan_with("!right 400", "v", vec![NumberReading::NotANumber, NumberReading::OutOfRange]));
    assert_eq!(text, "[400 is too high/low! Please specify a number between 0 or 360.]");
    let (text, _) = reply_of(plan_with("!up 200", "v", vec![NumberReading::NotANumber, NumberReading::OutOfRange]));
    assert_eq!(text, "[200 is too high/low! Please specify a number between 0 or 180.]");
    let (text, _) = reply_of(plan_with("!left x", "v", all(NumberReading::NotANumber, 2)));
    assert_eq!(text, "[x is not a valid number! Please specify a number, i.e. 90.]");
    let (text, _) = reply_of(plan_with("!up x", "v", all(NumberReading::NotANumber, 2)));
    assert_eq!(text, "[x is not a valid number! Please specify a number, i.e. 45.]");
}

#[test]
fn zoom() {
    let b = batch_of(plan_with("!zoomin 50", "v", vec![NumberReading::NotANumber, NumberReading::InRange]));
    check_first(&b);
    assert_eq!(b[1].instruction, Instruction::ZoomCamera { direction: String::from("i"), duration: typed("50", false) });
    let b = batch_of(plan_with("!zoomout 5", "v", vec![NumberReading::NotANumber, NumberReading::InRange]));
    assert_eq!(b[1].instruction, Instruction::ZoomCamera { direction: String::from("o"), duration: typed("5", false) });
    let (text, _) = reply_of(plan("!zoomout"));
    assert_eq!(text, "[Specify percent to zoom in! (i.e. !zoomin 50)]");
    let (text, _) = reply_of(plan_with("!zoomin 2000000", "v", vec![NumberReading::NotANumber, NumberReading::OutOfRange]));
    assert_eq!(text, "[2000000 is too high/low! Please specify a number between 0 or 1000000.]");
    let (text, _) = reply_of(plan_with("!zoomin q", "v", all(NumberReading::NotANumber, 2)));
    assert_eq!(text, "[q is not a valid number! Please specify a number, i.e. 45.]");
    let (text, _) = reply_of(plan_with("!zoomout q", "v", all(NumberReading::NotANumber, 2)));
    assert_eq!(text, "[q is not a valid number! Please specify a number, i.e. 50.]");
}

fn leap_of(p: CommandPlan) -> Instruction {
    let mut b = batch_of(p);
    check_first(&b);
    b.remove(1).instruction
}

#[test]
fn leap_defaults() {
    assert_eq!(leap_of(plan("!leap")), Instruction::Leap { forward_amount: Amount::Fixed(1), spacebar_amount: Amount::Fixed(1), direction: 'w' });
}

#[test]
fn leap_with_times() {
    let i = leap_of(plan_with("!leap 1.5 0.5", "v", vec![NumberReading::NotANumber, NumberReading::InRange, NumberReading::InRange]));
    assert_eq!(i, Instruction::Leap { forward_amount: typed("1.5", false), spacebar_amount: typed("0.5", false), direction: 'w' });
    // A fourth word is ignored when the first is a time.
    let i = leap_of(plan_with("!leap 1 1 zzz", "v", vec![NumberReading::NotANumber, NumberReading::InRange, NumberReading::InRange, NumberReading::NotANumber]));
    assert_eq!(i, Instruction::Leap { forward_amount: typed("1", false), spacebar_amount: typed("1", false), direction: 'w' });
}

#[test]
fn leap_with_a_direction_first() {
    let i = leap_of(plan_with("!leap A 2 0.3", "v", vec![NumberReading::NotANumber, NumberReading::NotANumber, NumberReading::InRange, NumberReading::InRange]));
    assert_eq!(i, Instruction::Leap { forward_amount: typed("2", false), spacebar_amount: typed("0.3", false), direction: 'a' });
    let i = leap_of(plan_with("!leap d", "v", all(NumberReading::NotANumber, 2)));
    assert_eq!(i, Instruction::Leap { forward_amount: Amount::Fixed(1), spacebar_amount: Amount::Fixed(1), direction: 'd' });
}

#[test]
fn leap_rejections() {
    let (text, log) = reply_of(plan_with("!leap x", "v", all(NumberReading::NotANumber, 2)));
    assert_eq!(text, "[x is not a valid direction! Please specify a valid direction or leave it blank.]");
    assert!(!log);
    let (text, _) = reply_of(plan_with("!leap xy", "v", all(NumberReading::NotANumber, 2)));
    assert_eq!(text, "[xy is not a valid number/direction! Please specify a number or leave it blank.]");
    let (text, _) = reply_of(plan_with("!leap 3", "v", vec![NumberReading::NotANumber, NumberReading::OutOfRange]));
    assert_eq!(text, "[3 is too high/low! Please specify a number between 0 or 2.]");
    let (text, _) = reply_of(plan_with("!leap 1 z", "v", vec![NumberReading::NotANumber, NumberReading::InRange, NumberReading::NotANumber]));
    assert_eq!(text, "[z is not a valid number! Please specify a number or leave it blank.]");
    let (text, _) = reply_of(plan_with("!leap w 1 9", "v", vec![NumberReading::NotANumber, NumberReading::NotANumber, NumberReading::InRange, NumberReading::OutOfRange]));
    assert_eq!(text, "[9 is too high/low! Please specify a number between 0 or 2.]");
}

#[test]
fn simple_actions() {
    let b = batch_of(plan("!hidemouse"));
    assert_eq!(b.len(), 1);
    assert_eq!(b[0].execution_order, 0);
    assert_eq!(b[0].instruction, Instruction::HideMouse {});
    let b = batch_of(plan("!jump"));
    check_first(&b);
    assert_eq!(b[1].instruction, Instruction::Leap { forward_amount: Amount::Fixed(0), spacebar_amount: Amount::Fixed(1), direction: 'w' });
    assert_eq!(batch_of(plan("!grief"))[1].instruction, Instruction::Grief {});
    assert_eq!(batch_of(plan("!sit"))[1].instruction, Instruction::Sit {});
    assert_eq!(batch_of(plan("!refresh"))[1].instruction, Instruction::ConsoleCommand { command: String::from("re") });
    assert_eq!(batch_of(plan("!die"))[1].instruction, Instruction::ConsoleCommand { command: String::from("die") });
    assert_eq!(batch_of(plan("!explode"))[1].instruction, Instruction::ConsoleCommand { command: String::from("explode") });
    assert_eq!(batch_of(plan("!removehat"))[1].instruction, Instruction::ConsoleCommand { command: String::from("changehat me none") });
    assert!(matches!(plan("!rejoin"), CommandPlan::Rejoin));
}

#[test]
fn size_is_capitalised_for_the_console() {
    let b = batch_of(plan("!size SHIMMY"));
    check_first(&b);
    assert_eq!(b[1].instruction, Instruction::ConsoleCommand { command: String::from("changefumo SBFCam Momiji Shimmy") });
    let (text, _) = reply_of(plan("!size huge"));
    assert_eq!(text, "[Invalid size! Specify a size, the default is 'base'. (doll, shimmy, base, deka)]");
    let (text, _) = reply_of(plan("!size"));
    assert_eq!(text, "[Specify a size! The default is 'base'. (doll, shimmy, base, deka)]");
}

#[test]
fn hats() {
    let b = batch_of(plan("!hat Marisa6"));
    assert_eq!(b[1].instruction, Instruction::ConsoleCommand { command: String::from("changehat me Marisapc98Hat") });
    let b = batch_of(plan("!hat KOISHI"));
    assert_eq!(b[1].instruction, Instruction::ConsoleCommand { command: String::from("changehat me KOISHIIIIIIII") });
    let (text, log) = reply_of(plan("!hat Crown"));
    assert!(text.starts_with("[crown is not a valid hat! (Valid hats: none, bird, doremy, "));
    assert!(log);
    let (text, log) = reply_of(plan("!hat"));
    assert!(text.starts_with("[Specify a hat, or use !removehat. (Valid hats: none, bird, "));
    assert!(!log);
}

#[test]
fn number_rules() {
    assert_eq!(number_rule(&command("!move w")), Some(NumberRule { single_precision: false, limit: 15 }));
    assert_eq!(number_rule(&command("!LEFT 3")), Some(NumberRule { single_precision: true, limit: 360 }));
    assert_eq!(number_rule(&command("!right")), Some(NumberRule { single_precision: true, limit: 360 }));
    assert_eq!(number_rule(&command("!up")), Some(NumberRule { single_precision: true, limit: 180 }));
    assert_eq!(number_rule(&command("!down")), Some(NumberRule { single_precision: true, limit: 180 }));
    assert_eq!(number_rule(&command("!zoomin")), Some(NumberRule { single_precision: false, limit: 1_000_000 }));
    assert_eq!(number_rule(&command("!zoomout")), Some(NumberRule { single_precision: false, limit: 1_000_000 }));
    assert_eq!(number_rule(&command("!leap")), Some(NumberRule { single_precision: false, limit: 2 }));
    assert_eq!(number_rule(&command("!warp big")), None);
}

#[test]
fn readings_do_not_matter_without_a_rule() {
    let c = command("!warp big 3");
    let a = plan_command(&c, "v", &config(), &all(NumberReading::InRange, 3));
    let b = plan_command(&c, "v", &config(), &all(NumberReading::OutOfRange, 3));
    assert_eq!(format!("{:?}", a), format!("{:?}", b));
}

#[test]
fn every_chat_batch_but_hidemouse_checks_the_window_first() {
    for text in ["!move w", "!warp big", "!left 5", "!zoomin 5", "!leap", "!jump", "!grief", "!sit", "!size base", "!hat none", "!removehat", "!die"] {
        let c = command(text);
        let n = c.args.len();
        let readings = if text.starts_with("!leap") { all(NumberReading::NotANumber, n) } else { all(NumberReading::InRange, n) };
        let b = batch_of(plan_command(&c, "v", &config(), &readings));
        assert!(b.len() >= 2);
        check_first(&b);
    }
}
