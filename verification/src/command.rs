//! Chat commands: how a chat line is read, and what the bot answers or
//! schedules for each command.
use vstd::prelude::*;
use vstd::string::*;
use crate::text::{
    chars_of, chars_from, concat2, concat3, joined, join_from, lowercase, lowercase_of,
    same_text, split_words, starts_with_text, string_of, words, without_first, remove_first,
    capitalize_string, ascii_upper, owned,
};
use crate::instruction::{
    Amount, AmountView, Instruction, InstructionView, InstructionPair, PairView, at, pair,
    pairs_view,
};
use crate::catalog::lookup;
use crate::config::BotConfig;

verus! {

broadcast use vstd::seq_lib::group_seq_properties;

// ---------------------------------------------------------------------------
// Reading a chat line
// ---------------------------------------------------------------------------

/// What the input layer found when it read a typed number against the
/// command's rule: not a number at all, a number outside (0, limit], or a
/// number inside it.
#[derive(Clone, Copy, Debug, PartialEq, Eq)]
pub enum NumberReading {
    NotANumber,
    OutOfRange,
    InRange,
}

/// How a command's typed numbers are read: in single or double precision,
/// and the largest accepted value (numbers must also be above zero).
#[derive(Clone, Copy, Debug, PartialEq, Eq)]
pub struct NumberRule {
    pub single_precision: bool,
    pub limit: u32,
}

/// A chat line that asks for a command: the text after the leading '!',
/// its whitespace-separated words, and the first word in lower case.
#[derive(Debug)]
pub struct ChatCommand {
    pub rest: String,
    pub args: Vec<String>,
    pub trigger: String,
}

pub struct CommandView {
    pub rest: Seq<char>,
    pub args: Seq<Seq<char>>,
    pub trigger: Seq<char>,
}

impl View for ChatCommand {
    type V = CommandView;

    open spec fn view(&self) -> CommandView {
        CommandView { rest: self.rest@, args: self.args.deep_view(), trigger: self.trigger@ }
    }
}

/// A chat line: ordinary chat, a lone '!' with no word after it, or a command.
#[derive(Debug)]
pub enum ChatInput {
    Plain,
    Bare,
    Command(ChatCommand),
}

/// The command that a chat line starting with '!' asks for.
pub open spec fn command_of(text: Seq<char>) -> CommandView {
    let rest = text.skip(1);
    CommandView { rest, args: words(rest), trigger: lowercase_of(words(rest)[0]) }
}

/// Reads a chat line.
pub fn parse_chat(text: &str) -> (r: ChatInput)
    ensures
        !"!"@.is_prefix_of(text@) ==> r is Plain,
        "!"@.is_prefix_of(text@) && words(text@.skip(1)).len() == 0 ==> r is Bare,
        "!"@.is_prefix_of(text@) && words(text@.skip(1)).len() > 0 ==> (r matches ChatInput::Command(
            c,
        ) && c@ == command_of(text@)),
{
    let v = chars_of(text);
    if !starts_with_text(&v, "!") {
        return ChatInput::Plain;
    }
    proof {
        reveal_strlit("!");
    }
    let tail = chars_from(&v, 1);
    let args = split_words(&tail);
    if args.len() == 0 {
        return ChatInput::Bare;
    }
    let trigger = lowercase(args[0].as_str());
    let rest = string_of(&tail);
    ChatInput::Command(ChatCommand { rest, args, trigger })
}

/// A direction key that the leap command accepts.
pub open spec fn is_direction(c: char) -> bool {
    c == 'w' || c == 'a' || c == 's' || c == 'd'
}

/// How the command reads typed numbers, for the commands that take numbers.
pub open spec fn rule_for(trigger: Seq<char>) -> Option<NumberRule> {
    if trigger == "move"@ {
        Some(NumberRule { single_precision: false, limit: 15 })
    } else if trigger == "left"@ || trigger == "right"@ {
        Some(NumberRule { single_precision: true, limit: 360 })
    } else if trigger == "up"@ || trigger == "down"@ {
        Some(NumberRule { single_precision: true, limit: 180 })
    } else if trigger == "zoomin"@ || trigger == "zoomout"@ {
        Some(NumberRule { single_precision: false, limit: 1_000_000 })
    } else if trigger == "leap"@ {
        Some(NumberRule { single_precision: false, limit: 2 })
    } else {
        None
    }
}

/// The rule by which the typed numbers of `cmd` are read, if it takes any.
pub fn number_rule(cmd: &ChatCommand) -> (r: Option<NumberRule>)
    ensures
        r == rule_for(cmd@.trigger),
{
    let t = chars_of(cmd.trigger.as_str());
    if same_text(&t, "move") {
        Some(NumberRule { single_precision: false, limit: 15 })
    } else if same_text(&t, "left") || same_text(&t, "right") {
        Some(NumberRule { single_precision: true, limit: 360 })
    } else if same_text(&t, "up") || same_text(&t, "down") {
        Some(NumberRule { single_precision: true, limit: 180 })
    } else if same_text(&t, "zoomin") || same_text(&t, "zoomout") {
        Some(NumberRule { single_precision: false, limit: 1_000_000 })
    } else if same_text(&t, "leap") {
        Some(NumberRule { single_precision: false, limit: 2 })
    } else {
        None
    }
}

// ---------------------------------------------------------------------------
// Plans
// ---------------------------------------------------------------------------

/// What the bot does with a command.
#[derive(Debug)]
pub enum CommandPlan {
    /// Answer in chat; `log` says whether the chat line is then logged.
    Reply { text: String, log: bool },
    /// Show "ping" on the overlay and answer "pong".
    Pong,
    /// Queue these instructions for the game.
    Enqueue { instructions: Vec<InstructionPair> },
    /// Relay a chat message into the game (see the relay steps).
    Relay { message: String },
    /// Announce a message in the game, if the sender is the moderator.
    Announce { message: String },
    /// Alert the developer with this message.
    Dev { message: String },
    /// Rejoin the best server, if the sender is the moderator.
    Rejoin,
}

pub enum PlanView {
    Reply { text: Seq<char>, log: bool },
    Pong,
    Enqueue { instructions: Seq<PairView> },
    Relay { message: Seq<char> },
    Announce { message: Seq<char> },
    Dev { message: Seq<char> },
    Rejoin,
}

impl View for CommandPlan {
    type V = PlanView;

    open spec fn view(&self) -> PlanView {
        match self {
            CommandPlan::Reply { text, log } => PlanView::Reply { text: text@, log: *log },
            CommandPlan::Pong => PlanView::Pong,
            CommandPlan::Enqueue { instructions } => PlanView::Enqueue {
                instructions: pairs_view(instructions@),
            },
            CommandPlan::Relay { message } => PlanView::Relay { message: message@ },
            CommandPlan::Announce { message } => PlanView::Announce { message: message@ },
            CommandPlan::Dev { message } => PlanView::Dev { message: message@ },
            CommandPlan::Rejoin => PlanView::Rejoin,
        }
    }
}

pub open spec fn reply_view(text: Seq<char>, log: bool) -> PlanView {
    PlanView::Reply { text, log }
}

/// `tok` in brackets, followed by the rest of a sentence.
pub open spec fn bracketed(tok: Seq<char>, tail: Seq<char>) -> Seq<char> {
    "["@ + tok + tail
}

/// The answer to a number outside the accepted range.
pub open spec fn too_far(tok: Seq<char>, limit: Seq<char>) -> Seq<char> {
    "["@ + tok + " is too high/low! Please specify a number between 0 or "@ + limit + ".]"@
}

/// A check that the game window is active, followed by `second`.
pub open spec fn checked(game: Seq<char>, second: InstructionView) -> Seq<PairView> {
    seq![at(0, InstructionView::CheckActive { window_title: game }), at(1, second)]
}

pub open spec fn typed(tok: Seq<char>, negated: bool) -> AmountView {
    AmountView::Typed { text: tok, negated }
}

/// The text with its first character in ASCII upper case.
pub open spec fn capitalized(s: Seq<char>) -> Seq<char> {
    seq![ascii_upper(s[0])] + s.skip(1)
}

pub open spec fn help_text() -> Seq<char> {
    "For a full list of commands, visit https://sbf.fumocam.xyz/commands . If you just want to play around, try '!m hello', '!move w 2', or '!warp poolside'"@
}

pub open spec fn blank_tail() -> Seq<char> {
    " is not a valid number! Please specify a number or leave it blank.]"@
}

pub open spec fn move_plan(a: Seq<Seq<char>>, rd: Seq<NumberReading>, game: Seq<char>) -> PlanView {
    if a.len() < 2 {
        reply_view("[Specify a direction! (i.e. !move w 1)]"@, false)
    } else {
        let d = lowercase_of(a[1]);
        if !(d == "w"@ || d == "a"@ || d == "s"@ || d == "d"@) {
            reply_view("[Invalid direction! Specify a proper direction. (w, a, s, d)]"@, false)
        } else if a.len() > 2 && rd[2] == NumberReading::OutOfRange {
            reply_view(too_far(a[2], "15"@), false)
        } else if a.len() > 2 && rd[2] == NumberReading::NotANumber {
            reply_view(bracketed(a[2], blank_tail()), false)
        } else {
            PlanView::Enqueue {
                instructions: checked(
                    game,
                    InstructionView::MoveDirection {
                        direction: d,
                        duration: if a.len() > 2 {
                            typed(a[2], false)
                        } else {
                            AmountView::Fixed(1)
                        },
                    },
                ),
            }
        }
    }
}

/// The camera turns: `vertical` picks the up/down axis, `negated` the
/// opposite direction.
pub open spec fn turn_plan(
    a: Seq<Seq<char>>,
    rd: Seq<NumberReading>,
    game: Seq<char>,
    usage: Seq<char>,
    limit: Seq<char>,
    tail: Seq<char>,
    vertical: bool,
    negated: bool,
) -> PlanView {
    if a.len() < 2 {
        reply_view(usage, false)
    } else if rd[1] == NumberReading::OutOfRange {
        reply_view(too_far(a[1], limit), false)
    } else if rd[1] == NumberReading::NotANumber {
        reply_view(bracketed(a[1], tail), false)
    } else {
        let amount = typed(a[1], negated);
        PlanView::Enqueue {
            instructions: checked(
                game,
                if vertical {
                    InstructionView::MoveCameraY { y_ratio: amount }
                } else {
                    InstructionView::MoveCameraX { x_ratio: amount }
                },
            ),
        }
    }
}

pub open spec fn zoom_plan(
    a: Seq<Seq<char>>,
    rd: Seq<NumberReading>,
    game: Seq<char>,
    direction: Seq<char>,
    tail: Seq<char>,
) -> PlanView {
    if a.len() < 2 {
        reply_view("[Specify percent to zoom in! (i.e. !zoomin 50)]"@, false)
    } else if rd[1] == NumberReading::OutOfRange {
        reply_view(too_far(a[1], "1000000"@), false)
    } else if rd[1] == NumberReading::NotANumber {
        reply_view(bracketed(a[1], tail), false)
    } else {
        PlanView::Enqueue {
            instructions: checked(
                game,
                InstructionView::ZoomCamera { direction, duration: typed(a[1], false) },
            ),
        }
    }
}

/// The leap command: an optional direction key or forward time first, then
/// the times for forward and space.
pub open spec fn leap_plan(a: Seq<Seq<char>>, rd: Seq<NumberReading>, game: Seq<char>) -> PlanView {
    let dir_first = a.len() > 1 && rd[1] == NumberReading::NotANumber;
    if a.len() > 1 && rd[1] == NumberReading::OutOfRange {
        reply_view(too_far(a[1], "2"@), false)
    } else if dir_first && lowercase_of(a[1]).len() != 1 {
        reply_view(
            bracketed(
                a[1],
                " is not a valid number/direction! Please specify a number or leave it blank.]"@,
            ),
            false,
        )
    } else if dir_first && !is_direction(lowercase_of(a[1])[0]) {
        reply_view(
            bracketed(
                a[1],
                " is not a valid direction! Please specify a valid direction or leave it blank.]"@,
            ),
            false,
        )
    } else if a.len() > 2 && rd[2] == NumberReading::OutOfRange {
        reply_view(too_far(a[2], "2"@), false)
    } else if a.len() > 2 && rd[2] == NumberReading::NotANumber {
        reply_view(bracketed(a[2], blank_tail()), false)
    } else if a.len() > 3 && dir_first && rd[3] == NumberReading::OutOfRange {
        reply_view(too_far(a[3], "2"@), false)
    } else if a.len() > 3 && dir_first && rd[3] == NumberReading::NotANumber {
        reply_view(bracketed(a[3], blank_tail()), false)
    } else {
        let direction = if dir_first {
            lowercase_of(a[1])[0]
        } else {
            'w'
        };
        let forward = if a.len() > 1 && !dir_first {
            typed(a[1], false)
        } else if dir_first && a.len() > 2 {
            typed(a[2], false)
        } else {
            AmountView::Fixed(1)
        };
        let space = if !dir_first && a.len() > 2 {
            typed(a[2], false)
        } else if dir_first && a.len() > 3 {
            typed(a[3], false)
        } else {
            AmountView::Fixed(1)
        };
        PlanView::Enqueue {
            instructions: checked(
                game,
                InstructionView::Leap { forward_amount: forward, spacebar_amount: space, direction },
            ),
        }
    }
}

pub open spec fn warp_plan(a: Seq<Seq<char>>, cfg: BotConfig) -> PlanView {
    let list = cfg.valid_tp_locations@;
    if a.len() < 2 {
        reply_view(
            "[Specify a location! Map: https://sbf.fumocam.xyz/warp-map (Valid locations: "@ + list
                + ")]"@,
            false,
        )
    } else {
        match lookup(cfg.tp_locations@, a[1]) {
            Some(loc) => PlanView::Enqueue {
                instructions: seq![
                    at(0, InstructionView::CheckActive { window_title: cfg.game_name@ }),
                    at(1, InstructionView::SystemChatMessage { message: "[Warping to "@ + loc + "!]"@ }),
                    at(
                        1,
                        InstructionView::Leap {
                            forward_amount: AmountView::Fixed(1),
                            spacebar_amount: AmountView::Fixed(1),
                            direction: 'w',
                        },
                    ),
                    at(1, InstructionView::ConsoleCommand { command: "warp "@ + loc }),
                ],
            },
            None => reply_view(
                "["@ + a[1]
                    + " is not a valid location! Map: https://sbf.fumocam.xyz/warp-map (Valid locations: "@
                    + list + ")]"@,
                true,
            ),
        }
    }
}

pub open spec fn size_plan(a: Seq<Seq<char>>, game: Seq<char>) -> PlanView {
    if a.len() < 2 {
        reply_view("[Specify a size! The default is 'base'. (doll, shimmy, base, deka)]"@, false)
    } else {
        let s = lowercase_of(a[1]);
        if !(s == "base"@ || s == "shimmy"@ || s == "doll"@ || s == "deka"@) {
            reply_view(
                "[Invalid size! Specify a size, the default is 'base'. (doll, shimmy, base, deka)]"@,
                false,
            )
        } else {
            PlanView::Enqueue {
                instructions: checked(
                    game,
                    InstructionView::ConsoleCommand {
                        command: "changefumo SBFCam Momiji "@ + capitalized(s),
                    },
                ),
            }
        }
    }
}

pub open spec fn hat_plan(a: Seq<Seq<char>>, cfg: BotConfig) -> PlanView {
    let list = cfg.valid_hat_types@;
    if a.len() < 2 {
        reply_view("[Specify a hat, or use !removehat. (Valid hats: "@ + list + ")]"@, false)
    } else {
        let req = lowercase_of(a[1]);
        match lookup(cfg.hat_types@, req) {
            Some(h) => PlanView::Enqueue {
                instructions: checked(
                    cfg.game_name@,
                    InstructionView::ConsoleCommand { command: "changehat me "@ + h },
                ),
            },
            None => reply_view("["@ + req + " is not a valid hat! (Valid hats: "@ + list + ")]"@, true),
        }
    }
}

/// A checked console command.
pub open spec fn console_plan(game: Seq<char>, command: Seq<char>) -> PlanView {
    PlanView::Enqueue {
        instructions: checked(game, InstructionView::ConsoleCommand { command }),
    }
}

/// What the bot does with command `c` from `sender`, given how its typed
/// numbers read.
pub open spec fn command_plan(
    c: CommandView,
    sender: Seq<char>,
    cfg: BotConfig,
    rd: Seq<NumberReading>,
) -> PlanView {
    let t = c.trigger;
    let a = c.args;
    let game = cfg.game_name@;
    if t == "ping"@ {
        PlanView::Pong
    } else if t == "help"@ {
        reply_view(help_text(), true)
    } else if t == "m"@ {
        let m = joined(a.skip(1), " "@);
        if m.len() == 0 {
            reply_view("[Specify a message! (i.e. !m hello)]"@, false)
        } else {
            PlanView::Relay { message: m }
        }
    } else if t == "a"@ {
        PlanView::Announce { message: joined(a.skip(1), " "@) }
    } else if t == "dev"@ {
        PlanView::Dev {
            message: sender + ": "@ + without_first(without_first(c.rest, "dev "@), "dev"@),
        }
    } else if t == "move"@ {
        move_plan(a, rd, game)
    } else if t == "warp"@ {
        warp_plan(a, cfg)
    } else if t == "left"@ {
        turn_plan(a, rd, game, "[Specify degrees to rotate! (i.e. !left 90)]"@, "360"@,
            " is not a valid number! Please specify a number, i.e. 90.]"@, false, false)
    } else if t == "right"@ {
        turn_plan(a, rd, game, "[Specify degrees to rotate! (i.e. !right 90)]"@, "360"@,
            " is not a valid number! Please specify a number, i.e. 90.]"@, false, true)
    } else if t == "up"@ {
        turn_plan(a, rd, game, "[Specify degrees to rotate! (i.e. !up 45)]"@, "180"@,
            " is not a valid number! Please specify a number, i.e. 45.]"@, true, false)
    } else if t == "down"@ {
        turn_plan(a, rd, game, "[Specify degrees to rotate! (i.e. !down 45)]"@, "180"@,
            " is not a valid number! Please specify a number, i.e. 45.]"@, true, true)
    } else if t == "zoomin"@ {
        zoom_plan(a, rd, game, "i"@, " is not a valid number! Please specify a number, i.e. 45.]"@)
    } else if t == "zoomout"@ {
        zoom_plan(a, rd, game, "o"@, " is not a valid number! Please specify a number, i.e. 50.]"@)
    } else if t == "leap"@ {
        leap_plan(a, rd, game)
    } else if t == "hidemouse"@ {
        PlanView::Enqueue { instructions: seq![at(0, InstructionView::HideMouse)] }
    } else if t == "jump"@ {
        PlanView::Enqueue {
            instructions: checked(
                game,
                InstructionView::Leap {
                    forward_amount: AmountView::Fixed(0),
                    spacebar_amount: AmountView::Fixed(1),
                    direction: 'w',
                },
            ),
        }
    } else if t == "grief"@ {
        PlanView::Enqueue { instructions: checked(game, InstructionView::Grief) }
    } else if t == "refresh"@ {
        console_plan(game, "re"@)
    } else if t == "die"@ {
        console_plan(game, "die"@)
    } else if t == "explode"@ {
        console_plan(game, "explode"@)
    } else if t == "sit"@ {
        PlanView::Enqueue { instructions: checked(game, InstructionView::Sit) }
    } else if t == "size"@ {
        size_plan(a, game)
    } else if t == "hat"@ {
        hat_plan(a, cfg)
    } else if t == "removehat"@ {
        console_plan(game, "changehat me none"@)
    } else if t == "rejoin"@ {
        PlanView::Rejoin
    } else {
        reply_view("[Not a valid command! Type !help for a list of commands.]"@, true)
    }
}

// ---------------------------------------------------------------------------
// Executable planning
// ---------------------------------------------------------------------------

fn reply_plan(text: &str, log: bool) -> (p: CommandPlan)
    ensures
        p@ == reply_view(text@, log),
{
    CommandPlan::Reply { text: owned(text), log }
}

fn reply_string(text: String, log: bool) -> (p: CommandPlan)
    ensures
        p@ == reply_view(text@, log),
{
    CommandPlan::Reply { text, log }
}

fn bracketed_exec(tok: &String, tail: &str) -> (r: String)
    ensures
        r@ == bracketed(tok@, tail@),
{
    concat3("[", tok.as_str(), tail)
}

fn too_far_exec(tok: &String, limit: &str) -> (r: String)
    ensures
        r@ == too_far(tok@, limit@),
{
    let mut r = concat3("[", tok.as_str(), " is too high/low! Please specify a number between 0 or ");
    r.append(limit);
    r.append(".]");
    r
}

fn checked_exec(game: &String, second: Instruction) -> (r: Vec<InstructionPair>)
    ensures
        pairs_view(r@) == checked(game@, second@),
{
    let mut v: Vec<InstructionPair> = Vec::new();
    v.push(pair(0, Instruction::CheckActive { window_title: game.clone() }));
    v.push(pair(1, second));
    assert(pairs_view(v@) =~= checked(game@, second@));
    v
}

fn typed_exec(tok: &String, negated: bool) -> (r: Amount)
    ensures
        r@ == typed(tok@, negated),
{
    Amount::Typed { text: tok.clone(), negated }
}

/// Whether the lowercase word is one of the given four.
fn one_of(w: &[char], a: &str, b: &str, c: &str, d: &str) -> (r: bool)
    ensures
        r == (w@ == a@ || w@ == b@ || w@ == c@ || w@ == d@),
{
    same_text(w, a) || same_text(w, b) || same_text(w, c) || same_text(w, d)
}

fn plan_move(cmd: &ChatCommand, rd: &Vec<NumberReading>, game: &String) -> (p: CommandPlan)
    requires
        rd@.len() == cmd@.args.len(),
    ensures
        p@ == move_plan(cmd@.args, rd@, game@),
{
    let ghost a = cmd@.args;
    if cmd.args.len() < 2 {
        return reply_plan("[Specify a direction! (i.e. !move w 1)]", false);
    }
    let d = lowercase(cmd.args[1].as_str());
    let dc = chars_of(d.as_str());
    if !one_of(&dc, "w", "a", "s", "d") {
        return reply_plan("[Invalid direction! Specify a proper direction. (w, a, s, d)]", false);
    }
    let duration = if cmd.args.len() > 2 {
        match rd[2] {
            NumberReading::OutOfRange => {
                return reply_string(too_far_exec(&cmd.args[2], "15"), false);
            },
            NumberReading::NotANumber => {
                return reply_string(
                    bracketed_exec(
                        &cmd.args[2],
                        " is not a valid number! Please specify a number or leave it blank.]",
                    ),
                    false,
                );
            },
            NumberReading::InRange => typed_exec(&cmd.args[2], false),
        }
    } else {
        Amount::Fixed(1)
    };
    CommandPlan::Enqueue {
        instructions: checked_exec(game, Instruction::MoveDirection { direction: d, duration }),
    }
}

fn plan_turn(
    cmd: &ChatCommand,
    rd: &Vec<NumberReading>,
    game: &String,
    usage: &str,
    limit: &str,
    tail: &str,
    vertical: bool,
    negated: bool,
) -> (p: CommandPlan)
    requires
        rd@.len() == cmd@.args.len(),
    ensures
        p@ == turn_plan(cmd@.args, rd@, game@, usage@, limit@, tail@, vertical, negated),
{
    if cmd.args.len() < 2 {
        return reply_plan(usage, false);
    }
    match rd[1] {
        NumberReading::OutOfRange => reply_string(too_far_exec(&cmd.args[1], limit), false),
        NumberReading::NotANumber => reply_string(bracketed_exec(&cmd.args[1], tail), false),
        NumberReading::InRange => {
            let amount = typed_exec(&cmd.args[1], negated);
            let second = if vertical {
                Instruction::MoveCameraY { y_ratio: amount }
            } else {
                Instruction::MoveCameraX { x_ratio: amount }
            };
            CommandPlan::Enqueue { instructions: checked_exec(game, second) }
        },
    }
}

fn plan_zoom(
    cmd: &ChatCommand,
    rd: &Vec<NumberReading>,
    game: &String,
    direction: &str,
    tail: &str,
) -> (p: CommandPlan)
    requires
        rd@.len() == cmd@.args.len(),
    ensures
        p@ == zoom_plan(cmd@.args, rd@, game@, direction@, tail@),
{
    if cmd.args.len() < 2 {
        return reply_plan("[Specify percent to zoom in! (i.e. !zoomin 50)]", false);
    }
    match rd[1] {
        NumberReading::OutOfRange => reply_string(too_far_exec(&cmd.args[1], "1000000"), false),
        NumberReading::NotANumber => reply_string(bracketed_exec(&cmd.args[1], tail), false),
        NumberReading::InRange => {
            let second = Instruction::ZoomCamera {
                direction: owned(direction),
                duration: typed_exec(&cmd.args[1], false),
            };
            CommandPlan::Enqueue { instructions: checked_exec(game, second) }
        },
    }
}

fn plan_leap(cmd: &ChatCommand, rd: &Vec<NumberReading>, game: &String) -> (p: CommandPlan)
    requires
        rd@.len() == cmd@.args.len(),
    ensures
        p@ == leap_plan(cmd@.args, rd@, game@),
{
    let n = cmd.args.len();
    let mut forward = Amount::Fixed(1);
    let mut space = Amount::Fixed(1);
    let mut direction: char = 'w';
    let mut dir_first = false;
    if n > 1 {
        match rd[1] {
            NumberReading::InRange => {
                forward = typed_exec(&cmd.args[1], false);
            },
            NumberReading::OutOfRange => {
                return reply_string(too_far_exec(&cmd.args[1], "2"), false);
            },
            NumberReading::NotANumber => {
                let low = lowercase(cmd.args[1].as_str());
                let lc = chars_of(low.as_str());
                if lc.len() != 1 {
                    return reply_string(
                        bracketed_exec(
                            &cmd.args[1],
                            " is not a valid number/direction! Please specify a number or leave it blank.]",
                        ),
                        false,
                    );
                }
                let c = lc[0];
                if c == 'w' || c == 'a' || c == 's' || c == 'd' {
                    direction = c;
                    dir_first = true;
                } else {
                    return reply_string(
                        bracketed_exec(
                            &cmd.args[1],
                            " is not a valid direction! Please specify a valid direction or leave it blank.]",
                        ),
                        false,
                    );
                }
            },
        }
    }
    if n > 2 {
        match rd[2] {
            NumberReading::InRange => {
                if dir_first {
                    forward = typed_exec(&cmd.args[2], false);
                } else {
                    space = typed_exec(&cmd.args[2], false);
                }
            },
            NumberReading::OutOfRange => {
                return reply_string(too_far_exec(&cmd.args[2], "2"), false);
            },
            NumberReading::NotANumber => {
                return reply_string(
                    bracketed_exec(
                        &cmd.args[2],
                        " is not a valid number! Please specify a number or leave it blank.]",
                    ),
                    false,
                );
            },
        }
    }
    if n > 3 && dir_first {
        match rd[3] {
            NumberReading::InRange => {
                space = typed_exec(&cmd.args[3], false);
            },
            NumberReading::OutOfRange => {
                return reply_string(too_far_exec(&cmd.args[3], "2"), false);
            },
            NumberReading::NotANumber => {
                return reply_string(
                    bracketed_exec(
                        &cmd.args[3],
                        " is not a valid number! Please specify a number or leave it blank.]",
                    ),
                    false,
                );
            },
        }
    }
    let second = Instruction::Leap { forward_amount: forward, spacebar_amount: space, direction };
    CommandPlan::Enqueue { instructions: checked_exec(game, second) }
}

fn plan_warp(cmd: &ChatCommand, config: &BotConfig) -> (p: CommandPlan)
    ensures
        p@ == warp_plan(cmd@.args, *config),
{
    if cmd.args.len() < 2 {
        let r = concat3(
            "[Specify a location! Map: https://sbf.fumocam.xyz/warp-map (Valid locations: ",
            config.valid_tp_locations.as_str(),
            ")]",
        );
        return reply_string(r, false);
    }
    let key = chars_of(cmd.args[1].as_str());
    match config.tp_locations.get(&key) {
        Some(loc) => {
            let mut v: Vec<InstructionPair> = Vec::new();
            v.push(pair(0, Instruction::CheckActive { window_title: config.game_name.clone() }));
            v.push(
                pair(
                    1,
                    Instruction::SystemChatMessage { message: concat3("[Warping to ", loc.as_str(), "!]") },
                ),
            );
            v.push(
                pair(
                    1,
                    Instruction::Leap {
                        forward_amount: Amount::Fixed(1),
                        spacebar_amount: Amount::Fixed(1),
                        direction: 'w',
                    },
                ),
            );
            v.push(pair(1, Instruction::ConsoleCommand { command: concat2("warp ", loc.as_str()) }));
            let p = CommandPlan::Enqueue { instructions: v };
            assert(p@ == warp_plan(cmd@.args, *config)) by {
                assert(pairs_view(v@) =~= seq![
                    at(0, InstructionView::CheckActive { window_title: config.game_name@ }),
                    at(1, InstructionView::SystemChatMessage { message: "[Warping to "@ + loc@ + "!]"@ }),
                    at(
                        1,
                        InstructionView::Leap {
                            forward_amount: AmountView::Fixed(1),
                            spacebar_amount: AmountView::Fixed(1),
                            direction: 'w',
                        },
                    ),
                    at(1, InstructionView::ConsoleCommand { command: "warp "@ + loc@ }),
                ]);
            }
            p
        },
        None => {
            let mut r = concat3(
                "[",
                cmd.args[1].as_str(),
                " is not a valid location! Map: https://sbf.fumocam.xyz/warp-map (Valid locations: ",
            );
            r.append(config.valid_tp_locations.as_str());
            r.append(")]");
            reply_string(r, true)
        },
    }
}

fn plan_size(cmd: &ChatCommand, game: &String) -> (p: CommandPlan)
    ensures
        p@ == size_plan(cmd@.args, game@),
{
    if cmd.args.len() < 2 {
        return reply_plan("[Specify a size! The default is 'base'. (doll, shimmy, base, deka)]", false);
    }
    let s = lowercase(cmd.args[1].as_str());
    let sc = chars_of(s.as_str());
    let cap = if same_text(&sc, "base") {
        proof {
            reveal_strlit("base");
        }
        capitalize_string("base")
    } else if same_text(&sc, "shimmy") {
        proof {
            reveal_strlit("shimmy");
        }
        capitalize_string("shimmy")
    } else if same_text(&sc, "doll") {
        proof {
            reveal_strlit("doll");
        }
        capitalize_string("doll")
    } else if same_text(&sc, "deka") {
        proof {
            reveal_strlit("deka");
        }
        capitalize_string("deka")
    } else {
        return reply_plan(
            "[Invalid size! Specify a size, the default is 'base'. (doll, shimmy, base, deka)]",
            false,
        );
    };
    let command = concat2("changefumo SBFCam Momiji ", cap.as_str());
    CommandPlan::Enqueue {
        instructions: checked_exec(game, Instruction::ConsoleCommand { command }),
    }
}

fn plan_hat(cmd: &ChatCommand, config: &BotConfig) -> (p: CommandPlan)
    ensures
        p@ == hat_plan(cmd@.args, *config),
{
    if cmd.args.len() < 2 {
        let r = concat3(
            "[Specify a hat, or use !removehat. (Valid hats: ",
            config.valid_hat_types.as_str(),
            ")]",
        );
        return reply_string(r, false);
    }
    let req = lowercase(cmd.args[1].as_str());
    let key = chars_of(req.as_str());
    match config.hat_types.get(&key) {
        Some(h) => {
            let command = concat2("changehat me ", h.as_str());
            CommandPlan::Enqueue {
                instructions: checked_exec(&config.game_name, Instruction::ConsoleCommand { command }),
            }
        },
        None => {
            let mut r = concat3("[", req.as_str(), " is not a valid hat! (Valid hats: ");
            r.append(config.valid_hat_types.as_str());
            r.append(")]");
            reply_string(r, true)
        },
    }
}

fn plan_console(game: &String, command: &str) -> (p: CommandPlan)
    ensures
        p@ == console_plan(game@, command@),
{
    CommandPlan::Enqueue {
        instructions: checked_exec(game, Instruction::ConsoleCommand { command: owned(command) }),
    }
}

fn plan_dev(cmd: &ChatCommand, sender: &str) -> (p: CommandPlan)
    ensures
        p@ == (PlanView::Dev {
            message: sender@ + ": "@ + without_first(without_first(cmd@.rest, "dev "@), "dev"@),
        }),
{
    let rest = chars_of(cmd.rest.as_str());
    let p1 = chars_of("dev ");
    let p2 = chars_of("dev");
    let once = remove_first(&rest, &p1);
    let twice = remove_first(&once, &p2);
    let body = string_of(&twice);
    CommandPlan::Dev { message: concat3(sender, ": ", body.as_str()) }
}

/// What the bot does with `cmd`, sent by `sender`. `readings` holds, for each
/// word of the command, how it reads as a number under the command's rule
/// (see `number_rule`); only the words that the command reads as numbers
/// matter.
pub fn plan_command(
    cmd: &ChatCommand,
    sender: &str,
    config: &BotConfig,
    readings: &Vec<NumberReading>,
) -> (p: CommandPlan)
    requires
        cmd@.args.len() > 0,
        readings@.len() == cmd@.args.len(),
    ensures
        p@ == command_plan(cmd@, sender@, *config, readings@),
{
    let t = chars_of(cmd.trigger.as_str());
    let game = &config.game_name;
    if same_text(&t, "ping") {
        CommandPlan::Pong
    } else if same_text(&t, "help") {
        reply_plan(
            "For a full list of commands, visit https://sbf.fumocam.xyz/commands . If you just want to play around, try '!m hello', '!move w 2', or '!warp poolside'",
            true,
        )
    } else if same_text(&t, "m") {
        let m = join_from(&cmd.args, 1, " ");
        if m.as_str().is_empty() {
            reply_plan("[Specify a message! (i.e. !m hello)]", false)
        } else {
            CommandPlan::Relay { message: m }
        }
    } else if same_text(&t, "a") {
        CommandPlan::Announce { message: join_from(&cmd.args, 1, " ") }
    } else if same_text(&t, "dev") {
        plan_dev(cmd, sender)
    } else if same_text(&t, "move") {
        plan_move(cmd, readings, game)
    } else if same_text(&t, "warp") {
        plan_warp(cmd, config)
    } else if same_text(&t, "left") {
        plan_turn(cmd, readings, game, "[Specify degrees to rotate! (i.e. !left 90)]", "360",
            " is not a valid number! Please specify a number, i.e. 90.]", false, false)
    } else if same_text(&t, "right") {
        plan_turn(cmd, readings, game, "[Specify degrees to rotate! (i.e. !right 90)]", "360",
            " is not a valid number! Please specify a number, i.e. 90.]", false, true)
    } else if same_text(&t, "up") {
        plan_turn(cmd, readings, game, "[Specify degrees to rotate! (i.e. !up 45)]", "180",
            " is not a valid number! Please specify a number, i.e. 45.]", true, false)
    } else if same_text(&t, "down") {
        plan_turn(cmd, readings, game, "[Specify degrees to rotate! (i.e. !down 45)]", "180",
            " is not a valid number! Please specify a number, i.e. 45.]", true, true)
    } else if same_text(&t, "zoomin") {
        plan_zoom(cmd, readings, game, "i", " is not a valid number! Please specify a number, i.e. 45.]")
    } else if same_text(&t, "zoomout") {
        plan_zoom(cmd, readings, game, "o", " is not a valid number! Please specify a number, i.e. 50.]")
    } else if same_text(&t, "leap") {
        plan_leap(cmd, readings, game)
    } else if same_text(&t, "hidemouse") {
        let mut v: Vec<InstructionPair> = Vec::new();
        v.push(pair(0, Instruction::HideMouse {  }));
        assert(pairs_view(v@) =~= seq![at(0, InstructionView::HideMouse)]);
        CommandPlan::Enqueue { instructions: v }
    } else if same_text(&t, "jump") {
        let second = Instruction::Leap {
            forward_amount: Amount::Fixed(0),
            spacebar_amount: Amount::Fixed(1),
            direction: 'w',
        };
        CommandPlan::Enqueue { instructions: checked_exec(game, second) }
    } else if same_text(&t, "grief") {
        CommandPlan::Enqueue { instructions: checked_exec(game, Instruction::Grief {  }) }
    } else if same_text(&t, "refresh") {
        plan_console(game, "re")
    } else if same_text(&t, "die") {
        plan_console(game, "die")
    } else if same_text(&t, "explode") {
        plan_console(game, "explode")
    } else if same_text(&t, "sit") {
        CommandPlan::Enqueue { instructions: checked_exec(game, Instruction::Sit {  }) }
    } else if same_text(&t, "size") {
        plan_size(cmd, game)
    } else if same_text(&t, "hat") {
        plan_hat(cmd, config)
    } else if same_text(&t, "removehat") {
        plan_console(game, "changehat me none")
    } else if same_text(&t, "rejoin") {
        CommandPlan::Rejoin
    } else {
        reply_plan("[Not a valid command! Type !help for a list of commands.]", true)
    }
}

} // verus!
