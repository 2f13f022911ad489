//! Properties that every chat command plan has.
use vstd::prelude::*;
use crate::instruction::{AmountView, InstructionView, PairView, at};
use crate::command::{
    CommandView, NumberReading, PlanView, command_plan, is_direction, leap_plan, move_plan,
    reply_view, rule_for,
};
use crate::text::lowercase_of;
use crate::config::BotConfig;

verus! {

/// Every batch that a chat command queues, but the one that hides the mouse,
/// begins by bringing the game window forward, at order 0.
pub open spec fn begins_with_window_check(instructions: Seq<PairView>, game: Seq<char>) -> bool {
    instructions.len() >= 2 && instructions[0] == at(0, InstructionView::CheckActive { window_title: game })
}

/// A queued chat command other than "hidemouse" first checks the game
/// window.
pub proof fn lemma_chat_batches_check_window(
    c: CommandView,
    sender: Seq<char>,
    cfg: BotConfig,
    rd: Seq<NumberReading>,
)
    requires
        c.trigger != "hidemouse"@,
    ensures
        command_plan(c, sender, cfg, rd) matches PlanView::Enqueue { instructions }
            ==> begins_with_window_check(instructions, cfg.game_name@),
{
}

/// How typed numbers read matters only to the commands that have a
/// number rule; for every other command the plan is the same whatever the
/// readings.
pub proof fn lemma_readings_matter_only_with_rule(
    c: CommandView,
    sender: Seq<char>,
    cfg: BotConfig,
    rd1: Seq<NumberReading>,
    rd2: Seq<NumberReading>,
)
    requires
        rule_for(c.trigger) is None,
    ensures
        command_plan(c, sender, cfg, rd1) == command_plan(c, sender, cfg, rd2),
{
}

/// A number typed by a viewer reaches the game only if it was read in range:
/// it is one of the command's words, and that word read `InRange`.
pub open spec fn amount_accepted(a: AmountView, args: Seq<Seq<char>>, rd: Seq<NumberReading>) -> bool {
    a matches AmountView::Typed { text, .. } ==> exists|i: int|
        1 <= i < args.len() && i < rd.len() && #[trigger] args[i] == text && rd[i] == NumberReading::InRange
}

/// Every typed amount of the instruction was accepted.
pub open spec fn instruction_accepted(i: InstructionView, args: Seq<Seq<char>>, rd: Seq<NumberReading>) -> bool {
    match i {
        InstructionView::Leap { forward_amount, spacebar_amount, .. } => amount_accepted(
            forward_amount,
            args,
            rd,
        ) && amount_accepted(spacebar_amount, args, rd),
        InstructionView::MoveCameraX { x_ratio } => amount_accepted(x_ratio, args, rd),
        InstructionView::MoveCameraY { y_ratio } => amount_accepted(y_ratio, args, rd),
        InstructionView::MoveDirection { duration, .. } => amount_accepted(duration, args, rd),
        InstructionView::ZoomCamera { duration, .. } => amount_accepted(duration, args, rd),
        _ => true,
    }
}

/// Every number that a chat command passes on to the game is a word of
/// the command that was read in range.
pub proof fn lemma_typed_numbers_accepted(
    c: CommandView,
    sender: Seq<char>,
    cfg: BotConfig,
    rd: Seq<NumberReading>,
)
    requires
        rd.len() == c.args.len(),
    ensures
        command_plan(c, sender, cfg, rd) matches PlanView::Enqueue { instructions } ==> forall|j: int|
            0 <= j < instructions.len() ==> instruction_accepted(#[trigger] instructions[j].instruction, c.args, rd),
{
    let p = command_plan(c, sender, cfg, rd);
    if let PlanView::Enqueue { instructions } = p {
        assert forall|j: int| 0 <= j < instructions.len() implies instruction_accepted(
            #[trigger] instructions[j].instruction,
            c.args,
            rd,
        ) by {
            let a = c.args;
            if a.len() > 1 {
                assert(a[1] == a[1]);
            }
            if a.len() > 2 {
                assert(a[2] == a[2]);
            }
            if a.len() > 3 {
                assert(a[3] == a[3]);
            }
        }
    }
}

/// The command words that the bot knows.
pub open spec fn known_trigger(t: Seq<char>) -> bool {
    ||| t == "ping"@ || t == "help"@ || t == "m"@ || t == "a"@ || t == "dev"@
    ||| t == "move"@ || t == "warp"@ || t == "left"@ || t == "right"@ || t == "up"@
    ||| t == "down"@ || t == "zoomin"@ || t == "zoomout"@ || t == "leap"@
    ||| t == "hidemouse"@ || t == "jump"@ || t == "grief"@ || t == "refresh"@ || t == "die"@
    ||| t == "explode"@ || t == "sit"@ || t == "size"@ || t == "hat"@ || t == "removehat"@
    ||| t == "rejoin"@
}

/// A command word that the bot does not know gets only the hint to type
/// !help, queues nothing, and the chat line is logged.
pub proof fn lemma_unknown_command_gets_hint(
    c: CommandView,
    sender: Seq<char>,
    cfg: BotConfig,
    rd: Seq<NumberReading>,
)
    requires
        !known_trigger(c.trigger),
    ensures
        command_plan(c, sender, cfg, rd) == reply_view(
            "[Not a valid command! Type !help for a list of commands.]"@,
            true,
        ),
{
}

/// The move command is planned by `move_plan`.
proof fn lemma_move_plans_move(c: CommandView, sender: Seq<char>, cfg: BotConfig, rd: Seq<NumberReading>)
    requires
        c.trigger == "move"@,
    ensures
        command_plan(c, sender, cfg, rd) == move_plan(c.args, rd, cfg.game_name@),
{
    reveal_strlit("move");
    reveal_strlit("ping");
    reveal_strlit("help");
    reveal_strlit("m");
    reveal_strlit("a");
    reveal_strlit("dev");
    assert("move"@ != "ping"@) by { assert("move"@[0] != "ping"@[0]); }
    assert("move"@ != "help"@) by { assert("move"@[0] != "help"@[0]); }
    assert("move"@ != "m"@) by { assert("move"@.len() != "m"@.len()); }
    assert("move"@ != "a"@) by { assert("move"@.len() != "a"@.len()); }
    assert("move"@ != "dev"@) by { assert("move"@.len() != "dev"@.len()); }
}

/// The four turn commands are told apart from every command tested before
/// them.
proof fn lemma_turn_words_distinct()
    ensures
        "left"@ != "ping"@,
        "left"@ != "help"@,
        "left"@ != "m"@,
        "left"@ != "a"@,
        "left"@ != "dev"@,
        "left"@ != "move"@,
        "left"@ != "warp"@,
        "right"@ != "ping"@,
        "right"@ != "help"@,
        "right"@ != "m"@,
        "right"@ != "a"@,
        "right"@ != "dev"@,
        "right"@ != "move"@,
        "right"@ != "warp"@,
        "right"@ != "left"@,
        "up"@ != "ping"@,
        "up"@ != "help"@,
        "up"@ != "m"@,
        "up"@ != "a"@,
        "up"@ != "dev"@,
        "up"@ != "move"@,
        "up"@ != "warp"@,
        "up"@ != "left"@,
        "up"@ != "right"@,
        "down"@ != "ping"@,
        "down"@ != "help"@,
        "down"@ != "m"@,
        "down"@ != "a"@,
        "down"@ != "dev"@,
        "down"@ != "move"@,
        "down"@ != "warp"@,
        "down"@ != "left"@,
        "down"@ != "right"@,
        "down"@ != "up"@,
{
    reveal_strlit("ping");
    reveal_strlit("help");
    reveal_strlit("m");
    reveal_strlit("a");
    reveal_strlit("dev");
    reveal_strlit("move");
    reveal_strlit("warp");
    reveal_strlit("left");
    reveal_strlit("right");
    reveal_strlit("up");
    reveal_strlit("down");
    assert("left"@ != "ping"@) by { assert("left"@[0] != "ping"@[0]); }
    assert("left"@ != "help"@) by { assert("left"@[0] != "help"@[0]); }
    assert("left"@ != "m"@) by { assert("left"@.len() != "m"@.len()); }
    assert("left"@ != "a"@) by { assert("left"@.len() != "a"@.len()); }
    assert("left"@ != "dev"@) by { assert("left"@.len() != "dev"@.len()); }
    assert("left"@ != "move"@) by { assert("left"@[0] != "move"@[0]); }
    assert("left"@ != "warp"@) by { assert("left"@[0] != "warp"@[0]); }
    assert("right"@ != "ping"@) by { assert("right"@.len() != "ping"@.len()); }
    assert("right"@ != "help"@) by { assert("right"@.len() != "help"@.len()); }
    assert("right"@ != "m"@) by { assert("right"@.len() != "m"@.len()); }
    assert("right"@ != "a"@) by { assert("right"@.len() != "a"@.len()); }
    assert("right"@ != "dev"@) by { assert("right"@.len() != "dev"@.len()); }
    assert("right"@ != "move"@) by { assert("right"@.len() != "move"@.len()); }
    assert("right"@ != "warp"@) by { assert("right"@.len() != "warp"@.len()); }
    assert("right"@ != "left"@) by { assert("right"@.len() != "left"@.len()); }
    assert("up"@ != "ping"@) by { assert("up"@.len() != "ping"@.len()); }
    assert("up"@ != "help"@) by { assert("up"@.len() != "help"@.len()); }
    assert("up"@ != "m"@) by { assert("up"@.len() != "m"@.len()); }
    assert("up"@ != "a"@) by { assert("up"@.len() != "a"@.len()); }
    assert("up"@ != "dev"@) by { assert("up"@.len() != "dev"@.len()); }
    assert("up"@ != "move"@) by { assert("up"@.len() != "move"@.len()); }
    assert("up"@ != "warp"@) by { assert("up"@.len() != "warp"@.len()); }
    assert("up"@ != "left"@) by { assert("up"@.len() != "left"@.len()); }
    assert("up"@ != "right"@) by { assert("up"@.len() != "right"@.len()); }
    assert("down"@ != "ping"@) by { assert("down"@[0] != "ping"@[0]); }
    assert("down"@ != "help"@) by { assert("down"@[0] != "help"@[0]); }
    assert("down"@ != "m"@) by { assert("down"@.len() != "m"@.len()); }
    assert("down"@ != "a"@) by { assert("down"@.len() != "a"@.len()); }
    assert("down"@ != "dev"@) by { assert("down"@.len() != "dev"@.len()); }
    assert("down"@ != "move"@) by { assert("down"@[0] != "move"@[0]); }
    assert("down"@ != "warp"@) by { assert("down"@[0] != "warp"@[0]); }
    assert("down"@ != "left"@) by { assert("down"@[0] != "left"@[0]); }
    assert("down"@ != "right"@) by { assert("down"@.len() != "right"@.len()); }
    assert("down"@ != "up"@) by { assert("down"@.len() != "up"@.len()); }
}

/// A move in a valid direction holds that direction's key (in lower case)
/// for the typed time, or for one second when no time is given.
pub proof fn lemma_move_direction(c: CommandView, sender: Seq<char>, cfg: BotConfig, rd: Seq<NumberReading>)
    requires
        c.trigger == "move"@,
        rd.len() == c.args.len(),
        c.args.len() >= 2,
        lowercase_of(c.args[1]) == "w"@ || lowercase_of(c.args[1]) == "a"@ || lowercase_of(
            c.args[1],
        ) == "s"@ || lowercase_of(c.args[1]) == "d"@,
        c.args.len() > 2 ==> rd[2] == NumberReading::InRange,
    ensures
        command_plan(c, sender, cfg, rd) == (PlanView::Enqueue {
            instructions: seq![
                at(0, InstructionView::CheckActive { window_title: cfg.game_name@ }),
                at(
                    1,
                    InstructionView::MoveDirection {
                        direction: lowercase_of(c.args[1]),
                        duration: if c.args.len() > 2 {
                            AmountView::Typed { text: c.args[2], negated: false }
                        } else {
                            AmountView::Fixed(1)
                        },
                    },
                ),
            ],
        }),
{
    lemma_move_plans_move(c, sender, cfg, rd);
}

/// The camera commands with a number read in range turn the camera by that
/// number: left and up by it, right and down by its negation; left and right
/// turn about the vertical axis, up and down about the horizontal one. So
/// "right x" undoes "left x", and "down x" undoes "up x".
pub proof fn lemma_turn_directions(c: CommandView, sender: Seq<char>, cfg: BotConfig, rd: Seq<NumberReading>)
    requires
        c.trigger == "left"@ || c.trigger == "right"@ || c.trigger == "up"@ || c.trigger == "down"@,
        rd.len() == c.args.len(),
        c.args.len() >= 2,
        rd[1] == NumberReading::InRange,
    ensures
        ({
            let amount = AmountView::Typed {
                text: c.args[1],
                negated: c.trigger == "right"@ || c.trigger == "down"@,
            };
            let turn = if c.trigger == "up"@ || c.trigger == "down"@ {
                InstructionView::MoveCameraY { y_ratio: amount }
            } else {
                InstructionView::MoveCameraX { x_ratio: amount }
            };
            command_plan(c, sender, cfg, rd) == PlanView::Enqueue {
                instructions: seq![
                    at(0, InstructionView::CheckActive { window_title: cfg.game_name@ }),
                    at(1, turn),
                ],
            }
        }),
{
    lemma_turn_words_distinct();
    reveal_strlit("left");
    reveal_strlit("right");
    reveal_strlit("up");
    reveal_strlit("down");
}

/// The leap command is planned by `leap_plan`.
proof fn lemma_leap_plans_leap(c: CommandView, sender: Seq<char>, cfg: BotConfig, rd: Seq<NumberReading>)
    requires
        c.trigger == "leap"@,
    ensures
        command_plan(c, sender, cfg, rd) == leap_plan(c.args, rd, cfg.game_name@),
{
    reveal_strlit("leap");
    reveal_strlit("ping");
    reveal_strlit("help");
    reveal_strlit("m");
    reveal_strlit("a");
    reveal_strlit("dev");
    reveal_strlit("move");
    reveal_strlit("warp");
    reveal_strlit("left");
    reveal_strlit("right");
    reveal_strlit("up");
    reveal_strlit("down");
    reveal_strlit("zoomin");
    reveal_strlit("zoomout");
    assert("leap"@ != "ping"@) by { assert("leap"@[0] != "ping"@[0]); }
    assert("leap"@ != "help"@) by { assert("leap"@[0] != "help"@[0]); }
    assert("leap"@ != "m"@) by { assert("leap"@.len() != "m"@.len()); }
    assert("leap"@ != "a"@) by { assert("leap"@.len() != "a"@.len()); }
    assert("leap"@ != "dev"@) by { assert("leap"@.len() != "dev"@.len()); }
    assert("leap"@ != "move"@) by { assert("leap"@[0] != "move"@[0]); }
    assert("leap"@ != "warp"@) by { assert("leap"@[0] != "warp"@[0]); }
    assert("leap"@ != "left"@) by { assert("leap"@[2] != "left"@[2]); }
    assert("leap"@ != "right"@) by { assert("leap"@.len() != "right"@.len()); }
    assert("leap"@ != "up"@) by { assert("leap"@.len() != "up"@.len()); }
    assert("leap"@ != "down"@) by { assert("leap"@[0] != "down"@[0]); }
    assert("leap"@ != "zoomin"@) by { assert("leap"@.len() != "zoomin"@.len()); }
    assert("leap"@ != "zoomout"@) by { assert("leap"@.len() != "zoomout"@.len()); }
}

/// A leap whose first word is a direction key holds that key for the time
/// given by the second word and the space bar for the time given by the
/// third, one second for each time not given; the leap goes in that
/// direction.
pub proof fn lemma_leap_with_direction(
    c: CommandView,
    sender: Seq<char>,
    cfg: BotConfig,
    rd: Seq<NumberReading>,
)
    requires
        c.trigger == "leap"@,
        rd.len() == c.args.len(),
        c.args.len() >= 2,
        rd[1] == NumberReading::NotANumber,
        lowercase_of(c.args[1]).len() == 1,
        is_direction(lowercase_of(c.args[1])[0]),
        forall|i: int| 2 <= i < c.args.len() ==> #[trigger] rd[i] == NumberReading::InRange,
    ensures
        command_plan(c, sender, cfg, rd) == (PlanView::Enqueue {
            instructions: seq![
                at(0, InstructionView::CheckActive { window_title: cfg.game_name@ }),
                at(
                    1,
                    InstructionView::Leap {
                        forward_amount: if c.args.len() > 2 {
                            AmountView::Typed { text: c.args[2], negated: false }
                        } else {
                            AmountView::Fixed(1)
                        },
                        spacebar_amount: if c.args.len() > 3 {
                            AmountView::Typed { text: c.args[3], negated: false }
                        } else {
                            AmountView::Fixed(1)
                        },
                        direction: lowercase_of(c.args[1])[0],
                    },
                ),
            ],
        }),
{
    lemma_leap_plans_leap(c, sender, cfg, rd);
    if c.args.len() > 2 {
        assert(rd[2] == NumberReading::InRange);
    }
    if c.args.len() > 3 {
        assert(rd[3] == NumberReading::InRange);
    }
}

/// A leap whose first word is a time holds the 'w' key for that time and the
/// space bar for the time given by the second word, one second when it is
/// not given.
pub proof fn lemma_leap_with_times(
    c: CommandView,
    sender: Seq<char>,
    cfg: BotConfig,
    rd: Seq<NumberReading>,
)
    requires
        c.trigger == "leap"@,
        rd.len() == c.args.len(),
        c.args.len() >= 2,
        rd[1] == NumberReading::InRange,
        c.args.len() > 2 ==> rd[2] == NumberReading::InRange,
    ensures
        command_plan(c, sender, cfg, rd) == (PlanView::Enqueue {
            instructions: seq![
                at(0, InstructionView::CheckActive { window_title: cfg.game_name@ }),
                at(
                    1,
                    InstructionView::Leap {
                        forward_amount: AmountView::Typed { text: c.args[1], negated: false },
                        spacebar_amount: if c.args.len() > 2 {
                            AmountView::Typed { text: c.args[2], negated: false }
                        } else {
                            AmountView::Fixed(1)
                        },
                        direction: 'w',
                    },
                ),
            ],
        }),
{
    lemma_leap_plans_leap(c, sender, cfg, rd);
}

} // verus!
