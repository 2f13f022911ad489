//! The steps that follow a planned command once the outside world has
//! answered: moderator checks, relaying chat into the game through the
//! censor service, announcements, developer alerts and rejoin requests.
use vstd::prelude::*;
use vstd::string::*;
use crate::text::{
    chars_of, concat3, lowercase, lowercase_of, owned, starts_with_text, capitalize_string,
    is_ascii_char, same_string,
};
use crate::instruction::{Instruction, InstructionPair, InstructionView, pair, pairs_view};
use crate::command::{CommandPlan, PlanView, checked, capitalized, reply_view};
use crate::hud::{json_quote, json_quoted};

verus! {

broadcast use vstd::seq_lib::group_seq_properties;

/// The chat relay's test of the moderator: the sender's name in lower case
/// against the lower case of the (already lowered) moderator name.
pub open spec fn relay_moderator(sender: Seq<char>, moderator: Seq<char>) -> bool {
    lowercase_of(sender) == lowercase_of(lowercase_of(moderator))
}

/// The announce and rejoin commands' test of the moderator: both names are
/// lowered twice.
pub open spec fn command_moderator(sender: Seq<char>, moderator: Seq<char>) -> bool {
    lowercase_of(lowercase_of(sender)) == lowercase_of(lowercase_of(moderator))
}

/// A message that only the moderator may relay: a chat command other than
/// "/e" and "/animspeed", or a bracketed system-style message.
pub open spec fn restricted(m: Seq<char>) -> bool {
    ||| "/"@.is_prefix_of(m) && !"/e"@.is_prefix_of(m) && !"/animspeed"@.is_prefix_of(m)
    ||| "["@.is_prefix_of(m)
}

/// Whether `sender` may relay `message` into the game.
pub fn relay_permitted(message: &String, sender: &str, moderator: &str) -> (r: bool)
    ensures
        r == (relay_moderator(sender@, moderator@) || !restricted(message@)),
{
    let s = lowercase(sender);
    let m1 = lowercase(moderator);
    let m2 = lowercase(m1.as_str());
    if same_string(&s, &m2) {
        return true;
    }
    let mc = chars_of(message.as_str());
    let slash = starts_with_text(&mc, "/");
    let emote = starts_with_text(&mc, "/e");
    let speed = starts_with_text(&mc, "/animspeed");
    let bracket = starts_with_text(&mc, "[");
    !((slash && !emote && !speed) || bracket)
}

/// The answer to a relay that the sender may not make.
pub fn relay_denial() -> (r: String)
    ensures
        r@ == "[You cannot run commands other than /e or /animspeed!]"@,
{
    owned("[You cannot run commands other than /e or /animspeed!]")
}

/// The developer alert when the game window cannot be brought forward.
pub fn focus_lost_alert() -> (r: String)
    ensures
        r@ == "Failed to find Roblox!"@,
{
    owned("Failed to find Roblox!")
}

/// The chat answer when the game window cannot be brought forward.
pub fn focus_lost_reply() -> (r: String)
    ensures
        r@ == "[Failed to find Roblox! Notified dev.]"@,
{
    owned("[Failed to find Roblox! Notified dev.]")
}

/// Where a permitted relay goes once the game window has been checked.
#[derive(Debug)]
pub enum RelayRoute {
    /// The game window is not there: alert the developer and say so.
    FocusLost,
    /// A chat command: type it into the game as it is.
    Command { instructions: Vec<InstructionPair> },
    /// A chat message: ask the censor service first.
    Censor,
}

/// The route of a permitted relay of `message`, given whether the game
/// window could be brought forward.
pub fn relay_route(message: &String, game: &String, game_active: bool) -> (r: RelayRoute)
    ensures
        !game_active ==> r is FocusLost,
        game_active && "/"@.is_prefix_of(message@) ==> (r matches RelayRoute::Command { instructions }
            && pairs_view(instructions@) == checked(
            game@,
            InstructionView::SystemChatMessage { message: message@ },
        )),
        game_active && !"/"@.is_prefix_of(message@) ==> r is Censor,
{
    if !game_active {
        return RelayRoute::FocusLost;
    }
    let mc = chars_of(message.as_str());
    if starts_with_text(&mc, "/") {
        let mut v: Vec<InstructionPair> = Vec::new();
        v.push(pair(0, Instruction::CheckActive { window_title: game.clone() }));
        v.push(pair(1, Instruction::SystemChatMessage { message: message.clone() }));
        assert(pairs_view(v@) =~= checked(
            game@,
            InstructionView::SystemChatMessage { message: message@ },
        ));
        RelayRoute::Command { instructions: v }
    } else {
        RelayRoute::Censor
    }
}

/// What the censor service answers for a chat message: the (possibly
/// renamed) author, the (possibly rewritten) message, the bot's own replies,
/// and whether the message may go into the game.
#[derive(Debug)]
pub struct CensorClientReturn {
    pub username: String,
    pub message: String,
    pub bot_reply_message: Vec<String>,
    pub send_users_message: bool,
}

/// The JSON body of a request to the censor service: the chat message and
/// its author, members in sorted order.
pub fn censor_request_body(username: &str, message: &str) -> (r: String)
    ensures
        r@ == "{\"message\":"@ + json_quoted(message@) + ",\"username\":"@ + json_quoted(username@)
            + "}"@,
{
    let m = json_quote(message);
    let u = json_quote(username);
    let mut r = concat3("{\"message\":", m.as_str(), ",\"username\":");
    r.append(u.as_str());
    r.append("}");
    r
}

/// How the call to the censor service ended: it failed (with its error
/// described), it gave no usable answer, or it answered.
#[derive(Debug)]
pub enum CensorOutcome {
    Failed { detail: String },
    Unavailable,
    Answered(CensorClientReturn),
}

/// What follows the censor service's answer: an optional developer alert,
/// the chat replies in order, and the instructions to queue, if any. The chat
/// line is logged exactly when instructions are queued.
#[derive(Debug)]
pub struct CensorStep {
    pub alert: Option<String>,
    pub replies: Vec<String>,
    pub instructions: Option<Vec<InstructionPair>>,
}

pub open spec fn censor_failure_text() -> Seq<char> {
    "[Something went wrong, can't send a message. Contacting dev...]"@
}

/// The step that follows the censor service's `outcome`.
pub fn censor_follow_up(outcome: CensorOutcome, game: &String) -> (r: CensorStep)
    ensures
        match outcome {
            CensorOutcome::Failed { detail } => {
                &&& r.alert matches Some(a) && a@ == "[Censor Client Error - Main]\n```"@ + detail@
                    + "```"@
                &&& r.replies.deep_view() == seq![censor_failure_text()]
                &&& r.instructions is None
            },
            CensorOutcome::Unavailable => {
                &&& r.alert is None
                &&& r.replies.deep_view() == seq![censor_failure_text()]
                &&& r.instructions is None
            },
            CensorOutcome::Answered(c) => {
                &&& r.alert is None
                &&& r.replies.deep_view() == c.bot_reply_message.deep_view()
                &&& c.send_users_message ==> (r.instructions matches Some(v) && pairs_view(v@)
                    == checked(
                    game@,
                    InstructionView::UserChatMessage { author: c.username@ + ":"@, message: c.message@ },
                ))
                &&& !c.send_users_message ==> r.instructions is None
            },
        },
{
    match outcome {
        CensorOutcome::Failed { detail } => {
            let alert = concat3("[Censor Client Error - Main]\n```", detail.as_str(), "```");
            let mut replies: Vec<String> = Vec::new();
            replies.push(owned("[Something went wrong, can't send a message. Contacting dev...]"));
            assert(replies.deep_view() =~= seq![censor_failure_text()]);
            CensorStep { alert: Some(alert), replies, instructions: None }
        },
        CensorOutcome::Unavailable => {
            let mut replies: Vec<String> = Vec::new();
            replies.push(owned("[Something went wrong, can't send a message. Contacting dev...]"));
            assert(replies.deep_view() =~= seq![censor_failure_text()]);
            CensorStep { alert: None, replies, instructions: None }
        },
        CensorOutcome::Answered(c) => {
            let CensorClientReturn { username, message, bot_reply_message, send_users_message } = c;
            if send_users_message {
                let mut author = username;
                author.append(":");
                let ghost av = author@;
                let ghost mv = message@;
                let mut v: Vec<InstructionPair> = Vec::new();
                v.push(pair(0, Instruction::CheckActive { window_title: game.clone() }));
                v.push(pair(1, Instruction::UserChatMessage { author, message }));
                assert(pairs_view(v@) =~= checked(
                    game@,
                    InstructionView::UserChatMessage { author: av, message: mv },
                ));
                CensorStep { alert: None, replies: bot_reply_message, instructions: Some(v) }
            } else {
                CensorStep { alert: None, replies: bot_reply_message, instructions: None }
            }
        },
    }
}

/// The announcement of `message`: refused unless the sender is the
/// moderator, refused when empty, otherwise typed into the game in brackets
/// with its first letter capitalised.
pub open spec fn announce_plan(
    message: Seq<char>,
    sender: Seq<char>,
    moderator: Seq<char>,
    game: Seq<char>,
) -> PlanView {
    if !command_moderator(sender, moderator) {
        reply_view("[You do not have permissions to run this!]"@, false)
    } else if message.len() == 0 {
        reply_view("[Specify a message! (i.e. !a hello)]"@, false)
    } else {
        PlanView::Enqueue {
            instructions: checked(
                game,
                InstructionView::SystemChatMessage { message: "["@ + capitalized(message) + "]"@ },
            ),
        }
    }
}

/// An announcement that the bot cannot make: the moderator's message
/// starts with a character outside ASCII, whose first byte cannot be sliced
/// off for capitalising.
pub open spec fn announce_panics(message: Seq<char>, sender: Seq<char>, moderator: Seq<char>) -> bool {
    command_moderator(sender, moderator) && message.len() > 0 && !is_ascii_char(message[0])
}

/// Whether announcing `message` would stop the bot with a panic.
pub fn announce_would_panic(message: &String, sender: &str, moderator: &str) -> (r: bool)
    ensures
        r == announce_panics(message@, sender@, moderator@),
{
    if !is_command_moderator(sender, moderator) {
        return false;
    }
    let mc = chars_of(message.as_str());
    mc.len() > 0 && (mc[0] as u32) >= 128
}

/// Whether `sender` is the moderator for the announce and rejoin commands.
pub fn is_command_moderator(sender: &str, moderator: &str) -> (r: bool)
    ensures
        r == command_moderator(sender@, moderator@),
{
    let s1 = lowercase(sender);
    let s2 = lowercase(s1.as_str());
    let m1 = lowercase(moderator);
    let m2 = lowercase(m1.as_str());
    same_string(&s2, &m2)
}

/// What the announce command does with `message` from `sender`.
pub fn announce_decision(message: &String, sender: &str, moderator: &str, game: &String) -> (p:
    CommandPlan)
    requires
        !announce_panics(message@, sender@, moderator@),
    ensures
        p@ == announce_plan(message@, sender@, moderator@, game@),
{
    if !is_command_moderator(sender, moderator) {
        return CommandPlan::Reply { text: owned("[You do not have permissions to run this!]"), log: false };
    }
    if message.as_str().is_empty() {
        return CommandPlan::Reply { text: owned("[Specify a message! (i.e. !a hello)]"), log: false };
    }
    let cap = capitalize_string(message.as_str());
    let text = concat3("[", cap.as_str(), "]");
    let mut v: Vec<InstructionPair> = Vec::new();
    v.push(pair(0, Instruction::CheckActive { window_title: game.clone() }));
    v.push(pair(1, Instruction::SystemChatMessage { message: text }));
    assert(pairs_view(v@) =~= checked(
        game@,
        InstructionView::SystemChatMessage { message: "["@ + capitalized(message@) + "]"@ },
    ));
    CommandPlan::Enqueue { instructions: v }
}

/// The answer to a developer alert, by whether the alert went out.
pub fn dev_reply(notified: bool) -> (r: String)
    ensures
        notified ==> r@
            == "[Notified dev! As a reminder, this command is only for emergencies. If you were unaware of this and used the command by mistake, please write a message explaining that or you may be timed-out/banned.]"@,
        !notified ==> r@ == "[Error! Was unable to notify dev. Please join the Discord and ping CamDev.]"@,
{
    if notified {
        owned(
            "[Notified dev! As a reminder, this command is only for emergencies. If you were unaware of this and used the command by mistake, please write a message explaining that or you may be timed-out/banned.]",
        )
    } else {
        owned("[Error! Was unable to notify dev. Please join the Discord and ping CamDev.]")
    }
}

/// The answer to a rejoin request: refused for anyone but the moderator,
/// otherwise by whether the rejoin was queued.
pub fn rejoin_reply(permitted: bool, queued: bool) -> (r: String)
    ensures
        !permitted ==> r@ == "[You do not have permissions to run this!]"@,
        permitted && queued ==> r@ == "[Rejoin queued successfully!]"@,
        permitted && !queued ==> r@ == "[Failed to queue rejoin, Roblox API may be down!]"@,
{
    if !permitted {
        owned("[You do not have permissions to run this!]")
    } else if queued {
        owned("[Rejoin queued successfully!]")
    } else {
        owned("[Failed to queue rejoin, Roblox API may be down!]")
    }
}

/// The overlay text and the chat answer of the ping command.
pub fn pong_texts() -> (r: (String, String))
    ensures
        r.0@ == "ping"@,
        r.1@ == "pong"@,
{
    (owned("ping"), owned("pong"))
}

} // verus!

verus! {

/// Only the moderator can relay a chat command other than "/e" and
/// "/animspeed", or a message in brackets.
pub proof fn lemma_restricted_needs_moderator(message: Seq<char>, sender: Seq<char>, moderator: Seq<char>)
    requires
        restricted(message),
        !relay_moderator(sender, moderator),
    ensures
        !(relay_moderator(sender, moderator) || !restricted(message)),
{
}

/// An announcement that goes ahead types exactly one bracketed line,
/// after the window check.
pub proof fn lemma_announcement_is_bracketed(
    message: Seq<char>,
    sender: Seq<char>,
    moderator: Seq<char>,
    game: Seq<char>,
)
    requires
        command_moderator(sender, moderator),
        message.len() > 0,
    ensures
        ({
            &&& announce_plan(message, sender, moderator, game) matches PlanView::Enqueue { instructions }
            &&& instructions.len() == 2
            &&& instructions[1].instruction matches InstructionView::SystemChatMessage { message: m }
            &&& "["@.is_prefix_of(m)
            &&& m.last() == ']'
        }),
{
    reveal_strlit("[");
    reveal_strlit("]");
    let m = "["@ + capitalized(message) + "]"@;
    assert(m.subrange(0, 1) =~= "["@);
}

} // verus!
