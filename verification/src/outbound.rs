//! What the bot types into the game and sends to its webhooks: chat
//! keystrokes, the timing of a leap, and the texts of log and alert posts.
use vstd::prelude::*;
use vstd::string::*;
use crate::text::{chars_of, concat2, concat3, lowercase, lowercase_of, owned, starts_with_text};
use crate::hud::{json_quote, json_quoted};

verus! {

/// The keystrokes of a system chat line: a chat command ('/' first) as it
/// is, any other text with a trailing space so that the game does not cut
/// its end off.
pub open spec fn chat_keys(msg: Seq<char>) -> Seq<char> {
    if "/"@.is_prefix_of(msg) {
        msg
    } else {
        msg + " "@
    }
}

/// The keystrokes typed for a system chat line.
pub fn chat_keystrokes(msg: &str) -> (r: String)
    ensures
        r@ == chat_keys(msg@),
{
    let c = chars_of(msg);
    if starts_with_text(&c, "/") {
        owned(msg)
    } else {
        concat2(msg, " ")
    }
}

/// The two chat lines typed for a viewer's message: the author, then the
/// message, each with a trailing space.
pub fn user_chat_keystrokes(author: &str, msg: &str) -> (r: (String, String))
    ensures
        r.0@ == author@ + " "@,
        r.1@ == msg@ + " "@,
{
    (concat2(author, " "), concat2(msg, " "))
}

/// The key choreography of a leap: both keys go down together; the key held
/// for the shorter time comes up first, the other after the difference.
#[derive(Debug, PartialEq, Eq)]
pub struct LeapSchedule {
    /// The space bar comes up first (otherwise the direction key does).
    pub space_first: bool,
    /// Milliseconds until the first key comes up.
    pub first_wait: u64,
    /// Milliseconds from then until the second key comes up.
    pub second_wait: u64,
}

/// The leap choreography for holding the direction key `forward_ms` and the
/// space bar `spacebar_ms` milliseconds.
pub fn leap_schedule(forward_ms: u64, spacebar_ms: u64) -> (r: LeapSchedule)
    ensures
        forward_ms >= spacebar_ms ==> r == (LeapSchedule {
            space_first: true,
            first_wait: spacebar_ms,
            second_wait: (forward_ms - spacebar_ms) as u64,
        }),
        forward_ms < spacebar_ms ==> r == (LeapSchedule {
            space_first: false,
            first_wait: forward_ms,
            second_wait: (spacebar_ms - forward_ms) as u64,
        }),
        r.first_wait + r.second_wait == if forward_ms >= spacebar_ms {
            forward_ms
        } else {
            spacebar_ms
        },
{
    if forward_ms >= spacebar_ms {
        LeapSchedule { space_first: true, first_wait: spacebar_ms, second_wait: forward_ms - spacebar_ms }
    } else {
        LeapSchedule { space_first: false, first_wait: forward_ms, second_wait: spacebar_ms - forward_ms }
    }
}

/// The viewer card of a chat author, used as the author link of log posts.
pub fn author_url(author: &str) -> (r: String)
    ensures
        r@ == "https://www.twitch.tv/popout/sbfcam/viewercard/"@ + lowercase_of(author@),
{
    let low = lowercase(author);
    concat2("https://www.twitch.tv/popout/sbfcam/viewercard/", low.as_str())
}

/// The avatar shown beside the author of a log post.
pub open spec fn author_avatar() -> Seq<char> {
    "https://brand.twitch.tv/assets/images/black.png"@
}

/// The JSON body of a log post: one embed with the message as its
/// description and the chat author, with link and avatar, as its author;
/// members in sorted order.
pub open spec fn log_post_json(message: Seq<char>, author: Seq<char>) -> Seq<char> {
    "{\"embeds\":[{\"author\":{\"icon_url\":"@ + json_quoted(author_avatar()) + ",\"name\":"@
        + json_quoted(author) + ",\"url\":"@ + json_quoted(
        "https://www.twitch.tv/popout/sbfcam/viewercard/"@ + lowercase_of(author),
    ) + "},\"description\":"@ + json_quoted(message) + "}]}"@
}

/// The JSON body posted to a log webhook for `message` by `author`.
pub fn log_post_body(message: &str, author: &str) -> (r: String)
    ensures
        r@ == log_post_json(message@, author@),
{
    let avatar = json_quote("https://brand.twitch.tv/assets/images/black.png");
    let name = json_quote(author);
    let url = author_url(author);
    let link = json_quote(url.as_str());
    let description = json_quote(message);
    let mut r = concat3("{\"embeds\":[{\"author\":{\"icon_url\":", avatar.as_str(), ",\"name\":");
    r.append(name.as_str());
    r.append(",\"url\":");
    r.append(link.as_str());
    r.append("},\"description\":");
    r.append(description.as_str());
    r.append("}]}");
    r
}

/// The environment variable that holds the webhook for a log post: the
/// chat log for relayed chat, the general log otherwise.
pub fn log_webhook_variable(is_chat_log: bool) -> (r: String)
    ensures
        is_chat_log ==> r@ == "DISCORD_CHAT_LOG_WEBHOOK_URL"@,
        !is_chat_log ==> r@ == "DISCORD_LOG_WEBHOOK_URL"@,
{
    if is_chat_log {
        owned("DISCORD_CHAT_LOG_WEBHOOK_URL")
    } else {
        owned("DISCORD_LOG_WEBHOOK_URL")
    }
}

/// The content of a developer alert: a mention of the developer, the
/// message, and a link to the stream.
pub fn admin_alert_content(discord_id: &str, message: &str) -> (r: String)
    ensures
        r@ == "<@"@ + discord_id@ + ">\n"@ + message@ + "\n<https://twitch.tv/sbfcam>"@,
{
    let mut r = concat3("<@", discord_id, ">\n");
    r.append(message);
    r.append("\n<https://twitch.tv/sbfcam>");
    r
}

/// The JSON body posted to the alert webhook: the alert content as its
/// only member.
pub fn admin_alert_body(discord_id: &str, message: &str) -> (r: String)
    ensures
        r@ == "{\"content\":"@ + json_quoted(
            "<@"@ + discord_id@ + ">\n"@ + message@ + "\n<https://twitch.tv/sbfcam>"@,
        ) + "}"@,
{
    let content = admin_alert_content(discord_id, message);
    let q = json_quote(content.as_str());
    concat3("{\"content\":", q.as_str(), "}")
}

/// The developer alert when the censor service answers with an error status.
pub fn censor_status_alert(body: &str) -> (r: String)
    ensures
        r@ == "[Censor Client Error - Response Status]\n```"@ + body@ + "```"@,
{
    concat3("[Censor Client Error - Response Status]\n```", body, "```")
}

/// The developer alert when the censor service's answer is not the JSON
/// expected: the parse error as described, then the answer itself.
pub fn censor_json_alert(detail: &str, body: &str) -> (r: String)
    ensures
        r@ == "[Censor Client Error - JSON]\n"@ + detail@ + "\n```"@ + body@ + "```"@,
{
    let mut r = concat3("[Censor Client Error - JSON]\n", detail, "\n```");
    r.append(body);
    r.append("```");
    r
}

/// The console command that warps to a location.
pub fn warp_command(location: &str) -> (r: String)
    ensures
        r@ == "warp "@ + location@,
{
    concat2("warp ", location)
}

} // verus!
