//! The stream overlay: the overlay clients connected over websockets and the
//! messages the bot sends them.
use vstd::prelude::*;
use std::collections::HashMap;
use crate::text::{copy_string, concat3};
use crate::servers::{decimal, decimal_string};

verus! {

broadcast use vstd::std_specs::hash::group_hash_axioms;

/// An event for the overlay: a client connects (with the handle `R` that
/// reaches it) or disconnects, a client sends text or bytes, or the bot
/// has a message for every client.
pub enum HUDInstruction<R> {
    AddClient { client_id: u64, responder: R },
    RemoveClient { client_id: u64 },
    ClientMessage { message: String },
    ClientBinaryMessage { binary_message: Vec<u8> },
    GenericMessage { message: String },
    TimedMessage { message: String, time: u64 },
    SystemMonitorUpdate { data: String },
}

/// A message for every overlay client: plain text, a message shown for a
/// number of seconds, or a hardware report.
#[derive(Debug, PartialEq, Eq)]
pub enum HudPayload {
    Text { message: String },
    Timed { message: String, seconds: u64 },
    Monitor { data: String },
}

/// How JSON writes one character inside a string: quote and backslash
/// behind a backslash, the usual short escapes, any other control character
/// as `\u00` and two lowercase hex digits, everything else as it is.
pub open spec fn json_escape_char(c: char) -> Seq<char> {
    if c == '"' {
        "\\\""@
    } else if c == '\\' {
        "\\\\"@
    } else if c == '\u{8}' {
        "\\b"@
    } else if c == '\t' {
        "\\t"@
    } else if c == '\n' {
        "\\n"@
    } else if c == '\u{c}' {
        "\\f"@
    } else if c == '\r' {
        "\\r"@
    } else if (c as u32) < 0x20 {
        "\\u00"@ + seq![hex_digit((c as u32) / 16), hex_digit((c as u32) % 16)]
    } else {
        seq![c]
    }
}

/// The lowercase hex digit of `d`, below 16.
pub open spec fn hex_digit(d: u32) -> char {
    if d < 10 {
        (('0' as u32) + d) as char
    } else {
        (('a' as u32) + d - 10) as char
    }
}

/// The characters of `s`, each written as inside a JSON string.
pub open spec fn json_escaped(s: Seq<char>) -> Seq<char>
    decreases s.len(),
{
    if s.len() == 0 {
        Seq::empty()
    } else {
        json_escaped(s.drop_last()) + json_escape_char(s.last())
    }
}

/// `s` as a JSON string: escaped and in double quotes.
pub open spec fn json_quoted(s: Seq<char>) -> Seq<char> {
    "\""@ + json_escaped(s) + "\""@
}

/// `serde_json::to_string` on a string slice: the slice as a JSON string.
/// Its source writes a double quote, each character as its escape table
/// says (quote, backslash and the control characters below 0x20 escaped,
/// the short forms `\b \t \n \f \r` where they exist, `\u00XX` with
/// lowercase hex otherwise), and a closing quote. Its documentation says it
/// fails only where a value's `Serialize` implementation fails or a map has
/// non-string keys, neither of which a string slice can do; the empty
/// string stands in for that failure here.
#[verifier::external_body]
pub(crate) fn json_quote(s: &str) -> (r: String)
    ensures
        r@ == json_quoted(s@),
{
    serde_json::to_string(s).unwrap_or_default()
}

/// The text sent to the overlay clients for a payload: plain text as it is;
/// a timed message and a hardware report as compact JSON objects, their keys
/// in sorted order.
pub open spec fn payload_text_spec(p: HudPayload) -> Seq<char> {
    match p {
        HudPayload::Text { message } => message@,
        HudPayload::Timed { message, seconds } => "{\"type\":\"timed_message\",\"value\":{\"message\":"@
            + json_quoted(message@) + ",\"seconds\":"@ + decimal(seconds as nat) + "}}"@,
        HudPayload::Monitor { data } => "{\"type\":\"system_monitor_update\",\"value\":{\"data\":"@
            + json_quoted(data@) + "}}"@,
    }
}

/// The text sent to every overlay client for `p`.
pub fn payload_text(p: &HudPayload) -> (r: String)
    ensures
        r@ == payload_text_spec(*p),
{
    match p {
        HudPayload::Text { message } => copy_string(message),
        HudPayload::Timed { message, seconds } => {
            let q = json_quote(message.as_str());
            let mut r = concat3(
                "{\"type\":\"timed_message\",\"value\":{\"message\":",
                q.as_str(),
                ",\"seconds\":",
            );
            let n = decimal_string(*seconds);
            r.append(n.as_str());
            r.append("}}");
            r
        },
        HudPayload::Monitor { data } => {
            let q = json_quote(data.as_str());
            concat3("{\"type\":\"system_monitor_update\",\"value\":{\"data\":", q.as_str(), "}}")
        },
    }
}

/// What the overlay loop does with an event besides updating its clients.
#[derive(Debug, PartialEq, Eq)]
pub enum HudEffect {
    /// Nothing more.
    Quiet,
    /// Show text a client sent.
    ShowText { message: String },
    /// Show bytes a client sent.
    ShowBytes { bytes: Vec<u8> },
    /// Send the payload to every connected client.
    Broadcast { payload: HudPayload },
}

/// The connected overlay clients, by id.
pub struct HudRegistry<R> {
    clients: HashMap<u64, R>,
}

impl<R> View for HudRegistry<R> {
    type V = Map<u64, R>;

    closed spec fn view(&self) -> Map<u64, R> {
        self.clients@
    }
}

impl<R> HudRegistry<R> {
    /// No client connected.
    pub fn new() -> (r: HudRegistry<R>)
        ensures
            r@ == Map::<u64, R>::empty(),
    {
        HudRegistry { clients: HashMap::new() }
    }

    /// The number of connected clients.
    pub fn len(&self) -> (r: usize)
        ensures
            r == self@.len(),
    {
        self.clients.len()
    }

    /// The connected clients, by id.
    pub fn clients(&self) -> (r: &HashMap<u64, R>)
        ensures
            r@ == self@,
    {
        &self.clients
    }

    /// Applies one overlay event: connects and disconnects change the
    /// clients; every other event leaves them as they are and calls for an
    /// effect.
    pub fn step(&mut self, event: HUDInstruction<R>) -> (r: HudEffect)
        ensures
            final(self)@ == clients_after_event(old(self)@, event),
            match event {
                HUDInstruction::AddClient { client_id, responder } => final(self)@ == old(self)@.insert(
                    client_id,
                    responder,
                ) && r == HudEffect::Quiet,
                HUDInstruction::RemoveClient { client_id } => final(self)@ == old(self)@.remove(client_id)
                    && r == HudEffect::Quiet,
                HUDInstruction::ClientMessage { message } => final(self)@ == old(self)@ && (r matches HudEffect::ShowText { message: m } && m@ == message@),
                HUDInstruction::ClientBinaryMessage { binary_message } => final(self)@ == old(self)@ && (r matches HudEffect::ShowBytes { bytes } && bytes@ == binary_message@),
                HUDInstruction::GenericMessage { message } => final(self)@ == old(self)@ && (r matches HudEffect::Broadcast { payload: HudPayload::Text { message: m } } && m@ == message@),
                HUDInstruction::TimedMessage { message, time } => final(self)@ == old(self)@ && (r matches HudEffect::Broadcast { payload: HudPayload::Timed { message: m, seconds } } && m@ == message@ && seconds == time),
                HUDInstruction::SystemMonitorUpdate { data } => final(self)@ == old(self)@ && (r matches HudEffect::Broadcast { payload: HudPayload::Monitor { data: d } } && d@ == data@),
            },
    {
        match event {
            HUDInstruction::AddClient { client_id, responder } => {
                self.clients.insert(client_id, responder);
                HudEffect::Quiet
            },
            HUDInstruction::RemoveClient { client_id } => {
                self.clients.remove(&client_id);
                HudEffect::Quiet
            },
            HUDInstruction::ClientMessage { message } => HudEffect::ShowText { message },
            HUDInstruction::ClientBinaryMessage { binary_message } => HudEffect::ShowBytes {
                bytes: binary_message,
            },
            HUDInstruction::GenericMessage { message } => HudEffect::Broadcast {
                payload: HudPayload::Text { message },
            },
            HUDInstruction::TimedMessage { message, time } => HudEffect::Broadcast {
                payload: HudPayload::Timed { message, seconds: time },
            },
            HUDInstruction::SystemMonitorUpdate { data } => HudEffect::Broadcast {
                payload: HudPayload::Monitor { data },
            },
        }
    }
}

/// The clients after one overlay event: a connect adds (or replaces) the
/// client's handle, a disconnect removes the client, anything else leaves
/// the clients as they are.
pub open spec fn clients_after_event<R>(m: Map<u64, R>, e: HUDInstruction<R>) -> Map<u64, R> {
    match e {
        HUDInstruction::AddClient { client_id, responder } => m.insert(client_id, responder),
        HUDInstruction::RemoveClient { client_id } => m.remove(client_id),
        _ => m,
    }
}

/// The clients after a sequence of overlay events, from `m`.
pub open spec fn clients_after<R>(m: Map<u64, R>, events: Seq<HUDInstruction<R>>) -> Map<u64, R>
    decreases events.len(),
{
    if events.len() == 0 {
        m
    } else {
        clients_after_event(clients_after(m, events.drop_last()), events.last())
    }
}

/// The last connect or disconnect of client `id` among `events`: the handle
/// it connected with, or nothing for a disconnect; no answer when `events`
/// holds neither.
pub open spec fn last_membership<R>(events: Seq<HUDInstruction<R>>, id: u64) -> Option<Option<R>>
    decreases events.len(),
{
    if events.len() == 0 {
        None
    } else {
        match events.last() {
            HUDInstruction::AddClient { client_id, responder } if client_id == id => Some(Some(responder)),
            HUDInstruction::RemoveClient { client_id } if client_id == id => Some(None),
            _ => last_membership(events.drop_last(), id),
        }
    }
}

/// After any sequence of overlay events, starting with no client, exactly
/// the clients whose last connect or disconnect was a connect are reached,
/// each through the handle of that last connect (a map holds each id once,
/// so a broadcast reaches each of them once).
pub proof fn lemma_clients_follow_last_event<R>(events: Seq<HUDInstruction<R>>, id: u64)
    ensures
        clients_after(Map::<u64, R>::empty(), events).contains_key(id) <==> (last_membership(
            events,
            id,
        ) matches Some(Some(_))),
        last_membership(events, id) matches Some(Some(h)) ==> clients_after(
            Map::<u64, R>::empty(),
            events,
        )[id] == h,
    decreases events.len(),
{
    if events.len() > 0 {
        lemma_clients_follow_last_event(events.drop_last(), id);
    }
}

/// A client that connects and then disconnects is no longer reached,
/// and the other clients are as they were.
pub proof fn lemma_connect_then_disconnect<R>(clients: Map<u64, R>, id: u64, responder: R)
    ensures
        clients.insert(id, responder).remove(id) == clients.remove(id),
        !clients.insert(id, responder).remove(id).contains_key(id),
{
    assert(clients.insert(id, responder).remove(id) =~= clients.remove(id));
}

} // verus!
