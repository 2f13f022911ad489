//! Reading the list of public servers out of the game API's JSON answer.
use vstd::prelude::*;
use vstd::string::*;
use crate::text::owned;
use crate::servers::{GameInstance, GameView, games_view};
use crate::vision::{signed_decimal, signed_decimal_string};
use crate::text::concat3;

verus! {

broadcast use vstd::seq_lib::group_seq_properties;

/// A JSON value, as far as the server list is read: numbers are kept only
/// as numbers, since nothing here reads their value. An object keeps its
/// members in order, each key once.
#[derive(Debug)]
pub enum Json {
    Null,
    Bool(bool),
    Number,
    Str(String),
    Array(Vec<Json>),
    Object(Vec<(String, Json)>),
}

/// The address of the game API's list of public servers of `game_id`.
pub fn instances_url(game_id: i64) -> (r: String)
    ensures
        r@ == "https://games.roblox.com/v1/games/"@ + signed_decimal(game_id as int)
            + "/servers/Public"@,
{
    let id = signed_decimal_string(game_id);
    concat3("https://games.roblox.com/v1/games/", id.as_str(), "/servers/Public")
}

/// The member `key` of an object's members (the first, should a key repeat).
pub open spec fn field_of(fields: Seq<(String, Json)>, key: Seq<char>) -> Option<Json>
    decreases fields.len(),
{
    if fields.len() == 0 {
        None
    } else if fields[0].0@ == key {
        Some(fields[0].1)
    } else {
        field_of(fields.drop_first(), key)
    }
}

/// The entries of the answer's `data` array, or nothing when the answer is
/// not an object whose `data` member is an array.
pub open spec fn server_items(body: Json) -> Option<Seq<Json>> {
    match body {
        Json::Object(fields) => match field_of(fields@, "data"@) {
            Some(Json::Array(items)) => Some(items@),
            _ => None,
        },
        _ => None,
    }
}

/// An entry that can be read as a server: an object whose `playerTokens`
/// member is an array of strings and whose `id` member is a string.
pub open spec fn item_readable(item: Json) -> bool {
    match item {
        Json::Object(fields) => {
            &&& field_of(fields@, "playerTokens"@) matches Some(Json::Array(ps))
                && forall|k: int| 0 <= k < ps@.len() ==> #[trigger] ps@[k] is Str
            &&& field_of(fields@, "id"@) matches Some(Json::Str(_))
        },
        _ => false,
    }
}

/// Whether every server entry of the answer can be read.
pub open spec fn body_readable(body: Json) -> bool {
    server_items(body) matches Some(items) ==> forall|i: int|
        0 <= i < items.len() ==> #[trigger] item_readable(items[i])
}

/// The text of a string value.
pub open spec fn text_of(v: Json) -> Seq<char> {
    match v {
        Json::Str(s) => s@,
        _ => Seq::empty(),
    }
}

/// The server that a readable entry describes.
pub open spec fn item_server(item: Json) -> GameView {
    match item {
        Json::Object(fields) => {
            let ps = match field_of(fields@, "playerTokens"@) {
                Some(Json::Array(ps)) => ps@,
                _ => Seq::empty(),
            };
            GameView {
                id: text_of(field_of(fields@, "id"@)->0),
                players: ps.map_values(|p: Json| text_of(p)),
            }
        },
        _ => GameView { id: Seq::empty(), players: Seq::empty() },
    }
}

// ---------------------------------------------------------------------------
// Parsing the answer
// ---------------------------------------------------------------------------

/// A parsed JSON value of `serde_json`.
#[verifier::external_type_specification]
#[verifier::external_body]
pub struct ExJsonValue(serde_json::Value);

/// What a parsed `serde_json::Value` holds, read as `Json`: null, a boolean,
/// any number as `Number`, a string, an array with its elements in order, or
/// an object with its members in the map's order, each key once.
pub uninterp spec fn json_value(v: serde_json::Value) -> Json;

/// What `serde_json::from_str::<serde_json::Value>` makes of `text`: the JSON
/// value it holds, or nothing when `text` is not one JSON value.
pub uninterp spec fn parsed_json(text: Seq<char>) -> Option<Json>;

/// `serde_json::from_str::<serde_json::Value>`: parses `text` as one JSON
/// value, or fails. What it accepts is JSON's grammar, which is only named
/// here (`parsed_json`); the value it returns holds what the name gives.
#[verifier::external_body]
fn parse_value(text: &str) -> (r: Result<serde_json::Value, serde_json::Error>)
    ensures
        match r {
            Ok(v) => parsed_json(text@) == Some(json_value(v)),
            Err(_) => parsed_json(text@) is None,
        },
{
    serde_json::from_str::<serde_json::Value>(text)
}

/// `serde_json::Value::get` with a string key: the member `key` of an
/// object, and nothing for a missing key or a value that is not an object.
#[verifier::external_body]
fn member<'a>(v: &'a serde_json::Value, key: &str) -> (r: Option<&'a serde_json::Value>)
    ensures
        match json_value(*v) {
            Json::Object(fields) => match field_of(fields@, key@) {
                Some(m) => r matches Some(x) && json_value(*x) == m,
                None => r is None,
            },
            _ => r is None,
        },
{
    v.get(key)
}

/// `serde_json::Value::as_array`: the elements of an array, in order, and
/// nothing for any other value.
#[verifier::external_body]
fn elements(v: &serde_json::Value) -> (r: Option<&Vec<serde_json::Value>>)
    ensures
        match json_value(*v) {
            Json::Array(xs) => r matches Some(es) && es@.len() == xs@.len() && forall|i: int|
                0 <= i < es@.len() ==> #[trigger] json_value(es@[i]) == xs@[i],
            _ => r is None,
        },
{
    v.as_array()
}

/// `serde_json::Value::as_str`: the text of a string, and nothing for any
/// other value.
#[verifier::external_body]
fn text_value(v: &serde_json::Value) -> (r: Option<&str>)
    ensures
        match json_value(*v) {
            Json::Str(s) => r matches Some(t) && t@ == s@,
            _ => r is None,
        },
{
    v.as_str()
}

/// Why the server list could not be read from an answer.
#[derive(Debug, PartialEq, Eq)]
pub enum ListingError {
    /// The answer is not JSON.
    NotJson,
    /// A server entry lacks a string `id` or a list of string `playerTokens`.
    Unreadable,
}

/// The players of one entry, from the elements of its `playerTokens`.
fn read_tokens(ts: &Vec<serde_json::Value>, ps: Ghost<Seq<Json>>) -> (r: Option<Vec<String>>)
    requires
        ts@.len() == ps@.len(),
        forall|i: int| 0 <= i < ts@.len() ==> #[trigger] json_value(ts@[i]) == ps@[i],
    ensures
        (forall|k: int| 0 <= k < ps@.len() ==> #[trigger] ps@[k] is Str) <==> r is Some,
        r matches Some(players) ==> players.deep_view() == ps@.map_values(|p: Json| text_of(p)),
{
    let mut players: Vec<String> = Vec::new();
    let mut k: usize = 0;
    while k < ts.len()
        invariant
            k <= ts@.len(),
            ts@.len() == ps@.len(),
            forall|i: int| 0 <= i < ts@.len() ==> #[trigger] json_value(ts@[i]) == ps@[i],
            forall|j: int| 0 <= j < k ==> #[trigger] ps@[j] is Str,
            players.deep_view() =~= ps@.subrange(0, k as int).map_values(|p: Json| text_of(p)),
        decreases ts.len() - k,
    {
        assert(json_value(ts@[k as int]) == ps@[k as int]);
        match text_value(&ts[k]) {
            Some(t) => {
                let ghost before = players.deep_view();
                players.push(owned(t));
                assert(players.deep_view() =~= before.push(text_of(ps@[k as int])));
                assert(ps@.subrange(0, k + 1).map_values(|p: Json| text_of(p))
                    =~= ps@.subrange(0, k as int).map_values(|p: Json| text_of(p)).push(
                    text_of(ps@[k as int]),
                ));
            },
            None => {
                assert(!(ps@[k as int] is Str));
                return None;
            },
        }
        k = k + 1;
    }
    assert(ps@.subrange(0, k as int) =~= ps@);
    Some(players)
}

/// The server of one entry, when the entry can be read.
fn read_entry(item: &serde_json::Value, j: Ghost<Json>) -> (r: Option<GameInstance>)
    requires
        json_value(*item) == j@,
    ensures
        r is Some <==> item_readable(j@),
        r matches Some(g) ==> g@ == item_server(j@),
{
    let tokens = match member(item, "playerTokens") {
        Some(t) => t,
        None => return None,
    };
    let ts = match elements(tokens) {
        Some(ts) => ts,
        None => return None,
    };
    let ghost ps = match json_value(*tokens) {
        Json::Array(xs) => xs@,
        _ => Seq::empty(),
    };
    let players = match read_tokens(ts, Ghost(ps)) {
        Some(p) => p,
        None => return None,
    };
    let id_value = match member(item, "id") {
        Some(i) => i,
        None => return None,
    };
    let id = match text_value(id_value) {
        Some(t) => owned(t),
        None => return None,
    };
    Some(GameInstance { id, players })
}

/// The public servers in a parsed answer: nothing when it is not an object
/// with a `data` array; an error when an entry cannot be read; otherwise
/// one server per entry, in order.
fn servers_from_value(v: &serde_json::Value, j: Ghost<Json>) -> (r: Result<
    Option<Vec<GameInstance>>,
    ListingError,
>)
    requires
        json_value(*v) == j@,
    ensures
        body_readable(j@) ==> (r matches Ok(o) && (o is Some) == (server_items(j@) is Some) && (
        o matches Some(l) ==> games_view(l@) == server_items(j@)->0.map_values(
            |i: Json| item_server(i),
        ))),
        !body_readable(j@) ==> r == Err::<Option<Vec<GameInstance>>, ListingError>(
            ListingError::Unreadable,
        ),
{
    let data = match member(v, "data") {
        Some(d) => d,
        None => return Ok(None),
    };
    let items = match elements(data) {
        Some(es) => es,
        None => return Ok(None),
    };
    let ghost xs = server_items(j@)->0;
    assert(server_items(j@) == Some(xs));
    let mut list: Vec<GameInstance> = Vec::new();
    let mut i: usize = 0;
    while i < items.len()
        invariant
            i <= items@.len(),
            items@.len() == xs.len(),
            server_items(j@) == Some(xs),
            forall|k: int| 0 <= k < items@.len() ==> #[trigger] json_value(items@[k]) == xs[k],
            forall|k: int| 0 <= k < i ==> #[trigger] item_readable(xs[k]),
            games_view(list@) =~= xs.subrange(0, i as int).map_values(|it: Json| item_server(it)),
        decreases items.len() - i,
    {
        assert(json_value(items@[i as int]) == xs[i as int]);
        match read_entry(&items[i], Ghost(xs[i as int])) {
            Some(g) => {
                let ghost before = list@;
                list.push(g);
                assert(games_view(list@) =~= games_view(before).push(item_server(xs[i as int])));
                assert(xs.subrange(0, i + 1).map_values(|it: Json| item_server(it))
                    =~= xs.subrange(0, i as int).map_values(|it: Json| item_server(it)).push(
                    item_server(xs[i as int]),
                ));
            },
            None => {
                assert(!item_readable(server_items(j@)->0[i as int]));
                return Err(ListingError::Unreadable);
            },
        }
        i = i + 1;
    }
    assert(xs.subrange(0, i as int) =~= xs);
    Ok(Some(list))
}

/// The public servers listed in the game API's answer `body`: an error when
/// the answer is not JSON or one of its server entries lacks a string `id`
/// or a list of string `playerTokens`; nothing when it is not an object with
/// a `data` array; otherwise one server per entry, in order, with its `id`
/// and its `playerTokens`.
pub fn servers_from_text(body: &str) -> (r: Result<Option<Vec<GameInstance>>, ListingError>)
    ensures
        parsed_json(body@) is None ==> r == Err::<Option<Vec<GameInstance>>, ListingError>(
            ListingError::NotJson,
        ),
        parsed_json(body@) matches Some(j) ==> {
            &&& body_readable(j) ==> (r matches Ok(o) && (o is Some) == (server_items(j) is Some)
                && (o matches Some(l) ==> games_view(l@) == server_items(j)->0.map_values(
                |i: Json| item_server(i),
            )))
            &&& !body_readable(j) ==> r == Err::<Option<Vec<GameInstance>>, ListingError>(
                ListingError::Unreadable,
            )
        },
{
    match parse_value(body) {
        Ok(v) => servers_from_value(&v, Ghost(parsed_json(body@)->0)),
        Err(_) => Err(ListingError::NotJson),
    }
}

} // verus!
