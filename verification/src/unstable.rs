//! Decisions of the `_goose/unstable` surface.

use vstd::prelude::*;

use crate::notify::{trim, trim_v};
use crate::spine::opt_seq;
use crate::text::{concat, owned};

verus! {

/// What a steer request comes to.
#[derive(Debug, PartialEq)]
pub enum SteerStep {
    /// No connection: nothing is sent and nothing is reported.
    Nothing,
    /// A connection without a bound session: the error reported for `method`.
    NotReady { method: String, message: String },
    /// Send `text` into the bound session, expecting the run `expected_run_id`.
    Send { method: String, session_id: String, text: String, expected_run_id: String },
}

/// The steer method's name.
pub open spec fn steer_method() -> Seq<char> {
    "_goose/unstable/session/steer"@
}

/// Steer the live turn: without a connection nothing happens; without a
/// bound session the caller is told it is not ready and nothing reaches the
/// wire; else the text goes to the bound session with the expected run id.
pub fn steer_step(connected: bool, session_id: Option<String>, text: String, expected_run_id: String) -> (r: SteerStep)
    ensures
        !connected ==> r is Nothing,
        connected && session_id is None ==> (r matches SteerStep::NotReady { method, message }
            && method@ == steer_method() && message@ == "not ready \u{2014} no session"@),
        connected && session_id is Some ==> (r matches SteerStep::Send { method, session_id: sid, text: t, expected_run_id: run }
            && method@ == steer_method() && sid@ == session_id->0@ && t@ == text@ && run@ == expected_run_id@),
{
    if !connected {
        return SteerStep::Nothing;
    }
    match session_id {
        None => SteerStep::NotReady {
            method: owned("_goose/unstable/session/steer"),
            message: owned("not ready \u{2014} no session"),
        },
        Some(sid) => SteerStep::Send {
            method: owned("_goose/unstable/session/steer"),
            session_id: sid,
            text,
            expected_run_id,
        },
    }
}

// ---------------------------------------------------------------------------
// JSON answers and request params, as compact JSON text
// ---------------------------------------------------------------------------

/// What `serde_json::from_str::<Value>` makes of `raw`, written back out
/// compactly by `Value`'s `Display`: `None` when `raw` is not JSON.
pub uninterp spec fn json_text_of(raw: Seq<char>) -> Option<Seq<char>>;

/// `s` as a JSON string literal, as `Value::String`'s `Display` writes it.
pub uninterp spec fn json_quote_of(s: Seq<char>) -> Seq<char>;

/// `serde_json::from_str::<Value>(raw)`, then `Value`'s `Display`. The
/// contract names the result as a function of `raw`; what JSON parses to
/// what, and how it is written back, is left unsaid.
#[verifier::external_body]
fn parse_json_text(raw: &str) -> (r: Option<String>)
    ensures
        opt_seq(r) == json_text_of(raw@),
{
    serde_json::from_str::<serde_json::Value>(raw).ok().map(|v| v.to_string())
}

/// `Value::String(s)` written by `Value`'s `Display`: `s` quoted and escaped.
/// The contract names the result as a function of `s`; the escaping is left
/// unsaid.
#[verifier::external_body]
fn json_quote(s: &str) -> (r: String)
    ensures
        r@ == json_quote_of(s@),
{
    serde_json::Value::String(s.to_owned()).to_string()
}

/// One object member: the key (plain ASCII, needing no escape) and the
/// member's JSON text.
pub open spec fn field_v(key: Seq<char>, value: Seq<char>) -> Seq<char> {
    "\""@ + key + "\":"@ + value
}

pub open spec fn obj1_v(k1: Seq<char>, v1: Seq<char>) -> Seq<char> {
    "{"@ + field_v(k1, v1) + "}"@
}

pub open spec fn obj2_v(k1: Seq<char>, v1: Seq<char>, k2: Seq<char>, v2: Seq<char>) -> Seq<char> {
    "{"@ + field_v(k1, v1) + ","@ + field_v(k2, v2) + "}"@
}

pub open spec fn obj3_v(k1: Seq<char>, v1: Seq<char>, k2: Seq<char>, v2: Seq<char>, k3: Seq<char>, v3: Seq<char>) -> Seq<char> {
    "{"@ + field_v(k1, v1) + ","@ + field_v(k2, v2) + ","@ + field_v(k3, v3) + "}"@
}

fn push_field(out: &mut String, key: &str, value: &str)
    ensures
        final(out)@ == old(out)@ + field_v(key@, value@),
{
    let ghost o = out@;
    out.append("\"");
    out.append(key);
    out.append("\":");
    out.append(value);
    assert(out@ =~= o + field_v(key@, value@));
}

fn obj1(k1: &str, v1: &str) -> (r: String)
    ensures
        r@ == obj1_v(k1@, v1@),
{
    let mut r = owned("{");
    push_field(&mut r, k1, v1);
    r.append("}");
    r
}

fn obj2(k1: &str, v1: &str, k2: &str, v2: &str) -> (r: String)
    ensures
        r@ == obj2_v(k1@, v1@, k2@, v2@),
{
    let mut r = owned("{");
    push_field(&mut r, k1, v1);
    r.append(",");
    push_field(&mut r, k2, v2);
    r.append("}");
    assert(r@ =~= obj2_v(k1@, v1@, k2@, v2@));
    r
}

fn obj3(k1: &str, v1: &str, k2: &str, v2: &str, k3: &str, v3: &str) -> (r: String)
    ensures
        r@ == obj3_v(k1@, v1@, k2@, v2@, k3@, v3@),
{
    let mut r = owned("{");
    push_field(&mut r, k1, v1);
    r.append(",");
    push_field(&mut r, k2, v2);
    r.append(",");
    push_field(&mut r, k3, v3);
    r.append("}");
    assert(r@ =~= obj3_v(k1@, v1@, k2@, v2@, k3@, v3@));
    r
}

/// The answer to a recipe-parameters request: the action, and the values
/// when they parse as JSON, else an empty object (never a string).
pub open spec fn recipe_answer_v(action: Seq<char>, values: Seq<char>) -> Seq<char> {
    obj2_v("action"@, json_quote_of(action), "values"@, match json_text_of(values) {
        Some(t) => t,
        None => "{}"@,
    })
}

/// The recipe-parameters answer, as JSON text.
pub fn recipe_params_answer(action: &str, values: &str) -> (r: String)
    ensures
        r@ == recipe_answer_v(action@, values@),
{
    let a = json_quote(action);
    let v = match parse_json_text(values) {
        Some(t) => t,
        None => owned("{}"),
    };
    obj2("action", a.as_str(), "values", v.as_str())
}

/// The answer to an elicitation: the action, with the content only when it
/// is not blank and parses as JSON (a decline or cancel carries none).
pub open spec fn elicitation_answer_v(action: Seq<char>, content: Seq<char>) -> Seq<char> {
    if trim_v(content).len() > 0 && json_text_of(content) is Some {
        obj2_v("action"@, json_quote_of(action), "content"@, json_text_of(content)->0)
    } else {
        obj1_v("action"@, json_quote_of(action))
    }
}

/// The elicitation answer, as JSON text.
pub fn elicitation_answer(action: &str, content: &str) -> (r: String)
    ensures
        r@ == elicitation_answer_v(action@, content@),
{
    let a = json_quote(action);
    let t = trim(content);
    if t.unicode_len() > 0 {
        if let Some(c) = parse_json_text(content) {
            return obj2("action", a.as_str(), "content", c.as_str());
        }
    }
    obj1("action", a.as_str())
}

/// `session/extensions/add` params: only when the extension parses as JSON
/// (else the intent is dropped and nothing is sent).
pub fn session_extensions_add_params(session_id: &str, extension: &str) -> (r: Option<String>)
    ensures
        json_text_of(extension@) is None ==> r is None,
        json_text_of(extension@) matches Some(t) ==> (r matches Some(p)
            && p@ == obj2_v("sessionId"@, json_quote_of(session_id@), "extension"@, t)),
{
    match parse_json_text(extension) {
        None => None,
        Some(t) => Some(obj2("sessionId", json_quote(session_id).as_str(), "extension", t.as_str())),
    }
}

/// JSON's `true` / `false`.
pub open spec fn json_bool_v(b: bool) -> Seq<char> {
    if b { "true"@ } else { "false"@ }
}

/// `config/extensions/add` params: only when the extension parses as JSON.
pub fn add_extension_params(extension: &str, enabled: bool) -> (r: Option<String>)
    ensures
        json_text_of(extension@) is None ==> r is None,
        json_text_of(extension@) matches Some(t) ==> (r matches Some(p)
            && p@ == obj2_v("extension"@, t, "enabled"@, json_bool_v(enabled))),
{
    match parse_json_text(extension) {
        None => None,
        Some(t) => {
            let b = if enabled { owned("true") } else { owned("false") };
            Some(obj2("extension", t.as_str(), "enabled", b.as_str()))
        },
    }
}

/// `recipes/save` params: only when the recipe parses as JSON.
pub fn recipes_save_params(id: &str, recipe: &str) -> (r: Option<String>)
    ensures
        json_text_of(recipe@) is None ==> r is None,
        json_text_of(recipe@) matches Some(t) ==> (r matches Some(p)
            && p@ == obj2_v("id"@, json_quote_of(id@), "recipe"@, t)),
{
    match parse_json_text(recipe) {
        None => None,
        Some(t) => Some(obj2("id", json_quote(id).as_str(), "recipe", t.as_str())),
    }
}

/// `tools/call` params: only when the arguments parse as JSON.
pub fn tools_call_params(session_id: &str, name: &str, args: &str) -> (r: Option<String>)
    ensures
        json_text_of(args@) is None ==> r is None,
        json_text_of(args@) matches Some(t) ==> (r matches Some(p)
            && p@ == obj3_v("sessionId"@, json_quote_of(session_id@), "name"@, json_quote_of(name@), "arguments"@, t)),
{
    match parse_json_text(args) {
        None => None,
        Some(t) => Some(obj3(
            "sessionId",
            json_quote(session_id).as_str(),
            "name",
            json_quote(name).as_str(),
            "arguments",
            t.as_str(),
        )),
    }
}

// ---------------------------------------------------------------------------
// Reading replies
// ---------------------------------------------------------------------------

/// The key an MCP app's resource is filed under.
pub fn app_key(extension: &str, uri: &str) -> (r: String)
    ensures
        r@ == extension@ + "|"@ + uri@,
{
    let mut r = concat(extension, "|");
    r.append(uri);
    r
}

/// The first non-empty text among a reply's entries (empty when none).
pub open spec fn first_text_v(texts: Seq<Option<Seq<char>>>) -> Seq<char>
    decreases texts.len(),
{
    if texts.len() == 0 {
        Seq::empty()
    } else {
        match texts[0] {
            Some(t) if t.len() > 0 => t,
            _ => first_text_v(texts.drop_first()),
        }
    }
}

pub open spec fn texts_v(texts: Seq<Option<String>>) -> Seq<Option<Seq<char>>> {
    texts.map_values(|t: Option<String>| opt_seq(t))
}

/// The app resource's html: the first non-empty `text` among the read's
/// `contents` entries (each entry's `text`, when a string), else empty.
pub fn resource_html(texts: &Vec<Option<String>>) -> (r: String)
    ensures
        r@ == first_text_v(texts_v(texts@)),
{
    let ghost tv = texts_v(texts@);
    let n = texts.len();
    let mut i: usize = 0;
    assert(tv.skip(0) =~= tv);
    while i < n
        invariant
            n == texts@.len(),
            tv == texts_v(texts@),
            i <= n,
            first_text_v(tv) == first_text_v(tv.skip(i as int)),
        decreases n - i,
    {
        assert(tv.skip(i as int)[0] == tv[i as int]);
        assert(tv.skip(i as int).drop_first() =~= tv.skip(i + 1));
        match &texts[i] {
            Some(t) => {
                if t.unicode_len() > 0 {
                    return t.clone();
                }
            },
            None => {},
        }
        i = i + 1;
    }
    String::new()
}

/// All the present texts, joined in order.
pub open spec fn all_texts_v(texts: Seq<Option<Seq<char>>>) -> Seq<char>
    decreases texts.len(),
{
    if texts.len() == 0 {
        Seq::empty()
    } else {
        all_texts_v(texts.drop_last()) + match texts.last() {
            Some(t) => t,
            None => Seq::empty(),
        }
    }
}

/// A tool call's result text: every `content` entry's `text` (when a
/// string), concatenated in order.
pub fn tool_result_text(texts: &Vec<Option<String>>) -> (r: String)
    ensures
        r@ == all_texts_v(texts_v(texts@)),
{
    let ghost tv = texts_v(texts@);
    let n = texts.len();
    let mut r = String::new();
    let mut i: usize = 0;
    assert(tv.take(0) =~= Seq::<Option<Seq<char>>>::empty());
    while i < n
        invariant
            n == texts@.len(),
            tv == texts_v(texts@),
            i <= n,
            r@ == all_texts_v(tv.take(i as int)),
        decreases n - i,
    {
        assert(tv.take(i + 1).drop_last() =~= tv.take(i as int));
        assert(tv.take(i + 1).last() == tv[i as int]);
        match &texts[i] {
            Some(t) => r.append(t.as_str()),
            None => {},
        }
        i = i + 1;
    }
    assert(tv.take(n as int) =~= tv);
    r
}

} // verus!
