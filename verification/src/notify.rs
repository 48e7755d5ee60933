//! Notification policy: the one implementation every client shares. Pure
//! policy over a payload a client already received: whether to show it, and
//! with what wording.

use vstd::prelude::*;
use vstd::string::*;

use crate::text::{owned, str_eq};

verus! {

/// What a push is: a finished-turn nudge, or a proactive briefing.
#[derive(Clone, Copy, Debug, PartialEq, Eq, Structural)]
pub enum PushKind {
    Turn,
    Briefing,
}

/// A decoded push envelope. Senders produce `{type,session,text}` JSON;
/// anything that is not a JSON object is a briefing whose text is the raw body.
#[derive(Clone, Debug, PartialEq)]
pub struct PushEnvelope {
    pub kind: PushKind,
    pub session_id: Option<String>,
    pub text: String,
}

/// What the client knows when a payload arrives.
#[derive(Clone, Debug)]
pub struct NotifyContext {
    /// The user is looking at this client right now.
    pub app_visible: bool,
    /// The session this client last sent a turn to, when it tracks one.
    pub armed_session: Option<String>,
    /// The session's title, when the client knows it.
    pub session_title: Option<String>,
    /// The session and age of the last notification this client showed for a
    /// finished turn (recency is the only identity a turn has).
    pub announced_session: Option<String>,
    pub announced_secs_ago: Option<u32>,
    /// A finished turn the client did not start is still worth announcing.
    pub announce_any_turn: bool,
}

/// Whether to show anything, and with what wording.
#[derive(Clone, Debug, PartialEq)]
pub struct NotifyDecision {
    pub show: bool,
    pub summary: String,
    pub body: String,
}

pub struct EnvelopeV {
    pub kind: PushKind,
    pub session_id: Option<Seq<char>>,
    pub text: Seq<char>,
}

pub struct ContextV {
    pub app_visible: bool,
    pub armed_session: Option<Seq<char>>,
    pub session_title: Option<Seq<char>>,
    pub announced_session: Option<Seq<char>>,
    pub announced_secs_ago: Option<u32>,
    pub announce_any_turn: bool,
}

pub struct DecisionV {
    pub show: bool,
    pub summary: Seq<char>,
    pub body: Seq<char>,
}

pub open spec fn opt_seq(o: Option<String>) -> Option<Seq<char>> {
    match o {
        Some(s) => Some(s@),
        None => None,
    }
}

impl View for PushEnvelope {
    type V = EnvelopeV;

    open spec fn view(&self) -> EnvelopeV {
        EnvelopeV { kind: self.kind, session_id: opt_seq(self.session_id), text: self.text@ }
    }
}

impl View for NotifyContext {
    type V = ContextV;

    open spec fn view(&self) -> ContextV {
        ContextV {
            app_visible: self.app_visible,
            armed_session: opt_seq(self.armed_session),
            session_title: opt_seq(self.session_title),
            announced_session: opt_seq(self.announced_session),
            announced_secs_ago: self.announced_secs_ago,
            announce_any_turn: self.announce_any_turn,
        }
    }
}

impl View for NotifyDecision {
    type V = DecisionV;

    open spec fn view(&self) -> DecisionV {
        DecisionV { show: self.show, summary: self.summary@, body: self.body@ }
    }
}

/// How long after announcing a turn a push for the same session is still the
/// same event.
pub const SAME_TURN_WINDOW_SECS: u32 = 120;

pub open spec fn hidden_v() -> DecisionV {
    DecisionV { show: false, summary: Seq::empty(), body: Seq::empty() }
}

pub open spec fn briefing_v(text: Seq<char>) -> EnvelopeV {
    EnvelopeV { kind: PushKind::Briefing, session_id: None, text }
}

/// The same session was announced inside the window: the same turn.
pub open spec fn announced_v(e: EnvelopeV, c: ContextV) -> bool {
    &&& e.session_id is Some
    &&& c.announced_session == e.session_id
    &&& c.announced_secs_ago matches Some(secs) && secs <= SAME_TURN_WINDOW_SECS
}

/// A turn this client cannot call its own: another session than the armed
/// one, or no armed session on a client that only announces turns it armed.
pub open spec fn unattributed_v(e: EnvelopeV, c: ContextV) -> bool {
    ||| (c.armed_session is Some && e.session_id != c.armed_session)
    ||| (c.armed_session is None && !c.announce_any_turn)
}

/// The summary of a shown turn: the session's title when known.
pub open spec fn turn_summary(title: Option<Seq<char>>) -> Seq<char> {
    match title {
        Some(t) => if t.len() > 0 { t } else { "Grouse replied"@ },
        None => "Grouse replied"@,
    }
}

/// The show/don't-show rule and its wording.
pub open spec fn decide_v(e: EnvelopeV, c: ContextV) -> DecisionV {
    if c.app_visible || e.text.len() == 0 {
        hidden_v()
    } else {
        match e.kind {
            PushKind::Turn => if announced_v(e, c) || unattributed_v(e, c) {
                hidden_v()
            } else {
                DecisionV { show: true, summary: turn_summary(c.session_title), body: e.text }
            },
            PushKind::Briefing => DecisionV { show: true, summary: "Grouse briefing"@, body: e.text },
        }
    }
}

impl NotifyDecision {
    /// Nothing to show.
    pub fn hidden() -> (d: Self)
        ensures
            d@ == hidden_v(),
    {
        NotifyDecision { show: false, summary: String::new(), body: String::new() }
    }
}

/// A briefing carrying `text`.
pub fn briefing(text: &str) -> (e: PushEnvelope)
    ensures
        e@ == briefing_v(text@),
{
    PushEnvelope { kind: PushKind::Briefing, session_id: None, text: owned(text) }
}

fn opt_eq(a: &Option<String>, b: &Option<String>) -> (r: bool)
    ensures
        r == (opt_seq(*a) == opt_seq(*b)),
{
    match a {
        Some(x) => match b {
            Some(y) => str_eq(x.as_str(), y.as_str()),
            None => false,
        },
        None => b.is_none(),
    }
}

/// Whether this turn was already announced by the other delivery path.
pub fn already_announced(envelope: &PushEnvelope, ctx: &NotifyContext) -> (r: bool)
    ensures
        r == announced_v(envelope@, ctx@),
{
    if envelope.session_id.is_none() {
        return false;
    }
    opt_eq(&ctx.announced_session, &envelope.session_id) && match ctx.announced_secs_ago {
        Some(secs) => secs <= SAME_TURN_WINDOW_SECS,
        None => false,
    }
}

/// The show/don't-show rule, shared by push delivery and by the in-session
/// paths.
pub fn decide_notify(envelope: PushEnvelope, ctx: NotifyContext) -> (d: NotifyDecision)
    ensures
        d@ == decide_v(envelope@, ctx@),
        ctx.app_visible ==> !d.show,
        envelope.text@.len() == 0 ==> !d.show,
        d.show ==> d.body@ == envelope.text@,
        envelope.kind == PushKind::Briefing && !ctx.app_visible && envelope.text@.len() > 0 ==> d.show,
{
    if ctx.app_visible {
        return NotifyDecision::hidden();
    }
    if envelope.text.unicode_len() == 0 {
        return NotifyDecision::hidden();
    }
    match envelope.kind {
        PushKind::Turn => {
            if already_announced(&envelope, &ctx) {
                return NotifyDecision::hidden();
            }
            let unattributed = match &ctx.armed_session {
                Some(_) => !opt_eq(&envelope.session_id, &ctx.armed_session),
                None => !ctx.announce_any_turn,
            };
            if unattributed {
                return NotifyDecision::hidden();
            }
            let summary = match ctx.session_title {
                Some(t) => if t.unicode_len() > 0 {
                    t
                } else {
                    owned("Grouse replied")
                },
                None => owned("Grouse replied"),
            };
            NotifyDecision { show: true, summary, body: envelope.text }
        },
        PushKind::Briefing => NotifyDecision {
            show: true,
            summary: owned("Grouse briefing"),
            body: envelope.text,
        },
    }
}

// ---------------------------------------------------------------------------
// Decoding a push body
// ---------------------------------------------------------------------------

/// `char::is_whitespace`: the Unicode `White_Space` property.
pub open spec fn is_ws(c: char) -> bool {
    let u = c as u32;
    ||| 9 <= u <= 13
    ||| u == 32
    ||| u == 0x85
    ||| u == 0xA0
    ||| u == 0x1680
    ||| 0x2000 <= u <= 0x200A
    ||| u == 0x2028
    ||| u == 0x2029
    ||| u == 0x202F
    ||| u == 0x205F
    ||| u == 0x3000
}

/// `s` without leading whitespace.
pub open spec fn trim_start_v(s: Seq<char>) -> Seq<char>
    decreases s.len(),
{
    if s.len() > 0 && is_ws(s[0]) {
        trim_start_v(s.drop_first())
    } else {
        s
    }
}

/// `s` without trailing whitespace.
pub open spec fn trim_end_v(s: Seq<char>) -> Seq<char>
    decreases s.len(),
{
    if s.len() > 0 && is_ws(s.last()) {
        trim_end_v(s.drop_last())
    } else {
        s
    }
}

/// `str::trim`.
pub open spec fn trim_v(s: Seq<char>) -> Seq<char> {
    trim_end_v(trim_start_v(s))
}

fn is_ws_exec(c: char) -> (r: bool)
    ensures
        r == is_ws(c),
{
    let u = c as u32;
    (9 <= u && u <= 13) || u == 32 || u == 0x85 || u == 0xA0 || u == 0x1680 || (0x2000 <= u && u <= 0x200A)
        || u == 0x2028 || u == 0x2029 || u == 0x202F || u == 0x205F || u == 0x3000
}

/// `s` without leading and trailing whitespace.
pub fn trim(s: &str) -> (r: String)
    ensures
        r@ == trim_v(s@),
{
    let n = s.unicode_len();
    let mut i: usize = 0;
    assert(s@.skip(0) =~= s@);
    while i < n && is_ws_exec(s.get_char(i))
        invariant
            n == s@.len(),
            i <= n,
            trim_start_v(s@) == trim_start_v(s@.skip(i as int)),
        decreases n - i,
    {
        assert(s@.skip(i as int).drop_first() =~= s@.skip(i + 1));
        i = i + 1;
    }
    let ghost rest = s@.skip(i as int);
    assert(trim_start_v(s@) == rest) by {
        if i == n {
            assert(rest.len() == 0);
        } else {
            assert(rest[0] == s@[i as int]);
        }
    }
    let mut j: usize = n;
    assert(rest =~= s@.subrange(i as int, n as int));
    while j > i && is_ws_exec(s.get_char(j - 1))
        invariant
            n == s@.len(),
            i <= j <= n,
            trim_end_v(rest) == trim_end_v(s@.subrange(i as int, j as int)),
            rest == s@.subrange(i as int, n as int),
        decreases j - i,
    {
        assert(s@.subrange(i as int, j as int).drop_last() =~= s@.subrange(i as int, j - 1));
        j = j - 1;
    }
    let ghost mid = s@.subrange(i as int, j as int);
    assert(trim_end_v(rest) == mid) by {
        if j > i {
            assert(mid.last() == s@[j - 1]);
        }
    }
    owned(s.substring_char(i, j))
}

/// What `serde_json::from_str::<Value>` makes of a body, reduced to what an
/// envelope reads: `None` when the body is not JSON, `Some(None)` when it is
/// JSON but not an object, else the object's members, each with its text
/// when the member is a JSON string.
pub uninterp spec fn json_members(raw: Seq<char>) -> Option<Option<Seq<(Seq<char>, Option<Seq<char>>)>>>;

pub open spec fn member_view(p: (String, Option<String>)) -> (Seq<char>, Option<Seq<char>>) {
    (p.0@, opt_seq(p.1))
}

pub open spec fn members_view(m: Option<Option<Vec<(String, Option<String>)>>>) -> Option<Option<Seq<(Seq<char>, Option<Seq<char>>)>>> {
    match m {
        None => None,
        Some(None) => Some(None),
        Some(Some(v)) => Some(Some(v@.map_values(|p: (String, Option<String>)| member_view(p)))),
    }
}

/// `serde_json::from_str::<Value>` on a push body, reduced to the object's
/// members (`Value::Object` is a map, so no two members share a key). The
/// contract names the result as a function of the body; what JSON parses to
/// what is left unsaid.
#[verifier::external_body]
fn json_object_members(raw: &str) -> (r: Option<Option<Vec<(String, Option<String>)>>>)
    ensures
        members_view(r) == json_members(raw@),
        r matches Some(Some(v)) ==> forall|i: int, j: int| 0 <= i < j < v@.len() ==> v@[i].0@ != v@[j].0@,
{
    match serde_json::from_str::<serde_json::Value>(raw) {
        Err(_) => None,
        Ok(serde_json::Value::Object(map)) => Some(Some(map.into_iter().map(|(k, v)| (k, match v {
            serde_json::Value::String(s) => Some(s),
            _ => None,
        })).collect())),
        Ok(_) => Some(None),
    }
}

/// The member named `key`: absent, or present with its text when a string.
pub open spec fn member(ms: Seq<(Seq<char>, Option<Seq<char>>)>, key: Seq<char>) -> Option<Option<Seq<char>>>
    decreases ms.len(),
{
    if ms.len() == 0 {
        None
    } else if ms[0].0 == key {
        Some(ms[0].1)
    } else {
        member(ms.drop_first(), key)
    }
}

/// A member's text when it is a non-empty string.
pub open spec fn nonempty_str(m: Option<Option<Seq<char>>>) -> Option<Seq<char>> {
    match m {
        Some(Some(t)) => if t.len() > 0 { Some(t) } else { None },
        _ => None,
    }
}

/// The envelope of a (trimmed) body given what it parsed to. Anything but an
/// object is a briefing carrying the body; an object's missing or empty text
/// falls back to the body; only `"type": "turn"` is a turn.
pub open spec fn envelope_v(body: Seq<char>, parsed: Option<Option<Seq<(Seq<char>, Option<Seq<char>>)>>>) -> EnvelopeV {
    match parsed {
        Some(Some(ms)) => EnvelopeV {
            kind: if member(ms, "type"@) == Some(Some("turn"@)) { PushKind::Turn } else { PushKind::Briefing },
            session_id: nonempty_str(member(ms, "session"@)),
            text: match nonempty_str(member(ms, "text"@)) {
                Some(t) => t,
                None => body,
            },
        },
        _ => briefing_v(body),
    }
}

/// Look a member up by key.
fn find_member(ms: &Vec<(String, Option<String>)>, key: &str) -> (r: Option<Option<String>>)
    ensures
        (match r {
            None => None,
            Some(v) => Some(opt_seq(v)),
        }) == member(ms@.map_values(|p: (String, Option<String>)| member_view(p)), key@),
{
    let ghost all = ms@.map_values(|p: (String, Option<String>)| member_view(p));
    let n = ms.len();
    let mut i: usize = 0;
    assert(all.skip(0) =~= all);
    while i < n
        invariant
            n == ms.len(),
            i <= n,
            all == ms@.map_values(|p: (String, Option<String>)| member_view(p)),
            member(all, key@) == member(all.skip(i as int), key@),
        decreases n - i,
    {
        assert(all.skip(i as int)[0] == member_view(ms@[i as int]));
        assert(all.skip(i as int).drop_first() =~= all.skip(i + 1));
        if str_eq(ms[i].0.as_str(), key) {
            return Some(
                match &ms[i].1 {
                    Some(t) => Some(t.clone()),
                    None => None,
                },
            );
        }
        i = i + 1;
    }
    None
}

fn nonempty(m: Option<Option<String>>) -> (r: Option<String>)
    ensures
        opt_seq(r) == nonempty_str(match m {
            None => None,
            Some(v) => Some(opt_seq(v)),
        }),
{
    match m {
        Some(Some(t)) => if t.unicode_len() > 0 {
            Some(t)
        } else {
            None
        },
        _ => None,
    }
}

/// The envelope of a trimmed body, given what the body parsed to.
pub fn envelope_from(body: &str, parsed: Option<Option<Vec<(String, Option<String>)>>>) -> (e: PushEnvelope)
    ensures
        e@ == envelope_v(body@, members_view(parsed)),
{
    match parsed {
        Some(Some(ms)) => {
            let kind = match find_member(&ms, "type") {
                Some(Some(t)) => if str_eq(t.as_str(), "turn") {
                    PushKind::Turn
                } else {
                    PushKind::Briefing
                },
                _ => PushKind::Briefing,
            };
            let session_id = nonempty(find_member(&ms, "session"));
            let text = match nonempty(find_member(&ms, "text")) {
                Some(t) => t,
                None => owned(body),
            };
            PushEnvelope { kind, session_id, text }
        },
        _ => briefing(body),
    }
}

/// Decode a push body. Never fails: an unparseable body is a briefing
/// carrying the raw (trimmed) text, so a sender that got the envelope wrong
/// still reaches the user.
pub fn parse_push(raw: &str) -> (e: PushEnvelope)
    ensures
        e@ == envelope_v(trim_v(raw@), json_members(trim_v(raw@))),
{
    let trimmed = trim(raw);
    let parsed = json_object_members(trimmed.as_str());
    envelope_from(trimmed.as_str(), parsed)
}

// ---------------------------------------------------------------------------
// Laws
// ---------------------------------------------------------------------------

/// The two delivery paths to one finished turn announce it once: a turn of
/// the session this client announced within the window stays quiet, while a
/// briefing is never deduplicated against a turn.
pub proof fn the_second_path_to_a_turn_stays_quiet(e: EnvelopeV, c: ContextV)
    requires
        announced_v(e, c),
    ensures
        e.kind == PushKind::Turn ==> !decide_v(e, c).show,
        e.kind == PushKind::Briefing && !c.app_visible && e.text.len() > 0 ==> decide_v(e, c).show,
{
}

/// A turn is announced only where this client can call it its own: never
/// for another session than the armed one, and never unarmed on a client
/// that announces only the turns it armed. Briefings are never gated so.
pub proof fn only_attributed_turns_are_announced(e: EnvelopeV, c: ContextV)
    ensures
        e.kind == PushKind::Turn && c.armed_session is Some && e.session_id != c.armed_session ==> !decide_v(e, c).show,
        e.kind == PushKind::Turn && c.armed_session is None && !c.announce_any_turn ==> !decide_v(e, c).show,
        e.kind == PushKind::Briefing ==> decide_v(e, c).show == (!c.app_visible && e.text.len() > 0),
{
}

/// A shown turn leads with the session's title when one is known, else the
/// shared wording.
pub proof fn a_known_title_leads_a_turn(e: EnvelopeV, c: ContextV)
    requires
        decide_v(e, c).show,
        e.kind == PushKind::Turn,
    ensures
        decide_v(e, c).summary == (match c.session_title {
            Some(t) => if t.len() > 0 { t } else { "Grouse replied"@ },
            None => "Grouse replied"@,
        }),
{
}

} // verus!
