//! A roam peer's session state: browse-mode session list, the open chat's
//! transcript, backgrounded (staged) sessions, and the decisions of its
//! supervisor. Dialing, the handshake and the cache files are the caller's;
//! every decision they feed is made here.

use vstd::prelude::*;
use vstd::string::*;

use crate::roam::{capped, cap_messages, replay_tail_decision, tail_safe, REPLAY_TAIL};
use crate::spine::{
    block_text, concat_all, concat_texts, content_block_text, join_lines, join_texts, opt_status_text, opt_text,
    tool_call_kind, tool_call_status_str, tool_kind_v, ContentBlock, SessionUpdate, ToolUpdateInfo,
};
use crate::text::{concat, contains_str, ends_with_str, has_substring, has_suffix, owned, push_decimal, decimal, str_eq};
use crate::types::{
    ConfigOption, ConfigV, ConnectionStatus, KindV, Message, MessageV, SessionSummary, StatusV, StreamEvent, StreamV,
    SummaryV, ToolCallKind, TranscriptEvent, TranscriptV, opt_view,
};

verus! {

/// A backgrounded session's staged transcript and its unseen-content dot.
pub struct Staged {
    pub messages: Vec<Message>,
    pub has_new: bool,
}

pub struct StagedV {
    pub messages: Seq<MessageV>,
    pub has_new: bool,
}

impl View for Staged {
    type V = StagedV;

    open spec fn view(&self) -> StagedV {
        StagedV { messages: self.messages.deep_view(), has_new: self.has_new }
    }
}

/// One `session/list` entry of a peer, read off the reply.
#[derive(Clone, Debug, PartialEq)]
pub struct ListedSession {
    /// The raw session id.
    pub session_id: String,
    pub cwd: String,
    pub title: Option<String>,
    pub updated_at: Option<String>,
}

/// What the peer's command loop is asked to do.
#[derive(Clone, Debug, PartialEq)]
pub enum PeerCommand {
    OpenSession { session_id: String, cwd: String },
    NewSession { cwd: String },
    Relist,
    Close,
}

/// A transcript the caller persists under `key`, stamped `updated_at`.
#[derive(Clone, Debug, PartialEq)]
pub struct SaveRequest {
    pub key: String,
    pub transcript: Vec<Message>,
    pub updated_at: String,
}

/// What a peer decision asks of the caller, in order.
#[derive(Clone, Debug, PartialEq)]
pub enum PeerEvent {
    Transcript(TranscriptEvent),
    Stream(StreamEvent),
    /// Forward the update's usage figures on the stream.
    Usage,
    ActiveRun { session_id: String, run_id: String },
    Touched { session_id: String, title: String, updated_at: String },
    /// First backgrounded content for a session (prefixed id): the caller
    /// stamps the current time.
    StagedTouch { session_id: String },
    Config { options: Vec<ConfigOption> },
    /// The peer's status line.
    Status(String),
    /// The peer's session list.
    Sessions(Vec<SessionSummary>),
}

pub enum PeerEventV {
    Transcript(TranscriptV),
    Stream(StreamV),
    Usage,
    ActiveRun { session_id: Seq<char>, run_id: Seq<char> },
    Touched { session_id: Seq<char>, title: Seq<char>, updated_at: Seq<char> },
    StagedTouch { session_id: Seq<char> },
    Config { options: Seq<ConfigV> },
    Status(Seq<char>),
    Sessions(Seq<SummaryV>),
}

impl View for PeerEvent {
    type V = PeerEventV;

    open spec fn view(&self) -> PeerEventV {
        match self {
            PeerEvent::Transcript(e) => PeerEventV::Transcript(e@),
            PeerEvent::Stream(e) => PeerEventV::Stream(e@),
            PeerEvent::Usage => PeerEventV::Usage,
            PeerEvent::ActiveRun { session_id, run_id } => PeerEventV::ActiveRun {
                session_id: session_id@,
                run_id: run_id@,
            },
            PeerEvent::Touched { session_id, title, updated_at } => PeerEventV::Touched {
                session_id: session_id@,
                title: title@,
                updated_at: updated_at@,
            },
            PeerEvent::StagedTouch { session_id } => PeerEventV::StagedTouch { session_id: session_id@ },
            PeerEvent::Config { options } => PeerEventV::Config { options: options.deep_view() },
            PeerEvent::Status(s) => PeerEventV::Status(s@),
            PeerEvent::Sessions(ss) => PeerEventV::Sessions(ss.deep_view()),
        }
    }
}

impl DeepView for PeerEvent {
    type V = PeerEventV;

    open spec fn deep_view(&self) -> PeerEventV {
        self@
    }
}

/// The session state of one roam peer.
pub struct PeerState {
    label: String,
    status: ConnectionStatus,
    sessions: Vec<SessionSummary>,
    open_session_id: Option<String>,
    session_cwds: Vec<(String, String)>,
    resume_pending: Option<String>,
    active_run: Option<String>,
    replaying: bool,
    transcript: Vec<Message>,
    closing: bool,
    ever_ready: bool,
    staging: Vec<(String, Staged)>,
}

pub struct PeerV {
    /// The stable peer name: the routing key and the `roam:<label>:` prefix.
    pub label: Seq<char>,
    pub status: StatusV,
    /// The last `session/list`, ids prefixed `roam:<label>:`.
    pub sessions: Seq<SummaryV>,
    /// The raw id of the session open on this peer.
    pub open_session_id: Option<Seq<char>>,
    /// Each listed session's cwd, by raw id (the last entry for an id wins).
    pub session_cwds: Seq<(Seq<char>, Seq<char>)>,
    /// A dropped link with a session open owes its re-open.
    pub resume_pending: Option<Seq<char>>,
    /// The live turn's run id.
    pub active_run: Option<Seq<char>>,
    /// A load/reconnect replay is streaming: re-delivered content dedupes.
    pub replaying: bool,
    /// The open session's transcript.
    pub transcript: Seq<MessageV>,
    pub closing: bool,
    pub ever_ready: bool,
    /// Backgrounded sessions' content, by raw id (the first entry for an id
    /// is the one read and written).
    pub staging: Seq<(Seq<char>, StagedV)>,
}

pub open spec fn str_opt(o: Option<String>) -> Option<Seq<char>> {
    match o {
        Some(s) => Some(s@),
        None => None,
    }
}

impl View for PeerState {
    type V = PeerV;

    closed spec fn view(&self) -> PeerV {
        PeerV {
            label: self.label@,
            status: self.status@,
            sessions: self.sessions.deep_view(),
            open_session_id: str_opt(self.open_session_id),
            session_cwds: self.session_cwds@.map_values(|p: (String, String)| (p.0@, p.1@)),
            resume_pending: str_opt(self.resume_pending),
            active_run: str_opt(self.active_run),
            replaying: self.replaying,
            transcript: self.transcript.deep_view(),
            closing: self.closing,
            ever_ready: self.ever_ready,
            staging: self.staging@.map_values(|p: (String, Staged)| (p.0@, p.1@)),
        }
    }
}

// ---------------------------------------------------------------------------
// Ids and lookups
// ---------------------------------------------------------------------------

/// `roam:<label>:`.
pub open spec fn prefix_of(label: Seq<char>) -> Seq<char> {
    "roam:"@ + label + ":"@
}

/// The id a peer session goes by outside the peer: `roam:<label>:<raw>`.
pub open spec fn prefixed(label: Seq<char>, raw: Seq<char>) -> Seq<char> {
    prefix_of(label) + raw
}

/// The raw id of `id`: the peer's own prefix stripped, any other id as is.
pub open spec fn raw_of(label: Seq<char>, id: Seq<char>) -> Seq<char> {
    if prefix_of(label).is_prefix_of(id) {
        id.skip(prefix_of(label).len() as int)
    } else {
        id
    }
}

/// The first staged entry for `raw`.
pub open spec fn stage_index(st: Seq<(Seq<char>, StagedV)>, raw: Seq<char>) -> Option<int>
    decreases st.len(),
{
    if st.len() == 0 {
        None
    } else if st[0].0 == raw {
        Some(0)
    } else {
        match stage_index(st.drop_first(), raw) {
            Some(k) => Some(k + 1),
            None => None,
        }
    }
}

/// The staged content of `raw` (empty when nothing is staged).
pub open spec fn staged_of(st: Seq<(Seq<char>, StagedV)>, raw: Seq<char>) -> StagedV {
    match stage_index(st, raw) {
        Some(k) => st[k].1,
        None => StagedV { messages: Seq::empty(), has_new: false },
    }
}

/// Write the staged content of `raw`.
pub open spec fn stage_set(st: Seq<(Seq<char>, StagedV)>, raw: Seq<char>, v: StagedV) -> Seq<(Seq<char>, StagedV)> {
    match stage_index(st, raw) {
        Some(k) => st.update(k, (raw, v)),
        None => st.push((raw, v)),
    }
}

/// Drop the staged content of `raw`.
pub open spec fn stage_remove(st: Seq<(Seq<char>, StagedV)>, raw: Seq<char>) -> Seq<(Seq<char>, StagedV)> {
    match stage_index(st, raw) {
        Some(k) => st.remove(k),
        None => st,
    }
}

/// The cwd listed for `raw` (the last entry wins; empty when unlisted).
pub open spec fn cwd_of(cwds: Seq<(Seq<char>, Seq<char>)>, raw: Seq<char>) -> Seq<char>
    decreases cwds.len(),
{
    if cwds.len() == 0 {
        Seq::empty()
    } else if cwds.last().0 == raw {
        cwds.last().1
    } else {
        cwd_of(cwds.drop_last(), raw)
    }
}

/// The first listed session whose id ends with `:<raw>`.
pub open spec fn listed_index(ss: Seq<SummaryV>, raw: Seq<char>) -> Option<int>
    decreases ss.len(),
{
    if ss.len() == 0 {
        None
    } else if has_suffix(ss[0].id, ":"@ + raw) {
        Some(0)
    } else {
        match listed_index(ss.drop_first(), raw) {
            Some(k) => Some(k + 1),
            None => None,
        }
    }
}

pub proof fn lemma_stage_index(st: Seq<(Seq<char>, StagedV)>, raw: Seq<char>)
    ensures
        stage_index(st, raw) matches Some(k) ==> 0 <= k < st.len() && st[k].0 == raw,
    decreases st.len(),
{
    if st.len() > 0 && st[0].0 != raw {
        lemma_stage_index(st.drop_first(), raw);
    }
}

pub proof fn lemma_listed_index(ss: Seq<SummaryV>, raw: Seq<char>)
    ensures
        listed_index(ss, raw) matches Some(k) ==> 0 <= k < ss.len(),
    decreases ss.len(),
{
    if ss.len() > 0 && !has_suffix(ss[0].id, ":"@ + raw) {
        lemma_listed_index(ss.drop_first(), raw);
    }
}

fn opt_clone(o: &Option<String>) -> (r: Option<String>)
    ensures
        str_opt(r) == str_opt(*o),
{
    match o {
        Some(s) => Some(s.clone()),
        None => None,
    }
}

/// The peer's id prefix.
fn prefix_string(label: &str) -> (p: String)
    ensures
        p@ == prefix_of(label@),
{
    let mut p = concat("roam:", label);
    p.append(":");
    p
}

/// `roam:<label>:<raw>`.
pub fn prefixed_id(label: &str, raw: &str) -> (id: String)
    ensures
        id@ == prefixed(label@, raw@),
{
    let mut p = prefix_string(label);
    p.append(raw);
    p
}

/// The raw id of `id` (the peer's own prefix stripped).
pub fn strip_prefix(label: &str, id: &str) -> (raw: String)
    ensures
        raw@ == raw_of(label@, id@),
{
    let p = prefix_string(label);
    if crate::spine::has_prefix(id, p.as_str()) {
        owned(id.substring_char(p.unicode_len(), id.unicode_len()))
    } else {
        owned(id)
    }
}

fn find_stage(st: &Vec<(String, Staged)>, raw: &str) -> (r: Option<usize>)
    ensures
        r matches Some(k) ==> k < st.len() && stage_index(st@.map_values(|p: (String, Staged)| (p.0@, p.1@)), raw@) == Some(k as int),
        r is None ==> stage_index(st@.map_values(|p: (String, Staged)| (p.0@, p.1@)), raw@) is None,
{
    let ghost all = st@.map_values(|p: (String, Staged)| (p.0@, p.1@));
    let n = st.len();
    let mut i: usize = 0;
    assert(all.skip(0) =~= all);
    while i < n
        invariant
            n == st.len(),
            i <= n,
            all == st@.map_values(|p: (String, Staged)| (p.0@, p.1@)),
            stage_index(all, raw@) == crate::transcript::shift(stage_index(all.skip(i as int), raw@), i as int),
        decreases n - i,
    {
        assert(all.skip(i as int)[0] == (st@[i as int].0@, st@[i as int].1@));
        assert(all.skip(i as int).drop_first() =~= all.skip(i + 1));
        if str_eq(st[i].0.as_str(), raw) {
            assert(stage_index(all.skip(i as int), raw@) == Some(0int));
            return Some(i);
        }
        i = i + 1;
    }
    assert(all.skip(n as int) =~= Seq::<(Seq<char>, StagedV)>::empty());
    None
}

fn find_listed(ss: &Vec<SessionSummary>, raw: &str) -> (r: Option<usize>)
    ensures
        r matches Some(k) ==> listed_index(ss.deep_view(), raw@) == Some(k as int) && k < ss.len(),
        r is None ==> listed_index(ss.deep_view(), raw@) is None,
{
    let suffix = concat(":", raw);
    let n = ss.len();
    let mut i: usize = 0;
    assert(ss.deep_view().skip(0) =~= ss.deep_view());
    while i < n
        invariant
            n == ss.len(),
            i <= n,
            suffix@ == ":"@ + raw@,
            listed_index(ss.deep_view(), raw@) == crate::transcript::shift(listed_index(ss.deep_view().skip(i as int), raw@), i as int),
        decreases n - i,
    {
        assert(ss.deep_view().skip(i as int)[0] == ss[i as int]@);
        assert(ss.deep_view().skip(i as int).drop_first() =~= ss.deep_view().skip(i + 1));
        if ends_with_str(ss[i].id.as_str(), suffix.as_str()) {
            return Some(i);
        }
        i = i + 1;
    }
    assert(ss.deep_view().skip(n as int) =~= Seq::<SummaryV>::empty());
    None
}

fn find_cwd(cwds: &Vec<(String, String)>, raw: &str) -> (r: String)
    ensures
        r@ == cwd_of(cwds@.map_values(|p: (String, String)| (p.0@, p.1@)), raw@),
{
    let ghost all = cwds@.map_values(|p: (String, String)| (p.0@, p.1@));
    let mut i: usize = cwds.len();
    assert(all.take(i as int) =~= all);
    while i > 0
        invariant
            i <= cwds.len(),
            all == cwds@.map_values(|p: (String, String)| (p.0@, p.1@)),
            cwd_of(all, raw@) == cwd_of(all.take(i as int), raw@),
        decreases i,
    {
        assert(all.take(i as int).last() == (cwds@[i - 1].0@, cwds@[i - 1].1@));
        assert(all.take(i as int).drop_last() =~= all.take(i - 1));
        if str_eq(cwds[i - 1].0.as_str(), raw) {
            return cwds[i - 1].1.clone();
        }
        i = i - 1;
    }
    String::new()
}

} // verus!

verus! {

// ---------------------------------------------------------------------------
// Accumulation
// ---------------------------------------------------------------------------

/// A fresh message.
pub open spec fn bubble(role: Seq<char>, text: Seq<char>, id: Seq<char>) -> MessageV {
    MessageV { id, role, content: text, output: Seq::empty() }
}

pub open spec fn ev_view(e: Option<TranscriptEvent>) -> Option<TranscriptV> {
    match e {
        Some(ev) => Some(ev@),
        None => None,
    }
}

/// The first message of `role` with id `id`.
pub open spec fn find_msg(ms: Seq<MessageV>, role: Seq<char>, id: Seq<char>) -> Option<int>
    decreases ms.len(),
{
    if ms.len() == 0 {
        None
    } else if ms[0].role == role && ms[0].id == id {
        Some(0)
    } else {
        match find_msg(ms.drop_first(), role, id) {
            Some(k) => Some(k + 1),
            None => None,
        }
    }
}

pub proof fn lemma_find_msg(ms: Seq<MessageV>, role: Seq<char>, id: Seq<char>)
    ensures
        find_msg(ms, role, id) matches Some(k) ==> 0 <= k < ms.len() && ms[k].role == role && ms[k].id == id,
    decreases ms.len(),
{
    if ms.len() > 0 && !(ms[0].role == role && ms[0].id == id) {
        lemma_find_msg(ms.drop_first(), role, id);
    }
}

/// Content already on screen: a replay re-delivering text the bubble holds,
/// or a live stream re-delivering the bubble's exact tail.
pub open spec fn already_shown(content: Seq<char>, text: Seq<char>, replaying: bool) -> bool {
    ||| (replaying && has_substring(content, text))
    ||| (!replaying && has_suffix(content, text) && content != text)
}

/// A text chunk onto a message list (before the cap). An id-less chunk grows
/// the last message only while it is still the open id-less stream of this
/// role; an id'd chunk grows the message with that role and id; anything
/// else starts a new message. A chunk a replay re-delivers (content the
/// message already holds) is skipped outright: re-delivered content must not
/// double, so it neither grows the message nor opens a duplicate one.
pub open spec fn acc_text(ms: Seq<MessageV>, role: Seq<char>, text: Seq<char>, mid: Seq<char>, replaying: bool) -> (Seq<MessageV>, Option<TranscriptV>) {
    let fresh = (ms.push(bubble(role, text, mid)), Some(TranscriptV::Append { message: bubble(role, text, mid) }));
    if mid.len() == 0 {
        if ms.len() > 0 && ms.last().role == role && ms.last().id.len() == 0 {
            let m = ms.last();
            if already_shown(m.content, text, replaying) {
                (ms, None)
            } else {
                let m2 = MessageV { content: m.content + text, ..m };
                (ms.update(ms.len() - 1, m2), Some(TranscriptV::Update { message: MessageV { output: Seq::empty(), ..m2 } }))
            }
        } else {
            fresh
        }
    } else {
        match find_msg(ms, role, mid) {
            Some(j) => if !replaying || !has_substring(ms[j].content, text) {
                let m2 = MessageV { content: ms[j].content + text, ..ms[j] };
                (ms.update(j, m2), Some(TranscriptV::Update { message: MessageV { output: Seq::empty(), ..m2 } }))
            } else {
                (ms, None)
            },
            None => fresh,
        }
    }
}

/// A tool call (or its completion) onto a message list (before the cap): the
/// tool message with this id takes the title and output, else a new one.
pub open spec fn acc_tool(ms: Seq<MessageV>, id: Seq<char>, title: Seq<char>, output: Seq<char>) -> (Seq<MessageV>, TranscriptV) {
    match find_msg(ms, "tool"@, id) {
        Some(j) => {
            let m2 = MessageV { content: title, output, ..ms[j] };
            (ms.update(j, m2), TranscriptV::Update { message: m2 })
        },
        None => {
            let m = MessageV { id, role: "tool"@, content: title, output };
            (ms.push(m), TranscriptV::Append { message: m })
        },
    }
}

/// Live tool output onto a message list: appends to the tool message's
/// output (unless a replay re-delivers what it holds).
pub open spec fn acc_tool_append(ms: Seq<MessageV>, id: Seq<char>, output: Seq<char>, replaying: bool) -> (Seq<MessageV>, Option<TranscriptV>) {
    match find_msg(ms, "tool"@, id) {
        Some(j) => if !replaying || !has_substring(ms[j].output, output) {
            let m2 = MessageV { output: ms[j].output + output, ..ms[j] };
            (ms.update(j, m2), Some(TranscriptV::Update { message: m2 }))
        } else {
            (ms, None)
        },
        None => (ms, None),
    }
}

fn find_msg_exec(ms: &Vec<Message>, role: &str, id: &str) -> (r: Option<usize>)
    ensures
        r matches Some(k) ==> find_msg(ms.deep_view(), role@, id@) == Some(k as int) && k < ms.len(),
        r is None ==> find_msg(ms.deep_view(), role@, id@) is None,
{
    let n = ms.len();
    let mut i: usize = 0;
    assert(ms.deep_view().skip(0) =~= ms.deep_view());
    while i < n
        invariant
            n == ms.len(),
            i <= n,
            find_msg(ms.deep_view(), role@, id@) == crate::transcript::shift(find_msg(ms.deep_view().skip(i as int), role@, id@), i as int),
        decreases n - i,
    {
        assert(ms.deep_view().skip(i as int)[0] == ms[i as int]@);
        assert(ms.deep_view().skip(i as int).drop_first() =~= ms.deep_view().skip(i + 1));
        if str_eq(ms[i].role.as_str(), role) && str_eq(ms[i].id.as_str(), id) {
            return Some(i);
        }
        i = i + 1;
    }
    assert(ms.deep_view().skip(n as int) =~= Seq::<MessageV>::empty());
    None
}

fn push_msg(ms: &mut Vec<Message>, m: Message)
    ensures
        final(ms).deep_view() == old(ms).deep_view().push(m@),
{
    let ghost before = ms.deep_view();
    ms.push(m);
    assert(ms.deep_view() =~= before.push(m@));
}

fn set_msg(ms: &mut Vec<Message>, j: usize, m: Message)
    requires
        j < old(ms).len(),
    ensures
        final(ms).deep_view() == old(ms).deep_view().update(j as int, m@),
{
    let ghost before = ms.deep_view();
    let ghost mv = m@;
    ms[j] = m;
    assert(ms.deep_view() =~= before.update(j as int, mv));
}

fn text_onto(ms: &mut Vec<Message>, role: &str, text: &str, mid: &str, replaying: bool) -> (e: Option<TranscriptEvent>)
    ensures
        final(ms).deep_view() == acc_text(old(ms).deep_view(), role@, text@, mid@, replaying).0,
        ev_view(e) == acc_text(old(ms).deep_view(), role@, text@, mid@, replaying).1,
{
    let fresh_msg = Message { id: owned(mid), role: owned(role), content: owned(text), output: String::new() };
    if mid.unicode_len() == 0 {
        let n = ms.len();
        let open = n > 0 && str_eq(ms[n - 1].role.as_str(), role) && ms[n - 1].id.unicode_len() == 0;
        if open {
            let last = n - 1;
            let shown = (replaying && contains_str(ms[last].content.as_str(), text)) || (!replaying && ends_with_str(
                ms[last].content.as_str(),
                text,
            ) && !str_eq(ms[last].content.as_str(), text));
            if shown {
                return None;
            }
            let mut m2 = ms[last].duplicate();
            m2.content.append(text);
            let ev = TranscriptEvent::Update {
                message: Message { id: m2.id.clone(), role: m2.role.clone(), content: m2.content.clone(), output: String::new() },
            };
            set_msg(ms, last, m2);
            return Some(ev);
        }
    } else {
        match find_msg_exec(ms, role, mid) {
            Some(j) => {
                proof {
                    lemma_find_msg(old(ms).deep_view(), role@, mid@);
                }
                if !replaying || !contains_str(ms[j].content.as_str(), text) {
                    let mut m2 = ms[j].duplicate();
                    m2.content.append(text);
                    let ev = TranscriptEvent::Update {
                        message: Message { id: m2.id.clone(), role: m2.role.clone(), content: m2.content.clone(), output: String::new() },
                    };
                    set_msg(ms, j, m2);
                    return Some(ev);
                }
                return None;
            },
            None => {},
        }
    }
    let ev = TranscriptEvent::Append { message: fresh_msg.duplicate() };
    push_msg(ms, fresh_msg);
    Some(ev)
}

fn tool_onto(ms: &mut Vec<Message>, id: &str, title: &str, output: &str) -> (e: TranscriptEvent)
    ensures
        final(ms).deep_view() == acc_tool(old(ms).deep_view(), id@, title@, output@).0,
        e@ == acc_tool(old(ms).deep_view(), id@, title@, output@).1,
{
    match find_msg_exec(ms, "tool", id) {
        Some(j) => {
            let mut m2 = ms[j].duplicate();
            m2.content = owned(title);
            m2.output = owned(output);
            let ev = TranscriptEvent::Update { message: m2.duplicate() };
            set_msg(ms, j, m2);
            ev
        },
        None => {
            let m = Message { id: owned(id), role: owned("tool"), content: owned(title), output: owned(output) };
            let ev = TranscriptEvent::Append { message: m.duplicate() };
            push_msg(ms, m);
            ev
        },
    }
}

fn tool_append_onto(ms: &mut Vec<Message>, id: &str, output: &str, replaying: bool) -> (e: Option<TranscriptEvent>)
    ensures
        final(ms).deep_view() == acc_tool_append(old(ms).deep_view(), id@, output@, replaying).0,
        ev_view(e) == acc_tool_append(old(ms).deep_view(), id@, output@, replaying).1,
{
    match find_msg_exec(ms, "tool", id) {
        Some(j) => {
            if !replaying || !contains_str(ms[j].output.as_str(), output) {
                let mut m2 = ms[j].duplicate();
                m2.output.append(output);
                let ev = TranscriptEvent::Update { message: m2.duplicate() };
                set_msg(ms, j, m2);
                Some(ev)
            } else {
                None
            }
        },
        None => None,
    }
}

} // verus!

verus! {

// ---------------------------------------------------------------------------
// The peer's state transitions
// ---------------------------------------------------------------------------

pub open spec fn is_mine(p: PeerV, sid: Seq<char>) -> bool {
    p.open_session_id == Some(sid)
}

/// The messages a chunk for `sid` lands in: the open transcript, or the
/// session's staged content.
pub open spec fn target_of(p: PeerV, sid: Seq<char>) -> Seq<MessageV> {
    if is_mine(p, sid) {
        p.transcript
    } else {
        staged_of(p.staging, sid).messages
    }
}

/// Write back the messages for `sid` (capped); a backgrounded session gets
/// its unseen-content dot.
pub open spec fn retarget(p: PeerV, sid: Seq<char>, ms: Seq<MessageV>) -> PeerV {
    if is_mine(p, sid) {
        PeerV { transcript: capped(ms), ..p }
    } else {
        PeerV { staging: stage_set(p.staging, sid, StagedV { messages: capped(ms), has_new: true }), ..p }
    }
}

/// The first backgrounded content of a session is announced once.
pub open spec fn touch_events(p: PeerV, sid: Seq<char>) -> Seq<PeerEventV> {
    if !is_mine(p, sid) && !staged_of(p.staging, sid).has_new {
        seq![PeerEventV::StagedTouch { session_id: prefixed(p.label, sid) }]
    } else {
        Seq::empty()
    }
}

pub open spec fn opt_ev(e: Option<TranscriptV>) -> Seq<PeerEventV> {
    match e {
        Some(ev) => seq![PeerEventV::Transcript(ev)],
        None => Seq::empty(),
    }
}

/// The summaries as listed to the UI: the dot read from the staging, the
/// list-only fields blank.
pub open spec fn listing(p: PeerV) -> Seq<SummaryV> {
    p.sessions.map_values(|s: SummaryV| SummaryV {
        has_new: staged_of(p.staging, s.id).has_new,
        project_id: None,
        message_count: 0,
        model: Seq::empty(),
        has_recipe: false,
        archived: false,
        ..s
    })
}

/// The transcript owed to the cache for the open session.
pub struct SaveV {
    pub key: Seq<char>,
    pub transcript: Seq<MessageV>,
    pub updated_at: Seq<char>,
}

pub open spec fn save_v(p: PeerV) -> Option<SaveV> {
    match p.open_session_id {
        Some(o) => Some(
            SaveV {
                key: prefixed(p.label, o),
                transcript: p.transcript,
                updated_at: match listed_index(p.sessions, o) {
                    Some(k) => p.sessions[k].updated_at,
                    None => Seq::empty(),
                },
            },
        ),
        None => None,
    }
}

pub open spec fn save_view(r: Option<SaveRequest>) -> Option<SaveV> {
    match r {
        Some(s) => Some(SaveV { key: s.key@, transcript: s.transcript.deep_view(), updated_at: s.updated_at@ }),
        None => None,
    }
}

/// A peer accepts session intents while ready or reconnecting.
pub open spec fn accepts(p: PeerV) -> bool {
    p.status is Ready || p.status is Connecting
}

/// The cached transcript supplied for `raw`.
pub open spec fn cached_of(cached: Seq<(Seq<char>, Seq<MessageV>)>, raw: Seq<char>) -> Option<Seq<MessageV>>
    decreases cached.len(),
{
    if cached.len() == 0 {
        None
    } else if cached[0].0 == raw {
        Some(cached[0].1)
    } else {
        cached_of(cached.drop_first(), raw)
    }
}

pub open spec fn cached_view(cached: Seq<(String, Vec<Message>)>) -> Seq<(Seq<char>, Seq<MessageV>)> {
    cached.map_values(|p: (String, Vec<Message>)| (p.0@, p.1.deep_view()))
}

/// Seed the staging of listed, not yet staged sessions from the cache.
pub open spec fn seeded(st: Seq<(Seq<char>, StagedV)>, list: Seq<ListedSession>, cached: Seq<(Seq<char>, Seq<MessageV>)>) -> Seq<(Seq<char>, StagedV)>
    decreases list.len(),
{
    if list.len() == 0 {
        st
    } else {
        let prev = seeded(st, list.drop_last(), cached);
        let raw = list.last().session_id@;
        if stage_index(prev, raw) is Some {
            prev
        } else {
            match cached_of(cached, raw) {
                Some(ms) => prev.push((raw, StagedV { messages: ms, has_new: false })),
                None => prev,
            }
        }
    }
}

pub open spec fn summary_of_listed(p: PeerV, s: ListedSession) -> SummaryV {
    SummaryV {
        id: prefixed(p.label, s.session_id@),
        title: opt_text(s.title),
        updated_at: opt_text(s.updated_at),
        last_message_snippet: None,
        project_id: None,
        message_count: 0,
        model: Seq::empty(),
        has_recipe: false,
        has_new: staged_of(p.staging, s.session_id@).has_new,
        archived: false,
    }
}

/// `session/list` arrived: store it (prefixed), seed staging from the
/// cache, flip to ready. Browse mode: nothing is opened.
pub open spec fn apply_sessions_v(p: PeerV, list: Seq<ListedSession>, cached: Seq<(Seq<char>, Seq<MessageV>)>) -> PeerV {
    PeerV {
        sessions: list.map_values(|s: ListedSession| summary_of_listed(p, s)),
        session_cwds: list.map_values(|s: ListedSession| (s.session_id@, s.cwd@)),
        staging: seeded(p.staging, list, cached),
        status: StatusV::Ready,
        ever_ready: true,
        ..p
    }
}

/// `open`: the session's content comes from staging, else the cache, else
/// nothing; the replay that follows dedupes against it.
pub open spec fn open_v(p: PeerV, raw: Seq<char>, cached: Option<Seq<MessageV>>) -> PeerV {
    PeerV {
        transcript: match stage_index(p.staging, raw) {
            Some(k) => p.staging[k].1.messages,
            None => match cached {
                Some(ms) => ms,
                None => Seq::empty(),
            },
        },
        staging: stage_remove(p.staging, raw),
        open_session_id: Some(raw),
        replaying: true,
        ..p
    }
}

/// The link ended (`clean`: a close, else a drop). A drop owes the open
/// session's resume and frees a run that died with it, silently: the
/// supervisor owns the status line.
pub open spec fn ended_v(p: PeerV, clean: bool) -> (PeerV, Seq<PeerEventV>) {
    if p.closing {
        (PeerV { status: StatusV::Disconnected, ..p }, Seq::empty())
    } else if clean {
        (PeerV { status: StatusV::Disconnected, ..p }, seq![PeerEventV::Status("disconnected"@)])
    } else {
        (
            PeerV { status: StatusV::Disconnected, resume_pending: p.open_session_id, active_run: None, ..p },
            if p.active_run is Some && p.open_session_id is Some {
                seq![PeerEventV::ActiveRun { session_id: prefixed(p.label, p.open_session_id.unwrap()), run_id: Seq::empty() }]
            } else {
                Seq::empty()
            },
        )
    }
}

/// The run lifecycle of an info update (only while the peer owns the active
/// session): a run id starts a turn (and ends the replay), its absence ends
/// the turn in flight.
pub open spec fn run_v(p: PeerV, sid: Seq<char>, i: crate::spine::SessionInfo, active: bool) -> (PeerV, Seq<PeerEventV>) {
    if active && i.has_goose_meta {
        match i.active_run_id {
            Some(r) => (
                PeerV { active_run: Some(r@), replaying: false, ..p },
                seq![PeerEventV::ActiveRun { session_id: prefixed(p.label, sid), run_id: r@ }],
            ),
            None => if p.active_run is Some {
                (
                    PeerV { active_run: None, ..p },
                    seq![PeerEventV::ActiveRun { session_id: prefixed(p.label, sid), run_id: Seq::empty() }],
                )
            } else {
                (p, Seq::empty())
            },
        }
    } else {
        (p, Seq::empty())
    }
}

/// The listed session `sid` takes a live title / stamp.
pub open spec fn retitle(p: PeerV, sid: Seq<char>, title: Seq<char>, updated: Seq<char>) -> PeerV {
    if title.len() == 0 && updated.len() == 0 {
        p
    } else {
        match listed_index(p.sessions, sid) {
            Some(k) => PeerV {
                sessions: p.sessions.update(
                    k,
                    SummaryV {
                        title: if title.len() > 0 { title } else { p.sessions[k].title },
                        updated_at: if updated.len() > 0 { updated } else { p.sessions[k].updated_at },
                        ..p.sessions[k]
                    },
                ),
                ..p
            },
            None => p,
        }
    }
}

/// A text chunk of `sid`: accumulate, then forward (only for the open
/// session while the peer owns the active session).
pub open spec fn chunk_peer_v(p: PeerV, sid: Seq<char>, role: Seq<char>, text: Seq<char>, mid: Seq<char>, stream: StreamV, active: bool) -> (PeerV, Seq<PeerEventV>) {
    let r = acc_text(target_of(p, sid), role, text, mid, p.replaying);
    (
        retarget(p, sid, r.0),
        touch_events(p, sid) + if active && is_mine(p, sid) {
            opt_ev(r.1) + seq![PeerEventV::Stream(stream)]
        } else {
            Seq::empty()
        },
    )
}

/// The peer's `session/update` dispatch for session `sid`.
pub open spec fn peer_dispatch_v(p: PeerV, sid: Seq<char>, u: SessionUpdate, active: bool) -> (PeerV, Seq<PeerEventV>) {
    let mine = is_mine(p, sid);
    match u {
        SessionUpdate::UserMessageChunk { content, message_id } => {
            let text = block_text(content@);
            let mid = opt_text(message_id);
            chunk_peer_v(p, sid, "user"@, text, mid, StreamV::UserChunk { text, message_id: mid }, active)
        },
        SessionUpdate::AgentMessageChunk { content, message_id } => {
            let text = block_text(content@);
            let mid = opt_text(message_id);
            chunk_peer_v(p, sid, "agent"@, text, mid, StreamV::AgentChunk { text, message_id: mid }, active)
        },
        SessionUpdate::AgentThoughtChunk { content, message_id } => {
            let text = block_text(content@);
            chunk_peer_v(p, sid, "thought"@, text, opt_text(message_id), StreamV::ThoughtChunk { text }, active)
        },
        SessionUpdate::ToolCall(t) => {
            let r = acc_tool(target_of(p, sid), t.tool_call_id@, t.title@, Seq::empty());
            (
                retarget(p, sid, r.0),
                touch_events(p, sid) + if active && mine {
                    seq![
                        PeerEventV::Transcript(r.1),
                        PeerEventV::Stream(StreamV::ToolCall { title: t.title@, detail: opt_text(t.command), tool_call_id: t.tool_call_id@, kind: tool_kind_v(t) }),
                    ]
                } else {
                    Seq::empty()
                },
            )
        },
        SessionUpdate::ToolCallUpdate(tu) => {
            let status = opt_status_text(tu.status);
            let live = tu.live_chunks is Some;
            let output = match tu.live_chunks {
                Some(cs) => concat_all(cs.deep_view()),
                None => join_lines(tu.content_texts.deep_view()),
            };
            let r = if live {
                acc_tool_append(target_of(p, sid), tu.tool_call_id@, output, p.replaying)
            } else {
                // A completion carries no title: its status labels the row,
                // and the result rides the output.
                let t = acc_tool(target_of(p, sid), tu.tool_call_id@, status, output);
                (t.0, Some(t.1))
            };
            (
                retarget(p, sid, r.0),
                touch_events(p, sid) + if active && mine {
                    opt_ev(r.1) + seq![PeerEventV::Stream(StreamV::ToolCallUpdate { id: tu.tool_call_id@, status, output, live })]
                } else {
                    Seq::empty()
                },
            )
        },
        SessionUpdate::UsageUpdate => (p, if active && mine { seq![PeerEventV::Usage] } else { Seq::empty() }),
        SessionUpdate::SessionInfoUpdate(i) => {
            let r = run_v(p, sid, i, active);
            let title = opt_text(i.title);
            let updated = opt_text(i.updated_at);
            (
                retitle(r.0, sid, title, updated),
                r.1 + if active && (title.len() > 0 || updated.len() > 0) {
                    seq![PeerEventV::Touched { session_id: sid, title, updated_at: updated }]
                } else {
                    Seq::empty()
                },
            )
        },
        SessionUpdate::ConfigOptionUpdate { options } => (p, if active { seq![PeerEventV::Config { options: options.deep_view() }] } else { Seq::empty() }),
        _ => (p, Seq::empty()),
    }
}

} // verus!

verus! {

impl PeerState {
    /// The staging slot of `sid` (created empty when missing), marked as
    /// holding unseen content; returns the slot and whether it is the
    /// session's first unseen content.
    fn stage_slot(&mut self, sid: &str) -> (r: (usize, bool))
        ensures
            r.0 < final(self).staging.len(),
            r.1 == !staged_of(old(self)@.staging, sid@).has_new,
            final(self).staging@[r.0 as int].0@ == sid@,
            final(self).staging@[r.0 as int].1.messages.deep_view() == staged_of(old(self)@.staging, sid@).messages,
            final(self).staging@[r.0 as int].1.has_new,
            ({
                let st = old(self)@.staging;
                let k = r.0 as int;
                forall|v: StagedV| (#[trigger] final(self)@.staging.update(k, (sid@, v))) == stage_set(st, sid@, v)
            }),
            final(self)@ == (PeerV { staging: final(self)@.staging, ..old(self)@ }),
    {
        let ghost st = self@.staging;
        proof {
            lemma_stage_index(st, sid@);
        }
        match find_stage(&self.staging, sid) {
            Some(k) => {
                let first = !self.staging[k].1.has_new;
                let ghost before = self.staging@;
                self.staging[k].1.has_new = true;
                proof {
                    assert(self.staging@ == before.update(k as int, (before[k as int].0, Staged { messages: before[k as int].1.messages, has_new: true })));
                    assert forall|v: StagedV| (#[trigger] self@.staging.update(k as int, (sid@, v))) == stage_set(st, sid@, v) by {
                        assert(self@.staging.update(k as int, (sid@, v)) =~= st.update(k as int, (sid@, v)));
                    }
                }
                (k, first)
            },
            None => {
                let ghost before = self.staging@;
                self.staging.push((owned(sid), Staged { messages: Vec::new(), has_new: true }));
                let k = self.staging.len() - 1;
                proof {
                    assert(self.staging@ == before.push(self.staging@[k as int]));
                    assert(self.staging@[k as int].1.messages.deep_view() =~= Seq::<MessageV>::empty());
                    assert forall|v: StagedV| (#[trigger] self@.staging.update(k as int, (sid@, v))) == stage_set(st, sid@, v) by {
                        assert(self@.staging.update(k as int, (sid@, v)) =~= st.push((sid@, v)));
                    }
                }
                (k, true)
            },
        }
    }

    fn is_open(&self, sid: &str) -> (r: bool)
        ensures
            r == is_mine(self@, sid@),
    {
        match &self.open_session_id {
            Some(o) => str_eq(o.as_str(), sid),
            None => false,
        }
    }

    /// The staged-touch event for a first unseen content.
    fn touch(&self, sid: &str, first: bool) -> (out: Vec<PeerEvent>)
        ensures
            out.deep_view() == (if first { seq![PeerEventV::StagedTouch { session_id: prefixed(self@.label, sid@) }] } else { Seq::empty() }),
    {
        let mut out: Vec<PeerEvent> = Vec::new();
        if first {
            out.push(PeerEvent::StagedTouch { session_id: prefixed_id(self.label.as_str(), sid) });
        }
        assert(out.deep_view() =~= (if first { seq![PeerEventV::StagedTouch { session_id: prefixed(self@.label, sid@) }] } else { Seq::<PeerEventV>::empty() }));
        out
    }

    /// A text chunk of `sid` into its target.
    fn accumulate(&mut self, sid: &str, role: &str, text: &str, mid: &str) -> (r: (Option<TranscriptEvent>, Vec<PeerEvent>))
        ensures
            final(self)@ == retarget(old(self)@, sid@, acc_text(target_of(old(self)@, sid@), role@, text@, mid@, old(self)@.replaying).0),
            ev_view(r.0) == acc_text(target_of(old(self)@, sid@), role@, text@, mid@, old(self)@.replaying).1,
            r.1.deep_view() == touch_events(old(self)@, sid@),
    {
        let replaying = self.replaying;
        if self.is_open(sid) {
            let e = text_onto(&mut self.transcript, role, text, mid, replaying);
            cap_messages(&mut self.transcript);
            let out: Vec<PeerEvent> = Vec::new();
            assert(out.deep_view() =~= Seq::<PeerEventV>::empty());
            (e, out)
        } else {
            let ghost st0 = self@.staging;
            let (k, first) = self.stage_slot(sid);
            let ghost mid_st = self@.staging;
            let ghost raw_st = self.staging@;
            let e = text_onto(&mut self.staging[k].1.messages, role, text, mid, replaying);
            cap_messages(&mut self.staging[k].1.messages);
            proof {
                let v = StagedV { messages: self.staging@[k as int].1.messages.deep_view(), has_new: true };
                assert(self.staging@[k as int].0 == raw_st[k as int].0);
                assert(self@.staging =~= mid_st.update(k as int, (sid@, v)));
                assert(self@.staging == stage_set(st0, sid@, v));
            }
            (e, self.touch(sid, first))
        }
    }

    /// A tool call (or completion) of `sid` into its target.
    fn accumulate_tool(&mut self, sid: &str, id: &str, title: &str, output: &str) -> (r: (TranscriptEvent, Vec<PeerEvent>))
        ensures
            final(self)@ == retarget(old(self)@, sid@, acc_tool(target_of(old(self)@, sid@), id@, title@, output@).0),
            r.0@ == acc_tool(target_of(old(self)@, sid@), id@, title@, output@).1,
            r.1.deep_view() == touch_events(old(self)@, sid@),
    {
        if self.is_open(sid) {
            let e = tool_onto(&mut self.transcript, id, title, output);
            cap_messages(&mut self.transcript);
            let out: Vec<PeerEvent> = Vec::new();
            assert(out.deep_view() =~= Seq::<PeerEventV>::empty());
            (e, out)
        } else {
            let ghost st0 = self@.staging;
            let (k, first) = self.stage_slot(sid);
            let ghost mid_st = self@.staging;
            let ghost raw_st = self.staging@;
            let e = tool_onto(&mut self.staging[k].1.messages, id, title, output);
            cap_messages(&mut self.staging[k].1.messages);
            proof {
                let v = StagedV { messages: self.staging@[k as int].1.messages.deep_view(), has_new: true };
                assert(self.staging@[k as int].0 == raw_st[k as int].0);
                assert(self@.staging =~= mid_st.update(k as int, (sid@, v)));
                assert(self@.staging == stage_set(st0, sid@, v));
            }
            (e, self.touch(sid, first))
        }
    }

    /// Live tool output of `sid` into its target.
    fn accumulate_tool_append(&mut self, sid: &str, id: &str, output: &str) -> (r: (Option<TranscriptEvent>, Vec<PeerEvent>))
        ensures
            final(self)@ == retarget(old(self)@, sid@, acc_tool_append(target_of(old(self)@, sid@), id@, output@, old(self)@.replaying).0),
            ev_view(r.0) == acc_tool_append(target_of(old(self)@, sid@), id@, output@, old(self)@.replaying).1,
            r.1.deep_view() == touch_events(old(self)@, sid@),
    {
        let replaying = self.replaying;
        if self.is_open(sid) {
            let e = tool_append_onto(&mut self.transcript, id, output, replaying);
            cap_messages(&mut self.transcript);
            let out: Vec<PeerEvent> = Vec::new();
            assert(out.deep_view() =~= Seq::<PeerEventV>::empty());
            (e, out)
        } else {
            let ghost st0 = self@.staging;
            let (k, first) = self.stage_slot(sid);
            let ghost mid_st = self@.staging;
            let ghost raw_st = self.staging@;
            let e = tool_append_onto(&mut self.staging[k].1.messages, id, output, replaying);
            cap_messages(&mut self.staging[k].1.messages);
            proof {
                let v = StagedV { messages: self.staging@[k as int].1.messages.deep_view(), has_new: true };
                assert(self.staging@[k as int].0 == raw_st[k as int].0);
                assert(self@.staging =~= mid_st.update(k as int, (sid@, v)));
                assert(self@.staging == stage_set(st0, sid@, v));
            }
            (e, self.touch(sid, first))
        }
    }
}

} // verus!

verus! {

/// The listed session a raw id is saved under, as the cache stamps it.
fn listed_stamp(ss: &Vec<SessionSummary>, raw: &str) -> (r: String)
    ensures
        r@ == (match listed_index(ss.deep_view(), raw@) {
            Some(k) => ss.deep_view()[k].updated_at,
            None => Seq::<char>::empty(),
        }),
{
    match find_listed(ss, raw) {
        Some(k) => ss[k].updated_at.clone(),
        None => String::new(),
    }
}

fn copy_messages(ms: &Vec<Message>) -> (r: Vec<Message>)
    ensures
        r.deep_view() == ms.deep_view(),
{
    let mut r: Vec<Message> = Vec::new();
    let n = ms.len();
    for i in 0..n
        invariant
            n == ms.len(),
            r.deep_view() == ms.deep_view().take(i as int),
    {
        let ghost before = r.deep_view();
        r.push(ms[i].duplicate());
        assert(r.deep_view() =~= before.push(ms[i as int]@));
        assert(ms.deep_view().take(i + 1) =~= ms.deep_view().take(i as int).push(ms[i as int]@));
    }
    assert(ms.deep_view().take(n as int) =~= ms.deep_view());
    r
}

impl PeerState {
    /// A fresh peer, connecting.
    pub fn new(label: &str) -> (p: Self)
        ensures
            p@.label == label@,
            p@.status == StatusV::Connecting,
            p@.sessions.len() == 0,
            p@.open_session_id is None,
            p@.session_cwds.len() == 0,
            p@.resume_pending is None,
            p@.active_run is None,
            !p@.replaying,
            p@.transcript.len() == 0,
            !p@.closing,
            !p@.ever_ready,
            p@.staging.len() == 0,
    {
        PeerState {
            label: owned(label),
            status: ConnectionStatus::Connecting,
            sessions: Vec::new(),
            open_session_id: None,
            session_cwds: Vec::new(),
            resume_pending: None,
            active_run: None,
            replaying: false,
            transcript: Vec::new(),
            closing: false,
            ever_ready: false,
            staging: Vec::new(),
        }
    }

    /// The peer's stable label (the routing key).
    pub fn label(&self) -> (l: String)
        ensures
            l@ == self@.label,
    {
        self.label.clone()
    }

    /// Current peer status.
    pub fn status(&self) -> (s: ConnectionStatus)
        ensures
            s@ == self@.status,
    {
        self.status.duplicate()
    }

    /// The session list as the UI gets it (ids prefixed `roam:<label>:`).
    pub fn sessions(&self) -> (v: Vec<SessionSummary>)
        ensures
            v.deep_view() == listing(self@),
    {
        let mut v: Vec<SessionSummary> = Vec::new();
        let n = self.sessions.len();
        for i in 0..n
            invariant
                n == self.sessions.len(),
                v.deep_view() == listing(self@).take(i as int),
        {
            let s = &self.sessions[i];
            let has_new = match find_stage(&self.staging, s.id.as_str()) {
                Some(k) => self.staging[k].1.has_new,
                None => false,
            };
            proof {
                lemma_stage_index(self@.staging, s.id@);
            }
            assert(has_new == staged_of(self@.staging, s.id@).has_new);
            let ghost before = v.deep_view();
            v.push(SessionSummary {
                id: s.id.clone(),
                title: s.title.clone(),
                updated_at: s.updated_at.clone(),
                last_message_snippet: opt_clone(&s.last_message_snippet),
                project_id: None,
                message_count: 0,
                model: String::new(),
                has_recipe: false,
                has_new,
                archived: false,
            });
            assert(v.deep_view() =~= before.push(listing(self@)[i as int]));
            assert(listing(self@).take(i + 1) =~= listing(self@).take(i as int).push(listing(self@)[i as int]));
        }
        assert(listing(self@).take(n as int) =~= listing(self@));
        v
    }

    /// The open session's id (`roam:<label>:<raw>`), if one is open.
    pub fn active_session_id(&self) -> (r: Option<String>)
        ensures
            str_opt(r) == (match self@.open_session_id {
                Some(o) => Some(prefixed(self@.label, o)),
                None => None,
            }),
    {
        match &self.open_session_id {
            Some(o) => Some(prefixed_id(self.label.as_str(), o.as_str())),
            None => None,
        }
    }

    /// The open session's transcript.
    pub fn transcript(&self) -> (v: Vec<Message>)
        ensures
            v.deep_view() == self@.transcript,
    {
        copy_messages(&self.transcript)
    }

    /// The content staged for a backgrounded session, if any.
    pub fn staged(&self, raw: &str) -> (r: Option<Vec<Message>>)
        ensures
            r matches Some(v) ==> stage_index(self@.staging, raw@) is Some && v.deep_view() == staged_of(self@.staging, raw@).messages,
            r is None ==> stage_index(self@.staging, raw@) is None,
    {
        proof {
            lemma_stage_index(self@.staging, raw@);
        }
        match find_stage(&self.staging, raw) {
            Some(k) => Some(copy_messages(&self.staging[k].1.messages)),
            None => None,
        }
    }

    /// The session resume owed to the next live link.
    pub fn resume_pending(&self) -> (r: Option<String>)
        ensures
            str_opt(r) == self@.resume_pending,
    {
        opt_clone(&self.resume_pending)
    }

    /// Consume the owed resume (before loading, so a session that cannot be
    /// re-opened cannot wedge every later reconnect).
    pub fn take_resume(&mut self) -> (r: Option<String>)
        ensures
            str_opt(r) == old(self)@.resume_pending,
            final(self)@ == (PeerV { resume_pending: None, ..old(self)@ }),
    {
        let r = opt_clone(&self.resume_pending);
        self.resume_pending = None;
        r
    }

    /// The live turn's run id.
    pub fn active_run(&self) -> (r: Option<String>)
        ensures
            str_opt(r) == self@.active_run,
    {
        opt_clone(&self.active_run)
    }

    /// Record the live turn's run id.
    pub fn set_active_run(&mut self, run: Option<String>)
        ensures
            final(self)@ == (PeerV { active_run: str_opt(run), ..old(self)@ }),
    {
        self.active_run = run;
    }

    /// The cwd `session/list` gave for `raw` (empty when unlisted).
    pub fn session_cwd(&self, raw: &str) -> (c: String)
        ensures
            c@ == cwd_of(self@.session_cwds, raw@),
    {
        find_cwd(&self.session_cwds, raw)
    }

    /// Whether content is staged for `raw` (the cache need not be read).
    pub fn is_staged(&self, raw: &str) -> (r: bool)
        ensures
            r == (stage_index(self@.staging, raw@) is Some),
    {
        find_stage(&self.staging, raw).is_some()
    }

    /// Whether an explicit close is under way.
    pub fn closing(&self) -> (r: bool)
        ensures
            r == self@.closing,
    {
        self.closing
    }

    /// Whether the current attempt's handshake reached ready.
    pub fn ever_ready(&self) -> (r: bool)
        ensures
            r == self@.ever_ready,
    {
        self.ever_ready
    }

    /// A new supervised attempt starts: readiness is per link.
    pub fn begin_attempt(&mut self)
        ensures
            final(self)@ == (PeerV { ever_ready: false, ..old(self)@ }),
    {
        self.ever_ready = false;
    }

    /// Open a session on this peer (fire-and-forget into the command loop):
    /// accepted while ready or reconnecting, the id stripped to the raw id, a
    /// blank cwd resolved to the session's own listed cwd.
    pub fn open_session(&self, session_id: &str, cwd: &str) -> (c: Option<PeerCommand>)
        ensures
            c matches Some(PeerCommand::OpenSession { session_id: sid, cwd: d }) ==> accepts(self@)
                && sid@ == raw_of(self@.label, session_id@)
                && d@ == (if cwd@.len() == 0 { cwd_of(self@.session_cwds, raw_of(self@.label, session_id@)) } else { cwd@ }),
            c is None <==> !accepts(self@),
            c is Some ==> c matches Some(PeerCommand::OpenSession { .. }),
    {
        let ok = match self.status {
            ConnectionStatus::Ready => true,
            ConnectionStatus::Connecting => true,
            _ => false,
        };
        if !ok {
            return None;
        }
        let raw = strip_prefix(self.label.as_str(), session_id);
        let cwd = if cwd.unicode_len() == 0 {
            find_cwd(&self.session_cwds, raw.as_str())
        } else {
            owned(cwd)
        };
        Some(PeerCommand::OpenSession { session_id: raw, cwd })
    }

    /// Create a fresh session on this peer: accepted while ready or
    /// reconnecting.
    pub fn new_session(&self, cwd: &str) -> (c: Option<PeerCommand>)
        ensures
            c matches Some(PeerCommand::NewSession { cwd: d }) ==> d@ == cwd@,
            c is None <==> !accepts(self@),
            c is Some ==> c matches Some(PeerCommand::NewSession { .. }),
    {
        match self.status {
            ConnectionStatus::Ready => Some(PeerCommand::NewSession { cwd: owned(cwd) }),
            ConnectionStatus::Connecting => Some(PeerCommand::NewSession { cwd: owned(cwd) }),
            _ => None,
        }
    }

    /// Re-fetch the session list (after a session mutation).
    pub fn relist(&self) -> (c: PeerCommand)
        ensures
            c == PeerCommand::Relist,
    {
        PeerCommand::Relist
    }

    /// The open session's transcript, owed to the cache on every exit from
    /// the session (stamped with the session's listed `updatedAt`).
    pub fn save_open_transcript(&self) -> (r: Option<SaveRequest>)
        ensures
            save_view(r) == save_v(self@),
    {
        match &self.open_session_id {
            Some(o) => {
                proof {
                    lemma_listed_index(self@.sessions, o@);
                }
                Some(SaveRequest {
                    key: prefixed_id(self.label.as_str(), o.as_str()),
                    transcript: copy_messages(&self.transcript),
                    updated_at: listed_stamp(&self.sessions, o.as_str()),
                })
            },
            None => None,
        }
    }

    /// How many trailing messages `session/load` should replay: a tail only
    /// when the cache's stamp (`cached_at`, when a cache was read) equals the
    /// session's listed `updatedAt`; `None` = full replay.
    pub fn replay_tail(&self, raw: &str, cached_at: Option<&str>) -> (r: Option<usize>)
        ensures
            r == (match listed_index(self@.sessions, raw@) {
                Some(k) => match cached_at {
                    Some(c) => if tail_safe(c@, self@.sessions[k].updated_at) { Some(REPLAY_TAIL) } else { None },
                    None => None,
                },
                None => None::<usize>,
            }),
    {
        proof {
            lemma_listed_index(self@.sessions, raw@);
        }
        match find_listed(&self.sessions, raw) {
            Some(k) => match cached_at {
                Some(c) => replay_tail_decision(c, self.sessions[k].updated_at.as_str()),
                None => None,
            },
            None => None,
        }
    }

    /// The link ended (`clean`: closed, else dropped). Returns the transcript
    /// owed to the cache and the events.
    pub fn connection_ended(&mut self, clean: bool) -> (r: (Option<SaveRequest>, Vec<PeerEvent>))
        ensures
            save_view(r.0) == save_v(old(self)@),
            final(self)@ == ended_v(old(self)@, clean).0,
            r.1.deep_view() == ended_v(old(self)@, clean).1,
    {
        let save = self.save_open_transcript();
        let mut out: Vec<PeerEvent> = Vec::new();
        self.status = ConnectionStatus::Disconnected;
        if self.closing {
            assert(out.deep_view() =~= Seq::<PeerEventV>::empty());
            return (save, out);
        }
        if clean {
            out.push(PeerEvent::Status(owned("disconnected")));
            assert(out.deep_view() =~= seq![PeerEventV::Status("disconnected"@)]);
            return (save, out);
        }
        self.resume_pending = opt_clone(&self.open_session_id);
        let dead_run = self.active_run.is_some();
        self.active_run = None;
        if dead_run {
            match &self.open_session_id {
                Some(raw) => {
                    out.push(PeerEvent::ActiveRun {
                        session_id: prefixed_id(self.label.as_str(), raw.as_str()),
                        run_id: String::new(),
                    });
                },
                None => {},
            }
        }
        assert(out.deep_view() =~= ended_v(old(self)@, clean).1);
        (save, out)
    }

    /// An explicit disconnect. Returns the transcript owed to the cache,
    /// whether the close proceeds (false when one is already under way), and
    /// the events.
    pub fn close(&mut self) -> (r: (Option<SaveRequest>, bool, Vec<PeerEvent>))
        ensures
            save_view(r.0) == save_v(old(self)@),
            r.1 == !old(self)@.closing,
            final(self)@ == (if old(self)@.closing { old(self)@ } else { PeerV { closing: true, status: StatusV::Disconnected, ..old(self)@ } }),
            r.2.deep_view() == (if old(self)@.closing { Seq::<PeerEventV>::empty() } else { seq![PeerEventV::Status("disconnected"@)] }),
    {
        let save = self.save_open_transcript();
        let mut out: Vec<PeerEvent> = Vec::new();
        if self.closing {
            assert(out.deep_view() =~= Seq::<PeerEventV>::empty());
            return (save, false, out);
        }
        self.closing = true;
        self.status = ConnectionStatus::Disconnected;
        out.push(PeerEvent::Status(owned("disconnected")));
        assert(out.deep_view() =~= seq![PeerEventV::Status("disconnected"@)]);
        (save, true, out)
    }

    /// A dial / handshake / load failure: an error status (unless closing).
    pub fn fail(&mut self, message: &str) -> (out: Vec<PeerEvent>)
        ensures
            final(self)@ == (if old(self)@.closing { old(self)@ } else { PeerV { status: StatusV::Error { message: message@ }, ..old(self)@ } }),
            out.deep_view() == (if old(self)@.closing { Seq::<PeerEventV>::empty() } else { seq![PeerEventV::Status("error: "@ + message@)] }),
    {
        let mut out: Vec<PeerEvent> = Vec::new();
        if self.closing {
            assert(out.deep_view() =~= Seq::<PeerEventV>::empty());
            return out;
        }
        self.status = ConnectionStatus::Error { message: owned(message) };
        out.push(PeerEvent::Status(concat("error: ", message)));
        assert(out.deep_view() =~= seq![PeerEventV::Status("error: "@ + message@)]);
        out
    }

    /// A turn ended (the prompt's reply, failure or timeout): the stream
    /// ends the turn unconditionally and the run bookkeeping clears.
    pub fn end_turn(&mut self, stop_reason: &str) -> (out: Vec<PeerEvent>)
        ensures
            final(self)@ == (PeerV { active_run: None, ..old(self)@ }),
            out.deep_view() == seq![PeerEventV::Stream(StreamV::RunEnded { stop_reason: stop_reason@ })],
    {
        self.active_run = None;
        let mut out: Vec<PeerEvent> = Vec::new();
        out.push(PeerEvent::Stream(StreamEvent::RunEnded { stop_reason: owned(stop_reason) }));
        assert(out.deep_view() =~= seq![PeerEventV::Stream(StreamV::RunEnded { stop_reason: stop_reason@ })]);
        out
    }
}

} // verus!

verus! {

/// The cached transcript supplied for `raw`.
fn find_cached(cached: &Vec<(String, Vec<Message>)>, raw: &str) -> (r: Option<usize>)
    ensures
        r matches Some(k) ==> k < cached.len() && cached_of(cached_view(cached@), raw@) == Some(cached@[k as int].1.deep_view()),
        r is None ==> cached_of(cached_view(cached@), raw@) is None,
{
    let ghost all = cached_view(cached@);
    let n = cached.len();
    let mut i: usize = 0;
    assert(all.skip(0) =~= all);
    while i < n
        invariant
            n == cached.len(),
            i <= n,
            all == cached_view(cached@),
            cached_of(all, raw@) == cached_of(all.skip(i as int), raw@),
        decreases n - i,
    {
        assert(all.skip(i as int)[0] == (cached@[i as int].0@, cached@[i as int].1.deep_view()));
        assert(all.skip(i as int).drop_first() =~= all.skip(i + 1));
        if str_eq(cached[i].0.as_str(), raw) {
            return Some(i);
        }
        i = i + 1;
    }
    assert(all.skip(n as int) =~= Seq::<(Seq<char>, Seq<MessageV>)>::empty());
    None
}

impl PeerState {
    /// `session/list` arrived: store it (ids prefixed), remember each
    /// session's cwd, seed not-yet-staged sessions from their cached
    /// transcripts (`cached`, by raw id), flip to ready. Browse mode: nothing
    /// is opened.
    pub fn apply_sessions(&mut self, list: &Vec<ListedSession>, cached: &Vec<(String, Vec<Message>)>) -> (out: Vec<PeerEvent>)
        ensures
            final(self)@ == apply_sessions_v(old(self)@, list@, cached_view(cached@)),
            out.deep_view() == seq![PeerEventV::Sessions(listing(final(self)@)), PeerEventV::Status("ready"@)],
    {
        let ghost p0 = self@;
        let n = list.len();
        let mut sessions: Vec<SessionSummary> = Vec::new();
        let mut cwds: Vec<(String, String)> = Vec::new();
        for i in 0..n
            invariant
                n == list.len(),
                self@ == p0,
                sessions.deep_view() == list@.take(i as int).map_values(|s: ListedSession| summary_of_listed(p0, s)),
                cwds@.map_values(|p: (String, String)| (p.0@, p.1@)) == list@.take(i as int).map_values(|s: ListedSession| (s.session_id@, s.cwd@)),
        {
            let s = &list[i];
            proof {
                lemma_stage_index(self@.staging, s.session_id@);
            }
            let has_new = match find_stage(&self.staging, s.session_id.as_str()) {
                Some(k) => self.staging[k].1.has_new,
                None => false,
            };
            let ghost s0 = sessions.deep_view();
            let ghost c0 = cwds@;
            sessions.push(SessionSummary {
                id: prefixed_id(self.label.as_str(), s.session_id.as_str()),
                title: match &s.title {
                    Some(t) => t.clone(),
                    None => String::new(),
                },
                updated_at: match &s.updated_at {
                    Some(t) => t.clone(),
                    None => String::new(),
                },
                last_message_snippet: None,
                project_id: None,
                message_count: 0,
                model: String::new(),
                has_recipe: false,
                has_new,
                archived: false,
            });
            cwds.push((s.session_id.clone(), s.cwd.clone()));
            assert(list@.take(i + 1) =~= list@.take(i as int).push(list@[i as int]));
            assert(sessions.deep_view() =~= s0.push(summary_of_listed(p0, list@[i as int])));
            assert(cwds@.map_values(|p: (String, String)| (p.0@, p.1@)) =~= c0.map_values(|p: (String, String)| (p.0@, p.1@)).push((s.session_id@, s.cwd@)));
        }
        assert(list@.take(n as int) =~= list@);
        assert(seeded(p0.staging, list@.take(0), cached_view(cached@)) =~= p0.staging) by {
            assert(list@.take(0) =~= Seq::<ListedSession>::empty());
        }
        for i in 0..n
            invariant
                n == list.len(),
                self@ == (PeerV { staging: seeded(p0.staging, list@.take(i as int), cached_view(cached@)), ..p0 }),
        {
            let s = &list[i];
            assert(list@.take(i + 1).drop_last() =~= list@.take(i as int));
            assert(list@.take(i + 1).last() == list@[i as int]);
            if find_stage(&self.staging, s.session_id.as_str()).is_none() {
                match find_cached(cached, s.session_id.as_str()) {
                    Some(k) => {
                        let ghost st = self.staging@;
                        self.staging.push((s.session_id.clone(), Staged { messages: copy_messages(&cached[k].1), has_new: false }));
                        assert(self@.staging =~= seeded(p0.staging, list@.take(i as int), cached_view(cached@)).push((s.session_id@, StagedV { messages: cached@[k as int].1.deep_view(), has_new: false })));
                    },
                    None => {},
                }
            }
        }
        self.sessions = sessions;
        self.session_cwds = cwds;
        self.status = ConnectionStatus::Ready;
        self.ever_ready = true;
        assert(self@ == apply_sessions_v(p0, list@, cached_view(cached@)));
        let mut out: Vec<PeerEvent> = Vec::new();
        out.push(PeerEvent::Sessions(self.sessions()));
        out.push(PeerEvent::Status(owned("ready")));
        assert(out.deep_view() =~= seq![PeerEventV::Sessions(listing(self@)), PeerEventV::Status("ready"@)]);
        out
    }

    /// A `session/load` succeeded: the peer owns this session now. The
    /// previous session's transcript is owed to the cache; the session's
    /// content comes from staging (clearing its dot), else from `cached`,
    /// else nothing; exactly one `Clear` goes out (an empty session still
    /// clears the previous chat).
    pub fn open(&mut self, raw: &str, cached: Option<Vec<Message>>) -> (r: (Option<SaveRequest>, Vec<PeerEvent>))
        ensures
            save_view(r.0) == save_v(old(self)@),
            final(self)@ == open_v(old(self)@, raw@, match cached {
                Some(ms) => Some(ms.deep_view()),
                None => None,
            }),
            r.1.deep_view() == seq![PeerEventV::Transcript(TranscriptV::Clear)],
    {
        let save = self.save_open_transcript();
        proof {
            lemma_stage_index(self@.staging, raw@);
        }
        let ghost st = self@.staging;
        let ghost raw_st = self.staging@;
        let transcript = match find_stage(&self.staging, raw) {
            Some(k) => {
                let entry = self.staging.remove(k);
                assert(entry == raw_st[k as int]);
                assert(self@.staging =~= st.remove(k as int));
                assert(entry.1.messages.deep_view() == st[k as int].1.messages);
                entry.1.messages
            },
            None => {
                assert(stage_remove(st, raw@) == st);
                match cached {
                    Some(ms) => ms,
                    None => {
                        let v: Vec<Message> = Vec::new();
                        assert(v.deep_view() =~= Seq::<MessageV>::empty());
                        v
                    },
                }
            },
        };
        self.transcript = transcript;
        self.open_session_id = Some(owned(raw));
        self.replaying = true;
        let mut out: Vec<PeerEvent> = Vec::new();
        out.push(PeerEvent::Transcript(TranscriptEvent::Clear));
        assert(out.deep_view() =~= seq![PeerEventV::Transcript(TranscriptV::Clear)]);
        (save, out)
    }
}

} // verus!

verus! {

fn push_opt_ev(out: &mut Vec<PeerEvent>, e: Option<TranscriptEvent>)
    ensures
        final(out).deep_view() == old(out).deep_view() + opt_ev(ev_view(e)),
{
    let ghost o0 = out.deep_view();
    match e {
        Some(ev) => {
            out.push(PeerEvent::Transcript(ev));
        },
        None => {},
    }
    assert(out.deep_view() =~= o0 + opt_ev(ev_view(e)));
}

fn push_ev(out: &mut Vec<PeerEvent>, e: PeerEvent)
    ensures
        final(out).deep_view() == old(out).deep_view().push(e@),
{
    let ghost o0 = out.deep_view();
    out.push(e);
    assert(out.deep_view() =~= o0.push(e@));
}

fn opt_string(o: Option<String>) -> (s: String)
    ensures
        s@ == opt_text(o),
{
    match o {
        Some(s) => s,
        None => String::new(),
    }
}

impl PeerState {
    fn chunk_in(&mut self, sid: &str, role: &str, text: &str, mid: &str, stream: StreamEvent, active: bool) -> (out: Vec<PeerEvent>)
        ensures
            final(self)@ == chunk_peer_v(old(self)@, sid@, role@, text@, mid@, stream@, active).0,
            out.deep_view() == chunk_peer_v(old(self)@, sid@, role@, text@, mid@, stream@, active).1,
    {
        let mine = self.is_open(sid);
        let (e, mut out) = self.accumulate(sid, role, text, mid);
        if active && mine {
            push_opt_ev(&mut out, e);
            push_ev(&mut out, PeerEvent::Stream(stream));
        }
        assert(out.deep_view() =~= chunk_peer_v(old(self)@, sid@, role@, text@, mid@, stream@, active).1);
        out
    }

    fn info_in(&mut self, sid: &str, i: crate::spine::SessionInfo, active: bool) -> (out: Vec<PeerEvent>)
        ensures
            final(self)@ == peer_dispatch_v(old(self)@, sid@, SessionUpdate::SessionInfoUpdate(i), active).0,
            out.deep_view() == peer_dispatch_v(old(self)@, sid@, SessionUpdate::SessionInfoUpdate(i), active).1,
    {
        let ghost p0 = self@;
        let mut out: Vec<PeerEvent> = Vec::new();
        if active && i.has_goose_meta {
            match &i.active_run_id {
                Some(r) => {
                    self.active_run = Some(r.clone());
                    self.replaying = false;
                    push_ev(&mut out, PeerEvent::ActiveRun { session_id: prefixed_id(self.label.as_str(), sid), run_id: r.clone() });
                },
                None => {
                    if self.active_run.is_some() {
                        self.active_run = None;
                        push_ev(&mut out, PeerEvent::ActiveRun { session_id: prefixed_id(self.label.as_str(), sid), run_id: String::new() });
                    }
                },
            }
        }
        assert(self@ == run_v(p0, sid@, i, active).0);
        assert(out.deep_view() =~= run_v(p0, sid@, i, active).1);
        let ghost p1 = self@;
        let title = opt_string(i.title);
        let updated = opt_string(i.updated_at);
        if title.unicode_len() > 0 || updated.unicode_len() > 0 {
            proof {
                lemma_listed_index(p1.sessions, sid@);
            }
            match find_listed(&self.sessions, sid) {
                Some(k) => {
                    let ghost before = self.sessions.deep_view();
                    if title.unicode_len() > 0 {
                        self.sessions[k].title = title.clone();
                    }
                    if updated.unicode_len() > 0 {
                        self.sessions[k].updated_at = updated.clone();
                    }
                    assert(self.sessions.deep_view() =~= retitle(p1, sid@, title@, updated@).sessions);
                },
                None => {},
            }
            if active {
                push_ev(&mut out, PeerEvent::Touched { session_id: owned(sid), title, updated_at: updated });
            }
        }
        out
    }

    fn tool_in(&mut self, sid: &str, t: crate::spine::ToolCallInfo, active: bool) -> (out: Vec<PeerEvent>)
        ensures
            final(self)@ == peer_dispatch_v(old(self)@, sid@, SessionUpdate::ToolCall(t), active).0,
            out.deep_view() == peer_dispatch_v(old(self)@, sid@, SessionUpdate::ToolCall(t), active).1,
    {
        let mine = self.is_open(sid);
        let (kind, detail) = tool_call_kind(&t);
        let empty = String::new();
        let (e, mut out) = self.accumulate_tool(sid, t.tool_call_id.as_str(), t.title.as_str(), empty.as_str());
        let ghost touch = out.deep_view();
        if active && mine {
            push_ev(&mut out, PeerEvent::Transcript(e));
            push_ev(
                &mut out,
                PeerEvent::Stream(StreamEvent::ToolCall { title: t.title.clone(), detail, tool_call_id: t.tool_call_id.clone(), kind }),
            );
        }
        assert(out.deep_view() =~= peer_dispatch_v(old(self)@, sid@, SessionUpdate::ToolCall(t), active).1);
        out
    }

    fn tool_update_in(&mut self, sid: &str, tu: ToolUpdateInfo, active: bool) -> (out: Vec<PeerEvent>)
        ensures
            final(self)@ == peer_dispatch_v(old(self)@, sid@, SessionUpdate::ToolCallUpdate(tu), active).0,
            out.deep_view() == peer_dispatch_v(old(self)@, sid@, SessionUpdate::ToolCallUpdate(tu), active).1,
    {
        let mine = self.is_open(sid);
        let status = match tu.status {
            Some(st) => tool_call_status_str(st),
            None => String::new(),
        };
        let live = tu.live_chunks.is_some();
        let output = match &tu.live_chunks {
            Some(cs) => concat_texts(cs),
            None => join_texts(&tu.content_texts),
        };
        let mut out: Vec<PeerEvent>;
        let e: Option<TranscriptEvent>;
        if live {
            let r = self.accumulate_tool_append(sid, tu.tool_call_id.as_str(), output.as_str());
            e = r.0;
            out = r.1;
        } else {
            let r = self.accumulate_tool(sid, tu.tool_call_id.as_str(), status.as_str(), output.as_str());
            e = Some(r.0);
            out = r.1;
        }
        if active && mine {
            push_opt_ev(&mut out, e);
            push_ev(&mut out, PeerEvent::Stream(StreamEvent::ToolCallUpdate { id: tu.tool_call_id.clone(), status, output, live }));
        }
        assert(out.deep_view() =~= peer_dispatch_v(old(self)@, sid@, SessionUpdate::ToolCallUpdate(tu), active).1);
        out
    }

    /// The peer's `session/update` dispatch. Chat content lands in the open
    /// transcript or, for another session, in its staging (with a one-time
    /// touch); chat events forward only for the open session while the peer
    /// owns the active session (`active`); the run lifecycle and config are
    /// gated on `active` too.
    pub fn dispatch(&mut self, session_id: &str, update: SessionUpdate, active: bool) -> (out: Vec<PeerEvent>)
        ensures
            final(self)@ == peer_dispatch_v(old(self)@, session_id@, update, active).0,
            out.deep_view() == peer_dispatch_v(old(self)@, session_id@, update, active).1,
    {
        let mine = self.is_open(session_id);
        match update {
            SessionUpdate::UserMessageChunk { content, message_id } => {
                let text = content_block_text(&content);
                let mid = opt_string(message_id);
                let stream = StreamEvent::UserChunk { text: text.clone(), message_id: mid.clone() };
                self.chunk_in(session_id, "user", text.as_str(), mid.as_str(), stream, active)
            },
            SessionUpdate::AgentMessageChunk { content, message_id } => {
                let text = content_block_text(&content);
                let mid = opt_string(message_id);
                let stream = StreamEvent::AgentChunk { text: text.clone(), message_id: mid.clone() };
                self.chunk_in(session_id, "agent", text.as_str(), mid.as_str(), stream, active)
            },
            SessionUpdate::AgentThoughtChunk { content, message_id } => {
                let text = content_block_text(&content);
                let mid = opt_string(message_id);
                let stream = StreamEvent::ThoughtChunk { text: text.clone() };
                self.chunk_in(session_id, "thought", text.as_str(), mid.as_str(), stream, active)
            },
            SessionUpdate::ToolCall(t) => self.tool_in(session_id, t, active),
            SessionUpdate::ToolCallUpdate(tu) => self.tool_update_in(session_id, tu, active),
            SessionUpdate::UsageUpdate => {
                let mut out: Vec<PeerEvent> = Vec::new();
                if active && mine {
                    push_ev(&mut out, PeerEvent::Usage);
                }
                assert(out.deep_view() =~= peer_dispatch_v(old(self)@, session_id@, update, active).1);
                out
            },
            SessionUpdate::SessionInfoUpdate(i) => self.info_in(session_id, i, active),
            SessionUpdate::ConfigOptionUpdate { options } => {
                let mut out: Vec<PeerEvent> = Vec::new();
                if active {
                    push_ev(&mut out, PeerEvent::Config { options });
                }
                assert(out.deep_view() =~= peer_dispatch_v(old(self)@, session_id@, update, active).1);
                out
            },
            _ => {
                let out: Vec<PeerEvent> = Vec::new();
                assert(out.deep_view() =~= Seq::<PeerEventV>::empty());
                out
            },
        }
    }
}

} // verus!

verus! {

// ---------------------------------------------------------------------------
// The supervisor's retry decision
// ---------------------------------------------------------------------------

/// Re-dial budget of a peer that has been live: far longer than the main
/// connection's, since a roam host is often a laptop that slept.
pub const RECONNECT_MAX: u32 = 25;

/// Re-dial budget of a peer that never connected (a bad card or a host gone
/// for good should say so soon).
pub const COLD_RECONNECT_MAX: u32 = 6;

/// The supervisor's next step after a failed attempt.
#[derive(Clone, Copy, Debug, PartialEq, Eq)]
pub struct RetryStep {
    /// Stop and surface the failure.
    pub give_up: bool,
    /// Attempts of the current outage (after this step).
    pub attempts: u32,
    /// The peer has reached ready on some link.
    pub ever_connected: bool,
    /// The wait before the next dial.
    pub delay_ms: u64,
}

/// After a failed attempt: a link that had reached ready starts a fresh
/// outage; the budget is the long one once the peer ever connected; within
/// budget the next dial waits the shared backoff.
pub open spec fn retry_v(attempts: u32, ever_connected: bool, ready_last: bool) -> RetryStep {
    let ever = ever_connected || ready_last;
    let a = if ready_last { 0u32 } else { attempts };
    let budget = if ever { RECONNECT_MAX } else { COLD_RECONNECT_MAX };
    if a >= budget {
        RetryStep { give_up: true, attempts: a, ever_connected: ever, delay_ms: 0 }
    } else {
        RetryStep {
            give_up: false,
            attempts: (a + 1) as u32,
            ever_connected: ever,
            delay_ms: crate::spine::backoff_ms(a as nat) as u64,
        }
    }
}

/// The supervisor's decision after a failed attempt.
pub fn next_retry(attempts: u32, ever_connected: bool, ready_last: bool) -> (r: RetryStep)
    ensures
        r == retry_v(attempts, ever_connected, ready_last),
{
    let ever = ever_connected || ready_last;
    let a = if ready_last {
        0
    } else {
        attempts
    };
    let budget = if ever {
        RECONNECT_MAX
    } else {
        COLD_RECONNECT_MAX
    };
    if a >= budget {
        RetryStep { give_up: true, attempts: a, ever_connected: ever, delay_ms: 0 }
    } else {
        RetryStep { give_up: false, attempts: a + 1, ever_connected: ever, delay_ms: crate::spine::reconnect_delay_ms(a) }
    }
}

/// A `session/load` that failed falls back to a fresh `session/new` (not
/// announced as a new session); the peer fails, with the load's error, only
/// when that fallback fails too.
pub fn load_fallback_failure(fallback_ok: bool, load_error: &str) -> (r: Option<String>)
    ensures
        fallback_ok ==> r is None,
        !fallback_ok ==> (r matches Some(m) && m@ == "roam session/load: "@ + load_error@),
{
    if fallback_ok {
        None
    } else {
        Some(concat("roam session/load: ", load_error))
    }
}

/// The give-up message of an exhausted budget.
pub fn give_up_message(reason: &str, attempts: u32) -> (m: String)
    ensures
        m@ == reason@ + " \u{2014} giving up after "@ + decimal(attempts as nat) + " reconnect attempts"@,
{
    let mut m = concat(reason, " \u{2014} giving up after ");
    push_decimal(&mut m, attempts as u64);
    m.append(" reconnect attempts");
    m
}

impl PeerState {
    /// A retry is scheduled: the peer is connecting again (intents queue
    /// rather than vanish), and the status line says which attempt.
    pub fn on_retry(&mut self, attempts: u32) -> (out: Vec<PeerEvent>)
        ensures
            final(self)@ == (PeerV { status: StatusV::Connecting, ..old(self)@ }),
            out.deep_view() == seq![PeerEventV::Status("connecting: reconnect "@ + decimal(attempts as nat))],
    {
        self.status = ConnectionStatus::Connecting;
        let mut line = owned("connecting: reconnect ");
        push_decimal(&mut line, attempts as u64);
        let mut out: Vec<PeerEvent> = Vec::new();
        push_ev(&mut out, PeerEvent::Status(line));
        assert(out.deep_view() =~= seq![PeerEventV::Status("connecting: reconnect "@ + decimal(attempts as nat))]);
        out
    }
}

// ---------------------------------------------------------------------------
// Laws
// ---------------------------------------------------------------------------

/// Nothing from a session other than the open one ever renders in the
/// visible chat: the open transcript is untouched and no transcript or
/// stream event goes out.
pub proof fn other_sessions_never_render(p: PeerV, sid: Seq<char>, u: SessionUpdate, active: bool)
    requires
        !is_mine(p, sid),
    ensures
        peer_dispatch_v(p, sid, u, active).0.transcript == p.transcript,
        forall|i: int| 0 <= i < peer_dispatch_v(p, sid, u, active).1.len() ==> !(#[trigger] peer_dispatch_v(p, sid, u, active).1[i] is Transcript) && !(peer_dispatch_v(p, sid, u, active).1[i] is Stream),
{
    let r = peer_dispatch_v(p, sid, u, active);
    match u {
        SessionUpdate::SessionInfoUpdate(i) => {
            let q = run_v(p, sid, i, active);
            assert(q.0.transcript == p.transcript);
        },
        _ => {},
    }
}

/// A peer that does not own the active session forwards no chat event: the
/// content still accumulates, but nothing renders.
pub proof fn an_inactive_peer_forwards_no_chat(p: PeerV, sid: Seq<char>, u: SessionUpdate)
    ensures
        forall|i: int| 0 <= i < peer_dispatch_v(p, sid, u, false).1.len() ==> !(#[trigger] peer_dispatch_v(p, sid, u, false).1[i] is Transcript) && !(peer_dispatch_v(p, sid, u, false).1[i] is Stream),
{
}

/// A peer that never connected gives up after the short budget; once it has
/// been live, a drop earns a fresh outage with the long budget.
pub proof fn retry_budgets(attempts: u32, ever_connected: bool, ready_last: bool)
    ensures
        !ever_connected && !ready_last ==> (retry_v(attempts, ever_connected, ready_last).give_up <==> attempts >= COLD_RECONNECT_MAX),
        ready_last ==> !retry_v(attempts, ever_connected, ready_last).give_up && retry_v(attempts, ever_connected, ready_last).attempts == 1,
        ever_connected && !ready_last ==> (retry_v(attempts, ever_connected, ready_last).give_up <==> attempts >= RECONNECT_MAX),
{
}

// ---------------------------------------------------------------------------
// Routing
// ---------------------------------------------------------------------------

/// The first peer carrying `l`.
pub open spec fn first_label(peers: Seq<PeerV>, l: Seq<char>) -> Option<int>
    decreases peers.len(),
{
    if peers.len() == 0 {
        None
    } else if peers[0].label == l {
        Some(0)
    } else {
        match first_label(peers.skip(1), l) {
            Some(i) => Some(i + 1),
            None => None,
        }
    }
}

pub proof fn lemma_first_label(peers: Seq<PeerV>, l: Seq<char>, i: int)
    requires
        0 <= i <= peers.len(),
        forall|j: int| 0 <= j < i ==> (#[trigger] peers[j]).label != l,
        i == peers.len() || peers[i].label == l,
    ensures
        first_label(peers, l) == (if i == peers.len() { None } else { Some(i) }),
    decreases peers.len(),
{
    if peers.len() > 0 && i > 0 {
        assert forall|j: int| 0 <= j < i - 1 implies (#[trigger] peers.skip(1)[j]).label != l by {
            assert(peers.skip(1)[j] == peers[j + 1]);
        }
        if i < peers.len() {
            assert(peers.skip(1)[i - 1] == peers[i]);
        }
        lemma_first_label(peers.skip(1), l, i - 1);
    }
}

/// The peer that owns the chat: the first whose label is the active label;
/// `None` when no roam session is active or no peer carries the label.
pub open spec fn active_peer_v(peers: Seq<PeerV>, active: Option<Seq<char>>) -> Option<int> {
    match active {
        None => None,
        Some(l) => first_label(peers, l),
    }
}

/// Routes a chat intent (chat goes to the last-opened session's owner).
pub fn active_peer(peers: &Vec<PeerState>, active_label: &Option<String>) -> (r: Option<usize>)
    ensures
        match r {
            Some(i) => active_peer_v(peers@.map_values(|p: PeerState| p@), str_opt(*active_label)) == Some(i as int)
                && i < peers@.len() && str_opt(*active_label) == Some(peers@[i as int]@.label),
            None => active_peer_v(peers@.map_values(|p: PeerState| p@), str_opt(*active_label)) is None,
        },
{
    let ghost vs = peers@.map_values(|p: PeerState| p@);
    let label = match active_label {
        Some(l) => l,
        None => return None,
    };
    let n = peers.len();
    let mut i: usize = 0;
    while i < n
        invariant
            n == peers@.len(),
            vs == peers@.map_values(|p: PeerState| p@),
            str_opt(*active_label) == Some(label@),
            i <= n,
            forall|j: int| 0 <= j < i ==> (#[trigger] vs[j]).label != label@,
        decreases n - i,
    {
        let l = peers[i].label();
        assert(vs[i as int] == peers@[i as int]@);
        if str_eq(l.as_str(), label.as_str()) {
            proof { lemma_first_label(vs, label@, i as int); }
            return Some(i);
        }
        i = i + 1;
    }
    proof { lemma_first_label(vs, label@, n as int); }
    None
}

} // verus!
