//! TranscriptStore: chunk accumulation into transcript bubbles.
//!
//! - bubbles are keyed by `(role, message_id)`; a new message_id (or a role
//!   change, or a tool call between chunks) starts a new bubble, consecutive
//!   same-role chunks with the same id accumulate;
//! - consecutive *plain* tool calls collapse into a single toolgroup bubble
//!   (chart / MCP-app calls always stay standalone);
//! - live tool output APPENDS, the completion update REPLACES;
//! - every operation returns the events it emits, in order, on the three
//!   listener channels (stream, flat transcript, item stream).

use vstd::prelude::*;
use vstd::string::*;

use crate::text::{concat, decimal, owned, push_char, push_decimal, starts_with_char, str_eq};
use crate::types::{
    Emission, EmissionV, Item, ItemKind, ItemV, Message, MessageV, OpV, StreamEvent, StreamV,
    ToolCall, ToolCallKind, ToolCallV, TranscriptEvent, TranscriptOp, TranscriptV,
    TranscriptWindow, KindV,
};

verus! {

/// Hard cap on retained bubbles: past it the oldest are evicted in bulk down
/// to three quarters of the cap.
pub const MAX_BUBBLES: usize = 2000;

/// How many newest items a paint emits up front.
pub const CLIENT_WINDOW: usize = 60;

/// One tool call in the transcript: a standalone bubble or one entry of a
/// collapsed toolgroup.
#[derive(Clone, Debug, PartialEq)]
pub struct ToolRow {
    pub title: String,
    pub detail: String,
    pub tool_call_id: String,
    pub output: String,
    pub status: String,
    /// `McpApp` only: `<extension>|<uri>`, the resource-read key.
    pub app_key: String,
    /// `Chart` only: the chart spec.
    pub spec: String,
}

/// An accumulated transcript bubble.
#[derive(Clone, Debug, PartialEq)]
pub enum Bubble {
    Text {
        /// Bubble key (`message_id`); empty for live bubbles without an id.
        id: String,
        /// Stable item id: the message id, or a core-assigned `@n`.
        uid: String,
        role: String,
        text: String,
        thought: bool,
    },
    /// A lone plain tool call.
    Tool(ToolRow),
    /// Consecutive plain tool calls collapsed into one bubble.
    ToolGroup(Vec<ToolRow>),
    /// A chart call: always a standalone bubble.
    Chart(ToolRow),
    /// An MCP-app call: always a standalone bubble.
    McpApp(ToolRow),
}

pub struct RowV {
    pub title: Seq<char>,
    pub detail: Seq<char>,
    pub tool_call_id: Seq<char>,
    pub output: Seq<char>,
    pub status: Seq<char>,
    pub app_key: Seq<char>,
    pub spec: Seq<char>,
}

impl View for ToolRow {
    type V = RowV;

    open spec fn view(&self) -> RowV {
        RowV {
            title: self.title@,
            detail: self.detail@,
            tool_call_id: self.tool_call_id@,
            output: self.output@,
            status: self.status@,
            app_key: self.app_key@,
            spec: self.spec@,
        }
    }
}

impl DeepView for ToolRow {
    type V = RowV;

    open spec fn deep_view(&self) -> RowV {
        self@
    }
}

pub enum BubbleV {
    Text { id: Seq<char>, uid: Seq<char>, role: Seq<char>, text: Seq<char>, thought: bool },
    Tool(RowV),
    ToolGroup(Seq<RowV>),
    Chart(RowV),
    McpApp(RowV),
}

impl View for Bubble {
    type V = BubbleV;

    open spec fn view(&self) -> BubbleV {
        match self {
            Bubble::Text { id, uid, role, text, thought } => BubbleV::Text {
                id: id@,
                uid: uid@,
                role: role@,
                text: text@,
                thought: *thought,
            },
            Bubble::Tool(r) => BubbleV::Tool(r@),
            Bubble::ToolGroup(calls) => BubbleV::ToolGroup(calls.deep_view()),
            Bubble::Chart(r) => BubbleV::Chart(r@),
            Bubble::McpApp(r) => BubbleV::McpApp(r@),
        }
    }
}

impl DeepView for Bubble {
    type V = BubbleV;

    open spec fn deep_view(&self) -> BubbleV {
        self@
    }
}

// ---------------------------------------------------------------------------
// Projections
// ---------------------------------------------------------------------------

/// A fresh tool row as the desktop stamps it: empty output, `in_progress`.
pub open spec fn fresh_row(title: Seq<char>, detail: Seq<char>, id: Seq<char>) -> RowV {
    RowV {
        title,
        detail,
        tool_call_id: id,
        output: Seq::empty(),
        status: "in_progress"@,
        app_key: Seq::empty(),
        spec: Seq::empty(),
    }
}

/// The rich projection of a row (a toolgroup child).
pub open spec fn row_call(r: RowV) -> ToolCallV {
    ToolCallV { id: r.tool_call_id, title: r.title, detail: r.detail, output: r.output, status: r.status }
}

/// A `ToolCall` back to the store's row shape.
pub open spec fn call_row(c: ToolCallV) -> RowV {
    RowV {
        title: c.title,
        detail: c.detail,
        tool_call_id: c.id,
        output: c.output,
        status: c.status,
        app_key: Seq::empty(),
        spec: Seq::empty(),
    }
}

/// An item with every field empty.
pub open spec fn blank_item(id: Seq<char>, kind: ItemKind) -> ItemV {
    ItemV {
        id,
        kind,
        text: Seq::empty(),
        detail: Seq::empty(),
        output: Seq::empty(),
        status: Seq::empty(),
        app_key: Seq::empty(),
        calls: Seq::empty(),
    }
}

/// The item kind a text role draws as.
pub open spec fn role_kind(role: Seq<char>) -> ItemKind {
    if role == "user"@ {
        ItemKind::User
    } else if role == "thought"@ {
        ItemKind::Thought
    } else if role == "error"@ {
        ItemKind::Error
    } else {
        ItemKind::Agent
    }
}

/// The flat `Message` projection: every tool-ish bubble is role `tool`
/// anchored on its (first) call, with the title as content.
pub open spec fn project(b: BubbleV) -> MessageV {
    match b {
        BubbleV::Text { id, role, text, .. } => MessageV {
            id,
            role,
            content: text,
            output: Seq::empty(),
        },
        BubbleV::Tool(r) => tool_message(r),
        BubbleV::ToolGroup(calls) => tool_message(calls[0]),
        BubbleV::Chart(r) => tool_message(r),
        BubbleV::McpApp(r) => tool_message(r),
    }
}

pub open spec fn tool_message(r: RowV) -> MessageV {
    MessageV { id: r.tool_call_id, role: "tool"@, content: r.title, output: Seq::empty() }
}

/// The rich item projection: keeps the row's kind and payload.
pub open spec fn item_of(b: BubbleV) -> ItemV {
    match b {
        BubbleV::Text { uid, role, text, .. } => ItemV { text, ..blank_item(uid, role_kind(role)) },
        BubbleV::Tool(r) => ItemV {
            text: r.title,
            detail: r.detail,
            output: r.output,
            status: r.status,
            ..blank_item(r.tool_call_id, ItemKind::Tool)
        },
        BubbleV::ToolGroup(calls) => ItemV {
            calls: calls.map_values(|r: RowV| row_call(r)),
            ..blank_item(calls[0].tool_call_id, ItemKind::ToolGroup)
        },
        BubbleV::Chart(r) => ItemV {
            text: r.title,
            detail: r.spec,
            status: r.status,
            ..blank_item(r.tool_call_id, ItemKind::Chart)
        },
        BubbleV::McpApp(r) => ItemV {
            text: r.title,
            detail: r.detail,
            status: r.status,
            app_key: r.app_key,
            ..blank_item(r.tool_call_id, ItemKind::McpApp)
        },
    }
}

/// The stable item id of a bubble.
pub open spec fn uid_of(b: BubbleV) -> Seq<char> {
    match b {
        BubbleV::Text { uid, .. } => uid,
        BubbleV::Tool(r) => r.tool_call_id,
        BubbleV::ToolGroup(calls) => if calls.len() > 0 {
            calls[0].tool_call_id
        } else {
            Seq::empty()
        },
        BubbleV::Chart(r) => r.tool_call_id,
        BubbleV::McpApp(r) => r.tool_call_id,
    }
}

/// A bubble is well formed when a toolgroup holds at least one call.
pub open spec fn bubble_wf(b: BubbleV) -> bool {
    b matches BubbleV::ToolGroup(calls) ==> calls.len() > 0
}

/// The position of the first row carrying the call `id`.
pub open spec fn first_call(rows: Seq<RowV>, id: Seq<char>) -> Option<int>
    decreases rows.len(),
{
    if rows.len() == 0 {
        None
    } else if rows[0].tool_call_id == id {
        Some(0)
    } else {
        match first_call(rows.drop_first(), id) {
            Some(k) => Some(k + 1),
            None => None,
        }
    }
}

/// Does a tool-ish bubble carry the tool call `id`?
pub open spec fn tool_owns(b: BubbleV, id: Seq<char>) -> bool {
    match b {
        BubbleV::Text { .. } => false,
        BubbleV::Tool(r) => r.tool_call_id == id,
        BubbleV::ToolGroup(calls) => first_call(calls, id) is Some,
        BubbleV::Chart(r) => r.tool_call_id == id,
        BubbleV::McpApp(r) => r.tool_call_id == id,
    }
}

/// Does this bubble belong to `id` (its message id for text, its call id for
/// the tool-ish bubbles)? The replay-merge anchor.
pub open spec fn owns(b: BubbleV, id: Seq<char>) -> bool {
    match b {
        BubbleV::Text { id: bid, .. } => bid.len() > 0 && bid == id,
        _ => tool_owns(b, id),
    }
}

/// The synthetic item id `@n`.
pub open spec fn synthetic_uid(n: u64) -> Seq<char> {
    seq!['@'] + decimal(n as nat)
}


// ---------------------------------------------------------------------------
// Position searches
// ---------------------------------------------------------------------------

/// The first bubble owning `id` (the replay-merge anchor).
pub open spec fn first_owner(bs: Seq<BubbleV>, id: Seq<char>) -> Option<int>
    decreases bs.len(),
{
    if bs.len() == 0 {
        None
    } else if owns(bs[0], id) {
        Some(0)
    } else {
        match first_owner(bs.drop_first(), id) {
            Some(k) => Some(k + 1),
            None => None,
        }
    }
}

/// The newest tool-ish bubble carrying the call `id`.
pub open spec fn newest_tool(bs: Seq<BubbleV>, id: Seq<char>) -> Option<int>
    decreases bs.len(),
{
    if bs.len() == 0 {
        None
    } else if tool_owns(bs.last(), id) {
        Some(bs.len() - 1)
    } else {
        newest_tool(bs.drop_last(), id)
    }
}

/// The first text bubble whose item id is `id`.
pub open spec fn first_text_uid(bs: Seq<BubbleV>, id: Seq<char>) -> Option<int>
    decreases bs.len(),
{
    if bs.len() == 0 {
        None
    } else if bs[0] matches BubbleV::Text { uid, .. } && uid == id {
        Some(0)
    } else {
        match first_text_uid(bs.drop_first(), id) {
            Some(k) => Some(k + 1),
            None => None,
        }
    }
}

// ---------------------------------------------------------------------------
// The store's model
// ---------------------------------------------------------------------------

/// The abstract state of a [`TranscriptStore`].
pub struct StoreV {
    pub bubbles: Seq<BubbleV>,
    /// The bubble the live text stream accumulates into.
    pub stream_idx: Option<usize>,
    pub stream_role: Seq<char>,
    pub stream_msg_id: Seq<char>,
    /// The rows held were painted from the cache and a replay is owed: the
    /// first real row drops them wholesale.
    pub provisional: bool,
    /// Replay-merge mode: the first replayed row already in the painted cache
    /// truncates it there.
    pub merging: bool,
    pub merge_anchored: bool,
    /// Whether the merge anchor was found (false = a gap).
    pub merge_overlap: bool,
    /// The session the rows belong to, stamped on `Reset` ops.
    pub session_id: Seq<char>,
    /// Index of the oldest bubble the client holds.
    pub emitted_from: usize,
    /// Whether `load_older` can still produce older items.
    pub has_older: bool,
    /// Counter for synthetic `@n` item ids.
    pub next_uid: u64,
}

/// Well-formedness: toolgroups are non-empty and the stream anchor and window
/// origin lie inside the bubble list.
pub open spec fn store_wf(s: StoreV) -> bool {
    &&& forall|i: int| 0 <= i < s.bubbles.len() ==> #[trigger] bubble_wf(s.bubbles[i])
    &&& (s.stream_idx matches Some(i) ==> i < s.bubbles.len())
    &&& s.emitted_from <= s.bubbles.len()
}

/// A store that holds nothing.
pub open spec fn empty_store() -> StoreV {
    StoreV {
        bubbles: Seq::empty(),
        stream_idx: None,
        stream_role: Seq::empty(),
        stream_msg_id: Seq::empty(),
        provisional: false,
        merging: false,
        merge_anchored: false,
        merge_overlap: false,
        session_id: Seq::empty(),
        emitted_from: 0,
        has_older: false,
        next_uid: 0,
    }
}

/// Forget every row and the stream state.
pub open spec fn reset_v(s: StoreV) -> StoreV {
    StoreV {
        bubbles: Seq::empty(),
        stream_idx: None,
        stream_role: Seq::empty(),
        stream_msg_id: Seq::empty(),
        emitted_from: 0,
        provisional: false,
        merging: false,
        merge_anchored: false,
        merge_overlap: false,
        ..s
    }
}

/// Replay-merge anchor: on the first row id seen while merging, truncate the
/// painted rows at the first bubble owning it (if any).
pub open spec fn anchor_v(s: StoreV, id: Seq<char>) -> StoreV {
    if !s.merging || s.merge_anchored || id.len() == 0 {
        s
    } else {
        match first_owner(s.bubbles, id) {
            Some(k) => StoreV {
                bubbles: s.bubbles.take(k),
                emitted_from: if s.emitted_from < k { s.emitted_from } else { k as usize },
                stream_idx: None,
                stream_role: Seq::empty(),
                stream_msg_id: Seq::empty(),
                merge_anchored: true,
                merge_overlap: true,
                ..s
            },
            None => StoreV { merge_anchored: true, ..s },
        }
    }
}

/// Whether real content drops the painted rows (a provisional, non-merge paint).
pub open spec fn supersedes(s: StoreV) -> bool {
    s.provisional && !s.merging
}

pub open spec fn supersede_v(s: StoreV) -> StoreV {
    if supersedes(s) {
        reset_v(s)
    } else {
        s
    }
}

/// Enforce the bubble cap, evicting the oldest in bulk.
pub open spec fn trim_v(s: StoreV) -> StoreV {
    if s.bubbles.len() <= MAX_BUBBLES {
        s
    } else {
        let drop = s.bubbles.len() - (MAX_BUBBLES - MAX_BUBBLES / 4);
        StoreV {
            bubbles: s.bubbles.skip(drop),
            emitted_from: if s.emitted_from >= drop { (s.emitted_from - drop) as usize } else { 0 },
            stream_idx: None,
            ..s
        }
    }
}

/// The counter step for synthetic ids (wrapping, like a release build).
pub open spec fn next_counter(n: u64) -> u64 {
    if n == u64::MAX {
        0
    } else {
        (n + 1) as u64
    }
}

/// The view of an optional string slice.
pub open spec fn opt_str(o: Option<&str>) -> Option<Seq<char>> {
    match o {
        Some(m) => Some(m@),
        None => None,
    }
}

pub open spec fn unwrap_id(mid: Option<Seq<char>>) -> Seq<char> {
    match mid {
        Some(m) => m,
        None => Seq::empty(),
    }
}

pub open spec fn reset_em(session_id: Seq<char>) -> Seq<EmissionV> {
    seq![EmissionV::Transcript(TranscriptV::Clear), EmissionV::Item(OpV::Reset { session_id })]
}

pub open spec fn upsert_em(b: BubbleV) -> EmissionV {
    EmissionV::Item(OpV::Upsert { item: item_of(b) })
}

/// The authoritative final state of the previous stream bubble, if any.
pub open spec fn finalize_em(s: StoreV) -> Seq<EmissionV> {
    match s.stream_idx {
        Some(p) => if p < s.bubbles.len() {
            seq![upsert_em(s.bubbles[p as int])]
        } else {
            Seq::empty()
        },
        None => Seq::empty(),
    }
}

/// Anchor + supersede, the prelude of every real row.
pub open spec fn enter_v(s: StoreV, id: Seq<char>) -> StoreV {
    supersede_v(anchor_v(s, id))
}

pub open spec fn enter_em(s: StoreV, id: Seq<char>) -> Seq<EmissionV> {
    let a = anchor_v(s, id);
    if supersedes(a) {
        reset_em(a.session_id)
    } else {
        Seq::empty()
    }
}

/// The stream event for a chunk.
pub open spec fn chunk_stream(role: Seq<char>, text: Seq<char>, mid: Seq<char>) -> StreamV {
    if role == "user"@ {
        StreamV::UserChunk { text, message_id: mid }
    } else if role == "thought"@ {
        StreamV::ThoughtChunk { text }
    } else {
        StreamV::AgentChunk { text, message_id: mid }
    }
}

/// A chunk starts a new bubble: no open stream bubble, a role change, or two
/// differing non-empty message ids.
pub open spec fn is_fresh(s: StoreV, role: Seq<char>, mid: Option<Seq<char>>) -> bool {
    ||| s.stream_idx is None
    ||| s.stream_role != role
    ||| (mid matches Some(m) && m.len() > 0 && s.stream_msg_id.len() > 0 && m != s.stream_msg_id)
}

/// `append_chunk`: the next state and the emitted events.
/// The text bubble a fresh chunk opens.
pub open spec fn opened_bubble(
    s: StoreV,
    role: Seq<char>,
    text: Seq<char>,
    mid: Seq<char>,
    thought: bool,
) -> BubbleV {
    let uid = if mid.len() > 0 { mid } else { synthetic_uid(next_counter(s.next_uid)) };
    BubbleV::Text { id: mid, uid, role, text, thought }
}

/// Open a new stream bubble (before the cap is enforced).
pub open spec fn open_v(
    s: StoreV,
    role: Seq<char>,
    text: Seq<char>,
    mid: Seq<char>,
    thought: bool,
) -> StoreV {
    StoreV {
        bubbles: s.bubbles.push(opened_bubble(s, role, text, mid, thought)),
        stream_idx: Some(s.bubbles.len() as usize),
        stream_role: role,
        stream_msg_id: mid,
        next_uid: if mid.len() > 0 { s.next_uid } else { next_counter(s.next_uid) },
        ..s
    }
}

/// A chunk accumulated into a bubble: text bubbles grow and take the chunk's
/// thought flag; any other bubble is left as it is.
pub open spec fn extended(b: BubbleV, text: Seq<char>, thought: bool) -> BubbleV {
    match b {
        BubbleV::Text { id, uid, role, text: t, .. } => BubbleV::Text {
            id,
            uid,
            role,
            text: t + text,
            thought,
        },
        other => other,
    }
}

/// The item op for an accumulated chunk: the text delta, or an `Upsert`.
pub open spec fn extend_op(b: BubbleV, text: Seq<char>) -> EmissionV {
    match b {
        BubbleV::Text { uid, .. } => EmissionV::Item(OpV::AppendText { id: uid, chunk: text }),
        _ => upsert_em(b),
    }
}

/// The bubble the open text stream accumulates into.
pub open spec fn stream_bubble(s: StoreV) -> BubbleV {
    s.bubbles[s.stream_idx.unwrap() as int]
}

/// Accumulate into the open stream bubble (before the cap is enforced).
pub open spec fn extend_v(s: StoreV, text: Seq<char>, thought: bool) -> StoreV {
    let i = s.stream_idx.unwrap() as int;
    StoreV { bubbles: s.bubbles.update(i, extended(s.bubbles[i], text, thought)), ..s }
}

/// `append_chunk`: the next state and the emitted events.
pub open spec fn append_chunk_v(
    s: StoreV,
    role: Seq<char>,
    text: Seq<char>,
    mid: Option<Seq<char>>,
    thought: bool,
) -> (StoreV, Seq<EmissionV>) {
    let mid_s = unwrap_id(mid);
    let s2 = enter_v(s, mid_s);
    let pre = enter_em(s, mid_s);
    let stream = EmissionV::Stream(chunk_stream(role, text, mid_s));
    if is_fresh(s2, role, mid) {
        let b = opened_bubble(s2, role, text, mid_s, thought);
        (
            trim_v(open_v(s2, role, text, mid_s, thought)),
            seq![stream, EmissionV::Transcript(TranscriptV::Append { message: project(b) })] + pre
                + finalize_em(s2) + seq![upsert_em(b)],
        )
    } else {
        let b2 = extended(s2.bubbles[s2.stream_idx.unwrap() as int], text, thought);
        (
            trim_v(extend_v(s2, text, thought)),
            seq![stream, EmissionV::Transcript(TranscriptV::Update { message: project(b2) })] + pre
                + seq![extend_op(b2, text)],
        )
    }
}

/// The row a tool call starts as; charts keep their spec and apps their
/// resource key so the cache round-trips them.
pub open spec fn kind_row(title: Seq<char>, detail: Seq<char>, id: Seq<char>, kind: KindV) -> RowV {
    let r = fresh_row(title, detail, id);
    match kind {
        KindV::Chart { spec } => RowV { spec, ..r },
        KindV::McpApp { app_key, .. } => RowV { app_key, ..r },
        KindV::Plain => r,
    }
}

/// Whether a plain call joins the last bubble (a lone tool or a toolgroup).
pub open spec fn joins_last(bs: Seq<BubbleV>, kind: KindV) -> bool {
    &&& kind is Plain
    &&& bs.len() > 0
    &&& (bs.last() is Tool || bs.last() is ToolGroup)
}

/// Place a tool call: consecutive plain calls collapse into one toolgroup;
/// chart and app calls always get their own bubble.
pub open spec fn place_call(bs: Seq<BubbleV>, row: RowV, kind: KindV) -> Seq<BubbleV> {
    if joins_last(bs, kind) {
        match bs.last() {
            BubbleV::Tool(r) => bs.update(bs.len() - 1, BubbleV::ToolGroup(seq![r, row])),
            BubbleV::ToolGroup(calls) => bs.update(bs.len() - 1, BubbleV::ToolGroup(calls.push(row))),
            other => bs,
        }
    } else {
        match kind {
            KindV::Plain => bs.push(BubbleV::Tool(row)),
            KindV::Chart { .. } => bs.push(BubbleV::Chart(row)),
            KindV::McpApp { .. } => bs.push(BubbleV::McpApp(row)),
        }
    }
}

/// `tool_call`: the next state and the emitted events.
pub open spec fn tool_call_v(
    s: StoreV,
    title: Seq<char>,
    detail: Seq<char>,
    id: Seq<char>,
    kind: KindV,
) -> (StoreV, Seq<EmissionV>) {
    let s2 = enter_v(s, id);
    let bs = place_call(s2.bubbles, kind_row(title, detail, id, kind), kind);
    let b = bs.last();
    let message = project(b);
    let evt = if joins_last(s2.bubbles, kind) {
        TranscriptV::Update { message }
    } else {
        TranscriptV::Append { message }
    };
    (
        StoreV { stream_idx: None, ..trim_v(StoreV { bubbles: bs, ..s2 }) },
        seq![
            EmissionV::Stream(StreamV::ToolCall { title, detail, tool_call_id: id, kind }),
            EmissionV::Transcript(evt),
        ] + enter_em(s, id) + finalize_em(s2) + seq![upsert_em(b)],
    )
}

/// The output rule: an empty output leaves the accumulator alone; live
/// output appends, the completion update replaces.
pub open spec fn output_after(acc: Seq<char>, output: Seq<char>, live: bool) -> Seq<char> {
    if output.len() == 0 {
        acc
    } else if live {
        acc + output
    } else {
        output
    }
}

/// A row after a lifecycle update.
pub open spec fn updated_row(r: RowV, status: Seq<char>, output: Seq<char>, live: bool) -> RowV {
    RowV { status, output: output_after(r.output, output, live), ..r }
}

/// A tool-ish bubble after a lifecycle update of its call `id`: status always
/// updates; chart and app bubbles take the status only.
pub open spec fn updated_bubble(
    b: BubbleV,
    id: Seq<char>,
    status: Seq<char>,
    output: Seq<char>,
    live: bool,
) -> BubbleV {
    match b {
        BubbleV::Tool(r) => BubbleV::Tool(updated_row(r, status, output, live)),
        BubbleV::Chart(r) => BubbleV::Chart(RowV { status, ..r }),
        BubbleV::McpApp(r) => BubbleV::McpApp(RowV { status, ..r }),
        BubbleV::ToolGroup(calls) => match first_call(calls, id) {
            Some(k) => BubbleV::ToolGroup(calls.update(k, updated_row(calls[k], status, output, live))),
            None => b,
        },
        other => other,
    }
}

/// `tool_update`: the next state and the emitted events. The newest bubble
/// carrying the call is updated; a live append to a standalone tool goes out
/// as the output delta, anything else as an `Upsert`.
pub open spec fn tool_update_v(
    s: StoreV,
    id: Seq<char>,
    status: Seq<char>,
    output: Seq<char>,
    live: bool,
) -> (StoreV, Seq<EmissionV>) {
    let s2 = enter_v(s, id);
    let stream = EmissionV::Stream(StreamV::ToolCallUpdate { id, status, output, live });
    match newest_tool(s2.bubbles, id) {
        Some(k) => {
            let b2 = updated_bubble(s2.bubbles[k], id, status, output, live);
            let op = if live && output.len() > 0 && b2 is Tool {
                EmissionV::Item(OpV::AppendOutput { id, chunk: output })
            } else {
                upsert_em(b2)
            };
            (
                StoreV { bubbles: s2.bubbles.update(k, b2), ..s2 },
                seq![stream, EmissionV::Transcript(TranscriptV::Update { message: project(b2) })]
                    + enter_em(s, id) + seq![op],
            )
        },
        None => (s2, seq![stream] + enter_em(s, id)),
    }
}

/// An MCP app's resource key: `<extension>|<uri>`.
pub open spec fn app_key_of(extension: Seq<char>, uri: Seq<char>) -> Seq<char> {
    extension + "|"@ + uri
}

/// The re-issued stream event announcing a promoted app.
pub open spec fn app_stream(row: RowV, id: Seq<char>, uri: Seq<char>, extension: Seq<char>) -> EmissionV {
    EmissionV::Stream(
        StreamV::ToolCall {
            title: row.title,
            detail: row.detail,
            tool_call_id: id,
            kind: KindV::McpApp {
                app_key: app_key_of(extension, uri),
                uri,
                extension,
                input: row.detail,
            },
        },
    )
}

/// Events of a promotion that replaces bubble `k` in place.
pub open spec fn promoted_in_place(
    s: StoreV,
    k: int,
    row: RowV,
    id: Seq<char>,
    uri: Seq<char>,
    extension: Seq<char>,
) -> (StoreV, Seq<EmissionV>) {
    let b = BubbleV::McpApp(row);
    (
        StoreV { bubbles: s.bubbles.update(k, b), ..s },
        seq![
            app_stream(row, id, uri, extension),
            EmissionV::Transcript(TranscriptV::Update { message: project(b) }),
            upsert_em(b),
        ],
    )
}

/// `tool_app`: promote the newest plain call `id` to an MCP app. A lone tool
/// bubble (or a toolgroup left empty) turns into the app in place; a call
/// inside a larger group is pulled out into its own app bubble right after
/// the group. Anything else is a no-op (re-promotion, unknown id).
pub open spec fn tool_app_v(
    s: StoreV,
    id: Seq<char>,
    uri: Seq<char>,
    extension: Seq<char>,
) -> (StoreV, Seq<EmissionV>) {
    let s2 = anchor_v(s, id);
    let key = app_key_of(extension, uri);
    match newest_tool(s2.bubbles, id) {
        Some(k) => match s2.bubbles[k] {
            BubbleV::Tool(r) => promoted_in_place(s2, k, RowV { app_key: key, ..r }, id, uri, extension),
            BubbleV::ToolGroup(calls) => {
                let j = first_call(calls, id).unwrap();
                let row = RowV { app_key: key, ..calls[j] };
                let rest = calls.remove(j);
                if rest.len() == 0 {
                    promoted_in_place(s2, k, row, id, uri, extension)
                } else {
                    let g = BubbleV::ToolGroup(rest);
                    let b = BubbleV::McpApp(row);
                    (
                        StoreV { bubbles: s2.bubbles.update(k, g).insert(k + 1, b), ..s2 },
                        seq![
                            app_stream(row, id, uri, extension),
                            EmissionV::Transcript(TranscriptV::Update { message: project(g) }),
                            EmissionV::Transcript(TranscriptV::Append { message: project(b) }),
                            upsert_em(g),
                            upsert_em(b),
                        ],
                    )
                }
            },
            _ => (s2, Seq::empty()),
        },
        None => (s2, Seq::empty()),
    }
}

/// The rich items of a bubble list, in order.
pub open spec fn items_of(bs: Seq<BubbleV>) -> Seq<ItemV> {
    bs.map_values(|b: BubbleV| item_of(b))
}

/// The flat messages of a bubble list, in order.
pub open spec fn messages_of(bs: Seq<BubbleV>) -> Seq<MessageV> {
    bs.map_values(|b: BubbleV| project(b))
}

/// One `Upsert` per item, in order.
pub open spec fn upserts(items: Seq<ItemV>) -> Seq<EmissionV> {
    items.map_values(|it: ItemV| EmissionV::Item(OpV::Upsert { item: it }))
}

pub open spec fn window_em(oldest_id: Seq<char>, has_older: bool) -> EmissionV {
    EmissionV::Item(OpV::Window { oldest_id, has_older })
}

/// The item id of bubble `i`, empty past the end.
pub open spec fn uid_at(bs: Seq<BubbleV>, i: int) -> Seq<char> {
    if 0 <= i < bs.len() {
        uid_of(bs[i])
    } else {
        Seq::empty()
    }
}

/// `run_ended`: the open stream bubble's final `Upsert`, then the turn end.
pub open spec fn run_ended_em(s: StoreV, stop_reason: Seq<char>) -> Seq<EmissionV> {
    finalize_em(s) + seq![EmissionV::Stream(StreamV::RunEnded { stop_reason })]
}

/// `clear`: the events of a wipe.
pub open spec fn clear_em(session_id: Seq<char>) -> Seq<EmissionV> {
    reset_em(session_id) + seq![window_em(Seq::empty(), false)]
}

/// The window origin after walking back `count` items.
pub open spec fn older_from(s: StoreV, count: usize) -> int {
    if s.emitted_from >= count {
        s.emitted_from - count
    } else {
        0
    }
}

/// `load_older`: the next state and the emitted events.
pub open spec fn load_older_v(s: StoreV, count: usize) -> (StoreV, Seq<EmissionV>) {
    let from = older_from(s, count);
    (
        StoreV { emitted_from: from as usize, has_older: from > 0, ..s },
        upserts(items_of(s.bubbles.subrange(from, s.emitted_from as int)))
            + seq![window_em(uid_at(s.bubbles, from), from > 0)],
    )
}

/// The item for `id`: the newest tool bubble carrying the call, else the
/// first text bubble with that item id.
pub open spec fn item_for(bs: Seq<BubbleV>, id: Seq<char>) -> Option<ItemV> {
    match newest_tool(bs, id) {
        Some(k) => Some(item_of(bs[k])),
        None => match first_text_uid(bs, id) {
            Some(k) => Some(item_of(bs[k])),
            None => None,
        },
    }
}

/// A flat message back to a lone tool row (the flat rebuild keeps only the
/// id and the title).
pub open spec fn message_row(m: MessageV) -> RowV {
    RowV {
        title: m.content,
        detail: Seq::empty(),
        tool_call_id: m.id,
        output: Seq::empty(),
        status: Seq::empty(),
        app_key: Seq::empty(),
        spec: Seq::empty(),
    }
}

/// The bubble a flat message rebuilds to, and the synthetic-id counter after
/// it: `tool` messages become lone tool rows, everything else a text bubble
/// (id-less ones get the next `@n`).
pub open spec fn message_bubble(m: MessageV, n: u64) -> (BubbleV, u64) {
    if m.role == "tool"@ {
        (BubbleV::Tool(message_row(m)), n)
    } else {
        let n2 = if m.id.len() == 0 { next_counter(n) } else { n };
        let uid = if m.id.len() == 0 { synthetic_uid(n2) } else { m.id };
        (BubbleV::Text { id: m.id, uid, role: m.role, text: m.content, thought: m.role == "thought"@ }, n2)
    }
}

/// Rebuild bubbles from a flat snapshot, threading the id counter.
pub open spec fn rebuild(ms: Seq<MessageV>, n: u64) -> (Seq<BubbleV>, u64)
    decreases ms.len(),
{
    if ms.len() == 0 {
        (Seq::empty(), n)
    } else {
        let prev = rebuild(ms.drop_last(), n);
        let step = message_bubble(ms.last(), prev.1);
        (prev.0.push(step.0), step.1)
    }
}

/// The role a text item kind stands for.
pub open spec fn kind_role(k: ItemKind) -> Seq<char> {
    match k {
        ItemKind::User => "user"@,
        ItemKind::Thought => "thought"@,
        ItemKind::Error => "error"@,
        _ => "agent"@,
    }
}

/// Rebuild a bubble from a rich item (the cache-load path); `None` for an
/// empty toolgroup. A core-assigned `@n` id has no message id to recover.
pub open spec fn bubble_of_item(it: ItemV) -> Option<BubbleV> {
    match it.kind {
        ItemKind::Tool => Some(
            BubbleV::Tool(
                RowV {
                    title: it.text,
                    detail: it.detail,
                    tool_call_id: it.id,
                    output: it.output,
                    status: it.status,
                    app_key: Seq::empty(),
                    spec: Seq::empty(),
                },
            ),
        ),
        ItemKind::ToolGroup => if it.calls.len() == 0 {
            None
        } else {
            Some(BubbleV::ToolGroup(it.calls.map_values(|c: ToolCallV| call_row(c))))
        },
        ItemKind::Chart => Some(
            BubbleV::Chart(
                RowV {
                    title: it.text,
                    detail: Seq::empty(),
                    tool_call_id: it.id,
                    output: Seq::empty(),
                    status: it.status,
                    app_key: Seq::empty(),
                    spec: it.detail,
                },
            ),
        ),
        ItemKind::McpApp => Some(
            BubbleV::McpApp(
                RowV {
                    title: it.text,
                    detail: it.detail,
                    tool_call_id: it.id,
                    output: Seq::empty(),
                    status: it.status,
                    app_key: it.app_key,
                    spec: Seq::empty(),
                },
            ),
        ),
        _ => Some(
            BubbleV::Text {
                id: if it.id.len() > 0 && it.id[0] == '@' { Seq::empty() } else { it.id },
                uid: it.id,
                role: kind_role(it.kind),
                text: it.text,
                thought: it.kind == ItemKind::Thought,
            },
        ),
    }
}

/// Rebuild bubbles from a rich snapshot, skipping empty toolgroups.
pub open spec fn rebuild_rich(items: Seq<ItemV>) -> Seq<BubbleV>
    decreases items.len(),
{
    if items.len() == 0 {
        Seq::empty()
    } else {
        let prev = rebuild_rich(items.drop_last());
        match bubble_of_item(items.last()) {
            Some(b) => prev.push(b),
            None => prev,
        }
    }
}

/// Where a paint of `n` rows starts: only the newest `CLIENT_WINDOW` go out.
pub open spec fn window_from(n: int) -> int {
    if n >= CLIENT_WINDOW {
        n - CLIENT_WINDOW
    } else {
        0
    }
}

/// The window repainted from the store: the item `Reset`, the window's items
/// oldest first, then the cursor.
pub open spec fn paint_em(s: StoreV) -> Seq<EmissionV> {
    seq![EmissionV::Item(OpV::Reset { session_id: s.session_id })]
        + upserts(items_of(s.bubbles.skip(s.emitted_from as int)))
        + seq![window_em(uid_at(s.bubbles, s.emitted_from as int), s.has_older)]
}

/// The state with its window reset to the newest `CLIENT_WINDOW` rows.
pub open spec fn windowed(s: StoreV) -> StoreV {
    let from = window_from(s.bubbles.len() as int);
    StoreV { emitted_from: from as usize, has_older: from > 0, ..s }
}

/// The flat rebuild (`replace` / `replace_provisional`). A snapshot equal to
/// the held projection is the same paint: nothing is repainted, only the
/// provisional mode is adopted.
pub open spec fn replace_v(s: StoreV, ms: Seq<MessageV>, provisional: bool) -> (StoreV, Seq<EmissionV>) {
    if ms == messages_of(s.bubbles) {
        (StoreV { provisional, ..s }, Seq::empty())
    } else {
        let r = rebuild(ms, s.next_uid);
        let s2 = windowed(StoreV { bubbles: r.0, next_uid: r.1, provisional, ..reset_v(s) });
        (s2, seq![EmissionV::Transcript(TranscriptV::Clear)] + paint_em(s2))
    }
}

/// The rich rebuild (`replace_rich`). As with the flat one, a snapshot equal
/// to the held items only adopts the mode and cursor.
pub open spec fn replace_rich_v(s: StoreV, items: Seq<ItemV>, provisional: bool) -> (StoreV, Seq<EmissionV>) {
    if items == items_of(s.bubbles) {
        (StoreV { provisional, has_older: s.emitted_from > 0, ..s }, Seq::empty())
    } else {
        let s2 = windowed(trim_v(StoreV { bubbles: rebuild_rich(items), provisional, ..reset_v(s) }));
        (s2, seq![EmissionV::Transcript(TranscriptV::Clear)] + paint_em(s2))
    }
}

/// Arm replay-merge on a painted state.
pub open spec fn armed(s: StoreV) -> StoreV {
    StoreV { merging: true, merge_anchored: false, merge_overlap: false, provisional: false, ..s }
}

/// `end_merge`: whether the tail left a gap, the next state, and the events
/// (a successful merge rebuilds both channels from the store).
pub open spec fn end_merge_v(s: StoreV) -> (bool, StoreV, Seq<EmissionV>) {
    let gap = s.merging && !s.merge_overlap;
    let merged = s.merging && s.merge_overlap;
    let s2 = StoreV { merging: false, merge_anchored: false, ..s };
    if merged && s.session_id.len() > 0 {
        let s3 = windowed(s2);
        (gap, s3, seq![EmissionV::Transcript(TranscriptV::Clear)] + paint_em(s3))
    } else {
        (gap, s2, Seq::empty())
    }
}

impl ToolRow {
    /// A field-by-field copy.
    pub fn duplicate(&self) -> (r: ToolRow)
        ensures
            r@ == self@,
    {
        ToolRow {
            title: self.title.clone(),
            detail: self.detail.clone(),
            tool_call_id: self.tool_call_id.clone(),
            output: self.output.clone(),
            status: self.status.clone(),
            app_key: self.app_key.clone(),
            spec: self.spec.clone(),
        }
    }

    /// The rich projection of this row.
    pub fn to_call(&self) -> (c: ToolCall)
        ensures
            c@ == row_call(self@),
    {
        ToolCall {
            id: self.tool_call_id.clone(),
            title: self.title.clone(),
            detail: self.detail.clone(),
            output: self.output.clone(),
            status: self.status.clone(),
        }
    }
}

fn no_calls() -> (v: Vec<ToolCall>)
    ensures
        v.deep_view() == Seq::<ToolCallV>::empty(),
{
    let v: Vec<ToolCall> = Vec::new();
    assert(v.deep_view() =~= Seq::<ToolCallV>::empty());
    v
}

fn empty_string() -> (r: String)
    ensures
        r@ == Seq::<char>::empty(),
{
    String::new()
}

/// The flat message for a tool-ish row.
fn row_message(r: &ToolRow) -> (m: Message)
    ensures
        m@ == tool_message(r@),
{
    Message {
        id: r.tool_call_id.clone(),
        role: owned("tool"),
        content: r.title.clone(),
        output: empty_string(),
    }
}

/// The projection of each row to its rich call.
fn rows_to_calls(rows: &Vec<ToolRow>) -> (calls: Vec<ToolCall>)
    ensures
        calls.deep_view() == rows.deep_view().map_values(|r: RowV| row_call(r)),
{
    let mut calls: Vec<ToolCall> = Vec::new();
    let n = rows.len();
    for i in 0..n
        invariant
            n == rows.len(),
            calls.deep_view() == rows.deep_view().take(i as int).map_values(|r: RowV| row_call(r)),
    {
        let ghost before = calls.deep_view();
        calls.push(rows[i].to_call());
        assert(calls.deep_view() =~= before.push(row_call(rows[i as int]@)));
        assert(rows.deep_view().take(i + 1) =~= rows.deep_view().take(i as int).push(rows[i as int]@));
        assert(calls.deep_view() =~= rows.deep_view().take(i + 1).map_values(|r: RowV| row_call(r)));
    }
    assert(rows.deep_view().take(n as int) == rows.deep_view());
    calls
}

/// The item kind for a text role.
fn kind_for_role(role: &String) -> (k: ItemKind)
    ensures
        k == role_kind(role@),
{
    if str_eq(role.as_str(), "user") {
        ItemKind::User
    } else if str_eq(role.as_str(), "thought") {
        ItemKind::Thought
    } else if str_eq(role.as_str(), "error") {
        ItemKind::Error
    } else {
        ItemKind::Agent
    }
}

impl Bubble {
    /// The flat `Message` projection.
    pub fn project(&self) -> (m: Message)
        requires
            bubble_wf(self@),
        ensures
            m@ == project(self@),
    {
        match self {
            Bubble::Text { id, role, text, .. } => Message {
                id: id.clone(),
                role: role.clone(),
                content: text.clone(),
                output: empty_string(),
            },
            Bubble::Tool(r) => row_message(r),
            Bubble::ToolGroup(calls) => row_message(&calls[0]),
            Bubble::Chart(r) => row_message(r),
            Bubble::McpApp(r) => row_message(r),
        }
    }

    /// The rich item projection.
    pub fn item(&self) -> (it: Item)
        requires
            bubble_wf(self@),
        ensures
            it@ == item_of(self@),
    {
        match self {
            Bubble::Text { uid, role, text, .. } => Item {
                id: uid.clone(),
                kind: kind_for_role(role),
                text: text.clone(),
                detail: empty_string(),
                output: empty_string(),
                status: empty_string(),
                app_key: empty_string(),
                calls: no_calls(),
            },
            Bubble::Tool(r) => Item {
                id: r.tool_call_id.clone(),
                kind: ItemKind::Tool,
                text: r.title.clone(),
                detail: r.detail.clone(),
                output: r.output.clone(),
                status: r.status.clone(),
                app_key: empty_string(),
                calls: no_calls(),
            },
            Bubble::ToolGroup(calls) => {
                let c = rows_to_calls(calls);
                let it = Item {
                    id: calls[0].tool_call_id.clone(),
                    kind: ItemKind::ToolGroup,
                    text: empty_string(),
                    detail: empty_string(),
                    output: empty_string(),
                    status: empty_string(),
                    app_key: empty_string(),
                    calls: c,
                };
                assert(it@ =~= item_of(self@));
                it
            },
            Bubble::Chart(r) => Item {
                id: r.tool_call_id.clone(),
                kind: ItemKind::Chart,
                text: r.title.clone(),
                detail: r.spec.clone(),
                output: empty_string(),
                status: r.status.clone(),
                app_key: empty_string(),
                calls: no_calls(),
            },
            Bubble::McpApp(r) => Item {
                id: r.tool_call_id.clone(),
                kind: ItemKind::McpApp,
                text: r.title.clone(),
                detail: r.detail.clone(),
                output: empty_string(),
                status: r.status.clone(),
                app_key: r.app_key.clone(),
                calls: no_calls(),
            },
        }
    }

    /// The stable item id.
    pub fn uid(&self) -> (u: String)
        ensures
            u@ == uid_of(self@),
    {
        match self {
            Bubble::Text { uid, .. } => uid.clone(),
            Bubble::Tool(r) => r.tool_call_id.clone(),
            Bubble::ToolGroup(calls) => if calls.len() > 0 {
                calls[0].tool_call_id.clone()
            } else {
                empty_string()
            },
            Bubble::Chart(r) => r.tool_call_id.clone(),
            Bubble::McpApp(r) => r.tool_call_id.clone(),
        }
    }

    /// A field-by-field copy.
    pub fn duplicate(&self) -> (c: Bubble)
        ensures
            c@ == self@,
    {
        match self {
            Bubble::Text { id, uid, role, text, thought } => Bubble::Text {
                id: id.clone(),
                uid: uid.clone(),
                role: role.clone(),
                text: text.clone(),
                thought: *thought,
            },
            Bubble::Tool(r) => Bubble::Tool(r.duplicate()),
            Bubble::ToolGroup(calls) => Bubble::ToolGroup(duplicate_rows(calls)),
            Bubble::Chart(r) => Bubble::Chart(r.duplicate()),
            Bubble::McpApp(r) => Bubble::McpApp(r.duplicate()),
        }
    }
}


// ---------------------------------------------------------------------------
// Searches (exec)
// ---------------------------------------------------------------------------

pub open spec fn shift(o: Option<int>, d: int) -> Option<int> {
    match o {
        Some(k) => Some(k + d),
        None => None,
    }
}

/// The position of the first row carrying `id`.
fn find_call(rows: &Vec<ToolRow>, id: &str) -> (r: Option<usize>)
    ensures
        r matches Some(k) ==> first_call(rows.deep_view(), id@) == Some(k as int) && k < rows.len(),
        r is None ==> first_call(rows.deep_view(), id@) is None,
{
    let n = rows.len();
    let mut i: usize = 0;
    assert(rows.deep_view().skip(0) =~= rows.deep_view());
    while i < n
        invariant
            n == rows.len(),
            i <= n,
            first_call(rows.deep_view(), id@) == shift(
                first_call(rows.deep_view().skip(i as int), id@),
                i as int,
            ),
        decreases n - i,
    {
        let ghost rest = rows.deep_view().skip(i as int);
        assert(rest[0] == rows[i as int]@);
        assert(rest.drop_first() =~= rows.deep_view().skip(i + 1));
        if str_eq(rows[i].tool_call_id.as_str(), id) {
            return Some(i);
        }
        i = i + 1;
    }
    assert(rows.deep_view().skip(n as int) =~= Seq::<RowV>::empty());
    None
}

/// Whether a tool-ish bubble carries the call `id`.
fn tool_owns_exec(b: &Bubble, id: &str) -> (r: bool)
    ensures
        r == tool_owns(b@, id@),
{
    match b {
        Bubble::Text { .. } => false,
        Bubble::Tool(r) => str_eq(r.tool_call_id.as_str(), id),
        Bubble::ToolGroup(calls) => find_call(calls, id).is_some(),
        Bubble::Chart(r) => str_eq(r.tool_call_id.as_str(), id),
        Bubble::McpApp(r) => str_eq(r.tool_call_id.as_str(), id),
    }
}

/// Whether a bubble belongs to `id` (the merge anchor test).
fn owns_exec(b: &Bubble, id: &str) -> (r: bool)
    ensures
        r == owns(b@, id@),
{
    match b {
        Bubble::Text { id: bid, .. } => bid.unicode_len() > 0 && str_eq(bid.as_str(), id),
        _ => tool_owns_exec(b, id),
    }
}

fn find_first_owner(bs: &Vec<Bubble>, id: &str) -> (r: Option<usize>)
    ensures
        r matches Some(k) ==> first_owner(bs.deep_view(), id@) == Some(k as int) && k < bs.len(),
        r is None ==> first_owner(bs.deep_view(), id@) is None,
{
    let n = bs.len();
    let mut i: usize = 0;
    assert(bs.deep_view().skip(0) =~= bs.deep_view());
    while i < n
        invariant
            n == bs.len(),
            i <= n,
            first_owner(bs.deep_view(), id@) == shift(
                first_owner(bs.deep_view().skip(i as int), id@),
                i as int,
            ),
        decreases n - i,
    {
        let ghost rest = bs.deep_view().skip(i as int);
        assert(rest[0] == bs[i as int]@);
        assert(rest.drop_first() =~= bs.deep_view().skip(i + 1));
        if owns_exec(&bs[i], id) {
            return Some(i);
        }
        i = i + 1;
    }
    assert(bs.deep_view().skip(n as int) =~= Seq::<BubbleV>::empty());
    None
}

/// The first owner of `id` lies inside the list and owns it.
pub proof fn lemma_first_owner(bs: Seq<BubbleV>, id: Seq<char>)
    ensures
        first_owner(bs, id) matches Some(k) ==> 0 <= k < bs.len() && owns(bs[k], id),
    decreases bs.len(),
{
    if bs.len() > 0 && !owns(bs[0], id) {
        lemma_first_owner(bs.drop_first(), id);
    }
}

/// The prelude of a real row keeps the store well formed.
pub proof fn lemma_enter_wf(s: StoreV, id: Seq<char>)
    requires
        store_wf(s),
    ensures
        store_wf(anchor_v(s, id)),
        store_wf(enter_v(s, id)),
{
    lemma_first_owner(s.bubbles, id);
    let a = anchor_v(s, id);
    assert forall|i: int| 0 <= i < a.bubbles.len() implies #[trigger] bubble_wf(a.bubbles[i]) by {
        assert(a.bubbles[i] == s.bubbles[i]);
    }
}

/// The newest tool bubble for `id` indeed carries it.
pub proof fn lemma_newest_tool(bs: Seq<BubbleV>, id: Seq<char>)
    ensures
        newest_tool(bs, id) matches Some(k) ==> 0 <= k < bs.len() && tool_owns(bs[k], id),
    decreases bs.len(),
{
    if bs.len() > 0 && !tool_owns(bs.last(), id) {
        lemma_newest_tool(bs.drop_last(), id);
        assert forall|k: int| 0 <= k < bs.len() - 1 implies bs.drop_last()[k] == bs[k] by {}
    }
}

fn find_newest_tool(bs: &Vec<Bubble>, id: &str) -> (r: Option<usize>)
    ensures
        r matches Some(k) ==> newest_tool(bs.deep_view(), id@) == Some(k as int) && k < bs.len(),
        r is None ==> newest_tool(bs.deep_view(), id@) is None,
{
    let mut i: usize = bs.len();
    assert(bs.deep_view().take(i as int) =~= bs.deep_view());
    while i > 0
        invariant
            i <= bs.len(),
            newest_tool(bs.deep_view(), id@) == newest_tool(bs.deep_view().take(i as int), id@),
        decreases i,
    {
        let ghost pre = bs.deep_view().take(i as int);
        assert(pre.last() == bs[i - 1]@);
        assert(pre.drop_last() =~= bs.deep_view().take(i - 1));
        if tool_owns_exec(&bs[i - 1], id) {
            return Some(i - 1);
        }
        i = i - 1;
    }
    assert(bs.deep_view().take(0) =~= Seq::<BubbleV>::empty());
    None
}

fn find_text_uid(bs: &Vec<Bubble>, id: &str) -> (r: Option<usize>)
    ensures
        r matches Some(k) ==> first_text_uid(bs.deep_view(), id@) == Some(k as int) && k < bs.len(),
        r is None ==> first_text_uid(bs.deep_view(), id@) is None,
{
    let n = bs.len();
    let mut i: usize = 0;
    assert(bs.deep_view().skip(0) =~= bs.deep_view());
    while i < n
        invariant
            n == bs.len(),
            i <= n,
            first_text_uid(bs.deep_view(), id@) == shift(
                first_text_uid(bs.deep_view().skip(i as int), id@),
                i as int,
            ),
        decreases n - i,
    {
        let ghost rest = bs.deep_view().skip(i as int);
        assert(rest[0] == bs[i as int]@);
        assert(rest.drop_first() =~= bs.deep_view().skip(i + 1));
        let hit = match &bs[i] {
            Bubble::Text { uid, .. } => str_eq(uid.as_str(), id),
            _ => false,
        };
        if hit {
            return Some(i);
        }
        i = i + 1;
    }
    assert(bs.deep_view().skip(n as int) =~= Seq::<BubbleV>::empty());
    None
}

/// The output rule on an accumulator (see [`output_after`]).
pub fn apply_output(acc: &mut String, output: &str, live: bool)
    ensures
        final(acc)@ == output_after(old(acc)@, output@, live),
{
    if output.unicode_len() > 0 {
        if live {
            acc.append(output);
        } else {
            *acc = owned(output);
        }
    }
}

/// A lifecycle update of one row.
fn update_row(r: &mut ToolRow, status: &str, output: &str, live: bool)
    ensures
        final(r)@ == updated_row(old(r)@, status@, output@, live),
{
    r.status = owned(status);
    apply_output(&mut r.output, output, live);
}

/// A `ToolCall` back to the store's row shape.
pub fn call_to_row(c: &ToolCall) -> (r: ToolRow)
    ensures
        r@ == call_row(c@),
{
    ToolRow {
        title: c.title.clone(),
        detail: c.detail.clone(),
        tool_call_id: c.id.clone(),
        output: c.output.clone(),
        status: c.status.clone(),
        app_key: empty_string(),
        spec: empty_string(),
    }
}

/// The rows of a toolgroup's calls.
fn calls_to_rows(calls: &Vec<ToolCall>) -> (rows: Vec<ToolRow>)
    ensures
        rows.deep_view() == calls.deep_view().map_values(|c: ToolCallV| call_row(c)),
{
    let mut rows: Vec<ToolRow> = Vec::new();
    let n = calls.len();
    for i in 0..n
        invariant
            n == calls.len(),
            rows.deep_view() == calls.deep_view().take(i as int).map_values(|c: ToolCallV| call_row(c)),
    {
        let ghost before = rows.deep_view();
        rows.push(call_to_row(&calls[i]));
        assert(rows.deep_view() =~= before.push(call_row(calls[i as int]@)));
        assert(calls.deep_view().take(i + 1) =~= calls.deep_view().take(i as int).push(calls[i as int]@));
        assert(rows.deep_view() =~= calls.deep_view().take(i + 1).map_values(|c: ToolCallV| call_row(c)));
    }
    assert(calls.deep_view().take(n as int) =~= calls.deep_view());
    rows
}

/// The text role an item kind stands for.
fn role_for_kind(k: ItemKind) -> (r: String)
    ensures
        r@ == kind_role(k),
{
    match k {
        ItemKind::User => owned("user"),
        ItemKind::Thought => owned("thought"),
        ItemKind::Error => owned("error"),
        _ => owned("agent"),
    }
}

/// Rebuild a bubble from a rich item (the cache-load path); `None` for an
/// empty toolgroup.
pub fn bubble_from_item(it: &Item) -> (r: Option<Bubble>)
    ensures
        r matches Some(b) ==> bubble_of_item(it@) == Some(b@) && bubble_wf(b@),
        r is None ==> bubble_of_item(it@) is None,
{
    match it.kind {
        ItemKind::Tool => Some(
            Bubble::Tool(
                ToolRow {
                    title: it.text.clone(),
                    detail: it.detail.clone(),
                    tool_call_id: it.id.clone(),
                    output: it.output.clone(),
                    status: it.status.clone(),
                    app_key: empty_string(),
                    spec: empty_string(),
                },
            ),
        ),
        ItemKind::ToolGroup => {
            if it.calls.len() == 0 {
                None
            } else {
                Some(Bubble::ToolGroup(calls_to_rows(&it.calls)))
            }
        },
        ItemKind::Chart => Some(
            Bubble::Chart(
                ToolRow {
                    title: it.text.clone(),
                    detail: empty_string(),
                    tool_call_id: it.id.clone(),
                    output: empty_string(),
                    status: it.status.clone(),
                    app_key: empty_string(),
                    spec: it.detail.clone(),
                },
            ),
        ),
        ItemKind::McpApp => Some(
            Bubble::McpApp(
                ToolRow {
                    title: it.text.clone(),
                    detail: it.detail.clone(),
                    tool_call_id: it.id.clone(),
                    output: empty_string(),
                    status: it.status.clone(),
                    app_key: it.app_key.clone(),
                    spec: empty_string(),
                },
            ),
        ),
        _ => {
            let id = if starts_with_char(it.id.as_str(), '@') {
                empty_string()
            } else {
                it.id.clone()
            };
            let thought = match it.kind {
                ItemKind::Thought => true,
                _ => false,
            };
            Some(Bubble::Text { id, uid: it.id.clone(), role: role_for_kind(it.kind), text: it.text.clone(), thought })
        },
    }
}

/// Field-wise equality of two flat messages.
fn message_eq(a: &Message, b: &Message) -> (r: bool)
    ensures
        r == (a@ == b@),
{
    a.id == b.id && a.role == b.role && a.content == b.content && a.output == b.output
}

/// Field-wise equality of two tool calls.
fn call_eq(a: &ToolCall, b: &ToolCall) -> (r: bool)
    ensures
        r == (a@ == b@),
{
    a.id == b.id && a.title == b.title && a.detail == b.detail && a.output == b.output && a.status == b.status
}

/// Element-wise equality of two call lists.
fn calls_eq(a: &Vec<ToolCall>, b: &Vec<ToolCall>) -> (r: bool)
    ensures
        r == (a.deep_view() == b.deep_view()),
{
    if a.len() != b.len() {
        assert(a.deep_view().len() != b.deep_view().len());
        return false;
    }
    let n = a.len();
    for i in 0..n
        invariant
            n == a.len(),
            n == b.len(),
            forall|j: int| 0 <= j < i ==> a.deep_view()[j] == b.deep_view()[j],
    {
        if !call_eq(&a[i], &b[i]) {
            assert(a.deep_view()[i as int] != b.deep_view()[i as int]);
            return false;
        }
    }
    assert(a.deep_view() =~= b.deep_view());
    true
}

/// Field-wise equality of two items.
fn item_eq(a: &Item, b: &Item) -> (r: bool)
    ensures
        r == (a@ == b@),
{
    a.id == b.id && a.kind == b.kind && a.text == b.text && a.detail == b.detail && a.output == b.output
        && a.status == b.status && a.app_key == b.app_key && calls_eq(&a.calls, &b.calls)
}

/// A copy of a row list.
fn duplicate_rows(rows: &Vec<ToolRow>) -> (c: Vec<ToolRow>)
    ensures
        c.deep_view() == rows.deep_view(),
{
    let mut c: Vec<ToolRow> = Vec::new();
    let n = rows.len();
    for i in 0..n
        invariant
            n == rows.len(),
            c.deep_view() == rows.deep_view().take(i as int),
    {
        let ghost before = c.deep_view();
        c.push(rows[i].duplicate());
        assert(c.deep_view() =~= before.push(rows[i as int]@));
        assert(c.deep_view() =~= rows.deep_view().take(i + 1));
    }
    assert(rows.deep_view().take(n as int) =~= rows.deep_view());
    c
}

} // verus!

verus! {

/// Accumulates streamed chunks into transcript bubbles; every operation
/// returns the events it emits, in order.
pub struct TranscriptStore {
    bubbles: Vec<Bubble>,
    stream_idx: Option<usize>,
    stream_role: String,
    stream_msg_id: String,
    provisional: bool,
    merging: bool,
    merge_anchored: bool,
    merge_overlap: bool,
    session_id: String,
    emitted_from: usize,
    has_older: bool,
    next_uid: u64,
}

impl View for TranscriptStore {
    type V = StoreV;

    closed spec fn view(&self) -> StoreV {
        StoreV {
            bubbles: self.bubbles.deep_view(),
            stream_idx: self.stream_idx,
            stream_role: self.stream_role@,
            stream_msg_id: self.stream_msg_id@,
            provisional: self.provisional,
            merging: self.merging,
            merge_anchored: self.merge_anchored,
            merge_overlap: self.merge_overlap,
            session_id: self.session_id@,
            emitted_from: self.emitted_from,
            has_older: self.has_older,
            next_uid: self.next_uid,
        }
    }
}

/// Appends one event.
fn emit(out: &mut Vec<Emission>, e: Emission)
    ensures
        final(out).deep_view() == old(out).deep_view().push(e@),
{
    let ghost before = out.deep_view();
    out.push(e);
    assert(out.deep_view() =~= before.push(e@));
}

/// Appends an `Upsert` of a bubble.
fn emit_upsert(out: &mut Vec<Emission>, b: &Bubble)
    requires
        bubble_wf(b@),
    ensures
        final(out).deep_view() == old(out).deep_view().push(upsert_em(b@)),
{
    emit(out, Emission::Item(TranscriptOp::Upsert { item: b.item() }));
}

impl TranscriptStore {
    /// The store's invariant.
    pub open spec fn wf(&self) -> bool {
        store_wf(self@)
    }

    /// An empty store.
    pub fn new() -> (s: Self)
        ensures
            s.wf(),
            s@ == empty_store(),
    {
        let s = TranscriptStore {
            bubbles: Vec::new(),
            stream_idx: None,
            stream_role: empty_string(),
            stream_msg_id: empty_string(),
            provisional: false,
            merging: false,
            merge_anchored: false,
            merge_overlap: false,
            session_id: empty_string(),
            emitted_from: 0,
            has_older: false,
            next_uid: 0,
        };
        assert(s@.bubbles =~= Seq::<BubbleV>::empty());
        s
    }

    /// Forget everything and start clean.
    fn reset(&mut self)
        ensures
            final(self)@ == reset_v(old(self)@),
            final(self).wf(),
    {
        self.bubbles = Vec::new();
        self.stream_idx = None;
        self.stream_role = empty_string();
        self.stream_msg_id = empty_string();
        self.emitted_from = 0;
        self.provisional = false;
        self.merging = false;
        self.merge_anchored = false;
        self.merge_overlap = false;
        assert(self@.bubbles =~= Seq::<BubbleV>::empty());
    }

    /// The replay-merge anchor (see [`anchor_v`]).
    fn anchor_merge(&mut self, id: &str)
        requires
            old(self).wf(),
        ensures
            final(self)@ == anchor_v(old(self)@, id@),
            final(self).wf(),
    {
        if !self.merging || self.merge_anchored || id.unicode_len() == 0 {
            return;
        }
        self.merge_anchored = true;
        match find_first_owner(&self.bubbles, id) {
            Some(k) => {
                let ghost before = self.bubbles.deep_view();
                self.bubbles.truncate(k);
                assert(self.bubbles.deep_view() =~= before.take(k as int));
                if self.emitted_from > k {
                    self.emitted_from = k;
                }
                self.stream_idx = None;
                self.stream_role = empty_string();
                self.stream_msg_id = empty_string();
                self.merge_overlap = true;
            },
            None => {},
        }
    }

    /// Drop a provisional (non-merge) paint; returns whether rows were dropped.
    fn supersede(&mut self) -> (dropped: bool)
        requires
            old(self).wf(),
        ensures
            dropped == supersedes(old(self)@),
            final(self)@ == supersede_v(old(self)@),
            final(self).wf(),
    {
        if self.provisional && !self.merging {
            self.reset();
            return true;
        }
        false
    }

    /// Anchor + supersede; the reset events (if any) go to `out`.
    fn enter(&mut self, id: &str, out: &mut Vec<Emission>)
        requires
            old(self).wf(),
        ensures
            final(self)@ == enter_v(old(self)@, id@),
            final(out).deep_view() == old(out).deep_view() + enter_em(old(self)@, id@),
            final(self).wf(),
    {
        self.anchor_merge(id);
        if self.supersede() {
            emit(out, Emission::Transcript(TranscriptEvent::Clear));
            emit(out, Emission::Item(TranscriptOp::Reset { session_id: self.session_id.clone() }));
        }
        assert(out.deep_view() =~= old(out).deep_view() + enter_em(old(self)@, id@));
    }

    /// Enforce the bubble cap.
    fn trim(&mut self)
        requires
            old(self).wf(),
        ensures
            final(self)@ == trim_v(old(self)@),
            final(self).wf(),
    {
        let n = self.bubbles.len();
        if n <= MAX_BUBBLES {
            return;
        }
        let drop = n - (MAX_BUBBLES - MAX_BUBBLES / 4);
        let ghost before = self.bubbles.deep_view();
        let kept = self.bubbles.split_off(drop);
        self.bubbles = kept;
        assert(self.bubbles.deep_view() =~= before.skip(drop as int));
        if self.emitted_from >= drop {
            self.emitted_from = self.emitted_from - drop;
        } else {
            self.emitted_from = 0;
        }
        self.stream_idx = None;
    }

    /// A fresh `@n` id.
    fn new_uid(&mut self) -> (u: String)
        ensures
            final(self)@ == (StoreV { next_uid: next_counter(old(self)@.next_uid), ..old(self)@ }),
            u@ == synthetic_uid(next_counter(old(self)@.next_uid)),
    {
        self.next_uid = self.next_uid.wrapping_add(1);
        let mut u = owned("@");
        push_decimal(&mut u, self.next_uid);
        proof {
            reveal_strlit("@");
        }
        u
    }
}

} // verus!

verus! {

/// Appends a batch of events.
fn emit_all(out: &mut Vec<Emission>, mut more: Vec<Emission>)
    ensures
        final(out).deep_view() == old(out).deep_view() + more.deep_view(),
{
    let ghost a = out.deep_view();
    let ghost b = more.deep_view();
    out.append(&mut more);
    assert(out.deep_view() =~= a + b);
}

/// The stream event for a text chunk.
fn chunk_event(role: &str, text: &str, mid: &str) -> (e: StreamEvent)
    ensures
        e@ == chunk_stream(role@, text@, mid@),
{
    if str_eq(role, "user") {
        StreamEvent::UserChunk { text: owned(text), message_id: owned(mid) }
    } else if str_eq(role, "thought") {
        StreamEvent::ThoughtChunk { text: owned(text) }
    } else {
        StreamEvent::AgentChunk { text: owned(text), message_id: owned(mid) }
    }
}

impl TranscriptStore {
    /// Finalize the previous stream bubble and open a new one.
    fn open_bubble(
        &mut self,
        role: &str,
        text: &str,
        mid: &str,
        thought: bool,
        ops: &mut Vec<Emission>,
    ) -> (e: TranscriptEvent)
        requires
            old(self).wf(),
        ensures
            final(self).wf(),
            final(self)@ == open_v(old(self)@, role@, text@, mid@, thought),
            final(ops).deep_view() == old(ops).deep_view() + finalize_em(old(self)@) + seq![upsert_em(opened_bubble(old(self)@, role@, text@, mid@, thought))],
            e@ == (TranscriptV::Append { message: project(opened_bubble(old(self)@, role@, text@, mid@, thought)) }),
    {
        let ghost s0 = self@;
        let ghost ops0 = ops.deep_view();
        match self.stream_idx {
            Some(prev) => {
                if prev < self.bubbles.len() {
                    emit_upsert(ops, &self.bubbles[prev]);
                }
            },
            None => {},
        }
        assert(ops.deep_view() == ops0 + finalize_em(s0));
        let uid = if mid.unicode_len() > 0 {
            owned(mid)
        } else {
            self.new_uid()
        };
        let b = Bubble::Text { id: owned(mid), uid, role: owned(role), text: owned(text), thought };
        assert(b@ == opened_bubble(s0, role@, text@, mid@, thought));
        let e = TranscriptEvent::Append { message: b.project() };
        emit_upsert(ops, &b);
        let ghost bv = b@;
        let ghost before = self.bubbles.deep_view();
        let idx = self.bubbles.len();
        self.bubbles.push(b);
        self.stream_idx = Some(idx);
        self.stream_role = owned(role);
        self.stream_msg_id = owned(mid);
        proof {
            assert(self.bubbles.deep_view() =~= before.push(bv));
            assert forall|j: int| 0 <= j < self.bubbles.len() implies #[trigger] bubble_wf(
                self.bubbles.deep_view()[j],
            ) by {
                if j < before.len() {
                    assert(bubble_wf(before[j]));
                }
            }
        }
        assert(ops.deep_view() =~= ops0 + finalize_em(s0) + seq![upsert_em(bv)]);
        e
    }

    /// Accumulate a chunk into the open stream bubble.
    fn extend_stream(&mut self, text: &str, thought: bool, ops: &mut Vec<Emission>) -> (e: TranscriptEvent)
        requires
            old(self).wf(),
            old(self)@.stream_idx is Some,
        ensures
            final(self).wf(),
            final(self)@ == extend_v(old(self)@, text@, thought),
            final(ops).deep_view() == old(ops).deep_view() + seq![extend_op(extended(stream_bubble(old(self)@), text@, thought), text@)],
            e@ == (TranscriptV::Update { message: project(extended(stream_bubble(old(self)@), text@, thought)) }),
    {
        let ghost ops0 = ops.deep_view();
        let i = match self.stream_idx {
            Some(i) => i,
            None => 0,
        };
        let ghost before = self.bubbles.deep_view();
        let ghost b2 = extended(before[i as int], text@, thought);
        match &mut self.bubbles[i] {
            Bubble::Text { text: acc, thought: t, .. } => {
                acc.append(text);
                *t = thought;
            },
            _ => {},
        }
        proof {
            assert(self.bubbles.deep_view() =~= before.update(i as int, b2));
            assert forall|j: int| 0 <= j < self.bubbles.len() implies #[trigger] bubble_wf(
                self.bubbles.deep_view()[j],
            ) by {
                assert(bubble_wf(before[j]));
            }
        }
        let e = TranscriptEvent::Update { message: self.bubbles[i].project() };
        match &self.bubbles[i] {
            Bubble::Text { uid, .. } => {
                emit(
                    ops,
                    Emission::Item(TranscriptOp::AppendText { id: uid.clone(), chunk: owned(text) }),
                );
            },
            _ => {
                emit_upsert(ops, &self.bubbles[i]);
            },
        }
        e
    }

    /// The finalizing `Upsert` of the open stream bubble, if any.
    fn finalize(&self, ops: &mut Vec<Emission>)
        requires
            self.wf(),
        ensures
            final(ops).deep_view() == old(ops).deep_view() + finalize_em(self@),
    {
        let ghost ops0 = ops.deep_view();
        match self.stream_idx {
            Some(prev) => {
                if prev < self.bubbles.len() {
                    emit_upsert(ops, &self.bubbles[prev]);
                }
            },
            None => {},
        }
        assert(ops.deep_view() =~= ops0 + finalize_em(self@));
    }

    /// Place a tool row (see [`place_call`]); returns the transcript event.
    fn place(&mut self, row: ToolRow, kind: &ToolCallKind) -> (e: TranscriptEvent)
        requires
            old(self).wf(),
        ensures
            final(self).wf(),
            final(self)@ == (StoreV { bubbles: place_call(old(self)@.bubbles, row@, kind@), ..old(self)@ }),
            e@ == (if joins_last(old(self)@.bubbles, kind@) { TranscriptV::Update { message: project(final(self)@.bubbles.last()) } } else { TranscriptV::Append { message: project(final(self)@.bubbles.last()) } }),
    {
        let ghost before = self.bubbles.deep_view();
        let ghost rv = row@;
        let n = self.bubbles.len();
        let plain = match kind {
            ToolCallKind::Plain => true,
            _ => false,
        };
        let joins = plain && n > 0 && match &self.bubbles[n - 1] {
            Bubble::Tool(_) => true,
            Bubble::ToolGroup(_) => true,
            _ => false,
        };
        assert(joins == joins_last(before, kind@));
        if joins {
            let idx = n - 1;
            let lone = match &self.bubbles[idx] {
                Bubble::Tool(r) => Some(r.duplicate()),
                _ => None,
            };
            match lone {
                Some(first) => {
                    let ghost fv = first@;
                    let mut calls: Vec<ToolRow> = Vec::new();
                    calls.push(first);
                    calls.push(row);
                    assert(calls.deep_view() =~= seq![fv, rv]);
                    self.bubbles[idx] = Bubble::ToolGroup(calls);
                },
                None => {
                    match &mut self.bubbles[idx] {
                        Bubble::ToolGroup(calls) => {
                            let ghost cv = calls.deep_view();
                            calls.push(row);
                            assert(calls.deep_view() =~= cv.push(rv));
                        },
                        _ => {},
                    }
                },
            }
            proof {
                assert(self.bubbles.deep_view() =~= place_call(before, rv, kind@));
                assert forall|j: int| 0 <= j < self.bubbles.len() implies #[trigger] bubble_wf(
                    self.bubbles.deep_view()[j],
                ) by {
                    assert(bubble_wf(before[j]));
                }
            }
            TranscriptEvent::Update { message: self.bubbles[idx].project() }
        } else {
            let b = match kind {
                ToolCallKind::Plain => Bubble::Tool(row),
                ToolCallKind::Chart { .. } => Bubble::Chart(row),
                ToolCallKind::McpApp { .. } => Bubble::McpApp(row),
            };
            let ghost bv = b@;
            self.bubbles.push(b);
            proof {
                assert(self.bubbles.deep_view() =~= before.push(bv));
                assert forall|j: int| 0 <= j < self.bubbles.len() implies #[trigger] bubble_wf(
                    self.bubbles.deep_view()[j],
                ) by {
                    if j < before.len() {
                        assert(bubble_wf(before[j]));
                    }
                }
            }
            TranscriptEvent::Append { message: self.bubbles[n].project() }
        }
    }

    /// A tool call. Consecutive plain calls collapse into one toolgroup
    /// bubble (the first call appended, later calls update it); chart and
    /// app calls always append their own bubble. A tool call ends the text
    /// stream: the next chunk starts a fresh bubble.
    pub fn tool_call(&mut self, title: &str, detail: &str, tool_call_id: &str, kind: ToolCallKind) -> (out: Vec<Emission>)
        requires
            old(self).wf(),
        ensures
            final(self).wf(),
            final(self)@ == tool_call_v(old(self)@, title@, detail@, tool_call_id@, kind@).0,
            out.deep_view() == tool_call_v(old(self)@, title@, detail@, tool_call_id@, kind@).1,
    {
        let mut ops: Vec<Emission> = Vec::new();
        self.enter(tool_call_id, &mut ops);
        self.finalize(&mut ops);
        let mut row = ToolRow {
            title: owned(title),
            detail: owned(detail),
            tool_call_id: owned(tool_call_id),
            output: empty_string(),
            status: owned("in_progress"),
            app_key: empty_string(),
            spec: empty_string(),
        };
        match &kind {
            ToolCallKind::Chart { spec } => row.spec = spec.clone(),
            ToolCallKind::McpApp { app_key, .. } => row.app_key = app_key.clone(),
            ToolCallKind::Plain => {},
        }
        let e = self.place(row, &kind);
        let last = self.bubbles.len() - 1;
        emit_upsert(&mut ops, &self.bubbles[last]);
        self.trim();
        self.stream_idx = None;
        let mut out: Vec<Emission> = Vec::new();
        emit(
            &mut out,
            Emission::Stream(
                StreamEvent::ToolCall {
                    title: owned(title),
                    detail: owned(detail),
                    tool_call_id: owned(tool_call_id),
                    kind,
                },
            ),
        );
        emit(&mut out, Emission::Transcript(e));
        emit_all(&mut out, ops);
        out
    }

    /// Apply a lifecycle update to bubble `k`.
    fn update_at(&mut self, k: usize, id: &str, status: &str, output: &str, live: bool)
        requires
            old(self).wf(),
            k < old(self).bubbles.len(),
        ensures
            final(self).wf(),
            final(self)@ == (StoreV { bubbles: old(self)@.bubbles.update(k as int, updated_bubble(old(self)@.bubbles[k as int], id@, status@, output@, live)), ..old(self)@ }),
    {
        let ghost before = self.bubbles.deep_view();
        let ghost b2 = updated_bubble(before[k as int], id@, status@, output@, live);
        match &mut self.bubbles[k] {
            Bubble::Tool(r) => update_row(r, status, output, live),
            Bubble::Chart(r) => r.status = owned(status),
            Bubble::McpApp(r) => r.status = owned(status),
            Bubble::ToolGroup(calls) => {
                match find_call(calls, id) {
                    Some(j) => {
                        let ghost cv = calls.deep_view();
                        update_row(&mut calls[j], status, output, live);
                        assert(calls.deep_view() =~= cv.update(j as int, updated_row(cv[j as int], status@, output@, live)));
                    },
                    None => {},
                }
            },
            Bubble::Text { .. } => {},
        }
        proof {
            assert(self.bubbles.deep_view() =~= before.update(k as int, b2));
            assert forall|j: int| 0 <= j < self.bubbles.len() implies #[trigger] bubble_wf(
                self.bubbles.deep_view()[j],
            ) by {
                assert(bubble_wf(before[j]));
            }
        }
    }

    /// A tool lifecycle update. The newest bubble carrying the call takes the
    /// status; `output` follows the output rule (live appends, the completion
    /// replaces, empty leaves it). Chart and app bubbles take status only.
    pub fn tool_update(&mut self, id: &str, status: &str, output: &str, live: bool) -> (out: Vec<Emission>)
        requires
            old(self).wf(),
        ensures
            final(self).wf(),
            final(self)@ == tool_update_v(old(self)@, id@, status@, output@, live).0,
            out.deep_view() == tool_update_v(old(self)@, id@, status@, output@, live).1,
    {
        let mut ops: Vec<Emission> = Vec::new();
        self.enter(id, &mut ops);
        let mut out: Vec<Emission> = Vec::new();
        emit(
            &mut out,
            Emission::Stream(
                StreamEvent::ToolCallUpdate {
                    id: owned(id),
                    status: owned(status),
                    output: owned(output),
                    live,
                },
            ),
        );
        match find_newest_tool(&self.bubbles, id) {
            Some(k) => {
                self.update_at(k, id, status, output, live);
                assert(bubble_wf(self@.bubbles[k as int]));
                emit(&mut out, Emission::Transcript(TranscriptEvent::Update { message: self.bubbles[k].project() }));
                let standalone = match &self.bubbles[k] {
                    Bubble::Tool(_) => true,
                    _ => false,
                };
                if live && output.unicode_len() > 0 && standalone {
                    emit(&mut ops, Emission::Item(TranscriptOp::AppendOutput { id: owned(id), chunk: owned(output) }));
                } else {
                    emit_upsert(&mut ops, &self.bubbles[k]);
                }
            },
            None => {},
        }
        emit_all(&mut out, ops);
        out
    }

    /// Put an app bubble in place of bubble `k`; returns the events.
    fn promote_in_place(&mut self, k: usize, row: ToolRow, id: &str, uri: &str, extension: &str) -> (out: Vec<Emission>)
        requires
            old(self).wf(),
            k < old(self).bubbles.len(),
            row@.app_key == app_key_of(extension@, uri@),
        ensures
            final(self).wf(),
            final(self)@ == promoted_in_place(old(self)@, k as int, row@, id@, uri@, extension@).0,
            out.deep_view() == promoted_in_place(old(self)@, k as int, row@, id@, uri@, extension@).1,
    {
        let ghost before = self.bubbles.deep_view();
        let ghost rv = row@;
        let mut out: Vec<Emission> = Vec::new();
        emit(&mut out, self.app_event(&row, id, uri, extension));
        self.bubbles[k] = Bubble::McpApp(row);
        proof {
            assert(self.bubbles.deep_view() =~= before.update(k as int, BubbleV::McpApp(rv)));
            assert forall|j: int| 0 <= j < self.bubbles.len() implies #[trigger] bubble_wf(
                self.bubbles.deep_view()[j],
            ) by {
                assert(bubble_wf(before[j]));
            }
        }
        emit(&mut out, Emission::Transcript(TranscriptEvent::Update { message: self.bubbles[k].project() }));
        emit_upsert(&mut out, &self.bubbles[k]);
        out
    }

    /// Pull call `j` out of the toolgroup at `k` into an app bubble right
    /// after it; returns the events.
    fn split_out(&mut self, k: usize, j: usize, row: ToolRow, id: &str, uri: &str, extension: &str) -> (out: Vec<Emission>)
        requires
            old(self).wf(),
            k < old(self).bubbles.len(),
            old(self)@.bubbles[k as int] is ToolGroup,
            j < old(self)@.bubbles[k as int]->ToolGroup_0.len(),
            old(self)@.bubbles[k as int]->ToolGroup_0.len() > 1,
            row@.app_key == app_key_of(extension@, uri@),
        ensures
            final(self).wf(),
            final(self)@ == (StoreV { bubbles: old(self)@.bubbles.update(k as int, BubbleV::ToolGroup(old(self)@.bubbles[k as int]->ToolGroup_0.remove(j as int))).insert(k + 1, BubbleV::McpApp(row@)), ..old(self)@ }),
            out.deep_view() == seq![
                app_stream(row@, id@, uri@, extension@),
                EmissionV::Transcript(TranscriptV::Update { message: project(final(self)@.bubbles[k as int]) }),
                EmissionV::Transcript(TranscriptV::Append { message: project(BubbleV::McpApp(row@)) }),
                upsert_em(final(self)@.bubbles[k as int]),
                upsert_em(BubbleV::McpApp(row@)),
            ],
    {
        let ghost before = self.bubbles.deep_view();
        let ghost rv = row@;
        let mut out: Vec<Emission> = Vec::new();
        emit(&mut out, self.app_event(&row, id, uri, extension));
        match &mut self.bubbles[k] {
            Bubble::ToolGroup(calls) => {
                let ghost cv = calls.deep_view();
                let _ = calls.remove(j);
                assert(calls.deep_view() =~= cv.remove(j as int));
            },
            _ => {},
        }
        let ghost mid = self.bubbles.deep_view();
        self.bubbles.insert(k + 1, Bubble::McpApp(row));
        proof {
            let g = BubbleV::ToolGroup(before[k as int]->ToolGroup_0.remove(j as int));
            assert(mid =~= before.update(k as int, g));
            assert(self.bubbles.deep_view() =~= before.update(k as int, g).insert(k + 1, BubbleV::McpApp(rv)));
            assert forall|i: int| 0 <= i < self.bubbles.len() implies #[trigger] bubble_wf(
                self.bubbles.deep_view()[i],
            ) by {
                if i < k {
                    assert(bubble_wf(before[i]));
                } else if i > k + 1 {
                    assert(bubble_wf(before[i - 1]));
                }
            }
        }
        emit(&mut out, Emission::Transcript(TranscriptEvent::Update { message: self.bubbles[k].project() }));
        emit(&mut out, Emission::Transcript(TranscriptEvent::Append { message: self.bubbles[k + 1].project() }));
        emit_upsert(&mut out, &self.bubbles[k]);
        emit_upsert(&mut out, &self.bubbles[k + 1]);
        out
    }

    /// The stream event announcing a promoted app.
    fn app_event(&self, row: &ToolRow, id: &str, uri: &str, extension: &str) -> (e: Emission)
        requires
            row@.app_key == app_key_of(extension@, uri@),
        ensures
            e@ == app_stream(row@, id@, uri@, extension@),
    {
        Emission::Stream(
            StreamEvent::ToolCall {
                title: row.title.clone(),
                detail: row.detail.clone(),
                tool_call_id: owned(id),
                kind: ToolCallKind::McpApp {
                    app_key: row.app_key.clone(),
                    uri: owned(uri),
                    extension: owned(extension),
                    input: row.detail.clone(),
                },
            },
        )
    }

    /// Promote a previously plain tool call to an MCP app (the app identity
    /// arrives late, on the completing update). Clients learn of it by a
    /// re-issued stream `ToolCall` with the app kind, then the transcript
    /// update(s). Re-promoting is a no-op.
    pub fn tool_app(&mut self, id: &str, uri: &str, extension: &str) -> (out: Vec<Emission>)
        requires
            old(self).wf(),
        ensures
            final(self).wf(),
            final(self)@ == tool_app_v(old(self)@, id@, uri@, extension@).0,
            out.deep_view() == tool_app_v(old(self)@, id@, uri@, extension@).1,
    {
        self.anchor_merge(id);
        let ghost s2 = self@;
        let k = match find_newest_tool(&self.bubbles, id) {
            Some(k) => k,
            None => {
                let out: Vec<Emission> = Vec::new();
                assert(out.deep_view() =~= Seq::<EmissionV>::empty());
                return out;
            },
        };
        proof {
            lemma_newest_tool(s2.bubbles, id@);
        }
        let mut key = concat(extension, "|");
        key.append(uri);
        let found: Option<(ToolRow, Option<usize>, usize)> = match &self.bubbles[k] {
            Bubble::Tool(r) => Some((r.duplicate(), None, 0)),
            Bubble::ToolGroup(calls) => match find_call(calls, id) {
                Some(j) => Some((calls[j].duplicate(), Some(j), calls.len())),
                None => None,
            },
            _ => None,
        };
        let (mut row, pos, group_len) = match found {
            Some(f) => f,
            None => {
                let out: Vec<Emission> = Vec::new();
                assert(out.deep_view() =~= Seq::<EmissionV>::empty());
                return out;
            },
        };
        row.app_key = key;
        match pos {
            None => self.promote_in_place(k, row, id, uri, extension),
            Some(j) => {
                if group_len == 1 {
                    proof {
                        let calls = s2.bubbles[k as int]->ToolGroup_0;
                        assert(calls.remove(j as int).len() == 0);
                    }
                    self.promote_in_place(k, row, id, uri, extension)
                } else {
                    self.split_out(k, j, row, id, uri, extension)
                }
            },
        }
    }

    /// A turn finished: the last text bubble is final, so its authoritative
    /// `Upsert` goes out, then the turn end on the stream.
    pub fn run_ended(&self, stop_reason: &str) -> (out: Vec<Emission>)
        requires
            self.wf(),
        ensures
            out.deep_view() == run_ended_em(self@, stop_reason@),
    {
        let mut out: Vec<Emission> = Vec::new();
        self.finalize(&mut out);
        emit(&mut out, Emission::Stream(StreamEvent::RunEnded { stop_reason: owned(stop_reason) }));
        out
    }

    /// Wipe the transcript and the stream state.
    pub fn clear(&mut self) -> (out: Vec<Emission>)
        requires
            old(self).wf(),
        ensures
            final(self).wf(),
            final(self)@ == reset_v(old(self)@),
            out.deep_view() == clear_em(old(self)@.session_id),
    {
        self.reset();
        let mut out: Vec<Emission> = Vec::new();
        emit(&mut out, Emission::Transcript(TranscriptEvent::Clear));
        emit(&mut out, Emission::Item(TranscriptOp::Reset { session_id: self.session_id.clone() }));
        emit(&mut out, Emission::Item(TranscriptOp::Window { oldest_id: empty_string(), has_older: false }));
        out
    }

    /// The session the held rows belong to (stamped on `Reset` ops).
    pub fn set_session(&mut self, session_id: &str)
        requires
            old(self).wf(),
        ensures
            final(self).wf(),
            final(self)@ == (StoreV { session_id: session_id@, ..old(self)@ }),
    {
        self.session_id = owned(session_id);
    }

    /// The item id of bubble `i`, empty past the end.
    fn uid_at(&self, i: usize) -> (u: String)
        ensures
            u@ == uid_at(self@.bubbles, i as int),
    {
        if i < self.bubbles.len() {
            self.bubbles[i].uid()
        } else {
            empty_string()
        }
    }

    /// The id of the oldest item the client holds (the window's origin).
    pub fn oldest_id(&self) -> (u: String)
        ensures
            u@ == uid_at(self@.bubbles, self@.emitted_from as int),
    {
        self.uid_at(self.emitted_from)
    }

    /// The id of the newest held item (empty when the store is empty).
    pub fn newest_id(&self) -> (u: String)
        ensures
            u@ == uid_at(self@.bubbles, self@.bubbles.len() - 1),
    {
        if self.bubbles.len() == 0 {
            empty_string()
        } else {
            self.uid_at(self.bubbles.len() - 1)
        }
    }

    /// The pagination cursor.
    pub fn window(&self) -> (w: TranscriptWindow)
        ensures
            w@.oldest_id == uid_at(self@.bubbles, self@.emitted_from as int),
            w@.newest_id == uid_at(self@.bubbles, self@.bubbles.len() - 1),
            w@.has_older == self@.has_older,
    {
        TranscriptWindow { oldest_id: self.oldest_id(), newest_id: self.newest_id(), has_older: self.has_older }
    }

    /// Items of bubbles `from..to`, in order.
    fn items_between(&self, from: usize, to: usize) -> (v: Vec<Item>)
        requires
            self.wf(),
            from <= to <= self@.bubbles.len(),
        ensures
            v.deep_view() == items_of(self@.bubbles.subrange(from as int, to as int)),
    {
        let mut v: Vec<Item> = Vec::new();
        let mut i = from;
        while i < to
            invariant
                self.wf(),
                from <= i <= to <= self@.bubbles.len(),
                v.deep_view() == items_of(self@.bubbles.subrange(from as int, i as int)),
            decreases to - i,
        {
            let ghost before = v.deep_view();
            assert(bubble_wf(self@.bubbles[i as int]));
            v.push(self.bubbles[i].item());
            assert(v.deep_view() =~= before.push(item_of(self@.bubbles[i as int])));
            assert(self@.bubbles.subrange(from as int, i + 1) =~= self@.bubbles.subrange(from as int, i as int).push(self@.bubbles[i as int]));
            i = i + 1;
        }
        v
    }

    /// One `Upsert` per bubble `from..to`, appended to `out`.
    fn emit_range(&self, out: &mut Vec<Emission>, from: usize, to: usize)
        requires
            self.wf(),
            from <= to <= self@.bubbles.len(),
        ensures
            final(out).deep_view() == old(out).deep_view() + upserts(items_of(self@.bubbles.subrange(from as int, to as int))),
    {
        let ghost out0 = out.deep_view();
        let mut i = from;
        assert(upserts(items_of(self@.bubbles.subrange(from as int, from as int))) =~= Seq::<EmissionV>::empty());
        assert(out.deep_view() =~= out0 + Seq::<EmissionV>::empty());
        while i < to
            invariant
                self.wf(),
                from <= i <= to <= self@.bubbles.len(),
                out.deep_view() == out0 + upserts(items_of(self@.bubbles.subrange(from as int, i as int))),
            decreases to - i,
        {
            assert(bubble_wf(self@.bubbles[i as int]));
            emit_upsert(out, &self.bubbles[i]);
            let ghost prev = self@.bubbles.subrange(from as int, i as int);
            assert(self@.bubbles.subrange(from as int, i + 1) =~= prev.push(self@.bubbles[i as int]));
            assert(upserts(items_of(prev.push(self@.bubbles[i as int]))) =~= upserts(items_of(prev)).push(upsert_em(self@.bubbles[i as int])));
            assert(out.deep_view() =~= out0 + upserts(items_of(self@.bubbles.subrange(from as int, i + 1))));
            i = i + 1;
        }
    }

    /// Walk the window back by `count` items: they go out oldest first as
    /// `Upsert`s, then a refreshed `Window` (also when nothing older is left).
    pub fn load_older(&mut self, count: usize) -> (out: Vec<Emission>)
        requires
            old(self).wf(),
        ensures
            final(self).wf(),
            final(self)@ == load_older_v(old(self)@, count).0,
            out.deep_view() == load_older_v(old(self)@, count).1,
    {
        let from = self.emitted_from.saturating_sub(count);
        let mut out: Vec<Emission> = Vec::new();
        self.emit_range(&mut out, from, self.emitted_from);
        assert(out.deep_view() =~= upserts(items_of(self@.bubbles.subrange(from as int, self@.emitted_from as int))));
        self.emitted_from = from;
        self.has_older = from > 0;
        emit(&mut out, Emission::Item(TranscriptOp::Window { oldest_id: self.uid_at(from), has_older: from > 0 }));
        out
    }

    /// The rich item snapshot, in transcript order.
    pub fn rich_transcript(&self) -> (v: Vec<Item>)
        requires
            self.wf(),
        ensures
            v.deep_view() == items_of(self@.bubbles),
    {
        let v = self.items_between(0, self.bubbles.len());
        assert(self@.bubbles.subrange(0, self@.bubbles.len() as int) =~= self@.bubbles);
        v
    }

    /// The rich rows themselves (tool outputs and statuses included).
    pub fn rows_for_test(&self) -> (v: Vec<Bubble>)
        ensures
            v.deep_view() == self@.bubbles,
    {
        let mut v: Vec<Bubble> = Vec::new();
        for i in 0..self.bubbles.len()
            invariant
                v.deep_view() == self.bubbles.deep_view().take(i as int),
                self@.bubbles == self.bubbles.deep_view(),
        {
            let ghost v0 = v.deep_view();
            let b = self.bubbles[i].duplicate();
            v.push(b);
            assert(v.deep_view() =~= v0.push(self.bubbles[i as int]@));
            assert(v.deep_view() =~= self.bubbles.deep_view().take(i + 1));
        }
        assert(self.bubbles.deep_view().take(self.bubbles.len() as int) =~= self.bubbles.deep_view());
        v
    }

    /// Snapshot of the accumulated transcript (the flat projection).
    pub fn transcript(&self) -> (v: Vec<Message>)
        requires
            self.wf(),
        ensures
            v.deep_view() == messages_of(self@.bubbles),
    {
        let mut v: Vec<Message> = Vec::new();
        let n = self.bubbles.len();
        for i in 0..n
            invariant
                self.wf(),
                n == self@.bubbles.len(),
                v.deep_view() == messages_of(self@.bubbles.take(i as int)),
        {
            let ghost before = v.deep_view();
            assert(bubble_wf(self@.bubbles[i as int]));
            v.push(self.bubbles[i].project());
            assert(v.deep_view() =~= before.push(project(self@.bubbles[i as int])));
            assert(self@.bubbles.take(i + 1) =~= self@.bubbles.take(i as int).push(self@.bubbles[i as int]));
        }
        assert(self@.bubbles.take(n as int) =~= self@.bubbles);
        v
    }

    /// One item by id, if held.
    pub fn item(&self, id: &str) -> (r: Option<Item>)
        requires
            self.wf(),
        ensures
            r matches Some(it) ==> item_for(self@.bubbles, id@) == Some(it@),
            r is None ==> item_for(self@.bubbles, id@) is None,
    {
        match find_newest_tool(&self.bubbles, id) {
            Some(k) => {
                assert(bubble_wf(self@.bubbles[k as int]));
                Some(self.bubbles[k].item())
            },
            None => match find_text_uid(&self.bubbles, id) {
                Some(k) => {
                    assert(bubble_wf(self@.bubbles[k as int]));
                    Some(self.bubbles[k].item())
                },
                None => None,
            },
        }
    }

    /// Drop a provisional cache paint; a no-op once real content superseded
    /// it, so it is safe to call per replayed row. When rows were dropped
    /// both channels are told (`Clear`, then the item `Reset`).
    pub fn supersede_provisional(&mut self) -> (out: Vec<Emission>)
        requires
            old(self).wf(),
        ensures
            final(self).wf(),
            final(self)@ == supersede_v(old(self)@),
            out.deep_view() == (if supersedes(old(self)@) { reset_em(old(self)@.session_id) } else { Seq::empty() }),
    {
        let mut out: Vec<Emission> = Vec::new();
        if self.supersede() {
            emit(&mut out, Emission::Transcript(TranscriptEvent::Clear));
            emit(&mut out, Emission::Item(TranscriptOp::Reset { session_id: self.session_id.clone() }));
        }
        assert(out.deep_view() =~= (if supersedes(old(self)@) { reset_em(old(self)@.session_id) } else { Seq::empty() }));
        out
    }

    /// Mark the rows held as provisional, without repainting.
    pub fn mark_provisional(&mut self)
        requires
            old(self).wf(),
        ensures
            final(self).wf(),
            final(self)@ == (StoreV { provisional: true, ..old(self)@ }),
    {
        self.provisional = true;
    }

    /// Whether `ms` is the held flat projection.
    fn same_messages(&self, ms: &Vec<Message>) -> (r: bool)
        requires
            self.wf(),
        ensures
            r == (ms.deep_view() == messages_of(self@.bubbles)),
    {
        let n = ms.len();
        if n != self.bubbles.len() {
            assert(ms.deep_view().len() != messages_of(self@.bubbles).len());
            return false;
        }
        for i in 0..n
            invariant
                self.wf(),
                n == ms.len(),
                n <= self@.bubbles.len(),
                forall|j: int| 0 <= j < i ==> #[trigger] ms.deep_view()[j] == messages_of(self@.bubbles)[j],
        {
            assert(bubble_wf(self@.bubbles[i as int]));
            let m = self.bubbles[i].project();
            if !message_eq(&m, &ms[i]) {
                assert(ms.deep_view()[i as int] != messages_of(self@.bubbles)[i as int]);
                return false;
            }
        }
        assert(ms.deep_view() =~= messages_of(self@.bubbles));
        true
    }

    /// Whether `items` are the held rich projection.
    fn same_items(&self, items: &Vec<Item>) -> (r: bool)
        requires
            self.wf(),
        ensures
            r == (items.deep_view() == items_of(self@.bubbles)),
    {
        let n = items.len();
        if n != self.bubbles.len() {
            return false;
        }
        for i in 0..n
            invariant
                self.wf(),
                n == items.len(),
                n <= self@.bubbles.len(),
                forall|j: int| 0 <= j < i ==> #[trigger] items.deep_view()[j] == items_of(self@.bubbles)[j],
        {
            assert(bubble_wf(self@.bubbles[i as int]));
            let it = self.bubbles[i].item();
            if !item_eq(&it, &items[i]) {
                assert(items.deep_view()[i as int] != items_of(self@.bubbles)[i as int]);
                return false;
            }
        }
        assert(items.deep_view() =~= items_of(self@.bubbles));
        true
    }

    /// Rebuild the bubbles of a flat snapshot onto the (empty) list.
    fn rebuild_from(&mut self, ms: &Vec<Message>)
        requires
            old(self).wf(),
            old(self)@.bubbles.len() == 0,
            old(self)@.stream_idx is None,
        ensures
            final(self).wf(),
            final(self)@ == (StoreV { bubbles: rebuild(ms.deep_view(), old(self)@.next_uid).0, next_uid: rebuild(ms.deep_view(), old(self)@.next_uid).1, ..old(self)@ }),
    {
        let ghost s0 = self@;
        let n = ms.len();
        assert(ms.deep_view().take(0) =~= Seq::<MessageV>::empty());
        assert(s0.bubbles =~= Seq::<BubbleV>::empty());
        assert(rebuild(ms.deep_view().take(0), s0.next_uid).0 =~= s0.bubbles);
        for i in 0..n
            invariant
                n == ms.len(),
                self.wf(),
                self@.stream_idx is None,
                self@ == (StoreV { bubbles: rebuild(ms.deep_view().take(i as int), s0.next_uid).0, next_uid: rebuild(ms.deep_view().take(i as int), s0.next_uid).1, ..s0 }),
        {
            let ghost before = self@;
            let m = &ms[i];
            let b = if str_eq(m.role.as_str(), "tool") {
                Bubble::Tool(
                    ToolRow {
                        title: m.content.clone(),
                        detail: empty_string(),
                        tool_call_id: m.id.clone(),
                        output: empty_string(),
                        status: empty_string(),
                        app_key: empty_string(),
                        spec: empty_string(),
                    },
                )
            } else {
                let uid = if m.id.unicode_len() == 0 {
                    self.new_uid()
                } else {
                    m.id.clone()
                };
                Bubble::Text {
                    id: m.id.clone(),
                    uid,
                    role: m.role.clone(),
                    text: m.content.clone(),
                    thought: str_eq(m.role.as_str(), "thought"),
                }
            };
            proof {
                let step = message_bubble(ms.deep_view()[i as int], before.next_uid);
                assert(b@ == step.0);
                assert(self@.next_uid == step.1);
                assert(ms.deep_view().take(i + 1).drop_last() =~= ms.deep_view().take(i as int));
            }
            let ghost bv = b@;
            let ghost bs0 = self.bubbles.deep_view();
            self.bubbles.push(b);
            proof {
                assert(self.bubbles.deep_view() =~= bs0.push(bv));
                assert forall|j: int| 0 <= j < self.bubbles.len() implies #[trigger] bubble_wf(
                    self.bubbles.deep_view()[j],
                ) by {
                    if j < bs0.len() {
                        assert(bubble_wf(bs0[j]));
                    }
                }
            }
        }
        assert(ms.deep_view().take(n as int) =~= ms.deep_view());
    }

    /// Rebuild the bubbles of a rich snapshot onto the (empty) list.
    fn rebuild_rich_from(&mut self, items: &Vec<Item>)
        requires
            old(self).wf(),
            old(self)@.bubbles.len() == 0,
            old(self)@.stream_idx is None,
        ensures
            final(self).wf(),
            final(self)@ == (StoreV { bubbles: rebuild_rich(items.deep_view()), ..old(self)@ }),
    {
        let ghost s0 = self@;
        let n = items.len();
        assert(items.deep_view().take(0) =~= Seq::<ItemV>::empty());
        assert(s0.bubbles =~= Seq::<BubbleV>::empty());
        assert(rebuild_rich(items.deep_view().take(0)) =~= s0.bubbles);
        for i in 0..n
            invariant
                n == items.len(),
                self.wf(),
                self@.stream_idx is None,
                self@ == (StoreV { bubbles: rebuild_rich(items.deep_view().take(i as int)), ..s0 }),
        {
            assert(items.deep_view().take(i + 1).drop_last() =~= items.deep_view().take(i as int));
            let ghost bs0 = self.bubbles.deep_view();
            match bubble_from_item(&items[i]) {
                Some(b) => {
                    let ghost bv = b@;
                    self.bubbles.push(b);
                    proof {
                        assert(self.bubbles.deep_view() =~= bs0.push(bv));
                        assert forall|j: int| 0 <= j < self.bubbles.len() implies #[trigger] bubble_wf(
                            self.bubbles.deep_view()[j],
                        ) by {
                            if j < bs0.len() {
                                assert(bubble_wf(bs0[j]));
                            }
                        }
                    }
                },
                None => {},
            }
        }
        assert(items.deep_view().take(n as int) =~= items.deep_view());
    }

    /// Reset the window to the newest `CLIENT_WINDOW` rows.
    fn set_window(&mut self)
        requires
            old(self).wf(),
        ensures
            final(self).wf(),
            final(self)@ == windowed(old(self)@),
    {
        self.emitted_from = self.bubbles.len().saturating_sub(CLIENT_WINDOW);
        self.has_older = self.emitted_from > 0;
    }

    /// The repaint events of the current window.
    fn paint(&self, out: &mut Vec<Emission>)
        requires
            self.wf(),
        ensures
            final(out).deep_view() == old(out).deep_view() + paint_em(self@),
    {
        let ghost out0 = out.deep_view();
        emit(out, Emission::Item(TranscriptOp::Reset { session_id: self.session_id.clone() }));
        self.emit_range(out, self.emitted_from, self.bubbles.len());
        assert(self@.bubbles.subrange(self@.emitted_from as int, self@.bubbles.len() as int) =~= self@.bubbles.skip(self@.emitted_from as int));
        emit(out, Emission::Item(TranscriptOp::Window { oldest_id: self.uid_at(self.emitted_from), has_older: self.has_older }));
        assert(out.deep_view() =~= out0 + paint_em(self@));
    }

    fn replace_inner(&mut self, messages: Vec<Message>, provisional: bool) -> (out: Vec<Emission>)
        requires
            old(self).wf(),
        ensures
            final(self).wf(),
            final(self)@ == replace_v(old(self)@, messages.deep_view(), provisional).0,
            out.deep_view() == replace_v(old(self)@, messages.deep_view(), provisional).1,
    {
        let mut out: Vec<Emission> = Vec::new();
        if self.same_messages(&messages) {
            self.provisional = provisional;
            assert(out.deep_view() =~= Seq::<EmissionV>::empty());
            return out;
        }
        self.reset();
        self.rebuild_from(&messages);
        self.provisional = provisional;
        self.set_window();
        emit(&mut out, Emission::Transcript(TranscriptEvent::Clear));
        self.paint(&mut out);
        out
    }

    /// Rebuild the transcript from a flat snapshot (replay / cache load):
    /// the rebuild is faithful, and the stream state resets so the next
    /// chunk starts fresh. A snapshot equal to what the store already shows
    /// repaints nothing.
    pub fn replace(&mut self, messages: Vec<Message>) -> (out: Vec<Emission>)
        requires
            old(self).wf(),
        ensures
            final(self).wf(),
            final(self)@ == replace_v(old(self)@, messages.deep_view(), false).0,
            out.deep_view() == replace_v(old(self)@, messages.deep_view(), false).1,
    {
        self.replace_inner(messages, false)
    }

    /// Paint a cached transcript as provisional: the rows render at once
    /// and the first real server row drops them wholesale.
    pub fn replace_provisional(&mut self, messages: Vec<Message>) -> (out: Vec<Emission>)
        requires
            old(self).wf(),
        ensures
            final(self).wf(),
            final(self)@ == replace_v(old(self)@, messages.deep_view(), true).0,
            out.deep_view() == replace_v(old(self)@, messages.deep_view(), true).1,
    {
        self.replace_inner(messages, true)
    }

    /// Arm replay-merge.
    fn arm_merge(&mut self)
        requires
            old(self).wf(),
        ensures
            final(self).wf(),
            final(self)@ == armed(old(self)@),
    {
        self.merging = true;
        self.merge_anchored = false;
        self.merge_overlap = false;
        self.provisional = false;
    }

    /// Paint a cached transcript and arm replay-merge: the replayed tail that
    /// follows is anchored on its first row already in the cache.
    pub fn replace_for_merge(&mut self, messages: Vec<Message>) -> (out: Vec<Emission>)
        requires
            old(self).wf(),
        ensures
            final(self).wf(),
            final(self)@ == armed(replace_v(old(self)@, messages.deep_view(), false).0),
            out.deep_view() == replace_v(old(self)@, messages.deep_view(), false).1,
    {
        let out = self.replace_inner(messages, false);
        self.arm_merge();
        out
    }

    /// Rebuild the transcript from a rich snapshot (the rich cache paint):
    /// charts, apps and toolgroups survive. Only the newest `CLIENT_WINDOW`
    /// items go out; `load_older` walks back.
    pub fn replace_rich(&mut self, items: Vec<Item>, provisional: bool) -> (out: Vec<Emission>)
        requires
            old(self).wf(),
        ensures
            final(self).wf(),
            final(self)@ == replace_rich_v(old(self)@, items.deep_view(), provisional).0,
            out.deep_view() == replace_rich_v(old(self)@, items.deep_view(), provisional).1,
    {
        let mut out: Vec<Emission> = Vec::new();
        if self.same_items(&items) {
            self.provisional = provisional;
            self.has_older = self.emitted_from > 0;
            assert(out.deep_view() =~= Seq::<EmissionV>::empty());
            return out;
        }
        self.reset();
        self.rebuild_rich_from(&items);
        self.provisional = provisional;
        self.trim();
        self.set_window();
        emit(&mut out, Emission::Transcript(TranscriptEvent::Clear));
        self.paint(&mut out);
        out
    }

    /// The rich counterpart of [`Self::replace_for_merge`].
    pub fn replace_rich_for_merge(&mut self, items: Vec<Item>) -> (out: Vec<Emission>)
        requires
            old(self).wf(),
        ensures
            final(self).wf(),
            final(self)@ == armed(replace_rich_v(old(self)@, items.deep_view(), false).0),
            out.deep_view() == replace_rich_v(old(self)@, items.deep_view(), false).1,
    {
        let out = self.replace_rich(items, false);
        self.arm_merge();
        out
    }

    /// End replay-merge once the replay completed. Returns true when the tail
    /// never overlapped the cache (a gap: the caller owes a full reload). On
    /// a successful merge both channels rebuild from the store.
    pub fn end_merge(&mut self) -> (r: (bool, Vec<Emission>))
        requires
            old(self).wf(),
        ensures
            final(self).wf(),
            r.0 == end_merge_v(old(self)@).0,
            final(self)@ == end_merge_v(old(self)@).1,
            r.1.deep_view() == end_merge_v(old(self)@).2,
    {
        let gap = self.merging && !self.merge_overlap;
        let merged = self.merging && self.merge_overlap;
        self.merging = false;
        self.merge_anchored = false;
        let mut out: Vec<Emission> = Vec::new();
        if merged && self.session_id.unicode_len() > 0 {
            self.set_window();
            emit(&mut out, Emission::Transcript(TranscriptEvent::Clear));
            self.paint(&mut out);
        }
        assert(out.deep_view() =~= end_merge_v(old(self)@).2);
        (gap, out)
    }

    /// Append a streamed text chunk. `role` is one of user | agent | thought.
    ///
    /// A new bubble starts when there is no current stream bubble, when the
    /// role changes, or when both the previous and the new chunk carry a
    /// non-empty message id and they differ; otherwise the chunk accumulates
    /// into the current bubble. Real content first supersedes a provisional
    /// cache paint.
    #[verifier::spinoff_prover]
    #[verifier::rlimit(40)]
    pub fn append_chunk(
        &mut self,
        role: &str,
        text: &str,
        message_id: Option<&str>,
        thought: bool,
    ) -> (out: Vec<Emission>)
        requires
            old(self).wf(),
        ensures
            final(self).wf(),
            final(self)@ == append_chunk_v(old(self)@, role@, text@, opt_str(message_id), thought).0,
            out.deep_view() == append_chunk_v(
                old(self)@,
                role@,
                text@,
                opt_str(message_id),
                thought,
            ).1,
    {
        let ghost s0 = self@;
        let mid_owned = match message_id {
            Some(m) => owned(m),
            None => empty_string(),
        };
        let mid = mid_owned.as_str();
        let mut ops: Vec<Emission> = Vec::new();
        self.enter(mid, &mut ops);
        let ghost s2 = self@;
        let fresh = self.stream_idx.is_none() || !str_eq(self.stream_role.as_str(), role) || (
        mid.unicode_len() > 0 && self.stream_msg_id.unicode_len() > 0 && !str_eq(
            mid,
            self.stream_msg_id.as_str(),
        ));
        assert(fresh == is_fresh(s2, role@, opt_str(message_id)));
        let stream_evt = chunk_event(role, text, mid);
        let transcript_evt = if fresh {
            self.open_bubble(role, text, mid, thought, &mut ops)
        } else {
            self.extend_stream(text, thought, &mut ops)
        };
        self.trim();
        let mut out: Vec<Emission> = Vec::new();
        emit(&mut out, Emission::Stream(stream_evt));
        emit(&mut out, Emission::Transcript(transcript_evt));
        emit_all(&mut out, ops);
        out
    }
}

} // verus!

verus! {

// ---------------------------------------------------------------------------
// Laws
// ---------------------------------------------------------------------------

proof fn lemma_rebuild_faithful(ms: Seq<MessageV>, n: u64)
    requires
        forall|i: int| 0 <= i < ms.len() ==> (#[trigger] ms[i]).output.len() == 0,
    ensures
        messages_of(rebuild(ms, n).0) == ms,
    decreases ms.len(),
{
    if ms.len() > 0 {
        let prev = rebuild(ms.drop_last(), n);
        assert forall|i: int| 0 <= i < ms.drop_last().len() implies (#[trigger] ms.drop_last()[i]).output.len() == 0 by {
            assert(ms.drop_last()[i] == ms[i]);
        }
        lemma_rebuild_faithful(ms.drop_last(), n);
        let m = ms.last();
        assert(m.output.len() == 0);
        assert(m.output =~= Seq::<char>::empty());
        let step = message_bubble(m, prev.1);
        assert(project(step.0) == m);
        assert(messages_of(prev.0.push(step.0)) =~= messages_of(prev.0).push(project(step.0)));
        assert(ms =~= ms.drop_last().push(m));
    }
}

/// The flat rebuild is faithful: projecting the rebuilt transcript gives the
/// snapshot back (for snapshots without tool output, which the flat
/// projection never carries). A rebuild announces itself with exactly one
/// Clear, first; only a snapshot equal to what is shown emits nothing.
pub proof fn replace_is_faithful(s: StoreV, ms: Seq<MessageV>, provisional: bool)
    requires
        forall|i: int| 0 <= i < ms.len() ==> (#[trigger] ms[i]).output.len() == 0,
    ensures
        messages_of(replace_v(s, ms, provisional).0.bubbles) == ms,
        ms != messages_of(s.bubbles) ==> replace_v(s, ms, provisional).1[0] == EmissionV::Transcript(TranscriptV::Clear),
        ms != messages_of(s.bubbles) ==> replace_v(s, ms, provisional).0.stream_idx is None,
        ms == messages_of(s.bubbles) ==> replace_v(s, ms, provisional).1.len() == 0,
{
    if ms == messages_of(s.bubbles) {
    } else {
        lemma_rebuild_faithful(ms, s.next_uid);
    }
}

/// Replacing with the transcript the store already shows is a no-op: no
/// event, the rows untouched, only the provisional mode adopted.
pub proof fn identical_replace_is_a_noop(s: StoreV, provisional: bool)
    ensures
        replace_v(s, messages_of(s.bubbles), provisional) == (StoreV { provisional, ..s }, Seq::<EmissionV>::empty()),
{
}

/// An item the store reproduces exactly after rebuilding it (what every item
/// the store emits looks like).
pub open spec fn canonical_item(it: ItemV) -> bool {
    bubble_of_item(it) matches Some(b) && item_of(b) == it
}

proof fn lemma_rebuild_rich_faithful(items: Seq<ItemV>)
    requires
        forall|i: int| 0 <= i < items.len() ==> canonical_item(#[trigger] items[i]),
    ensures
        items_of(rebuild_rich(items)) == items,
        rebuild_rich(items).len() == items.len(),
        forall|i: int| 0 <= i < items.len() ==> bubble_wf(#[trigger] rebuild_rich(items)[i]),
    decreases items.len(),
{
    if items.len() > 0 {
        assert forall|i: int| 0 <= i < items.drop_last().len() implies canonical_item(#[trigger] items.drop_last()[i]) by {
            assert(items.drop_last()[i] == items[i]);
        }
        lemma_rebuild_rich_faithful(items.drop_last());
        let prev = rebuild_rich(items.drop_last());
        assert(canonical_item(items[items.len() - 1]));
        let b = bubble_of_item(items.last()).unwrap();
        assert(items_of(prev.push(b)) =~= items_of(prev).push(item_of(b)));
        assert(items =~= items.drop_last().push(items.last()));
        assert forall|i: int| 0 <= i < items.len() implies bubble_wf(#[trigger] rebuild_rich(items)[i]) by {
            if i < prev.len() {
                assert(rebuild_rich(items)[i] == prev[i]);
            }
        }
    }
}

/// The rich rebuild is faithful: a snapshot of items the store itself
/// produces (kind and payload: charts keep their spec, apps their key,
/// toolgroups their calls) comes back unchanged from `rich_transcript`, as
/// long as it fits under the bubble cap.
pub proof fn rich_replace_round_trips(s: StoreV, items: Seq<ItemV>, provisional: bool)
    requires
        forall|i: int| 0 <= i < items.len() ==> canonical_item(#[trigger] items[i]),
        items.len() <= MAX_BUBBLES,
    ensures
        items_of(replace_rich_v(s, items, provisional).0.bubbles) == items,
{
    if items == items_of(s.bubbles) {
    } else {
        lemma_rebuild_rich_faithful(items);
    }
}

/// The first real row drops a provisional (non-merge) paint wholesale: after
/// a chunk the transcript holds that chunk's bubble alone.
pub proof fn a_chunk_supersedes_a_provisional_paint(
    s: StoreV,
    role: Seq<char>,
    text: Seq<char>,
    mid: Option<Seq<char>>,
    thought: bool,
)
    requires
        store_wf(s),
        s.provisional,
        !s.merging,
    ensures
        messages_of(append_chunk_v(s, role, text, mid, thought).0.bubbles) == seq![
            MessageV { id: unwrap_id(mid), role, content: text, output: Seq::empty() },
        ],
{
    let s2 = enter_v(s, unwrap_id(mid));
    assert(s2.bubbles.len() == 0);
    assert(s2.stream_idx is None);
    let b = opened_bubble(s2, role, text, unwrap_id(mid), thought);
    assert(open_v(s2, role, text, unwrap_id(mid), thought).bubbles =~= seq![b]);
    assert(messages_of(seq![b]) =~= seq![project(b)]);
}

/// A tool row supersedes a provisional paint too: the transcript then holds
/// the call's bubble alone.
pub proof fn a_tool_call_supersedes_a_provisional_paint(
    s: StoreV,
    title: Seq<char>,
    detail: Seq<char>,
    id: Seq<char>,
    kind: KindV,
)
    requires
        store_wf(s),
        s.provisional,
        !s.merging,
    ensures
        tool_call_v(s, title, detail, id, kind).0.bubbles.len() == 1,
        messages_of(tool_call_v(s, title, detail, id, kind).0.bubbles)[0] == tool_message(
            kind_row(title, detail, id, kind),
        ),
{
    let s2 = enter_v(s, id);
    assert(s2.bubbles.len() == 0);
    let row = kind_row(title, detail, id, kind);
    let bs = place_call(s2.bubbles, row, kind);
    assert(bs.len() == 1);
}

/// Consecutive same-role chunks with the same message id accumulate: after
/// one chunk the stream is open, and the next chunk with the same role and id
/// adds no bubble but grows the open stream bubble (below the bubble cap,
/// where an eviction would close the stream).
pub proof fn same_id_chunks_accumulate(
    s: StoreV,
    role: Seq<char>,
    a: Seq<char>,
    b: Seq<char>,
    mid: Seq<char>,
    thought: bool,
)
    requires
        store_wf(s),
        s.bubbles.len() < MAX_BUBBLES,
    ensures
        ({
            let s1 = append_chunk_v(s, role, a, Some(mid), thought).0;
            let s2 = append_chunk_v(s1, role, b, Some(mid), thought).0;
            &&& s1.stream_idx is Some
            &&& s2 == extend_v(s1, b, thought)
            &&& s2.bubbles.len() == s1.bubbles.len()
        }),
{
    let s1 = append_chunk_v(s, role, a, Some(mid), thought).0;
    let t = enter_v(s, mid);
    assert(t.bubbles.len() <= s.bubbles.len()) by {
        lemma_first_owner(s.bubbles, mid);
    }
    if is_fresh(t, role, Some(mid)) {
        let o = open_v(t, role, a, mid, thought);
        assert(o.bubbles.len() <= MAX_BUBBLES);
        assert(s1 == o);
    } else {
        let e = extend_v(t, a, thought);
        assert(s1 == e);
    }
    assert(enter_v(s1, mid) == s1);
    assert(!is_fresh(s1, role, Some(mid)));
}

/// Consecutive plain tool calls collapse into one toolgroup: the second call
/// adds no bubble, and the last bubble is a group ending in the two calls, in
/// order. (Excluded: a replay merge whose anchor is still open when the first
/// call carries no id, where the second call's id can truncate the paint.)
pub proof fn consecutive_plain_calls_collapse(
    s: StoreV,
    t1: Seq<char>,
    d1: Seq<char>,
    id1: Seq<char>,
    t2: Seq<char>,
    d2: Seq<char>,
    id2: Seq<char>,
)
    requires
        store_wf(s),
        !(s.merging && !s.merge_anchored && id1.len() == 0 && id2.len() > 0 && first_owner(
            tool_call_v(s, t1, d1, id1, KindV::Plain).0.bubbles,
            id2,
        ) is Some),
    ensures
        ({
            let s1 = tool_call_v(s, t1, d1, id1, KindV::Plain).0;
            let s2 = tool_call_v(s1, t2, d2, id2, KindV::Plain).0;
            &&& s2.bubbles.len() == s1.bubbles.len()
            &&& s2.bubbles.last() matches BubbleV::ToolGroup(calls) && calls.len() >= 2
                && calls.last() == fresh_row(t2, d2, id2) && calls[calls.len() - 2] == fresh_row(t1, d1, id1)
        }),
{
    let r1 = fresh_row(t1, d1, id1);
    let r2 = fresh_row(t2, d2, id2);
    let t = enter_v(s, id1);
    lemma_enter_wf(s, id1);
    let bs = place_call(t.bubbles, r1, KindV::Plain);
    if t.bubbles.len() > 0 {
        assert(bubble_wf(t.bubbles[t.bubbles.len() - 1]));
    }
    assert(bs.len() > 0);
    assert(bs.last() is Tool || bs.last() is ToolGroup);
    assert(bs.last() matches BubbleV::Tool(r) ==> r == r1);
    assert(bs.last() matches BubbleV::ToolGroup(calls) ==> calls.len() >= 2 && calls.last() == r1);
    let x = StoreV { bubbles: bs, ..t };
    let s1 = tool_call_v(s, t1, d1, id1, KindV::Plain).0;
    assert(s1.bubbles.len() > 0);
    assert(s1.bubbles.last() == bs.last());
    assert(s1.bubbles.len() <= bs.len());
    let u = enter_v(s1, id2);
    assert(u.bubbles == s1.bubbles);
    let bs2 = place_call(s1.bubbles, r2, KindV::Plain);
    assert(joins_last(s1.bubbles, KindV::Plain));
    assert(bs2.len() == s1.bubbles.len());
    assert(bs2.last() == bs2[bs2.len() - 1]);
    match s1.bubbles.last() {
        BubbleV::Tool(r) => {
            assert(bs2.last() == BubbleV::ToolGroup(seq![r1, r2]));
        },
        BubbleV::ToolGroup(calls) => {
            assert(bs2.last() == BubbleV::ToolGroup(calls.push(r2)));
        },
        _ => {},
    }
}

/// Walking the window back never touches the rows: the origin moves back by
/// `count` (stopping at the start), and `has_older` tells whether anything
/// older is left.
pub proof fn load_older_walks_the_window_back(s: StoreV, count: usize)
    requires
        store_wf(s),
    ensures
        load_older_v(s, count).0.bubbles == s.bubbles,
        load_older_v(s, count).0.emitted_from == (if s.emitted_from >= count { s.emitted_from - count } else { 0 }),
        load_older_v(s, count).0.has_older == (load_older_v(s, count).0.emitted_from > 0),
        load_older_v(s, count).1.len() == s.emitted_from - load_older_v(s, count).0.emitted_from + 1,
{
    let from = older_from(s, count);
    assert(s.bubbles.subrange(from, s.emitted_from as int).len() == s.emitted_from - from);
}

/// A replay merge keeps the painted prefix: the first replayed row whose id
/// is in the cache truncates the paint there and takes its place, and the
/// merge then reports no gap (below the bubble cap).
pub proof fn merge_keeps_the_older_prefix(
    s: StoreV,
    role: Seq<char>,
    text: Seq<char>,
    mid: Seq<char>,
    thought: bool,
)
    requires
        store_wf(s),
        s.merging,
        !s.merge_anchored,
        mid.len() > 0,
        first_owner(s.bubbles, mid) matches Some(k) && k < MAX_BUBBLES,
    ensures
        ({
            let k = first_owner(s.bubbles, mid).unwrap();
            let s1 = append_chunk_v(s, role, text, Some(mid), thought).0;
            &&& s1.bubbles == s.bubbles.take(k).push(opened_bubble(anchor_v(s, mid), role, text, mid, thought))
            &&& !end_merge_v(s1).0
        }),
{
    lemma_first_owner(s.bubbles, mid);
    let a = anchor_v(s, mid);
    assert(enter_v(s, mid) == a);
    assert(is_fresh(a, role, Some(mid)));
}

/// A replay tail that starts past the cache (its first row id is not in the
/// paint) anchors nothing, and the merge then reports the gap.
pub proof fn merge_without_overlap_reports_a_gap(
    s: StoreV,
    role: Seq<char>,
    text: Seq<char>,
    mid: Seq<char>,
    thought: bool,
)
    requires
        s.merging,
        !s.merge_anchored,
        !s.merge_overlap,
        mid.len() > 0,
        first_owner(s.bubbles, mid) is None,
    ensures
        end_merge_v(append_chunk_v(s, role, text, Some(mid), thought).0).0,
{
}

} // verus!
