//! The main connection's translation of server updates into transcript and
//! listener events, and the wire-format helpers it shares with the roam
//! peers. The server's updates arrive here as plain values: the caller reads
//! them off the protocol types.

use vstd::prelude::*;
use vstd::string::*;

use crate::text::{owned, str_eq, concat};
use crate::transcript::{TranscriptStore, StoreV, append_chunk_v, tool_call_v, tool_update_v};
use crate::types::{
    ConfigChoice, ConfigOption, ConfigV, ChoiceV, Emission, EmissionV, KindV, PermissionOption, PermissionRequest,
    SessionSummary, SummaryV, ToolCallKind,
};

verus! {

// ---------------------------------------------------------------------------
// Reconnect backoff
// ---------------------------------------------------------------------------

/// The reconnect wait cap, in milliseconds.
pub const RECONNECT_CAP_MS: u64 = 15000;

/// The reconnect curve: 500 ms, doubling per attempt, capped at 15 s.
pub open spec fn backoff_ms(attempt: nat) -> nat
    decreases attempt,
{
    if attempt == 0 {
        500
    } else {
        let d = 2 * backoff_ms((attempt - 1) as nat);
        if d > RECONNECT_CAP_MS {
            RECONNECT_CAP_MS as nat
        } else {
            d
        }
    }
}

/// The wait before reconnect attempt `attempt` (counted from 0), shared by the
/// main connection and the peer supervisor.
pub fn reconnect_delay_ms(attempt: u32) -> (ms: u64)
    ensures
        ms == backoff_ms(attempt as nat),
{
    let mut d: u64 = 500;
    let mut i: u32 = 0;
    while i < attempt
        invariant
            i <= attempt,
            d == backoff_ms(i as nat),
            d <= RECONNECT_CAP_MS,
        decreases attempt - i,
    {
        let twice = 2 * d;
        d = if twice > RECONNECT_CAP_MS {
            RECONNECT_CAP_MS
        } else {
            twice
        };
        i = i + 1;
    }
    d
}

/// The curve never exceeds the cap, never shrinks, and reaches the cap from
/// the sixth attempt on.
pub proof fn backoff_is_capped_and_monotone(a: nat, b: nat)
    requires
        a <= b,
    ensures
        backoff_ms(a) <= RECONNECT_CAP_MS,
        backoff_ms(a) <= backoff_ms(b),
        a >= 5 ==> backoff_ms(a) == RECONNECT_CAP_MS,
    decreases b,
{
    if b > 0 {
        if a == b {
            backoff_is_capped_and_monotone((a - 1) as nat, (b - 1) as nat);
        } else {
            backoff_is_capped_and_monotone(a, (b - 1) as nat);
        }
    }
    if a >= 5 {
        backoff_reaches_the_cap(a);
    }
}

proof fn backoff_reaches_the_cap(a: nat)
    requires
        a >= 5,
    ensures
        backoff_ms(a) == RECONNECT_CAP_MS,
    decreases a,
{
    if a == 5 {
        reveal_with_fuel(backoff_ms, 6);
    } else {
        backoff_reaches_the_cap((a - 1) as nat);
    }
}

// ---------------------------------------------------------------------------
// Content, status and option-kind strings
// ---------------------------------------------------------------------------

/// A content block, as chunk text needs it.
#[derive(Clone, Debug, PartialEq)]
pub enum ContentBlock {
    Text(String),
    ResourceLink,
    Resource,
    Image,
    Audio,
    Other,
}

pub enum BlockV {
    Text(Seq<char>),
    ResourceLink,
    Resource,
    Image,
    Audio,
    Other,
}

impl View for ContentBlock {
    type V = BlockV;

    open spec fn view(&self) -> BlockV {
        match self {
            ContentBlock::Text(t) => BlockV::Text(t@),
            ContentBlock::ResourceLink => BlockV::ResourceLink,
            ContentBlock::Resource => BlockV::Resource,
            ContentBlock::Image => BlockV::Image,
            ContentBlock::Audio => BlockV::Audio,
            ContentBlock::Other => BlockV::Other,
        }
    }
}

/// Text passes through; resources are placeholders; anything else is
/// bracketed.
pub open spec fn block_text(b: BlockV) -> Seq<char> {
    match b {
        BlockV::Text(t) => t,
        BlockV::ResourceLink => "[resource]"@,
        BlockV::Resource => "[resource]"@,
        BlockV::Image => "[image]"@,
        BlockV::Audio => "[audio]"@,
        BlockV::Other => "[unknown]"@,
    }
}

/// The text a chunk's content block renders as.
pub fn content_block_text(block: &ContentBlock) -> (t: String)
    ensures
        t@ == block_text(block@),
{
    match block {
        ContentBlock::Text(t) => t.clone(),
        ContentBlock::ResourceLink => owned("[resource]"),
        ContentBlock::Resource => owned("[resource]"),
        ContentBlock::Image => owned("[image]"),
        ContentBlock::Audio => owned("[audio]"),
        ContentBlock::Other => owned("[unknown]"),
    }
}

/// A tool call's lifecycle status.
#[derive(Clone, Copy, Debug, PartialEq, Eq, Structural)]
pub enum ToolCallStatus {
    Pending,
    InProgress,
    Completed,
    Failed,
    Other,
}

pub open spec fn status_text(s: ToolCallStatus) -> Seq<char> {
    match s {
        ToolCallStatus::Pending => "pending"@,
        ToolCallStatus::InProgress => "in_progress"@,
        ToolCallStatus::Completed => "completed"@,
        ToolCallStatus::Failed => "failed"@,
        ToolCallStatus::Other => Seq::empty(),
    }
}

/// The snake_case wire string of a status (empty for an unknown one).
pub fn tool_call_status_str(status: ToolCallStatus) -> (s: String)
    ensures
        s@ == status_text(status),
{
    match status {
        ToolCallStatus::Pending => owned("pending"),
        ToolCallStatus::InProgress => owned("in_progress"),
        ToolCallStatus::Completed => owned("completed"),
        ToolCallStatus::Failed => owned("failed"),
        ToolCallStatus::Other => String::new(),
    }
}

/// The status string of an optional status (empty when absent).
pub open spec fn opt_status_text(s: Option<ToolCallStatus>) -> Seq<char> {
    match s {
        Some(st) => status_text(st),
        None => Seq::empty(),
    }
}

/// A permission option's kind.
#[derive(Clone, Copy, Debug, PartialEq, Eq, Structural)]
pub enum PermissionOptionKind {
    AllowOnce,
    AllowAlways,
    RejectOnce,
    RejectAlways,
    Other,
}

pub open spec fn permission_kind_text(k: PermissionOptionKind) -> Seq<char> {
    match k {
        PermissionOptionKind::AllowOnce => "allow_once"@,
        PermissionOptionKind::AllowAlways => "allow_always"@,
        PermissionOptionKind::RejectOnce => "reject_once"@,
        PermissionOptionKind::RejectAlways => "reject_always"@,
        PermissionOptionKind::Other => Seq::empty(),
    }
}

/// The snake_case wire string of a permission option kind.
pub fn permission_option_kind_str(kind: PermissionOptionKind) -> (s: String)
    ensures
        s@ == permission_kind_text(kind),
{
    match kind {
        PermissionOptionKind::AllowOnce => owned("allow_once"),
        PermissionOptionKind::AllowAlways => owned("allow_always"),
        PermissionOptionKind::RejectOnce => owned("reject_once"),
        PermissionOptionKind::RejectAlways => owned("reject_always"),
        PermissionOptionKind::Other => String::new(),
    }
}

/// A typed config option's current value.
#[derive(Clone, Debug, PartialEq)]
pub enum TypedConfigValue {
    /// A select: the chosen value id.
    Select(String),
    Boolean(bool),
    Other,
}

pub open spec fn bool_text(b: bool) -> Seq<char> {
    if b {
        "true"@
    } else {
        "false"@
    }
}

fn bool_string(b: bool) -> (s: String)
    ensures
        s@ == bool_text(b),
{
    if b {
        owned("true")
    } else {
        owned("false")
    }
}

/// A typed config option's current value, flattened to a string.
pub fn config_option_value(value: &TypedConfigValue) -> (s: String)
    ensures
        s@ == (match value {
            TypedConfigValue::Select(v) => v@,
            TypedConfigValue::Boolean(b) => bool_text(*b),
            TypedConfigValue::Other => Seq::<char>::empty(),
        }),
{
    match value {
        TypedConfigValue::Select(v) => v.clone(),
        TypedConfigValue::Boolean(b) => bool_string(*b),
        TypedConfigValue::Other => String::new(),
    }
}

} // verus!

verus! {

// ---------------------------------------------------------------------------
// Tool calls and their updates
// ---------------------------------------------------------------------------

/// `rawInput.data`, as the chart fallback reads it.
#[derive(Clone, Debug, PartialEq)]
pub enum RawData {
    Absent,
    /// A JSON object: its compact JSON text.
    Object(String),
    /// A JSON string: its text.
    Text(String),
    /// Any other JSON value.
    Other,
}

/// A `session/update` tool call, read off the protocol type.
#[derive(Clone, Debug, PartialEq)]
pub struct ToolCallInfo {
    pub tool_call_id: String,
    pub title: String,
    /// `rawInput.command`, when a string.
    pub command: Option<String>,
    /// The compact JSON of `rawInput` (`null` when absent).
    pub raw_input_json: String,
    /// `_meta.goose.mcpApp.resourceUri`, when a string.
    pub app_uri: Option<String>,
    /// `_meta.goose.mcpApp.extensionName`, when a string.
    pub app_extension: Option<String>,
    /// `_meta.goose.toolCall.toolName`, when a string.
    pub tool_name: Option<String>,
    pub data: RawData,
}

pub open spec fn opt_text(o: Option<String>) -> Seq<char> {
    match o {
        Some(s) => s@,
        None => Seq::empty(),
    }
}

/// The chart spec `rawInput.data` carries (empty when it carries none).
pub open spec fn data_text(d: RawData) -> Seq<char> {
    match d {
        RawData::Object(j) => j@,
        RawData::Text(t) => t@,
        _ => Seq::empty(),
    }
}

/// What a tool call draws as: an MCP app when the server names a UI resource
/// for it, a chart for the legacy visualiser call with data, else a plain
/// chip.
pub open spec fn tool_kind_v(t: ToolCallInfo) -> KindV {
    let uri = opt_text(t.app_uri);
    let ext = opt_text(t.app_extension);
    if uri.len() > 0 && ext.len() > 0 {
        KindV::McpApp { app_key: ext + "|"@ + uri, uri, extension: ext, input: t.raw_input_json@ }
    } else if opt_text(t.tool_name) == "autovisualiser__show_chart"@ && data_text(t.data).len() > 0 {
        KindV::Chart { spec: data_text(t.data) }
    } else {
        KindV::Plain
    }
}

fn opt_string(o: &Option<String>) -> (s: String)
    ensures
        s@ == opt_text(*o),
{
    match o {
        Some(s) => s.clone(),
        None => String::new(),
    }
}

/// A tool call's kind and its detail (`rawInput.command`, or empty).
pub fn tool_call_kind(tool: &ToolCallInfo) -> (r: (ToolCallKind, String))
    ensures
        r.0@ == tool_kind_v(*tool),
        r.1@ == opt_text(tool.command),
{
    let detail = opt_string(&tool.command);
    let uri = opt_string(&tool.app_uri);
    let ext = opt_string(&tool.app_extension);
    if uri.unicode_len() > 0 && ext.unicode_len() > 0 {
        let mut key = concat(ext.as_str(), "|");
        key.append(uri.as_str());
        let kind = ToolCallKind::McpApp { app_key: key, uri, extension: ext, input: tool.raw_input_json.clone() };
        return (kind, detail);
    }
    let name = opt_string(&tool.tool_name);
    let data = match &tool.data {
        RawData::Object(j) => j.clone(),
        RawData::Text(t) => t.clone(),
        _ => String::new(),
    };
    if str_eq(name.as_str(), "autovisualiser__show_chart") && data.unicode_len() > 0 {
        (ToolCallKind::Chart { spec: data }, detail)
    } else {
        (ToolCallKind::Plain, detail)
    }
}

/// A `session/update` tool call update, read off the protocol type.
#[derive(Clone, Debug, PartialEq)]
pub struct ToolUpdateInfo {
    pub tool_call_id: String,
    pub status: Option<ToolCallStatus>,
    /// A `_meta.toolNotification` of type `live_output`: the texts of its
    /// chunks (`params.chunks[].output.text`), in order.
    pub live_chunks: Option<Vec<String>>,
    /// The text blocks of the update's content, in order.
    pub content_texts: Vec<String>,
}

/// The texts concatenated.
pub open spec fn concat_all(ts: Seq<Seq<char>>) -> Seq<char>
    decreases ts.len(),
{
    if ts.len() == 0 {
        Seq::empty()
    } else {
        concat_all(ts.drop_last()) + ts.last()
    }
}

/// The texts joined with newlines.
pub open spec fn join_lines(ts: Seq<Seq<char>>) -> Seq<char>
    decreases ts.len(),
{
    if ts.len() == 0 {
        Seq::empty()
    } else if ts.len() == 1 {
        ts[0]
    } else {
        join_lines(ts.drop_last()) + "\n"@ + ts.last()
    }
}

/// All texts, concatenated.
pub fn concat_texts(ts: &Vec<String>) -> (r: String)
    ensures
        r@ == concat_all(ts.deep_view()),
{
    let mut r = String::new();
    let n = ts.len();
    assert(ts.deep_view().take(0) =~= Seq::<Seq<char>>::empty());
    for i in 0..n
        invariant
            n == ts.len(),
            r@ == concat_all(ts.deep_view().take(i as int)),
    {
        r.append(ts[i].as_str());
        assert(ts.deep_view().take(i + 1).drop_last() =~= ts.deep_view().take(i as int));
    }
    assert(ts.deep_view().take(n as int) =~= ts.deep_view());
    r
}

/// All texts, joined with newlines.
pub fn join_texts(ts: &Vec<String>) -> (r: String)
    ensures
        r@ == join_lines(ts.deep_view()),
{
    let mut r = String::new();
    let n = ts.len();
    assert(ts.deep_view().take(0) =~= Seq::<Seq<char>>::empty());
    for i in 0..n
        invariant
            n == ts.len(),
            r@ == join_lines(ts.deep_view().take(i as int)),
    {
        if i > 0 {
            r.append("\n");
        }
        r.append(ts[i].as_str());
        assert(ts.deep_view().take(i + 1).drop_last() =~= ts.deep_view().take(i as int));
    }
    assert(ts.deep_view().take(n as int) =~= ts.deep_view());
    r
}

// ---------------------------------------------------------------------------
// Session list and config replies
// ---------------------------------------------------------------------------

/// One `session/list` entry, read off the reply.
#[derive(Clone, Debug, PartialEq)]
pub struct SessionEntry {
    /// The entry is a JSON object (anything else is skipped).
    pub is_object: bool,
    /// `sessionId`, when a string.
    pub session_id: Option<String>,
    /// `title`, when a string.
    pub title: Option<String>,
    /// `updatedAt`, when a string.
    pub updated_at: Option<String>,
    /// `cwd`, when a string.
    pub cwd: Option<String>,
    /// `_meta` is an object holding `archivedAt`.
    pub archived: bool,
    /// `_meta.lastMessageSnippet`, when a string.
    pub snippet: Option<String>,
    /// `_meta.projectId`, when a string.
    pub project_id: Option<String>,
    /// `_meta.messageCount`, when an integer.
    pub message_count: Option<i64>,
    /// `_meta.model`, when a string.
    pub model: Option<String>,
    /// `_meta.hasRecipe`, when a boolean.
    pub has_recipe: Option<bool>,
}

pub open spec fn opt_seq(o: Option<String>) -> Option<Seq<char>> {
    match o {
        Some(s) => Some(s@),
        None => None,
    }
}

/// Whether an entry lists a session: an object with a session id, not both
/// id and title empty, not a scheduled job, not archived.
pub open spec fn listed(e: SessionEntry) -> bool {
    &&& e.is_object
    &&& e.session_id is Some
    &&& !(opt_text(e.title).len() == 0 && opt_text(e.session_id).len() == 0)
    &&& !"Scheduled job:"@.is_prefix_of(opt_text(e.title))
    &&& !e.archived
}

/// The summary of a listed entry; the title defaults to the id.
pub open spec fn summary_of(e: SessionEntry) -> SummaryV {
    let id = opt_text(e.session_id);
    SummaryV {
        id,
        title: if opt_text(e.title).len() == 0 { id } else { opt_text(e.title) },
        updated_at: opt_text(e.updated_at),
        last_message_snippet: opt_seq(e.snippet),
        project_id: opt_seq(e.project_id),
        message_count: match e.message_count {
            Some(n) => n,
            None => 0,
        },
        model: opt_text(e.model),
        has_recipe: match e.has_recipe {
            Some(b) => b,
            None => false,
        },
        has_new: false,
        archived: false,
    }
}

/// The summaries and side tables (cwd per session, updatedAt per session) of
/// a `session/list` reply's entries.
pub open spec fn sessions_v(es: Seq<SessionEntry>) -> (Seq<SummaryV>, Seq<(Seq<char>, Seq<char>)>, Seq<(Seq<char>, Seq<char>)>)
    decreases es.len(),
{
    if es.len() == 0 {
        (Seq::empty(), Seq::empty(), Seq::empty())
    } else {
        let prev = sessions_v(es.drop_last());
        let e = es.last();
        if listed(e) {
            let id = opt_text(e.session_id);
            (
                prev.0.push(summary_of(e)),
                if opt_text(e.cwd).len() > 0 { prev.1.push((id, opt_text(e.cwd))) } else { prev.1 },
                if opt_text(e.updated_at).len() > 0 { prev.2.push((id, opt_text(e.updated_at))) } else { prev.2 },
            )
        } else {
            prev
        }
    }
}

pub open spec fn pairs_view(v: Seq<(String, String)>) -> Seq<(Seq<char>, Seq<char>)> {
    v.map_values(|p: (String, String)| (p.0@, p.1@))
}

/// Whether `p` is a prefix of `t`.
pub fn has_prefix(t: &str, p: &str) -> (r: bool)
    ensures
        r == p@.is_prefix_of(t@),
{
    let m = p.unicode_len();
    if t.unicode_len() < m {
        return false;
    }
    let mut i: usize = 0;
    while i < m
        invariant
            m == p@.len(),
            m <= t@.len(),
            i <= m,
            forall|j: int| 0 <= j < i ==> p@[j] == t@[j],
        decreases m - i,
    {
        if p.get_char(i) != t.get_char(i) {
            assert(t@.subrange(0, m as int)[i as int] != p@[i as int]);
            return false;
        }
        i = i + 1;
    }
    assert(p@ =~= t@.subrange(0, m as int));
    true
}

/// Parse a `session/list` reply's entries into summaries, plus the side
/// tables the core keeps (cwd for resume resolution, updatedAt for cache
/// freshness).
pub fn parse_sessions(entries: &Vec<SessionEntry>) -> (r: (Vec<SessionSummary>, Vec<(String, String)>, Vec<(String, String)>))
    ensures
        r.0.deep_view() == sessions_v(entries@).0,
        pairs_view(r.1@) == sessions_v(entries@).1,
        pairs_view(r.2@) == sessions_v(entries@).2,
{
    let mut sessions: Vec<SessionSummary> = Vec::new();
    let mut cwds: Vec<(String, String)> = Vec::new();
    let mut updated: Vec<(String, String)> = Vec::new();
    let n = entries.len();
    assert(entries@.take(0) =~= Seq::<SessionEntry>::empty());
    assert(sessions.deep_view() =~= Seq::<SummaryV>::empty());
    assert(pairs_view(cwds@) =~= Seq::<(Seq<char>, Seq<char>)>::empty());
    assert(pairs_view(updated@) =~= Seq::<(Seq<char>, Seq<char>)>::empty());
    for i in 0..n
        invariant
            n == entries.len(),
            sessions.deep_view() == sessions_v(entries@.take(i as int)).0,
            pairs_view(cwds@) == sessions_v(entries@.take(i as int)).1,
            pairs_view(updated@) == sessions_v(entries@.take(i as int)).2,
    {
        let e = &entries[i];
        assert(entries@.take(i + 1).drop_last() =~= entries@.take(i as int));
        assert(entries@.take(i + 1).last() == *e);
        let title = opt_string(&e.title);
        let id = opt_string(&e.session_id);
        let keep = e.is_object && e.session_id.is_some() && !(title.unicode_len() == 0 && id.unicode_len() == 0)
            && !has_prefix(title.as_str(), "Scheduled job:") && !e.archived;
        if keep {
            let summary = SessionSummary {
                id: id.clone(),
                title: if title.unicode_len() == 0 {
                    id.clone()
                } else {
                    title
                },
                updated_at: opt_string(&e.updated_at),
                last_message_snippet: match &e.snippet {
                    Some(s) => Some(s.clone()),
                    None => None,
                },
                project_id: match &e.project_id {
                    Some(s) => Some(s.clone()),
                    None => None,
                },
                message_count: match e.message_count {
                    Some(c) => c,
                    None => 0,
                },
                model: opt_string(&e.model),
                has_recipe: match e.has_recipe {
                    Some(b) => b,
                    None => false,
                },
                has_new: false,
                archived: false,
            };
            let ghost s0 = sessions.deep_view();
            sessions.push(summary);
            assert(sessions.deep_view() =~= s0.push(summary_of(*e)));
            let cwd = opt_string(&e.cwd);
            if cwd.unicode_len() > 0 {
                let ghost c0 = cwds@;
                cwds.push((id.clone(), cwd));
                assert(pairs_view(cwds@) =~= pairs_view(c0).push((id@, opt_text(e.cwd))));
            }
            let up = opt_string(&e.updated_at);
            if up.unicode_len() > 0 {
                let ghost u0 = updated@;
                updated.push((id, up));
                assert(pairs_view(updated@) =~= pairs_view(u0).push((opt_text(e.session_id), opt_text(e.updated_at))));
            }
        }
    }
    assert(entries@.take(n as int) =~= entries@);
    (sessions, cwds, updated)
}

/// A `configOptions[].currentValue`, read off the reply.
#[derive(Clone, Debug, PartialEq)]
pub enum ConfigValue {
    Str(String),
    Bool(bool),
    /// A JSON number: its text.
    Number(String),
    /// Absent, or any other JSON value.
    Other,
}

/// One `configOptions[].options[]` entry, read off the reply.
#[derive(Clone, Debug, PartialEq)]
pub struct RawChoice {
    pub is_object: bool,
    /// `value`, when a string.
    pub value: Option<String>,
    /// `name`, when a string.
    pub name: Option<String>,
}

/// One `configOptions[]` entry, read off the reply.
#[derive(Clone, Debug, PartialEq)]
pub struct RawConfigOption {
    pub is_object: bool,
    /// `id`, when a string.
    pub id: Option<String>,
    pub current_value: ConfigValue,
    /// `name`, when a string.
    pub name: Option<String>,
    /// `options`, when an array.
    pub choices: Option<Vec<RawChoice>>,
}

pub open spec fn value_text(v: ConfigValue) -> Seq<char> {
    match v {
        ConfigValue::Str(s) => s@,
        ConfigValue::Bool(b) => bool_text(b),
        ConfigValue::Number(n) => n@,
        ConfigValue::Other => Seq::empty(),
    }
}

/// The choices of an option: object entries with a string `value`.
pub open spec fn choices_v(cs: Seq<RawChoice>) -> Seq<ChoiceV>
    decreases cs.len(),
{
    if cs.len() == 0 {
        Seq::empty()
    } else {
        let prev = choices_v(cs.drop_last());
        let c = cs.last();
        if c.is_object && c.value is Some {
            prev.push(ChoiceV { value: opt_text(c.value), name: opt_text(c.name) })
        } else {
            prev
        }
    }
}

/// The flat config options of a reply: object entries with a string `id`.
pub open spec fn options_v(os: Seq<RawConfigOption>) -> Seq<ConfigV>
    decreases os.len(),
{
    if os.len() == 0 {
        Seq::empty()
    } else {
        let prev = options_v(os.drop_last());
        let o = os.last();
        if o.is_object && o.id is Some {
            prev.push(
                ConfigV {
                    id: opt_text(o.id),
                    value: value_text(o.current_value),
                    name: opt_text(o.name),
                    choices: match o.choices {
                        Some(cs) => choices_v(cs@),
                        None => Seq::empty(),
                    },
                },
            )
        } else {
            prev
        }
    }
}

fn parse_choices(cs: &Vec<RawChoice>) -> (r: Vec<ConfigChoice>)
    ensures
        r.deep_view() == choices_v(cs@),
{
    let mut r: Vec<ConfigChoice> = Vec::new();
    let n = cs.len();
    assert(cs@.take(0) =~= Seq::<RawChoice>::empty());
    assert(r.deep_view() =~= Seq::<ChoiceV>::empty());
    for i in 0..n
        invariant
            n == cs.len(),
            r.deep_view() == choices_v(cs@.take(i as int)),
    {
        let c = &cs[i];
        assert(cs@.take(i + 1).drop_last() =~= cs@.take(i as int));
        assert(cs@.take(i + 1).last() == *c);
        if c.is_object && c.value.is_some() {
            let ghost r0 = r.deep_view();
            let choice = ConfigChoice { value: opt_string(&c.value), name: opt_string(&c.name) };
            r.push(choice);
            assert(r.deep_view() =~= r0.push(ChoiceV { value: opt_text(c.value), name: opt_text(c.name) }));
        }
    }
    assert(cs@.take(n as int) =~= cs@);
    r
}

/// Parse a reply's `configOptions` into the flat config records (id plus the
/// current value as a string, and the selectable choices).
pub fn parse_config_options(options: &Vec<RawConfigOption>) -> (r: Vec<ConfigOption>)
    ensures
        r.deep_view() == options_v(options@),
{
    let mut r: Vec<ConfigOption> = Vec::new();
    let n = options.len();
    assert(options@.take(0) =~= Seq::<RawConfigOption>::empty());
    assert(r.deep_view() =~= Seq::<ConfigV>::empty());
    for i in 0..n
        invariant
            n == options.len(),
            r.deep_view() == options_v(options@.take(i as int)),
    {
        let o = &options[i];
        assert(options@.take(i + 1).drop_last() =~= options@.take(i as int));
        assert(options@.take(i + 1).last() == *o);
        if o.is_object && o.id.is_some() {
            let value = match &o.current_value {
                ConfigValue::Str(s) => s.clone(),
                ConfigValue::Bool(b) => bool_string(*b),
                ConfigValue::Number(t) => t.clone(),
                ConfigValue::Other => String::new(),
            };
            let choices = match &o.choices {
                Some(cs) => parse_choices(cs),
                None => Vec::new(),
            };
            let ghost cv = choices.deep_view();
            assert(cv == (match o.choices {
                Some(cs) => choices_v(cs@),
                None => Seq::<ChoiceV>::empty(),
            }));
            let ghost r0 = r.deep_view();
            r.push(ConfigOption { id: opt_string(&o.id), value, name: opt_string(&o.name), choices });
            assert(r.deep_view() =~= r0.push(ConfigV { id: opt_text(o.id), value: value_text(o.current_value), name: opt_text(o.name), choices: cv }));
        }
    }
    assert(options@.take(n as int) =~= options@);
    r
}

} // verus!

verus! {

// ---------------------------------------------------------------------------
// session/update dispatch
// ---------------------------------------------------------------------------

/// A `session_info_update`, read off the protocol type.
#[derive(Clone, Debug, PartialEq)]
pub struct SessionInfo {
    /// `_meta.goose` is present.
    pub has_goose_meta: bool,
    /// `_meta.goose.activeRunId`, when a string.
    pub active_run_id: Option<String>,
    /// The title, when set.
    pub title: Option<String>,
    /// `updatedAt`, when set.
    pub updated_at: Option<String>,
}

/// A `session/update` notification's payload, read off the protocol type.
#[derive(Clone, Debug, PartialEq)]
pub enum SessionUpdate {
    UserMessageChunk { content: ContentBlock, message_id: Option<String> },
    AgentMessageChunk { content: ContentBlock, message_id: Option<String> },
    AgentThoughtChunk { content: ContentBlock, message_id: Option<String> },
    ToolCall(ToolCallInfo),
    ToolCallUpdate(ToolUpdateInfo),
    /// Token usage; its figures stay with the caller, which forwards them.
    UsageUpdate,
    SessionInfoUpdate(SessionInfo),
    ConfigOptionUpdate { options: Vec<ConfigOption> },
    CurrentModeUpdate,
    AvailableCommandsUpdate { names: Vec<String> },
    Plan,
    Other,
}

/// What a dispatched update asks of the caller, in order.
#[derive(Clone, Debug, PartialEq)]
pub enum ConnEvent {
    /// An event of the transcript store, for the listener.
    Emit(Emission),
    /// Forward the update's usage figures on the stream.
    Usage,
    /// A run started (`run_id` set) or ended (`run_id` empty).
    ActiveRun { session_id: String, run_id: String },
    /// The session's title / stamp changed.
    Touched { session_id: String, title: String, updated_at: String },
    Config { options: Vec<ConfigOption> },
    Commands { names: Vec<String> },
}

pub enum ConnEventV {
    Emit(EmissionV),
    Usage,
    ActiveRun { session_id: Seq<char>, run_id: Seq<char> },
    Touched { session_id: Seq<char>, title: Seq<char>, updated_at: Seq<char> },
    Config { options: Seq<ConfigV> },
    Commands { names: Seq<Seq<char>> },
}

impl View for ConnEvent {
    type V = ConnEventV;

    open spec fn view(&self) -> ConnEventV {
        match self {
            ConnEvent::Emit(e) => ConnEventV::Emit(e@),
            ConnEvent::Usage => ConnEventV::Usage,
            ConnEvent::ActiveRun { session_id, run_id } => ConnEventV::ActiveRun {
                session_id: session_id@,
                run_id: run_id@,
            },
            ConnEvent::Touched { session_id, title, updated_at } => ConnEventV::Touched {
                session_id: session_id@,
                title: title@,
                updated_at: updated_at@,
            },
            ConnEvent::Config { options } => ConnEventV::Config { options: options.deep_view() },
            ConnEvent::Commands { names } => ConnEventV::Commands { names: names.deep_view() },
        }
    }
}

impl DeepView for ConnEvent {
    type V = ConnEventV;

    open spec fn deep_view(&self) -> ConnEventV {
        self@
    }
}

/// The store's events, handed to the listener.
pub open spec fn emits(es: Seq<EmissionV>) -> Seq<ConnEventV> {
    es.map_values(|e: EmissionV| ConnEventV::Emit(e))
}

/// The decision state of the main connection.
pub struct ConnState {
    session_id: Option<String>,
    active_run_id: Option<String>,
    suppress_replay: bool,
    replaying: bool,
    store: TranscriptStore,
}

pub struct ConnV {
    /// The session bound by `session/new` / `session/load`.
    pub session_id: Option<Seq<char>>,
    /// The live turn's run id.
    pub active_run_id: Option<Seq<char>>,
    /// Fresh-cache opens suppress the replayed stream.
    pub suppress_replay: bool,
    /// A `session/load` replay is streaming: thoughts are dropped.
    pub replaying: bool,
    pub store: StoreV,
}

impl View for ConnState {
    type V = ConnV;

    closed spec fn view(&self) -> ConnV {
        ConnV {
            session_id: opt_seq(self.session_id),
            active_run_id: opt_seq(self.active_run_id),
            suppress_replay: self.suppress_replay,
            replaying: self.replaying,
            store: self.store@,
        }
    }
}

/// The updates that produce chat content (gated on the open session).
pub open spec fn is_chat(u: SessionUpdate) -> bool {
    ||| u is UserMessageChunk
    ||| u is AgentMessageChunk
    ||| u is AgentThoughtChunk
    ||| u is ToolCall
    ||| u is ToolCallUpdate
    ||| u is UsageUpdate
}

pub open spec fn with_store(c: ConnV, r: (StoreV, Seq<EmissionV>)) -> (ConnV, Seq<ConnEventV>) {
    (ConnV { store: r.0, ..c }, emits(r.1))
}

/// A text chunk into the store (empty text is dropped).
pub open spec fn chunk_v(c: ConnV, role: Seq<char>, text: Seq<char>, mid: Option<Seq<char>>, thought: bool) -> (ConnV, Seq<ConnEventV>) {
    if text.len() == 0 {
        (c, Seq::empty())
    } else {
        with_store(c, append_chunk_v(c.store, role, text, mid, thought))
    }
}

/// A tool update into the store: live output appends (empty live output is
/// dropped), otherwise the content texts joined with newlines replace.
pub open spec fn tool_update_conn_v(c: ConnV, u: ToolUpdateInfo) -> (ConnV, Seq<ConnEventV>) {
    let status = opt_status_text(u.status);
    match u.live_chunks {
        Some(cs) => {
            let chunk = concat_all(cs.deep_view());
            if chunk.len() > 0 {
                with_store(c, tool_update_v(c.store, u.tool_call_id@, status, chunk, true))
            } else {
                (c, Seq::empty())
            }
        },
        None => with_store(c, tool_update_v(c.store, u.tool_call_id@, status, join_lines(u.content_texts.deep_view()), false)),
    }
}

/// The run lifecycle rides `_meta.goose.activeRunId`: a present id starts a
/// run, an absent one ends the run in flight.
pub open spec fn run_after(c: ConnV, i: SessionInfo) -> Option<Seq<char>> {
    if i.has_goose_meta {
        opt_seq(i.active_run_id)
    } else {
        c.active_run_id
    }
}

pub open spec fn run_events(c: ConnV, sid: Seq<char>, i: SessionInfo) -> Seq<ConnEventV> {
    if !i.has_goose_meta {
        Seq::empty()
    } else {
        match i.active_run_id {
            Some(r) => seq![ConnEventV::ActiveRun { session_id: sid, run_id: r@ }],
            None => if c.active_run_id is Some {
                seq![ConnEventV::ActiveRun { session_id: sid, run_id: Seq::empty() }]
            } else {
                Seq::empty()
            },
        }
    }
}

/// `dispatch`: the next state and the events, for an update of session `sid`.
pub open spec fn dispatch_v(c: ConnV, sid: Seq<char>, u: SessionUpdate) -> (ConnV, Seq<ConnEventV>) {
    if is_chat(u) && c.session_id != Some(sid) {
        (c, Seq::empty())
    } else {
        match u {
            SessionUpdate::UserMessageChunk { content, message_id } => if c.suppress_replay {
                (c, Seq::empty())
            } else {
                chunk_v(c, "user"@, block_text(content@), opt_seq(message_id), false)
            },
            SessionUpdate::AgentMessageChunk { content, message_id } => if c.suppress_replay {
                (c, Seq::empty())
            } else {
                chunk_v(c, "agent"@, block_text(content@), opt_seq(message_id), false)
            },
            SessionUpdate::AgentThoughtChunk { content, .. } => if c.suppress_replay || c.replaying {
                (c, Seq::empty())
            } else {
                chunk_v(c, "thought"@, block_text(content@), None, true)
            },
            SessionUpdate::ToolCall(t) => if c.suppress_replay {
                (c, Seq::empty())
            } else {
                with_store(c, tool_call_v(c.store, t.title@, opt_text(t.command), t.tool_call_id@, tool_kind_v(t)))
            },
            SessionUpdate::ToolCallUpdate(tu) => if c.suppress_replay {
                (c, Seq::empty())
            } else {
                tool_update_conn_v(c, tu)
            },
            SessionUpdate::UsageUpdate => (c, seq![ConnEventV::Usage]),
            SessionUpdate::SessionInfoUpdate(i) => (
                ConnV { active_run_id: run_after(c, i), ..c },
                run_events(c, sid, i) + seq![
                    ConnEventV::Touched {
                        session_id: sid,
                        title: opt_text(i.title),
                        updated_at: opt_text(i.updated_at),
                    },
                ],
            ),
            SessionUpdate::ConfigOptionUpdate { options } => (c, seq![ConnEventV::Config { options: options.deep_view() }]),
            SessionUpdate::AvailableCommandsUpdate { names } => (c, seq![ConnEventV::Commands { names: names.deep_view() }]),
            _ => (c, Seq::empty()),
        }
    }
}

/// The store's events, wrapped for the caller.
fn wrap_emissions(es: Vec<Emission>) -> (r: Vec<ConnEvent>)
    ensures
        r.deep_view() == emits(es.deep_view()),
{
    let ghost all = es.deep_view();
    let mut es = es;
    let mut r: Vec<ConnEvent> = Vec::new();
    assert(all.skip(0) =~= all);
    assert(r.deep_view() =~= emits(all.take(0)));
    while es.len() > 0
        invariant
            r.len() + es.len() == all.len(),
            es.deep_view() == all.skip(r.len() as int),
            r.deep_view() == emits(all.take(r.len() as int)),
        decreases es.len(),
    {
        let ghost k = r.len() as int;
        let ghost before = es@;
        let ghost before_dv = es.deep_view();
        let ghost r0 = r.deep_view();
        assert(es.deep_view()[0] == before[0].deep_view());
        let e = es.remove(0);
        assert(e@ == all[k]);
        assert(es@ == before.remove(0));
        assert forall|j: int| 0 <= j < es.deep_view().len() implies es.deep_view()[j] == all.skip(k + 1)[j] by {
            assert(es@[j] == before[j + 1]);
            assert(before_dv[j + 1] == before[j + 1].deep_view());
        }
        r.push(ConnEvent::Emit(e));
        assert(es.deep_view() =~= all.skip(k + 1));
        assert(all.take(k + 1) =~= all.take(k).push(all[k]));
        assert(r.deep_view() =~= r0.push(ConnEventV::Emit(all[k])));
        assert(emits(all.take(k + 1)) =~= emits(all.take(k)).push(ConnEventV::Emit(all[k])));
        assert(r.deep_view() =~= emits(all.take(k + 1)));
    }
    assert(all.take(all.len() as int) =~= all);
    r
}

fn opt_clone(o: &Option<String>) -> (r: Option<String>)
    ensures
        opt_seq(r) == opt_seq(*o),
{
    match o {
        Some(s) => Some(s.clone()),
        None => None,
    }
}

impl ConnState {
    /// The connection's invariant.
    pub open spec fn wf(&self) -> bool {
        crate::transcript::store_wf(self@.store)
    }

    /// A fresh connection: no session, nothing suppressed, an empty store.
    pub fn new() -> (c: Self)
        ensures
            c.wf(),
            c@.session_id is None,
            c@.active_run_id is None,
            !c@.suppress_replay,
            !c@.replaying,
            c@.store == crate::transcript::empty_store(),
    {
        ConnState {
            session_id: None,
            active_run_id: None,
            suppress_replay: false,
            replaying: false,
            store: TranscriptStore::new(),
        }
    }

    /// The session bound by `session/new` / `session/load`, if any.
    pub fn active_session_id(&self) -> (r: Option<String>)
        ensures
            opt_seq(r) == self@.session_id,
    {
        opt_clone(&self.session_id)
    }

    /// The live turn's run id, if any.
    pub fn active_run_id(&self) -> (r: Option<String>)
        ensures
            opt_seq(r) == self@.active_run_id,
    {
        opt_clone(&self.active_run_id)
    }

    /// Bind (or unbind) the open session.
    pub fn set_session_id(&mut self, session_id: Option<String>)
        requires
            old(self).wf(),
        ensures
            final(self).wf(),
            final(self)@ == (ConnV { session_id: opt_seq(session_id), ..old(self)@ }),
    {
        self.session_id = session_id;
    }

    pub fn set_suppress_replay(&mut self, suppress: bool)
        requires
            old(self).wf(),
        ensures
            final(self).wf(),
            final(self)@ == (ConnV { suppress_replay: suppress, ..old(self)@ }),
    {
        self.suppress_replay = suppress;
    }

    pub fn set_replaying(&mut self, replaying: bool)
        requires
            old(self).wf(),
        ensures
            final(self).wf(),
            final(self)@ == (ConnV { replaying, ..old(self)@ }),
    {
        self.replaying = replaying;
    }

    /// The handshake reached ready: the replay flags clear.
    pub fn on_ready(&mut self)
        requires
            old(self).wf(),
        ensures
            final(self).wf(),
            final(self)@ == (ConnV { suppress_replay: false, replaying: false, ..old(self)@ }),
    {
        self.suppress_replay = false;
        self.replaying = false;
    }

    /// The transcript store.
    pub fn store(&self) -> (s: &TranscriptStore)
        ensures
            s@ == self@.store,
    {
        &self.store
    }

    /// The transcript store, for the caller's own store operations.
    pub fn store_mut(&mut self) -> (s: &mut TranscriptStore)
        ensures
            s@ == old(self)@.store,
            final(self)@ == (ConnV { store: final(s)@, ..old(self)@ }),
    {
        &mut self.store
    }

    fn chunk(&mut self, role: &str, text: String, mid: Option<String>, thought: bool) -> (out: Vec<ConnEvent>)
        requires
            old(self).wf(),
        ensures
            final(self).wf(),
            final(self)@ == chunk_v(old(self)@, role@, text@, opt_seq(mid), thought).0,
            out.deep_view() == chunk_v(old(self)@, role@, text@, opt_seq(mid), thought).1,
    {
        if text.unicode_len() == 0 {
            let out: Vec<ConnEvent> = Vec::new();
            assert(out.deep_view() =~= Seq::<ConnEventV>::empty());
            return out;
        }
        let es = match &mid {
            Some(m) => self.store.append_chunk(role, text.as_str(), Some(m.as_str()), thought),
            None => self.store.append_chunk(role, text.as_str(), None, thought),
        };
        wrap_emissions(es)
    }

    fn tool_update(&mut self, u: ToolUpdateInfo) -> (out: Vec<ConnEvent>)
        requires
            old(self).wf(),
        ensures
            final(self).wf(),
            final(self)@ == tool_update_conn_v(old(self)@, u).0,
            out.deep_view() == tool_update_conn_v(old(self)@, u).1,
    {
        let status = match u.status {
            Some(st) => tool_call_status_str(st),
            None => String::new(),
        };
        match &u.live_chunks {
            Some(cs) => {
                let chunk = concat_texts(cs);
                if chunk.unicode_len() > 0 {
                    let es = self.store.tool_update(u.tool_call_id.as_str(), status.as_str(), chunk.as_str(), true);
                    wrap_emissions(es)
                } else {
                    let out: Vec<ConnEvent> = Vec::new();
                    assert(out.deep_view() =~= Seq::<ConnEventV>::empty());
                    out
                }
            },
            None => {
                let joined = join_texts(&u.content_texts);
                let es = self.store.tool_update(u.tool_call_id.as_str(), status.as_str(), joined.as_str(), false);
                wrap_emissions(es)
            },
        }
    }

    fn info_update(&mut self, session_id: &str, i: SessionInfo) -> (out: Vec<ConnEvent>)
        requires
            old(self).wf(),
        ensures
            final(self).wf(),
            final(self)@ == (ConnV { active_run_id: run_after(old(self)@, i), ..old(self)@ }),
            out.deep_view() == run_events(old(self)@, session_id@, i) + seq![
                ConnEventV::Touched { session_id: session_id@, title: opt_text(i.title), updated_at: opt_text(i.updated_at) },
            ],
    {
        let ghost c0 = self@;
        let mut out: Vec<ConnEvent> = Vec::new();
        if i.has_goose_meta {
            match &i.active_run_id {
                Some(r) => {
                    self.active_run_id = Some(r.clone());
                    out.push(ConnEvent::ActiveRun { session_id: owned(session_id), run_id: r.clone() });
                },
                None => {
                    let had = self.active_run_id.is_some();
                    self.active_run_id = None;
                    if had {
                        out.push(ConnEvent::ActiveRun { session_id: owned(session_id), run_id: String::new() });
                    }
                },
            }
        }
        let ghost pre = out.deep_view();
        assert(pre =~= run_events(c0, session_id@, i));
        out.push(
            ConnEvent::Touched {
                session_id: owned(session_id),
                title: opt_string(&i.title),
                updated_at: opt_string(&i.updated_at),
            },
        );
        assert(out.deep_view() =~= pre.push(ConnEventV::Touched { session_id: session_id@, title: opt_text(i.title), updated_at: opt_text(i.updated_at) }));
        out
    }

    /// Translate one `session/update` for session `session_id`. Chat content
    /// for any session but the open one is dropped (a backgrounded turn never
    /// renders in the wrong chat); session-level updates pass regardless.
    pub fn dispatch(&mut self, session_id: &str, update: SessionUpdate) -> (out: Vec<ConnEvent>)
        requires
            old(self).wf(),
        ensures
            final(self).wf(),
            final(self)@ == dispatch_v(old(self)@, session_id@, update).0,
            out.deep_view() == dispatch_v(old(self)@, session_id@, update).1,
    {
        let chat = match &update {
            SessionUpdate::UserMessageChunk { .. } => true,
            SessionUpdate::AgentMessageChunk { .. } => true,
            SessionUpdate::AgentThoughtChunk { .. } => true,
            SessionUpdate::ToolCall(_) => true,
            SessionUpdate::ToolCallUpdate(_) => true,
            SessionUpdate::UsageUpdate => true,
            _ => false,
        };
        let mine = match &self.session_id {
            Some(s) => str_eq(s.as_str(), session_id),
            None => false,
        };
        let mut none: Vec<ConnEvent> = Vec::new();
        assert(none.deep_view() =~= Seq::<ConnEventV>::empty());
        if chat && !mine {
            return none;
        }
        match update {
            SessionUpdate::UserMessageChunk { content, message_id } => {
                if self.suppress_replay {
                    return none;
                }
                self.chunk("user", content_block_text(&content), message_id, false)
            },
            SessionUpdate::AgentMessageChunk { content, message_id } => {
                if self.suppress_replay {
                    return none;
                }
                self.chunk("agent", content_block_text(&content), message_id, false)
            },
            SessionUpdate::AgentThoughtChunk { content, .. } => {
                if self.suppress_replay || self.replaying {
                    return none;
                }
                self.chunk("thought", content_block_text(&content), None, true)
            },
            SessionUpdate::ToolCall(t) => {
                if self.suppress_replay {
                    return none;
                }
                let (kind, detail) = tool_call_kind(&t);
                let es = self.store.tool_call(t.title.as_str(), detail.as_str(), t.tool_call_id.as_str(), kind);
                wrap_emissions(es)
            },
            SessionUpdate::ToolCallUpdate(tu) => {
                if self.suppress_replay {
                    return none;
                }
                self.tool_update(tu)
            },
            SessionUpdate::UsageUpdate => {
                none.push(ConnEvent::Usage);
                assert(none.deep_view() =~= seq![ConnEventV::Usage]);
                none
            },
            SessionUpdate::SessionInfoUpdate(i) => self.info_update(session_id, i),
            SessionUpdate::ConfigOptionUpdate { options } => {
                none.push(ConnEvent::Config { options });
                assert(none.deep_view() =~= seq![ConnEventV::Config { options: options.deep_view() }]);
                none
            },
            SessionUpdate::AvailableCommandsUpdate { names } => {
                none.push(ConnEvent::Commands { names });
                assert(none.deep_view() =~= seq![ConnEventV::Commands { names: names.deep_view() }]);
                none
            },
            _ => none,
        }
    }
}

// ---------------------------------------------------------------------------
// Server requests
// ---------------------------------------------------------------------------

/// Which parked server request a later answer is for. One slot per family:
/// the latest request of a family wins.
#[derive(Clone, Copy, Debug, PartialEq, Eq, Structural)]
pub enum PendingRequest {
    /// `_goose/unstable/session/recipe/request-params`
    RecipeParams,
    /// `elicitation/create`
    Elicitation,
}

/// The family of a server request; `None` for a method this client does not
/// support (it is answered with a method-not-found error).
pub fn request_kind(method: &str) -> (r: Option<PendingRequest>)
    ensures
        r == (if method@ == "_goose/unstable/session/recipe/request-params"@ {
            Some(PendingRequest::RecipeParams)
        } else if method@ == "elicitation/create"@ {
            Some(PendingRequest::Elicitation)
        } else {
            None::<PendingRequest>
        }),
{
    if str_eq(method, "_goose/unstable/session/recipe/request-params") {
        Some(PendingRequest::RecipeParams)
    } else if str_eq(method, "elicitation/create") {
        Some(PendingRequest::Elicitation)
    } else {
        None
    }
}

/// A permission request as the UI sees it: the tool call's title and
/// command (empty when absent) and each option with its snake_case kind.
pub fn permission_request(
    tool_call_id: String,
    title: Option<String>,
    command: Option<String>,
    options: Vec<(String, String, PermissionOptionKind)>,
) -> (r: PermissionRequest)
    ensures
        r.tool_call_id@ == tool_call_id@,
        r.title@ == opt_text(title),
        r.detail@ == opt_text(command),
        r.options@.len() == options@.len(),
        forall|i: int| 0 <= i < options@.len() ==> {
            &&& (#[trigger] r.options@[i]).option_id@ == options@[i].0@
            &&& r.options@[i].name@ == options@[i].1@
            &&& r.options@[i].kind@ == permission_kind_text(options@[i].2)
        },
{
    let mut out: Vec<PermissionOption> = Vec::new();
    let n = options.len();
    let mut rest = options;
    let ghost all = rest@;
    let mut k: usize = 0;
    while k < n
        invariant
            n == all.len(),
            k <= n,
            rest@ == all.skip(k as int),
            out@.len() == k,
            forall|i: int| 0 <= i < k ==> {
                &&& (#[trigger] out@[i]).option_id@ == all[i].0@
                &&& out@[i].name@ == all[i].1@
                &&& out@[i].kind@ == permission_kind_text(all[i].2)
            },
        decreases n - k,
    {
        let (option_id, name, kind) = rest.remove(0);
        assert(rest@ =~= all.skip(k + 1));
        out.push(PermissionOption { option_id, name, kind: permission_option_kind_str(kind) });
        k = k + 1;
    }
    PermissionRequest {
        tool_call_id,
        title: match title {
            Some(t) => t,
            None => String::new(),
        },
        detail: match command {
            Some(c) => c,
            None => String::new(),
        },
        options: out,
    }
}

// ---------------------------------------------------------------------------
// Laws of the reply parsers
// ---------------------------------------------------------------------------

/// Archived chats and scheduled jobs never reach the list: every summary
/// comes from an object entry with a session id of its own, whose `_meta`
/// holds no `archivedAt` and whose title is not a scheduled job's.
pub proof fn archived_sessions_are_never_listed(es: Seq<SessionEntry>)
    ensures
        sessions_v(es).0.len() <= es.len(),
        forall|k: int| #![trigger sessions_v(es).0[k]] 0 <= k < sessions_v(es).0.len() ==> exists|i: int| {
            &&& 0 <= i < es.len()
            &&& !(#[trigger] es[i]).archived
            &&& es[i].is_object
            &&& es[i].session_id is Some
            &&& !"Scheduled job:"@.is_prefix_of(opt_text(es[i].title))
            &&& sessions_v(es).0[k].id == opt_text(es[i].session_id)
        },
    decreases es.len(),
{
    if es.len() > 0 {
        let prev = es.drop_last();
        archived_sessions_are_never_listed(prev);
        let out = sessions_v(es).0;
        assert forall|k: int| #![trigger out[k]] 0 <= k < out.len() implies exists|i: int| {
            &&& 0 <= i < es.len()
            &&& !(#[trigger] es[i]).archived
            &&& es[i].is_object
            &&& es[i].session_id is Some
            &&& !"Scheduled job:"@.is_prefix_of(opt_text(es[i].title))
            &&& out[k].id == opt_text(es[i].session_id)
        } by {
            if k < sessions_v(prev).0.len() {
                assert(out[k] == sessions_v(prev).0[k]);
                let i = choose|i: int| {
                    &&& 0 <= i < prev.len()
                    &&& !(#[trigger] prev[i]).archived
                    &&& prev[i].is_object
                    &&& prev[i].session_id is Some
                    &&& !"Scheduled job:"@.is_prefix_of(opt_text(prev[i].title))
                    &&& sessions_v(prev).0[k].id == opt_text(prev[i].session_id)
                };
                assert(es[i] == prev[i]);
            } else {
                let i = es.len() - 1;
                assert(es[i] == es.last());
            }
        }
    }
}

/// An archived entry adds nothing: appending it to a reply leaves the
/// summaries and both side tables exactly as they were.
pub proof fn an_archived_entry_adds_nothing(es: Seq<SessionEntry>, e: SessionEntry)
    requires
        e.archived,
    ensures
        sessions_v(es.push(e)) == sessions_v(es),
{
    assert(es.push(e).drop_last() =~= es);
    assert(es.push(e).last() == e);
}

/// A boolean current value reads as its literal: an option entry with
/// `currentValue` `b` is flattened to `"true"` exactly when `b`, else
/// `"false"`, appended after the options before it, which stay as they were.
pub proof fn a_boolean_value_reads_as_its_literal(os: Seq<RawConfigOption>, o: RawConfigOption, b: bool)
    requires
        o.is_object,
        o.id is Some,
        o.current_value == ConfigValue::Bool(b),
    ensures
        options_v(os.push(o)).len() == options_v(os).len() + 1,
        options_v(os.push(o)).drop_last() == options_v(os),
        options_v(os.push(o)).last().id == o.id->0@,
        options_v(os.push(o)).last().value == (if b { "true"@ } else { "false"@ }),
        b ==> options_v(os.push(o)).last().value != "false"@,
{
    assert(os.push(o).drop_last() =~= os);
    assert(os.push(o).last() == o);
    assert(options_v(os.push(o)).drop_last() =~= options_v(os));
    reveal_strlit("true");
    reveal_strlit("false");
}

/// A live entry is listed: an object entry with a session id, not archived,
/// not a scheduled job, and not blank appends exactly one summary, carrying
/// its id and its title (the id when the title is empty), after the
/// summaries before it, which stay as they were.
pub proof fn a_live_entry_is_listed(es: Seq<SessionEntry>, e: SessionEntry)
    requires
        e.is_object,
        e.session_id is Some,
        !e.archived,
        !"Scheduled job:"@.is_prefix_of(opt_text(e.title)),
        opt_text(e.session_id).len() > 0,
    ensures
        sessions_v(es.push(e)).0.len() == sessions_v(es).0.len() + 1,
        sessions_v(es.push(e)).0.drop_last() == sessions_v(es).0,
        sessions_v(es.push(e)).0.last().id == e.session_id->0@,
        sessions_v(es.push(e)).0.last().title == (if opt_text(e.title).len() == 0 { e.session_id->0@ } else { opt_text(e.title) }),
{
    assert(es.push(e).drop_last() =~= es);
    assert(es.push(e).last() == e);
    assert(sessions_v(es.push(e)).0.drop_last() =~= sessions_v(es).0);
}

/// Every option entry keeps its current value as text: a string as it is,
/// a number as its literal, a boolean as `"true"` / `"false"`, anything
/// else as empty; it is appended after the options before it.
pub proof fn an_option_keeps_its_value_text(os: Seq<RawConfigOption>, o: RawConfigOption)
    requires
        o.is_object,
        o.id is Some,
    ensures
        options_v(os.push(o)).len() == options_v(os).len() + 1,
        options_v(os.push(o)).drop_last() == options_v(os),
        options_v(os.push(o)).last().id == o.id->0@,
        options_v(os.push(o)).last().value == (match o.current_value {
            ConfigValue::Str(t) => t@,
            ConfigValue::Number(t) => t@,
            ConfigValue::Bool(b) => if b { "true"@ } else { "false"@ },
            ConfigValue::Other => Seq::<char>::empty(),
        }),
{
    assert(os.push(o).drop_last() =~= os);
    assert(os.push(o).last() == o);
    assert(options_v(os.push(o)).drop_last() =~= options_v(os));
}

} // verus!
