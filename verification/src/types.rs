//! The records and enums every client consumes, with their mathematical views.

use vstd::prelude::*;

verus! {

/// Connection and configuration for a goosed ACP server.
#[derive(Clone, Debug, PartialEq)]
pub struct ServerConfig {
    /// Hostname or IP, no scheme.
    pub host: String,
    pub port: u16,
    /// `X-Secret-Key` header value.
    pub secret_key: String,
    /// `true` -> `wss://`, `false` -> `ws://`.
    pub use_tls: bool,
    /// Accept any server certificate (trust-all) instead of verifying it.
    pub accept_invalid_certs: bool,
    /// PEM-encoded CA certificate(s) added to the verifier's trust store.
    pub ca_cert_pem: Option<String>,
    /// Absolute working directory on the server.
    pub cwd: String,
    pub auto_connect: bool,
    /// `_meta.client`, e.g. "grouse-desktop" | "grouse" | "grouse-cli".
    pub client_id: String,
    /// Start the fresh session as a recipe session.
    pub initial_recipe_id: Option<String>,
}

/// Connection lifecycle.
#[derive(Clone, Debug, PartialEq)]
pub enum ConnectionStatus {
    Disconnected,
    Connecting,
    Ready,
    Syncing,
    Error { message: String },
}

/// A session list entry.
#[derive(Clone, Debug, PartialEq)]
pub struct SessionSummary {
    pub id: String,
    pub title: String,
    /// Server timestamp; compared against the transcript cache.
    pub updated_at: String,
    pub last_message_snippet: Option<String>,
    /// The session's project (`_meta.projectId`).
    pub project_id: Option<String>,
    /// `_meta.messageCount`.
    pub message_count: i64,
    /// `_meta.model`.
    pub model: String,
    /// `_meta.hasRecipe`.
    pub has_recipe: bool,
    /// Backgrounded (staged) content the UI has not shown yet.
    pub has_new: bool,
    /// The session is archived.
    pub archived: bool,
}

/// One accumulated transcript bubble (the flat projection).
#[derive(Clone, Debug, PartialEq)]
pub struct Message {
    /// Bubble key (`message_id`); empty for live bubbles without an id.
    pub id: String,
    /// `user` | `agent` | `thought` | `tool` | `error`.
    pub role: String,
    /// Bubble text; the TITLE ONLY for `tool`.
    pub content: String,
    /// Tool-role only: the tool's output text.
    pub output: String,
}

/// The kind of a rich transcript [`Item`].
#[derive(Clone, Copy, Debug, PartialEq, Eq, Structural)]
pub enum ItemKind {
    User,
    Agent,
    Thought,
    Tool,
    ToolGroup,
    Chart,
    McpApp,
    Error,
}

/// One tool call inside a `ToolGroup` item.
#[derive(Clone, Debug, PartialEq)]
pub struct ToolCall {
    pub id: String,
    pub title: String,
    /// The tool's input/arguments.
    pub detail: String,
    pub output: String,
    pub status: String,
}

/// A rich transcript item, the unit the clients render.
#[derive(Clone, Debug, PartialEq)]
pub struct Item {
    /// Stable key: message id, tool call id, or a core-assigned `@n`.
    pub id: String,
    pub kind: ItemKind,
    /// Body text; the TITLE for tool-ish rows.
    pub text: String,
    /// Tool input, chart spec, or MCP-app input.
    pub detail: String,
    /// Tool result.
    pub output: String,
    /// Tool lifecycle (`in_progress` / `completed` / `failed`).
    pub status: String,
    /// `McpApp` only: `<extension>|<uri>`.
    pub app_key: String,
    /// `ToolGroup` only: the collapsed calls.
    pub calls: Vec<ToolCall>,
}

/// One transcript mutation on the item stream.
#[derive(Clone, Debug, PartialEq)]
pub enum TranscriptOp {
    /// The window is being replaced wholesale.
    Reset { session_id: String },
    /// Insert or replace by id.
    Upsert { item: Item },
    /// Live text delta appended to an existing item.
    AppendText { id: String, chunk: String },
    /// Live tool-output delta appended to an existing item.
    AppendOutput { id: String, chunk: String },
    /// Drop an item by id.
    Remove { id: String },
    /// The pagination cursor.
    Window { oldest_id: String, has_older: bool },
}

/// The core's window over the active session's transcript.
#[derive(Clone, Debug, Default, PartialEq)]
pub struct TranscriptWindow {
    pub oldest_id: String,
    pub newest_id: String,
    pub has_older: bool,
}

/// What a tool call draws as: a plain chip, a chart, or an MCP app.
#[derive(Clone, Debug, PartialEq)]
pub enum ToolCallKind {
    Plain,
    Chart { spec: String },
    McpApp { app_key: String, uri: String, extension: String, input: String },
}

/// A config entry (`provider` | `model` | `mode` | `thinking_effort`).
#[derive(Clone, Debug, PartialEq)]
pub struct ConfigOption {
    pub id: String,
    pub value: String,
    /// Human-readable label.
    pub name: String,
    /// Selectable choices; empty when the server sends none.
    pub choices: Vec<ConfigChoice>,
}

/// One selectable config choice.
#[derive(Clone, Debug, PartialEq)]
pub struct ConfigChoice {
    pub value: String,
    pub name: String,
}

/// One permission option.
#[derive(Clone, Debug, PartialEq)]
pub struct PermissionOption {
    pub option_id: String,
    pub name: String,
    pub kind: String,
}

/// A server permission request surfaced to the UI.
#[derive(Clone, Debug, PartialEq)]
pub struct PermissionRequest {
    pub tool_call_id: String,
    pub title: String,
    pub detail: String,
    pub options: Vec<PermissionOption>,
}

/// The UI's answer to a permission request.
#[derive(Clone, Debug, PartialEq)]
pub enum PermissionOutcome {
    Selected { option_id: String },
    Cancelled,
}

/// A project/skill summary.
#[derive(Clone, Debug, PartialEq)]
pub struct ProjectSummary {
    pub path: String,
    pub name: String,
    pub description: Option<String>,
}

/// A prompt to send: one or more content blocks.
#[derive(Clone, Debug, PartialEq)]
pub struct Prompt {
    pub blocks: Vec<PromptBlock>,
}

/// A prompt content block: text / image / resource.
#[derive(Clone, Debug, PartialEq)]
pub enum PromptBlock {
    Text { text: String },
    /// `data` is base64.
    Image { mime_type: String, data: String },
    /// `text` and `blob` are mutually exclusive; `blob` is base64.
    Resource { uri: String, mime_type: String, text: Option<String>, blob: Option<String> },
}

/// The session the UI believes is active when sending a prompt.
#[derive(Clone, Debug, PartialEq)]
pub struct SendExpect {
    pub session_id: String,
}

/// A live stream event (chunks, tool lifecycle, turn end).
#[derive(Clone, Debug, PartialEq)]
pub enum StreamEvent {
    AgentChunk { text: String, message_id: String },
    UserChunk { text: String, message_id: String },
    ThoughtChunk { text: String },
    ToolCall { title: String, detail: String, tool_call_id: String, kind: ToolCallKind },
    ToolCallUpdate { id: String, status: String, output: String, live: bool },
    RunEnded { stop_reason: String },
}

/// A structural change of the flat transcript.
#[derive(Clone, Debug, PartialEq)]
pub enum TranscriptEvent {
    Append { message: Message },
    Update { message: Message },
    /// Rebuild from the store's snapshot.
    Clear,
}

/// One event for the listener, on one of its three transcript channels.
#[derive(Clone, Debug, PartialEq)]
pub enum Emission {
    Stream(StreamEvent),
    Transcript(TranscriptEvent),
    Item(TranscriptOp),
}

// ---------------------------------------------------------------------------
// Views
// ---------------------------------------------------------------------------

pub struct MessageV {
    pub id: Seq<char>,
    pub role: Seq<char>,
    pub content: Seq<char>,
    pub output: Seq<char>,
}

impl View for Message {
    type V = MessageV;

    open spec fn view(&self) -> MessageV {
        MessageV { id: self.id@, role: self.role@, content: self.content@, output: self.output@ }
    }
}

impl DeepView for Message {
    type V = MessageV;

    open spec fn deep_view(&self) -> MessageV {
        self@
    }
}

pub struct ToolCallV {
    pub id: Seq<char>,
    pub title: Seq<char>,
    pub detail: Seq<char>,
    pub output: Seq<char>,
    pub status: Seq<char>,
}

impl View for ToolCall {
    type V = ToolCallV;

    open spec fn view(&self) -> ToolCallV {
        ToolCallV {
            id: self.id@,
            title: self.title@,
            detail: self.detail@,
            output: self.output@,
            status: self.status@,
        }
    }
}

impl DeepView for ToolCall {
    type V = ToolCallV;

    open spec fn deep_view(&self) -> ToolCallV {
        self@
    }
}

pub struct ItemV {
    pub id: Seq<char>,
    pub kind: ItemKind,
    pub text: Seq<char>,
    pub detail: Seq<char>,
    pub output: Seq<char>,
    pub status: Seq<char>,
    pub app_key: Seq<char>,
    pub calls: Seq<ToolCallV>,
}

impl View for Item {
    type V = ItemV;

    open spec fn view(&self) -> ItemV {
        ItemV {
            id: self.id@,
            kind: self.kind,
            text: self.text@,
            detail: self.detail@,
            output: self.output@,
            status: self.status@,
            app_key: self.app_key@,
            calls: self.calls.deep_view(),
        }
    }
}

impl DeepView for Item {
    type V = ItemV;

    open spec fn deep_view(&self) -> ItemV {
        self@
    }
}

pub enum OpV {
    Reset { session_id: Seq<char> },
    Upsert { item: ItemV },
    AppendText { id: Seq<char>, chunk: Seq<char> },
    AppendOutput { id: Seq<char>, chunk: Seq<char> },
    Remove { id: Seq<char> },
    Window { oldest_id: Seq<char>, has_older: bool },
}

impl View for TranscriptOp {
    type V = OpV;

    open spec fn view(&self) -> OpV {
        match self {
            TranscriptOp::Reset { session_id } => OpV::Reset { session_id: session_id@ },
            TranscriptOp::Upsert { item } => OpV::Upsert { item: item@ },
            TranscriptOp::AppendText { id, chunk } => OpV::AppendText { id: id@, chunk: chunk@ },
            TranscriptOp::AppendOutput { id, chunk } => OpV::AppendOutput {
                id: id@,
                chunk: chunk@,
            },
            TranscriptOp::Remove { id } => OpV::Remove { id: id@ },
            TranscriptOp::Window { oldest_id, has_older } => OpV::Window {
                oldest_id: oldest_id@,
                has_older: *has_older,
            },
        }
    }
}

pub struct WindowV {
    pub oldest_id: Seq<char>,
    pub newest_id: Seq<char>,
    pub has_older: bool,
}

impl View for TranscriptWindow {
    type V = WindowV;

    open spec fn view(&self) -> WindowV {
        WindowV { oldest_id: self.oldest_id@, newest_id: self.newest_id@, has_older: self.has_older }
    }
}

pub enum KindV {
    Plain,
    Chart { spec: Seq<char> },
    McpApp { app_key: Seq<char>, uri: Seq<char>, extension: Seq<char>, input: Seq<char> },
}

impl View for ToolCallKind {
    type V = KindV;

    open spec fn view(&self) -> KindV {
        match self {
            ToolCallKind::Plain => KindV::Plain,
            ToolCallKind::Chart { spec } => KindV::Chart { spec: spec@ },
            ToolCallKind::McpApp { app_key, uri, extension, input } => KindV::McpApp {
                app_key: app_key@,
                uri: uri@,
                extension: extension@,
                input: input@,
            },
        }
    }
}

pub enum StreamV {
    AgentChunk { text: Seq<char>, message_id: Seq<char> },
    UserChunk { text: Seq<char>, message_id: Seq<char> },
    ThoughtChunk { text: Seq<char> },
    ToolCall { title: Seq<char>, detail: Seq<char>, tool_call_id: Seq<char>, kind: KindV },
    ToolCallUpdate { id: Seq<char>, status: Seq<char>, output: Seq<char>, live: bool },
    RunEnded { stop_reason: Seq<char> },
}

impl View for StreamEvent {
    type V = StreamV;

    open spec fn view(&self) -> StreamV {
        match self {
            StreamEvent::AgentChunk { text, message_id } => StreamV::AgentChunk {
                text: text@,
                message_id: message_id@,
            },
            StreamEvent::UserChunk { text, message_id } => StreamV::UserChunk {
                text: text@,
                message_id: message_id@,
            },
            StreamEvent::ThoughtChunk { text } => StreamV::ThoughtChunk { text: text@ },
            StreamEvent::ToolCall { title, detail, tool_call_id, kind } => StreamV::ToolCall {
                title: title@,
                detail: detail@,
                tool_call_id: tool_call_id@,
                kind: kind@,
            },
            StreamEvent::ToolCallUpdate { id, status, output, live } => StreamV::ToolCallUpdate {
                id: id@,
                status: status@,
                output: output@,
                live: *live,
            },
            StreamEvent::RunEnded { stop_reason } => StreamV::RunEnded {
                stop_reason: stop_reason@,
            },
        }
    }
}

pub enum TranscriptV {
    Append { message: MessageV },
    Update { message: MessageV },
    Clear,
}

impl View for TranscriptEvent {
    type V = TranscriptV;

    open spec fn view(&self) -> TranscriptV {
        match self {
            TranscriptEvent::Append { message } => TranscriptV::Append { message: message@ },
            TranscriptEvent::Update { message } => TranscriptV::Update { message: message@ },
            TranscriptEvent::Clear => TranscriptV::Clear,
        }
    }
}

pub enum EmissionV {
    Stream(StreamV),
    Transcript(TranscriptV),
    Item(OpV),
}

impl View for Emission {
    type V = EmissionV;

    open spec fn view(&self) -> EmissionV {
        match self {
            Emission::Stream(e) => EmissionV::Stream(e@),
            Emission::Transcript(e) => EmissionV::Transcript(e@),
            Emission::Item(op) => EmissionV::Item(op@),
        }
    }
}

impl DeepView for Emission {
    type V = EmissionV;

    open spec fn deep_view(&self) -> EmissionV {
        self@
    }
}

pub struct ChoiceV {
    pub value: Seq<char>,
    pub name: Seq<char>,
}

impl View for ConfigChoice {
    type V = ChoiceV;

    open spec fn view(&self) -> ChoiceV {
        ChoiceV { value: self.value@, name: self.name@ }
    }
}

impl DeepView for ConfigChoice {
    type V = ChoiceV;

    open spec fn deep_view(&self) -> ChoiceV {
        self@
    }
}

pub struct ConfigV {
    pub id: Seq<char>,
    pub value: Seq<char>,
    pub name: Seq<char>,
    pub choices: Seq<ChoiceV>,
}

impl View for ConfigOption {
    type V = ConfigV;

    open spec fn view(&self) -> ConfigV {
        ConfigV {
            id: self.id@,
            value: self.value@,
            name: self.name@,
            choices: self.choices.deep_view(),
        }
    }
}

impl DeepView for ConfigOption {
    type V = ConfigV;

    open spec fn deep_view(&self) -> ConfigV {
        self@
    }
}

pub struct SummaryV {
    pub id: Seq<char>,
    pub title: Seq<char>,
    pub updated_at: Seq<char>,
    pub last_message_snippet: Option<Seq<char>>,
    pub project_id: Option<Seq<char>>,
    pub message_count: i64,
    pub model: Seq<char>,
    pub has_recipe: bool,
    pub has_new: bool,
    pub archived: bool,
}

impl View for SessionSummary {
    type V = SummaryV;

    open spec fn view(&self) -> SummaryV {
        SummaryV {
            id: self.id@,
            title: self.title@,
            updated_at: self.updated_at@,
            last_message_snippet: opt_view(self.last_message_snippet),
            project_id: opt_view(self.project_id),
            message_count: self.message_count,
            model: self.model@,
            has_recipe: self.has_recipe,
            has_new: self.has_new,
            archived: self.archived,
        }
    }
}

impl DeepView for SessionSummary {
    type V = SummaryV;

    open spec fn deep_view(&self) -> SummaryV {
        self@
    }
}

pub enum StatusV {
    Disconnected,
    Connecting,
    Ready,
    Syncing,
    Error { message: Seq<char> },
}

impl View for ConnectionStatus {
    type V = StatusV;

    open spec fn view(&self) -> StatusV {
        match self {
            ConnectionStatus::Disconnected => StatusV::Disconnected,
            ConnectionStatus::Connecting => StatusV::Connecting,
            ConnectionStatus::Ready => StatusV::Ready,
            ConnectionStatus::Syncing => StatusV::Syncing,
            ConnectionStatus::Error { message } => StatusV::Error { message: message@ },
        }
    }
}

impl ConnectionStatus {
    /// A field-by-field copy.
    pub fn duplicate(&self) -> (c: ConnectionStatus)
        ensures
            c@ == self@,
    {
        match self {
            ConnectionStatus::Disconnected => ConnectionStatus::Disconnected,
            ConnectionStatus::Connecting => ConnectionStatus::Connecting,
            ConnectionStatus::Ready => ConnectionStatus::Ready,
            ConnectionStatus::Syncing => ConnectionStatus::Syncing,
            ConnectionStatus::Error { message } => ConnectionStatus::Error { message: message.clone() },
        }
    }
}

impl Message {
    /// A field-by-field copy.
    pub fn duplicate(&self) -> (c: Message)
        ensures
            c@ == self@,
    {
        Message { id: self.id.clone(), role: self.role.clone(), content: self.content.clone(), output: self.output.clone() }
    }
}

pub struct ServerV {
    pub host: Seq<char>,
    pub port: u16,
    pub secret_key: Seq<char>,
    pub use_tls: bool,
    pub accept_invalid_certs: bool,
    pub ca_cert_pem: Option<Seq<char>>,
    pub cwd: Seq<char>,
    pub auto_connect: bool,
    pub client_id: Seq<char>,
    pub initial_recipe_id: Option<Seq<char>>,
}

impl View for ServerConfig {
    type V = ServerV;

    open spec fn view(&self) -> ServerV {
        ServerV {
            host: self.host@,
            port: self.port,
            secret_key: self.secret_key@,
            use_tls: self.use_tls,
            accept_invalid_certs: self.accept_invalid_certs,
            ca_cert_pem: opt_view(self.ca_cert_pem),
            cwd: self.cwd@,
            auto_connect: self.auto_connect,
            client_id: self.client_id@,
            initial_recipe_id: opt_view(self.initial_recipe_id),
        }
    }
}

/// A copy of an optional string.
pub fn copy_opt(o: &Option<String>) -> (c: Option<String>)
    ensures
        opt_view(c) == opt_view(*o),
{
    match o {
        Some(s) => Some(s.clone()),
        None => None,
    }
}

impl ServerConfig {
    /// A field-by-field copy.
    pub fn duplicate(&self) -> (c: ServerConfig)
        ensures
            c@ == self@,
    {
        ServerConfig {
            host: self.host.clone(),
            port: self.port,
            secret_key: self.secret_key.clone(),
            use_tls: self.use_tls,
            accept_invalid_certs: self.accept_invalid_certs,
            ca_cert_pem: copy_opt(&self.ca_cert_pem),
            cwd: self.cwd.clone(),
            auto_connect: self.auto_connect,
            client_id: self.client_id.clone(),
            initial_recipe_id: copy_opt(&self.initial_recipe_id),
        }
    }
}

impl SessionSummary {
    /// A field-by-field copy.
    pub fn duplicate(&self) -> (c: SessionSummary)
        ensures
            c@ == self@,
    {
        SessionSummary {
            id: self.id.clone(),
            title: self.title.clone(),
            updated_at: self.updated_at.clone(),
            last_message_snippet: copy_opt(&self.last_message_snippet),
            project_id: copy_opt(&self.project_id),
            message_count: self.message_count,
            model: self.model.clone(),
            has_recipe: self.has_recipe,
            has_new: self.has_new,
            archived: self.archived,
        }
    }
}

/// A copy of a session list.
pub fn copy_sessions(v: &Vec<SessionSummary>) -> (c: Vec<SessionSummary>)
    ensures
        c.deep_view() == v.deep_view(),
{
    let mut c: Vec<SessionSummary> = Vec::new();
    for i in 0..v.len()
        invariant
            c.deep_view() == v.deep_view().take(i as int),
    {
        let ghost c0 = c.deep_view();
        let d = v[i].duplicate();
        c.push(d);
        assert(c.deep_view() =~= c0.push(v[i as int]@));
        assert(c.deep_view() =~= v.deep_view().take(i + 1));
    }
    assert(v.deep_view().take(v.len() as int) =~= v.deep_view());
    c
}

impl ConfigOption {
    /// A field-by-field copy.
    pub fn duplicate(&self) -> (c: ConfigOption)
        ensures
            c@ == self@,
    {
        let mut choices: Vec<ConfigChoice> = Vec::new();
        for i in 0..self.choices.len()
            invariant
                choices.deep_view() == self.choices.deep_view().take(i as int),
        {
            let ch = &self.choices[i];
            let ghost c0 = choices.deep_view();
            choices.push(ConfigChoice { value: ch.value.clone(), name: ch.name.clone() });
            assert(choices.deep_view() =~= c0.push(self.choices[i as int]@));
            assert(choices.deep_view() =~= self.choices.deep_view().take(i + 1));
        }
        assert(self.choices.deep_view().take(self.choices.len() as int) =~= self.choices.deep_view());
        ConfigOption { id: self.id.clone(), value: self.value.clone(), name: self.name.clone(), choices }
    }
}

/// A copy of a config option list.
pub fn copy_config(v: &Vec<ConfigOption>) -> (c: Vec<ConfigOption>)
    ensures
        c.deep_view() == v.deep_view(),
{
    let mut c: Vec<ConfigOption> = Vec::new();
    for i in 0..v.len()
        invariant
            c.deep_view() == v.deep_view().take(i as int),
    {
        let ghost c0 = c.deep_view();
        let d = v[i].duplicate();
        c.push(d);
        assert(c.deep_view() =~= c0.push(v[i as int]@));
        assert(c.deep_view() =~= v.deep_view().take(i + 1));
    }
    assert(v.deep_view().take(v.len() as int) =~= v.deep_view());
    c
}

/// The view of an optional string.
pub open spec fn opt_view(o: Option<String>) -> Option<Seq<char>> {
    match o {
        Some(s) => Some(s@),
        None => None,
    }
}

} // verus!
