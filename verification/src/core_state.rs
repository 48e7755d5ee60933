//! The decisions of the main client core: connection lifecycle, reconnect
//! backoff, the per-chat pending queue, cache freshness, config merging and
//! the remote-change resync. Every operation is a step from the current state
//! and an event to the next state and the action the runtime performs.

use vstd::prelude::*;
use crate::spine::{backoff_ms, reconnect_delay_ms};
use crate::table::{insert_all, StrTable};
use crate::text::{owned, push_decimal, str_eq, decimal};
use crate::transcript::{armed, clear_em, replace_rich_v, reset_v as store_reset_v, StoreV, TranscriptStore};
use crate::types::{
    Emission, EmissionV, Item, ItemV,
    copy_config, copy_opt, copy_sessions, opt_view, ConfigOption, ConfigV, ConnectionStatus, Prompt,
    SendExpect, ServerConfig, ServerV, SessionSummary, StatusV, SummaryV,
};

verus! {

/// Reconnect attempts before the core gives up on a dropped connection.
pub const RECONNECT_LIMIT: u32 = 6;

/// Follow-up probes in one resync cycle (the initial probe and three more).
pub const RESYNC_TICKS: i32 = 4;

/// An intent that waits for the connection to bind a session.
pub enum PendingIntent {
    SendPrompt { prompt: Prompt, expect: Option<SendExpect>, id: String },
    SetConfig { config_id: String, value: String },
}

pub enum IntentV {
    SendPrompt { prompt: Prompt, expect: Option<SendExpect>, id: Seq<char> },
    SetConfig { config_id: Seq<char>, value: Seq<char> },
}

impl View for PendingIntent {
    type V = IntentV;

    open spec fn view(&self) -> IntentV {
        match self {
            PendingIntent::SendPrompt { prompt, expect, id } => IntentV::SendPrompt { prompt: *prompt, expect: *expect, id: id@ },
            PendingIntent::SetConfig { config_id, value } => IntentV::SetConfig { config_id: config_id@, value: value@ },
        }
    }
}

/// The queue an intent waits in: the session its prompt expects, or the
/// global queue (`""`) for config changes and prompts with no expectation.
pub open spec fn intent_key(i: IntentV) -> Seq<char> {
    match i {
        IntentV::SendPrompt { expect, .. } => match expect {
            Some(e) => e.session_id@,
            None => Seq::empty(),
        },
        IntentV::SetConfig { .. } => Seq::empty(),
    }
}

/// Where a prompt or config change goes now.
pub enum Route {
    /// No bound session yet: wait in the queue.
    Queue,
    /// The UI shows another chat than the socket is bound to: drop it.
    Reject,
    /// Send it on the bound session.
    Send { session_id: String },
}

pub enum RouteV {
    Queue,
    Reject,
    Send { session_id: Seq<char> },
}

impl View for Route {
    type V = RouteV;

    open spec fn view(&self) -> RouteV {
        match self {
            Route::Queue => RouteV::Queue,
            Route::Reject => RouteV::Reject,
            Route::Send { session_id } => RouteV::Send { session_id: session_id@ },
        }
    }
}

/// The routing rule: nothing bound queues; a prompt whose expected session
/// differs from the bound one is rejected; otherwise it goes out.
pub open spec fn route_v(i: IntentV, bound: Option<Seq<char>>) -> RouteV {
    match bound {
        None => RouteV::Queue,
        Some(sid) => match i {
            IntentV::SendPrompt { expect, .. } => match expect {
                Some(e) => if e.session_id@ != sid {
                    RouteV::Reject
                } else {
                    RouteV::Send { session_id: sid }
                },
                None => RouteV::Send { session_id: sid },
            },
            IntentV::SetConfig { .. } => RouteV::Send { session_id: sid },
        },
    }
}

/// A request the runtime puts on the wire.
pub enum Dispatch {
    Prompt { session_id: String, prompt: Prompt },
    Config { session_id: String, config_id: String, value: String },
}

pub enum DispatchV {
    Prompt { session_id: Seq<char>, prompt: Prompt },
    Config { session_id: Seq<char>, config_id: Seq<char>, value: Seq<char> },
}

impl View for Dispatch {
    type V = DispatchV;

    open spec fn view(&self) -> DispatchV {
        match self {
            Dispatch::Prompt { session_id, prompt } => DispatchV::Prompt { session_id: session_id@, prompt: *prompt },
            Dispatch::Config { session_id, config_id, value } => DispatchV::Config { session_id: session_id@, config_id: config_id@, value: value@ },
        }
    }
}

/// The request an intent becomes on session `sid`.
pub open spec fn dispatch_of(i: IntentV, sid: Seq<char>) -> DispatchV {
    match i {
        IntentV::SendPrompt { prompt, .. } => DispatchV::Prompt { session_id: sid, prompt },
        IntentV::SetConfig { config_id, value } => DispatchV::Config { session_id: sid, config_id, value },
    }
}

/// The core's authoritative state.
pub struct CoreState {
    status: ConnectionStatus,
    sessions: Vec<SessionSummary>,
    session_cwds: StrTable,
    session_updated_at: StrTable,
    config: Vec<ConfigOption>,
    last_config: Option<ServerConfig>,
    prompting: bool,
    pending: Vec<PendingIntent>,
    next_pending_id: u64,
    reconnect_attempts: u32,
    reconnect_gen: u64,
    conn_gen: u64,
    user_disconnect: bool,
    touch_gen: u64,
    store_session_id: Option<String>,
    resync_ticks: i32,
    sync_stamp: Option<(String, i64)>,
}

pub struct CoreV {
    pub status: StatusV,
    /// The last `session/list`.
    pub sessions: Seq<SummaryV>,
    /// Each session's cwd, for resume (never guessed).
    pub session_cwds: Map<Seq<char>, Seq<char>>,
    /// Each session's `updatedAt`: cache freshness and the touched sidebar.
    pub session_updated_at: Map<Seq<char>, Seq<char>>,
    pub config: Seq<ConfigV>,
    /// The server the connection and its reconnects use.
    pub last_config: Option<ServerV>,
    /// A turn is in flight on the main connection: the queue waits.
    pub prompting: bool,
    /// Intents waiting for a bound session, oldest first; each waits in the
    /// queue `intent_key` names.
    pub pending: Seq<IntentV>,
    pub next_pending_id: u64,
    pub reconnect_attempts: u32,
    /// Bumped to invalidate pending reconnect timers.
    pub reconnect_gen: u64,
    /// Bumped per connection so a superseded connection's end is inert.
    pub conn_gen: u64,
    /// An explicit disconnect: no reconnect, statuses surface Disconnected.
    pub user_disconnect: bool,
    /// The remote-change debounce generation.
    pub touch_gen: u64,
    /// The session the transcript store's content belongs to.
    pub store_session_id: Option<Seq<char>>,
    /// Follow-up probes left in the current resync cycle.
    pub resync_ticks: i32,
    /// The last probed `(updatedAt, messageCount)`.
    pub sync_stamp: Option<(Seq<char>, i64)>,
}

pub open spec fn stamp_view(s: Option<(String, i64)>) -> Option<(Seq<char>, i64)> {
    match s {
        Some(p) => Some((p.0@, p.1)),
        None => None,
    }
}

pub open spec fn server_opt(c: Option<ServerConfig>) -> Option<ServerV> {
    match c {
        Some(c) => Some(c@),
        None => None,
    }
}

impl View for CoreState {
    type V = CoreV;

    closed spec fn view(&self) -> CoreV {
        CoreV {
            status: self.status@,
            sessions: self.sessions.deep_view(),
            session_cwds: self.session_cwds@,
            session_updated_at: self.session_updated_at@,
            config: self.config.deep_view(),
            last_config: server_opt(self.last_config),
            prompting: self.prompting,
            pending: self.pending@.map_values(|i: PendingIntent| i@),
            next_pending_id: self.next_pending_id,
            reconnect_attempts: self.reconnect_attempts,
            reconnect_gen: self.reconnect_gen,
            conn_gen: self.conn_gen,
            user_disconnect: self.user_disconnect,
            touch_gen: self.touch_gen,
            store_session_id: opt_view(self.store_session_id),
            resync_ticks: self.resync_ticks,
            sync_stamp: stamp_view(self.sync_stamp),
        }
    }
}

/// The value stored under `k`, or the empty string.
pub open spec fn lookup(m: Map<Seq<char>, Seq<char>>, k: Seq<char>) -> Seq<char> {
    if m.dom().contains(k) {
        m[k]
    } else {
        Seq::empty()
    }
}

/// The per-chat reset a fresh open or new chat starts from: the prompt flag
/// drops, the resync cycle stops and pending debounces go stale. Queued
/// intents stay with their sessions.
pub open spec fn chat_reset_v(c: CoreV) -> CoreV {
    CoreV {
        prompting: false,
        resync_ticks: 0,
        sync_stamp: None,
        touch_gen: (c.touch_gen + 1) as u64,
        ..c
    }
}

/// A new connection begins: it supersedes the previous one and any pending
/// reconnect timer, and resets the reconnect budget.
pub open spec fn connect_v(c: CoreV, config: ServerV) -> CoreV {
    CoreV {
        conn_gen: (c.conn_gen + 1) as u64,
        last_config: Some(config),
        user_disconnect: false,
        reconnect_gen: (c.reconnect_gen + 1) as u64,
        reconnect_attempts: 0,
        ..c
    }
}

/// An explicit disconnect.
pub open spec fn disconnect_v(c: CoreV) -> CoreV {
    CoreV {
        user_disconnect: true,
        reconnect_gen: (c.reconnect_gen + 1) as u64,
        prompting: false,
        sync_stamp: None,
        resync_ticks: 0,
        status: StatusV::Disconnected,
        store_session_id: None,
        ..c
    }
}

/// A connection status transition; `bound` is the active session. Returns
/// the next state and the status the listener hears.
pub open spec fn status_v(c: CoreV, s: StatusV, bound: Option<Seq<char>>) -> (CoreV, StatusV) {
    if c.user_disconnect {
        (CoreV { status: StatusV::Disconnected, ..c }, StatusV::Disconnected)
    } else if s is Ready {
        (CoreV {
            status: s,
            reconnect_attempts: 0,
            reconnect_gen: (c.reconnect_gen + 1) as u64,
            store_session_id: if c.store_session_id is None { bound } else { c.store_session_id },
            ..c
        }, s)
    } else {
        (CoreV { status: s, ..c }, s)
    }
}

/// What a connection's end asks of the runtime.
pub enum ConnEnd {
    /// A superseded connection ended: nothing to do.
    Inert,
    /// Unregister the connection; no reconnect is owed.
    Detach,
    /// Unregister the connection and schedule a reconnect that resumes the session.
    Resume { session_id: String },
}

pub enum ConnEndV {
    Inert,
    Detach,
    Resume { session_id: Seq<char> },
}

impl View for ConnEnd {
    type V = ConnEndV;

    open spec fn view(&self) -> ConnEndV {
        match self {
            ConnEnd::Inert => ConnEndV::Inert,
            ConnEnd::Detach => ConnEndV::Detach,
            ConnEnd::Resume { session_id } => ConnEndV::Resume { session_id: session_id@ },
        }
    }
}

pub open spec fn ended_v(c: CoreV, gen: u64, bound: Option<Seq<char>>) -> ConnEndV {
    if c.user_disconnect {
        ConnEndV::Detach
    } else if c.conn_gen != gen {
        ConnEndV::Inert
    } else {
        match bound {
            Some(sid) => ConnEndV::Resume { session_id: sid },
            None => ConnEndV::Detach,
        }
    }
}

/// The next reconnect step.
pub enum ReconnectStep {
    /// An explicit disconnect holds: no reconnect.
    Stop,
    /// The budget is spent: surface this status.
    GiveUp { status: ConnectionStatus },
    /// Wait `delay_ms`, then fire the timer with `gen`.
    Wait { delay_ms: u64, gen: u64 },
}

pub enum ReconnectV {
    Stop,
    GiveUp { status: StatusV },
    Wait { delay_ms: nat, gen: u64 },
}

impl View for ReconnectStep {
    type V = ReconnectV;

    open spec fn view(&self) -> ReconnectV {
        match self {
            ReconnectStep::Stop => ReconnectV::Stop,
            ReconnectStep::GiveUp { status } => ReconnectV::GiveUp { status: status@ },
            ReconnectStep::Wait { delay_ms, gen } => ReconnectV::Wait { delay_ms: *delay_ms as nat, gen: *gen },
        }
    }
}

pub open spec fn give_up_status() -> StatusV {
    StatusV::Error { message: "connection lost; giving up after 6 reconnect attempts"@ }
}

/// Exponential backoff, at most `RECONNECT_LIMIT` attempts.
pub open spec fn schedule_v(c: CoreV) -> (CoreV, ReconnectV) {
    if c.user_disconnect {
        (c, ReconnectV::Stop)
    } else if c.reconnect_attempts >= RECONNECT_LIMIT {
        (CoreV { status: give_up_status(), ..c }, ReconnectV::GiveUp { status: give_up_status() })
    } else {
        let g = (c.reconnect_gen + 1) as u64;
        (CoreV { reconnect_gen: g, ..c }, ReconnectV::Wait { delay_ms: backoff_ms(c.reconnect_attempts as nat), gen: g })
    }
}

/// A reconnect timer fires: only the latest timer of a live (not explicitly
/// disconnected) core counts an attempt and reconnects with the last server.
pub open spec fn timer_v(c: CoreV, gen: u64) -> (CoreV, Option<ServerV>) {
    if c.user_disconnect || c.reconnect_gen != gen {
        (c, None)
    } else {
        (CoreV { reconnect_attempts: (c.reconnect_attempts + 1) as u32, ..c }, c.last_config)
    }
}

/// Whether a cached transcript stamped `cached_at` is current for `sid`.
pub open spec fn fresh_v(c: CoreV, sid: Seq<char>, cached_at: Seq<char>) -> bool {
    cached_at.len() > 0 && lookup(c.session_updated_at, sid).len() > 0 && lookup(c.session_updated_at, sid) == cached_at
}

/// Whether and under which stamp the store may be filed for the bound
/// session: only when the rows belong to it.
pub open spec fn save_v(c: CoreV, bound: Option<Seq<char>>) -> Option<(Seq<char>, Seq<char>)> {
    match bound {
        None => None,
        Some(sid) => if c.store_session_id == Some(sid) {
            Some((sid, lookup(c.session_updated_at, sid)))
        } else {
            None
        },
    }
}

/// What a `session_info_update` asks for.
pub enum TouchStep {
    /// The active chat moved: debounce a resync under this generation.
    Debounce { gen: u64 },
    /// Another session moved: refresh the session list.
    Relist,
}

pub open spec fn touch_state_v(c: CoreV, sid: Seq<char>, updated_at: Seq<char>, bound: Option<Seq<char>>) -> CoreV {
    let c1 = if updated_at.len() > 0 {
        CoreV { session_updated_at: c.session_updated_at.insert(sid, updated_at), ..c }
    } else {
        c
    };
    if bound == Some(sid) {
        CoreV { touch_gen: (c.touch_gen + 1) as u64, ..c1 }
    } else {
        c1
    }
}

pub open spec fn debounced_v(c: CoreV, gen: u64, sid: Seq<char>, bound: Option<Seq<char>>) -> (CoreV, bool) {
    if c.touch_gen != gen || c.prompting || bound != Some(sid) {
        (c, false)
    } else {
        (CoreV { resync_ticks: RESYNC_TICKS, ..c }, true)
    }
}

/// What a `session/info` probe of the active chat asks for.
pub enum ProbeStep {
    Ignore,
    /// Replay the session in place; `follow_up` re-probes later.
    Resync { follow_up: bool },
}

pub enum ProbeV {
    Ignore,
    Resync { follow_up: bool },
}

impl View for ProbeStep {
    type V = ProbeV;

    open spec fn view(&self) -> ProbeV {
        match self {
            ProbeStep::Ignore => ProbeV::Ignore,
            ProbeStep::Resync { follow_up } => ProbeV::Resync { follow_up: *follow_up },
        }
    }
}

pub open spec fn probe_v(c: CoreV, sid: Seq<char>, bound: Option<Seq<char>>, probe: Option<(Seq<char>, i64)>) -> (CoreV, ProbeV) {
    if bound != Some(sid) {
        (c, ProbeV::Ignore)
    } else {
        match probe {
            None => (c, ProbeV::Ignore),
            Some(p) => if p.0.len() == 0 || p.1 < 0 {
                (c, ProbeV::Ignore)
            } else if c.sync_stamp == Some(p) {
                (c, ProbeV::Ignore)
            } else {
                let ticks = if c.resync_ticks > 0 { (c.resync_ticks - 1) as i32 } else { c.resync_ticks };
                (CoreV { sync_stamp: Some(p), resync_ticks: ticks, ..c }, ProbeV::Resync { follow_up: ticks > 0 })
            },
        }
    }
}

/// A `session/info` probe after the core's own change: the stamp the cache
/// and the next resync comparison go by.
pub open spec fn stamp_v(c: CoreV, sid: Seq<char>, probe: Option<(Seq<char>, i64)>) -> CoreV {
    match probe {
        None => c,
        Some(p) => {
            let c1 = if p.0.len() > 0 {
                CoreV { session_updated_at: c.session_updated_at.insert(sid, p.0), ..c }
            } else {
                c
            };
            if p.0.len() > 0 && p.1 >= 0 {
                CoreV { sync_stamp: Some(p), ..c1 }
            } else {
                c1
            }
        },
    }
}

/// The initial state: disconnected, nothing known, nothing queued.
pub open spec fn initial_v() -> CoreV {
    CoreV {
        status: StatusV::Disconnected,
        sessions: Seq::empty(),
        session_cwds: Map::empty(),
        session_updated_at: Map::empty(),
        config: Seq::empty(),
        last_config: None,
        prompting: false,
        pending: Seq::empty(),
        next_pending_id: 0,
        reconnect_attempts: 0,
        reconnect_gen: 0,
        conn_gen: 0,
        user_disconnect: false,
        touch_gen: 0,
        store_session_id: None,
        resync_ticks: 0,
        sync_stamp: None,
    }
}

impl CoreState {
    pub fn new() -> (c: Self)
        ensures
            c@ == initial_v(),
    {
        let c = CoreState {
            status: ConnectionStatus::Disconnected,
            sessions: Vec::new(),
            session_cwds: StrTable::new(),
            session_updated_at: StrTable::new(),
            config: Vec::new(),
            last_config: None,
            prompting: false,
            pending: Vec::new(),
            next_pending_id: 0,
            reconnect_attempts: 0,
            reconnect_gen: 0,
            conn_gen: 0,
            user_disconnect: false,
            touch_gen: 0,
            store_session_id: None,
            resync_ticks: 0,
            sync_stamp: None,
        };
        assert(c@.pending =~= Seq::<IntentV>::empty());
        assert(c@.sessions =~= Seq::<SummaryV>::empty());
        assert(c@.config =~= Seq::<ConfigV>::empty());
        c
    }

    /// The last surfaced connection status.
    pub fn status(&self) -> (s: ConnectionStatus)
        ensures
            s@ == self@.status,
    {
        self.status.duplicate()
    }

    /// The last session list.
    pub fn sessions(&self) -> (v: Vec<SessionSummary>)
        ensures
            v.deep_view() == self@.sessions,
    {
        copy_sessions(&self.sessions)
    }

    /// The merged config options.
    pub fn config(&self) -> (v: Vec<ConfigOption>)
        ensures
            v.deep_view() == self@.config,
    {
        copy_config(&self.config)
    }

    /// The server the connection uses.
    pub fn last_config(&self) -> (c: Option<ServerConfig>)
        ensures
            server_opt(c) == self@.last_config,
    {
        match &self.last_config {
            Some(c) => Some(c.duplicate()),
            None => None,
        }
    }

    /// A turn is in flight on the main connection.
    pub fn prompting(&self) -> (b: bool)
        ensures
            b == self@.prompting,
    {
        self.prompting
    }

    /// The number of queued intents.
    pub fn pending_len(&self) -> (n: usize)
        ensures
            n == self@.pending.len(),
    {
        self.pending.len()
    }

    /// The session the store's rows belong to.
    pub fn store_session_id(&self) -> (r: Option<String>)
        ensures
            opt_view(r) == self@.store_session_id,
    {
        copy_opt(&self.store_session_id)
    }

    /// Records which session the store's rows belong to.
    pub fn set_store_session(&mut self, session_id: Option<String>)
        ensures
            final(self)@ == (CoreV { store_session_id: opt_view(session_id), ..old(self)@ }),
    {
        self.store_session_id = session_id;
    }

    /// The id the next queued prompt gets.
    pub fn next_pending_id(&self) -> (n: u64)
        ensures
            n == self@.next_pending_id,
    {
        self.next_pending_id
    }

    /// The reconnect timer generation.
    pub fn reconnect_gen(&self) -> (g: u64)
        ensures
            g == self@.reconnect_gen,
    {
        self.reconnect_gen
    }

    /// The connection generation.
    pub fn conn_gen(&self) -> (g: u64)
        ensures
            g == self@.conn_gen,
    {
        self.conn_gen
    }

    /// Reconnect attempts since the last Ready.
    pub fn reconnect_attempts(&self) -> (n: u32)
        ensures
            n == self@.reconnect_attempts,
    {
        self.reconnect_attempts
    }

    /// The debounce generation.
    pub fn touch_gen(&self) -> (g: u64)
        ensures
            g == self@.touch_gen,
    {
        self.touch_gen
    }

    /// Follow-up probes left in the resync cycle.
    pub fn resync_ticks(&self) -> (n: i32)
        ensures
            n == self@.resync_ticks,
    {
        self.resync_ticks
    }

    /// Seeds the cwd and `updatedAt` tables from the cached directory, so a
    /// cold start resolves cwds and judges freshness before any list reply.
    pub fn seed_directory(&mut self, sessions: &Vec<SessionSummary>, cwds: &Vec<(String, String)>)
        ensures
            final(self)@ == (CoreV {
                session_cwds: insert_all(old(self)@.session_cwds, cwds@.map_values(|p: (String, String)| (p.0@, p.1@))),
                session_updated_at: insert_all(old(self)@.session_updated_at, dated(sessions.deep_view())),
                ..old(self)@
            }),
    {
        self.session_cwds.insert_all(cwds);
        let ghost pre = self@;
        let ghost m0 = self.session_updated_at@;
        for i in 0..sessions.len()
            invariant
                self.session_updated_at@ == insert_all(m0, dated(sessions.deep_view().take(i as int))),
                self@ == (CoreV { session_updated_at: self.session_updated_at@, ..pre }),
        {
            let s = &sessions[i];
            let ghost before = sessions.deep_view().take(i as int);
            assert(sessions.deep_view().take(i + 1) =~= before.push(s@));
            proof { lemma_dated_push(before, s@); }
            if s.updated_at.unicode_len() > 0 {
                self.session_updated_at.insert(s.id.as_str(), s.updated_at.as_str());
                assert(dated(before).push((s@.id, s@.updated_at)).drop_last() =~= dated(before));
            }
        }
        assert(sessions.deep_view().take(sessions.len() as int) =~= sessions.deep_view());
    }

    /// The per-chat reset (see `chat_reset_v`).
    pub fn reset_chat_state(&mut self)
        requires
            old(self)@.touch_gen < u64::MAX,
        ensures
            final(self)@ == chat_reset_v(old(self)@),
    {
        self.prompting = false;
        self.resync_ticks = 0;
        self.sync_stamp = None;
        self.touch_gen = self.touch_gen + 1;
    }

    /// Whether a cached transcript stamped `cached_at` is current for the
    /// session: both stamps known and equal.
    pub fn transcript_is_fresh(&self, session_id: &str, cached_at: &str) -> (b: bool)
        ensures
            b == fresh_v(self@, session_id@, cached_at@),
    {
        if cached_at.unicode_len() == 0 {
            return false;
        }
        match self.session_updated_at.get(session_id) {
            Some(updated) => updated.unicode_len() > 0 && str_eq(updated.as_str(), cached_at),
            None => false,
        }
    }

    /// A new connection begins; returns its generation.
    pub fn connect_begin(&mut self, config: ServerConfig) -> (gen: u64)
        requires
            old(self)@.conn_gen < u64::MAX,
            old(self)@.reconnect_gen < u64::MAX,
        ensures
            final(self)@ == connect_v(old(self)@, config@),
            gen == final(self)@.conn_gen,
    {
        self.conn_gen = self.conn_gen + 1;
        self.last_config = Some(config);
        self.user_disconnect = false;
        self.reconnect_gen = self.reconnect_gen + 1;
        self.reconnect_attempts = 0;
        self.conn_gen
    }

    /// An explicit disconnect: no reconnect follows and later statuses
    /// surface as Disconnected until the next connect.
    pub fn disconnect(&mut self)
        requires
            old(self)@.reconnect_gen < u64::MAX,
        ensures
            final(self)@ == disconnect_v(old(self)@),
    {
        self.user_disconnect = true;
        self.reconnect_gen = self.reconnect_gen + 1;
        self.prompting = false;
        self.sync_stamp = None;
        self.resync_ticks = 0;
        self.status = ConnectionStatus::Disconnected;
        self.store_session_id = None;
    }

    /// A connection status transition; `bound` is the active session.
    /// Returns the status to surface. On a surfaced Ready the runtime saves
    /// the cache, flushes the queue and re-stamps.
    pub fn on_conn_status(&mut self, status: ConnectionStatus, bound: Option<String>) -> (emit: ConnectionStatus)
        requires
            old(self)@.reconnect_gen < u64::MAX,
        ensures
            final(self)@ == status_v(old(self)@, status@, opt_view(bound)).0,
            emit@ == status_v(old(self)@, status@, opt_view(bound)).1,
    {
        if self.user_disconnect {
            self.status = ConnectionStatus::Disconnected;
            return ConnectionStatus::Disconnected;
        }
        let ready = match &status {
            ConnectionStatus::Ready => true,
            _ => false,
        };
        let emit = status.duplicate();
        self.status = status;
        if ready {
            self.reconnect_attempts = 0;
            self.reconnect_gen = self.reconnect_gen + 1;
            if self.store_session_id.is_none() {
                self.store_session_id = bound;
            }
        }
        emit
    }

    /// A status the core itself decides (resync, give-up): recorded as is.
    pub fn set_status(&mut self, status: ConnectionStatus)
        ensures
            final(self)@ == (CoreV { status: status@, ..old(self)@ }),
    {
        self.status = status;
    }

    /// A connection of generation `gen` ended while `bound` was its session.
    pub fn on_connection_ended(&self, gen: u64, bound: Option<String>) -> (r: ConnEnd)
        ensures
            r@ == ended_v(self@, gen, opt_view(bound)),
    {
        if self.user_disconnect {
            ConnEnd::Detach
        } else if self.conn_gen != gen {
            ConnEnd::Inert
        } else {
            match bound {
                Some(session_id) => ConnEnd::Resume { session_id },
                None => ConnEnd::Detach,
            }
        }
    }

    /// Schedules the next reconnect attempt, or gives up.
    pub fn schedule_reconnect(&mut self) -> (r: ReconnectStep)
        requires
            old(self)@.reconnect_gen < u64::MAX,
        ensures
            final(self)@ == schedule_v(old(self)@).0,
            r@ == schedule_v(old(self)@).1,
    {
        if self.user_disconnect {
            return ReconnectStep::Stop;
        }
        if self.reconnect_attempts >= RECONNECT_LIMIT {
            let message = owned("connection lost; giving up after 6 reconnect attempts");
            proof { reveal_strlit("connection lost; giving up after 6 reconnect attempts"); }
            self.status = ConnectionStatus::Error { message: message.clone() };
            return ReconnectStep::GiveUp { status: ConnectionStatus::Error { message } };
        }
        let delay_ms = reconnect_delay_ms(self.reconnect_attempts);
        self.reconnect_gen = self.reconnect_gen + 1;
        ReconnectStep::Wait { delay_ms, gen: self.reconnect_gen }
    }

    /// A reconnect timer of generation `gen` fired: the server to reconnect
    /// to, or `None` when the timer is stale or the user disconnected.
    pub fn on_reconnect_timer(&mut self, gen: u64) -> (r: Option<ServerConfig>)
        requires
            old(self)@.reconnect_attempts < u32::MAX,
        ensures
            final(self)@ == timer_v(old(self)@, gen).0,
            server_opt(r) == timer_v(old(self)@, gen).1,
    {
        if self.user_disconnect || self.reconnect_gen != gen {
            return None;
        }
        self.reconnect_attempts = self.reconnect_attempts + 1;
        self.last_config()
    }

    /// Which session the store may be filed under, with its `updatedAt`
    /// stamp: only when the store's rows belong to the bound session.
    pub fn save_target(&self, bound: Option<String>) -> (r: Option<(String, String)>)
        ensures
            match r {
                Some(p) => save_v(self@, opt_view(bound)) == Some((p.0@, p.1@)),
                None => save_v(self@, opt_view(bound)) is None,
            },
    {
        let sid = match bound {
            Some(sid) => sid,
            None => return None,
        };
        let owns = match &self.store_session_id {
            Some(owner) => str_eq(owner.as_str(), sid.as_str()),
            None => false,
        };
        if !owns {
            return None;
        }
        let updated = match self.session_updated_at.get(sid.as_str()) {
            Some(u) => u,
            None => String::new(),
        };
        Some((sid, updated))
    }

    /// A `session/list` reply: the list, and its cwd and `updatedAt` tables.
    pub fn on_sessions_reply(&mut self, sessions: Vec<SessionSummary>, cwds: &Vec<(String, String)>, updated: &Vec<(String, String)>)
        ensures
            final(self)@ == (CoreV {
                sessions: sessions.deep_view(),
                session_cwds: insert_all(old(self)@.session_cwds, cwds@.map_values(|p: (String, String)| (p.0@, p.1@))),
                session_updated_at: insert_all(old(self)@.session_updated_at, updated@.map_values(|p: (String, String)| (p.0@, p.1@))),
                ..old(self)@
            }),
    {
        self.sessions = sessions;
        self.session_cwds.insert_all(cwds);
        self.session_updated_at.insert_all(updated);
    }

    /// The session's known cwd, when one is known and non-empty.
    pub fn known_cwd(&self, session_id: &str) -> (r: Option<String>)
        ensures
            match r {
                Some(c) => lookup(self@.session_cwds, session_id@).len() > 0 && c@ == lookup(self@.session_cwds, session_id@),
                None => lookup(self@.session_cwds, session_id@).len() == 0,
            },
    {
        match self.session_cwds.get(session_id) {
            Some(c) => if c.unicode_len() > 0 { Some(c) } else { None },
            None => None,
        }
    }

    /// Ends a cwd resolution that found nothing known: a non-empty probed
    /// cwd is recorded and used, otherwise the server's working directory.
    pub fn settle_cwd(&mut self, session_id: &str, probed: Option<String>) -> (cwd: String)
        ensures
            match probed {
                Some(p) => if p@.len() > 0 {
                    &&& final(self)@ == (CoreV { session_cwds: old(self)@.session_cwds.insert(session_id@, p@), ..old(self)@ })
                    &&& cwd@ == p@
                } else {
                    &&& final(self)@ == old(self)@
                    &&& cwd@ == fallback_cwd(old(self)@)
                },
                None => {
                    &&& final(self)@ == old(self)@
                    &&& cwd@ == fallback_cwd(old(self)@)
                },
            },
    {
        if let Some(p) = probed {
            if p.unicode_len() > 0 {
                self.session_cwds.insert(session_id, p.as_str());
                return p;
            }
        }
        self.working_dir()
    }

    /// The server's working directory, or empty before any connect.
    pub fn working_dir(&self) -> (cwd: String)
        ensures
            cwd@ == fallback_cwd(self@),
    {
        match &self.last_config {
            Some(c) => c.cwd.clone(),
            None => String::new(),
        }
    }

    /// A `session_info_update` for `session_id`; `bound` is the active session.
    pub fn on_session_touched(&mut self, session_id: &str, updated_at: &str, bound: Option<String>) -> (r: TouchStep)
        requires
            old(self)@.touch_gen < u64::MAX,
        ensures
            final(self)@ == touch_state_v(old(self)@, session_id@, updated_at@, opt_view(bound)),
            match r {
                TouchStep::Debounce { gen } => opt_view(bound) == Some(session_id@) && gen == final(self)@.touch_gen,
                TouchStep::Relist => opt_view(bound) != Some(session_id@),
            },
    {
        if updated_at.unicode_len() > 0 {
            self.session_updated_at.insert(session_id, updated_at);
        }
        let active = match &bound {
            Some(b) => str_eq(b.as_str(), session_id),
            None => false,
        };
        if active {
            self.touch_gen = self.touch_gen + 1;
            TouchStep::Debounce { gen: self.touch_gen }
        } else {
            TouchStep::Relist
        }
    }

    /// A debounce of generation `gen` elapsed: whether to start a resync
    /// cycle (probe now).
    pub fn on_touch_debounced(&mut self, gen: u64, session_id: &str, bound: Option<String>) -> (probe: bool)
        ensures
            final(self)@ == debounced_v(old(self)@, gen, session_id@, opt_view(bound)).0,
            probe == debounced_v(old(self)@, gen, session_id@, opt_view(bound)).1,
    {
        if self.touch_gen != gen || self.prompting {
            return false;
        }
        let active = match &bound {
            Some(b) => str_eq(b.as_str(), session_id),
            None => false,
        };
        if !active {
            return false;
        }
        self.resync_ticks = RESYNC_TICKS;
        true
    }

    /// A resync probe's answer `(updatedAt, messageCount)` for `session_id`.
    pub fn on_session_probe(&mut self, session_id: &str, bound: Option<String>, probe: Option<(String, i64)>) -> (r: ProbeStep)
        ensures
            final(self)@ == probe_v(old(self)@, session_id@, opt_view(bound), stamp_view(probe)).0,
            r@ == probe_v(old(self)@, session_id@, opt_view(bound), stamp_view(probe)).1,
    {
        let active = match &bound {
            Some(b) => str_eq(b.as_str(), session_id),
            None => false,
        };
        if !active {
            return ProbeStep::Ignore;
        }
        let (updated_at, count) = match probe {
            Some(p) => p,
            None => return ProbeStep::Ignore,
        };
        if updated_at.unicode_len() == 0 || count < 0 {
            return ProbeStep::Ignore;
        }
        let unmoved = match &self.sync_stamp {
            Some(stamp) => str_eq(stamp.0.as_str(), updated_at.as_str()) && stamp.1 == count,
            None => false,
        };
        if unmoved {
            return ProbeStep::Ignore;
        }
        self.sync_stamp = Some((updated_at, count));
        if self.resync_ticks > 0 {
            self.resync_ticks = self.resync_ticks - 1;
        }
        ProbeStep::Resync { follow_up: self.resync_ticks > 0 }
    }

    /// Records the probe taken after the core's own change.
    pub fn record_stamp(&mut self, session_id: &str, probe: Option<(String, i64)>)
        ensures
            final(self)@ == stamp_v(old(self)@, session_id@, stamp_view(probe)),
    {
        if let Some((updated_at, count)) = probe {
            if updated_at.unicode_len() > 0 {
                self.session_updated_at.insert(session_id, updated_at.as_str());
                if count >= 0 {
                    self.sync_stamp = Some((updated_at, count));
                }
            }
        }
    }
}

/// The server's working directory in a state, or empty.
pub open spec fn fallback_cwd(c: CoreV) -> Seq<char> {
    match c.last_config {
        Some(cfg) => cfg.cwd,
        None => Seq::empty(),
    }
}

/// The `(id, updatedAt)` pairs of the sessions that carry a stamp.
pub open spec fn dated(s: Seq<SummaryV>) -> Seq<(Seq<char>, Seq<char>)>
    decreases s.len(),
{
    if s.len() == 0 {
        Seq::empty()
    } else if s.last().updated_at.len() > 0 {
        dated(s.drop_last()).push((s.last().id, s.last().updated_at))
    } else {
        dated(s.drop_last())
    }
}

pub proof fn lemma_dated_push(s: Seq<SummaryV>, x: SummaryV)
    ensures
        dated(s.push(x)) == (if x.updated_at.len() > 0 { dated(s).push((x.id, x.updated_at)) } else { dated(s) }),
{
    assert(s.push(x).drop_last() =~= s);
}

// ---------------------------------------------------------------------------
// The pending queue
// ---------------------------------------------------------------------------

/// The first queued intent waiting in queue `k`.
pub open spec fn first_keyed(p: Seq<IntentV>, k: Seq<char>) -> Option<int>
    decreases p.len(),
{
    if p.len() == 0 {
        None
    } else if intent_key(p[0]) == k {
        Some(0)
    } else {
        match first_keyed(p.skip(1), k) {
            Some(i) => Some(i + 1),
            None => None,
        }
    }
}

pub proof fn lemma_first_keyed(p: Seq<IntentV>, k: Seq<char>, i: int)
    requires
        0 <= i <= p.len(),
        forall|j: int| 0 <= j < i ==> intent_key(#[trigger] p[j]) != k,
        i == p.len() || intent_key(p[i]) == k,
    ensures
        first_keyed(p, k) == (if i == p.len() { None } else { Some(i) }),
    decreases p.len(),
{
    if p.len() > 0 && i > 0 {
        assert forall|j: int| 0 <= j < i - 1 implies intent_key(#[trigger] p.skip(1)[j]) != k by {
            assert(p.skip(1)[j] == p[j + 1]);
        }
        if i < p.len() {
            assert(p.skip(1)[i - 1] == p[i]);
        }
        lemma_first_keyed(p.skip(1), k, i - 1);
        assert(intent_key(p[0]) != k);
    }
}

/// The intent a flush looks at next: the oldest global one, else the oldest
/// of the active chat.
pub open spec fn next_v(p: Seq<IntentV>, active: Seq<char>) -> Option<int> {
    match first_keyed(p, Seq::empty()) {
        Some(i) => Some(i),
        None => first_keyed(p, active),
    }
}

/// Draining the queue once a session is bound: global intents first, then
/// the active chat's, oldest first; a turn in flight stops the drain, a
/// rejected prompt is dropped, and an intent that cannot go out yet stays
/// where it is. Returns the queue left, the prompt flag, and the requests.
pub open spec fn flush_v(p: Seq<IntentV>, prompting: bool, active: Seq<char>, bound: Option<Seq<char>>) -> (Seq<IntentV>, bool, Seq<DispatchV>)
    decreases p.len(),
{
    if prompting {
        (p, true, Seq::empty())
    } else {
        match next_v(p, active) {
            None => (p, false, Seq::empty()),
            Some(i) => if 0 <= i < p.len() {
                match route_v(p[i], bound) {
                    RouteV::Queue => (p, false, Seq::empty()),
                    RouteV::Reject => flush_v(p.remove(i), false, active, bound),
                    RouteV::Send { session_id } => {
                        let r = flush_v(p.remove(i), p[i] is SendPrompt, active, bound);
                        (r.0, r.1, seq![dispatch_of(p[i], session_id)] + r.2)
                    },
                }
            } else {
                (p, false, Seq::empty())
            },
        }
    }
}

/// A new prompt: sent now when a session is bound, queued otherwise.
pub open spec fn submit_prompt_v(c: CoreV, prompt: Prompt, expect: Option<SendExpect>, bound: Option<Seq<char>>) -> (CoreV, Option<DispatchV>) {
    let i = IntentV::SendPrompt { prompt, expect, id: decimal(c.next_pending_id as nat) };
    match route_v(i, bound) {
        RouteV::Queue => (CoreV { pending: c.pending.push(i), next_pending_id: (c.next_pending_id + 1) as u64, ..c }, None),
        RouteV::Reject => (c, None),
        RouteV::Send { session_id } => (CoreV { prompting: true, ..c }, Some(dispatch_of(i, session_id))),
    }
}

/// A config change: sent now when a session is bound, queued otherwise.
pub open spec fn submit_config_v(c: CoreV, config_id: Seq<char>, value: Seq<char>, bound: Option<Seq<char>>) -> (CoreV, Option<DispatchV>) {
    let i = IntentV::SetConfig { config_id, value };
    match route_v(i, bound) {
        RouteV::Send { session_id } => (c, Some(dispatch_of(i, session_id))),
        _ => (CoreV { pending: c.pending.push(i), ..c }, None),
    }
}

pub open spec fn dispatches(v: Seq<Dispatch>) -> Seq<DispatchV> {
    v.map_values(|d: Dispatch| d@)
}

/// The routing rule for one intent.
fn route(intent: &PendingIntent, bound: &Option<String>) -> (r: Route)
    ensures
        r@ == route_v(intent@, opt_view(*bound)),
{
    let sid = match bound {
        Some(sid) => sid,
        None => return Route::Queue,
    };
    match intent {
        PendingIntent::SendPrompt { expect, .. } => match expect {
            Some(e) => if !str_eq(e.session_id.as_str(), sid.as_str()) {
                Route::Reject
            } else {
                Route::Send { session_id: sid.clone() }
            },
            None => Route::Send { session_id: sid.clone() },
        },
        PendingIntent::SetConfig { .. } => Route::Send { session_id: sid.clone() },
    }
}

/// Whether an intent waits in queue `k`.
fn keyed(intent: &PendingIntent, k: &str) -> (b: bool)
    ensures
        b == (intent_key(intent@) == k@),
{
    match intent {
        PendingIntent::SendPrompt { expect, .. } => match expect {
            Some(e) => str_eq(e.session_id.as_str(), k),
            None => {
                assert(k@.len() == 0 ==> k@ =~= Seq::<char>::empty());
                k.unicode_len() == 0
            },
        },
        PendingIntent::SetConfig { .. } => {
            assert(k@.len() == 0 ==> k@ =~= Seq::<char>::empty());
            k.unicode_len() == 0
        },
    }
}

impl CoreState {
    closed spec fn pending_view(self) -> Seq<IntentV> {
        self.pending@.map_values(|i: PendingIntent| i@)
    }

    /// The oldest intent waiting in queue `k`.
    fn find_keyed(&self, k: &str) -> (r: Option<usize>)
        ensures
            match r {
                Some(i) => i < self@.pending.len() && i < self.pending@.len() && first_keyed(self@.pending, k@) == Some(i as int),
                None => first_keyed(self@.pending, k@) is None,
            },
    {
        let n = self.pending.len();
        let mut i: usize = 0;
        while i < n
            invariant
                n == self.pending@.len(),
                self@.pending == self.pending_view(),
                i <= n,
                forall|j: int| 0 <= j < i ==> intent_key(#[trigger] self@.pending[j]) != k@,
            decreases n - i,
        {
            if keyed(&self.pending[i], k) {
                proof { lemma_first_keyed(self@.pending, k@, i as int); }
                return Some(i);
            }
            i = i + 1;
        }
        proof { lemma_first_keyed(self@.pending, k@, n as int); }
        None
    }

    /// A new prompt (see `submit_prompt_v`); `bound` is the connection's
    /// session.
    pub fn submit_prompt(&mut self, prompt: Prompt, expect: Option<SendExpect>, bound: Option<String>) -> (r: Option<Dispatch>)
        requires
            old(self)@.next_pending_id < u64::MAX,
        ensures
            final(self)@ == submit_prompt_v(old(self)@, prompt, expect, opt_view(bound)).0,
            match r {
                Some(d) => submit_prompt_v(old(self)@, prompt, expect, opt_view(bound)).1 == Some(d@),
                None => submit_prompt_v(old(self)@, prompt, expect, opt_view(bound)).1 is None,
            },
    {
        let ghost c0 = self@;
        let mut id = String::new();
        push_decimal(&mut id, self.next_pending_id);
        assert(id@ =~= decimal(self.next_pending_id as nat));
        let intent = PendingIntent::SendPrompt { prompt, expect, id };
        match route(&intent, &bound) {
            Route::Queue => {
                let ghost p0 = self.pending_view();
                self.pending.push(intent);
                self.next_pending_id = self.next_pending_id + 1;
                assert(self.pending_view() =~= p0.push(intent@));
                None
            },
            Route::Reject => None,
            Route::Send { session_id } => {
                self.prompting = true;
                match intent {
                    PendingIntent::SendPrompt { prompt, .. } => Some(Dispatch::Prompt { session_id, prompt }),
                    PendingIntent::SetConfig { .. } => None,
                }
            },
        }
    }

    /// A config change (see `submit_config_v`).
    pub fn submit_config(&mut self, config_id: String, value: String, bound: Option<String>) -> (r: Option<Dispatch>)
        ensures
            final(self)@ == submit_config_v(old(self)@, config_id@, value@, opt_view(bound)).0,
            match r {
                Some(d) => submit_config_v(old(self)@, config_id@, value@, opt_view(bound)).1 == Some(d@),
                None => submit_config_v(old(self)@, config_id@, value@, opt_view(bound)).1 is None,
            },
    {
        match bound {
            Some(session_id) => Some(Dispatch::Config { session_id, config_id, value }),
            None => {
                let ghost p0 = self.pending_view();
                let intent = PendingIntent::SetConfig { config_id, value };
                self.pending.push(intent);
                assert(self.pending_view() =~= p0.push(intent@));
                None
            },
        }
    }

    /// The runtime finished a turn: the queue may drain again.
    pub fn end_prompt(&mut self)
        ensures
            final(self)@ == (CoreV { prompting: false, ..old(self)@ }),
    {
        self.prompting = false;
    }

    /// Drains the queue (see `flush_v`); `active` is the active chat's
    /// session (empty when none) and `bound` the connection's.
    pub fn flush_pending(&mut self, active: &str, bound: Option<String>) -> (out: Vec<Dispatch>)
        ensures
            final(self)@ == (CoreV {
                pending: flush_v(old(self)@.pending, old(self)@.prompting, active@, opt_view(bound)).0,
                prompting: flush_v(old(self)@.pending, old(self)@.prompting, active@, opt_view(bound)).1,
                ..old(self)@
            }),
            dispatches(out@) == flush_v(old(self)@.pending, old(self)@.prompting, active@, opt_view(bound)).2,
    {
        let ghost c0 = self@;
        let ghost goal = flush_v(c0.pending, c0.prompting, active@, opt_view(bound));
        let mut out: Vec<Dispatch> = Vec::new();
        assert(dispatches(out@) =~= Seq::<DispatchV>::empty());
        loop
            invariant
                self@ == (CoreV { pending: self@.pending, prompting: self@.prompting, ..c0 }),
                self@.pending == self.pending_view(),
                goal.0 == flush_v(self@.pending, self@.prompting, active@, opt_view(bound)).0,
                goal.1 == flush_v(self@.pending, self@.prompting, active@, opt_view(bound)).1,
                goal.2 == dispatches(out@) + flush_v(self@.pending, self@.prompting, active@, opt_view(bound)).2,
            ensures
                flush_v(self@.pending, self@.prompting, active@, opt_view(bound)) == (self@.pending, self@.prompting, Seq::<DispatchV>::empty()),
            decreases self.pending@.len(),
        {
            if self.prompting {
                break;
            }
            let found = match self.find_keyed("") {
                Some(i) => Some(i),
                None => self.find_keyed(active),
            };
            proof { reveal_strlit(""); assert(""@ =~= Seq::<char>::empty()); }
            let i = match found {
                Some(i) => i,
                None => break,
            };
            let ghost p = self@.pending;
            let r = route(&self.pending[i], &bound);
            match r {
                Route::Queue => break,
                Route::Reject => {
                    self.pending.remove(i);
                    assert(self.pending_view() =~= p.remove(i as int));
                },
                Route::Send { session_id } => {
                    let intent = self.pending.remove(i);
                    assert(self.pending_view() =~= p.remove(i as int));
                    let ghost o0 = dispatches(out@);
                    let d = match intent {
                        PendingIntent::SendPrompt { prompt, .. } => {
                            self.prompting = true;
                            Dispatch::Prompt { session_id, prompt }
                        },
                        PendingIntent::SetConfig { config_id, value } => Dispatch::Config { session_id, config_id, value },
                    };
                    out.push(d);
                    assert(dispatches(out@) =~= o0.push(d@));
                    assert(o0.push(d@) + flush_v(self@.pending, self@.prompting, active@, opt_view(bound)).2
                        =~= o0 + (seq![d@] + flush_v(self@.pending, self@.prompting, active@, opt_view(bound)).2));
                },
            }
        }
        out
    }
}

// ---------------------------------------------------------------------------
// Config replies
// ---------------------------------------------------------------------------

/// The first option with this id.
pub open spec fn first_option(c: Seq<ConfigV>, id: Seq<char>) -> Option<int>
    decreases c.len(),
{
    if c.len() == 0 {
        None
    } else if c[0].id == id {
        Some(0)
    } else {
        match first_option(c.skip(1), id) {
            Some(i) => Some(i + 1),
            None => None,
        }
    }
}

pub proof fn lemma_first_option(c: Seq<ConfigV>, id: Seq<char>, i: int)
    requires
        0 <= i <= c.len(),
        forall|j: int| 0 <= j < i ==> (#[trigger] c[j]).id != id,
        i == c.len() || c[i].id == id,
    ensures
        first_option(c, id) == (if i == c.len() { None } else { Some(i) }),
    decreases c.len(),
{
    if c.len() > 0 && i > 0 {
        assert forall|j: int| 0 <= j < i - 1 implies (#[trigger] c.skip(1)[j]).id != id by {
            assert(c.skip(1)[j] == c[j + 1]);
        }
        if i < c.len() {
            assert(c.skip(1)[i - 1] == c[i]);
        }
        lemma_first_option(c.skip(1), id, i - 1);
    }
}

/// One incoming option merged in: a known id takes the new value, and the
/// new name and choices only where they are non-empty; an unknown id is
/// appended.
pub open spec fn merge_one(c: Seq<ConfigV>, o: ConfigV) -> Seq<ConfigV> {
    match first_option(c, o.id) {
        Some(j) => c.update(j, ConfigV {
            id: c[j].id,
            value: o.value,
            name: if o.name.len() > 0 { o.name } else { c[j].name },
            choices: if o.choices.len() > 0 { o.choices } else { c[j].choices },
        }),
        None => c.push(o),
    }
}

/// A reply's options merged in, in order.
pub open spec fn merge_v(c: Seq<ConfigV>, incoming: Seq<ConfigV>) -> Seq<ConfigV>
    decreases incoming.len(),
{
    if incoming.len() == 0 {
        c
    } else {
        merge_one(merge_v(c, incoming.drop_last()), incoming.last())
    }
}

impl CoreState {
    fn find_option(&self, id: &str) -> (r: Option<usize>)
        ensures
            match r {
                Some(i) => i < self@.config.len() && i < self.config@.len() && first_option(self@.config, id@) == Some(i as int),
                None => first_option(self@.config, id@) is None,
            },
    {
        let n = self.config.len();
        let mut i: usize = 0;
        while i < n
            invariant
                n == self@.config.len(),
                self@.config == self.config.deep_view(),
                i <= n,
                forall|j: int| 0 <= j < i ==> (#[trigger] self@.config[j]).id != id@,
            decreases n - i,
        {
            if str_eq(self.config[i].id.as_str(), id) {
                proof { lemma_first_option(self@.config, id@, i as int); }
                return Some(i);
            }
            i = i + 1;
        }
        proof { lemma_first_option(self@.config, id@, n as int); }
        None
    }

    fn merge_option(&mut self, option: ConfigOption)
        ensures
            final(self)@ == (CoreV { config: merge_one(old(self)@.config, option@), ..old(self)@ }),
    {
        let ghost c0 = self@.config;
        match self.find_option(option.id.as_str()) {
            Some(j) => {
                let mut config: Vec<ConfigOption> = Vec::new();
                std::mem::swap(&mut config, &mut self.config);
                let old_entry = config.remove(j);
                let name = if option.name.unicode_len() > 0 { option.name } else { old_entry.name };
                let choices = if option.choices.len() > 0 { option.choices } else { old_entry.choices };
                let merged = ConfigOption { id: old_entry.id, value: option.value, name, choices };
                config.insert(j, merged);
                assert(config.deep_view() =~= c0.update(j as int, merged@));
                self.config = config;
            },
            None => {
                self.config.push(option);
                assert(self.config.deep_view() =~= c0.push(option@));
            },
        }
    }

    /// A config reply or update (see `merge_v`). An empty reply keeps the
    /// last full list and emits nothing; otherwise the merged list is the
    /// snapshot to emit.
    pub fn on_config_reply(&mut self, options: Vec<ConfigOption>) -> (r: Option<Vec<ConfigOption>>)
        ensures
            options@.len() == 0 ==> final(self)@ == old(self)@ && r is None,
            options@.len() > 0 ==> {
                &&& final(self)@ == (CoreV { config: merge_v(old(self)@.config, options.deep_view()), ..old(self)@ })
                &&& r is Some
                &&& r.unwrap().deep_view() == final(self)@.config
            },
    {
        if options.len() == 0 {
            return None;
        }
        let ghost c0 = self@;
        let ghost inc = options.deep_view();
        let mut rest = options;
        let n = rest.len();
        let mut k: usize = 0;
        while k < n
            invariant
                n == inc.len(),
                k <= n,
                rest.len() == n - k,
                rest.deep_view() == inc.skip(k as int),
                self@ == (CoreV { config: merge_v(c0.config, inc.take(k as int)), ..c0 }),
            decreases n - k,
        {
            let ghost r0 = rest.deep_view();
            let ghost rv0 = rest@;
            assert(r0[0] == inc[k as int]);
            let o = rest.remove(0);
            assert(o@ == inc[k as int]);
            assert(rest@ =~= rv0.remove(0));
            assert forall|j: int| 0 <= j < rest.deep_view().len() implies rest.deep_view()[j] == inc.skip(k + 1)[j] by {
                assert(rest.deep_view()[j] == rest@[j].deep_view());
                assert(rv0[j + 1].deep_view() == r0[j + 1]);
            }
            assert(rest.deep_view() =~= inc.skip(k + 1));
            assert(inc.take(k + 1).drop_last() =~= inc.take(k as int));
            assert(inc.take(k + 1).last() == inc[k as int]);
            self.merge_option(o);
            k = k + 1;
        }
        assert(inc.take(n as int) =~= inc);
        Some(copy_config(&self.config))
    }
}

// ---------------------------------------------------------------------------
// Routing helpers
// ---------------------------------------------------------------------------

/// Whether the connection is bound to `session_id`.
pub fn is_bound_to(bound: &Option<String>, session_id: &str) -> (b: bool)
    ensures
        b == (opt_view(*bound) == Some(session_id@)),
{
    match bound {
        Some(b) => str_eq(b.as_str(), session_id),
        None => false,
    }
}

/// The listener channels the main connection's store speaks on.
pub enum Channel {
    /// Transcript painting.
    Item,
    /// Usage painting.
    Usage,
    /// Turn control.
    RunEnded,
    /// Status, directory, config and permission events.
    Control,
}

/// Whether an event of the main connection reaches the listener: painting
/// only while no roam peer owns the display; turn control and the rest
/// always, so a backgrounded turn still drains its queue.
pub fn main_forwards(active_peer: &Option<String>, channel: Channel) -> (b: bool)
    ensures
        b == (active_peer is None || channel is RunEnded || channel is Control),
{
    match channel {
        Channel::Item => active_peer.is_none(),
        Channel::Usage => active_peer.is_none(),
        Channel::RunEnded => true,
        Channel::Control => true,
    }
}

/// The text before the first `:` (all of it when there is none).
pub open spec fn until_colon(s: Seq<char>) -> Seq<char>
    decreases s.len(),
{
    if s.len() == 0 || s[0] == ':' {
        Seq::empty()
    } else {
        seq![s[0]] + until_colon(s.skip(1))
    }
}

/// The peer label a `roam:<label>:<id>` session routes to.
pub open spec fn label_v(session_id: Seq<char>) -> Option<Seq<char>> {
    if "roam:"@.is_prefix_of(session_id) {
        Some(until_colon(session_id.skip(5)))
    } else {
        None
    }
}

pub proof fn lemma_until_colon(s: Seq<char>, i: int)
    requires
        0 <= i <= s.len(),
        forall|j: int| 0 <= j < i ==> s[j] != ':',
        i == s.len() || s[i] == ':',
    ensures
        until_colon(s) == s.take(i),
    decreases s.len(),
{
    if s.len() > 0 && i > 0 {
        assert forall|j: int| 0 <= j < i - 1 implies s.skip(1)[j] != ':' by {
            assert(s.skip(1)[j] == s[j + 1]);
        }
        if i < s.len() {
            assert(s.skip(1)[i - 1] == s[i]);
        }
        lemma_until_colon(s.skip(1), i - 1);
        assert(s.take(i) =~= seq![s[0]] + s.skip(1).take(i - 1));
    } else if s.len() > 0 {
        assert(s.take(0) =~= Seq::<char>::empty());
    }
}

/// The label of the roam peer owning a session, when the id is a roam id.
pub fn peer_label(session_id: &str) -> (r: Option<String>)
    ensures
        opt_view(r) == label_v(session_id@),
{
    proof { reveal_strlit("roam:"); }
    if !crate::spine::has_prefix(session_id, "roam:") {
        return None;
    }
    let n = session_id.unicode_len();
    let mut label = String::new();
    let mut i: usize = 5;
    while i < n && session_id.get_char(i) != ':'
        invariant
            n == session_id@.len(),
            5 <= i <= n,
            forall|j: int| 5 <= j < i ==> session_id@[j] != ':',
            label@ == session_id@.subrange(5, i as int),
        decreases n - i,
    {
        let c = session_id.get_char(i);
        crate::text::push_char(&mut label, c);
        assert(label@ =~= session_id@.subrange(5, i + 1));
        i = i + 1;
    }
    proof {
        let rest = session_id@.skip(5);
        assert forall|j: int| 0 <= j < i - 5 implies rest[j] != ':' by {
            assert(rest[j] == session_id@[j + 5]);
        }
        if i < n {
            assert(rest[i - 5] == session_id@[i as int]);
        }
        lemma_until_colon(rest, i - 5);
        assert(rest.take(i - 5) =~= session_id@.subrange(5, i as int));
    }
    Some(label)
}

impl CoreState {
    /// The cwd for a new roam session: the caller's pick, trimmed, unless it
    /// is blank, in which case the server's working directory.
    pub fn roam_cwd(&self, requested: &str) -> (cwd: String)
        ensures
            cwd@ == (if crate::notify::trim_v(requested@).len() > 0 { crate::notify::trim_v(requested@) } else { fallback_cwd(self@) }),
    {
        let t = crate::notify::trim(requested);
        if t.unicode_len() > 0 {
            t
        } else {
            self.working_dir()
        }
    }
}

// ---------------------------------------------------------------------------
// Painting a chat from the cache
// ---------------------------------------------------------------------------

/// How an open proceeds after painting the cache: a fresh cache suppresses
/// the replay, a stale one merges a bounded tail into the paint.
pub struct PaintPlan {
    pub suppress: bool,
    pub merge: bool,
    pub emissions: Vec<Emission>,
}

/// The store after an open paints `cached` for `sid` (see `paint_cached`).
pub open spec fn paint_store_v(s: StoreV, sid: Seq<char>, cached: Option<Seq<ItemV>>, fresh: bool) -> (StoreV, Seq<EmissionV>) {
    let s1 = StoreV { session_id: sid, ..s };
    match cached {
        Some(items) => if fresh {
            replace_rich_v(s1, items, false)
        } else {
            (armed(replace_rich_v(s1, items, false).0), replace_rich_v(s1, items, false).1)
        },
        None => (store_reset_v(s1), clear_em(sid)),
    }
}

pub open spec fn cached_items(cached: Option<(Vec<Item>, String)>) -> Option<Seq<ItemV>> {
    match cached {
        Some(c) => Some(c.0.deep_view()),
        None => None,
    }
}

pub open spec fn cached_fresh(c: CoreV, sid: Seq<char>, cached: Option<(Vec<Item>, String)>) -> bool {
    match cached {
        Some(p) => fresh_v(c, sid, p.1@),
        None => false,
    }
}

impl CoreState {
    /// Paints a chat being opened from its cached items (`None` when nothing
    /// is cached): the paint always happens at once; a fresh cache is
    /// authoritative and suppresses the replay, a stale one is painted for a
    /// merge with the replayed tail, and no cache clears the view. The store's
    /// rows then belong to `session_id`.
    pub fn paint_cached(&mut self, store: &mut TranscriptStore, session_id: &str, cached: Option<(Vec<Item>, String)>) -> (plan: PaintPlan)
        requires
            old(store).wf(),
        ensures
            final(store).wf(),
            plan.suppress == cached_fresh(old(self)@, session_id@, cached),
            plan.merge == (cached is Some && !plan.suppress),
            final(store)@ == paint_store_v(old(store)@, session_id@, cached_items(cached), plan.suppress).0,
            plan.emissions.deep_view() == paint_store_v(old(store)@, session_id@, cached_items(cached), plan.suppress).1,
            final(self)@ == (CoreV { store_session_id: Some(session_id@), ..old(self)@ }),
    {
        store.set_session(session_id);
        let has_cache = cached.is_some();
        let (suppress, emissions) = match cached {
            Some((items, cached_at)) => {
                let fresh = self.transcript_is_fresh(session_id, cached_at.as_str());
                if fresh {
                    (true, store.replace_rich(items, false))
                } else {
                    (false, store.replace_rich_for_merge(items))
                }
            },
            None => (false, store.clear()),
        };
        self.store_session_id = Some(owned(session_id));
        PaintPlan { suppress, merge: has_cache && !suppress, emissions }
    }

    /// Paints a chat's cached items before any connect (the cold start): the
    /// rows are authoritative, owe no replay, and belong to `session_id`.
    pub fn paint_authoritative(&mut self, store: &mut TranscriptStore, session_id: &str, items: Vec<Item>) -> (out: Vec<Emission>)
        requires
            old(store).wf(),
        ensures
            final(store).wf(),
            final(store)@ == replace_rich_v(StoreV { session_id: session_id@, ..old(store)@ }, items.deep_view(), false).0,
            out.deep_view() == replace_rich_v(StoreV { session_id: session_id@, ..old(store)@ }, items.deep_view(), false).1,
            final(self)@ == (CoreV { store_session_id: Some(session_id@), ..old(self)@ }),
    {
        store.set_session(session_id);
        let out = store.replace_rich(items, false);
        self.store_session_id = Some(owned(session_id));
        out
    }

    /// A reconnect resumes `session_id` after a drop; `cached_at` stamps the
    /// cached transcript, if any. Returns whether the replay is suppressed;
    /// when it is not, the rows the store kept are marked provisional so the
    /// replay's first real row replaces them instead of landing after them.
    pub fn resume_after_drop(&self, store: &mut TranscriptStore, session_id: &str, cached_at: Option<String>) -> (suppress: bool)
        requires
            old(store).wf(),
        ensures
            final(store).wf(),
            suppress == match cached_at {
                Some(c) => fresh_v(self@, session_id@, c@),
                None => false,
            },
            final(store)@ == (if suppress { old(store)@ } else { StoreV { provisional: true, ..old(store)@ } }),
    {
        let suppress = match cached_at {
            Some(c) => self.transcript_is_fresh(session_id, c.as_str()),
            None => false,
        };
        if !suppress {
            store.mark_provisional();
        }
        suppress
    }
}

// ---------------------------------------------------------------------------
// Opening a session on the wire
// ---------------------------------------------------------------------------

/// What has happened so far in taking an opened session to the wire.
#[derive(Clone, Copy, Debug, PartialEq, Eq, Structural)]
pub enum OpenEvent {
    /// The open starts: `live` when a Ready connection with the same config exists.
    Start { live: bool },
    /// The live `session/load` finished; `live` when that connection is still
    /// Ready with the same config.
    Loaded { ok: bool, live: bool },
    /// The fallback live `session/new` finished.
    Created { ok: bool },
}

/// What the runtime does next.
#[derive(Clone, Copy, Debug, PartialEq, Eq, Structural)]
pub enum OpenStep {
    /// Load the session on the live connection.
    LiveLoad,
    /// Try a fresh session on the live connection.
    LiveNew,
    /// The session is loaded: report Ready.
    Ready,
    /// Bind the fresh session as the one shown, then report Ready.
    BindAndReady,
    /// Reconnect in full, resuming the session.
    Reconnect,
}

/// Live reuse first (no reconnect churn on a session switch); a stale
/// session falls back to a fresh one on the same wire; only when that is
/// not possible does the open reconnect in full.
pub open spec fn open_next_v(e: OpenEvent) -> OpenStep {
    match e {
        OpenEvent::Start { live } => if live { OpenStep::LiveLoad } else { OpenStep::Reconnect },
        OpenEvent::Loaded { ok, live } => if ok {
            OpenStep::Ready
        } else if live {
            OpenStep::LiveNew
        } else {
            OpenStep::Reconnect
        },
        OpenEvent::Created { ok } => if ok { OpenStep::BindAndReady } else { OpenStep::Reconnect },
    }
}

/// The next step of a session open.
pub fn open_next(e: OpenEvent) -> (r: OpenStep)
    ensures
        r == open_next_v(e),
{
    match e {
        OpenEvent::Start { live } => if live { OpenStep::LiveLoad } else { OpenStep::Reconnect },
        OpenEvent::Loaded { ok, live } => if ok {
            OpenStep::Ready
        } else if live {
            OpenStep::LiveNew
        } else {
            OpenStep::Reconnect
        },
        OpenEvent::Created { ok } => if ok { OpenStep::BindAndReady } else { OpenStep::Reconnect },
    }
}

// ---------------------------------------------------------------------------
// Laws
// ---------------------------------------------------------------------------

/// A new connection disarms every reconnect timer scheduled before it: the
/// timer fires into nothing and leaves the state as it was.
pub proof fn a_newer_connect_disarms_pending_reconnects(c: CoreV, config: ServerV)
    requires
        c.reconnect_gen < u64::MAX - 1,
        c.conn_gen < u64::MAX,
    ensures
        schedule_v(c).1 matches ReconnectV::Wait { gen, .. } ==> {
            let c2 = connect_v(schedule_v(c).0, config);
            &&& timer_v(c2, gen).1 is None
            &&& timer_v(c2, gen).0 == c2
        },
{
}

/// After an explicit disconnect nothing reconnects: the connection's end
/// owes no resume, no reconnect is scheduled, a pending timer is inert, and
/// every status surfaces as Disconnected.
pub proof fn a_user_disconnect_is_final(c: CoreV, gen: u64, bound: Option<Seq<char>>, status: StatusV)
    requires
        c.reconnect_gen < u64::MAX,
    ensures
        ended_v(disconnect_v(c), gen, bound) == ConnEndV::Detach,
        schedule_v(disconnect_v(c)).1 == ReconnectV::Stop,
        timer_v(disconnect_v(c), gen).1 is None,
        status_v(disconnect_v(c), status, bound).1 == StatusV::Disconnected,
{
}

/// A connection superseded by a newer connect ends without consequence.
pub proof fn a_superseded_connection_ends_quietly(c: CoreV, config: ServerV, bound: Option<Seq<char>>)
    requires
        c.conn_gen < u64::MAX,
        c.reconnect_gen < u64::MAX,
    ensures
        ended_v(connect_v(c, config), c.conn_gen, bound) == ConnEndV::Inert,
{
}

/// Reconnects are bounded: a wait is scheduled only below the attempt
/// limit, with the capped exponential delay; at the limit the core gives up
/// with its error; and a Ready restores the whole budget.
pub proof fn reconnects_are_bounded(c: CoreV, bound: Option<Seq<char>>)
    requires
        c.reconnect_gen < u64::MAX,
        !c.user_disconnect,
    ensures
        schedule_v(c).1 matches ReconnectV::Wait { delay_ms, .. } ==> {
            &&& c.reconnect_attempts < RECONNECT_LIMIT
            &&& delay_ms == backoff_ms(c.reconnect_attempts as nat)
            &&& delay_ms <= crate::spine::RECONNECT_CAP_MS
        },
        c.reconnect_attempts >= RECONNECT_LIMIT ==> schedule_v(c).1 == (ReconnectV::GiveUp { status: give_up_status() }),
        status_v(c, StatusV::Ready, bound).0.reconnect_attempts == 0,
{
    crate::spine::backoff_is_capped_and_monotone(c.reconnect_attempts as nat, c.reconnect_attempts as nat);
}

/// The intents waiting in queue `k`, oldest first.
pub open spec fn queue_of(p: Seq<IntentV>, k: Seq<char>) -> Seq<IntentV>
    decreases p.len(),
{
    if p.len() == 0 {
        Seq::empty()
    } else if intent_key(p.last()) == k {
        queue_of(p.drop_last(), k).push(p.last())
    } else {
        queue_of(p.drop_last(), k)
    }
}

pub proof fn lemma_queue_of_remove(p: Seq<IntentV>, i: int, k: Seq<char>)
    requires
        0 <= i < p.len(),
        intent_key(p[i]) != k,
    ensures
        queue_of(p.remove(i), k) == queue_of(p, k),
    decreases p.len(),
{
    if i == p.len() - 1 {
        assert(p.remove(i) =~= p.drop_last());
    } else {
        assert(p.remove(i).drop_last() =~= p.drop_last().remove(i));
        assert(p.remove(i).last() == p.last());
        lemma_queue_of_remove(p.drop_last(), i, k);
    }
}

pub proof fn lemma_first_keyed_range(p: Seq<IntentV>, k: Seq<char>)
    ensures
        first_keyed(p, k) matches Some(i) ==> 0 <= i < p.len() && intent_key(p[i]) == k,
    decreases p.len(),
{
    if p.len() > 0 && intent_key(p[0]) != k {
        lemma_first_keyed_range(p.skip(1), k);
        if let Some(i) = first_keyed(p.skip(1), k) {
            assert(p.skip(1)[i] == p[i + 1]);
        }
    }
}

/// Prompts queued in one chat never leak into another: a flush leaves the
/// queue of every chat but the active one exactly as it was.
pub proof fn queued_prompts_stay_in_their_chat(p: Seq<IntentV>, prompting: bool, active: Seq<char>, bound: Option<Seq<char>>, k: Seq<char>)
    requires
        k.len() > 0,
        k != active,
    ensures
        queue_of(flush_v(p, prompting, active, bound).0, k) == queue_of(p, k),
    decreases p.len(),
{
    if !prompting {
        lemma_first_keyed_range(p, Seq::empty());
        lemma_first_keyed_range(p, active);
        if let Some(i) = next_v(p, active) {
            if 0 <= i < p.len() {
                assert(intent_key(p[i]) != k) by {
                    assert(Seq::<char>::empty().len() == 0);
                }
                match route_v(p[i], bound) {
                    RouteV::Queue => {},
                    RouteV::Reject => {
                        lemma_queue_of_remove(p, i, k);
                        queued_prompts_stay_in_their_chat(p.remove(i), false, active, bound, k);
                    },
                    RouteV::Send { .. } => {
                        lemma_queue_of_remove(p, i, k);
                        queued_prompts_stay_in_their_chat(p.remove(i), p[i] is SendPrompt, active, bound, k);
                    },
                }
            }
        }
    }
}

/// A turn in flight holds the whole queue.
pub proof fn a_turn_in_flight_holds_the_queue(p: Seq<IntentV>, active: Seq<char>, bound: Option<Seq<char>>)
    ensures
        flush_v(p, true, active, bound) == (p, true, Seq::<DispatchV>::empty()),
{
}

/// Once a session is bound, a flush stops only for a turn in flight: when
/// no prompt went out, neither the global queue nor the active chat's holds
/// anything afterwards.
pub proof fn a_bound_flush_drains_until_a_turn(p: Seq<IntentV>, active: Seq<char>, sid: Seq<char>)
    ensures
        ({
            let r = flush_v(p, false, active, Some(sid));
            r.1 || (first_keyed(r.0, Seq::empty()) is None && first_keyed(r.0, active) is None)
        }),
    decreases p.len(),
{
    lemma_first_keyed_range(p, Seq::empty());
    lemma_first_keyed_range(p, active);
    if let Some(i) = next_v(p, active) {
        match route_v(p[i], Some(sid)) {
            RouteV::Queue => {},
            RouteV::Reject => {
                a_bound_flush_drains_until_a_turn(p.remove(i), active, sid);
            },
            RouteV::Send { .. } => {
                if !(p[i] is SendPrompt) {
                    a_bound_flush_drains_until_a_turn(p.remove(i), active, sid);
                } else {
                    assert(flush_v(p.remove(i), true, active, Some(sid)).1);
                }
            },
        }
    }
}

/// A config update without choices (the typed notification) keeps the
/// choices and name already known for that option, and takes its value.
pub proof fn a_bare_update_keeps_the_known_choices(c: Seq<ConfigV>, o: ConfigV, j: int)
    requires
        first_option(c, o.id) == Some(j),
        o.choices.len() == 0,
        o.name.len() == 0,
    ensures
        merge_v(c, seq![o]).len() == c.len(),
        merge_v(c, seq![o])[j] == (ConfigV { value: o.value, ..c[j] }),
{
    lemma_first_option_range(c, o.id);
    assert(seq![o].drop_last() =~= Seq::<ConfigV>::empty());
    assert(merge_v(c, Seq::<ConfigV>::empty()) == c);
    assert(seq![o].last() == o);
    assert(merge_v(c, seq![o]) == merge_one(c, o));
}

/// Fresh choices replace the known ones: merging an option whose id is
/// already known (first at `j`) and which carries choices leaves exactly
/// those choices, and its value, on that option; every other option stays
/// as it was, and nothing is added.
pub proof fn fresh_choices_replace_the_known_ones(c: Seq<ConfigV>, o: ConfigV, j: int)
    requires
        0 <= j < c.len(),
        c[j].id == o.id,
        forall|k: int| 0 <= k < j ==> (#[trigger] c[k]).id != o.id,
        o.choices.len() > 0,
    ensures
        merge_v(c, seq![o]).len() == c.len(),
        merge_v(c, seq![o])[j].id == o.id,
        merge_v(c, seq![o])[j].value == o.value,
        merge_v(c, seq![o])[j].choices == o.choices,
        merge_v(c, seq![o])[j].name == (if o.name.len() > 0 { o.name } else { c[j].name }),
        forall|k: int| 0 <= k < c.len() && k != j ==> #[trigger] merge_v(c, seq![o])[k] == c[k],
{
    lemma_first_option(c, o.id, j);
    assert(seq![o].drop_last() =~= Seq::<ConfigV>::empty());
    assert(merge_v(c, Seq::<ConfigV>::empty()) == c);
    assert(seq![o].last() == o);
    assert(merge_v(c, seq![o]) == merge_one(c, o));
}

/// An option with an id not yet known is appended, whole.
pub proof fn an_unknown_option_is_appended(c: Seq<ConfigV>, o: ConfigV)
    requires
        forall|k: int| 0 <= k < c.len() ==> (#[trigger] c[k]).id != o.id,
    ensures
        merge_v(c, seq![o]) == c.push(o),
{
    lemma_first_option(c, o.id, c.len() as int);
    assert(seq![o].drop_last() =~= Seq::<ConfigV>::empty());
    assert(merge_v(c, Seq::<ConfigV>::empty()) == c);
    assert(seq![o].last() == o);
}

pub proof fn lemma_first_option_range(c: Seq<ConfigV>, id: Seq<char>)
    ensures
        first_option(c, id) matches Some(i) ==> 0 <= i < c.len() && c[i].id == id,
    decreases c.len(),
{
    if c.len() > 0 && c[0].id != id {
        lemma_first_option_range(c.skip(1), id);
        if let Some(i) = first_option(c.skip(1), id) {
            assert(c.skip(1)[i] == c[i + 1]);
        }
    }
}

/// A probe that reads the stamp already recorded never resyncs.
pub proof fn an_unmoved_session_is_not_replayed(c: CoreV, sid: Seq<char>, probe: (Seq<char>, i64))
    requires
        c.sync_stamp == Some(probe),
    ensures
        probe_v(c, sid, Some(sid), Some(probe)) == (c, ProbeV::Ignore),
{
}

/// Of two quick touches of the active chat only the later debounce resyncs.
pub proof fn only_the_latest_touch_resyncs(c: CoreV, sid: Seq<char>, u1: Seq<char>, u2: Seq<char>)
    requires
        c.touch_gen < u64::MAX - 1,
    ensures
        ({
            let c1 = touch_state_v(c, sid, u1, Some(sid));
            let c2 = touch_state_v(c1, sid, u2, Some(sid));
            !debounced_v(c2, c1.touch_gen, sid, Some(sid)).1
        }),
{
}

/// Rows painted for one session are never filed under another: when the
/// connection binds a different session first, the Ready that follows
/// leaves nothing to save until the rows' own session is bound.
pub proof fn a_paint_is_filed_only_under_its_own_session(c: CoreV, painted: Seq<char>, bound: Seq<char>)
    requires
        c.store_session_id == Some(painted),
        painted != bound,
        !c.user_disconnect,
    ensures
        save_v(status_v(c, StatusV::Ready, Some(bound)).0, Some(bound)) is None,
        save_v(status_v(c, StatusV::Ready, Some(bound)).0, Some(painted)) is Some,
{
}

} // verus!
