use grouse_core::peer::{
    active_peer, next_retry, prefixed_id, strip_prefix, ListedSession, PeerCommand, PeerEvent,
    PeerState, COLD_RECONNECT_MAX, RECONNECT_MAX,
};
use grouse_core::spine::{
    parse_config_options, permission_option_kind_str, tool_call_status_str, ConfigValue,
    ContentBlock, PermissionOptionKind, RawChoice, RawConfigOption, RawData, SessionInfo,
    SessionUpdate, ToolCallInfo, ToolCallStatus,
};
use grouse_core::{ConfigOption, ConnectionStatus, Message, StreamEvent, ToolCallKind, TranscriptEvent};

fn listed(ids: &[(&str, &str, &str)]) -> Vec<ListedSession> {
    ids.iter()
        .map(|(id, title, updated)| ListedSession {
            session_id: id.to_string(),
            cwd: "/home/user".to_string(),
            title: Some(title.to_string()),
            updated_at: Some(updated.to_string()),
        })
        .collect()
}

fn no_cache() -> Vec<(String, Vec<Message>)> {
    Vec::new()
}

fn agent_msg(content: &str) -> Message {
    Message { id: "msg1".to_string(), role: "agent".to_string(), content: content.to_string(), output: String::new() }
}

fn agent_chunk(text: &str, id: Option<&str>) -> SessionUpdate {
    SessionUpdate::AgentMessageChunk { content: ContentBlock::Text(text.to_string()), message_id: id.map(str::to_owned) }
}

fn has_stream(events: &[PeerEvent]) -> bool {
    events.iter().any(|e| matches!(e, PeerEvent::Stream(_)))
}

#[test]
fn browse_list_arrives_no_session_auto_opens() {
    let mut peer = PeerState::new("laptop");
    let events = peer.apply_sessions(&listed(&[("s1", "Title", "2026-01-01T00:00:00Z")]), &no_cache());

    // Ready, sessions stored with the roam:<label>: prefix, no open id.
    assert!(matches!(peer.status(), ConnectionStatus::Ready));
    let sessions = peer.sessions();
    assert_eq!(sessions.len(), 1);
    assert_eq!(sessions[0].id, "roam:laptop:s1");
    assert_eq!(sessions[0].title, "Title");
    assert_eq!(sessions[0].updated_at, "2026-01-01T00:00:00Z");
    assert!(peer.active_session_id().is_none());
    // Browse mode: nothing asks for an open.
    assert!(!events.iter().any(|e| matches!(e, PeerEvent::Transcript(_))));
    // Peer-scoped events always emitted.
    assert!(events.iter().any(|e| *e == PeerEvent::Status("ready".to_string())));
    assert!(events.iter().any(|e| matches!(e, PeerEvent::Sessions(s) if s.len() == 1)));
}

#[test]
fn open_session_queues_load_with_raw_id() {
    let mut peer = PeerState::new("laptop");
    peer.apply_sessions(&listed(&[("s1", "Title", "2026-01-01T00:00:00Z")]), &no_cache());
    // Prefixed id (what the UI holds) is stripped back to the raw id.
    match peer.open_session("roam:laptop:s1", "/home/user") {
        Some(PeerCommand::OpenSession { session_id, cwd }) => {
            assert_eq!(session_id, "s1");
            assert_eq!(cwd, "/home/user");
        }
        other => panic!("expected OpenSession command, got {other:?}"),
    }
}

#[test]
fn open_session_queues_while_connecting() {
    let mut peer = PeerState::new("laptop");
    assert!(matches!(peer.status(), ConnectionStatus::Connecting));
    match peer.open_session("s1", "/home/user") {
        Some(PeerCommand::OpenSession { session_id, .. }) => assert_eq!(session_id, "s1"),
        other => panic!("expected OpenSession queued while connecting, got {other:?}"),
    }
    // Dead peer: nothing will drain the queue, so the intent is rejected.
    peer.connection_ended(true);
    assert!(matches!(peer.status(), ConnectionStatus::Disconnected));
    assert!(peer.open_session("s2", "/home/user").is_none(), "a disconnected peer must not accept opens");
}

#[test]
fn open_session_falls_back_to_session_cwd_when_blank() {
    let mut peer = PeerState::new("laptop");
    peer.apply_sessions(&listed(&[("s1", "Title", "2026-01-01T00:00:00Z")]), &no_cache());
    match peer.open_session("s1", "") {
        Some(PeerCommand::OpenSession { session_id, cwd }) => {
            assert_eq!(session_id, "s1");
            assert!(!cwd.is_empty());
            assert_eq!(cwd, "/home/user");
        }
        other => panic!("expected OpenSession command, got {other:?}"),
    }
}

#[test]
fn apply_sessions_seeds_staging_from_cache() {
    let mut peer = PeerState::new("laptop");
    // The transcript cached for s1 is handed in with the list: it is staged so
    // open() paints instantly.
    let cached = vec![("s1".to_string(), vec![agent_msg("hello")])];
    peer.apply_sessions(&listed(&[("s1", "Title", "2026-01-01T00:00:00Z")]), &cached);
    let n = peer.staged("s1").map(|ms| ms.len()).unwrap_or(0);
    assert_eq!(n, 1, "s1 should be staged from the cache");
}

#[test]
fn open_emits_cached_snapshot_instantly() {
    let mut peer = PeerState::new("laptop");
    let cached = vec![("s1".to_string(), vec![agent_msg("hello")])];
    peer.apply_sessions(&listed(&[("s1", "Title", "2026-01-01T00:00:00Z")]), &cached);
    let (_save, events) = peer.open("s1", None);
    // ONE Clear and NO Appends: a Clear rebuilds from transcript().
    let clears = events.iter().filter(|e| **e == PeerEvent::Transcript(TranscriptEvent::Clear)).count();
    let appends = events
        .iter()
        .filter(|e| matches!(e, PeerEvent::Transcript(TranscriptEvent::Append { .. })))
        .count();
    assert_eq!(clears, 1, "exactly one Clear: {events:?}");
    assert_eq!(appends, 0, "a Clear rebuilds from transcript(); no Appends: {events:?}");
    let snapshot = peer.transcript();
    assert_eq!(snapshot.len(), 1, "the cached row is what the rebuild reads");
    assert_eq!(snapshot[0].content, "hello");
}

#[test]
fn open_paints_from_cache_before_any_session_list() {
    let mut peer = PeerState::new("laptop");
    // No apply_sessions: nothing has been staged for s9; the cache read on
    // open is what paints.
    peer.open("s9", Some(vec![agent_msg("from the cache")]));
    let snapshot = peer.transcript();
    assert_eq!(snapshot.len(), 1, "cache must paint without a prior session/list");
    assert_eq!(snapshot[0].content, "from the cache");
}

#[test]
fn open_an_empty_session_clears_the_previous_one() {
    let mut peer = PeerState::new("laptop");
    let (_save, events) = peer.open("s-empty", None);
    assert_eq!(
        events.iter().filter(|e| **e == PeerEvent::Transcript(TranscriptEvent::Clear)).count(),
        1,
        "an empty session still emits the Clear: {events:?}"
    );
}

#[test]
fn unexpected_drop_records_resume_and_stays_silent() {
    let mut peer = PeerState::new("laptop");
    peer.apply_sessions(&listed(&[("s1", "Title", "2026-01-01T00:00:00Z")]), &no_cache());
    peer.open("s1", None);
    peer.set_active_run(Some("run-9".to_string()));

    let (_save, events) = peer.connection_ended(false);

    assert!(matches!(peer.status(), ConnectionStatus::Disconnected));
    assert_eq!(peer.resume_pending().as_deref(), Some("s1"), "the open session must be owed to the next live link");
    assert!(
        !events.iter().any(|e| matches!(e, PeerEvent::Status(s) if s.starts_with("disconnected") || s.starts_with("error"))),
        "a supervised drop emits no terminal status: {events:?}"
    );
    // The run died with the link: the empty run id frees the app's busy state.
    assert!(
        events.iter().any(|e| *e
            == PeerEvent::ActiveRun { session_id: "roam:laptop:s1".to_string(), run_id: String::new() }),
        "the dead run id must be cleared for the app: {events:?}"
    );
    assert!(peer.active_run().is_none());
}

#[test]
fn clean_end_is_terminal_and_owes_nothing() {
    let mut peer = PeerState::new("laptop");
    peer.apply_sessions(&listed(&[("s1", "Title", "2026-01-01T00:00:00Z")]), &no_cache());
    peer.open("s1", None);
    let (_save, events) = peer.connection_ended(true);
    assert_eq!(peer.resume_pending(), None, "a deliberate close owes no resume");
    assert!(
        events.iter().any(|e| *e == PeerEvent::Status("disconnected".to_string())),
        "a clean end surfaces disconnected: {events:?}"
    );
}

#[test]
fn new_session_queues_create_with_cwd() {
    let mut peer = PeerState::new("laptop");
    peer.apply_sessions(&listed(&[("s1", "Title", "2026-01-01T00:00:00Z")]), &no_cache());
    match peer.new_session("/home/user") {
        Some(PeerCommand::NewSession { cwd }) => assert_eq!(cwd, "/home/user"),
        other => panic!("expected NewSession command, got {other:?}"),
    }
}

#[test]
fn relist_queues_relist_command() {
    let peer = PeerState::new("laptop");
    assert_eq!(peer.relist(), PeerCommand::Relist);
}

#[test]
fn new_session_queues_while_connecting_rejects_dead() {
    let mut peer = PeerState::new("laptop");
    match peer.new_session("/home/user") {
        Some(PeerCommand::NewSession { cwd }) => assert_eq!(cwd, "/home/user"),
        other => panic!("expected NewSession queued while connecting, got {other:?}"),
    }
    peer.connection_ended(true);
    assert!(peer.new_session("/home/user").is_none(), "a disconnected peer must not accept creates");
}

#[test]
fn applying_a_new_list_replaces_sessions() {
    let mut peer = PeerState::new("laptop");
    peer.apply_sessions(&listed(&[("s1", "Old", "2026-01-01T00:00:00Z")]), &no_cache());
    peer.apply_sessions(&listed(&[("s2", "New", "2026-02-01T00:00:00Z")]), &no_cache());
    let sessions = peer.sessions();
    assert_eq!(sessions.len(), 1);
    assert_eq!(sessions[0].id, "roam:laptop:s2");
}

#[test]
fn wire_params_strips_own_roam_prefix_from_session_id() {
    // The app addresses this peer's sessions by the prefixed id; the wire
    // must receive the raw id or the remote cannot resolve it.
    assert_eq!(strip_prefix("laptop", "roam:laptop:s1"), "s1");
}

#[test]
fn wire_params_leaves_foreign_or_raw_ids_alone() {
    // A raw id (already correct) and another peer's prefix are not rewritten.
    assert_eq!(strip_prefix("laptop", "s1"), "s1");
    assert_eq!(strip_prefix("laptop", "roam:other:s2"), "roam:other:s2");
}

#[test]
fn open_session_emits_config_from_load_reply() {
    // The peer's load reply carries `configOptions`; read off the reply they
    // parse into the options the model picker shows.
    let reply = vec![RawConfigOption {
        is_object: true,
        id: Some("model".to_string()),
        current_value: ConfigValue::Str("deepseek".to_string()),
        name: Some("Model".to_string()),
        choices: Some(vec![RawChoice {
            is_object: true,
            value: Some("deepseek".to_string()),
            name: Some("DeepSeek".to_string()),
        }]),
    }];
    let options = parse_config_options(&reply);
    assert_eq!(options.len(), 1);
    assert_eq!(options[0].id, "model");
    assert_eq!(options[0].value, "deepseek");
    assert_eq!(options[0].choices.len(), 1);
    assert_eq!(options[0].choices[0].value, "deepseek");
    assert_eq!(options[0].choices[0].name, "DeepSeek");
}

#[test]
fn dispatch_gates_chat_events_on_active() {
    let mut peer = PeerState::new("laptop");
    peer.open("s1", None); // live-transcript path: session must be OPEN
    let events = peer.dispatch("s1", agent_chunk("hello", Some("m1")), false);
    // Inactive: the bubble accumulates, but no chat events forward.
    assert_eq!(peer.transcript().len(), 1);
    assert_eq!(peer.transcript()[0].content, "hello");
    assert!(!has_stream(&events));

    let events = peer.dispatch("s1", agent_chunk(" world", Some("m1")), true);
    assert!(events.iter().any(|e| matches!(e, PeerEvent::Stream(StreamEvent::AgentChunk { .. }))));
}

#[test]
fn dispatch_appends_to_existing_bubble() {
    let mut peer = PeerState::new("laptop");
    peer.open("s1", None);
    for text in ["a", "b", "c"] {
        peer.dispatch("s1", agent_chunk(text, Some("m1")), false);
    }
    assert_eq!(peer.transcript().len(), 1);
    assert_eq!(peer.transcript()[0].content, "abc");
    // A new message id starts a new bubble.
    peer.dispatch("s1", agent_chunk("x", Some("m2")), false);
    assert_eq!(peer.transcript().len(), 2);
}

#[test]
fn dispatch_live_turn_keeps_thinking_separate_and_does_not_garble() {
    let mut peer = PeerState::new("laptop");
    peer.open("s1", None);
    for t in ["think one", " think two"] {
        peer.dispatch(
            "s1",
            SessionUpdate::AgentThoughtChunk { content: ContentBlock::Text(t.to_string()), message_id: None },
            false,
        );
    }
    peer.dispatch(
        "s1",
        SessionUpdate::ToolCall(ToolCallInfo {
            tool_call_id: "tool1".to_string(),
            title: "shell".to_string(),
            command: None,
            raw_input_json: "null".to_string(),
            app_uri: None,
            app_extension: None,
            tool_name: None,
            data: RawData::Absent,
        }),
        false,
    );
    peer.dispatch("s1", agent_chunk("answer ", None), false);

    let tr = peer.transcript();
    // thinking + tool + answer = 3 separate bubbles; nothing merged, nothing lost.
    assert_eq!(tr.len(), 3, "expected thinking+tool+answer separate, got {}", tr.len());
    assert_eq!(tr[0].role, "thought");
    assert!(!tr[0].content.is_empty(), "thinking was not lost");
    assert_eq!(tr[1].role, "tool");
    assert_eq!(tr[1].content, "shell");
    assert_eq!(tr[2].role, "agent");
    assert_eq!(tr[2].content, "answer ");
}

#[test]
fn dispatch_config_option_update_forwards_when_active() {
    let mut peer = PeerState::new("laptop");
    let update = || SessionUpdate::ConfigOptionUpdate {
        options: vec![ConfigOption {
            id: "model".to_string(),
            value: "deepseek".to_string(),
            name: "Model".to_string(),
            choices: Vec::new(),
        }],
    };
    // Inactive: config change is not forwarded (chat-scoped gate).
    let events = peer.dispatch("s1", update(), false);
    assert!(!events.iter().any(|e| matches!(e, PeerEvent::Config { .. })));
    // Active: forwarded.
    let events = peer.dispatch("s1", update(), true);
    assert!(events.iter().any(|e| matches!(e, PeerEvent::Config { options } if options.len() == 1)));
}

#[test]
fn dispatch_tool_call_kinds() {
    let mut peer = PeerState::new("laptop");
    peer.open("s1", None);
    // `_meta.goose.toolCall` is a string here, not an object: no tool name.
    let events = peer.dispatch(
        "s1",
        SessionUpdate::ToolCall(ToolCallInfo {
            tool_call_id: "t1".to_string(),
            title: "Run a command".to_string(),
            command: Some("ls".to_string()),
            raw_input_json: "{\"command\":\"ls\"}".to_string(),
            app_uri: None,
            app_extension: None,
            tool_name: None,
            data: RawData::Absent,
        }),
        true,
    );
    assert!(events.iter().any(|e| matches!(
        e,
        PeerEvent::Stream(StreamEvent::ToolCall { kind: ToolCallKind::Plain, detail, .. }) if detail == "ls"
    )));
}

#[test]
fn routing_picks_the_active_peer_by_label() {
    let peers = vec![PeerState::new("alice"), PeerState::new("bob")];
    assert!(active_peer(&peers, &None).is_none());
    assert!(active_peer(&peers, &Some("unknown".to_string())).is_none());
    let picked = active_peer(&peers, &Some("bob".to_string())).unwrap();
    assert_eq!(peers[picked].label(), "bob");
    let picked = active_peer(&peers, &Some("alice".to_string())).unwrap();
    assert_eq!(peers[picked].label(), "alice");
}

#[test]
fn routing_empty_registry_never_picks() {
    assert!(active_peer(&Vec::new(), &Some("x".to_string())).is_none());
}

#[test]
fn shared_status_and_kind_strings_are_snake_case_variants() {
    assert_eq!(tool_call_status_str(ToolCallStatus::Pending), "pending");
    assert_eq!(tool_call_status_str(ToolCallStatus::InProgress), "in_progress");
    assert_eq!(tool_call_status_str(ToolCallStatus::Completed), "completed");
    assert_eq!(tool_call_status_str(ToolCallStatus::Failed), "failed");
    assert_eq!(permission_option_kind_str(PermissionOptionKind::AllowOnce), "allow_once");
    assert_eq!(permission_option_kind_str(PermissionOptionKind::AllowAlways), "allow_always");
    assert_eq!(permission_option_kind_str(PermissionOptionKind::RejectOnce), "reject_once");
    assert_eq!(permission_option_kind_str(PermissionOptionKind::RejectAlways), "reject_always");
}

#[test]
fn session_info_update_refreshes_the_session_list() {
    let mut peer = PeerState::new("laptop");
    peer.apply_sessions(&listed(&[("s1", "old title", "2026-08-23T10:00:00Z")]), &no_cache());
    peer.dispatch(
        "s1",
        SessionUpdate::SessionInfoUpdate(SessionInfo {
            has_goose_meta: false,
            active_run_id: None,
            title: Some("new title".to_string()),
            updated_at: Some("2026-08-23T11:00:00Z".to_string()),
        }),
        false,
    );
    // The stored summary tracks the live update even while the session is not
    // active.
    let sessions = peer.sessions();
    assert_eq!(sessions[0].title, "new title");
    assert_eq!(sessions[0].updated_at, "2026-08-23T11:00:00Z");
}

#[test]
fn prefixed_and_raw_ids_round_trip() {
    let id = prefixed_id("laptop", "s7");
    assert_eq!(id, "roam:laptop:s7");
    assert_eq!(strip_prefix("laptop", &id), "s7");
}

#[test]
fn another_sessions_chunks_never_render() {
    let mut peer = PeerState::new("laptop");
    peer.open("s1", None);
    let events = peer.dispatch("s2", agent_chunk("elsewhere", Some("m9")), true);
    assert!(peer.transcript().is_empty());
    assert!(!has_stream(&events));
}

#[test]
fn retry_budgets_differ_for_cold_and_warm_links() {
    // A peer that was never reachable gives up after the cold budget; one that
    // was connected keeps trying for the full budget.
    assert!(next_retry(COLD_RECONNECT_MAX, false, false).give_up);
    assert!(!next_retry(COLD_RECONNECT_MAX, true, false).give_up);
    assert!(next_retry(RECONNECT_MAX, true, false).give_up);
}

#[test]
fn prompt_timeout_emits_run_ended() {
    // The transport half (the RPC timeout itself) is the runtime's; the turn
    // it ends is the peer's: a failed prompt still emits RunEnded and clears
    // the run bookkeeping.
    let mut peer = PeerState::new("laptop");
    peer.apply_sessions(&listed(&[("s1", "Title", "2026-01-01T00:00:00Z")]), &no_cache());
    peer.open("s1", None);
    peer.set_active_run(Some("run-9".to_string()));

    let events = peer.end_turn("error");

    assert!(
        events.iter().any(|e| *e == PeerEvent::Stream(StreamEvent::RunEnded { stop_reason: "error".to_string() })),
        "expected RunEnded to be emitted, got: {events:?}"
    );
    assert!(peer.active_run().is_none());
}
