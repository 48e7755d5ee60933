use grouse_core::core_state::{
    open_next, OpenEvent, OpenStep,
    is_bound_to, main_forwards, peer_label, Channel, ConnEnd, CoreState, Dispatch, ProbeStep,
    ReconnectStep, TouchStep, RECONNECT_LIMIT, RESYNC_TICKS,
};
use grouse_core::transcript::TranscriptStore;
use grouse_core::{
    ConfigChoice, ConfigOption, ConnectionStatus, Emission, Item, ItemKind, Prompt, PromptBlock,
    SendExpect, ServerConfig, SessionSummary, TranscriptEvent,
};

fn server(cwd: &str) -> ServerConfig {
    ServerConfig {
        host: "127.0.0.1".into(),
        port: 3284,
        secret_key: "k".into(),
        use_tls: false,
        accept_invalid_certs: false,
        ca_cert_pem: None,
        cwd: cwd.into(),
        auto_connect: true,
        client_id: "grouse".into(),
        initial_recipe_id: None,
    }
}

fn prompt(text: &str) -> Prompt {
    Prompt { blocks: vec![PromptBlock::Text { text: text.into() }] }
}

fn expect(sid: &str) -> Option<SendExpect> {
    Some(SendExpect { session_id: sid.into() })
}

fn summary(id: &str, updated_at: &str) -> SessionSummary {
    SessionSummary {
        id: id.into(),
        title: id.into(),
        updated_at: updated_at.into(),
        last_message_snippet: None,
        project_id: None,
        message_count: 0,
        model: String::new(),
        has_recipe: false,
        has_new: false,
        archived: false,
    }
}

fn item(id: &str, text: &str) -> Item {
    Item {
        id: id.into(),
        kind: ItemKind::Agent,
        text: text.into(),
        detail: String::new(),
        output: String::new(),
        status: String::new(),
        app_key: String::new(),
        calls: Vec::new(),
    }
}

fn prompt_text(d: &Dispatch) -> String {
    match d {
        Dispatch::Prompt { prompt, .. } => match &prompt.blocks[0] {
            PromptBlock::Text { text } => text.clone(),
            _ => String::new(),
        },
        Dispatch::Config { config_id, .. } => format!("config:{config_id}"),
    }
}

fn option(id: &str, value: &str, name: &str, choices: &[&str]) -> ConfigOption {
    ConfigOption {
        id: id.into(),
        value: value.into(),
        name: name.into(),
        choices: choices.iter().map(|c| ConfigChoice { value: c.to_string(), name: c.to_uppercase() }).collect(),
    }
}

#[test]
fn painting_flows_when_main_owns_the_display() {
    let active = None;
    assert!(main_forwards(&active, Channel::Item));
    assert!(main_forwards(&active, Channel::Usage));
    assert!(main_forwards(&active, Channel::RunEnded));
}

#[test]
fn painting_suppressed_while_a_peer_owns_the_display() {
    let active = Some("laptop".to_string());
    assert!(!main_forwards(&active, Channel::Item), "no painting while a peer owns the screen");
    assert!(!main_forwards(&active, Channel::Usage));
    assert!(main_forwards(&active, Channel::Control));
}

#[test]
fn run_ended_always_flows_so_a_background_turn_drains_its_queue() {
    let active = Some("laptop".to_string());
    assert!(main_forwards(&active, Channel::RunEnded));
}

#[test]
fn freshness_needs_both_stamps_equal() {
    let mut core = CoreState::new();
    core.seed_directory(&vec![summary("s1", "T1"), summary("s2", "")], &vec![("s1".into(), "/w".into())]);
    assert!(core.transcript_is_fresh("s1", "T1"));
    assert!(!core.transcript_is_fresh("s1", "T0"));
    assert!(!core.transcript_is_fresh("s1", ""));
    assert!(!core.transcript_is_fresh("s2", ""));
    assert!(!core.transcript_is_fresh("s3", "T1"));
    assert_eq!(core.known_cwd("s1"), Some("/w".to_string()));
    assert_eq!(core.known_cwd("s2"), None);
}

#[test]
fn a_fresh_cache_paints_and_suppresses_the_replay() {
    let mut core = CoreState::new();
    core.seed_directory(&vec![summary("s1", "T1")], &Vec::new());
    let mut store = TranscriptStore::new();
    let plan = core.paint_cached(&mut store, "s1", Some((vec![item("m1", "hi")], "T1".to_string())));
    assert!(plan.suppress);
    assert!(!plan.merge);
    assert_eq!(store.transcript().len(), 1);
    assert_eq!(core.store_session_id(), Some("s1".to_string()));
    assert!(plan.emissions.contains(&Emission::Transcript(TranscriptEvent::Clear)));
}

#[test]
fn a_stale_cache_paints_for_a_merge() {
    let mut core = CoreState::new();
    core.seed_directory(&vec![summary("s1", "T2")], &Vec::new());
    let mut store = TranscriptStore::new();
    let plan = core.paint_cached(&mut store, "s1", Some((vec![item("m1", "hi")], "T1".to_string())));
    assert!(!plan.suppress);
    assert!(plan.merge);
    assert_eq!(store.rich_transcript().len(), 1, "the stale cache still paints at once");
}

#[test]
fn no_cache_clears_the_view() {
    let mut core = CoreState::new();
    let mut store = TranscriptStore::new();
    store.append_chunk("agent", "other chat", Some("x"), false);
    let plan = core.paint_cached(&mut store, "s9", None);
    assert!(!plan.suppress && !plan.merge);
    assert!(store.transcript().is_empty());
    assert_eq!(plan.emissions[0], Emission::Transcript(TranscriptEvent::Clear));
}

#[test]
fn cold_start_paint_is_not_filed_under_the_transient_session() {
    let mut core = CoreState::new();
    let mut store = TranscriptStore::new();
    core.paint_authoritative(&mut store, "real", vec![item("m1", "hi")]);
    core.connect_begin(server("/w"));
    // The connect binds a throwaway session first: nothing may be saved.
    core.on_conn_status(ConnectionStatus::Ready, Some("throwaway".into()));
    assert_eq!(core.save_target(Some("throwaway".into())), None);
    // Once the real session binds, its rows are filed under it.
    core.seed_directory(&vec![summary("real", "T5")], &Vec::new());
    assert_eq!(core.save_target(Some("real".into())), Some(("real".to_string(), "T5".to_string())));
}

#[test]
fn an_unowned_store_belongs_to_the_first_ready_session() {
    let mut core = CoreState::new();
    core.connect_begin(server("/w"));
    let emitted = core.on_conn_status(ConnectionStatus::Ready, Some("fresh".into()));
    assert_eq!(emitted, ConnectionStatus::Ready);
    assert_eq!(core.store_session_id(), Some("fresh".to_string()));
    assert_eq!(core.save_target(Some("fresh".into())), Some(("fresh".to_string(), String::new())));
}

#[test]
fn prompts_queue_until_a_session_is_bound_then_flush_in_order() {
    let mut core = CoreState::new();
    assert!(core.submit_prompt(prompt("one"), None, None).is_none());
    assert!(core.submit_config("model".into(), "fast".into(), None).is_none());
    assert!(core.submit_prompt(prompt("two"), None, None).is_none());
    assert_eq!(core.pending_len(), 3);
    // Bound: the global queue drains in order until a prompt starts a turn.
    let out = core.flush_pending("s1", Some("s1".into()));
    assert_eq!(out.iter().map(prompt_text).collect::<Vec<_>>(), vec!["one"]);
    assert!(core.prompting());
    assert_eq!(core.pending_len(), 2);
    // A turn in flight holds the rest.
    assert!(core.flush_pending("s1", Some("s1".into())).is_empty());
    core.end_prompt();
    let out = core.flush_pending("s1", Some("s1".into()));
    assert_eq!(out.iter().map(prompt_text).collect::<Vec<_>>(), vec!["config:model", "two"]);
    assert_eq!(core.pending_len(), 0);
}

#[test]
fn prompts_queued_in_one_chat_stay_with_it() {
    let mut core = CoreState::new();
    core.submit_prompt(prompt("for a"), expect("a"), None);
    core.submit_prompt(prompt("for b"), expect("b"), None);
    // Chat b is open: only its prompt goes.
    let out = core.flush_pending("b", Some("b".into()));
    assert_eq!(out.iter().map(prompt_text).collect::<Vec<_>>(), vec!["for b"]);
    assert_eq!(core.pending_len(), 1, "chat a's prompt is still queued");
    core.end_prompt();
    let out = core.flush_pending("a", Some("a".into()));
    assert_eq!(out.iter().map(prompt_text).collect::<Vec<_>>(), vec!["for a"]);
}

#[test]
fn a_prompt_for_another_chat_is_rejected_not_misrouted() {
    let mut core = CoreState::new();
    assert!(core.submit_prompt(prompt("x"), expect("other"), Some("bound".into())).is_none());
    assert_eq!(core.pending_len(), 0);
    assert!(!core.prompting());
    match core.submit_prompt(prompt("y"), expect("bound"), Some("bound".into())) {
        Some(Dispatch::Prompt { session_id, .. }) => assert_eq!(session_id, "bound"),
        _ => panic!("expected the prompt to go out"),
    }
    assert!(core.prompting());
}

#[test]
fn a_config_change_goes_out_at_once_when_bound() {
    let mut core = CoreState::new();
    match core.submit_config("mode".into(), "auto".into(), Some("s1".into())) {
        Some(Dispatch::Config { session_id, config_id, value }) => {
            assert_eq!((session_id.as_str(), config_id.as_str(), value.as_str()), ("s1", "mode", "auto"));
        }
        _ => panic!("expected the config change to go out"),
    }
    assert_eq!(core.pending_len(), 0);
}

#[test]
fn reconnects_back_off_and_give_up_after_six_attempts() {
    let mut core = CoreState::new();
    core.connect_begin(server("/w"));
    let mut delays = Vec::new();
    for _ in 0..RECONNECT_LIMIT {
        match core.schedule_reconnect() {
            ReconnectStep::Wait { delay_ms, gen } => {
                delays.push(delay_ms);
                assert!(core.on_reconnect_timer(gen).is_some());
            }
            _ => panic!("expected a wait"),
        }
    }
    assert_eq!(delays, vec![500, 1000, 2000, 4000, 8000, 15000]);
    match core.schedule_reconnect() {
        ReconnectStep::GiveUp { status } => {
            assert_eq!(
                status,
                ConnectionStatus::Error { message: "connection lost; giving up after 6 reconnect attempts".into() }
            );
        }
        _ => panic!("expected to give up"),
    }
    assert_eq!(core.status(), ConnectionStatus::Error { message: "connection lost; giving up after 6 reconnect attempts".into() });
    // A Ready restores the budget.
    core.on_conn_status(ConnectionStatus::Ready, Some("s1".into()));
    assert_eq!(core.reconnect_attempts(), 0);
}

#[test]
fn a_newer_connect_makes_an_old_timer_inert() {
    let mut core = CoreState::new();
    core.connect_begin(server("/w"));
    let gen = match core.schedule_reconnect() {
        ReconnectStep::Wait { gen, .. } => gen,
        _ => panic!("expected a wait"),
    };
    core.connect_begin(server("/w2"));
    assert!(core.on_reconnect_timer(gen).is_none());
    assert_eq!(core.reconnect_attempts(), 0);
}

#[test]
fn an_explicit_disconnect_stops_everything() {
    let mut core = CoreState::new();
    let gen = core.connect_begin(server("/w"));
    core.disconnect();
    assert_eq!(core.status(), ConnectionStatus::Disconnected);
    assert!(matches!(core.on_connection_ended(gen, Some("s1".into())), ConnEnd::Detach));
    assert!(matches!(core.schedule_reconnect(), ReconnectStep::Stop));
    assert_eq!(core.on_conn_status(ConnectionStatus::Ready, Some("s1".into())), ConnectionStatus::Disconnected);
}

#[test]
fn only_the_current_connection_owes_a_resume() {
    let mut core = CoreState::new();
    let old = core.connect_begin(server("/w"));
    let new = core.connect_begin(server("/w"));
    assert!(matches!(core.on_connection_ended(old, Some("s1".into())), ConnEnd::Inert));
    match core.on_connection_ended(new, Some("s1".into())) {
        ConnEnd::Resume { session_id } => assert_eq!(session_id, "s1"),
        _ => panic!("expected a resume"),
    }
    assert!(matches!(core.on_connection_ended(new, None), ConnEnd::Detach));
}

#[test]
fn a_stale_resume_marks_the_kept_rows_provisional() {
    let mut core = CoreState::new();
    core.seed_directory(&vec![summary("s1", "T2")], &Vec::new());
    let mut store = TranscriptStore::new();
    store.append_chunk("agent", "kept", Some("m1"), false);
    assert!(!core.resume_after_drop(&mut store, "s1", Some("T1".into())));
    // The replay's first real row replaces what was kept.
    store.append_chunk("agent", "replayed", Some("m1"), false);
    assert_eq!(store.transcript().len(), 1);
    assert_eq!(store.transcript()[0].content, "replayed");
    // A fresh cache suppresses and leaves the store alone.
    assert!(core.resume_after_drop(&mut store, "s1", Some("T2".into())));
}

#[test]
fn config_replies_merge_into_the_known_options() {
    let mut core = CoreState::new();
    let snap = core.on_config_reply(vec![option("model", "a", "Model", &["a", "b"]), option("mode", "x", "Mode", &["x"])]).unwrap();
    assert_eq!(snap.len(), 2);
    // A bare update keeps the known name and choices.
    let snap = core.on_config_reply(vec![option("model", "b", "", &[])]).unwrap();
    assert_eq!(snap[0].value, "b");
    assert_eq!(snap[0].name, "Model");
    assert_eq!(snap[0].choices.len(), 2);
    // A new option is appended; an empty reply keeps the list and emits nothing.
    let snap = core.on_config_reply(vec![option("effort", "high", "Effort", &[])]).unwrap();
    assert_eq!(snap.iter().map(|o| o.id.as_str()).collect::<Vec<_>>(), vec!["model", "mode", "effort"]);
    assert!(core.on_config_reply(Vec::new()).is_none());
    assert_eq!(core.config().len(), 3);
}

#[test]
fn a_touch_of_the_active_chat_debounces_a_resync() {
    let mut core = CoreState::new();
    let first = match core.on_session_touched("s1", "T2", Some("s1".into())) {
        TouchStep::Debounce { gen } => gen,
        TouchStep::Relist => panic!("the active chat debounces"),
    };
    let second = match core.on_session_touched("s1", "T3", Some("s1".into())) {
        TouchStep::Debounce { gen } => gen,
        TouchStep::Relist => panic!("the active chat debounces"),
    };
    assert!(!core.on_touch_debounced(first, "s1", Some("s1".into())), "a superseded debounce is inert");
    assert!(core.on_touch_debounced(second, "s1", Some("s1".into())));
    assert_eq!(core.resync_ticks(), RESYNC_TICKS);
    assert!(core.transcript_is_fresh("s1", "T3"));
    // Another session's touch only refreshes the list.
    assert!(matches!(core.on_session_touched("s2", "", Some("s1".into())), TouchStep::Relist));
}

#[test]
fn a_moved_probe_resyncs_and_follows_up_until_the_cycle_ends() {
    let mut core = CoreState::new();
    let gen = match core.on_session_touched("s1", "", Some("s1".into())) {
        TouchStep::Debounce { gen } => gen,
        _ => panic!(),
    };
    assert!(core.on_touch_debounced(gen, "s1", Some("s1".into())));
    let mut follow_ups = Vec::new();
    for n in 0..5 {
        match core.on_session_probe("s1", Some("s1".into()), Some((format!("T{n}"), n))) {
            ProbeStep::Resync { follow_up } => follow_ups.push(follow_up),
            ProbeStep::Ignore => panic!("a moved probe resyncs"),
        }
    }
    assert_eq!(follow_ups, vec![true, true, true, false, false]);
    // The same stamp again did not move: nothing to do.
    assert!(matches!(core.on_session_probe("s1", Some("s1".into()), Some(("T4".into(), 4))), ProbeStep::Ignore));
    // A failed probe, or one for a chat we left, is ignored.
    assert!(matches!(core.on_session_probe("s1", Some("s1".into()), None), ProbeStep::Ignore));
    assert!(matches!(core.on_session_probe("s1", Some("s2".into()), Some(("T9".into(), 9))), ProbeStep::Ignore));
}

#[test]
fn our_own_turn_re_baselines_the_stamp() {
    let mut core = CoreState::new();
    core.record_stamp("s1", Some(("T7".into(), 12)));
    assert!(core.transcript_is_fresh("s1", "T7"));
    assert!(matches!(core.on_session_probe("s1", Some("s1".into()), Some(("T7".into(), 12))), ProbeStep::Ignore));
}

#[test]
fn cwds_resolve_known_then_probed_then_the_working_dir() {
    let mut core = CoreState::new();
    core.connect_begin(server("/home/me"));
    assert_eq!(core.known_cwd("s1"), None);
    assert_eq!(core.settle_cwd("s1", Some("/srv/proj".into())), "/srv/proj");
    assert_eq!(core.known_cwd("s1"), Some("/srv/proj".to_string()));
    assert_eq!(core.settle_cwd("s2", Some(String::new())), "/home/me");
    assert_eq!(core.settle_cwd("s3", None), "/home/me");
    assert_eq!(core.roam_cwd("  /tmp/x "), "/tmp/x");
    assert_eq!(core.roam_cwd("   "), "/home/me");
}

#[test]
fn session_list_replies_fill_the_directory() {
    let mut core = CoreState::new();
    core.on_sessions_reply(
        vec![summary("s1", "T1")],
        &vec![("s1".into(), "/a".into())],
        &vec![("s1".into(), "T1".into())],
    );
    assert_eq!(core.sessions().len(), 1);
    assert_eq!(core.known_cwd("s1"), Some("/a".to_string()));
    assert!(core.transcript_is_fresh("s1", "T1"));
}

#[test]
fn roam_ids_name_their_peer() {
    assert_eq!(peer_label("roam:laptop:s1"), Some("laptop".to_string()));
    assert_eq!(peer_label("roam:laptop"), Some("laptop".to_string()));
    assert_eq!(peer_label("roam:"), Some(String::new()));
    assert_eq!(peer_label("s1"), None);
    assert!(is_bound_to(&Some("s1".into()), "s1"));
    assert!(!is_bound_to(&None, "s1"));
}

#[test]
fn a_reset_drops_the_turn_and_the_resync_cycle_but_keeps_the_queue() {
    let mut core = CoreState::new();
    core.submit_prompt(prompt("queued"), expect("a"), None);
    core.submit_prompt(prompt("now"), None, Some("b".into()));
    assert!(core.prompting());
    let gen = core.touch_gen();
    core.reset_chat_state();
    assert!(!core.prompting());
    assert_eq!(core.pending_len(), 1);
    assert_eq!(core.touch_gen(), gen + 1);
}

#[test]
fn an_open_reuses_the_live_wire_then_falls_back() {
    assert_eq!(open_next(OpenEvent::Start { live: true }), OpenStep::LiveLoad);
    assert_eq!(open_next(OpenEvent::Start { live: false }), OpenStep::Reconnect);
    assert_eq!(open_next(OpenEvent::Loaded { ok: true, live: false }), OpenStep::Ready);
    assert_eq!(open_next(OpenEvent::Loaded { ok: false, live: true }), OpenStep::LiveNew);
    assert_eq!(open_next(OpenEvent::Loaded { ok: false, live: false }), OpenStep::Reconnect);
    assert_eq!(open_next(OpenEvent::Created { ok: true }), OpenStep::BindAndReady);
    assert_eq!(open_next(OpenEvent::Created { ok: false }), OpenStep::Reconnect);
}
