use grouse_core::transcript::{Bubble, TranscriptStore, CLIENT_WINDOW};
use grouse_core::{
    Emission, Item, ItemKind, Message, StreamEvent, ToolCall, ToolCallKind, TranscriptEvent,
    TranscriptOp, TranscriptWindow,
};

/// A store plus the events it emitted, rendered as plain strings so the
/// assertions stay readable: one list per listener channel.
struct Harness {
    store: TranscriptStore,
    t: Vec<String>,
    s: Vec<String>,
    i: Vec<String>,
}

fn kind_desc(kind: &ToolCallKind) -> String {
    match kind {
        ToolCallKind::Plain => "plain".to_string(),
        ToolCallKind::Chart { spec } => format!("chart:{spec}"),
        ToolCallKind::McpApp { .. } => "mcpapp".to_string(),
    }
}

fn op_desc(op: &TranscriptOp) -> String {
    match op {
        TranscriptOp::Reset { .. } => "reset".to_string(),
        TranscriptOp::Upsert { item } => {
            format!("upsert:{}:{:?}:{}:{}", item.id, item.kind, item.text, item.status)
        }
        TranscriptOp::AppendText { id, chunk } => format!("text:{id}:{chunk}"),
        TranscriptOp::AppendOutput { id, chunk } => format!("output:{id}:{chunk}"),
        TranscriptOp::Remove { id } => format!("remove:{id}"),
        TranscriptOp::Window { oldest_id, has_older } => format!("window:{oldest_id}:{has_older}"),
    }
}

impl Harness {
    fn new() -> Self {
        Harness { store: TranscriptStore::new(), t: Vec::new(), s: Vec::new(), i: Vec::new() }
    }

    fn take(&mut self, out: Vec<Emission>) {
        for e in out {
            match e {
                Emission::Transcript(ev) => self.t.push(match ev {
                    TranscriptEvent::Append { message } => {
                        format!("append:{}:{}:{}", message.role, message.id, message.content)
                    }
                    TranscriptEvent::Update { message } => {
                        format!("update:{}:{}:{}", message.role, message.id, message.content)
                    }
                    TranscriptEvent::Clear => "clear".to_string(),
                }),
                Emission::Stream(ev) => self.s.push(match ev {
                    StreamEvent::AgentChunk { text, message_id } => format!("agent:{message_id}:{text}"),
                    StreamEvent::UserChunk { text, message_id } => format!("user:{message_id}:{text}"),
                    StreamEvent::ThoughtChunk { text } => format!("thought:{text}"),
                    StreamEvent::ToolCall { title, detail, tool_call_id, kind } => {
                        format!("toolcall:{title}:{detail}:{tool_call_id}:{}", kind_desc(&kind))
                    }
                    StreamEvent::ToolCallUpdate { id, status, output, live } => {
                        format!("toolupdate:{id}:{status}:{output}:{live}")
                    }
                    StreamEvent::RunEnded { stop_reason } => format!("runended:{stop_reason}"),
                }),
                Emission::Item(op) => self.i.push(op_desc(&op)),
            }
        }
    }

    fn append_chunk(&mut self, role: &str, text: &str, id: Option<&str>, thought: bool) {
        let out = self.store.append_chunk(role, text, id, thought);
        self.take(out);
    }
    fn tool_call(&mut self, title: &str, detail: &str, id: &str, kind: ToolCallKind) {
        let out = self.store.tool_call(title, detail, id, kind);
        self.take(out);
    }
    fn tool_update(&mut self, id: &str, status: &str, output: &str, live: bool) {
        let out = self.store.tool_update(id, status, output, live);
        self.take(out);
    }
    fn tool_app(&mut self, id: &str, uri: &str, extension: &str) {
        let out = self.store.tool_app(id, uri, extension);
        self.take(out);
    }
    fn run_ended(&mut self, stop_reason: &str) {
        let out = self.store.run_ended(stop_reason);
        self.take(out);
    }
    fn clear(&mut self) {
        let out = self.store.clear();
        self.take(out);
    }
    fn replace(&mut self, ms: Vec<Message>) {
        let out = self.store.replace(ms);
        self.take(out);
    }
    fn replace_provisional(&mut self, ms: Vec<Message>) {
        let out = self.store.replace_provisional(ms);
        self.take(out);
    }
    fn replace_for_merge(&mut self, ms: Vec<Message>) {
        let out = self.store.replace_for_merge(ms);
        self.take(out);
    }
    fn replace_rich(&mut self, items: Vec<Item>, provisional: bool) {
        let out = self.store.replace_rich(items, provisional);
        self.take(out);
    }
    fn end_merge(&mut self) -> bool {
        let (gap, out) = self.store.end_merge();
        self.take(out);
        gap
    }
    fn load_older(&mut self, count: usize) {
        let out = self.store.load_older(count);
        self.take(out);
    }
    fn set_session(&mut self, sid: &str) {
        self.store.set_session(sid);
    }
    fn transcript(&self) -> Vec<Message> {
        self.store.transcript()
    }
    fn rich_transcript(&self) -> Vec<Item> {
        self.store.rich_transcript()
    }
    fn rows_for_test(&self) -> Vec<Bubble> {
        self.store.rows_for_test()
    }
    fn window(&self) -> TranscriptWindow {
        self.store.window()
    }
    fn item(&self, id: &str) -> Option<Item> {
        self.store.item(id)
    }
    fn msgs(&self) -> Vec<(String, String, String)> {
        self.store
            .transcript()
            .iter()
            .map(|m| (m.role.clone(), m.id.clone(), m.content.clone()))
            .collect()
    }
}

fn msg(id: &str, role: &str, content: &str) -> Message {
    Message { id: id.into(), role: role.into(), content: content.into(), output: String::new() }
}

fn row(role: &str, id: &str, content: &str) -> (String, String, String) {
    (role.to_string(), id.to_string(), content.to_string())
}

fn text_item(id: &str, kind: ItemKind, t: &str) -> Item {
    Item {
        id: id.into(),
        kind,
        text: t.into(),
        detail: String::new(),
        output: String::new(),
        status: String::new(),
        app_key: String::new(),
        calls: Vec::new(),
    }
}

#[test]
fn chunk_accumulation_across_ids() {
    let mut h = Harness::new();
    h.append_chunk("user", "Hello", Some("m1"), false);
    h.append_chunk("user", " world", Some("m1"), false); // same role+id → accumulate
    h.append_chunk("user", "!", Some("m2"), false); // new id → new bubble
    h.append_chunk("agent", "Sure", Some("m2"), false); // role change → new bubble
    h.append_chunk("agent", " thing", Some("m2"), false); // accumulate
    h.append_chunk("thought", "hmm", None, true);
    h.append_chunk("thought", " more", None, true);

    assert_eq!(
        h.msgs(),
        vec![
            row("user", "m1", "Hello world"),
            row("user", "m2", "!"),
            row("agent", "m2", "Sure thing"),
            row("thought", "", "hmm more"),
        ]
    );
    // Fresh bubbles Append; same-bubble accumulation Updates.
    assert_eq!(
        h.t,
        vec![
            "append:user:m1:Hello",
            "update:user:m1:Hello world",
            "append:user:m2:!",
            "append:agent:m2:Sure",
            "update:agent:m2:Sure thing",
            "append:thought::hmm",
            "update:thought::hmm more",
        ]
    );
    // Every chunk is echoed on the stream.
    assert_eq!(
        h.s,
        vec![
            "user:m1:Hello",
            "user:m1: world",
            "user:m2:!",
            "agent:m2:Sure",
            "agent:m2: thing",
            "thought:hmm",
            "thought: more",
        ]
    );
}

#[test]
fn toolgroup_collapse() {
    let mut h = Harness::new();
    h.tool_call("Bash", "ls", "t1", ToolCallKind::Plain);
    h.tool_call("Bash", "pwd", "t2", ToolCallKind::Plain);
    h.tool_call("Read", "file.txt", "t3", ToolCallKind::Plain);

    // The three consecutive calls collapse into ONE tool bubble anchored on
    // the first call.
    assert_eq!(h.msgs(), vec![row("tool", "t1", "Bash")]);
    let rows = h.rows_for_test();
    match &rows[0] {
        Bubble::ToolGroup(calls) => assert_eq!(calls.len(), 3),
        other => panic!("expected a toolgroup, got {other:?}"),
    }
    // First call appends, each later call updates the same bubble.
    assert_eq!(h.t, vec!["append:tool:t1:Bash", "update:tool:t1:Bash", "update:tool:t1:Bash"]);
    // Every call is echoed on the stream.
    assert_eq!(
        h.s,
        vec![
            "toolcall:Bash:ls:t1:plain",
            "toolcall:Bash:pwd:t2:plain",
            "toolcall:Read:file.txt:t3:plain",
        ]
    );

    // A tool call breaks the text stream: the next chunk opens a fresh
    // bubble even for a role+id already seen before the call.
    h.append_chunk("agent", "done", Some("m1"), false);
    assert_eq!(h.msgs(), vec![row("tool", "t1", "Bash"), row("agent", "m1", "done")]);
}

#[test]
fn tool_app_promotes_late_hydrated_calls() {
    let mut h = Harness::new();
    // Standalone plain call promoted when the completing update carries mcpApp.
    h.tool_call("Dashboard", "{}", "d1", ToolCallKind::Plain);
    h.tool_app("d1", "ui://x/dashboard", "monitorext");
    assert!(
        h.s.iter().any(|e| e == "toolcall:Dashboard:{}:d1:mcpapp"),
        "re-issued stream ToolCall must carry McpApp kind: {:?}",
        h.s
    );
    assert!(h.t.iter().any(|e| e.starts_with("update:tool:d1:")));
    match &h.rows_for_test()[0] {
        Bubble::McpApp(r) => assert_eq!(r.tool_call_id, "d1"),
        other => panic!("expected McpApp bubble, got {other:?}"),
    }

    // Idempotent: replays re-issue the update; the stream must not re-announce.
    let n = h.s.len();
    h.tool_app("d1", "ui://x/dashboard", "monitorext");
    assert_eq!(n, h.s.len(), "re-promote must be a no-op");

    // Group extraction: a promoted call leaves the group and gets its own
    // bubble (Append), and later status updates still find it.
    let mut h2 = Harness::new();
    h2.tool_call("A", "x", "g1", ToolCallKind::Plain);
    h2.tool_call("B", "y", "g2", ToolCallKind::Plain);
    h2.tool_app("g2", "ui://b", "extb");
    assert!(h2.t.iter().any(|e| e.starts_with("append:tool:g2:B")));
    match &h2.rows_for_test()[0] {
        Bubble::ToolGroup(calls) => assert_eq!(calls.len(), 1),
        other => panic!("group should shrink to one call, got {other:?}"),
    }
    h2.s.clear();
    h2.t.clear();
    h2.tool_update("g2", "completed", "out", false);
    assert!(h2.s.iter().any(|e| e.starts_with("toolupdate:g2:completed:")));
}

#[test]
fn chart_and_mcpapp_calls_never_collapse() {
    let mut h = Harness::new();
    h.tool_call("Chart", "", "c1", ToolCallKind::Chart { spec: "{}".into() });
    h.tool_call("Bash", "ls", "t4", ToolCallKind::Plain); // chart in between → no merge
    h.tool_call(
        "App",
        "input",
        "a1",
        ToolCallKind::McpApp { app_key: "k".into(), uri: "u".into(), extension: "x".into(), input: "i".into() },
    );
    assert_eq!(
        h.msgs(),
        vec![row("tool", "c1", "Chart"), row("tool", "t4", "Bash"), row("tool", "a1", "App")]
    );
}

#[test]
fn tool_output_live_appends_completion_replaces() {
    let mut h = Harness::new();
    h.tool_call("Bash", "echo hi", "t1", ToolCallKind::Plain);
    h.tool_update("t1", "in_progress", "line1\n", true);
    h.tool_update("t1", "in_progress", "line2\n", true);
    // Live output accumulates.
    let rows = h.rows_for_test();
    let out = match &rows[0] {
        Bubble::Tool(r) => r.output.clone(),
        other => panic!("expected a tool bubble, got {other:?}"),
    };
    assert_eq!(out, "line1\nline2\n");

    // The completion update REPLACES the accumulated output.
    h.tool_update("t1", "completed", "final output", false);
    match &h.rows_for_test()[0] {
        Bubble::Tool(r) => {
            assert_eq!(r.output, "final output");
            assert_eq!(r.status, "completed");
        }
        other => panic!("expected a tool bubble, got {other:?}"),
    }

    // An empty completion output leaves the accumulator untouched.
    h.tool_update("t1", "completed", "", false);
    match &h.rows_for_test()[0] {
        Bubble::Tool(r) => assert_eq!(r.output, "final output"),
        other => panic!("expected a tool bubble, got {other:?}"),
    }

    // Updates inside a collapsed group behave the same way.
    h.tool_call("Bash", "ls", "t2", ToolCallKind::Plain);
    h.tool_update("t2", "in_progress", "a", true);
    h.tool_update("t2", "completed", "done", false);
    match &h.rows_for_test()[0] {
        Bubble::ToolGroup(calls) => {
            assert_eq!(calls[1].output, "done");
            assert_eq!(calls[1].status, "completed");
        }
        other => panic!("expected a toolgroup, got {other:?}"),
    }

    assert_eq!(
        h.s,
        vec![
            "toolcall:Bash:echo hi:t1:plain",
            "toolupdate:t1:in_progress:line1\n:true",
            "toolupdate:t1:in_progress:line2\n:true",
            "toolupdate:t1:completed:final output:false",
            "toolupdate:t1:completed::false",
            "toolcall:Bash:ls:t2:plain",
            "toolupdate:t2:in_progress:a:true",
            "toolupdate:t2:completed:done:false",
        ]
    );
    // Every successful tool update fires a transcript Update.
    assert!(h.t.iter().filter(|e| e.starts_with("update:tool:")).count() >= 5);
}

#[test]
fn tool_update_status_only_for_chart_bubbles() {
    let mut h = Harness::new();
    h.tool_call("Chart", "", "c1", ToolCallKind::Chart { spec: "{}".into() });
    h.tool_update("c1", "failed", "ignored output", false);
    match &h.rows_for_test()[0] {
        Bubble::Chart(r) => {
            assert_eq!(r.status, "failed");
            // Chart and MCP-app bubbles never carry output.
            assert_eq!(r.output, "");
        }
        other => panic!("expected a chart bubble, got {other:?}"),
    }
}

#[test]
fn tool_update_unknown_id_emits_stream_only() {
    let mut h = Harness::new();
    h.tool_update("ghost", "completed", "out", false);
    assert!(h.t.is_empty());
    assert_eq!(h.s, vec!["toolupdate:ghost:completed:out:false"]);
}

#[test]
fn usage_and_run_ended_are_stream_only() {
    // Usage carries a float cost and is forwarded by the runtime, not the
    // store; the turn end is the store's, and it too is stream-only.
    let mut h = Harness::new();
    h.append_chunk("agent", "hi", Some("m1"), false);
    h.run_ended("end_turn");
    assert!(h.t.iter().all(|e| e.starts_with("append:")));
    assert_eq!(h.s, vec!["agent:m1:hi", "runended:end_turn"]);
}

#[test]
fn clear_wipes_transcript_and_resets_stream() {
    let mut h = Harness::new();
    h.append_chunk("agent", "one", Some("m1"), false);
    h.tool_call("Bash", "ls", "t1", ToolCallKind::Plain);
    assert_eq!(h.transcript().len(), 2);

    h.clear();
    assert!(h.transcript().is_empty());
    assert_eq!(h.t, vec!["append:agent:m1:one", "append:tool:t1:Bash", "clear"]);

    // Stream state reset: the same id now starts a fresh bubble.
    h.append_chunk("agent", "again", Some("m1"), false);
    assert_eq!(h.msgs(), vec![row("agent", "m1", "again")]);
}

#[test]
fn replace_rebuilds_and_emits_clear_once() {
    let mut h = Harness::new();
    h.append_chunk("user", "old", Some("m1"), false);
    h.replace(vec![
        msg("m1", "user", "hi"),
        msg("m2", "agent", "hello"),
        msg("t1", "tool", "Bash"),
        msg("", "thought", "hmm"),
    ]);
    // The rebuild is faithful: the projection reproduces the input.
    assert_eq!(
        h.msgs(),
        vec![
            row("user", "m1", "hi"),
            row("agent", "m2", "hello"),
            row("tool", "t1", "Bash"),
            row("thought", "", "hmm"),
        ]
    );
    // Exactly one Clear, no per-message appends.
    assert_eq!(h.t, vec!["append:user:m1:old", "clear"]);

    // Stream state reset: a chunk for an already-loaded id starts fresh.
    h.append_chunk("user", "new", Some("m1"), false);
    let t = h.transcript();
    assert_eq!(t.len(), 5);
    assert_eq!(t[4].content, "new");
}

#[test]
fn replace_with_identical_content_is_a_noop() {
    let mut h = Harness::new();
    let snapshot = vec![msg("m1", "user", "hi"), msg("m2", "agent", "hello")];
    h.replace(snapshot.clone());
    assert_eq!(h.t, vec!["clear"]);

    // A cold start paints the cache twice: the second replace of the SAME
    // content must not emit another Clear.
    h.replace(snapshot.clone());
    assert_eq!(h.t, vec!["clear"], "identical replace must be a no-op");

    // A genuinely different snapshot still rebuilds.
    h.replace(vec![msg("m1", "user", "hi"), msg("m2", "agent", "changed")]);
    assert_eq!(h.t, vec!["clear", "clear"]);
}

#[test]
fn provisional_paint_is_superseded_by_the_first_real_row() {
    let mut h = Harness::new();
    h.set_session("s1");
    h.replace_provisional(vec![msg("old2", "user", "old prompt"), msg("old1", "agent", "19h-old reply")]);
    assert_eq!(h.msgs().len(), 2, "painted rows render instantly");
    h.i.clear();

    // First replayed row: painted rows go, the replay's order wins.
    h.append_chunk("user", "replayed", Some("m1"), false);
    assert_eq!(
        h.msgs(),
        vec![row("user", "m1", "replayed")],
        "a replayed row must never land after painted rows"
    );
    // The item stream is told the paint is gone BEFORE the replay's Upsert.
    assert_eq!(h.i, vec!["reset", "upsert:m1:User:replayed:"], "drop the provisional paint on the item stream first");
}

#[test]
fn provisional_paint_survives_promotion_to_fresh() {
    let mut h = Harness::new();
    let snapshot = vec![msg("m1", "user", "hi"), msg("m2", "agent", "hello")];
    h.replace_provisional(snapshot.clone());
    h.replace(snapshot);
    h.append_chunk("user", "next", Some("m3"), false);
    assert_eq!(
        h.msgs(),
        vec![row("user", "m1", "hi"), row("agent", "m2", "hello"), row("user", "m3", "next")]
    );
}

#[test]
fn authoritative_replace_is_not_dropped_by_later_rows() {
    let mut h = Harness::new();
    h.replace(vec![msg("a", "agent", "authoritative")]);
    h.append_chunk("user", "live", Some("m2"), false);
    assert_eq!(h.msgs().len(), 2, "a non-provisional snapshot must survive real rows");
}

#[test]
fn tool_rows_also_supersede_a_provisional_paint() {
    let mut h = Harness::new();
    h.replace_provisional(vec![msg("old", "agent", "stale")]);
    h.tool_call("Bash", "ls", "t1", ToolCallKind::Plain);
    let t = h.msgs();
    assert_eq!(t.len(), 1, "the painted row must be gone");
    assert_eq!(t[0].0, "tool");
    assert_eq!(t[0].1, "t1");
}

#[test]
fn replay_merge_keeps_the_older_prefix_and_replaces_the_tail() {
    let mut h = Harness::new();
    h.replace_for_merge(vec![msg("old", "user", "ancient"), msg("m1", "user", "hi"), msg("m2", "agent", "hello")]);
    // The bounded tail starts at m1 (present in the cache) and adds m3.
    h.append_chunk("user", "hi", Some("m1"), false);
    h.append_chunk("agent", "world", Some("m3"), false);
    assert_eq!(
        h.msgs(),
        vec![row("user", "old", "ancient"), row("user", "m1", "hi"), row("agent", "m3", "world")]
    );
    assert!(!h.end_merge(), "the tail anchored on m1: no gap");
}

#[test]
fn replay_merge_anchors_on_a_tool_call_id_too() {
    let mut h = Harness::new();
    h.replace_for_merge(vec![msg("m1", "user", "hi"), msg("t1", "tool", "Bash")]);
    h.tool_call("Bash", "ls", "t1", ToolCallKind::Plain);
    h.append_chunk("agent", "done", Some("m2"), false);
    assert_eq!(
        h.msgs(),
        vec![row("user", "m1", "hi"), row("tool", "t1", "Bash"), row("agent", "m2", "done")]
    );
    assert!(!h.end_merge());
}

#[test]
fn replay_merge_without_overlap_reports_a_gap() {
    let mut h = Harness::new();
    h.replace_for_merge(vec![msg("old", "user", "ancient")]);
    h.append_chunk("agent", "new", Some("z9"), false);
    assert!(h.end_merge(), "no overlap => a full reload is owed");
}

#[test]
fn a_merge_paint_is_not_dropped_by_supersede_provisional() {
    let mut h = Harness::new();
    h.replace_for_merge(vec![msg("old", "user", "ancient"), msg("m1", "agent", "hello")]);
    // A tool row that does not overlap must NOT wipe the painted prefix.
    h.tool_call("Bash", "ls", "t9", ToolCallKind::Plain);
    let t = h.msgs();
    assert_eq!(t.len(), 3, "the painted prefix survives an unanchored row");
    assert_eq!(t[0].1, "old");
    assert_eq!(t[1].1, "m1");
    assert_eq!(t[2].1, "t9");
    assert!(h.end_merge());
}

#[test]
fn rich_items_keep_chart_app_and_toolgroup_kinds() {
    let mut h = Harness::new();
    h.tool_call("Chart", "input", "c1", ToolCallKind::Chart { spec: r#"{"a":1}"#.into() });
    h.tool_call("A", "x", "g1", ToolCallKind::Plain);
    h.tool_call("B", "y", "g2", ToolCallKind::Plain);
    h.tool_call(
        "Dashboard",
        "{}",
        "a1",
        ToolCallKind::McpApp {
            app_key: "ext|ui://d".into(),
            uri: "ui://d".into(),
            extension: "ext".into(),
            input: "{}".into(),
        },
    );
    let items = h.rich_transcript();
    // Chart: the SPEC is retained.
    assert_eq!(items[0].kind, ItemKind::Chart);
    assert_eq!(items[0].detail, r#"{"a":1}"#);
    // Two consecutive plain calls collapse into one toolgroup item.
    assert_eq!(items[1].kind, ItemKind::ToolGroup);
    assert_eq!(items[1].calls.len(), 2);
    assert_eq!(items[1].calls[0].title, "A");
    assert_eq!(items[1].id, "g1", "anchored on the first call");
    // MCP app: the resource key survives.
    assert_eq!(items[2].kind, ItemKind::McpApp);
    assert_eq!(items[2].app_key, "ext|ui://d");
}

#[test]
fn item_ops_emit_upsert_then_deltas_then_final_upsert() {
    let mut h = Harness::new();
    h.append_chunk("agent", "Hel", Some("m1"), false);
    h.append_chunk("agent", "lo", Some("m1"), false);
    h.tool_call("Bash", "ls", "t1", ToolCallKind::Plain);
    h.tool_update("t1", "in_progress", "out1", true);
    h.tool_update("t1", "completed", "final", false);
    assert_eq!(
        h.i,
        vec![
            "upsert:m1:Agent:Hel:",
            "text:m1:lo",
            "upsert:m1:Agent:Hello:",
            "upsert:t1:Tool:Bash:in_progress",
            "output:t1:out1",
            "upsert:t1:Tool:Bash:completed",
        ]
    );
}

#[test]
fn a_turn_end_finalizes_the_streamed_row() {
    let mut h = Harness::new();
    h.append_chunk("agent", "Hel", Some("m1"), false);
    h.append_chunk("agent", "lo", Some("m1"), false);
    h.run_ended("end_turn");
    assert_eq!(h.i, vec!["upsert:m1:Agent:Hel:", "text:m1:lo", "upsert:m1:Agent:Hello:"]);
}

#[test]
fn text_row_without_a_message_id_gets_a_stable_synthetic_id() {
    let mut h = Harness::new();
    h.append_chunk("thought", "hmm", None, true);
    h.append_chunk("thought", " more", None, true);
    assert_eq!(h.i, vec!["upsert:@1:Thought:hmm:", "text:@1: more"]);
    let items = h.rich_transcript();
    assert_eq!(items[0].id, "@1");
    assert_eq!(items[0].text, "hmm more");
}

#[test]
fn rich_snapshot_round_trips_through_the_store() {
    let mut h = Harness::new();
    h.set_session("s1");
    let items = vec![
        text_item("m1", ItemKind::User, "hi"),
        Item {
            id: "c1".into(),
            kind: ItemKind::Chart,
            text: "Sankey".into(),
            detail: r#"{"nodes":[]}"#.into(),
            output: String::new(),
            status: "completed".into(),
            app_key: String::new(),
            calls: Vec::new(),
        },
        Item {
            id: "a1".into(),
            kind: ItemKind::McpApp,
            text: "Dashboard".into(),
            detail: "{}".into(),
            output: String::new(),
            status: "completed".into(),
            app_key: "ext|ui://d".into(),
            calls: Vec::new(),
        },
        Item {
            id: "t1".into(),
            kind: ItemKind::ToolGroup,
            text: String::new(),
            detail: String::new(),
            output: String::new(),
            status: String::new(),
            app_key: String::new(),
            calls: vec![
                ToolCall { id: "t1".into(), title: "Bash".into(), detail: "ls".into(), output: "x".into(), status: "completed".into() },
                ToolCall { id: "t2".into(), title: "Read".into(), detail: "f".into(), output: "y".into(), status: "completed".into() },
            ],
        },
    ];
    h.replace_rich(items.clone(), false);

    assert_eq!(h.rich_transcript(), items);
    assert_eq!(h.item("c1").unwrap().detail, r#"{"nodes":[]}"#);
    assert_eq!(h.item("a1").unwrap().app_key, "ext|ui://d");
    assert_eq!(h.item("t2").unwrap().kind, ItemKind::ToolGroup);
    assert_eq!(h.item("t2").unwrap().calls.len(), 2);
    assert_eq!(h.item("m1").unwrap().kind, ItemKind::User);

    assert_eq!(h.window().oldest_id, "m1");
    assert_eq!(h.window().newest_id, "t1");
    assert!(!h.window().has_older);
}

#[test]
fn a_merge_repaints_the_window_for_the_item_client() {
    let mut h = Harness::new();
    h.set_session("s1");
    h.replace_for_merge(vec![msg("old", "user", "ancient"), msg("m1", "agent", "hello")]);
    // The bounded tail anchors on the cached m1 and re-delivers it.
    h.append_chunk("agent", "hi", Some("m1"), false);
    h.i.clear();
    assert!(!h.end_merge(), "the tail overlapped the cache");

    let ops = h.i.clone();
    assert!(ops.first().unwrap().starts_with("reset"), "{ops:?}");
    assert!(ops.iter().any(|o| o.starts_with("upsert:")), "{ops:?}");
    assert!(ops.last().unwrap().starts_with("window:"), "{ops:?}");
}

#[test]
fn a_paint_emits_only_the_window_and_load_older_walks_back() {
    let mut h = Harness::new();
    h.set_session("s1");
    let items: Vec<Item> = (0..100)
        .map(|n| {
            let kind = if n % 2 == 0 { ItemKind::User } else { ItemKind::Agent };
            text_item(&format!("m{n}"), kind, &format!("t{n}"))
        })
        .collect();
    h.replace_rich(items, false);

    // A paint emits Reset + only the newest CLIENT_WINDOW items + Window.
    let ops = h.i.clone();
    assert_eq!(ops.first().unwrap(), "reset");
    assert_eq!(ops.iter().filter(|o| o.starts_with("upsert:")).count(), 60);
    assert_eq!(CLIENT_WINDOW, 60);
    assert_eq!(ops.last().unwrap(), "window:m40:true");
    assert_eq!(h.window().oldest_id, "m40");
    assert!(h.window().has_older);

    h.i.clear();
    h.load_older(20);
    let ops = h.i.clone();
    assert_eq!(ops.iter().filter(|o| o.starts_with("upsert:")).count(), 20);
    assert_eq!(ops.last().unwrap(), "window:m20:true");
    assert_eq!(h.window().oldest_id, "m20");

    // The store is NOT truncated.
    assert_eq!(h.rich_transcript().len(), 100);
    assert!(h.window().has_older);

    // Walking to the start: the last load returns nothing older but STILL
    // answers with a Window.
    h.i.clear();
    h.load_older(1000);
    let ops = h.i.clone();
    assert_eq!(ops.iter().filter(|o| o.starts_with("upsert:")).count(), 20);
    assert_eq!(ops.last().unwrap(), "window:m0:false");
    assert!(!h.window().has_older);

    h.i.clear();
    h.load_older(40);
    assert_eq!(h.i, vec!["window:m0:false"], "an empty load still answers");
}

#[test]
fn synthetic_item_ids_do_not_leak_into_the_flat_projection() {
    let mut h = Harness::new();
    h.append_chunk("thought", "hmm", None, true);
    assert_eq!(h.msgs(), vec![row("thought", "", "hmm")]);
    assert_eq!(h.rich_transcript()[0].id, "@1");
}

#[test]
fn same_id_chunks_accumulate_into_one_row() {
    let mut h = Harness::new();
    h.append_chunk("agent", "a", Some("m1"), false);
    h.append_chunk("agent", "b", Some("m1"), false);
    h.append_chunk("agent", "c", Some("m1"), false);
    assert_eq!(h.msgs(), vec![row("agent", "m1", "abc")]);
}

#[test]
fn apply_output_appends_live_and_replaces_otherwise() {
    let mut acc = String::from("x");
    grouse_core::transcript::apply_output(&mut acc, "y", true);
    assert_eq!(acc, "xy");
    grouse_core::transcript::apply_output(&mut acc, "z", false);
    assert_eq!(acc, "z");
    grouse_core::transcript::apply_output(&mut acc, "", false);
    assert_eq!(acc, "z");
}

#[test]
fn an_empty_message_id_continues_the_open_bubble() {
    let mut h = Harness::new();
    h.append_chunk("agent", "Hel", Some("m1"), false);
    h.append_chunk("agent", "lo", Some(""), false);
    assert_eq!(h.msgs(), vec![row("agent", "m1", "Hello")]);
}

#[test]
fn a_shorter_snapshot_is_rebuilt_not_kept() {
    let mut h = Harness::new();
    h.replace(vec![msg("m1", "user", "hi"), msg("m2", "agent", "hello")]);
    h.t.clear();
    h.replace(vec![msg("m1", "user", "hi")]);
    assert_eq!(h.t, vec!["clear".to_string()]);
    assert_eq!(h.msgs(), vec![row("user", "m1", "hi")]);
    // The stream was reset: a chunk under an id already shown opens a new row.
    h.append_chunk("user", "again", Some("m1"), false);
    assert_eq!(h.msgs().len(), 2);
}

#[test]
fn a_shorter_rich_snapshot_is_rebuilt_not_kept() {
    let mut h = Harness::new();
    let a = text_item("a", ItemKind::User, "one");
    let b = text_item("b", ItemKind::Agent, "two");
    h.replace_rich(vec![a.clone(), b], false);
    h.t.clear();
    h.replace_rich(vec![a.clone()], false);
    assert_eq!(h.t, vec!["clear".to_string()]);
    assert_eq!(h.rich_transcript(), vec![a]);
}
