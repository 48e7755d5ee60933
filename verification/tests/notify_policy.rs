use grouse_core::notify::{
    already_announced, briefing, decide_notify, envelope_from, parse_push, trim, NotifyContext,
    NotifyDecision, PushEnvelope, PushKind, SAME_TURN_WINDOW_SECS,
};

fn ctx(visible: bool, armed: Option<&str>) -> NotifyContext {
    // Desktop-like by default: announces turns it did not arm.
    NotifyContext {
        app_visible: visible,
        armed_session: armed.map(str::to_owned),
        session_title: None,
        announced_session: None,
        announced_secs_ago: None,
        announce_any_turn: true,
    }
}

fn phone_ctx(visible: bool, armed: Option<&str>) -> NotifyContext {
    NotifyContext {
        app_visible: visible,
        armed_session: armed.map(str::to_owned),
        session_title: None,
        announced_session: None,
        announced_secs_ago: None,
        announce_any_turn: false,
    }
}

#[test]
fn parses_the_envelope() {
    let e = parse_push(r#"{"type":"turn","session":"s1","text":"done"}"#);
    assert_eq!(e.kind, PushKind::Turn);
    assert_eq!(e.session_id.as_deref(), Some("s1"));
    assert_eq!(e.text, "done");

    let b = parse_push(r#"{"type":"notify","text":"brief"}"#);
    assert_eq!(b.kind, PushKind::Briefing);
    assert_eq!(b.session_id, None);
    assert_eq!(b.text, "brief");
}

#[test]
fn unparseable_bodies_still_reach_the_user() {
    // A sender that posted bare text is a briefing.
    let e = parse_push("plain sentence");
    assert_eq!(e.kind, PushKind::Briefing);
    assert_eq!(e.text, "plain sentence");

    // Broken JSON keeps the raw body rather than dropping the message.
    let e = parse_push(r#"{"type":"turn","text":"#);
    assert_eq!(e.kind, PushKind::Briefing);
    assert_eq!(e.text, r#"{"type":"turn","text":"#);

    // An envelope with a missing/empty text falls back to the raw body.
    let e = parse_push(r#"{"type":"turn","session":"s1"}"#);
    assert_eq!(e.kind, PushKind::Turn);
    assert_eq!(e.text, r#"{"type":"turn","session":"s1"}"#);
}

#[test]
fn a_visible_client_is_never_notified() {
    let e = parse_push(r#"{"type":"notify","text":"x"}"#);
    assert!(!decide_notify(e, ctx(true, None)).show);
}

#[test]
fn armed_sessions_gate_turn_nudges_only() {
    let turn = parse_push(r#"{"type":"turn","session":"mine","text":"done"}"#);
    assert!(decide_notify(turn.clone(), ctx(false, Some("mine"))).show);

    let other = parse_push(r#"{"type":"turn","session":"theirs","text":"done"}"#);
    assert!(!decide_notify(other, ctx(false, Some("mine"))).show);

    // Without an armed session (single-client desktop) every turn is ours.
    assert!(decide_notify(turn, ctx(false, None)).show);

    // A briefing is never gated by the armed session.
    let brief = parse_push(r#"{"type":"notify","text":"brief"}"#);
    assert!(decide_notify(brief, ctx(false, Some("mine"))).show);
}

#[test]
fn the_phone_suppresses_turns_it_did_not_arm() {
    let scheduled = parse_push(r#"{"type":"turn","session":"heartbeat","text":"done"}"#);
    assert!(!decide_notify(scheduled.clone(), phone_ctx(false, None)).show);
    // Once this device has armed a session, that session's turn is announced...
    assert!(decide_notify(scheduled, phone_ctx(false, Some("heartbeat"))).show);
    // ...and another session's still is not.
    let other = parse_push(r#"{"type":"turn","session":"elsewhere","text":"done"}"#);
    assert!(!decide_notify(other, phone_ctx(false, Some("heartbeat"))).show);
    // The live path on the phone (the turn is its own) announces normally.
    let mine = parse_push(r#"{"type":"turn","session":"open","text":"done"}"#);
    assert!(decide_notify(mine, ctx(false, None)).show);
}

#[test]
fn wording_is_shared_and_stable() {
    let turn = parse_push(r#"{"type":"turn","session":"s","text":"the answer"}"#);
    let d = decide_notify(turn, ctx(false, None));
    assert_eq!(d.summary, "Grouse replied");
    assert_eq!(d.body, "the answer");

    let brief = parse_push(r#"{"type":"notify","text":"a briefing"}"#);
    let d = decide_notify(brief, ctx(false, None));
    assert_eq!(d.summary, "Grouse briefing");
    assert_eq!(d.body, "a briefing");
}

#[test]
fn the_second_path_to_the_same_turn_stays_quiet() {
    let turn = parse_push(r#"{"type":"turn","session":"s","text":"done"}"#);
    let mut c = ctx(false, None);
    c.announced_session = Some("s".to_string());
    c.announced_secs_ago = Some(5);
    assert!(!decide_notify(turn.clone(), c).show);

    // A different session, or a stale window, is a new event.
    let mut other = ctx(false, None);
    other.announced_session = Some("elsewhere".to_string());
    other.announced_secs_ago = Some(5);
    assert!(decide_notify(turn.clone(), other).show);

    let mut stale = ctx(false, None);
    stale.announced_session = Some("s".to_string());
    stale.announced_secs_ago = Some(SAME_TURN_WINDOW_SECS + 1);
    assert!(decide_notify(turn.clone(), stale).show);

    // Briefings are never deduped against a turn.
    let brief = parse_push(r#"{"type":"notify","text":"brief"}"#);
    let mut c = ctx(false, None);
    c.announced_session = Some("s".to_string());
    c.announced_secs_ago = Some(1);
    assert!(decide_notify(brief, c).show);
}

#[test]
fn a_known_session_title_leads_the_notification() {
    let turn = parse_push(r#"{"type":"turn","session":"s","text":"the answer"}"#);
    let mut titled = ctx(false, None);
    titled.session_title = Some("Daily Digest".to_string());
    let d = decide_notify(turn.clone(), titled);
    assert_eq!(d.summary, "Daily Digest");
    assert_eq!(d.body, "the answer");

    // An empty title is not a title.
    let mut blank = ctx(false, None);
    blank.session_title = Some(String::new());
    assert_eq!(decide_notify(turn, blank).summary, "Grouse replied");
}

#[test]
fn empty_payloads_are_not_notifications() {
    let e = PushEnvelope { kind: PushKind::Turn, session_id: None, text: String::new() };
    assert!(!decide_notify(e, ctx(false, None)).show);
}

#[test]
fn the_same_turn_window_is_inclusive() {
    let turn = parse_push(r#"{"type":"turn","session":"s","text":"done"}"#);
    let mut c = ctx(false, None);
    c.announced_session = Some("s".to_string());
    c.announced_secs_ago = Some(SAME_TURN_WINDOW_SECS);
    assert!(already_announced(&turn, &c));
    c.announced_secs_ago = Some(SAME_TURN_WINDOW_SECS + 1);
    assert!(!already_announced(&turn, &c));
    // An envelope without a session is never a repeat.
    let anonymous = PushEnvelope { kind: PushKind::Turn, session_id: None, text: "x".into() };
    c.announced_secs_ago = Some(0);
    assert!(!already_announced(&anonymous, &c));
}

#[test]
fn parse_push_trims_the_body_and_ignores_empty_fields() {
    let e = parse_push("  \n{\"type\":\"turn\",\"session\":\"\",\"text\":\"\"}\t ");
    assert_eq!(e.kind, PushKind::Turn);
    assert_eq!(e.session_id, None);
    assert_eq!(e.text, "{\"type\":\"turn\",\"session\":\"\",\"text\":\"\"}");
    // A JSON value that is not an object is a briefing of the raw body.
    let e = parse_push(" [1,2] ");
    assert_eq!(e, briefing("[1,2]"));
    // Non-string members are ignored.
    let e = parse_push(r#"{"type":7,"session":9,"text":"hi"}"#);
    assert_eq!(e.kind, PushKind::Briefing);
    assert_eq!(e.session_id, None);
    assert_eq!(e.text, "hi");
}

#[test]
fn envelope_from_reads_the_members_given() {
    let members = vec![
        ("type".to_string(), Some("turn".to_string())),
        ("session".to_string(), Some("s2".to_string())),
        ("text".to_string(), Some("ok".to_string())),
    ];
    let e = envelope_from("raw", Some(Some(members)));
    assert_eq!(e, PushEnvelope { kind: PushKind::Turn, session_id: Some("s2".into()), text: "ok".into() });
    assert_eq!(envelope_from("raw", None), briefing("raw"));
    assert_eq!(envelope_from("raw", Some(None)), briefing("raw"));
}

#[test]
fn trim_strips_unicode_whitespace_at_both_ends() {
    assert_eq!(trim("\u{3000} a b \u{2029}"), "a b");
    assert_eq!(trim("   "), "");
    assert_eq!(trim("x"), "x");
}

#[test]
fn a_hidden_decision_is_empty() {
    assert_eq!(
        NotifyDecision::hidden(),
        NotifyDecision { show: false, summary: String::new(), body: String::new() }
    );
}
