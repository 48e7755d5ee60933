use grouse_core::transport::{FrameKind, Inbound, KeepAlive, KeepAliveState, Tick, WsTransport};

fn fast_keepalive() -> KeepAlive {
    KeepAlive { check_ms: 10, idle_after_ms: 30, pong_timeout_ms: 80 }
}

/// Runs the ticker from `from` to `to` (exclusive) every `check_ms`,
/// collecting what each tick asks for.
fn run_ticks(state: &mut KeepAliveState, ka: &KeepAlive, from: u64, to: u64) -> Vec<(u64, Tick)> {
    let mut out = Vec::new();
    let mut now = from;
    while now < to {
        let t = state.tick(now, ka);
        if t != Tick::Idle {
            out.push((now, t));
        }
        now += ka.check_ms;
    }
    out
}

#[test]
fn idle_connection_gets_pinged() {
    let ka = fast_keepalive();
    let mut state = KeepAliveState::new();
    // No inbound traffic: a ping is due once the idle window has passed.
    let ticks = run_ticks(&mut state, &ka, 0, 40);
    assert_eq!(ticks, vec![(30, Tick::Ping)]);
}

#[test]
fn streaming_traffic_suppresses_pings() {
    let ka = fast_keepalive();
    let mut state = KeepAliveState::new();
    // Steady inbound traffic every 15ms keeps the idle clock rebased: no ping.
    let mut now = 0;
    for _ in 0..6 {
        assert_eq!(state.on_frame(now, FrameKind::Text, false), Inbound::Forward);
        assert_eq!(state.tick(now + 5, &ka), Tick::Idle);
        assert_eq!(state.tick(now + 14, &ka), Tick::Idle);
        now += 15;
    }
}

#[test]
fn unanswered_ping_kills_the_connection() {
    let ka = fast_keepalive();
    let mut state = KeepAliveState::new();
    // The peer answers nothing: after the ping the pong deadline passes and
    // the wire is declared dead.
    let ticks = run_ticks(&mut state, &ka, 0, 200);
    assert_eq!(ticks.first(), Some(&(30, Tick::Ping)));
    assert!(ticks.iter().any(|(_, t)| *t == Tick::Dead), "the dead connection is detected: {ticks:?}");
    let dead_at = ticks.iter().find(|(_, t)| *t == Tick::Dead).unwrap().0;
    assert!(dead_at > 30 + 80);
}

#[test]
fn pong_resets_the_deadline() {
    let ka = fast_keepalive();
    let mut state = KeepAliveState::new();
    // Answer every ping with a pong: the connection stays alive across many
    // pong windows.
    let mut answered = 0;
    let mut now = 0;
    while now < 1000 {
        match state.tick(now, &ka) {
            Tick::Ping => {
                assert_eq!(state.on_frame(now + 1, FrameKind::Pong, false), Inbound::Skip);
                answered += 1;
            }
            Tick::Dead => panic!("answered pings must not kill the socket (at {now})"),
            Tick::Idle => {}
        }
        now += ka.check_ms;
    }
    assert!(answered >= 2);
}

#[test]
fn host_header_is_authority_only() {
    // Default wss port: the Host omits it.
    let t = WsTransport::new("goose.gauvin.id", 443, "k", true, false, None);
    assert_eq!(t.host_authority(), "goose.gauvin.id");

    let t = WsTransport::new("192.168.1.5", 3284, "k", false, false, None);
    assert_eq!(t.host_authority(), "192.168.1.5:3284");

    let t = WsTransport::new("example.com", 80, "k", false, false, None);
    assert_eq!(t.host_authority(), "example.com");
}

#[test]
fn endpoints_pick_the_scheme_and_path() {
    let t = WsTransport::new("h", 443, "secret", true, true, Some("PEM".to_string()));
    assert_eq!(t.endpoint(), "wss://h:443/acp");
    assert_eq!(t.secret_key(), "secret");
    assert!(t.accept_invalid_certs());
    assert_eq!(t.ca_cert_pem(), Some("PEM"));
    let t = WsTransport::new("h", 3284, "k", false, false, None);
    assert_eq!(t.endpoint(), "ws://h:3284/acp");
    // A non-default port on TLS is kept in the Host.
    let t = WsTransport::new("h", 8443, "k", true, false, None);
    assert_eq!(t.host_authority(), "h:8443");
}

#[test]
fn frames_route_by_kind() {
    let mut state = KeepAliveState::new();
    assert_eq!(state.on_frame(7, FrameKind::Text, true), Inbound::Skip);
    assert_eq!(state.on_frame(8, FrameKind::Binary, false), Inbound::Skip);
    assert_eq!(state.on_frame(9, FrameKind::Close, false), Inbound::Closed);
    assert_eq!(state.last_seen, 9);
    assert_eq!(state.ping_deadline, None);
}

#[test]
fn the_default_keepalive_timings() {
    let ka = KeepAlive::default();
    assert_eq!((ka.check_ms, ka.idle_after_ms, ka.pong_timeout_ms), (5000, 30000, 15000));
}
