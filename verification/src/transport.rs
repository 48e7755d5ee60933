//! The WebSocket transport's endpoint and upgrade `Host`, and the idle
//! keepalive state machine that decides when to ping and when the wire is
//! dead. The socket itself, TLS and the timers are the caller's.

use vstd::prelude::*;
use vstd::string::*;

use crate::text::{concat, decimal, owned, push_decimal};

verus! {

/// A WebSocket transport for a goosed ACP server.
pub struct WsTransport {
    endpoint: String,
    host: String,
    port: u16,
    use_tls: bool,
    secret_key: String,
    /// Accept any server certificate (trust-all) instead of verifying it.
    accept_invalid_certs: bool,
    /// PEM-encoded CA certificate(s) for the verifier's trust store.
    ca_cert_pem: Option<String>,
}

pub struct TransportV {
    pub endpoint: Seq<char>,
    pub host: Seq<char>,
    pub port: u16,
    pub use_tls: bool,
    pub secret_key: Seq<char>,
    pub accept_invalid_certs: bool,
    pub ca_cert_pem: Option<Seq<char>>,
}

impl View for WsTransport {
    type V = TransportV;

    closed spec fn view(&self) -> TransportV {
        TransportV {
            endpoint: self.endpoint@,
            host: self.host@,
            port: self.port,
            use_tls: self.use_tls,
            secret_key: self.secret_key@,
            accept_invalid_certs: self.accept_invalid_certs,
            ca_cert_pem: crate::spine::opt_seq(self.ca_cert_pem),
        }
    }
}

/// `{ws|wss}://<host>:<port>/acp`.
pub open spec fn endpoint_v(host: Seq<char>, port: u16, use_tls: bool) -> Seq<char> {
    (if use_tls { "wss"@ } else { "ws"@ }) + "://"@ + host + ":"@ + decimal(port as nat) + "/acp"@
}

/// The upgrade's `Host`: authority only, the port omitted when it is the
/// scheme's default.
pub open spec fn authority_v(host: Seq<char>, port: u16, use_tls: bool) -> Seq<char> {
    if (use_tls && port == 443) || (!use_tls && port == 80) {
        host
    } else {
        host + ":"@ + decimal(port as nat)
    }
}

impl WsTransport {
    /// A transport from the parts of a server config.
    pub fn new(
        host: &str,
        port: u16,
        secret_key: &str,
        use_tls: bool,
        accept_invalid_certs: bool,
        ca_cert_pem: Option<String>,
    ) -> (t: Self)
        ensures
            t@.endpoint == endpoint_v(host@, port, use_tls),
            t@.host == host@,
            t@.port == port,
            t@.use_tls == use_tls,
            t@.secret_key == secret_key@,
            t@.accept_invalid_certs == accept_invalid_certs,
            t@.ca_cert_pem == crate::spine::opt_seq(ca_cert_pem),
    {
        let mut endpoint = if use_tls {
            owned("wss")
        } else {
            owned("ws")
        };
        endpoint.append("://");
        endpoint.append(host);
        endpoint.append(":");
        push_decimal(&mut endpoint, port as u64);
        endpoint.append("/acp");
        WsTransport {
            endpoint,
            host: owned(host),
            port,
            use_tls,
            secret_key: owned(secret_key),
            accept_invalid_certs,
            ca_cert_pem,
        }
    }

    pub fn endpoint(&self) -> (e: &str)
        ensures
            e@ == self@.endpoint,
    {
        self.endpoint.as_str()
    }

    pub fn secret_key(&self) -> (k: &str)
        ensures
            k@ == self@.secret_key,
    {
        self.secret_key.as_str()
    }

    pub fn accept_invalid_certs(&self) -> (b: bool)
        ensures
            b == self@.accept_invalid_certs,
    {
        self.accept_invalid_certs
    }

    pub fn ca_cert_pem(&self) -> (p: Option<&str>)
        ensures
            (match p {
                Some(s) => Some(s@),
                None => None,
            }) == self@.ca_cert_pem,
    {
        match &self.ca_cert_pem {
            Some(s) => Some(s.as_str()),
            None => None,
        }
    }

    /// The upgrade request's `Host` header.
    pub fn host_authority(&self) -> (a: String)
        ensures
            a@ == authority_v(self@.host, self@.port, self@.use_tls),
    {
        if (self.use_tls && self.port == 443) || (!self.use_tls && self.port == 80) {
            self.host.clone()
        } else {
            let mut a = concat(self.host.as_str(), ":");
            push_decimal(&mut a, self.port as u64);
            a
        }
    }
}

// ---------------------------------------------------------------------------
// Keepalive
// ---------------------------------------------------------------------------

/// Idle-time keepalive policy, in milliseconds: ping an idle connection and
/// treat a missing answer as a drop.
#[derive(Clone, Copy, Debug, PartialEq, Eq)]
pub struct KeepAlive {
    /// How often the idle/deadline state machine runs.
    pub check_ms: u64,
    /// Silence this long before a ping goes out.
    pub idle_after_ms: u64,
    /// No inbound frame this long after a ping: the peer is gone.
    pub pong_timeout_ms: u64,
}

impl Default for KeepAlive {
    fn default() -> (k: Self)
        ensures
            k.check_ms == 5000,
            k.idle_after_ms == 30000,
            k.pong_timeout_ms == 15000,
    {
        KeepAlive { check_ms: 5000, idle_after_ms: 30000, pong_timeout_ms: 15000 }
    }
}

/// The activity clock: when a frame was last seen (or a ping last sent), and
/// the deadline of an outstanding ping. Times are milliseconds since the
/// connection's epoch.
pub struct KeepAliveState {
    pub last_seen: u64,
    pub ping_deadline: Option<u64>,
}

/// What a keepalive tick does.
#[derive(Clone, Copy, Debug, PartialEq, Eq, Structural)]
pub enum Tick {
    /// Nothing to do.
    Idle,
    /// Send a ping.
    Ping,
    /// The ping went unanswered: the wire is dead.
    Dead,
}

/// The kind of an inbound WebSocket frame.
#[derive(Clone, Copy, Debug, PartialEq, Eq, Structural)]
pub enum FrameKind {
    Text,
    Binary,
    Ping,
    Pong,
    Raw,
    Close,
}

/// What the reader does with an inbound frame.
#[derive(Clone, Copy, Debug, PartialEq, Eq, Structural)]
pub enum Inbound {
    /// Hand the text frame to the protocol.
    Forward,
    /// Nothing to hand on.
    Skip,
    /// The peer closed the socket.
    Closed,
}

/// One tick: silence shorter than `idle_after` is fine; otherwise arm a ping
/// (rebasing the idle clock, so pings never come faster than `idle_after`),
/// or, with a ping outstanding past its deadline, declare the wire dead.
pub open spec fn tick_v(last_seen: u64, deadline: Option<u64>, now: u64, ka: KeepAlive) -> (u64, Option<u64>, Tick) {
    let silent = if now >= last_seen { now - last_seen } else { 0 };
    if silent < ka.idle_after_ms {
        (last_seen, deadline, Tick::Idle)
    } else {
        match deadline {
            None => {
                let d = if now + ka.pong_timeout_ms <= u64::MAX { (now + ka.pong_timeout_ms) as u64 } else { u64::MAX };
                (now, Some(d), Tick::Ping)
            },
            Some(d) => if now > d {
                (last_seen, deadline, Tick::Dead)
            } else {
                (last_seen, deadline, Tick::Idle)
            },
        }
    }
}

impl KeepAliveState {
    /// A fresh clock at the epoch.
    pub fn new() -> (s: Self)
        ensures
            s.last_seen == 0,
            s.ping_deadline is None,
    {
        KeepAliveState { last_seen: 0, ping_deadline: None }
    }

    /// Any inbound frame is proof of life: it rebases the idle clock and
    /// retires an outstanding ping. Text frames go on to the protocol unless
    /// the protocol side is gone; a close ends the connection.
    pub fn on_frame(&mut self, now: u64, kind: FrameKind, discarding: bool) -> (r: Inbound)
        ensures
            final(self).last_seen == now,
            final(self).ping_deadline is None,
            r == (match kind {
                FrameKind::Text => if discarding { Inbound::Skip } else { Inbound::Forward },
                FrameKind::Close => Inbound::Closed,
                _ => Inbound::Skip,
            }),
    {
        self.last_seen = now;
        self.ping_deadline = None;
        match kind {
            FrameKind::Text => if discarding {
                Inbound::Skip
            } else {
                Inbound::Forward
            },
            FrameKind::Close => Inbound::Closed,
            _ => Inbound::Skip,
        }
    }

    /// One keepalive tick at `now`.
    pub fn tick(&mut self, now: u64, ka: &KeepAlive) -> (t: Tick)
        ensures
            (final(self).last_seen, final(self).ping_deadline, t) == tick_v(old(self).last_seen, old(self).ping_deadline, now, *ka),
    {
        let silent = now.saturating_sub(self.last_seen);
        if silent < ka.idle_after_ms {
            return Tick::Idle;
        }
        match self.ping_deadline {
            None => {
                self.last_seen = now;
                self.ping_deadline = Some(now.saturating_add(ka.pong_timeout_ms));
                Tick::Ping
            },
            Some(d) => if now > d {
                Tick::Dead
            } else {
                Tick::Idle
            },
        }
    }
}

/// Traffic suppresses pings: right after any inbound frame, no tick within
/// `idle_after` of it pings or declares the wire dead.
pub proof fn traffic_suppresses_pings(now: u64, later: u64, ka: KeepAlive)
    requires
        now <= later,
        later - now < ka.idle_after_ms,
    ensures
        tick_v(now, None, later, ka).2 == Tick::Idle,
{
}

/// An idle wire is probed, and a probe that stays unanswered past its
/// deadline kills the connection; an answer (any frame) retires it.
pub proof fn unanswered_pings_kill_the_wire(t0: u64, t1: u64, t2: u64, ka: KeepAlive)
    requires
        t0 <= t1,
        t1 - t0 >= ka.idle_after_ms,
        t1 + ka.pong_timeout_ms < t2,
        t2 - t1 >= ka.idle_after_ms,
    ensures
        tick_v(t0, None, t1, ka).2 == Tick::Ping,
        tick_v(tick_v(t0, None, t1, ka).0, tick_v(t0, None, t1, ka).1, t2, ka).2 == Tick::Dead,
{
}

} // verus!
