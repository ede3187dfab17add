//! The streaming session state machine: connection lifecycle, heartbeating,
//! resume/reconnect, and sequence tracking for the single live gateway
//! connection.
//!
//! The machine is a pure transition function from state and event to next
//! state and action: the surrounding runtime owns the transport, performs the
//! returned action (open or close the transport, send a control payload,
//! forward a dispatch payload, wait out a backoff) and feeds the next event
//! back in.

use vstd::arithmetic::mul::{lemma_mul_inequality, lemma_mul_is_associative};
use vstd::prelude::*;

verus! {

/// The connection phase. `Ready` and `Degraded` are the only phases in which
/// dispatch payloads are forwarded.
#[derive(Clone, Copy, PartialEq, Eq, Structural, Debug)]
pub enum Phase {
    Disconnected,
    Connecting,
    AwaitingHello,
    Identifying,
    Resuming,
    Ready,
    /// One heartbeat acknowledgment has been missed; one grace interval is
    /// permitted before a forced reconnect.
    Degraded,
    Reconnecting,
}

/// An event fed to the session machine: a decoded inbound control frame, a
/// transport notification, or a timer firing.
pub enum GatewayEvent {
    /// The host asks for the connection to be brought up.
    ConnectRequested,
    /// The transport reports an established connection.
    TransportOpened,
    /// The server's initial control payload.
    Hello { heartbeat_interval: u64 },
    /// No Hello arrived within the bounded timeout: a fatal connect error,
    /// retried with backoff.
    HelloTimeout,
    /// The server acknowledged an identify, assigning a session id.
    ReadyReceived { session_id: String },
    /// The server acknowledged a resume.
    ResumedReceived,
    /// The server rejected the credentials: session-fatal, no auto-retry.
    AuthRejected,
    /// A dispatch payload carrying the server-assigned event ordinal.
    Dispatch { sequence: u64 },
    HeartbeatAckReceived,
    /// The heartbeat interval elapsed.
    HeartbeatDue,
    /// The server demands a reconnect; the session stays resumable.
    ReconnectRequested,
    /// The server declared the session invalid.
    InvalidSession { resumable: bool },
    /// The transport closed underneath the session.
    TransportClosed { resumable: bool },
    /// The reconnect backoff delay elapsed.
    BackoffElapsed,
    /// The consumer of the event stream was cancelled: tear down, no retry.
    ConsumerCancelled,
}

/// The single action the runtime must perform after a transition.
pub enum SessionAction {
    DoNothing,
    OpenTransport,
    SendIdentify,
    /// Request replay of missed events: carries the tracked session id and
    /// the last tracked sequence.
    SendResume { session_id: String, sequence: u64 },
    /// Send a heartbeat carrying the last tracked sequence.
    SendHeartbeat { sequence: Option<u64> },
    /// Hand the dispatch payload with this ordinal to the dispatcher.
    Forward { sequence: u64 },
    /// Close the transport if open, wait out the (jittered, capped) backoff
    /// for this attempt number, then feed `BackoffElapsed`.
    ScheduleBackoff { attempt: u64 },
    CloseTransport,
}

/// The sequence after a dispatch payload with ordinal `seq` is handled: the
/// tracked value never decreases.
pub open spec fn advanced_sequence(cur: Option<u64>, seq: u64) -> Option<u64> {
    match cur {
        Some(q) => if seq > q {
            Some(seq)
        } else {
            Some(q)
        },
        None => Some(seq),
    }
}

/// Ordering on tracked sequences: `b` tracks at least as much as `a`.
pub open spec fn sequence_le(a: Option<u64>, b: Option<u64>) -> bool {
    match a {
        None => true,
        Some(q) => match b {
            Some(q2) => q <= q2,
            None => false,
        },
    }
}

/// The mutable state of the single streaming connection.
pub struct Session {
    pub phase: Phase,
    /// Last acknowledged server event ordinal.
    pub sequence: Option<u64>,
    /// Opaque resumption token from the last Ready acknowledgment.
    pub session_id: Option<String>,
    /// Interval between heartbeats, from the server's Hello.
    pub heartbeat_interval: u64,
    /// Whether the last heartbeat sent has been acknowledged.
    pub last_heartbeat_ack_received: bool,
    /// Consecutive reconnect attempts since the last successful handshake.
    pub reconnect_attempts: u64,
}

impl Session {
    /// Well-formedness: a degraded session is one whose heartbeat went
    /// unacknowledged, and a resume is only ever in progress with a session
    /// id and a sequence in hand.
    pub open spec fn wf(self) -> bool {
        &&& self.phase == Phase::Degraded ==> !self.last_heartbeat_ack_received
        &&& self.phase == Phase::Resuming ==> self.session_id is Some && self.sequence is Some
    }

    /// A fresh, disconnected session holding no prior identity.
    pub fn new() -> (r: Session)
        ensures
            r.wf(),
            r.phase == Phase::Disconnected,
            r.sequence is None,
            r.session_id is None,
            r.reconnect_attempts == 0,
    {
        Session {
            phase: Phase::Disconnected,
            sequence: None,
            session_id: None,
            heartbeat_interval: 0,
            last_heartbeat_ack_received: false,
            reconnect_attempts: 0,
        }
    }

    /// The transition table: next state and action for a state and an event.
    /// Events that do not apply in the current phase leave the state as it
    /// is. A resumable disconnect retains `session_id`/`sequence` so the next
    /// handshake resumes; a non-resumable one discards them so the next
    /// handshake identifies afresh.
    pub open spec fn step_spec(self, ev: GatewayEvent) -> (Session, SessionAction) {
        match ev {
            GatewayEvent::ConnectRequested => {
                if self.phase == Phase::Disconnected {
                    (Session { phase: Phase::Connecting, ..self }, SessionAction::OpenTransport)
                } else {
                    (self, SessionAction::DoNothing)
                }
            },
            GatewayEvent::TransportOpened => {
                if self.phase == Phase::Connecting {
                    (Session { phase: Phase::AwaitingHello, ..self }, SessionAction::DoNothing)
                } else {
                    (self, SessionAction::DoNothing)
                }
            },
            GatewayEvent::Hello { heartbeat_interval } => {
                if self.phase == Phase::AwaitingHello {
                    match (self.session_id, self.sequence) {
                        (Some(sid), Some(q)) => (
                            Session {
                                phase: Phase::Resuming,
                                heartbeat_interval,
                                last_heartbeat_ack_received: true,
                                ..self
                            },
                            SessionAction::SendResume { session_id: sid, sequence: q },
                        ),
                        _ => (
                            Session {
                                phase: Phase::Identifying,
                                sequence: None,
                                heartbeat_interval,
                                last_heartbeat_ack_received: true,
                                ..self
                            },
                            SessionAction::SendIdentify,
                        ),
                    }
                } else {
                    (self, SessionAction::DoNothing)
                }
            },
            GatewayEvent::HelloTimeout => {
                if self.phase == Phase::AwaitingHello {
                    (
                        Session { phase: Phase::Reconnecting, ..self },
                        SessionAction::ScheduleBackoff { attempt: self.reconnect_attempts },
                    )
                } else {
                    (self, SessionAction::DoNothing)
                }
            },
            GatewayEvent::ReadyReceived { session_id } => {
                if self.phase == Phase::Identifying {
                    (
                        Session {
                            phase: Phase::Ready,
                            session_id: Some(session_id),
                            last_heartbeat_ack_received: true,
                            reconnect_attempts: 0,
                            ..self
                        },
                        SessionAction::DoNothing,
                    )
                } else {
                    (self, SessionAction::DoNothing)
                }
            },
            GatewayEvent::ResumedReceived => {
                if self.phase == Phase::Resuming {
                    (
                        Session {
                            phase: Phase::Ready,
                            last_heartbeat_ack_received: true,
                            reconnect_attempts: 0,
                            ..self
                        },
                        SessionAction::DoNothing,
                    )
                } else {
                    (self, SessionAction::DoNothing)
                }
            },
            GatewayEvent::AuthRejected => {
                if self.phase == Phase::Identifying || self.phase == Phase::Resuming {
                    (
                        Session {
                            phase: Phase::Disconnected,
                            session_id: None,
                            sequence: None,
                            ..self
                        },
                        SessionAction::CloseTransport,
                    )
                } else {
                    (self, SessionAction::DoNothing)
                }
            },
            GatewayEvent::Dispatch { sequence } => {
                if self.phase == Phase::Ready || self.phase == Phase::Degraded {
                    (
                        Session { sequence: advanced_sequence(self.sequence, sequence), ..self },
                        SessionAction::Forward { sequence },
                    )
                } else {
                    (self, SessionAction::DoNothing)
                }
            },
            GatewayEvent::HeartbeatAckReceived => {
                if self.phase == Phase::Ready || self.phase == Phase::Degraded {
                    (
                        Session {
                            phase: Phase::Ready,
                            last_heartbeat_ack_received: true,
                            ..self
                        },
                        SessionAction::DoNothing,
                    )
                } else {
                    (self, SessionAction::DoNothing)
                }
            },
            GatewayEvent::HeartbeatDue => {
                if self.phase == Phase::Ready && self.last_heartbeat_ack_received {
                    (
                        Session { last_heartbeat_ack_received: false, ..self },
                        SessionAction::SendHeartbeat { sequence: self.sequence },
                    )
                } else if self.phase == Phase::Ready {
                    (
                        Session { phase: Phase::Degraded, ..self },
                        SessionAction::SendHeartbeat { sequence: self.sequence },
                    )
                } else if self.phase == Phase::Degraded {
                    (
                        Session { phase: Phase::Reconnecting, ..self },
                        SessionAction::ScheduleBackoff { attempt: self.reconnect_attempts },
                    )
                } else {
                    (self, SessionAction::DoNothing)
                }
            },
            GatewayEvent::ReconnectRequested => {
                if self.connected_phase() {
                    (
                        Session { phase: Phase::Reconnecting, ..self },
                        SessionAction::ScheduleBackoff { attempt: self.reconnect_attempts },
                    )
                } else {
                    (self, SessionAction::DoNothing)
                }
            },
            GatewayEvent::InvalidSession { resumable } => {
                if self.connected_phase() {
                    if resumable {
                        (
                            Session { phase: Phase::Reconnecting, ..self },
                            SessionAction::ScheduleBackoff { attempt: self.reconnect_attempts },
                        )
                    } else {
                        (
                            Session {
                                phase: Phase::Reconnecting,
                                session_id: None,
                                sequence: None,
                                ..self
                            },
                            SessionAction::ScheduleBackoff { attempt: self.reconnect_attempts },
                        )
                    }
                } else {
                    (self, SessionAction::DoNothing)
                }
            },
            GatewayEvent::TransportClosed { resumable } => {
                if self.connected_phase() || self.phase == Phase::Connecting {
                    if resumable {
                        (
                            Session { phase: Phase::Reconnecting, ..self },
                            SessionAction::ScheduleBackoff { attempt: self.reconnect_attempts },
                        )
                    } else {
                        (
                            Session {
                                phase: Phase::Reconnecting,
                                session_id: None,
                                sequence: None,
                                ..self
                            },
                            SessionAction::ScheduleBackoff { attempt: self.reconnect_attempts },
                        )
                    }
                } else {
                    (self, SessionAction::DoNothing)
                }
            },
            GatewayEvent::BackoffElapsed => {
                if self.phase == Phase::Reconnecting {
                    (
                        Session {
                            phase: Phase::Connecting,
                            reconnect_attempts: crate::scheduler::sat_add_spec(
                                self.reconnect_attempts,
                                1,
                            ),
                            ..self
                        },
                        SessionAction::OpenTransport,
                    )
                } else {
                    (self, SessionAction::DoNothing)
                }
            },
            GatewayEvent::ConsumerCancelled => (
                Session { phase: Phase::Disconnected, ..self },
                SessionAction::CloseTransport,
            ),
        }
    }

    /// The phases with a live transport past the connect stage.
    pub open spec fn connected_phase(self) -> bool {
        ||| self.phase == Phase::AwaitingHello
        ||| self.phase == Phase::Identifying
        ||| self.phase == Phase::Resuming
        ||| self.phase == Phase::Ready
        ||| self.phase == Phase::Degraded
    }

    /// Apply one event. The new state and the returned action are exactly
    /// what the transition table gives. In addition: handling a dispatch
    /// payload never decreases the tracked sequence, and a resume request
    /// always carries the session id and the last sequence tracked before
    /// the disconnection.
    pub fn step(&mut self, ev: GatewayEvent) -> (action: SessionAction)
        requires
            old(self).wf(),
        ensures
            final(self).wf(),
            (*final(self), action) == old(self).step_spec(ev),
            ev matches GatewayEvent::Dispatch { .. } ==> sequence_le(
                old(self).sequence,
                final(self).sequence,
            ),
            action matches SessionAction::SendResume { session_id, sequence } ==> old(self).session_id == Some(session_id) && old(self).sequence == Some(sequence),
    {
        match ev {
            GatewayEvent::ConnectRequested => {
                if matches!(self.phase, Phase::Disconnected) {
                    self.phase = Phase::Connecting;
                    SessionAction::OpenTransport
                } else {
                    SessionAction::DoNothing
                }
            },
            GatewayEvent::TransportOpened => {
                if matches!(self.phase, Phase::Connecting) {
                    self.phase = Phase::AwaitingHello;
                }
                SessionAction::DoNothing
            },
            GatewayEvent::Hello { heartbeat_interval } => {
                if matches!(self.phase, Phase::AwaitingHello) {
                    self.heartbeat_interval = heartbeat_interval;
                    self.last_heartbeat_ack_received = true;
                    let resume = match (&self.session_id, &self.sequence) {
                        (Some(sid), Some(q)) => Some((sid.clone(), *q)),
                        _ => None,
                    };
                    match resume {
                        Some((sid, q)) => {
                            self.phase = Phase::Resuming;
                            SessionAction::SendResume { session_id: sid, sequence: q }
                        },
                        None => {
                            self.phase = Phase::Identifying;
                            self.sequence = None;
                            SessionAction::SendIdentify
                        },
                    }
                } else {
                    SessionAction::DoNothing
                }
            },
            GatewayEvent::HelloTimeout => {
                if matches!(self.phase, Phase::AwaitingHello) {
                    self.phase = Phase::Reconnecting;
                    SessionAction::ScheduleBackoff { attempt: self.reconnect_attempts }
                } else {
                    SessionAction::DoNothing
                }
            },
            GatewayEvent::ReadyReceived { session_id } => {
                if matches!(self.phase, Phase::Identifying) {
                    self.phase = Phase::Ready;
                    self.session_id = Some(session_id);
                    self.last_heartbeat_ack_received = true;
                    self.reconnect_attempts = 0;
                }
                SessionAction::DoNothing
            },
            GatewayEvent::ResumedReceived => {
                if matches!(self.phase, Phase::Resuming) {
                    self.phase = Phase::Ready;
                    self.last_heartbeat_ack_received = true;
                    self.reconnect_attempts = 0;
                }
                SessionAction::DoNothing
            },
            GatewayEvent::AuthRejected => {
                if matches!(self.phase, Phase::Identifying) || matches!(
                    self.phase,
                    Phase::Resuming,
                ) {
                    self.phase = Phase::Disconnected;
                    self.session_id = None;
                    self.sequence = None;
                    SessionAction::CloseTransport
                } else {
                    SessionAction::DoNothing
                }
            },
            GatewayEvent::Dispatch { sequence } => {
                if matches!(self.phase, Phase::Ready) || matches!(self.phase, Phase::Degraded) {
                    let advanced = match &self.sequence {
                        Some(q) => if sequence > *q {
                            sequence
                        } else {
                            *q
                        },
                        None => sequence,
                    };
                    self.sequence = Some(advanced);
                    SessionAction::Forward { sequence }
                } else {
                    SessionAction::DoNothing
                }
            },
            GatewayEvent::HeartbeatAckReceived => {
                if matches!(self.phase, Phase::Ready) || matches!(self.phase, Phase::Degraded) {
                    self.phase = Phase::Ready;
                    self.last_heartbeat_ack_received = true;
                }
                SessionAction::DoNothing
            },
            GatewayEvent::HeartbeatDue => {
                if matches!(self.phase, Phase::Ready) && self.last_heartbeat_ack_received {
                    self.last_heartbeat_ack_received = false;
                    SessionAction::SendHeartbeat { sequence: self.sequence }
                } else if matches!(self.phase, Phase::Ready) {
                    self.phase = Phase::Degraded;
                    SessionAction::SendHeartbeat { sequence: self.sequence }
                } else if matches!(self.phase, Phase::Degraded) {
                    self.phase = Phase::Reconnecting;
                    SessionAction::ScheduleBackoff { attempt: self.reconnect_attempts }
                } else {
                    SessionAction::DoNothing
                }
            },
            GatewayEvent::ReconnectRequested => {
                if self.in_connected_phase() {
                    self.phase = Phase::Reconnecting;
                    SessionAction::ScheduleBackoff { attempt: self.reconnect_attempts }
                } else {
                    SessionAction::DoNothing
                }
            },
            GatewayEvent::InvalidSession { resumable } => {
                if self.in_connected_phase() {
                    self.phase = Phase::Reconnecting;
                    if !resumable {
                        self.session_id = None;
                        self.sequence = None;
                    }
                    SessionAction::ScheduleBackoff { attempt: self.reconnect_attempts }
                } else {
                    SessionAction::DoNothing
                }
            },
            GatewayEvent::TransportClosed { resumable } => {
                if self.in_connected_phase() || matches!(self.phase, Phase::Connecting) {
                    self.phase = Phase::Reconnecting;
                    if !resumable {
                        self.session_id = None;
                        self.sequence = None;
                    }
                    SessionAction::ScheduleBackoff { attempt: self.reconnect_attempts }
                } else {
                    SessionAction::DoNothing
                }
            },
            GatewayEvent::BackoffElapsed => {
                if matches!(self.phase, Phase::Reconnecting) {
                    self.phase = Phase::Connecting;
                    self.reconnect_attempts = crate::scheduler::sat_add(self.reconnect_attempts, 1);
                    SessionAction::OpenTransport
                } else {
                    SessionAction::DoNothing
                }
            },
            GatewayEvent::ConsumerCancelled => {
                self.phase = Phase::Disconnected;
                SessionAction::CloseTransport
            },
        }
    }

    /// Exec mirror of `connected_phase`.
    fn in_connected_phase(&self) -> (r: bool)
        ensures
            r == self.connected_phase(),
    {
        matches!(self.phase, Phase::AwaitingHello) || matches!(self.phase, Phase::Identifying)
            || matches!(self.phase, Phase::Resuming) || matches!(self.phase, Phase::Ready)
            || matches!(self.phase, Phase::Degraded)
    }
}

/// `2^e`.
pub open spec fn pow2(e: nat) -> nat
    decreases e,
{
    if e == 0 {
        1
    } else {
        2 * pow2((e - 1) as nat)
    }
}

proof fn lemma_pow2_mono(a: nat, b: nat)
    requires
        a <= b,
    ensures
        pow2(a) <= pow2(b),
    decreases b,
{
    if a < b && b > 0 {
        lemma_pow2_mono(a, (b - 1) as nat);
    }
}

/// The reconnect delay before attempt `attempt`: the base delay doubled per
/// prior attempt, bounded by the maximum retry interval `cap`.
pub open spec fn backoff_spec(base: u64, cap: u64, attempt: u64) -> u64 {
    if base * pow2(attempt as nat) > cap {
        cap
    } else {
        (base * pow2(attempt as nat)) as u64
    }
}

/// Compute the capped exponential reconnect delay. The runtime adds jitter
/// on top; the cap bounds the un-jittered delay.
pub fn backoff_delay(base: u64, cap: u64, attempt: u64) -> (r: u64)
    ensures
        r == backoff_spec(base, cap, attempt),
{
    let mut d: u64 = base;
    let mut i: u64 = 0;
    if d > cap {
        proof {
            lemma_pow2_mono(0, attempt as nat);
            lemma_mul_inequality(1, pow2(attempt as nat) as int, base as int);
        }
        return cap;
    }
    proof {
        assert(pow2(0) == 1);
        assert(d == base * pow2(0));
    }
    while i < attempt
        invariant
            i <= attempt,
            d == base * pow2(i as nat),
            d <= cap,
        decreases attempt - i,
    {
        proof {
            assert(pow2((i + 1) as nat) == 2 * pow2(i as nat));
            lemma_mul_is_associative(base as int, 2, pow2(i as nat) as int);
            lemma_mul_is_associative(2, base as int, pow2(i as nat) as int);
            assert(base * pow2((i + 1) as nat) == 2 * (base * pow2(i as nat)));
        }
        if d > cap / 2 {
            proof {
                assert(2 * d > cap);
                lemma_pow2_mono((i + 1) as nat, attempt as nat);
                lemma_mul_inequality(
                    pow2((i + 1) as nat) as int,
                    pow2(attempt as nat) as int,
                    base as int,
                );
                assert(pow2((i + 1) as nat) * base <= pow2(attempt as nat) * base);
                assert(base * pow2((i + 1) as nat) == 2 * d);
                assert(base * pow2(attempt as nat) > cap);
            }
            return cap;
        }
        d = d * 2;
        i = i + 1;
    }
    d
}

/// Sequence monotonicity: handling a dispatch payload never decreases the
/// tracked sequence, whatever the phase, and in a forwarding phase the new
/// tracked value is at least the payload's ordinal.
pub proof fn lemma_sequence_monotonic(s: Session, seq: u64)
    ensures
        sequence_le(s.sequence, s.step_spec(GatewayEvent::Dispatch { sequence: seq }).0.sequence),
        (s.phase == Phase::Ready || s.phase == Phase::Degraded) ==> sequence_le(
            Some(seq),
            s.step_spec(GatewayEvent::Dispatch { sequence: seq }).0.sequence,
        ),
{
}

/// Resume vs. re-identify: after a disconnect flagged resumable, the next
/// connection attempt answers the server's Hello with a resume carrying the
/// prior session id and tracked sequence; after a non-resumable disconnect,
/// it answers with a fresh identify, holding no prior session id.
pub proof fn lemma_resume_vs_reidentify(
    s: Session,
    resumable: bool,
    sid: String,
    q: u64,
    interval: u64,
)
    requires
        s.wf(),
        s.connected_phase() || s.phase == Phase::Connecting,
        s.session_id == Some(sid),
        s.sequence == Some(q),
    ensures
        ({
            let s1 = s.step_spec(GatewayEvent::TransportClosed { resumable }).0;
            let s2 = s1.step_spec(GatewayEvent::BackoffElapsed).0;
            let s3 = s2.step_spec(GatewayEvent::TransportOpened).0;
            let (s4, action) = s3.step_spec(
                GatewayEvent::Hello { heartbeat_interval: interval },
            );
            if resumable {
                &&& action == (SessionAction::SendResume { session_id: sid, sequence: q })
                &&& s4.phase == Phase::Resuming
                &&& s4.session_id == Some(sid)
                &&& s4.sequence == Some(q)
            } else {
                &&& action == SessionAction::SendIdentify
                &&& s4.phase == Phase::Identifying
                &&& s4.session_id is None
                &&& s4.sequence is None
            }
        }),
{
}

} // verus!
