//! The connection supervisor's decisions: classify decoded frames into
//! session-machine events, keep the heartbeat scheduler in step with the
//! machine's effects, count protocol violations toward a forced reconnect,
//! and compute the reconnect backoff. The transport itself (socket, timer)
//! lives outside; it performs the effects this module returns.
use vstd::prelude::*;

use crate::codec::{
    chars_eq_str, hello_interval, obj_string_field, payload_bool, spec_hello_interval,
    spec_obj_string, spec_payload_bool, DecodeError, Frame, FrameV,
};
use crate::events::GatewayEvents;
use crate::heartbeat::{spec_ack, HeartbeatState};
use crate::session::{
    no_effects, spec_transition, spec_wf, Effects, EffectsV, Event, EventV, HbControl, MachineV,
    SessionMachine,
};

verus! {

/// Reconnect backoff: exponential from one second, capped at one minute.
pub const BACKOFF_BASE_MS: u64 = 1000;

pub const BACKOFF_CAP_MS: u64 = 60000;

/// Malformed inbound frames tolerated before a forced reconnect.
pub const PROTOCOL_VIOLATION_LIMIT: u64 = 8;

/// The backoff before reconnect attempt `attempt`: doubles each time, from
/// the base, to the cap.
pub open spec fn spec_backoff(attempt: nat) -> u64
    decreases attempt,
{
    if attempt == 0 {
        BACKOFF_BASE_MS
    } else {
        let p = spec_backoff((attempt - 1) as nat);
        if p * 2 > BACKOFF_CAP_MS {
            BACKOFF_CAP_MS
        } else {
            (p * 2) as u64
        }
    }
}

/// The backoff before reconnect attempt `attempt`.
pub fn backoff_ms(attempt: u32) -> (r: u64)
    ensures
        r == spec_backoff(attempt as nat),
        BACKOFF_BASE_MS <= r <= BACKOFF_CAP_MS,
{
    let mut k: u32 = 0;
    let mut b: u64 = BACKOFF_BASE_MS;
    while k < attempt
        invariant
            k <= attempt,
            b == spec_backoff(k as nat),
            BACKOFF_BASE_MS <= b <= BACKOFF_CAP_MS,
        decreases attempt - k,
    {
        if b > BACKOFF_CAP_MS / 2 {
            b = BACKOFF_CAP_MS;
        } else {
            b = b * 2;
        }
        k = k + 1;
    }
    b
}

/// The wait before reconnect attempt `attempt`: the backoff plus a jitter
/// reduced into what room the cap leaves, so stampedes spread over
/// `[b, cap]` and the wait never exceeds the cap.
pub open spec fn spec_backoff_delay(attempt: nat, jitter: u64) -> u64 {
    let b = spec_backoff(attempt);
    (b + jitter % (((BACKOFF_CAP_MS - b) as u64 + 1) as u64)) as u64
}

/// The wait before reconnect attempt `attempt`.
pub fn backoff_delay_ms(attempt: u32, jitter: u64) -> (r: u64)
    ensures
        r == spec_backoff_delay(attempt as nat, jitter),
        spec_backoff(attempt as nat) <= r <= BACKOFF_CAP_MS,
{
    let b = backoff_ms(attempt);
    b + jitter % (BACKOFF_CAP_MS - b + 1)
}

/// What an inbound frame means to the client.
#[derive(Debug)]
pub enum Inbound {
    /// An event for the session state machine.
    Machine(Event),
    /// A heartbeat acknowledgement for the scheduler.
    Ack,
}

/// Mathematical image of `Inbound`.
pub enum InboundV {
    Machine(EventV),
    Ack,
}

impl View for Inbound {
    type V = InboundV;

    open spec fn view(&self) -> InboundV {
        match self {
            Inbound::Machine(e) => InboundV::Machine(e@),
            Inbound::Ack => InboundV::Ack,
        }
    }
}

/// The lookup keyed by `(op, t)`: what a decoded frame means, with its
/// payload read in the shape that pair calls for. `None` is a protocol
/// violation: an opcode the server must not send, or a payload without the
/// shape its opcode requires.
pub open spec fn spec_classify(f: FrameV) -> Option<InboundV> {
    match f.op {
        GatewayEvents::Hello => match spec_hello_interval(f.d) {
            Some(n) => if n > 0 {
                Some(InboundV::Machine(EventV::Hello { heartbeat_interval: n }))
            } else {
                None
            },
            None => None,
        },
        GatewayEvents::HeartbeatACK => Some(InboundV::Ack),
        GatewayEvents::Reconnect => Some(InboundV::Machine(EventV::Reconnect)),
        GatewayEvents::InvalidSession => match spec_payload_bool(f.d) {
            Some(b) => Some(InboundV::Machine(EventV::InvalidSession { resumable: b })),
            None => None,
        },
        GatewayEvents::Dispatch => {
            if !(f.s is Some && f.t is Some) {
                None
            } else {
                let seq = f.s->Some_0;
                let tag = f.t->Some_0;
                if tag == "READY"@ {
                    match (
                        spec_obj_string(f.d, "session_id"@),
                        spec_obj_string(f.d, "resume_gateway_url"@),
                    ) {
                        (Some(sid), Some(url)) => Some(
                            InboundV::Machine(
                                EventV::Ready { session_id: sid, resume_url: url, seq },
                            ),
                        ),
                        _ => None,
                    }
                } else if tag == "RESUMED"@ {
                    Some(InboundV::Machine(EventV::Resumed))
                } else {
                    Some(InboundV::Machine(EventV::Dispatch { seq }))
                }
            }
        },
        // Client-to-server opcodes arriving inbound are violations.
        _ => None,
    }
}

/// Classify one decoded frame; exactly `spec_classify`.
pub fn classify_frame(f: &Frame) -> (r: Option<Inbound>)
    ensures
        match r {
            Some(ib) => spec_classify(f@) == Some(ib@),
            None => spec_classify(f@) is None,
        },
{
    match f.op {
        GatewayEvents::Hello => match hello_interval(f.d.as_slice()) {
            Some(n) => if n > 0 {
                Some(Inbound::Machine(Event::Hello { heartbeat_interval: n }))
            } else {
                None
            },
            None => None,
        },
        GatewayEvents::HeartbeatACK => Some(Inbound::Ack),
        GatewayEvents::Reconnect => Some(Inbound::Machine(Event::Reconnect)),
        GatewayEvents::InvalidSession => match payload_bool(f.d.as_slice()) {
            Some(b) => Some(Inbound::Machine(Event::InvalidSession { resumable: b })),
            None => None,
        },
        GatewayEvents::Dispatch => match (&f.s, &f.t) {
            (Some(seq), Some(t)) => {
                if chars_eq_str(t.as_slice(), "READY") {
                    let sid = obj_string_field(f.d.as_slice(), "session_id");
                    let url = obj_string_field(f.d.as_slice(), "resume_gateway_url");
                    match (sid, url) {
                        (Some(sid), Some(url)) => Some(
                            Inbound::Machine(
                                Event::Ready { session_id: sid, resume_url: url, seq: *seq },
                            ),
                        ),
                        _ => None,
                    }
                } else if chars_eq_str(t.as_slice(), "RESUMED") {
                    Some(Inbound::Machine(Event::Resumed))
                } else {
                    Some(Inbound::Machine(Event::Dispatch { seq: *seq }))
                }
            },
            _ => None,
        },
        _ => None,
    }
}

/// The commands the embedding application may send while connected.
#[derive(Clone, Copy, PartialEq, Eq, Structural, Debug)]
pub enum UserCommand {
    PresenceUpdate,
    VoiceStateUpdate,
    RequestGuildMembers,
}

/// The opcode a user command goes out under.
pub open spec fn spec_user_command_op(c: UserCommand) -> GatewayEvents {
    match c {
        UserCommand::PresenceUpdate => GatewayEvents::PresenceUpdate,
        UserCommand::VoiceStateUpdate => GatewayEvents::VoiceStateUpdate,
        UserCommand::RequestGuildMembers => GatewayEvents::RequestGuildMembers,
    }
}

/// Why a user command was refused.
#[derive(Clone, Copy, PartialEq, Eq, Structural, Debug)]
pub enum CommandError {
    /// Commands may only be sent while the session is `Connected`.
    NotConnected,
    /// The payload text does not scan as one JSON value.
    MalformedPayload,
}

/// What one heartbeat timer tick asks the transport layer to do.
#[derive(Debug)]
pub enum TickOutcome {
    /// Send this wire text: one heartbeat frame whose `d` is the stored
    /// last sequence number.
    Send(Vec<char>),
    /// The previous heartbeat was never acknowledged: the connection is
    /// zombied; feed `HeartbeatTimeout` through `handle_event`.
    Reconnect,
}

/// The stored last-seen sequence number, if a session is held.
pub open spec fn spec_session_seq(m: MachineV) -> Option<u64> {
    match m.session {
        Some(sd) => Some(sd.last_seq),
        None => None,
    }
}

/// What a heartbeat control effect does to the scheduler.
pub open spec fn spec_apply_hb(h: Option<HeartbeatState>, ctl: HbControl) -> Option<
    HeartbeatState,
> {
    match ctl {
        HbControl::Keep => h,
        HbControl::Cancel => None,
        HbControl::Start { interval_ms } => Some(
            HeartbeatState { interval_ms, pending: false },
        ),
    }
}

/// The supervisor's own state: the machine, the scheduler (present exactly
/// while one is running), the count of tolerated protocol violations, and
/// the count of consecutive failed connection attempts (reset whenever a
/// connection reaches `Connected`).
#[derive(Debug)]
pub struct Supervisor {
    pub machine: SessionMachine,
    pub heartbeat: Option<HeartbeatState>,
    pub violations: u64,
    pub attempts: u32,
}

/// Mathematical image of the supervisor.
pub struct SupervisorV {
    pub machine: MachineV,
    pub heartbeat: Option<HeartbeatState>,
    pub violations: u64,
    pub attempts: u32,
}

impl View for Supervisor {
    type V = SupervisorV;

    open spec fn view(&self) -> SupervisorV {
        SupervisorV {
            machine: self.machine@,
            heartbeat: self.heartbeat,
            violations: self.violations,
            attempts: self.attempts,
        }
    }
}

/// One machine event through the supervisor: step the machine, keep the
/// scheduler in step with the heartbeat control effect.
pub open spec fn spec_handle_event(sup: SupervisorV, e: EventV) -> (SupervisorV, EffectsV) {
    let (m2, eff) = spec_transition(sup.machine, e);
    (
        SupervisorV {
            machine: m2,
            heartbeat: spec_apply_hb(sup.heartbeat, eff.heartbeat),
            attempts: if m2.state == crate::session::ConnState::Connected {
                0
            } else {
                sup.attempts
            },
            ..sup
        },
        eff,
    )
}

/// One tolerated violation, or the forced reconnect when the threshold is
/// reached: the counter resets and the machine is torn down as on a
/// transport error.
pub open spec fn spec_violation(sup: SupervisorV) -> (SupervisorV, EffectsV) {
    if sup.violations + 1 >= PROTOCOL_VIOLATION_LIMIT {
        spec_handle_event(SupervisorV { violations: 0, ..sup }, EventV::TransportError)
    } else {
        (SupervisorV { violations: (sup.violations + 1) as u64, ..sup }, no_effects())
    }
}

/// One classified frame through the supervisor.
pub open spec fn spec_handle_frame(sup: SupervisorV, f: FrameV) -> (SupervisorV, EffectsV) {
    match spec_classify(f) {
        None => spec_violation(sup),
        Some(InboundV::Ack) => (
            SupervisorV {
                heartbeat: match sup.heartbeat {
                    Some(h) => Some(spec_ack(h)),
                    None => None,
                },
                ..sup
            },
            no_effects(),
        ),
        Some(InboundV::Machine(e)) => spec_handle_event(sup, e),
    }
}

impl Supervisor {
    /// A supervisor over a fresh machine: no scheduler, no violations.
    pub fn new() -> (r: Supervisor)
        ensures
            r@.machine == crate::session::spec_init(),
            r@.heartbeat is None,
            r@.violations == 0,
            r@.attempts == 0,
            spec_wf(r@.machine),
    {
        Supervisor {
            machine: SessionMachine::new(),
            heartbeat: None,
            violations: 0,
            attempts: 0,
        }
    }

    /// Feed one machine event through; returns the effects the transport
    /// layer must perform.
    pub fn handle_event(&mut self, e: Event) -> (eff: Effects)
        requires
            spec_wf(old(self)@.machine),
        ensures
            final(self)@ == spec_handle_event(old(self)@, e@).0,
            eff@ == spec_handle_event(old(self)@, e@).1,
            spec_wf(final(self)@.machine),
    {
        let eff = self.machine.step(e);
        match &eff.heartbeat {
            HbControl::Keep => {},
            HbControl::Cancel => {
                self.heartbeat = None;
            },
            HbControl::Start { interval_ms } => {
                self.heartbeat = Some(HeartbeatState { interval_ms: *interval_ms, pending: false });
            },
        }
        if self.machine.state == crate::session::ConnState::Connected {
            self.attempts = 0;
        }
        eff
    }

    /// One decoded frame through the supervisor: classify it, step the
    /// machine, or count the violation.
    pub fn handle_frame(&mut self, f: &Frame) -> (eff: Effects)
        requires
            spec_wf(old(self)@.machine),
        ensures
            final(self)@ == spec_handle_frame(old(self)@, f@).0,
            eff@ == spec_handle_frame(old(self)@, f@).1,
            spec_wf(final(self)@.machine),
    {
        match classify_frame(f) {
            None => self.on_violation(),
            Some(Inbound::Ack) => {
                match &mut self.heartbeat {
                    Some(h) => {
                        h.on_ack();
                    },
                    None => {},
                }
                Effects { heartbeat: HbControl::Keep, send: None, close_transport: false }
            },
            Some(Inbound::Machine(e)) => self.handle_event(e),
        }
    }

    /// A frame that could not be decoded. A malformed frame counts toward
    /// the forced reconnect; an unknown opcode is merely dropped (forward
    /// compatibility) and the connection stays open.
    pub fn on_decode_error(&mut self, err: DecodeError) -> (eff: Effects)
        requires
            spec_wf(old(self)@.machine),
        ensures
            err == DecodeError::UnknownOpcode ==> final(self)@ == old(self)@ && eff@
                == no_effects(),
            err == DecodeError::MalformedFrame ==> final(self)@ == spec_violation(old(self)@).0
                && eff@ == spec_violation(old(self)@).1,
            spec_wf(final(self)@.machine),
    {
        match err {
            DecodeError::UnknownOpcode => Effects {
                heartbeat: HbControl::Keep,
                send: None,
                close_transport: false,
            },
            DecodeError::MalformedFrame => self.on_violation(),
        }
    }

    /// One heartbeat timer tick. With no scheduler running it is stale and
    /// does nothing. Otherwise: if no heartbeat is pending, exactly one
    /// heartbeat frame goes out, with `d` equal to the stored last sequence
    /// number (or `null` before any was seen), and pending becomes true; if
    /// one is still pending, the connection is reported dead instead and
    /// nothing is sent.
    pub fn on_heartbeat_tick(&mut self) -> (r: Option<TickOutcome>)
        ensures
            final(self)@.machine == old(self)@.machine,
            final(self)@.violations == old(self)@.violations,
            final(self)@.attempts == old(self)@.attempts,
            old(self)@.heartbeat is None ==> r is None && final(self)@.heartbeat == old(
                self,
            )@.heartbeat,
            old(self)@.heartbeat matches Some(h) && h.pending ==> (r matches Some(
                TickOutcome::Reconnect,
            ) && final(self)@.heartbeat == old(self)@.heartbeat),
            old(self)@.heartbeat matches Some(h) && !h.pending ==> (r matches Some(
                TickOutcome::Send(f),
            ) && f@ == crate::codec::spec_encode(
                crate::codec::FrameV {
                    op: GatewayEvents::Heartbeat,
                    s: None,
                    t: None,
                    d: crate::codec::spec_heartbeat_payload(spec_session_seq(old(self)@.machine)),
                },
            ) && final(self)@.heartbeat == Some(
                crate::heartbeat::spec_tick(old(self)@.heartbeat->Some_0).0,
            )),
    {
        match &mut self.heartbeat {
            None => None,
            Some(h) => {
                match h.on_tick() {
                    crate::heartbeat::TickAction::SignalReconnect => Some(TickOutcome::Reconnect),
                    crate::heartbeat::TickAction::SendHeartbeat => {
                        let seq: Option<u64> = match &self.machine.session {
                            Some(sd) => Some(sd.last_seq),
                            None => None,
                        };
                        Some(TickOutcome::Send(crate::codec::heartbeat_frame(seq)))
                    },
                }
            },
        }
    }

    /// The wait before the next reconnect attempt, counting this attempt as
    /// one more consecutive failure; the counter resets when a connection
    /// reaches `Connected` (see `handle_event`).
    pub fn next_backoff_delay(&mut self, jitter: u64) -> (r: u64)
        ensures
            r == spec_backoff_delay(old(self)@.attempts as nat, jitter),
            r <= BACKOFF_CAP_MS,
            final(self)@.attempts == if old(self)@.attempts == u32::MAX {
                u32::MAX
            } else {
                (old(self)@.attempts + 1) as u32
            },
            final(self)@.machine == old(self)@.machine,
            final(self)@.heartbeat == old(self)@.heartbeat,
            final(self)@.violations == old(self)@.violations,
    {
        let d = backoff_delay_ms(self.attempts, jitter);
        if self.attempts < u32::MAX {
            self.attempts = self.attempts + 1;
        }
        d
    }

    /// Whether the supervisor should open another connection once the
    /// current one has ended: yes unless an explicit shutdown was requested.
    pub fn keep_running(&self) -> (r: bool)
        ensures
            r == !self@.machine.shutdown,
    {
        self.machine.keep_running()
    }

    /// An outbound command from the embedding application: encoded for the
    /// wire while `Connected`, refused with `NotConnected` in every other
    /// state, exactly as the interface promises.
    pub fn user_command(&self, cmd: UserCommand, d: Vec<char>) -> (r: Result<
        Vec<char>,
        CommandError,
    >)
        ensures
            self@.machine.state != crate::session::ConnState::Connected ==> r == Err::<
                Vec<char>,
                CommandError,
            >(CommandError::NotConnected),
            self@.machine.state == crate::session::ConnState::Connected ==> match r {
                Ok(out) => out@ == crate::codec::spec_encode(
                    crate::codec::FrameV {
                        op: spec_user_command_op(cmd),
                        s: None,
                        t: None,
                        d: d@,
                    },
                ),
                Err(e) => e == CommandError::MalformedPayload && crate::codec::spec_scan_value(
                    d@,
                    0,
                ) != Some(d@.len() as int),
            },
    {
        if !(self.machine.state == crate::session::ConnState::Connected) {
            return Err(CommandError::NotConnected);
        }
        let op = match cmd {
            UserCommand::PresenceUpdate => GatewayEvents::PresenceUpdate,
            UserCommand::VoiceStateUpdate => GatewayEvents::VoiceStateUpdate,
            UserCommand::RequestGuildMembers => GatewayEvents::RequestGuildMembers,
        };
        match crate::codec::encode_command(op, d) {
            Some(out) => Ok(out),
            None => Err(CommandError::MalformedPayload),
        }
    }

    /// One protocol violation: tolerated below the threshold, else a forced
    /// reconnect with the counter reset.
    fn on_violation(&mut self) -> (eff: Effects)
        requires
            spec_wf(old(self)@.machine),
        ensures
            final(self)@ == spec_violation(old(self)@).0,
            eff@ == spec_violation(old(self)@).1,
            spec_wf(final(self)@.machine),
    {
        if self.violations >= PROTOCOL_VIOLATION_LIMIT - 1 {
            self.violations = 0;
            self.handle_event(Event::TransportError)
        } else {
            self.violations = self.violations + 1;
            Effects { heartbeat: HbControl::Keep, send: None, close_transport: false }
        }
    }
}

} // verus!
