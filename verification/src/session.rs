//! The session state machine: owns the connection lifecycle, the resumable
//! session token and the last-seen sequence number. It is a pure function
//! from state and event to next state and effects; the supervisor performs
//! the effects (sends, transport close, heartbeat control).
use vstd::prelude::*;

verus! {

/// The lifecycle states of one logical connection-conversation.
#[derive(Clone, Copy, PartialEq, Eq, Structural, Debug)]
pub enum ConnState {
    Disconnected,
    AwaitingHello,
    Identifying,
    Resuming,
    Connected,
    Closing,
}

/// The resume data of a session: the opaque id the server issued, the
/// last-seen sequence number, and the URL to resume against.
#[derive(Clone, Debug)]
pub struct Session {
    pub session_id: Vec<char>,
    pub last_seq: u64,
    pub resume_url: Vec<char>,
}

/// Mathematical image of a `Session`.
pub struct SessionV {
    pub session_id: Seq<char>,
    pub last_seq: u64,
    pub resume_url: Seq<char>,
}

impl View for Session {
    type V = SessionV;

    open spec fn view(&self) -> SessionV {
        SessionV {
            session_id: self.session_id@,
            last_seq: self.last_seq,
            resume_url: self.resume_url@,
        }
    }
}

/// Everything that can happen to the machine: protocol frames already
/// classified by the supervisor, transport conditions, and caller requests.
#[derive(Debug)]
pub enum Event {
    /// The transport opened; the server will speak first with `Hello`.
    Opened,
    Hello { heartbeat_interval: u64 },
    /// The `Ready` dispatch: a new session was issued.
    Ready { session_id: Vec<char>, resume_url: Vec<char>, seq: u64 },
    /// The `Resumed` dispatch: the prior session was re-attached.
    Resumed,
    /// Any other dispatch frame, carrying its sequence number.
    Dispatch { seq: u64 },
    InvalidSession { resumable: bool },
    /// The server asked us to reconnect.
    Reconnect,
    TransportError,
    HeartbeatTimeout,
    /// The embedding application asked for a final shutdown.
    Shutdown,
    /// The transport finished closing.
    CloseDone,
}

/// Mathematical image of an `Event`.
pub enum EventV {
    Opened,
    Hello { heartbeat_interval: u64 },
    Ready { session_id: Seq<char>, resume_url: Seq<char>, seq: u64 },
    Resumed,
    Dispatch { seq: u64 },
    InvalidSession { resumable: bool },
    Reconnect,
    TransportError,
    HeartbeatTimeout,
    Shutdown,
    CloseDone,
}

impl View for Event {
    type V = EventV;

    open spec fn view(&self) -> EventV {
        match self {
            Event::Opened => EventV::Opened,
            Event::Hello { heartbeat_interval } => EventV::Hello {
                heartbeat_interval: *heartbeat_interval,
            },
            Event::Ready { session_id, resume_url, seq } => EventV::Ready {
                session_id: session_id@,
                resume_url: resume_url@,
                seq: *seq,
            },
            Event::Resumed => EventV::Resumed,
            Event::Dispatch { seq } => EventV::Dispatch { seq: *seq },
            Event::InvalidSession { resumable } => EventV::InvalidSession {
                resumable: *resumable,
            },
            Event::Reconnect => EventV::Reconnect,
            Event::TransportError => EventV::TransportError,
            Event::HeartbeatTimeout => EventV::HeartbeatTimeout,
            Event::Shutdown => EventV::Shutdown,
            Event::CloseDone => EventV::CloseDone,
        }
    }
}

/// What the machine asks the heartbeat scheduler to do.
#[derive(Clone, Copy, PartialEq, Eq, Structural, Debug)]
pub enum HbControl {
    Keep,
    Start { interval_ms: u64 },
    Cancel,
}

/// An outbound command the machine asks the supervisor to send.
#[derive(Clone, Debug)]
pub enum OutCmd {
    Identify,
    Resume { session_id: Vec<char>, seq: u64 },
}

/// Mathematical image of an `OutCmd`.
pub enum OutCmdV {
    Identify,
    Resume { session_id: Seq<char>, seq: u64 },
}

impl View for OutCmd {
    type V = OutCmdV;

    open spec fn view(&self) -> OutCmdV {
        match self {
            OutCmd::Identify => OutCmdV::Identify,
            OutCmd::Resume { session_id, seq } => OutCmdV::Resume {
                session_id: session_id@,
                seq: *seq,
            },
        }
    }
}

/// The effects of one transition.
#[derive(Debug)]
pub struct Effects {
    pub heartbeat: HbControl,
    pub send: Option<OutCmd>,
    pub close_transport: bool,
}

/// Mathematical image of `Effects`.
pub struct EffectsV {
    pub heartbeat: HbControl,
    pub send: Option<OutCmdV>,
    pub close_transport: bool,
}

impl View for Effects {
    type V = EffectsV;

    open spec fn view(&self) -> EffectsV {
        EffectsV {
            heartbeat: self.heartbeat,
            send: match &self.send {
                Some(c) => Some(c@),
                None => None,
            },
            close_transport: self.close_transport,
        }
    }
}

/// The machine: current state, the session (if one was ever issued and not
/// invalidated), whether the close in progress is a reconnect or a shutdown,
/// and whether an explicit shutdown was ever requested (terminal for the
/// run; a server-invalidated session is not, the client heals itself).
#[derive(Debug)]
pub struct SessionMachine {
    pub state: ConnState,
    pub session: Option<Session>,
    pub resume_after_close: bool,
    pub shutdown: bool,
}

/// Mathematical image of the machine.
pub struct MachineV {
    pub state: ConnState,
    pub session: Option<SessionV>,
    pub resume_after_close: bool,
    pub shutdown: bool,
}

impl View for SessionMachine {
    type V = MachineV;

    open spec fn view(&self) -> MachineV {
        MachineV {
            state: self.state,
            session: match &self.session {
                Some(s) => Some(s@),
                None => None,
            },
            resume_after_close: self.resume_after_close,
            shutdown: self.shutdown,
        }
    }
}

/// Well-formedness: in `Resuming` and `Connected` a session is always held.
pub open spec fn spec_wf(m: MachineV) -> bool {
    (m.state == ConnState::Resuming || m.state == ConnState::Connected) ==> m.session is Some
}

/// The machine as constructed: nothing open, nothing stored.
pub open spec fn spec_init() -> MachineV {
    MachineV {
        state: ConnState::Disconnected,
        session: None,
        resume_after_close: false,
        shutdown: false,
    }
}

/// Effects that do nothing.
pub open spec fn no_effects() -> EffectsV {
    EffectsV { heartbeat: HbControl::Keep, send: None, close_transport: false }
}

/// Tear the transport down and cancel the heartbeat.
pub open spec fn teardown_effects() -> EffectsV {
    EffectsV { heartbeat: HbControl::Cancel, send: None, close_transport: true }
}

/// Whether the machine is in a state with live protocol traffic, where a
/// transport loss or a server `Reconnect` asks for a reconnect cycle.
pub open spec fn spec_active(s: ConnState) -> bool {
    s == ConnState::AwaitingHello || s == ConnState::Identifying || s == ConnState::Resuming
        || s == ConnState::Connected
}

/// The transition function: next machine and effects for every state and
/// event. Events that a state has no business with leave the machine as it
/// is (the supervisor drops the frame).
pub open spec fn spec_transition(m: MachineV, e: EventV) -> (MachineV, EffectsV) {
    match e {
        EventV::Opened => {
            if m.state == ConnState::Disconnected {
                (MachineV { state: ConnState::AwaitingHello, ..m }, no_effects())
            } else {
                (m, no_effects())
            }
        },
        EventV::Hello { heartbeat_interval } => {
            if m.state == ConnState::AwaitingHello {
                match m.session {
                    Some(sd) => (
                        MachineV { state: ConnState::Resuming, ..m },
                        EffectsV {
                            heartbeat: HbControl::Start { interval_ms: heartbeat_interval },
                            send: Some(
                                OutCmdV::Resume { session_id: sd.session_id, seq: sd.last_seq },
                            ),
                            close_transport: false,
                        },
                    ),
                    None => (
                        MachineV { state: ConnState::Identifying, ..m },
                        EffectsV {
                            heartbeat: HbControl::Start { interval_ms: heartbeat_interval },
                            send: Some(OutCmdV::Identify),
                            close_transport: false,
                        },
                    ),
                }
            } else {
                (m, no_effects())
            }
        },
        EventV::Ready { session_id, resume_url, seq } => {
            if m.state == ConnState::Identifying {
                (
                    MachineV {
                        state: ConnState::Connected,
                        session: Some(
                            SessionV { session_id, last_seq: seq, resume_url },
                        ),
                        ..m
                    },
                    no_effects(),
                )
            } else {
                (m, no_effects())
            }
        },
        EventV::Resumed => {
            if m.state == ConnState::Resuming {
                (MachineV { state: ConnState::Connected, ..m }, no_effects())
            } else {
                (m, no_effects())
            }
        },
        EventV::Dispatch { seq } => {
            // Every inbound dispatch raises the stored sequence to
            // max(stored, seq); it never regresses.
            match m.session {
                Some(sd) => (
                    MachineV {
                        session: Some(
                            SessionV {
                                last_seq: if seq > sd.last_seq {
                                    seq
                                } else {
                                    sd.last_seq
                                },
                                ..sd
                            },
                        ),
                        ..m
                    },
                    no_effects(),
                ),
                None => (m, no_effects()),
            }
        },
        EventV::InvalidSession { resumable } => {
            if m.state == ConnState::Identifying || m.state == ConnState::Resuming {
                if resumable {
                    // Retry the resume on a fresh connection: the session is
                    // kept, and the next Hello will answer with Resume.
                    (
                        MachineV { state: ConnState::AwaitingHello, ..m },
                        teardown_effects(),
                    )
                } else {
                    // The session is gone for good: forget it, so the next
                    // connection identifies from scratch.
                    (
                        MachineV { state: ConnState::Disconnected, session: None, ..m },
                        teardown_effects(),
                    )
                }
            } else {
                (m, no_effects())
            }
        },
        EventV::Reconnect | EventV::TransportError | EventV::HeartbeatTimeout => {
            if spec_active(m.state) {
                // Close and reconnect; the session is preserved for resume.
                (
                    MachineV { state: ConnState::Closing, resume_after_close: true, ..m },
                    teardown_effects(),
                )
            } else {
                (m, no_effects())
            }
        },
        EventV::Shutdown => {
            if m.state == ConnState::Disconnected {
                (MachineV { shutdown: true, ..m }, no_effects())
            } else if m.state == ConnState::Closing {
                (MachineV { resume_after_close: false, shutdown: true, ..m }, no_effects())
            } else {
                (
                    MachineV {
                        state: ConnState::Closing,
                        resume_after_close: false,
                        shutdown: true,
                        ..m
                    },
                    teardown_effects(),
                )
            }
        },
        EventV::CloseDone => {
            if m.state == ConnState::Closing {
                if m.resume_after_close {
                    (MachineV { state: ConnState::AwaitingHello, ..m }, no_effects())
                } else {
                    (MachineV { state: ConnState::Disconnected, ..m }, no_effects())
                }
            } else {
                (m, no_effects())
            }
        },
    }
}

impl SessionMachine {
    /// A machine with no connection and no stored session.
    pub fn new() -> (r: SessionMachine)
        ensures
            r@ == spec_init(),
            spec_wf(r@),
    {
        SessionMachine {
            state: ConnState::Disconnected,
            session: None,
            resume_after_close: false,
            shutdown: false,
        }
    }

    /// Whether the supervisor should open another connection once the
    /// current one has ended: yes unless an explicit shutdown was requested.
    /// A session the server invalidated is self-healing — the next attempt
    /// identifies afresh — so it is no reason to stop.
    pub fn keep_running(&self) -> (r: bool)
        ensures
            r == !self@.shutdown,
    {
        !self.shutdown
    }

    /// Feed one event through the machine; returns the effects the caller
    /// must perform. The whole behaviour is `spec_transition`.
    pub fn step(&mut self, e: Event) -> (eff: Effects)
        requires
            spec_wf(old(self)@),
        ensures
            final(self)@ == spec_transition(old(self)@, e@).0,
            eff@ == spec_transition(old(self)@, e@).1,
            spec_wf(final(self)@),
    {
        match e {
            Event::Opened => {
                if self.state == ConnState::Disconnected {
                    self.state = ConnState::AwaitingHello;
                }
                Effects { heartbeat: HbControl::Keep, send: None, close_transport: false }
            },
            Event::Hello { heartbeat_interval } => {
                if self.state == ConnState::AwaitingHello {
                    match &self.session {
                        Some(sd) => {
                            let cmd = OutCmd::Resume {
                                session_id: sd.session_id.clone(),
                                seq: sd.last_seq,
                            };
                            self.state = ConnState::Resuming;
                            Effects {
                                heartbeat: HbControl::Start { interval_ms: heartbeat_interval },
                                send: Some(cmd),
                                close_transport: false,
                            }
                        },
                        None => {
                            self.state = ConnState::Identifying;
                            Effects {
                                heartbeat: HbControl::Start { interval_ms: heartbeat_interval },
                                send: Some(OutCmd::Identify),
                                close_transport: false,
                            }
                        },
                    }
                } else {
                    Effects { heartbeat: HbControl::Keep, send: None, close_transport: false }
                }
            },
            Event::Ready { session_id, resume_url, seq } => {
                if self.state == ConnState::Identifying {
                    self.state = ConnState::Connected;
                    self.session = Some(
                        Session { session_id, last_seq: seq, resume_url },
                    );
                }
                Effects { heartbeat: HbControl::Keep, send: None, close_transport: false }
            },
            Event::Resumed => {
                if self.state == ConnState::Resuming {
                    self.state = ConnState::Connected;
                }
                Effects { heartbeat: HbControl::Keep, send: None, close_transport: false }
            },
            Event::Dispatch { seq } => {
                match &mut self.session {
                    Some(sd) => {
                        if seq > sd.last_seq {
                            sd.last_seq = seq;
                        }
                    },
                    None => {},
                }
                Effects { heartbeat: HbControl::Keep, send: None, close_transport: false }
            },
            Event::InvalidSession { resumable } => {
                if self.state == ConnState::Identifying || self.state == ConnState::Resuming {
                    if resumable {
                        self.state = ConnState::AwaitingHello;
                    } else {
                        self.state = ConnState::Disconnected;
                        self.session = None;
                    }
                    Effects { heartbeat: HbControl::Cancel, send: None, close_transport: true }
                } else {
                    Effects { heartbeat: HbControl::Keep, send: None, close_transport: false }
                }
            },
            Event::Reconnect | Event::TransportError | Event::HeartbeatTimeout => {
                if self.state == ConnState::AwaitingHello || self.state == ConnState::Identifying
                    || self.state == ConnState::Resuming || self.state == ConnState::Connected {
                    self.state = ConnState::Closing;
                    self.resume_after_close = true;
                    Effects { heartbeat: HbControl::Cancel, send: None, close_transport: true }
                } else {
                    Effects { heartbeat: HbControl::Keep, send: None, close_transport: false }
                }
            },
            Event::Shutdown => {
                self.shutdown = true;
                if self.state == ConnState::Disconnected {
                    Effects { heartbeat: HbControl::Keep, send: None, close_transport: false }
                } else if self.state == ConnState::Closing {
                    self.resume_after_close = false;
                    Effects { heartbeat: HbControl::Keep, send: None, close_transport: false }
                } else {
                    self.state = ConnState::Closing;
                    self.resume_after_close = false;
                    Effects { heartbeat: HbControl::Cancel, send: None, close_transport: true }
                }
            },
            Event::CloseDone => {
                if self.state == ConnState::Closing {
                    if self.resume_after_close {
                        self.state = ConnState::AwaitingHello;
                    } else {
                        self.state = ConnState::Disconnected;
                    }
                }
                Effects { heartbeat: HbControl::Keep, send: None, close_transport: false }
            },
        }
    }
}

/// A strictly increasing sequence of sequence numbers.
pub open spec fn strictly_increasing(ss: Seq<u64>) -> bool {
    forall|i: int, j: int| 0 <= i < j < ss.len() ==> ss[i] < ss[j]
}

/// The machine after a run of dispatch frames with the given sequence
/// numbers.
pub open spec fn apply_dispatches(m: MachineV, ss: Seq<u64>) -> MachineV
    decreases ss.len(),
{
    if ss.len() == 0 {
        m
    } else {
        apply_dispatches(spec_transition(m, EventV::Dispatch { seq: ss[0] }).0, ss.drop_first())
    }
}

/// Processing inbound dispatch frames with strictly increasing sequence
/// numbers leaves the stored sequence number at the maximum one seen: the
/// last of the run.
pub proof fn lemma_dispatch_run_stores_max(m: MachineV, ss: Seq<u64>)
    requires
        m.session is Some,
        m.session->Some_0.last_seq <= ss[0],
        ss.len() > 0,
        strictly_increasing(ss),
    ensures
        apply_dispatches(m, ss).session is Some,
        apply_dispatches(m, ss).session->Some_0.last_seq == ss.last(),
        forall|i: int| 0 <= i < ss.len() ==> ss[i] <= ss.last(),
        apply_dispatches(m, ss).state == m.state,
    decreases ss.len(),
{
    let m1 = spec_transition(m, EventV::Dispatch { seq: ss[0] }).0;
    if ss.len() == 1 {
        assert(apply_dispatches(m1, ss.drop_first()) == m1);
    } else {
        assert(strictly_increasing(ss.drop_first())) by {
            assert(forall|i: int, j: int|
                0 <= i < j < ss.drop_first().len() ==> ss.drop_first()[i] < ss.drop_first()[j]);
        }
        assert(ss.drop_first()[0] == ss[1]);
        lemma_dispatch_run_stores_max(m1, ss.drop_first());
        assert(ss.drop_first().last() == ss.last());
    }
}

/// A non-resumable `InvalidSession` clears the stored session, so the next
/// connection's `Hello` is always answered with a fresh `Identify`, never a
/// `Resume`.
pub proof fn lemma_invalid_session_fresh_identify(m: MachineV, interval: u64)
    requires
        m.state == ConnState::Identifying || m.state == ConnState::Resuming,
    ensures
        ({
            let m1 = spec_transition(m, EventV::InvalidSession { resumable: false }).0;
            let m2 = spec_transition(m1, EventV::Opened).0;
            let (m3, eff) = spec_transition(
                m2,
                EventV::Hello { heartbeat_interval: interval },
            );
            &&& m1.state == ConnState::Disconnected
            &&& m1.session is None
            &&& m3.state == ConnState::Identifying
            &&& eff.send == Some(OutCmdV::Identify)
            &&& !(eff.send matches Some(OutCmdV::Resume { .. }))
        }),
{
}

/// A resumable `InvalidSession` keeps the stored session, and the next
/// `Hello` is answered with a `Resume` carrying the stored session id and
/// sequence number.
pub proof fn lemma_invalid_session_resume_retry(m: MachineV, interval: u64)
    requires
        m.state == ConnState::Identifying || m.state == ConnState::Resuming,
        m.session is Some,
    ensures
        ({
            let sd = m.session->Some_0;
            let m1 = spec_transition(m, EventV::InvalidSession { resumable: true }).0;
            let (m2, eff) = spec_transition(
                m1,
                EventV::Hello { heartbeat_interval: interval },
            );
            &&& m1.state == ConnState::AwaitingHello
            &&& m1.session == m.session
            &&& m2.state == ConnState::Resuming
            &&& eff.send == Some(
                OutCmdV::Resume { session_id: sd.session_id, seq: sd.last_seq },
            )
        }),
{
}

/// When the transport drops while connected, the reconnect cycle ends in a
/// `Resume` that carries the stored session id and sequence number, never a
/// fresh `Identify`.
pub proof fn lemma_transport_loss_resumes(m: MachineV, interval: u64)
    requires
        m.state == ConnState::Connected,
        spec_wf(m),
    ensures
        ({
            let sd = m.session->Some_0;
            let (m1, eff1) = spec_transition(m, EventV::TransportError);
            let m2 = spec_transition(m1, EventV::CloseDone).0;
            let (m3, eff3) = spec_transition(
                m2,
                EventV::Hello { heartbeat_interval: interval },
            );
            &&& m1.state == ConnState::Closing
            &&& m1.session == m.session
            &&& eff1.close_transport
            &&& eff1.heartbeat == HbControl::Cancel
            &&& m2.state == ConnState::AwaitingHello
            &&& m3.state == ConnState::Resuming
            &&& eff3.send == Some(
                OutCmdV::Resume { session_id: sd.session_id, seq: sd.last_seq },
            )
            &&& eff3.send != Some(OutCmdV::Identify)
        }),
{
}

} // verus!
