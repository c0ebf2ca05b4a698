//! The session state machine and heartbeat scheduler from outside: the
//! lifecycle scenarios, sequence tracking, and the resume-versus-identify
//! decisions.
use discord_gateway::heartbeat::{HeartbeatState, TickAction};
use discord_gateway::session::{ConnState, Event, HbControl, OutCmd, SessionMachine};

fn chars(s: &str) -> Vec<char> {
    s.chars().collect()
}

/// Drive a fresh machine to Connected with the given session data.
fn connected_machine(session_id: &str, seq: u64) -> SessionMachine {
    let mut m = SessionMachine::new();
    m.step(Event::Opened);
    let eff = m.step(Event::Hello { heartbeat_interval: 41250 });
    assert!(matches!(eff.send, Some(OutCmd::Identify)));
    assert!(matches!(eff.heartbeat, HbControl::Start { interval_ms: 41250 }));
    m.step(Event::Ready {
        session_id: chars(session_id),
        resume_url: chars("wss://resume.example"),
        seq,
    });
    assert_eq!(m.state, ConnState::Connected);
    m
}

#[test]
fn dispatch_run_stores_the_maximum_sequence() {
    let mut m = connected_machine("abc", 5);
    for s in [6u64, 7, 9, 12] {
        m.step(Event::Dispatch { seq: s });
    }
    assert_eq!(m.session.as_ref().unwrap().last_seq, 12);
}

#[test]
fn sequence_never_regresses() {
    let mut m = connected_machine("abc", 5);
    m.step(Event::Dispatch { seq: 9 });
    m.step(Event::Dispatch { seq: 3 });
    assert_eq!(m.session.as_ref().unwrap().last_seq, 9);
}

#[test]
fn heartbeat_ack_clears_pending_and_double_tick_signals_reconnect() {
    let mut h = HeartbeatState::new(41250);
    assert!(!h.pending);
    // Tick, acknowledge, tick again: two sends.
    assert_eq!(h.on_tick(), TickAction::SendHeartbeat);
    assert!(h.pending);
    h.on_ack();
    assert!(!h.pending);
    assert_eq!(h.on_tick(), TickAction::SendHeartbeat);
    // No acknowledgement: the next tick must signal a reconnect, not send.
    assert_eq!(h.on_tick(), TickAction::SignalReconnect);
    assert!(h.pending);
}

#[test]
fn first_tick_delay_is_jittered_below_the_interval() {
    let h = HeartbeatState::new(41250);
    let delay = h.initial_delay(123456789);
    assert_eq!(delay, 36789);
    assert!(delay < 41250);
    assert_ne!(delay, 41250);
}

#[test]
fn invalid_session_not_resumable_identifies_afresh() {
    let mut m = connected_machine("abc", 5);
    // Server tears the session down during a resume attempt.
    m.step(Event::TransportError);
    m.step(Event::CloseDone);
    let eff = m.step(Event::Hello { heartbeat_interval: 41250 });
    assert!(matches!(eff.send, Some(OutCmd::Resume { .. })));
    assert_eq!(m.state, ConnState::Resuming);
    let eff = m.step(Event::InvalidSession { resumable: false });
    assert!(eff.close_transport);
    assert_eq!(m.state, ConnState::Disconnected);
    assert!(m.session.is_none());
    // The next connection identifies, never resumes.
    m.step(Event::Opened);
    let eff = m.step(Event::Hello { heartbeat_interval: 41250 });
    assert!(matches!(eff.send, Some(OutCmd::Identify)));
    assert_eq!(m.state, ConnState::Identifying);
}

#[test]
fn invalid_session_resumable_resumes_with_stored_data() {
    let mut m = connected_machine("abc", 5);
    m.step(Event::Dispatch { seq: 21 });
    m.step(Event::TransportError);
    m.step(Event::CloseDone);
    m.step(Event::Hello { heartbeat_interval: 41250 });
    let eff = m.step(Event::InvalidSession { resumable: true });
    assert!(eff.close_transport);
    assert_eq!(m.state, ConnState::AwaitingHello);
    assert!(m.session.is_some());
    let eff = m.step(Event::Hello { heartbeat_interval: 41250 });
    match eff.send {
        Some(OutCmd::Resume { session_id, seq }) => {
            assert_eq!(session_id, chars("abc"));
            assert_eq!(seq, 21);
        },
        other => panic!("expected a resume, got {:?}", other),
    }
}

#[test]
fn transport_loss_while_connected_resumes_with_stored_session() {
    let mut m = connected_machine("abc", 5);
    for s in 6..=57u64 {
        m.step(Event::Dispatch { seq: s });
    }
    let eff = m.step(Event::TransportError);
    assert_eq!(m.state, ConnState::Closing);
    assert!(eff.close_transport);
    assert_eq!(eff.heartbeat, HbControl::Cancel);
    m.step(Event::CloseDone);
    assert_eq!(m.state, ConnState::AwaitingHello);
    let eff = m.step(Event::Hello { heartbeat_interval: 41250 });
    match eff.send {
        Some(OutCmd::Resume { session_id, seq }) => {
            assert_eq!(session_id, chars("abc"));
            assert_eq!(seq, 57);
        },
        other => panic!("expected a resume, got {:?}", other),
    }
    assert_eq!(m.state, ConnState::Resuming);
}

#[test]
fn resumed_dispatch_reconnects_the_session() {
    let mut m = connected_machine("abc", 5);
    m.step(Event::Reconnect);
    m.step(Event::CloseDone);
    m.step(Event::Hello { heartbeat_interval: 41250 });
    assert_eq!(m.state, ConnState::Resuming);
    m.step(Event::Resumed);
    assert_eq!(m.state, ConnState::Connected);
    assert_eq!(m.session.as_ref().unwrap().last_seq, 5);
}

#[test]
fn shutdown_ends_in_disconnected() {
    let mut m = connected_machine("abc", 5);
    let eff = m.step(Event::Shutdown);
    assert!(eff.close_transport);
    assert_eq!(eff.heartbeat, HbControl::Cancel);
    assert_eq!(m.state, ConnState::Closing);
    m.step(Event::CloseDone);
    assert_eq!(m.state, ConnState::Disconnected);
}

#[test]
fn stray_events_are_ignored() {
    let mut m = SessionMachine::new();
    // Nothing is open: protocol frames change nothing.
    m.step(Event::Resumed);
    m.step(Event::Dispatch { seq: 9 });
    m.step(Event::CloseDone);
    assert_eq!(m.state, ConnState::Disconnected);
    assert!(m.session.is_none());
}
