//! Heartbeat scheduler state: tracks the server-given interval and whether a
//! heartbeat is still awaiting acknowledgement. At most one heartbeat may be
//! pending at a time; a tick that finds one still pending marks the connection
//! as dead and asks for a reconnect instead of sending twice.
use vstd::prelude::*;

verus! {

/// What a scheduler tick decides to do.
#[derive(Clone, Copy, PartialEq, Eq, Structural, Debug)]
pub enum TickAction {
    /// No heartbeat is pending: send one (its `d` is the last seen sequence).
    SendHeartbeat,
    /// The previous heartbeat was never acknowledged: the connection is
    /// zombied, signal the supervisor to reconnect.
    SignalReconnect,
}

/// The scheduler's state: the interval from `Hello` and the
/// acknowledgement-pending flag.
#[derive(Clone, Copy, PartialEq, Eq, Structural, Debug)]
pub struct HeartbeatState {
    pub interval_ms: u64,
    pub pending: bool,
}

/// What one tick does to the state, and what it asks the caller to do.
pub open spec fn spec_tick(h: HeartbeatState) -> (HeartbeatState, TickAction) {
    if h.pending {
        (h, TickAction::SignalReconnect)
    } else {
        (HeartbeatState { pending: true, ..h }, TickAction::SendHeartbeat)
    }
}

/// What an acknowledgement does to the state.
pub open spec fn spec_ack(h: HeartbeatState) -> HeartbeatState {
    HeartbeatState { pending: false, ..h }
}

impl HeartbeatState {
    /// A fresh scheduler for the interval the server supplied in `Hello`.
    pub fn new(interval_ms: u64) -> (r: HeartbeatState)
        requires
            interval_ms > 0,
        ensures
            r.interval_ms == interval_ms,
            !r.pending,
    {
        HeartbeatState { interval_ms, pending: false }
    }

    /// The delay before the first tick: a jitter reduced into
    /// `[0, interval_ms)`, as the protocol requires, so that many clients
    /// reconnecting at once do not heartbeat in lockstep. Later ticks run at
    /// the full interval.
    pub fn initial_delay(&self, jitter: u64) -> (r: u64)
        requires
            self.interval_ms > 0,
        ensures
            r == jitter % self.interval_ms,
            r < self.interval_ms,
    {
        jitter % self.interval_ms
    }

    /// One scheduler tick: sends a heartbeat and marks it pending, unless the
    /// previous one was never acknowledged, in which case the connection is
    /// reported dead instead.
    pub fn on_tick(&mut self) -> (r: TickAction)
        ensures
            (*final(self), r) == spec_tick(*old(self)),
            old(self).pending ==> r == TickAction::SignalReconnect && *final(self) == *old(self),
            !old(self).pending ==> r == TickAction::SendHeartbeat && final(self).pending,
            final(self).interval_ms == old(self).interval_ms,
    {
        if self.pending {
            TickAction::SignalReconnect
        } else {
            self.pending = true;
            TickAction::SendHeartbeat
        }
    }

    /// The server acknowledged the outstanding heartbeat: clear pending.
    pub fn on_ack(&mut self)
        ensures
            *final(self) == spec_ack(*old(self)),
            !final(self).pending,
            final(self).interval_ms == old(self).interval_ms,
    {
        self.pending = false;
    }
}

/// An acknowledgement received after a heartbeat send clears the pending
/// flag, and the next tick sends again; a second tick with no intervening
/// acknowledgement signals a reconnect and never sends a second heartbeat.
pub proof fn lemma_heartbeat_ack_discipline(h: HeartbeatState)
    requires
        !h.pending,
    ensures
        spec_tick(h).1 == TickAction::SendHeartbeat,
        spec_tick(h).0.pending,
        !spec_ack(spec_tick(h).0).pending,
        spec_tick(spec_ack(spec_tick(h).0)).1 == TickAction::SendHeartbeat,
        spec_tick(spec_tick(h).0).1 == TickAction::SignalReconnect,
        spec_tick(spec_tick(h).0).1 != TickAction::SendHeartbeat,
        spec_tick(spec_tick(h).0).0 == spec_tick(h).0,
{
}

} // verus!
