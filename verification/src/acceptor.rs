//! The listener: binds once, then accepts connections for as long as the
//! process lives.
//!
//! Every accepted connection is handed to a relay of its own and the listener
//! goes straight back to accepting: it never waits for a relay, and it has no
//! state through which a relay could hold it up. A failed `accept` is
//! reported and accepting goes on. Only a failed `bind` ends the process.

use crate::address::{listen_address, loopback_address, LISTEN_PORT};
use vstd::prelude::*;

verus! {

/// Exit code of the process when the listening address cannot be bound.
pub const BIND_FAILURE_EXIT_CODE: u8 = 1;

/// State of the listener.
#[derive(Clone, Copy, Debug, PartialEq, Eq)]
pub enum AcceptorState {
    /// The listening address has been asked for.
    Binding,
    /// The socket is bound; an `accept` is pending.
    Listening,
    /// Terminal: the bind failed and the process is to exit.
    Failed,
}

/// What the outside world reports to the listener.
#[derive(Clone, Copy, Debug, PartialEq, Eq)]
pub enum AcceptorEvent {
    /// The listening socket is bound.
    Bound,
    /// The address is in use, not permitted or invalid.
    BindFailed,
    /// A pending `accept` produced an inbound connection.
    Accepted,
    /// A pending `accept` failed.
    AcceptFailed,
}

/// What the listener asks the outside world to do next.
#[derive(Debug, PartialEq, Eq)]
pub enum AcceptorAction {
    /// Bind the listening socket to this address.
    Bind(String),
    /// Wait for the next inbound connection.
    Accept,
    /// Start an independent relay for the connection just accepted, without
    /// waiting for it, then wait for the next inbound connection.
    SpawnRelay,
    /// Report the failed `accept`, then wait for the next inbound connection.
    ReportAcceptError,
    /// End the process with this exit code.
    Exit(u8),
    /// Nothing to do: the event does not concern the listener in its state.
    Nothing,
}

impl AcceptorAction {
    /// Whether carrying out this action starts a relay.
    pub open spec fn spawns_relay(self) -> bool {
        self is SpawnRelay
    }

    /// Whether carrying out this action ends in a pending `accept`.
    pub open spec fn waits_for_connection(self) -> bool {
        self is Accept || self is SpawnRelay || self is ReportAcceptError
    }
}

impl AcceptorEvent {
    /// Whether this event is the outcome of an `accept`.
    pub open spec fn is_accept_outcome(self) -> bool {
        self is Accepted || self is AcceptFailed
    }
}

impl AcceptorState {
    /// Whether the listener, in this state, waits for `event`: the outcome of
    /// the bind while `Binding`, the outcome of an `accept` while
    /// `Listening`, and nothing once `Failed`.
    pub open spec fn awaits(self, event: AcceptorEvent) -> bool {
        match self {
            AcceptorState::Binding => event is Bound || event is BindFailed,
            AcceptorState::Listening => event.is_accept_outcome(),
            AcceptorState::Failed => false,
        }
    }

    /// The state that follows `self` when `event` is reported. An event that
    /// is not awaited changes nothing. A failed bind is fatal; everything
    /// else that is awaited leaves the listener listening.
    pub open spec fn next(self, event: AcceptorEvent) -> AcceptorState {
        if !self.awaits(event) {
            self
        } else if event is BindFailed {
            AcceptorState::Failed
        } else {
            AcceptorState::Listening
        }
    }

    /// The action owed when `event` is reported in state `self`: nothing for
    /// an event that is not awaited, and otherwise what the event calls for.
    pub open spec fn reaction(self, event: AcceptorEvent) -> AcceptorAction {
        if !self.awaits(event) {
            AcceptorAction::Nothing
        } else {
            match event {
                AcceptorEvent::Bound => AcceptorAction::Accept,
                AcceptorEvent::BindFailed => AcceptorAction::Exit(BIND_FAILURE_EXIT_CODE),
                AcceptorEvent::Accepted => AcceptorAction::SpawnRelay,
                AcceptorEvent::AcceptFailed => AcceptorAction::ReportAcceptError,
            }
        }
    }

    /// The state reached from `self` when `events` are reported in order.
    pub open spec fn run(self, events: Seq<AcceptorEvent>) -> AcceptorState
        decreases events.len(),
    {
        if events.len() == 0 {
            self
        } else {
            self.run(events.drop_last()).next(events.last())
        }
    }

    /// The listener at process start: it is `Binding` and asks for the fixed
    /// listening address, port [`LISTEN_PORT`] on the loopback host.
    pub fn start() -> (r: (AcceptorState, AcceptorAction))
        ensures
            r.0 == AcceptorState::Binding,
            r.1 matches AcceptorAction::Bind(address) && address@ == loopback_address(
                LISTEN_PORT as nat,
            ),
    {
        (AcceptorState::Binding, AcceptorAction::Bind(listen_address()))
    }

    /// Takes note of `event` and says what to do about it.
    pub fn step(self, event: AcceptorEvent) -> (r: (AcceptorState, AcceptorAction))
        ensures
            r.0 == self.next(event),
            r.1 == self.reaction(event),
    {
        match self {
            AcceptorState::Binding => match event {
                AcceptorEvent::Bound => (AcceptorState::Listening, AcceptorAction::Accept),
                AcceptorEvent::BindFailed => (
                    AcceptorState::Failed,
                    AcceptorAction::Exit(BIND_FAILURE_EXIT_CODE),
                ),
                _ => (self, AcceptorAction::Nothing),
            },
            AcceptorState::Listening => match event {
                AcceptorEvent::Accepted => (self, AcceptorAction::SpawnRelay),
                AcceptorEvent::AcceptFailed => (self, AcceptorAction::ReportAcceptError),
                _ => (self, AcceptorAction::Nothing),
            },
            AcceptorState::Failed => (self, AcceptorAction::Nothing),
        }
    }
}

/// While listening, every outcome of an `accept` is served on the spot: the
/// listener stays `Listening`, its answer ends in a new pending `accept`, and
/// it starts a relay exactly when a connection was accepted.
pub proof fn lemma_listening_serves_every_accept(event: AcceptorEvent)
    requires
        event.is_accept_outcome(),
    ensures
        AcceptorState::Listening.next(event) == AcceptorState::Listening,
        AcceptorState::Listening.reaction(event).waits_for_connection(),
        AcceptorState::Listening.reaction(event).spawns_relay() == (event is Accepted),
{
}

/// The listener stays available: once it is `Listening`, nothing that can be
/// reported to it, in any number and any order, takes it out of `Listening`.
pub proof fn lemma_listener_stays_available(events: Seq<AcceptorEvent>)
    ensures
        AcceptorState::Listening.run(events) == AcceptorState::Listening,
    decreases events.len(),
{
    if events.len() > 0 {
        lemma_listener_stays_available(events.drop_last());
    }
}

/// Only a failed bind is fatal: the listener enters `Failed`, and asks for the
/// process to exit, exactly when `BindFailed` is reported while `Binding`; the
/// exit code is then not zero.
pub proof fn lemma_only_bind_failure_is_fatal(state: AcceptorState, event: AcceptorEvent)
    ensures
        (!(state is Failed) && state.next(event) is Failed) <==> (state is Binding
            && event is BindFailed),
        state.reaction(event) is Exit <==> (state is Binding && event is BindFailed),
        state.reaction(event) matches AcceptorAction::Exit(code) ==> code != 0,
{
}

/// `Failed` is terminal: whatever is reported afterwards, the listener stays
/// failed and asks for nothing.
pub proof fn lemma_failed_is_terminal(events: Seq<AcceptorEvent>)
    ensures
        AcceptorState::Failed.run(events) == AcceptorState::Failed,
        forall|event: AcceptorEvent| #[trigger]
            AcceptorState::Failed.reaction(event) == AcceptorAction::Nothing,
    decreases events.len(),
{
    if events.len() > 0 {
        lemma_failed_is_terminal(events.drop_last());
    }
}

} // verus!
