//! Life cycle of one relay: `Connecting`, then `Relaying`, then `Closed`.
//!
//! A relay is created for one accepted inbound connection. It first asks for
//! an outbound connection to the destination, then for a copy of bytes in both
//! directions at once, and finally for the release of every connection it
//! holds. The program that owns the sockets carries out each [`RelayAction`]
//! and reports what happened as a [`RelayEvent`].

use crate::address::{loopback_address, Args};
use vstd::prelude::*;

verus! {

/// Why a relay ended in failure.
#[derive(Clone, Copy, Debug, PartialEq, Eq)]
pub enum RelayError {
    /// The outbound connection to the destination could not be opened.
    ConnectFailed,
    /// Reading or writing failed while bytes were being copied.
    CopyFailed,
}

/// Phase of a relay.
#[derive(Clone, Copy, Debug, PartialEq, Eq)]
pub enum RelayState {
    /// The inbound connection is held; the outbound one has been asked for.
    Connecting,
    /// Both connections are held and bytes are copied in both directions.
    Relaying,
    /// Terminal: nothing is held any more. Carries the relay's outcome.
    Closed(Result<(), RelayError>),
}

/// What the outside world reports to a relay.
#[derive(Clone, Copy, Debug, PartialEq, Eq)]
pub enum RelayEvent {
    /// The outbound connection is open.
    Connected,
    /// The outbound connection was refused, timed out or is unreachable.
    ConnectFailed,
    /// Both directions reached end of stream and were shut down.
    CopyFinished,
    /// A read, write, flush or shutdown failed during the copy.
    CopyFailed,
}

/// What a relay asks the outside world to do next.
#[derive(Debug, PartialEq, Eq)]
pub enum RelayAction {
    /// Open the outbound connection to this address.
    Connect(String),
    /// Copy bytes inbound to outbound and outbound to inbound, concurrently,
    /// until each direction has seen end of stream.
    Copy,
    /// Close the inbound connection, the only one held.
    CloseInbound,
    /// Close the inbound and the outbound connection.
    CloseBoth,
    /// Nothing to do: the event does not concern the relay in its phase.
    Nothing,
}

impl RelayAction {
    /// Whether carrying out this action closes the inbound connection.
    pub open spec fn closes_inbound(self) -> bool {
        self is CloseInbound || self is CloseBoth
    }

    /// Whether carrying out this action closes the outbound connection.
    pub open spec fn closes_outbound(self) -> bool {
        self is CloseBoth
    }
}

impl RelayState {
    /// Whether the relay, in this phase, waits for `event`: the outcome of the
    /// connect while `Connecting`, the outcome of the copy while `Relaying`,
    /// and nothing once `Closed`.
    pub open spec fn awaits(self, event: RelayEvent) -> bool {
        match self {
            RelayState::Connecting => event is Connected || event is ConnectFailed,
            RelayState::Relaying => event is CopyFinished || event is CopyFailed,
            RelayState::Closed(_) => false,
        }
    }

    /// The phase that follows `self` when `event` is reported. An event that
    /// is not awaited changes nothing. A successful connect starts the
    /// relaying; every other awaited event closes the relay, a failure with
    /// its reason.
    pub open spec fn next(self, event: RelayEvent) -> RelayState {
        if !self.awaits(event) {
            self
        } else {
            match event {
                RelayEvent::Connected => RelayState::Relaying,
                RelayEvent::ConnectFailed => RelayState::Closed(Err(RelayError::ConnectFailed)),
                RelayEvent::CopyFinished => RelayState::Closed(Ok(())),
                RelayEvent::CopyFailed => RelayState::Closed(Err(RelayError::CopyFailed)),
            }
        }
    }

    /// The action owed when `event` is reported in phase `self`: nothing for
    /// an event that is not awaited, the copy on entering `Relaying`, and on
    /// entering `Closed` the release of every connection held.
    pub open spec fn reaction(self, event: RelayEvent) -> RelayAction {
        if !self.awaits(event) {
            RelayAction::Nothing
        } else if self.next(event) is Relaying {
            RelayAction::Copy
        } else if self.holds_outbound() {
            RelayAction::CloseBoth
        } else {
            RelayAction::CloseInbound
        }
    }

    /// Whether the relay holds the inbound connection in this phase.
    pub open spec fn holds_inbound(self) -> bool {
        self is Connecting || self is Relaying
    }

    /// Whether the relay holds the outbound connection in this phase.
    pub open spec fn holds_outbound(self) -> bool {
        self is Relaying
    }

    /// Whether `event`, reported in phase `self`, puts a newly opened outbound
    /// connection into the relay's hands.
    pub open spec fn gains_outbound(self, event: RelayEvent) -> bool {
        self is Connecting && event is Connected
    }

    /// The phase reached from `self` when `events` are reported in order.
    pub open spec fn run(self, events: Seq<RelayEvent>) -> RelayState
        decreases events.len(),
    {
        if events.len() == 0 {
            self
        } else {
            self.run(events.drop_last()).next(events.last())
        }
    }

    /// A relay for a freshly accepted connection: it is `Connecting` and asks
    /// for a connection to the destination that `args` names.
    pub fn start(args: &Args) -> (r: (RelayState, RelayAction))
        ensures
            r.0 == RelayState::Connecting,
            r.1 matches RelayAction::Connect(address) && address@ == loopback_address(
                args.port as nat,
            ),
    {
        (RelayState::Connecting, RelayAction::Connect(args.to_string()))
    }

    /// The relay's outcome, once it is `Closed`; `None` while it is running.
    pub fn outcome(&self) -> (outcome: Option<Result<(), RelayError>>)
        ensures
            outcome == match *self {
                RelayState::Closed(result) => Some(result),
                _ => None,
            },
    {
        match self {
            RelayState::Closed(result) => Some(*result),
            _ => None,
        }
    }

    /// Takes note of `event` and says what to do about it.
    pub fn step(self, event: RelayEvent) -> (r: (RelayState, RelayAction))
        ensures
            r.0 == self.next(event),
            r.1 == self.reaction(event),
    {
        match self {
            RelayState::Connecting => match event {
                RelayEvent::Connected => (RelayState::Relaying, RelayAction::Copy),
                RelayEvent::ConnectFailed => (
                    RelayState::Closed(Err(RelayError::ConnectFailed)),
                    RelayAction::CloseInbound,
                ),
                _ => (self, RelayAction::Nothing),
            },
            RelayState::Relaying => match event {
                RelayEvent::CopyFinished => (RelayState::Closed(Ok(())), RelayAction::CloseBoth),
                RelayEvent::CopyFailed => (
                    RelayState::Closed(Err(RelayError::CopyFailed)),
                    RelayAction::CloseBoth,
                ),
                _ => (self, RelayAction::Nothing),
            },
            RelayState::Closed(_) => (self, RelayAction::Nothing),
        }
    }
}

/// Connections are accounted for at every step. The inbound connection stays
/// held until an action closes it; the outbound one is held from the moment
/// it is reported open until an action closes it; and no action closes a
/// connection that is not held.
pub proof fn lemma_step_accounts_for_connections(state: RelayState, event: RelayEvent)
    ensures
        state.next(event).holds_inbound() == (state.holds_inbound() && !state.reaction(
            event,
        ).closes_inbound()),
        state.next(event).holds_outbound() == ((state.holds_outbound() || state.gains_outbound(
            event,
        )) && !state.reaction(event).closes_outbound()),
        state.reaction(event).closes_inbound() ==> state.holds_inbound(),
        state.reaction(event).closes_outbound() ==> state.holds_outbound(),
{
}

/// A closed relay holds no connection, and the step that closes a relay asks
/// for the release of exactly the connections held until then, whether the
/// relay ends well or in failure.
pub proof fn lemma_closing_releases_every_connection(state: RelayState, event: RelayEvent)
    requires
        state.next(event) is Closed,
    ensures
        !state.next(event).holds_inbound(),
        !state.next(event).holds_outbound(),
        !(state is Closed) ==> state.reaction(event).closes_inbound() == state.holds_inbound(),
        !(state is Closed) ==> state.reaction(event).closes_outbound() == state.holds_outbound(),
{
}

/// The life cycle runs one way and every ending has one cause. An event
/// that is not awaited neither moves a relay nor makes it ask for anything,
/// and an awaited one always moves it on. The copy is asked for exactly when
/// the connect succeeds, which is the only way into `Relaying`. A relay
/// closes well only when the copy finished, and with an error only when the
/// step named by that error failed.
pub proof fn lemma_life_cycle(state: RelayState, event: RelayEvent)
    ensures
        !state.awaits(event) ==> state.next(event) == state && state.reaction(event)
            == RelayAction::Nothing,
        state.awaits(event) ==> state.next(event) != state,
        state.reaction(event) == RelayAction::Copy <==> (state is Connecting
            && event is Connected),
        state.next(event) is Connecting ==> state is Connecting,
        state.next(event) is Relaying ==> state is Relaying || (state is Connecting
            && event is Connected),
        state.next(event) == RelayState::Closed(Ok(())) ==> state == RelayState::Closed(Ok(()))
            || (state is Relaying && event is CopyFinished),
        state.next(event) == RelayState::Closed(Err(RelayError::ConnectFailed)) ==> state
            == RelayState::Closed(Err(RelayError::ConnectFailed)) || (state is Connecting
            && event is ConnectFailed),
        state.next(event) == RelayState::Closed(Err(RelayError::CopyFailed)) ==> state
            == RelayState::Closed(Err(RelayError::CopyFailed)) || (state is Relaying
            && event is CopyFailed),
{
}

/// `Closed` is terminal: whatever is reported afterwards, the relay keeps its
/// phase and its outcome and asks for nothing.
pub proof fn lemma_closed_is_terminal(state: RelayState, events: Seq<RelayEvent>)
    requires
        state is Closed,
    ensures
        state.run(events) == state,
        forall|event: RelayEvent| #[trigger] state.reaction(event) == RelayAction::Nothing,
    decreases events.len(),
{
    if events.len() > 0 {
        lemma_closed_is_terminal(state, events.drop_last());
    }
}

/// A relay whose connect failed never copies: from `Connecting`, once
/// `ConnectFailed` is reported the relay is closed with that error and no
/// later event makes it ask for anything.
pub proof fn lemma_failed_connect_forwards_nothing(later: Seq<RelayEvent>, event: RelayEvent)
    ensures
        RelayState::Connecting.reaction(RelayEvent::ConnectFailed) == RelayAction::CloseInbound,
        RelayState::Connecting.next(RelayEvent::ConnectFailed).run(later) == RelayState::Closed(
            Err(RelayError::ConnectFailed),
        ),
        RelayState::Connecting.next(RelayEvent::ConnectFailed).run(later).reaction(event)
            == RelayAction::Nothing,
{
    lemma_closed_is_terminal(RelayState::Connecting.next(RelayEvent::ConnectFailed), later);
}

} // verus!
