//! The forwarder as a whole: one listener and the relays it has started.
//!
//! This is a model for reasoning only. The running program keeps no table of
//! its relays: each one lives in a task of its own. The model lines the
//! relays up in the order in which they were started so that statements
//! about several of them at once can be written down and proved.

use crate::acceptor::{lemma_listener_stays_available, AcceptorEvent, AcceptorState};
use crate::relay::{RelayEvent, RelayState};
use vstd::prelude::*;

verus! {

/// The listener and every relay started so far, oldest first.
pub struct Forwarder {
    pub acceptor: AcceptorState,
    pub relays: Seq<RelayState>,
}

/// One thing that happens to the forwarder.
pub enum Occurrence {
    /// An event reported to the listener.
    Listener(AcceptorEvent),
    /// An event reported to the relay with the given position.
    Relay(nat, RelayEvent),
}

impl Forwarder {
    /// The forwarder after `occurrence`. A listener event moves the listener
    /// and, where its answer starts a relay, adds one in `Connecting`; a relay
    /// event moves the relay it is addressed to, if there is one.
    pub open spec fn on(self, occurrence: Occurrence) -> Forwarder {
        match occurrence {
            Occurrence::Listener(event) => Forwarder {
                acceptor: self.acceptor.next(event),
                relays: if self.acceptor.reaction(event).spawns_relay() {
                    self.relays.push(RelayState::Connecting)
                } else {
                    self.relays
                },
            },
            Occurrence::Relay(position, event) => Forwarder {
                acceptor: self.acceptor,
                relays: if position < self.relays.len() {
                    self.relays.update(position as int, self.relays[position as int].next(event))
                } else {
                    self.relays
                },
            },
        }
    }

    /// The forwarder after everything in `history`, in order.
    pub open spec fn after(self, history: Seq<Occurrence>) -> Forwarder
        decreases history.len(),
    {
        if history.len() == 0 {
            self
        } else {
            self.after(history.drop_last()).on(history.last())
        }
    }
}

/// The events that `history` holds for the relay at `position`, in order.
pub open spec fn events_of_relay(history: Seq<Occurrence>, position: nat) -> Seq<RelayEvent>
    decreases history.len(),
{
    if history.len() == 0 {
        Seq::empty()
    } else {
        let earlier = events_of_relay(history.drop_last(), position);
        match history.last() {
            Occurrence::Relay(p, event) if p == position => earlier.push(event),
            _ => earlier,
        }
    }
}

/// The events that `history` holds for the listener, in order.
pub open spec fn events_of_listener(history: Seq<Occurrence>) -> Seq<AcceptorEvent>
    decreases history.len(),
{
    if history.len() == 0 {
        Seq::empty()
    } else {
        let earlier = events_of_listener(history.drop_last());
        match history.last() {
            Occurrence::Listener(event) => earlier.push(event),
            _ => earlier,
        }
    }
}

/// `history` without the events addressed to the relay at `position`.
pub open spec fn without_relay(history: Seq<Occurrence>, position: nat) -> Seq<Occurrence>
    decreases history.len(),
{
    if history.len() == 0 {
        Seq::empty()
    } else {
        let earlier = without_relay(history.drop_last(), position);
        match history.last() {
            Occurrence::Relay(p, _) if p == position => earlier,
            other => earlier.push(other),
        }
    }
}

/// What happens to one relay stays with that relay. Take any history and
/// strike out everything that was reported to one relay, its failures
/// included: the listener and every other relay end up exactly where they
/// ended up with those events in place, and just as many relays were started.
pub proof fn lemma_relay_events_touch_one_relay(
    start: Forwarder,
    history: Seq<Occurrence>,
    culprit: nat,
)
    ensures
        start.after(history).acceptor == start.after(without_relay(history, culprit)).acceptor,
        start.after(history).relays.len() == start.after(
            without_relay(history, culprit),
        ).relays.len(),
        forall|other: int|
            0 <= other < start.after(history).relays.len() && other != culprit
                ==> #[trigger] start.after(history).relays[other] == start.after(
                without_relay(history, culprit),
            ).relays[other],
    decreases history.len(),
{
    if history.len() > 0 {
        let earlier = history.drop_last();
        lemma_relay_events_touch_one_relay(start, earlier, culprit);
        let kept = without_relay(earlier, culprit);
        match history.last() {
            Occurrence::Relay(p, _) if p == culprit => {},
            other => {
                assert(kept.push(other).drop_last() =~= kept);
            },
        }
    }
}

/// Relays are isolated from each other and from the listener. After any
/// history, a relay is in the phase that its own events alone lead to:
/// nothing that is reported to another relay or to the listener, a failure
/// included, changes it.
pub proof fn lemma_relay_is_isolated(start: Forwarder, history: Seq<Occurrence>, position: nat)
    requires
        position < start.relays.len(),
    ensures
        position < start.after(history).relays.len(),
        start.after(history).relays[position as int] == start.relays[position as int].run(
            events_of_relay(history, position),
        ),
    decreases history.len(),
{
    if history.len() > 0 {
        let earlier = history.drop_last();
        lemma_relay_is_isolated(start, earlier, position);
        match history.last() {
            Occurrence::Relay(p, event) if p == position => {
                let own = events_of_relay(earlier, position);
                assert(own.push(event).drop_last() =~= own);
            },
            _ => {},
        }
    }
}

/// The listener does not depend on its relays. After any history, it is in
/// the state that its own events alone lead to, whatever the relays went
/// through in between.
pub proof fn lemma_listener_ignores_relays(start: Forwarder, history: Seq<Occurrence>)
    ensures
        start.after(history).acceptor == start.acceptor.run(events_of_listener(history)),
    decreases history.len(),
{
    if history.len() > 0 {
        let earlier = history.drop_last();
        lemma_listener_ignores_relays(start, earlier);
        match history.last() {
            Occurrence::Listener(event) => {
                let own = events_of_listener(earlier);
                assert(own.push(event).drop_last() =~= own);
            },
            _ => {},
        }
    }
}

/// A forwarder that listens keeps listening. Whatever happens afterwards, to
/// the listener or to any number of relays, in any order, the listener is
/// still `Listening` and so ready for the next connection.
pub proof fn lemma_forwarder_keeps_listening(start: Forwarder, history: Seq<Occurrence>)
    requires
        start.acceptor is Listening,
    ensures
        start.after(history).acceptor is Listening,
{
    lemma_listener_ignores_relays(start, history);
    lemma_listener_stays_available(events_of_listener(history));
}

/// A listening forwarder accepts whatever its relays are busy with: the
/// accepted connection gets a relay of its own, in `Connecting`, the relays
/// already there are left as they are, and the listener keeps listening.
pub proof fn lemma_accept_starts_a_relay(forwarder: Forwarder)
    requires
        forwarder.acceptor is Listening,
    ensures
        forwarder.on(Occurrence::Listener(AcceptorEvent::Accepted)).acceptor is Listening,
        forwarder.on(Occurrence::Listener(AcceptorEvent::Accepted)).relays
            == forwarder.relays.push(RelayState::Connecting),
{
}

} // verus!
