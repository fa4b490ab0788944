//! The accept loop of the echo server: each accepted connection gets the next
//! number, a failed accept is skipped, and the shutdown signal ends the loop.

use vstd::prelude::*;

verus! {

/// What the listener's driver observed.
#[derive(Debug, Clone, Copy, PartialEq, Eq)]
pub enum ListenerEvent {
    /// A new connection was accepted.
    Accepted,
    /// Accepting a connection failed.
    AcceptFailed,
    /// The shutdown signal arrived.
    ShutdownSignalled,
}

/// What the listener's driver is to do next.
#[derive(Debug, Clone, Copy, PartialEq, Eq)]
pub enum ListenerAction {
    /// Serve the accepted connection under this number.
    Serve(u8),
    /// Drop the failed attempt and keep accepting.
    Skip,
    /// Stop accepting.
    Stop,
}

/// Counts the connections accepted so far; a connection's number is the
/// count after it was accepted, so numbers start at 1.
#[derive(Debug)]
pub struct ConnectionRegistry {
    num_connections: u8,
}

/// The count and the action after one event, from the count before it.
pub open spec fn listener_step(count: u8, event: ListenerEvent) -> (u8, ListenerAction) {
    match event {
        ListenerEvent::Accepted => ((count + 1) as u8, ListenerAction::Serve((count + 1) as u8)),
        ListenerEvent::AcceptFailed => (count, ListenerAction::Skip),
        ListenerEvent::ShutdownSignalled => (count, ListenerAction::Stop),
    }
}

impl ConnectionRegistry {
    pub closed spec fn count(&self) -> u8 {
        self.num_connections
    }

    /// A registry that has accepted no connection yet.
    pub fn new() -> (r: Self)
        ensures
            r.count() == 0,
    {
        ConnectionRegistry { num_connections: 0 }
    }

    /// The number of connections accepted so far.
    pub fn num_connections(&self) -> (r: u8)
        ensures
            r == self.count(),
    {
        self.num_connections
    }

    /// Whether one more connection can be numbered in a `u8`.
    pub fn can_accept(&self) -> (r: bool)
        ensures
            r == (self.count() < u8::MAX),
    {
        self.num_connections < u8::MAX
    }

    /// Takes one event of the accept loop and says what to do.
    pub fn on_event(&mut self, event: ListenerEvent) -> (action: ListenerAction)
        requires
            event is Accepted ==> old(self).count() < u8::MAX,
        ensures
            (final(self).count(), action) == listener_step(old(self).count(), event),
            event is ShutdownSignalled ==> action == ListenerAction::Stop && final(self).count()
                == old(self).count(),
            event is AcceptFailed ==> action == ListenerAction::Skip && final(self).count()
                == old(self).count(),
            event is Accepted ==> action == ListenerAction::Serve(final(self).count())
                && final(self).count() == old(self).count() + 1,
    {
        match event {
            ListenerEvent::Accepted => {
                self.num_connections = self.num_connections + 1;
                ListenerAction::Serve(self.num_connections)
            },
            ListenerEvent::AcceptFailed => ListenerAction::Skip,
            ListenerEvent::ShutdownSignalled => ListenerAction::Stop,
        }
    }
}

/// Shutdown law: whatever the number of connections accepted so far, the
/// shutdown signal stops the loop and leaves the count as it is; a failed
/// accept never stops it, and leaves the count as it is; an accepted
/// connection is served under the count plus one. Only the shutdown signal
/// gives `Stop`.
pub proof fn lemma_only_shutdown_stops(count: u8, event: ListenerEvent)
    requires
        event is Accepted ==> count < u8::MAX,
    ensures
        event is ShutdownSignalled ==> listener_step(count, event) == (count, ListenerAction::Stop),
        event is AcceptFailed ==> listener_step(count, event) == (count, ListenerAction::Skip),
        event is Accepted ==> listener_step(count, event) == ((count + 1) as u8, ListenerAction::Serve(
            (count + 1) as u8,
        )) && listener_step(count, event).0 == count + 1,
        listener_step(count, event).1 == ListenerAction::Stop <==> event is ShutdownSignalled,
{
}

/// Whether a run of events stays within the numbers a `u8` can give.
pub open spec fn fits(count: u8, events: Seq<ListenerEvent>) -> bool
    decreases events.len(),
{
    if events.len() == 0 {
        true
    } else {
        (events[0] is Accepted ==> count < u8::MAX) && fits(
            listener_step(count, events[0]).0,
            events.drop_first(),
        )
    }
}

/// The numbers handed out over a run of events, in order.
pub open spec fn served(count: u8, events: Seq<ListenerEvent>) -> Seq<u8>
    decreases events.len(),
{
    if events.len() == 0 {
        Seq::empty()
    } else {
        let (next, action) = listener_step(count, events[0]);
        let rest = served(next, events.drop_first());
        match action {
            ListenerAction::Serve(i) => seq![i].add(rest),
            _ => rest,
        }
    }
}

/// How many of the events are accepted connections.
pub open spec fn num_accepted(events: Seq<ListenerEvent>) -> nat
    decreases events.len(),
{
    if events.len() == 0 {
        0
    } else {
        (if events[0] is Accepted { 1nat } else { 0nat }) + num_accepted(events.drop_first())
    }
}

/// Numbering law: over any run of events that the counter can hold, the
/// numbers handed out are exactly the next ones in order, one per accepted
/// connection, so no two connections share a number.
pub proof fn lemma_numbers_are_consecutive(count: u8, events: Seq<ListenerEvent>)
    requires
        fits(count, events),
    ensures
        forall|i: int|
            0 <= i < served(count, events).len() ==> #[trigger] served(count, events)[i] == count
                + i + 1,
        served(count, events).len() == num_accepted(events),
    decreases events.len(),
{
    if events.len() > 0 {
        let (next, action) = listener_step(count, events[0]);
        lemma_numbers_are_consecutive(next, events.drop_first());
        let s = served(count, events);
        let rest = served(next, events.drop_first());
        if events[0] is Accepted {
            assert forall|i: int| 0 <= i < s.len() implies #[trigger] s[i] == count + i + 1 by {
                if i > 0 {
                    assert(s[i] == rest[i - 1]);
                }
            }
        }
    }
}

} // verus!
