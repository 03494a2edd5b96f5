//! A session together with all its connections, and what holds of every run.
//!
//! The functions of [`crate::session`] and [`crate::connection`] each say
//! what one call does. This module puts the calls in a row. A [`System`] is
//! what contracts see of a session and of its connections; a [`Step`] is one
//! call; [`run`] applies a sequence of them. The lemmas state what no
//! sequence of calls can break.
//!
//! The hub itself is not modelled. Where a lemma needs to speak of what a
//! subscriber is handed, it takes the delivered events as they come and says
//! so.

use crate::connection::{
    ends_stream, next_state, reaction, viewer_change, ActionView, ConnectionState, EventView,
};
use crate::message::{wire_text, MessageKind};
use crate::session::{advanced, greeting_text, has_room, published, SessionView};
use vstd::prelude::*;

verus! {

/// A session and the states of its connections, in the order in which the
/// connections were accepted.
pub struct System {
    pub session: SessionView,
    pub connections: Seq<ConnectionState>,
}

/// One call on the session.
pub enum Step {
    /// The watched file was read and its content published.
    Publish(Seq<char>),
    /// The watched file could not be read.
    ReadFailed,
    /// A page was fetched under this identifier.
    Fetch(Seq<char>),
    /// A live connection was asked for under this identifier.
    Accept(Seq<char>),
    /// The connection with this number took this event.
    Deliver(int, EventView),
}

/// A session that has just started: nobody is connected.
pub open spec fn fresh(session: SessionView) -> System {
    System { session: SessionView { viewer_count: 0, ..session }, connections: Seq::empty() }
}

/// The system after one step.
///
/// A fetch changes nothing. A request for a live connection adds a
/// connection, attaching, where the identifier is the session's, and changes
/// nothing where it is not. An event for a connection that does not exist
/// changes nothing.
pub open spec fn after(system: System, step: Step) -> System {
    match step {
        Step::Publish(content) => System { session: published(system.session, content), ..system },
        Step::ReadFailed => system,
        Step::Fetch(_) => system,
        Step::Accept(requested) => if requested == system.session.identifier {
            System {
                connections: system.connections.push(ConnectionState::Attaching),
                ..system
            }
        } else {
            system
        },
        Step::Deliver(number, event) => if 0 <= number < system.connections.len() {
            System {
                session: advanced(system.session, system.connections[number], event),
                connections: system.connections.update(
                    number,
                    next_state(system.connections[number], event),
                ),
            }
        } else {
            system
        },
    }
}

/// The system after a sequence of steps, first to last.
pub open spec fn run(system: System, steps: Seq<Step>) -> System
    decreases steps.len(),
{
    if steps.len() == 0 {
        system
    } else {
        after(run(system, steps.drop_last()), steps.last())
    }
}

/// How many of the connections are streaming.
pub open spec fn streaming(connections: Seq<ConnectionState>) -> nat
    decreases connections.len(),
{
    if connections.len() == 0 {
        0
    } else {
        streaming(connections.drop_last()) + if connections.last() is Streaming {
            1nat
        } else {
            0nat
        }
    }
}

/// The viewer count is the number of streaming connections.
pub open spec fn consistent(system: System) -> bool {
    system.session.viewer_count == streaming(system.connections)
}

/// The content of the last publication among `steps`, if there is one.
pub open spec fn last_publication(steps: Seq<Step>) -> Option<Seq<char>>
    decreases steps.len(),
{
    if steps.len() == 0 {
        None
    } else {
        match steps.last() {
            Step::Publish(content) => Some(content),
            _ => last_publication(steps.drop_last()),
        }
    }
}

/// The state of a connection that started in `state` and took `events`.
pub open spec fn state_after(state: ConnectionState, events: Seq<EventView>) -> ConnectionState
    decreases events.len(),
{
    if events.len() == 0 {
        state
    } else {
        next_state(state_after(state, events.drop_last()), events.last())
    }
}

/// The content that a connection in `state` forwards to its viewer on
/// `event`, if it forwards any.
pub open spec fn forwards(state: ConnectionState, event: EventView) -> Option<Seq<char>> {
    if state is Streaming && event is Published {
        Some(event->Published_0)
    } else {
        None
    }
}

/// The contents that a connection forwards to its viewer, in order, when it
/// starts in `state` and takes `events`.
pub open spec fn forwarded(state: ConnectionState, events: Seq<EventView>) -> Seq<Seq<char>>
    decreases events.len(),
{
    if events.len() == 0 {
        Seq::empty()
    } else {
        let earlier = forwarded(state, events.drop_last());
        match forwards(state_after(state, events.drop_last()), events.last()) {
            Some(content) => earlier.push(content),
            None => earlier,
        }
    }
}

/// The contents that the hub delivered among `events`, in order.
pub open spec fn deliveries(events: Seq<EventView>) -> Seq<Seq<char>>
    decreases events.len(),
{
    if events.len() == 0 {
        Seq::empty()
    } else {
        let earlier = deliveries(events.drop_last());
        match events.last() {
            EventView::Published(content) => earlier.push(content),
            _ => earlier,
        }
    }
}

/// By how much a connection that started in `state` changed the viewer
/// count while it took `events`.
pub open spec fn net_change(state: ConnectionState, events: Seq<EventView>) -> int
    decreases events.len(),
{
    if events.len() == 0 {
        0
    } else {
        net_change(state, events.drop_last()) + viewer_change(
            state_after(state, events.drop_last()),
            events.last(),
        )
    }
}

/// None of `events` ends a streaming connection.
pub open spec fn keeps_streaming(events: Seq<EventView>) -> bool {
    forall|i: int| 0 <= i < events.len() ==> !ends_stream(#[trigger] events[i])
}

proof fn lemma_streaming_push(connections: Seq<ConnectionState>, state: ConnectionState)
    ensures
        streaming(connections.push(state)) == streaming(connections) + if state is Streaming {
            1nat
        } else {
            0nat
        },
{
    assert(connections.push(state).drop_last() =~= connections);
}

proof fn lemma_streaming_update(
    connections: Seq<ConnectionState>,
    number: int,
    state: ConnectionState,
)
    requires
        0 <= number < connections.len(),
    ensures
        streaming(connections.update(number, state)) + (if connections[number] is Streaming {
            1nat
        } else {
            0nat
        }) == streaming(connections) + (if state is Streaming {
            1nat
        } else {
            0nat
        }),
    decreases connections.len(),
{
    let updated = connections.update(number, state);
    if number == connections.len() - 1 {
        assert(updated.drop_last() =~= connections.drop_last());
    } else {
        lemma_streaming_update(connections.drop_last(), number, state);
        assert(updated.drop_last() =~= connections.drop_last().update(number, state));
    }
}

proof fn lemma_streaming_counts_member(connections: Seq<ConnectionState>, number: int)
    requires
        0 <= number < connections.len(),
        connections[number] is Streaming,
    ensures
        streaming(connections) >= 1,
    decreases connections.len(),
{
    if number < connections.len() - 1 {
        lemma_streaming_counts_member(connections.drop_last(), number);
    }
}

/// One step keeps the viewer count equal to the number of streaming
/// connections.
pub proof fn lemma_step_keeps_consistent(system: System, step: Step)
    requires
        consistent(system),
    ensures
        consistent(after(system, step)),
{
    match step {
        Step::Accept(requested) => {
            lemma_streaming_push(system.connections, ConnectionState::Attaching);
        },
        Step::Deliver(number, event) => {
            if 0 <= number < system.connections.len() {
                let state = system.connections[number];
                lemma_streaming_update(system.connections, number, next_state(state, event));
                if state is Streaming {
                    lemma_streaming_counts_member(system.connections, number);
                }
            }
        },
        _ => {},
    }
}

/// After any sequence of publications, failed reads, page fetches, requests
/// under right and wrong identifiers, and events on any connection, the
/// viewer count of a session that started with nobody connected is the
/// number of its connections that are streaming. It is a count, so it is
/// never negative.
pub proof fn lemma_viewer_count_is_streaming(session: SessionView, steps: Seq<Step>)
    ensures
        consistent(run(fresh(session), steps)),
        run(fresh(session), steps).session.viewer_count >= 0,
    decreases steps.len(),
{
    if steps.len() == 0 {
    } else {
        lemma_viewer_count_is_streaming(session, steps.drop_last());
        lemma_step_keeps_consistent(run(fresh(session), steps.drop_last()), steps.last());
    }
}

/// Where the viewer count is the number of streaming connections and has
/// not reached the largest number a count can hold, it has room for any
/// event on any connection: an event that takes a viewer off finds at least
/// one counted. So a session whose connections are all driven through
/// [`crate::session::Session::advance`] can always take the next event.
pub proof fn lemma_count_has_room(system: System, number: int, event: EventView)
    requires
        consistent(system),
        0 <= number < system.connections.len(),
        system.session.viewer_count < usize::MAX,
    ensures
        has_room(system.session, system.connections[number], event),
{
    if system.connections[number] is Streaming {
        lemma_streaming_counts_member(system.connections, number);
    }
}

/// A request under an identifier that is not the session's changes nothing,
/// be it a page fetch or a request for a live connection: no connection
/// appears, and the viewer count and everything else about the session stay
/// as they were. A page fetch changes nothing under any identifier.
pub proof fn lemma_mismatch_leaves_no_trace(system: System, requested: Seq<char>)
    ensures
        after(system, Step::Fetch(requested)) == system,
        requested != system.session.identifier ==> after(system, Step::Accept(requested))
            == system,
{
}

/// What happens to one connection is nobody else's business: an event on
/// one connection leaves every other connection in its state, whether the
/// event is a lag, a failed send or the viewer going away, and it leaves the
/// content, the version and the identity of the session alone.
pub proof fn lemma_others_are_unaffected(system: System, number: int, event: EventView, other: int)
    requires
        0 <= other < system.connections.len(),
        other != number,
    ensures
        after(system, Step::Deliver(number, event)).connections.len()
            == system.connections.len(),
        after(system, Step::Deliver(number, event)).connections[other]
            == system.connections[other],
        after(system, Step::Deliver(number, event)).session == (SessionView {
            viewer_count: after(system, Step::Deliver(number, event)).session.viewer_count,
            ..system.session
        }),
{
}

/// No sequence of steps changes the identifier or the watched path, and the
/// version never goes down.
pub proof fn lemma_identity_is_fixed(system: System, steps: Seq<Step>)
    ensures
        run(system, steps).session.identifier == system.session.identifier,
        run(system, steps).session.watched_path == system.session.watched_path,
        run(system, steps).session.version >= system.session.version,
    decreases steps.len(),
{
    if steps.len() > 0 {
        lemma_identity_is_fixed(system, steps.drop_last());
    }
}

/// The content of a session is that of its last publication, however many
/// there were and whatever else happened in between; with no publication
/// it is the content the session started with. A viewer that attaches now
/// is handed exactly this content.
pub proof fn lemma_snapshot_is_last_publication(system: System, steps: Seq<Step>)
    ensures
        run(system, steps).session.content == match last_publication(steps) {
            Some(content) => content,
            None => system.session.content,
        },
    decreases steps.len(),
{
    if steps.len() > 0 {
        lemma_snapshot_is_last_publication(system, steps.drop_last());
    }
}

/// A viewer that is accepted after any sequence of steps is greeted with the
/// content of the last publication among them, or with the content the
/// session started with where nothing was published: never with an older
/// one.
pub proof fn lemma_greeting_carries_last_publication(
    system: System,
    steps: Seq<Step>,
    timestamp: Seq<char>,
)
    ensures
        greeting_text(run(system, steps).session, timestamp) == wire_text(
            MessageKind::FileContent,
            match last_publication(steps) {
                Some(content) => content,
                None => system.session.content,
            },
            timestamp,
        ),
{
    lemma_snapshot_is_last_publication(system, steps);
}

/// What a connection tells its owner to send is the update message for the
/// content it forwards, and nothing where it forwards none.
pub proof fn lemma_reaction_forwards(state: ConnectionState, event: EventView, timestamp: Seq<char>)
    ensures
        match forwards(state, event) {
            Some(content) => reaction(state, event, timestamp) == ActionView::Forward(
                wire_text(MessageKind::FileUpdate, content, timestamp),
            ),
            None => !(reaction(state, event, timestamp) is Forward),
        },
{
}

/// A streaming connection that takes no event that ends it is still
/// streaming.
pub proof fn lemma_stream_goes_on(events: Seq<EventView>)
    requires
        keeps_streaming(events),
    ensures
        state_after(ConnectionState::Streaming, events) is Streaming,
    decreases events.len(),
{
    if events.len() > 0 {
        assert(keeps_streaming(events.drop_last())) by {
            assert forall|i: int| 0 <= i < events.drop_last().len() implies !ends_stream(
                #[trigger] events.drop_last()[i],
            ) by {
                assert(events.drop_last()[i] == events[i]);
            }
        }
        lemma_stream_goes_on(events.drop_last());
        assert(!ends_stream(events[events.len() - 1]));
    }
}

/// A streaming connection forwards to its viewer exactly what the hub
/// delivers to it, each content once and in the order of delivery, for as
/// long as nothing ends the stream. Lag reports and stray viewer traffic in
/// between add nothing and take nothing away.
///
/// So a viewer is never shown an older content after a newer one unless the
/// hub delivered them in that order.
pub proof fn lemma_updates_follow_deliveries(events: Seq<EventView>)
    requires
        keeps_streaming(events),
    ensures
        forwarded(ConnectionState::Streaming, events) == deliveries(events),
    decreases events.len(),
{
    if events.len() > 0 {
        assert(keeps_streaming(events.drop_last())) by {
            assert forall|i: int| 0 <= i < events.drop_last().len() implies !ends_stream(
                #[trigger] events.drop_last()[i],
            ) by {
                assert(events.drop_last()[i] == events[i]);
            }
        }
        lemma_updates_follow_deliveries(events.drop_last());
        lemma_stream_goes_on(events.drop_last());
    }
}

/// Whatever the file went through, a viewer ends up with its final content.
///
/// The session took `steps`, at least one of them a publication. A
/// connection that is streaming was handed `events` by the hub and by its
/// viewer, none of which ended the stream. The hub may have dropped any
/// publications but the last and reported the lag; all that is asked of it
/// is that the last content it delivered is the last one published. Then
/// the last content forwarded to the viewer is the content of the session.
pub proof fn lemma_viewer_reaches_final_content(
    system: System,
    steps: Seq<Step>,
    events: Seq<EventView>,
)
    requires
        keeps_streaming(events),
        last_publication(steps) is Some,
        deliveries(events).len() > 0,
        deliveries(events).last() == last_publication(steps)->0,
    ensures
        state_after(ConnectionState::Streaming, events) is Streaming,
        forwarded(ConnectionState::Streaming, events).len() > 0,
        forwarded(ConnectionState::Streaming, events).last() == run(
            system,
            steps,
        ).session.content,
{
    lemma_stream_goes_on(events);
    lemma_updates_follow_deliveries(events);
    lemma_snapshot_is_last_publication(system, steps);
}

/// A lag report does not end a stream. The connection stays streaming, its
/// owner is told to wait, the viewer count does not move, and the next
/// content the hub delivers is forwarded as an update like any other.
pub proof fn lemma_lag_then_resume(skipped: nat, content: Seq<char>, timestamp: Seq<char>)
    ensures
        next_state(ConnectionState::Streaming, EventView::Lagged(skipped))
            == ConnectionState::Streaming,
        reaction(ConnectionState::Streaming, EventView::Lagged(skipped), timestamp)
            == ActionView::Wait,
        viewer_change(ConnectionState::Streaming, EventView::Lagged(skipped)) == 0,
        reaction(
            next_state(ConnectionState::Streaming, EventView::Lagged(skipped)),
            EventView::Published(content),
            timestamp,
        ) == ActionView::Forward(wire_text(MessageKind::FileUpdate, content, timestamp)),
{
}

/// What one connection does to the viewer count over its whole life adds
/// up to one while it is streaming and to nothing before and after: it is
/// counted once when it starts streaming, taken off once when it stops, and
/// never counted if the snapshot did not reach its viewer.
pub proof fn lemma_changes_are_paired(events: Seq<EventView>)
    ensures
        net_change(ConnectionState::Attaching, events) == if state_after(
            ConnectionState::Attaching,
            events,
        ) is Streaming {
            1int
        } else {
            0int
        },
    decreases events.len(),
{
    if events.len() > 0 {
        lemma_changes_are_paired(events.drop_last());
    }
}

/// A closed connection stays closed, tells its owner to stop at every
/// event, and never touches the viewer count again.
pub proof fn lemma_closed_is_final(event: EventView, timestamp: Seq<char>)
    ensures
        next_state(ConnectionState::Closed, event) == ConnectionState::Closed,
        reaction(ConnectionState::Closed, event, timestamp) == ActionView::Stop,
        viewer_change(ConnectionState::Closed, event) == 0,
{
}

} // verus!
