//! The life of one viewer connection.
//!
//! A connection starts out attaching, streams once its viewer has the
//! snapshot, and ends closed. What happens at each event is decided by
//! [`next_state`] and [`reaction`]; the task that owns the socket only
//! reports events and carries out the actions it is told.

use crate::message::{encode, wire_text, MessageKind};
use tokio::sync::broadcast::error::RecvError;
use tokio::sync::broadcast::Receiver;
use vstd::prelude::*;

verus! {

/// Where a connection stands.
#[derive(Clone, Copy, Debug, PartialEq, Eq, Structural)]
pub enum ConnectionState {
    /// Admitted; the snapshot is on its way to the viewer.
    Attaching,
    /// The viewer has the snapshot and is sent every publication.
    Streaming,
    /// Over. Nothing is sent or received any more.
    Closed,
}

/// Something that happened to a connection.
#[derive(Debug, PartialEq, Eq)]
pub enum ConnectionEvent {
    /// The snapshot reached the viewer.
    InitialDelivered,
    /// The snapshot could not be sent.
    InitialFailed,
    /// The hub delivered a publication; the text is the new content.
    Published(String),
    /// The hub dropped this many publications the connection had not read.
    Lagged(u64),
    /// The hub is gone: the session is ending.
    HubClosed,
    /// An update could not be sent to the viewer.
    ForwardFailed,
    /// The viewer asked to close.
    ViewerClosed,
    /// The viewer's transport reported an error.
    ViewerFailed,
    /// The viewer's stream ended.
    ViewerGone,
    /// The viewer sent anything else.
    ViewerOther,
}

/// A [`ConnectionEvent`] as contracts see it.
pub enum EventView {
    InitialDelivered,
    InitialFailed,
    Published(Seq<char>),
    Lagged(nat),
    HubClosed,
    ForwardFailed,
    ViewerClosed,
    ViewerFailed,
    ViewerGone,
    ViewerOther,
}

impl View for ConnectionEvent {
    type V = EventView;

    open spec fn view(&self) -> EventView {
        match self {
            ConnectionEvent::InitialDelivered => EventView::InitialDelivered,
            ConnectionEvent::InitialFailed => EventView::InitialFailed,
            ConnectionEvent::Published(content) => EventView::Published(content@),
            ConnectionEvent::Lagged(skipped) => EventView::Lagged(*skipped as nat),
            ConnectionEvent::HubClosed => EventView::HubClosed,
            ConnectionEvent::ForwardFailed => EventView::ForwardFailed,
            ConnectionEvent::ViewerClosed => EventView::ViewerClosed,
            ConnectionEvent::ViewerFailed => EventView::ViewerFailed,
            ConnectionEvent::ViewerGone => EventView::ViewerGone,
            ConnectionEvent::ViewerOther => EventView::ViewerOther,
        }
    }
}

/// What the owner of the socket has to do next.
#[derive(Debug, PartialEq, Eq)]
pub enum ConnectionAction {
    /// Send this text to the viewer, then go on waiting.
    Forward(String),
    /// Nothing to send; go on waiting.
    Wait,
    /// Stop: send and receive nothing more and end the task.
    Stop,
}

/// A [`ConnectionAction`] as contracts see it.
pub enum ActionView {
    Forward(Seq<char>),
    Wait,
    Stop,
}

impl View for ConnectionAction {
    type V = ActionView;

    open spec fn view(&self) -> ActionView {
        match self {
            ConnectionAction::Forward(text) => ActionView::Forward(text@),
            ConnectionAction::Wait => ActionView::Wait,
            ConnectionAction::Stop => ActionView::Stop,
        }
    }
}

/// The events that end a streaming connection.
pub open spec fn ends_stream(event: EventView) -> bool {
    event is HubClosed || event is ForwardFailed || event is ViewerClosed || event is ViewerFailed
        || event is ViewerGone
}

/// The state a connection is in after `event`.
///
/// While attaching only the fate of the snapshot counts. While streaming, a
/// publication, a lag report and stray viewer traffic leave the state alone.
/// A closed connection stays closed.
pub open spec fn next_state(state: ConnectionState, event: EventView) -> ConnectionState {
    match state {
        ConnectionState::Attaching => match event {
            EventView::InitialDelivered => ConnectionState::Streaming,
            EventView::InitialFailed => ConnectionState::Closed,
            _ => ConnectionState::Attaching,
        },
        ConnectionState::Streaming => if ends_stream(event) {
            ConnectionState::Closed
        } else {
            ConnectionState::Streaming
        },
        ConnectionState::Closed => ConnectionState::Closed,
    }
}

/// What `event` asks of the socket's owner when it arrives in `state`.
///
/// A streaming connection forwards each publication as an update message
/// stamped with `timestamp`. Whatever leaves the connection closed, or finds
/// it closed, stops the task. Everything else only waits.
pub open spec fn reaction(state: ConnectionState, event: EventView, timestamp: Seq<char>) -> ActionView {
    if next_state(state, event) is Closed {
        ActionView::Stop
    } else if state is Streaming && event is Published {
        ActionView::Forward(wire_text(MessageKind::FileUpdate, event->Published_0, timestamp))
    } else {
        ActionView::Wait
    }
}

/// By how much `event` changes the number of streaming connections.
pub open spec fn viewer_change(state: ConnectionState, event: EventView) -> int {
    let after = next_state(state, event);
    if !(state is Streaming) && after is Streaming {
        1
    } else if state is Streaming && !(after is Streaming) {
        -1
    } else {
        0
    }
}

/// The event that an outcome of waiting on the subscription stands for.
pub open spec fn hub_event_of(received: Result<String, RecvError>) -> EventView {
    match received {
        Ok(content) => EventView::Published(content@),
        Err(RecvError::Lagged(skipped)) => EventView::Lagged(skipped as nat),
        Err(RecvError::Closed) => EventView::HubClosed,
    }
}

/// Turns what waiting on the subscription came back with into an event.
pub fn hub_event(received: Result<String, RecvError>) -> (event: ConnectionEvent)
    ensures
        event@ == hub_event_of(received),
{
    match received {
        Ok(content) => ConnectionEvent::Published(content),
        Err(RecvError::Lagged(skipped)) => ConnectionEvent::Lagged(skipped),
        Err(RecvError::Closed) => ConnectionEvent::HubClosed,
    }
}

/// A subscription together with the state it belongs to. A closed link
/// has none, so closing is what lets the subscription go.
enum Link {
    Attaching(Receiver<String>),
    Streaming(Receiver<String>),
    Closed,
}

/// One viewer connection: its state and its subscription to the hub.
///
/// A connection holds its subscription from the moment it is accepted until
/// it closes, and not a moment longer.
pub struct Connection {
    link: Link,
}

impl View for Connection {
    type V = ConnectionState;

    closed spec fn view(&self) -> ConnectionState {
        match self.link {
            Link::Attaching(_) => ConnectionState::Attaching,
            Link::Streaming(_) => ConnectionState::Streaming,
            Link::Closed => ConnectionState::Closed,
        }
    }
}

impl Connection {
    /// A connection that was just accepted, holding the subscription taken for it.
    pub(crate) fn attaching(feed: Receiver<String>) -> (conn: Connection)
        ensures
            conn@ is Attaching,
            conn.subscription() == Some(feed),
    {
        Connection { link: Link::Attaching(feed) }
    }

    /// The subscription the connection holds, if it holds one.
    pub closed spec fn subscription(&self) -> Option<Receiver<String>> {
        match self.link {
            Link::Attaching(feed) => Some(feed),
            Link::Streaming(feed) => Some(feed),
            Link::Closed => None,
        }
    }

    /// A connection holds a subscription exactly as long as it is not
    /// closed.
    pub proof fn lemma_subscribed_until_closed(&self)
        ensures
            self.subscription() is Some <==> !(self@ is Closed),
    {
    }

    /// Where the connection stands.
    pub fn state(&self) -> (state: ConnectionState)
        ensures
            state == self@,
    {
        match &self.link {
            Link::Attaching(_) => ConnectionState::Attaching,
            Link::Streaming(_) => ConnectionState::Streaming,
            Link::Closed => ConnectionState::Closed,
        }
    }

    /// By how much `event` would change the number of streaming connections
    /// if this connection took it now.
    pub fn change_on(&self, event: &ConnectionEvent) -> (change: i8)
        ensures
            change == viewer_change(self@, event@),
    {
        match self.state() {
            ConnectionState::Attaching => match event {
                ConnectionEvent::InitialDelivered => 1,
                _ => 0,
            },
            ConnectionState::Streaming => match event {
                ConnectionEvent::HubClosed
                | ConnectionEvent::ForwardFailed
                | ConnectionEvent::ViewerClosed
                | ConnectionEvent::ViewerFailed
                | ConnectionEvent::ViewerGone => -1,
                _ => 0,
            },
            ConnectionState::Closed => 0,
        }
    }

    /// The subscription to wait on: the one the connection holds. There is
    /// one exactly as long as the connection is not closed, and what the
    /// caller does to it is what happens to the one the connection holds.
    pub fn feed(&mut self) -> (feed: Option<&mut Receiver<String>>)
        ensures
            final(self)@ == old(self)@,
            feed is Some <==> !(old(self)@ is Closed),
            match feed {
                Some(held) => {
                    &&& old(self).subscription() == Some(*held)
                    &&& final(self).subscription() == Some(*final(held))
                },
                None => final(self).subscription() is None,
            },
    {
        match &mut self.link {
            Link::Attaching(feed) => Some(feed),
            Link::Streaming(feed) => Some(feed),
            Link::Closed => None,
        }
    }

    /// Takes one event: moves to the next state, gives up the subscription
    /// on closing, and says what to do.
    pub(crate) fn step(&mut self, event: ConnectionEvent, timestamp: &str) -> (action:
        ConnectionAction)
        ensures
            final(self)@ == next_state(old(self)@, event@),
            action@ == reaction(old(self)@, event@, timestamp@),
            final(self).subscription() == if final(self)@ is Closed {
                None
            } else {
                old(self).subscription()
            },
    {
        match self.state() {
            ConnectionState::Attaching => match event {
                ConnectionEvent::InitialDelivered => {
                    self.start_streaming();
                    ConnectionAction::Wait
                },
                ConnectionEvent::InitialFailed => {
                    self.link = Link::Closed;
                    ConnectionAction::Stop
                },
                _ => ConnectionAction::Wait,
            },
            ConnectionState::Streaming => match event {
                ConnectionEvent::Published(content) => ConnectionAction::Forward(
                    encode(MessageKind::FileUpdate, content.as_str(), timestamp),
                ),
                ConnectionEvent::Lagged(_) | ConnectionEvent::ViewerOther => ConnectionAction::Wait,
                ConnectionEvent::InitialDelivered | ConnectionEvent::InitialFailed => {
                    ConnectionAction::Wait
                },
                ConnectionEvent::HubClosed
                | ConnectionEvent::ForwardFailed
                | ConnectionEvent::ViewerClosed
                | ConnectionEvent::ViewerFailed
                | ConnectionEvent::ViewerGone => {
                    self.link = Link::Closed;
                    ConnectionAction::Stop
                },
            },
            ConnectionState::Closed => ConnectionAction::Stop,
        }
    }

    /// Carries the subscription of an attaching connection over into
    /// streaming. Any other connection is left as it is.
    fn start_streaming(&mut self)
        ensures
            final(self)@ == if old(self)@ is Attaching {
                ConnectionState::Streaming
            } else {
                old(self)@
            },
            final(self).subscription() == old(self).subscription(),
    {
        let mut link = Link::Closed;
        std::mem::swap(&mut self.link, &mut link);
        self.link = match link {
            Link::Attaching(feed) => Link::Streaming(feed),
            other => other,
        };
    }
}

} // verus!
