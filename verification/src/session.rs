//! The session: the one shared file of a host, its current content, the hub
//! that fans publications out, and the count of viewers that are streaming.
//!
//! A host has exactly one session. Requests name it by its identifier, and a
//! request that names anything else is answered with [`NotFound`] and leaves
//! no trace.

use crate::connection::{
    next_state, reaction, viewer_change, Connection, ConnectionAction, ConnectionEvent,
    ConnectionState, EventView,
};
use crate::identifier::{is_issued_identifier, issue_identifier};
use crate::message::{encode, wire_text, MessageKind};
use crate::page::{bootstrap_page, page_text};
use crate::text::same_text;
use crate::trusted::utc_now_rfc3339;
use tokio::sync::broadcast::Sender;
use vstd::prelude::*;
use vstd::string::*;

verus! {

/// The capacity the hub is made with. A subscriber that falls behind has at
/// least this many publications kept for it before the oldest are dropped;
/// the channel underneath rounds the number up to a power of two.
pub const HUB_CAPACITY: usize = 100;

/// The answer to a request that names no live session.
#[derive(Clone, Copy, Debug, PartialEq, Eq, Structural)]
pub struct NotFound;

/// What a reread of the watched file led to.
#[derive(Clone, Copy, Debug, PartialEq, Eq, Structural)]
pub enum Refresh {
    /// The file was read and its content published.
    Published,
    /// The file could not be read; the session is as it was.
    Unreadable,
}

/// What contracts see of a [`Session`].
pub struct SessionView {
    pub identifier: Seq<char>,
    pub watched_path: Seq<char>,
    pub content: Seq<char>,
    /// How many publications there have been, as far as the counter reaches.
    pub version: nat,
    /// How many connections are streaming.
    pub viewer_count: nat,
}

/// The version after one more publication. The counter stops at its
/// largest value rather than wrap, so it never decreases.
pub open spec fn next_version(version: nat) -> nat {
    if version < u64::MAX {
        version + 1
    } else {
        version
    }
}

/// The session after `content` was published: new content, next version,
/// everything else untouched.
pub open spec fn published(session: SessionView, content: Seq<char>) -> SessionView {
    SessionView { content, version: next_version(session.version), ..session }
}

/// The session after a connection in `state` took `event`: only the viewer
/// count can differ.
pub open spec fn advanced(session: SessionView, state: ConnectionState, event: EventView) -> SessionView {
    SessionView {
        viewer_count: (session.viewer_count + viewer_change(state, event)) as nat,
        ..session
    }
}

/// The message that greets a viewer of `session`: the whole current content,
/// as a `file_content` message.
pub open spec fn greeting_text(session: SessionView, timestamp: Seq<char>) -> Seq<char> {
    wire_text(MessageKind::FileContent, session.content, timestamp)
}

/// Whether the viewer count has room for what `event` does to it when a
/// connection in `state` takes it: it neither runs over nor falls below
/// zero.
pub open spec fn has_room(session: SessionView, state: ConnectionState, event: EventView) -> bool {
    &&& viewer_change(state, event) == 1 ==> session.viewer_count < usize::MAX
    &&& viewer_change(state, event) == -1 ==> session.viewer_count > 0
}

/// One running session.
pub struct Session {
    identifier: String,
    watched_path: String,
    content: String,
    version: u64,
    viewer_count: usize,
    hub: Sender<String>,
}

impl View for Session {
    type V = SessionView;

    closed spec fn view(&self) -> SessionView {
        SessionView {
            identifier: self.identifier@,
            watched_path: self.watched_path@,
            content: self.content@,
            version: self.version as nat,
            viewer_count: self.viewer_count as nat,
        }
    }
}

impl Session {
    /// A session under a given identifier, with no publication and no viewer
    /// yet.
    pub fn new(identifier: String, watched_path: String, content: String) -> (session: Session)
        ensures
            session@ == (SessionView {
                identifier: identifier@,
                watched_path: watched_path@,
                content: content@,
                version: 0,
                viewer_count: 0,
            }),
    {
        Session {
            identifier,
            watched_path,
            content,
            version: 0,
            viewer_count: 0,
            hub: Sender::new(HUB_CAPACITY),
        }
    }

    /// A session under a freshly issued identifier.
    pub fn start(watched_path: String, content: String) -> (session: Session)
        ensures
            is_issued_identifier(session@.identifier),
            session@ == (SessionView {
                identifier: session@.identifier,
                watched_path: watched_path@,
                content: content@,
                version: 0,
                viewer_count: 0,
            }),
    {
        Session::new(issue_identifier(), watched_path, content)
    }

    /// The identifier; it never changes.
    pub fn identifier(&self) -> (identifier: &str)
        ensures
            identifier@ == self@.identifier,
    {
        self.identifier.as_str()
    }

    /// The path of the shared file; it never changes.
    pub fn watched_path(&self) -> (path: &str)
        ensures
            path@ == self@.watched_path,
    {
        self.watched_path.as_str()
    }

    /// A copy of the current content.
    pub fn snapshot(&self) -> (content: String)
        ensures
            content@ == self@.content,
    {
        self.content.clone()
    }

    /// How many publications there have been.
    pub fn version(&self) -> (version: u64)
        ensures
            version == self@.version,
    {
        self.version
    }

    /// How many connections are streaming.
    pub fn viewer_count(&self) -> (count: usize)
        ensures
            count == self@.viewer_count,
    {
        self.viewer_count
    }

    /// Whether `requested` names this session. The match is exact.
    pub fn knows(&self, requested: &str) -> (known: bool)
        ensures
            known == (requested@ == self@.identifier),
    {
        same_text(requested, self.identifier.as_str())
    }

    /// Makes `content` the current content and hands it to the hub.
    ///
    /// This never waits and cannot fail: with no subscriber the hub takes
    /// nothing, and the content is stored all the same.
    pub fn publish(&mut self, content: String)
        ensures
            final(self)@ == published(old(self)@, content@),
    {
        self.content = content.clone();
        if self.version < u64::MAX {
            self.version = self.version + 1;
        }
        match self.hub.send(content) {
            Ok(_) => {},
            Err(_) => {},
        }
    }

    /// Takes the outcome of rereading the watched file after it changed:
    /// publishes what was read, or leaves the session alone where the read
    /// failed.
    pub fn refresh(&mut self, read: Option<String>) -> (outcome: Refresh)
        ensures
            match read {
                Some(content) => outcome == Refresh::Published && final(self)@ == published(
                    old(self)@,
                    content@,
                ),
                None => outcome == Refresh::Unreadable && final(self)@ == old(self)@,
            },
    {
        match read {
            Some(content) => {
                self.publish(content);
                Refresh::Published
            },
            None => Refresh::Unreadable,
        }
    }

    /// Answers a page fetch: the bootstrap page where `requested` names this
    /// session, [`NotFound`] where it does not.
    pub fn page(&self, requested: &str) -> (answer: Result<String, NotFound>)
        ensures
            match answer {
                Ok(page) => requested@ == self@.identifier && page@ == page_text(
                    self@.identifier,
                ),
                Err(_) => requested@ != self@.identifier,
            },
    {
        if self.knows(requested) {
            Ok(bootstrap_page(self.identifier.as_str()))
        } else {
            Err(NotFound)
        }
    }

    /// Answers a request for a live connection.
    ///
    /// Where `requested` names this session the viewer is subscribed to the
    /// hub and handed the snapshot in the same breath, so that nothing
    /// published from now on can pass it by: the answer is the connection,
    /// attaching, and the message that carries the snapshot. Where it does
    /// not, the answer is [`NotFound`] and no connection comes into being.
    /// Either way the session is as it was.
    pub fn accept(&self, requested: &str, timestamp: &str) -> (answer: Result<
        (Connection, String),
        NotFound,
    >)
        ensures
            match answer {
                Ok((conn, greeting)) => {
                    &&& requested@ == self@.identifier
                    &&& conn@ is Attaching
                    &&& greeting@ == greeting_text(self@, timestamp@)
                },
                Err(_) => requested@ != self@.identifier,
            },
    {
        if self.knows(requested) {
            let conn = Connection::attaching(self.hub.subscribe());
            let greeting = encode(MessageKind::FileContent, self.content.as_str(), timestamp);
            Ok((conn, greeting))
        } else {
            Err(NotFound)
        }
    }

    /// [`Session::accept`] with the snapshot stamped by the clock.
    pub fn accept_now(&self, requested: &str) -> (answer: Result<(Connection, String), NotFound>)
        ensures
            match answer {
                Ok((conn, greeting)) => {
                    &&& requested@ == self@.identifier
                    &&& conn@ is Attaching
                    &&& exists|timestamp: Seq<char>|
                        greeting@ == #[trigger] greeting_text(self@, timestamp)
                },
                Err(_) => requested@ != self@.identifier,
            },
    {
        let now = utc_now_rfc3339();
        self.accept(requested, now.as_str())
    }

    /// Whether the viewer count has room for `event` on `conn`, which is
    /// what [`Session::advance`] asks for.
    pub fn can_advance(&self, conn: &Connection, event: &ConnectionEvent) -> (ok: bool)
        ensures
            ok == has_room(self@, conn@, event@),
    {
        let change = conn.change_on(event);
        if change == 1 {
            self.viewer_count < usize::MAX
        } else if change == -1 {
            self.viewer_count > 0
        } else {
            true
        }
    }

    /// Feeds one event to a connection of this session.
    ///
    /// The connection moves as [`next_state`] says and the caller is told
    /// what [`reaction`] says. The viewer count goes up by one when the
    /// connection starts streaming and down by one when it stops, and does
    /// not move otherwise; nothing else about the session changes. The
    /// connection keeps its subscription until it closes, and lets go of it
    /// then.
    ///
    /// The count has to have room for the change. It always has where every
    /// connection of the session is driven through this function alone.
    pub fn advance(
        &mut self,
        conn: &mut Connection,
        event: ConnectionEvent,
        timestamp: &str,
    ) -> (action: ConnectionAction)
        requires
            has_room(old(self)@, old(conn)@, event@),
        ensures
            final(conn)@ == next_state(old(conn)@, event@),
            action@ == reaction(old(conn)@, event@, timestamp@),
            final(self)@ == advanced(old(self)@, old(conn)@, event@),
            final(conn).subscription() == if final(conn)@ is Closed {
                None
            } else {
                old(conn).subscription()
            },
    {
        let before = conn.state();
        let action = conn.step(event, timestamp);
        let after = conn.state();
        match (before, after) {
            (ConnectionState::Attaching, ConnectionState::Streaming) => {
                self.viewer_count = self.viewer_count + 1;
            },
            (ConnectionState::Streaming, ConnectionState::Closed) => {
                self.viewer_count = self.viewer_count - 1;
            },
            _ => {},
        }
        action
    }

    /// [`Session::advance`] with any update stamped by the clock.
    pub fn advance_now(&mut self, conn: &mut Connection, event: ConnectionEvent) -> (action:
        ConnectionAction)
        requires
            has_room(old(self)@, old(conn)@, event@),
        ensures
            final(conn)@ == next_state(old(conn)@, event@),
            exists|timestamp: Seq<char>|
                action@ == #[trigger] reaction(old(conn)@, event@, timestamp),
            final(self)@ == advanced(old(self)@, old(conn)@, event@),
            final(conn).subscription() == if final(conn)@ is Closed {
                None
            } else {
                old(conn).subscription()
            },
    {
        let now = utc_now_rfc3339();
        self.advance(conn, event, now.as_str())
    }
}

} // verus!
