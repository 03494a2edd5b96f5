//! The viewer's side: what to make of what arrives on the live connection.
//!
//! A viewer shows the content of every message that carries one and goes on
//! over everything else. A message that cannot be read is reported and
//! skipped; it never ends the viewer. The transport closing ends it, and
//! that is no error.

use crate::trusted::{json_parses, json_string_at, read_json_strings};
use crate::text::same_text;
use vstd::prelude::*;
use vstd::string::*;

verus! {

/// What a viewer reads of a message: its `type` and `content` members,
/// each present only where the message has it as a string.
#[derive(Debug, PartialEq, Eq)]
pub struct Incoming {
    pub tag: Option<String>,
    pub content: Option<String>,
}

/// An [`Incoming`] as contracts see it.
pub struct IncomingView {
    pub tag: Option<Seq<char>>,
    pub content: Option<Seq<char>>,
}

impl View for Incoming {
    type V = IncomingView;

    open spec fn view(&self) -> IncomingView {
        IncomingView { tag: self.tag.deep_view(), content: self.content.deep_view() }
    }
}

/// Something that happened on the viewer's transport.
#[derive(Debug, PartialEq, Eq)]
pub enum ClientEvent {
    /// A text message arrived.
    Text(String),
    /// The host closed the connection.
    Close,
    /// Anything else arrived, or the transport reported an error.
    Other,
    /// The stream of messages ended.
    End,
}

/// A [`ClientEvent`] as contracts see it.
pub enum ClientEventView {
    Text(Seq<char>),
    Close,
    Other,
    End,
}

impl View for ClientEvent {
    type V = ClientEventView;

    open spec fn view(&self) -> ClientEventView {
        match self {
            ClientEvent::Text(text) => ClientEventView::Text(text@),
            ClientEvent::Close => ClientEventView::Close,
            ClientEvent::Other => ClientEventView::Other,
            ClientEvent::End => ClientEventView::End,
        }
    }
}

/// What the viewer does next.
#[derive(Debug, PartialEq, Eq)]
pub enum ClientAction {
    /// Clear what is shown and show this content instead.
    Render(String),
    /// Nothing; wait for the next message.
    Ignore,
    /// Report a message that could not be read, then wait for the next.
    ReportMalformed,
    /// Leave the loop; the connection is over.
    Stop,
}

/// A [`ClientAction`] as contracts see it.
pub enum ClientActionView {
    Render(Seq<char>),
    Ignore,
    ReportMalformed,
    Stop,
}

impl View for ClientAction {
    type V = ClientActionView;

    open spec fn view(&self) -> ClientActionView {
        match self {
            ClientAction::Render(content) => ClientActionView::Render(content@),
            ClientAction::Ignore => ClientActionView::Ignore,
            ClientAction::ReportMalformed => ClientActionView::ReportMalformed,
            ClientAction::Stop => ClientActionView::Stop,
        }
    }
}

/// What a viewer reads of `text`, or `None` where `text` is no JSON.
pub open spec fn incoming_of(text: Seq<char>) -> Option<IncomingView> {
    if json_parses(text) {
        Some(
            IncomingView {
                tag: json_string_at(text, "type"@),
                content: json_string_at(text, "content"@),
            },
        )
    } else {
        None
    }
}

/// Whether a message with this `type` carries content to show.
pub open spec fn carries_content(tag: Option<Seq<char>>) -> bool {
    tag == Some("file_content"@) || tag == Some("file_update"@)
}

/// What to do about a message, given what was read of it: show the content
/// of a message that carries one (nothing, where the member is missing),
/// pass over a message of another type, report one that could not be read.
pub open spec fn message_action(incoming: Option<IncomingView>) -> ClientActionView {
    match incoming {
        None => ClientActionView::ReportMalformed,
        Some(message) => if carries_content(message.tag) {
            ClientActionView::Render(
                match message.content {
                    Some(content) => content,
                    None => Seq::empty(),
                },
            )
        } else {
            ClientActionView::Ignore
        },
    }
}

/// What to do about an event on the transport.
pub open spec fn client_reaction(event: ClientEventView) -> ClientActionView {
    match event {
        ClientEventView::Text(text) => message_action(incoming_of(text)),
        ClientEventView::Close => ClientActionView::Stop,
        ClientEventView::End => ClientActionView::Stop,
        ClientEventView::Other => ClientActionView::Ignore,
    }
}

/// Only the transport can end the viewer: it stops when the host closes the
/// connection or the stream ends, and on nothing else. No text message,
/// readable or not, stops it.
pub proof fn lemma_only_the_transport_stops(event: ClientEventView)
    ensures
        client_reaction(event) is Stop <==> (event is Close || event is End),
{
}

/// The view of what [`read_message`] returns.
pub open spec fn incoming_view(incoming: Option<Incoming>) -> Option<IncomingView> {
    match incoming {
        Some(message) => Some(message@),
        None => None,
    }
}

/// Reads the `type` and `content` members of a message.
pub fn read_message(text: &str) -> (incoming: Option<Incoming>)
    ensures
        incoming_view(incoming) == incoming_of(text@),
{
    match read_json_strings(text, "type", "content") {
        Some((tag, content)) => Some(Incoming { tag, content }),
        None => None,
    }
}

/// Whether `tag` is the text `wanted`.
fn tag_is(tag: &Option<String>, wanted: &str) -> (is: bool)
    ensures
        is == (tag.deep_view() == Some(wanted@)),
{
    match tag {
        Some(text) => same_text(text.as_str(), wanted),
        None => false,
    }
}

/// Decides what to do about a message, given what was read of it.
pub fn act_on(incoming: Option<Incoming>) -> (action: ClientAction)
    ensures
        action@ == message_action(incoming_view(incoming)),
{
    match incoming {
        None => ClientAction::ReportMalformed,
        Some(message) => {
            if tag_is(&message.tag, "file_content") || tag_is(&message.tag, "file_update") {
                match message.content {
                    Some(content) => ClientAction::Render(content),
                    None => ClientAction::Render(String::new()),
                }
            } else {
                ClientAction::Ignore
            }
        },
    }
}

/// Decides what to do about an event on the transport.
pub fn client_step(event: ClientEvent) -> (action: ClientAction)
    ensures
        action@ == client_reaction(event@),
{
    match event {
        ClientEvent::Text(text) => act_on(read_message(text.as_str())),
        ClientEvent::Close => ClientAction::Stop,
        ClientEvent::End => ClientAction::Stop,
        ClientEvent::Other => ClientAction::Ignore,
    }
}

} // verus!
