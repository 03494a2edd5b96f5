//! The messages a host sends to its viewers.
//!
//! Every message is a JSON object with three string members: `type`,
//! `content` and `timestamp`. The content is always the whole text of the
//! shared file, never a difference to an earlier message.

use crate::trusted::{json_object_text, print_json_object, utc_now_rfc3339};
use vstd::prelude::*;
use vstd::string::*;

verus! {

/// The two messages of the protocol.
#[derive(Clone, Copy, Debug, PartialEq, Eq, Structural)]
pub enum MessageKind {
    /// The snapshot a viewer gets once, right after it attached.
    FileContent,
    /// A publication that reached the viewer while it was streaming.
    FileUpdate,
}

impl MessageKind {
    /// The value of the `type` member.
    pub open spec fn tag_text(self) -> Seq<char> {
        match self {
            MessageKind::FileContent => "file_content"@,
            MessageKind::FileUpdate => "file_update"@,
        }
    }

    /// The value of the `type` member.
    pub fn tag(self) -> (tag: &'static str)
        ensures
            tag@ == self.tag_text(),
    {
        match self {
            MessageKind::FileContent => "file_content",
            MessageKind::FileUpdate => "file_update",
        }
    }
}

/// The members of a message, in the order they are put into the object.
pub open spec fn wire_members(kind: MessageKind, content: Seq<char>, timestamp: Seq<char>) -> Seq<
    (Seq<char>, Seq<char>),
> {
    seq![("type"@, kind.tag_text()), ("content"@, content), ("timestamp"@, timestamp)]
}

/// The text of a message as it goes over the wire.
pub open spec fn wire_text(kind: MessageKind, content: Seq<char>, timestamp: Seq<char>) -> Seq<
    char,
> {
    json_object_text(wire_members(kind, content, timestamp))
}

/// Encodes one message with the given timestamp.
pub fn encode(kind: MessageKind, content: &str, timestamp: &str) -> (text: String)
    ensures
        text@ == wire_text(kind, content@, timestamp@),
{
    let mut members: Vec<(String, String)> = Vec::new();
    members.push(("type".to_owned(), kind.tag().to_owned()));
    members.push(("content".to_owned(), content.to_owned()));
    members.push(("timestamp".to_owned(), timestamp.to_owned()));
    assert(members.deep_view() =~= wire_members(kind, content@, timestamp@));
    print_json_object(&members)
}

/// Encodes one message and stamps it with the current time. The clock
/// decides the timestamp; kind and content are as given.
pub fn encode_now(kind: MessageKind, content: &str) -> (text: String)
    ensures
        exists|timestamp: Seq<char>| text@ == #[trigger] wire_text(kind, content@, timestamp),
{
    let now = utc_now_rfc3339();
    encode(kind, content, now.as_str())
}

} // verus!
