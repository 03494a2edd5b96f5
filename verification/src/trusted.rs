//! Everything this crate takes on trust from the crates it is built on.
//!
//! Nothing below is proved. Each item names the outside function it stands
//! for and says what is claimed of it; the rest of the crate is verified
//! against these claims and nothing else.

use notify::event::{AccessKind, CreateKind, ModifyKind, RemoveKind};
use notify::EventKind;
use tokio::sync::broadcast::error::{RecvError, SendError};
use tokio::sync::broadcast::{Receiver, Sender};
use vstd::prelude::*;

verus! {

/// `tokio::sync::broadcast::Sender`, the publishing half of the hub. Opaque.
#[verifier::external_type_specification]
#[verifier::external_body]
#[verifier::reject_recursive_types(T)]
pub struct ExSender<T>(Sender<T>);

/// `tokio::sync::broadcast::Receiver`, one subscription to the hub. Opaque.
#[verifier::external_type_specification]
#[verifier::external_body]
#[verifier::reject_recursive_types(T)]
pub struct ExReceiver<T>(Receiver<T>);

/// `tokio::sync::broadcast::error::SendError`, which hands back a value that
/// had no subscriber to go to. Opaque.
#[verifier::external_type_specification]
#[verifier::external_body]
#[verifier::reject_recursive_types(T)]
pub struct ExSendError<T>(SendError<T>);

/// `tokio::sync::broadcast::error::RecvError`, why a subscription handed
/// out no value: the hub is closed, or this many values were dropped.
/// Declared with its variants, so that verified code can tell them apart.
#[verifier::external_type_specification]
pub struct ExRecvError(RecvError);

/// `notify::EventKind`, what a file system notification reports. Declared
/// with its variants, so that contracts can tell a modification from the
/// rest; what each variant carries stays opaque.
#[verifier::external_type_specification]
pub struct ExEventKind(EventKind);

/// `notify::event::AccessKind`, the detail of an access. Opaque.
#[verifier::external_type_specification]
#[verifier::external_body]
pub struct ExAccessKind(AccessKind);

/// `notify::event::CreateKind`, the detail of a creation. Opaque.
#[verifier::external_type_specification]
#[verifier::external_body]
pub struct ExCreateKind(CreateKind);

/// `notify::event::ModifyKind`, the detail of a modification. Opaque.
#[verifier::external_type_specification]
#[verifier::external_body]
pub struct ExModifyKind(ModifyKind);

/// `notify::event::RemoveKind`, the detail of a removal. Opaque.
#[verifier::external_type_specification]
#[verifier::external_body]
pub struct ExRemoveKind(RemoveKind);

/// `Sender::new` builds a hub with no subscriber. It panics on a capacity of
/// zero or above `usize::MAX / 2`, which the precondition rules out. Nothing
/// is claimed of the hub it returns.
pub assume_specification<T>[ Sender::<T>::new ](capacity: usize) -> (hub: Sender<T>)
    requires
        0 < capacity <= usize::MAX / 2,
;

/// `Sender::send` never waits. It fails exactly when the hub has no
/// subscriber at that moment, and otherwise returns how many it has, so a
/// count that comes back is at least one. How many subscribers there are is
/// not a function of the handle, so nothing more is claimed.
pub assume_specification<T>[ Sender::<T>::send ](hub: &Sender<T>, value: T) -> (reached: Result<
    usize,
    SendError<T>,
>)
    ensures
        reached matches Ok(count) ==> count >= 1,
;

/// `Sender::subscribe` returns a subscription that sees what is sent after
/// the call. It panics only with `usize::MAX / 4` subscriptions alive at
/// once, more than an address space can hold, so no precondition is stated.
/// Nothing is claimed of the subscription.
pub assume_specification<T>[ Sender::<T>::subscribe ](hub: &Sender<T>) -> (feed: Receiver<T>)
;

/// `EventKind::is_modify` tells whether the notification is of the `Modify`
/// variant, whatever the detail it carries.
pub assume_specification[ EventKind::is_modify ](kind: &EventKind) -> (modified: bool)
    ensures
        modified == (kind is Modify),
;

/// The text `serde_json` prints, in its compact form, for the JSON object
/// built by inserting the given members in order, each value a JSON string.
pub uninterp spec fn json_object_text(members: Seq<(Seq<char>, Seq<char>)>) -> Seq<char>;

/// Whether `serde_json::from_str` accepts `text` as a JSON value.
pub uninterp spec fn json_parses(text: Seq<char>) -> bool;

/// For a `text` that parses: the string found under `key` where the parsed
/// value is an object whose member `key` is a JSON string, and `None` in
/// every other case.
pub uninterp spec fn json_string_at(text: Seq<char>, key: Seq<char>) -> Option<Seq<char>>;

/// Whether `c` is one of `0`-`9` or `a`-`f`.
pub open spec fn is_lower_hex(c: char) -> bool {
    ('0' <= c && c <= '9') || ('a' <= c && c <= 'f')
}

/// What a `uuid::Uuid` looks like once printed: 36 characters, hyphens at
/// 8, 13, 18 and 23, and lower-case hexadecimal digits everywhere else.
pub open spec fn is_hyphenated_uuid(text: Seq<char>) -> bool {
    &&& text.len() == 36
    &&& forall|i: int|
        0 <= i < 36 ==> if i == 8 || i == 13 || i == 18 || i == 23 {
            #[trigger] text[i] == '-'
        } else {
            is_lower_hex(text[i])
        }
}

/// Collects the members into a `serde_json::Map`, wraps it as
/// `Value::Object` and prints it with `to_string`. The result is a function
/// of the members alone and is known here only by its name.
#[verifier::external_body]
pub(crate) fn print_json_object(members: &Vec<(String, String)>) -> (text: String)
    ensures
        text@ == json_object_text(members.deep_view()),
{
    let object: serde_json::Map<String, serde_json::Value> = members
        .iter()
        .map(|(key, value)| (key.clone(), serde_json::Value::String(value.clone())))
        .collect();
    serde_json::Value::Object(object).to_string()
}

/// Parses `text` with `serde_json::from_str` and, where that succeeds, looks
/// up two keys with `Value`'s index operator and `Value::as_str`. Both are
/// functions of the text and the key alone and are known here only by their
/// names.
#[verifier::external_body]
pub(crate) fn read_json_strings(text: &str, first: &str, second: &str) -> (found: Option<
    (Option<String>, Option<String>),
>)
    ensures
        found is Some <==> json_parses(text@),
        found matches Some(pair) ==> {
            &&& pair.0.deep_view() == json_string_at(text@, first@)
            &&& pair.1.deep_view() == json_string_at(text@, second@)
        },
{
    let value: serde_json::Value = serde_json::from_str(text).ok()?;
    Some((value[first].as_str().map(String::from), value[second].as_str().map(String::from)))
}

/// Draws a random identifier with `uuid::Uuid::new_v4` and prints it with
/// `to_string`. Which identifier comes back is left open; its shape is the
/// hyphenated lower-case form that the crate's formatter writes. The call
/// takes no input; it panics only where the operating system has no
/// randomness to give.
#[verifier::external_body]
pub(crate) fn random_uuid_text() -> (text: String)
    ensures
        is_hyphenated_uuid(text@),
{
    uuid::Uuid::new_v4().to_string()
}

/// Reads the clock with `chrono::Utc::now` and prints it with
/// `DateTime::to_rfc3339`. Nothing is claimed of the text. The call takes no
/// input; it panics only where the system clock stands before 1970.
#[verifier::external_body]
pub(crate) fn utc_now_rfc3339() -> String {
    chrono::Utc::now().to_rfc3339()
}

} // verus!
