//! Session identifiers: short tokens that name a session in its address.

use crate::trusted::{is_hyphenated_uuid, is_lower_hex, random_uuid_text};
use vstd::prelude::*;
use vstd::string::*;

verus! {

/// How many characters an issued identifier has.
pub const IDENTIFIER_LENGTH: usize = 8;

/// The first [`IDENTIFIER_LENGTH`] characters of `token`, or all of it where
/// it has no more.
pub open spec fn short_form(token: Seq<char>) -> Seq<char> {
    if token.len() <= IDENTIFIER_LENGTH {
        token
    } else {
        token.subrange(0, IDENTIFIER_LENGTH as int)
    }
}

/// What every identifier issued by [`issue_identifier`] looks like: eight
/// lower-case hexadecimal digits.
pub open spec fn is_issued_identifier(identifier: Seq<char>) -> bool {
    &&& identifier.len() == IDENTIFIER_LENGTH
    &&& forall|i: int| 0 <= i < identifier.len() ==> is_lower_hex(#[trigger] identifier[i])
}

/// Cuts a longer token down to an identifier.
pub fn shorten(token: &str) -> (identifier: String)
    ensures
        identifier@ == short_form(token@),
{
    if token.unicode_len() <= IDENTIFIER_LENGTH {
        token.to_owned()
    } else {
        token.substring_char(0, IDENTIFIER_LENGTH).to_owned()
    }
}

/// A printed UUID cut down to an identifier has the issued form.
pub proof fn lemma_short_uuid_is_issued(uuid_text: Seq<char>)
    requires
        is_hyphenated_uuid(uuid_text),
    ensures
        is_issued_identifier(short_form(uuid_text)),
{
    let identifier = short_form(uuid_text);
    assert forall|i: int| 0 <= i < identifier.len() implies is_lower_hex(
        #[trigger] identifier[i],
    ) by {
        assert(identifier[i] == uuid_text[i]);
    }
}

/// Issues a fresh identifier: the head of a random UUID. Chance decides
/// which one; its form is always the issued one.
pub fn issue_identifier() -> (identifier: String)
    ensures
        is_issued_identifier(identifier@),
{
    let uuid_text = random_uuid_text();
    proof {
        lemma_short_uuid_is_issued(uuid_text@);
    }
    shorten(uuid_text.as_str())
}

} // verus!
