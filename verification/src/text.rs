//! Small operations on text that the rest of the crate is built from.

use vstd::prelude::*;
use vstd::string::*;

verus! {

/// `text` with every occurrence of `from` replaced by `to`, scanning from
/// the left and never matching inside what an earlier match covered. An
/// empty `from` matches nowhere.
pub open spec fn replaced(text: Seq<char>, from: Seq<char>, to: Seq<char>) -> Seq<char>
    decreases text.len(),
{
    if from.len() == 0 || text.len() < from.len() {
        text
    } else if text.subrange(0, from.len() as int) == from {
        to + replaced(text.subrange(from.len() as int, text.len() as int), from, to)
    } else {
        seq![text[0]] + replaced(text.subrange(1, text.len() as int), from, to)
    }
}

/// Whether `from` stands in `text` at position `at`.
pub open spec fn occurs_at(text: Seq<char>, from: Seq<char>, at: int) -> bool {
    &&& 0 <= at
    &&& at + from.len() <= text.len()
    &&& text.subrange(at, at + from.len()) == from
}

/// A beginning in which no occurrence of the pattern starts is copied as it
/// is, and the replacing goes on behind it.
pub proof fn lemma_replaced_copies_head(
    head: Seq<char>,
    tail: Seq<char>,
    from: Seq<char>,
    to: Seq<char>,
)
    requires
        forall|at: int| 0 <= at < head.len() ==> !occurs_at(head + tail, from, at),
    ensures
        replaced(head + tail, from, to) == head + replaced(tail, from, to),
    decreases head.len(),
{
    let text = head + tail;
    if head.len() == 0 {
        assert(text =~= tail);
        assert(head + replaced(tail, from, to) =~= replaced(tail, from, to));
    } else if from.len() == 0 || text.len() < from.len() {
        assert(replaced(tail, from, to) == tail);
    } else {
        assert(!occurs_at(text, from, 0));
        let shorter = head.drop_first();
        assert(text.subrange(1, text.len() as int) =~= shorter + tail);
        assert forall|at: int| 0 <= at < shorter.len() implies !occurs_at(
            shorter + tail,
            from,
            at,
        ) by {
            assert(!occurs_at(text, from, at + 1));
            if at + from.len() <= (shorter + tail).len() {
                assert((shorter + tail).subrange(at, at + from.len()) =~= text.subrange(
                    at + 1,
                    at + 1 + from.len(),
                ));
            }
        }
        lemma_replaced_copies_head(shorter, tail, from, to);
        assert(seq![text[0]] + (shorter + replaced(tail, from, to)) =~= head + replaced(
            tail,
            from,
            to,
        ));
    }
}

/// A text in which the pattern occurs nowhere is left as it is.
pub proof fn lemma_replaced_without_match(text: Seq<char>, from: Seq<char>, to: Seq<char>)
    requires
        forall|at: int| !occurs_at(text, from, at),
    ensures
        replaced(text, from, to) == text,
{
    assert(text + Seq::<char>::empty() =~= text);
    lemma_replaced_copies_head(text, Seq::empty(), from, to);
    assert(replaced(Seq::<char>::empty(), from, to) == Seq::<char>::empty());
}

/// An occurrence of the pattern at the very beginning is replaced, and the
/// replacing goes on behind it.
pub proof fn lemma_replaced_at_start(tail: Seq<char>, from: Seq<char>, to: Seq<char>)
    requires
        from.len() > 0,
    ensures
        replaced(from + tail, from, to) == to + replaced(tail, from, to),
{
    let text = from + tail;
    assert(text.subrange(0, from.len() as int) =~= from);
    assert(text.subrange(from.len() as int, text.len() as int) =~= tail);
}

/// Compares two texts character by character; case matters.
pub fn same_text(a: &str, b: &str) -> (same: bool)
    ensures
        same == (a@ == b@),
{
    a.to_owned() == b.to_owned()
}

/// Builds `replaced(text, from, to)`.
pub fn replace_all(text: &str, from: &str, to: &str) -> (out: String)
    ensures
        out@ == replaced(text@, from@, to@),
{
    let total = text.unicode_len();
    let width = from.unicode_len();
    if width == 0 {
        return text.to_owned();
    }
    let mut out = String::new();
    let mut at: usize = 0;
    proof {
        assert(text@.subrange(0, total as int) =~= text@);
    }
    while at < total
        invariant
            at <= total,
            total == text@.len(),
            width == from@.len(),
            width > 0,
            out@ + replaced(text@.subrange(at as int, total as int), from@, to@) == replaced(
                text@,
                from@,
                to@,
            ),
        decreases total - at,
    {
        let ghost rest = text@.subrange(at as int, total as int);
        if total - at < width {
            out.append(text.substring_char(at, total));
            proof {
                assert(replaced(rest, from@, to@) == rest);
                assert(text@.subrange(total as int, total as int) =~= Seq::<char>::empty());
            }
            at = total;
        } else if same_text(text.substring_char(at, at + width), from) {
            proof {
                assert(rest.subrange(0, width as int) =~= text@.subrange(
                    at as int,
                    at + width as int,
                ));
                assert(rest.subrange(width as int, rest.len() as int) =~= text@.subrange(
                    at + width as int,
                    total as int,
                ));
            }
            out.append(to);
            at = at + width;
        } else {
            proof {
                assert(rest.subrange(0, width as int) =~= text@.subrange(
                    at as int,
                    at + width as int,
                ));
                assert(rest.subrange(1, rest.len() as int) =~= text@.subrange(
                    at + 1 as int,
                    total as int,
                ));
                assert(text@.subrange(at as int, at + 1 as int) =~= seq![rest[0]]);
            }
            out.append(text.substring_char(at, at + 1));
            at = at + 1;
        }
    }
    proof {
        assert(text@.subrange(total as int, total as int) =~= Seq::<char>::empty());
    }
    out
}

} // verus!
