//! Small operations on text, with what they compute stated over sequences of
//! characters.

use vstd::prelude::*;
use vstd::string::*;

verus! {

/// Whether `prefix` is what `text` begins with.
pub open spec fn begins_with(text: Seq<char>, prefix: Seq<char>) -> bool {
    prefix.len() <= text.len() && text.subrange(0, prefix.len() as int) == prefix
}

/// Whether `needle` occurs in `hay` as a run of neighbouring characters.
pub open spec fn occurs_in(needle: Seq<char>, hay: Seq<char>) -> bool {
    exists|start: int|
        0 <= start && start + needle.len() <= hay.len() && #[trigger] hay.subrange(
            start,
            start + needle.len(),
        ) == needle
}

/// The views of a sequence of strings, in order.
pub open spec fn views(strings: Seq<String>) -> Seq<Seq<char>> {
    strings.map_values(|s: String| s@)
}

/// The pieces one after another, with `separator` between each two neighbours.
pub open spec fn joined(pieces: Seq<Seq<char>>, separator: Seq<char>) -> Seq<char>
    decreases pieces.len(),
{
    if pieces.len() == 0 {
        Seq::empty()
    } else if pieces.len() == 1 {
        pieces[0]
    } else {
        joined(pieces.drop_last(), separator) + separator + pieces.last()
    }
}

/// Tells whether two string slices hold the same text.
pub fn same_text(a: &str, b: &str) -> (same: bool)
    ensures
        same == (a@ == b@),
{
    a.to_owned() == b.to_owned()
}

/// Tells whether `text` begins with `prefix`.
pub fn starts_with(text: &str, prefix: &str) -> (found: bool)
    ensures
        found == begins_with(text@, prefix@),
{
    let text_len: usize = text.unicode_len();
    let prefix_len: usize = prefix.unicode_len();
    if prefix_len > text_len {
        return false;
    }
    let mut i: usize = 0;
    while i < prefix_len
        invariant
            i <= prefix_len <= text_len,
            prefix_len == prefix@.len(),
            text_len == text@.len(),
            forall|k: int| 0 <= k < i ==> text@[k] == prefix@[k],
        decreases prefix_len - i,
    {
        if text.get_char(i) != prefix.get_char(i) {
            assert(text@.subrange(0, prefix@.len() as int)[i as int] != prefix@[i as int]);
            return false;
        }
        i += 1;
    }
    assert(text@.subrange(0, prefix@.len() as int) =~= prefix@);
    true
}

/// What is left of `text` once its first `count` characters are taken away:
/// nothing, where it has no more than `count`.
pub fn without_prefix(text: &str, count: usize) -> (rest: String)
    ensures
        count <= text@.len() ==> rest@ == text@.skip(count as int),
        count > text@.len() ==> rest@ == Seq::<char>::empty(),
{
    let len: usize = text.unicode_len();
    if count > len {
        return String::new();
    }
    let rest = text.substring_char(count, len);
    String::from_str(rest)
}

/// Joins the strings with `separator` between each two neighbours.
pub fn join_with(pieces: &Vec<String>, separator: &str) -> (text: String)
    ensures
        text@ == joined(views(pieces@), separator@),
{
    let mut text = String::new();
    let mut i: usize = 0;
    while i < pieces.len()
        invariant
            i <= pieces.len(),
            text@ == joined(views(pieces@.take(i as int)), separator@),
        decreases pieces.len() - i,
    {
        proof {
            let before = views(pieces@.take(i as int));
            let after = views(pieces@.take(i + 1));
            assert(after.drop_last() =~= before);
            assert(after.last() == pieces@[i as int]@);
        }
        if i > 0 {
            text.append(separator);
        }
        text.append(pieces[i].as_str());
        i += 1;
    }
    assert(pieces@.take(i as int) =~= pieces@);
    text
}

/// A text occurs in whatever is put around it.
pub proof fn occurs_in_middle(before: Seq<char>, needle: Seq<char>, after: Seq<char>)
    ensures
        occurs_in(needle, before + needle + after),
{
    let hay = before + needle + after;
    let start = before.len() as int;
    assert(hay.subrange(start, start + needle.len()) =~= needle);
}

/// What occurs in a text occurs in whatever is put around that text.
pub proof fn occurs_in_wider(
    needle: Seq<char>,
    hay: Seq<char>,
    before: Seq<char>,
    after: Seq<char>,
)
    requires
        occurs_in(needle, hay),
    ensures
        occurs_in(needle, before + hay + after),
{
    let start = choose|start: int|
        0 <= start && start + needle.len() <= hay.len() && #[trigger] hay.subrange(
            start,
            start + needle.len(),
        ) == needle;
    let wide = before + hay + after;
    let at = before.len() + start;
    assert(wide.subrange(at, at + needle.len()) =~= hay.subrange(start, start + needle.len()));
}

/// What occurs in a text occurs wherever that text occurs.
pub proof fn occurs_in_chain(needle: Seq<char>, middle: Seq<char>, hay: Seq<char>)
    requires
        occurs_in(needle, middle),
        occurs_in(middle, hay),
    ensures
        occurs_in(needle, hay),
{
    let at = choose|at: int|
        0 <= at && at + middle.len() <= hay.len() && #[trigger] hay.subrange(
            at,
            at + middle.len(),
        ) == middle;
    let before = hay.subrange(0, at);
    let after = hay.subrange(at + middle.len(), hay.len() as int);
    occurs_in_wider(needle, middle, before, after);
    assert(before + middle + after =~= hay);
}

/// Each piece occurs in the pieces joined.
pub proof fn joined_holds_each(pieces: Seq<Seq<char>>, separator: Seq<char>, i: int)
    requires
        0 <= i < pieces.len(),
    ensures
        occurs_in(pieces[i], joined(pieces, separator)),
    decreases pieces.len(),
{
    let empty = Seq::<char>::empty();
    if pieces.len() == 1 {
        occurs_in_middle(empty, pieces[0], empty);
        assert(empty + pieces[0] + empty =~= pieces[0]);
    } else {
        let front = joined(pieces.drop_last(), separator);
        if i == pieces.len() - 1 {
            occurs_in_middle(front + separator, pieces.last(), empty);
            assert(front + separator + pieces.last() + empty =~= front + separator
                + pieces.last());
        } else {
            joined_holds_each(pieces.drop_last(), separator, i);
            occurs_in_wider(pieces[i], front, empty, separator + pieces.last());
            assert(empty + front + (separator + pieces.last()) =~= front + separator
                + pieces.last());
        }
    }
}

} // verus!
