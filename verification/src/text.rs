//! Text helpers that the rest of the library shares.

use vstd::prelude::*;
use vstd::utf8::{decode_utf8, valid_utf8};

verus! {

/// What [`str::to_lowercase`] makes of a text.
pub uninterp spec fn lowercased(text: Seq<char>) -> Seq<char>;

/// Whether two texts have the same characters.
pub fn same_text(left: &str, right: &str) -> (same: bool)
    ensures
        same == (left@ == right@),
{
    left.to_owned() == right.to_owned()
}

/// Decodes bytes with [`String::from_utf8`]: it yields a text exactly when
/// the bytes are well-formed UTF-8, and the text is then the one that these
/// bytes encode.
#[verifier::external_body]
pub(crate) fn decode_text(bytes: Vec<u8>) -> (text: Option<String>)
    ensures
        text is Some <==> valid_utf8(bytes@),
        text matches Some(t) ==> t@ == decode_utf8(bytes@),
{
    String::from_utf8(bytes).ok()
}

/// Lower-cases a text with [`str::to_lowercase`]. Nothing is claimed of the
/// result but that it depends on the text alone.
#[verifier::external_body]
pub(crate) fn lowercase(text: &str) -> (lower: String)
    ensures
        lower@ == lowercased(text@),
{
    text.to_lowercase()
}

/// The characters of a text.
pub fn characters(text: &str) -> (list: Vec<char>)
    ensures
        list@ == text@,
{
    let mut list: Vec<char> = Vec::new();
    for c in it: text.chars()
        invariant
            it.seq() == text@,
            list@ == text@.take(it.index() as int),
    {
        list.push(c);
    }
    list
}

/// The texts of a list of strings, in order.
pub open spec fn texts(list: Seq<String>) -> Seq<Seq<char>> {
    list.map_values(|s: String| s@)
}

/// Whether a list holds a text.
pub fn contains_text(list: &Vec<String>, wanted: &str) -> (found: bool)
    ensures
        found == texts(list@).contains(wanted@),
{
    let owned = wanted.to_owned();
    let mut index: usize = 0;
    while index < list.len()
        invariant
            index <= list.len(),
            owned@ == wanted@,
            forall|i: int| 0 <= i < index ==> texts(list@)[i] != wanted@,
        decreases list.len() - index,
    {
        if list[index] == owned {
            assert(texts(list@)[index as int] == wanted@);
            return true;
        }
        index += 1;
    }
    false
}

/// The text `lead` followed by `tail`.
pub fn join(lead: &str, tail: &str) -> (joined: String)
    ensures
        joined@ == lead@ + tail@,
{
    lead.to_owned().concat(tail)
}

} // verus!
