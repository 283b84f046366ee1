//! Short texts held in `compact_str::CompactString`, and what the library
//! takes for granted about that type.

use compact_str::{CompactString, ToCompactString};
use vstd::prelude::*;

verus! {

/// `compact_str::CompactString`, so that it can stand in fields and
/// signatures. Nothing is known of what is inside one but through
/// [`text_of`].
#[verifier::external_type_specification]
#[verifier::external_body]
pub struct ExCompactString(CompactString);

/// The characters that a `CompactString` holds.
pub uninterp spec fn text_of(text: CompactString) -> Seq<char>;

/// The character that stands for a single decimal digit.
pub open spec fn digit(d: nat) -> char
    recommends
        d < 10,
{
    seq!['0', '1', '2', '3', '4', '5', '6', '7', '8', '9'][d as int]
}

/// A natural number written in base ten, without sign or leading zeros.
pub open spec fn decimal(n: nat) -> Seq<char>
    decreases n,
{
    if n < 10 {
        seq![digit(n)]
    } else {
        decimal(n / 10).push(digit(n % 10))
    }
}

/// `ToCompactString::to_compact_string` on a string slice writes the slice
/// out through `Display`, so the result holds exactly its characters.
#[verifier::external_body]
pub(crate) fn text_from_str(s: &str) -> (text: CompactString)
    ensures
        text_of(text) == s@,
{
    s.to_compact_string()
}

/// `ToCompactString::to_compact_string` on a `usize` gives what `Display`
/// gives for it: the number in base ten.
#[verifier::external_body]
pub(crate) fn text_from_usize(n: usize) -> (text: CompactString)
    ensures
        text_of(text) == decimal(n as nat),
{
    n.to_compact_string()
}

/// `CompactString::as_str` borrows the whole text as a string slice.
#[verifier::external_body]
pub(crate) fn text_as_str(text: &CompactString) -> (s: &str)
    ensures
        s@ == text_of(*text),
{
    text.as_str()
}

/// `CompactString`'s `==` compares the two texts as string slices: it holds
/// exactly when they are made of the same characters.
#[verifier::external_body]
pub(crate) fn text_eq(a: &CompactString, b: &CompactString) -> (equal: bool)
    ensures
        equal == (text_of(*a) == text_of(*b)),
{
    a == b
}

/// What `{:?}` writes for a string slice with these characters: the text in
/// double quotes, with the characters that need it escaped.
pub uninterp spec fn debug_quoted(text: Seq<char>) -> Seq<char>;

/// Formats a string slice with `{:?}`, which goes by its characters alone.
#[verifier::external_body]
pub(crate) fn str_debug(s: &str) -> (quoted: String)
    ensures
        quoted@ == debug_quoted(s@),
{
    format!("{:?}", s)
}

} // verus!
