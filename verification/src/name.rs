//! Command names: `heapless` strings of at most 32 bytes.

use vstd::prelude::*;

verus! {

/// `heapless::String`: text in a buffer of `N` bytes that the string owns.
/// What one holds is known here through `name_text` alone.
#[verifier::external_type_specification]
#[verifier::external_body]
pub struct ExHeaplessString<const N: usize>(heapless::String<N>);

/// The characters that a command name holds: those of the string slice that
/// `heapless::String::as_str` gives.
pub uninterp spec fn name_text(name: &heapless::String<32>) -> Seq<char>;

/// The reserved name: it asks for the help listing and never reaches a
/// registered command.
pub open spec fn help_word() -> Seq<char> {
    "help"@
}

/// `heapless::String`'s `==` against another `heapless::String` (its
/// `PartialEq<String<N2>>`): it compares the two as string slices, so it is
/// true exactly when both hold the same characters.
#[verifier::external_body]
pub(crate) fn names_equal(a: &heapless::String<32>, b: &heapless::String<32>) -> (r: bool)
    ensures
        r == (name_text(a) == name_text(b)),
{
    a == b
}

/// `heapless::String`'s `==` against a `&str` (its `PartialEq<&str>`): it
/// compares the two as string slices, so it is true exactly when the name
/// holds the characters of `word`.
#[verifier::external_body]
pub(crate) fn name_is(name: &heapless::String<32>, word: &str) -> (r: bool)
    ensures
        r == (name_text(name) == word@),
{
    *name == word
}

} // verus!
