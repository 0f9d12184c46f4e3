//! Help texts of bounded length.

use vstd::prelude::*;
use vstd::utf8::encode_utf8;

verus! {

/// The number of bytes that a text takes in UTF-8.
pub open spec fn byte_len(text: Seq<char>) -> nat {
    encode_utf8(text).len()
}

/// A help text whose UTF-8 encoding takes at most `H` bytes.
pub struct HelpText<const H: usize> {
    text: String,
}

impl<const H: usize> View for HelpText<H> {
    type V = Seq<char>;

    closed spec fn view(&self) -> Seq<char> {
        self.text@
    }
}

impl<const H: usize> HelpText<H> {
    #[verifier::type_invariant]
    spec fn fits(&self) -> bool {
        byte_len(self.text@) <= H
    }

    /// The text as a help text, unless it is longer than `H` bytes.
    pub fn new(text: &str) -> (r: Option<Self>)
        ensures
            r is Some <==> byte_len(text@) <= H,
            r matches Some(help) ==> help@ == text@,
    {
        if text.as_bytes().len() <= H {
            Some(HelpText { text: text.to_owned() })
        } else {
            None
        }
    }

    /// The text.
    pub fn as_str(&self) -> (s: &str)
        ensures
            s@ == self@,
            byte_len(s@) <= H,
    {
        proof {
            use_type_invariant(self);
        }
        self.text.as_str()
    }
}

} // verus!
