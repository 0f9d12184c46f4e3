//! Where a command, and the help listing, write their output.

use vstd::prelude::*;
use vstd::string::StringExecFns;

verus! {

/// A sink refused a write.
#[derive(Debug, Clone, Copy, PartialEq, Eq, Structural)]
pub struct WriteFailed;

/// A destination for text. The registry borrows one for the length of a
/// dispatch and hands it to the command it runs.
pub trait Sink {
    /// The text that the sink has taken so far, for a sink that keeps track
    /// of it.
    open spec fn record(&self) -> Option<Seq<char>> {
        None
    }

    /// The sink takes every write.
    open spec fn never_refuses(&self) -> bool {
        false
    }

    /// Appends `s`. A sink that refuses may have taken a leading part of
    /// `s`; it takes nothing else and never gives up what it took before.
    fn write_str(&mut self, s: &str) -> (r: Result<(), WriteFailed>)
        ensures
            old(self).never_refuses() ==> r is Ok && final(self).never_refuses(),
            old(self).record() matches Some(before) ==> (final(self).record() matches Some(after)
                && before.is_prefix_of(after) && after.is_prefix_of(before + s@) && (r is Ok
                ==> after == before + s@)),
    ;
}

/// A `String` keeps what it is given and takes every write.
impl Sink for String {
    open spec fn record(&self) -> Option<Seq<char>> {
        Some(self@)
    }

    open spec fn never_refuses(&self) -> bool {
        true
    }

    fn write_str(&mut self, s: &str) -> (r: Result<(), WriteFailed>) {
        self.append(s);
        Ok(())
    }
}

} // verus!
