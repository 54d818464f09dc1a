use vstd::prelude::*;

verus! {

/// The one failure this crate surfaces: the underlying sink could not be
/// written. The cause stays with the sink; this layer neither retries nor
/// recovers.
#[derive(Clone, Copy, Debug, PartialEq, Eq, Structural)]
pub struct WriteError;

/// A synchronous text sink that rendered markup is written to.
///
/// `String` implements it by collecting the text in memory and never
/// failing; an output destination doing real I/O implements it by writing
/// and surfacing its failures as `WriteError`. On failure nothing is
/// promised about what reached the sink: the write may have been partial.
pub trait Sink {
    /// Everything successfully written so far. The default stands for
    /// destinations that do not model their content; a sink whose callers
    /// rely on what was written overrides it.
    open spec fn content(&self) -> Seq<char> {
        Seq::<char>::empty()
    }

    /// Whether a write to this sink always succeeds. The default claims
    /// nothing; a sink that cannot fail overrides it, and its callers are
    /// then owed success.
    open spec fn infallible(&self) -> bool {
        false
    }

    /// Writes `s` whole, or fails.
    fn write_str(&mut self, s: &str) -> (r: Result<(), WriteError>)
        ensures
            r is Ok ==> final(self).content() == old(self).content() + s@,
            old(self).infallible() ==> r is Ok,
    ;
}

impl Sink for String {
    open spec fn content(&self) -> Seq<char> {
        self@
    }

    open spec fn infallible(&self) -> bool {
        true
    }

    fn write_str(&mut self, s: &str) -> (r: Result<(), WriteError>) {
        self.append(s);
        Ok(())
    }
}

} // verus!
