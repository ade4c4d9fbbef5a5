//! The error value carried by failed operations: an owned copy of the
//! message that was current when the failure was observed.

use vstd::prelude::*;

verus! {

/// An error, holding its own copy of the message that described it, so that
/// later failures cannot overwrite it.
pub struct Error {
    reason: String,
}

impl View for Error {
    type V = Seq<char>;

    closed spec fn view(&self) -> Seq<char> {
        self.reason@
    }
}

impl Error {
    /// An error described by `reason`.
    pub fn new(reason: String) -> (e: Self)
        ensures
            e@ == reason@,
    {
        Error { reason }
    }

    /// The message describing this error.
    pub fn as_str(&self) -> (s: &str)
        ensures
            s@ == self@,
    {
        self.reason.as_str()
    }
}

} // verus!
