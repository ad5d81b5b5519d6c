use vstd::prelude::*;

verus! {

/// The failure modes of the protocol layer.
#[derive(Clone, Copy, Debug, PartialEq, Eq, Structural)]
pub enum Error {
    /// A command echo from the station did not match the expected value.
    Check,
    /// The payload checksum trailer did not match the byte sum.
    CheckData,
    /// The retry budget for one memory cell was exhausted.
    TryRead,
    /// A table index decoded from a nibble was out of range.
    Index,
}

impl Error {
    /// A short diagnostic text for this error.
    pub fn message(&self) -> (r: &'static str)
        ensures
            *self is Check ==> r@ == "Check error"@,
            *self is CheckData ==> r@ == "Check data error"@,
            *self is TryRead ==> r@ == "Try read error"@,
            *self is Index ==> r@ == "Index error"@,
    {
        match self {
            Error::Check => "Check error",
            Error::CheckData => "Check data error",
            Error::TryRead => "Try read error",
            Error::Index => "Index error",
        }
    }
}

} // verus!
