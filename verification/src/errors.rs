use vstd::prelude::*;

verus! {

/// The ways an engine operation can fail.
#[derive(Debug, Clone, Copy, PartialEq, Eq, Structural)]
pub enum Error {
    /// The requested offset does not address a valid byte in the target.
    OutOfRange,
    /// The underlying byte store failed during a read or a write.
    IO,
}

impl Error {
    /// A human-readable description of the error.
    pub fn message(&self) -> (r: &'static str)
        ensures
            *self is OutOfRange ==> r@ == "ray position is out of range"@,
            *self is IO ==> r@ == "io error"@,
    {
        match self {
            Error::OutOfRange => "ray position is out of range",
            Error::IO => "io error",
        }
    }
}

} // verus!
