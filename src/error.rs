use vstd::prelude::*;

verus! {

/// Why a request was refused as invalid input.
#[derive(Debug, Clone, Copy, PartialEq, Eq, Structural)]
pub enum Invalid {
    /// The map handed to the ring is not of the user ring buffer kind.
    NotUserRingBuf,
    /// The requested sample can never fit in the ring.
    TooLarge,
    /// The ring has no room for the sample right now; a later try may succeed.
    NoSpace,
}

/// The errors of ring operations.
#[derive(Debug, Clone, Copy, PartialEq, Eq, Structural)]
pub enum Error {
    /// Misuse by the caller, or a rejection that the kernel names.
    InvalidInput(Invalid),
    /// Any other failure, carrying the system error code verbatim.
    Os(i32),
}

impl Invalid {
    /// A short description of the reason.
    pub fn describe(&self) -> (s: &'static str)
        ensures
            *self == Invalid::NotUserRingBuf ==> s@ == "Must use a UserRingBuf map"@,
            *self == Invalid::TooLarge ==> s@ == "Requested size is too large"@,
            *self == Invalid::NoSpace ==> s@ == "Not enough space in the ring buffer"@,
    {
        match self {
            Invalid::NotUserRingBuf => "Must use a UserRingBuf map",
            Invalid::TooLarge => "Requested size is too large",
            Invalid::NoSpace => "Not enough space in the ring buffer",
        }
    }
}

} // verus!
