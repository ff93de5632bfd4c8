//! The failures that the buffer operations report.
use vstd::prelude::*;

verus! {

/// Why an operation on a buffer did not succeed.
#[derive(Debug, Clone, Copy, PartialEq, Eq, Structural)]
pub enum MemError {
    /// The value exposes none of the accepted buffer representations, or
    /// only one that cannot serve the operation (read-only, not contiguous).
    Unsupported,
    /// The locking backend could not be made ready; it is not tried again.
    BackendInitFailed,
    /// The system refused to lock the region.
    LockFailed,
    /// The system refused to unlock the region, outside the tolerated
    /// repeated-unlock case.
    UnlockFailed,
}

/// The reason text of each failure.
pub open spec fn reason_of(e: MemError) -> Seq<char> {
    match e {
        MemError::Unsupported =>
            "expected a bytearray, a one-dimensional numpy array of bytes, a contiguous buffer-protocol object (writable unless only read), or bytes (for reading only)"@,
        MemError::BackendInitFailed => "memory lock backend could not be initialized"@,
        MemError::LockFailed => "mlock failed"@,
        MemError::UnlockFailed => "munlock failed"@,
    }
}

impl MemError {
    /// A human-readable reason that tells the four failures apart.
    pub fn reason(&self) -> (r: &'static str)
        ensures
            r@ == reason_of(*self),
    {
        match self {
            MemError::Unsupported =>
                "expected a bytearray, a one-dimensional numpy array of bytes, a contiguous buffer-protocol object (writable unless only read), or bytes (for reading only)",
            MemError::BackendInitFailed => "memory lock backend could not be initialized",
            MemError::LockFailed => "mlock failed",
            MemError::UnlockFailed => "munlock failed",
        }
    }
}

} // verus!
