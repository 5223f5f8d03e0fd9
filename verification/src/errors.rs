use vstd::prelude::*;

verus! {

/// The failures a scan can surface, one variant per stage of the lifecycle.
#[derive(Debug)]
pub enum FqError {
    /// The scan parameter is missing: binding fails and the scan never starts.
    Argument(String),
    /// The named file could not be opened as a record source; the scan never
    /// starts.
    Io(String),
    /// A record failed to decode mid-scan; the whole invocation fails and the
    /// host discards whatever it collected for it.
    Format(String),
    /// Exclusive access to the record source could not be acquired; the
    /// handle must be treated as unusable afterwards.
    Internal(String),
}

impl FqError {
    /// The message carried by the error, whichever variant holds it.
    pub open spec fn message_spec(self) -> Seq<char> {
        match self {
            FqError::Argument(m) => m@,
            FqError::Io(m) => m@,
            FqError::Format(m) => m@,
            FqError::Internal(m) => m@,
        }
    }

    /// A short description of the failure, for the host's error report.
    pub fn message(&self) -> (m: &String)
        ensures
            m@ == self.message_spec(),
    {
        match self {
            FqError::Argument(m) => m,
            FqError::Io(m) => m,
            FqError::Format(m) => m,
            FqError::Internal(m) => m,
        }
    }
}

} // verus!
