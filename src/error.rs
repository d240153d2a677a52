use vstd::prelude::*;

verus! {

/// Failure of an object-store download or listing, as surfaced to callers.
#[derive(Clone, Copy, Debug, PartialEq, Eq, Structural)]
pub enum DownloadError {
    /// The requested object does not exist.
    NotFound,
    /// The caller's cancellation signal was observed.
    Cancelled,
    /// The request did not complete within the per-request timeout.
    Timeout,
    /// A network or service hiccup; worth trying again.
    Transient,
    /// The payload was present but malformed.
    Decode,
    /// An unclassified backend failure; not worth trying again.
    Other,
}

impl DownloadError {
    /// Whether a failure ends a retry loop at once.
    pub open spec fn spec_is_permanent(self) -> bool {
        !(self is Timeout || self is Transient)
    }

    pub fn is_permanent(&self) -> (r: bool)
        ensures
            r == self.spec_is_permanent(),
    {
        match self {
            DownloadError::Timeout | DownloadError::Transient => false,
            _ => true,
        }
    }
}

} // verus!
