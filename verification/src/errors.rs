//! The error taxonomy of the pull layer.
//!
//! Transient network faults are the only retryable kind; every other kind
//! surfaces immediately, wrapped with context naming the offending
//! identifier and stage.
use vstd::prelude::*;

verus! {

/// What went wrong during resolution or caching.
#[derive(Debug)]
pub enum PullError {
    /// A connection failure, timeout or server-side transient fault:
    /// retried under the backoff policy.
    TransientNetwork { message: String },
    /// An application-level rejection or malformed input: never retried.
    TerminalProtocol { message: String },
    /// A hash failed to decode, or a recomputed hash did not match.
    Integrity { message: String },
    /// A malformed metadata section or structured descriptor.
    Decode { message: String },
    /// An I/O failure during cache directory or file operations.
    Filesystem { message: String },
}

impl PullError {
    /// Only transient network faults consume backoff budget; all other
    /// kinds propagate immediately.
    pub fn is_retryable(&self) -> (r: bool)
        ensures
            r == self is TransientNetwork,
    {
        match self {
            PullError::TransientNetwork { .. } => true,
            _ => false,
        }
    }

    /// The human-readable context carried by the error.
    pub fn message(&self) -> (r: &String)
        ensures
            r@ == self.spec_message(),
    {
        match self {
            PullError::TransientNetwork { message } => message,
            PullError::TerminalProtocol { message } => message,
            PullError::Integrity { message } => message,
            PullError::Decode { message } => message,
            PullError::Filesystem { message } => message,
        }
    }

    pub open spec fn spec_message(self) -> Seq<char> {
        match self {
            PullError::TransientNetwork { message } => message@,
            PullError::TerminalProtocol { message } => message@,
            PullError::Integrity { message } => message@,
            PullError::Decode { message } => message@,
            PullError::Filesystem { message } => message@,
        }
    }
}

} // verus!
