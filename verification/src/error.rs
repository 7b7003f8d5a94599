//! The error taxonomy of a lookup: transport failures, non-success HTTP
//! statuses, and undecodable success bodies.

use vstd::prelude::*;

verus! {

/// Why a lookup failed.  Every failure is surfaced to the caller as one of
/// these variants; an empty result set is not an error.
#[derive(Debug)]
pub enum Error {
    /// The network layer failed before a response arrived (connection,
    /// TLS, or I/O failure).  Carries a diagnostic description.
    Transport { reason: String },
    /// The service answered with a status code other than 200.  Carries
    /// that code and the raw response body as diagnostic text.
    Gateway { status_code: u16, reason: String },
    /// A 200 response body could not be decoded into the expected payload
    /// shape.  Carries the decoder's diagnostic description.
    Decode { reason: String },
}

/// The mathematical content of an `Error`: the same variants over
/// character sequences.
pub ghost enum ErrorV {
    Transport { reason: Seq<char> },
    Gateway { status_code: u16, reason: Seq<char> },
    Decode { reason: Seq<char> },
}

impl DeepView for Error {
    type V = ErrorV;

    open spec fn deep_view(&self) -> ErrorV {
        match self {
            Error::Transport { reason } => ErrorV::Transport { reason: reason@ },
            Error::Gateway { status_code, reason } => ErrorV::Gateway {
                status_code: *status_code,
                reason: reason@,
            },
            Error::Decode { reason } => ErrorV::Decode { reason: reason@ },
        }
    }
}

} // verus!
