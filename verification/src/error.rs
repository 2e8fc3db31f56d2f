//! The single error type of the bootstrapping layer.
//!
//! Every failure of a deployment attempt is surfaced as one [`Error`] value
//! that records which step failed and carries the diagnostic text of the
//! underlying cause unchanged. Nothing is retried and no cause is discarded.

use vstd::prelude::*;

verus! {

/// A failure of one step of the load → build → bind handshake.
///
/// The variants follow the steps of the handshake: resource provisioning by
/// the host's factory, the two distinct ways the typed resource adapter can
/// fail (the cross-runtime submission itself, or the construction it
/// submitted), the user's state builder, and the final bind-and-serve step.
#[derive(Clone, Debug)]
pub enum Error {
    /// The factory could not provision the requested resource.
    Provisioning { cause: String },
    /// The execution runtime rejected or aborted the submitted construction
    /// task, so the resource construction never reported a result.
    Submission { cause: String },
    /// The submitted resource construction ran and failed.
    Resource { cause: String },
    /// The state builder ran and failed to produce a service.
    Build { cause: String },
    /// The service could not bind to or serve on the given address.
    Bind { cause: String },
}

/// The diagnostic text an error carries, whatever step it came from.
pub open spec fn cause_of(e: Error) -> String {
    match e {
        Error::Provisioning { cause } => cause,
        Error::Submission { cause } => cause,
        Error::Resource { cause } => cause,
        Error::Build { cause } => cause,
        Error::Bind { cause } => cause,
    }
}

impl Error {
    /// The diagnostic text of the underlying cause, kept as it was reported.
    pub fn cause(&self) -> (c: &String)
        ensures
            *c == cause_of(*self),
    {
        match self {
            Error::Provisioning { cause } => cause,
            Error::Submission { cause } => cause,
            Error::Resource { cause } => cause,
            Error::Build { cause } => cause,
            Error::Bind { cause } => cause,
        }
    }
}

} // verus!
