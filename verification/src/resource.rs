//! The typed resource adapter: from a factory answer to a runtime-bound
//! resource.
//!
//! Some resources — pooled database connections above all — must be
//! constructed on the runtime the eventual service will run on, not on the
//! caller's. The adapter therefore works in two halves around the host's
//! cross-runtime submission: [`prepare_submission`] turns the factory's
//! answer into a submission request carrying the adapter's fixed pool
//! sizing, and [`adapt_submission`] classifies what came back, keeping a
//! failure of the submission itself distinct from a failure of the
//! construction that was submitted.

use vstd::prelude::*;

use crate::Factory;
use crate::error::Error;

verus! {

/// The adapter's connection-pool sizing policy.
#[derive(Clone, Copy, Debug)]
pub struct PoolSizing {
    pub min_connections: u32,
    pub max_connections: u32,
}

/// The fixed sizing policy: a pool of one to five connections. Not
/// user-configurable at this layer.
pub open spec fn adapter_sizing() -> PoolSizing {
    PoolSizing { min_connections: 1, max_connections: 5 }
}

/// The adapter's fixed pool sizing, as a value the host can apply.
pub fn pool_sizing() -> (s: PoolSizing)
    ensures
        s == adapter_sizing(),
        s.min_connections == 1,
        s.max_connections == 5,
{
    PoolSizing { min_connections: 1, max_connections: 5 }
}

/// What the host must submit to the execution runtime: construct a pool for
/// this connection string, sized by the adapter's policy.
pub struct PoolRequest {
    pub connection_string: String,
    pub sizing: PoolSizing,
}

/// Turn the factory's answer into a submission request. A provisioning
/// failure passes through unchanged; a connection string becomes a request
/// with the adapter's fixed sizing.
pub fn prepare_submission(answer: Result<String, Error>) -> (r: Result<PoolRequest, Error>)
    ensures
        answer matches Ok(s) ==> {
            &&& r matches Ok(req)
            &&& req.connection_string == s
            &&& req.sizing == adapter_sizing()
        },
        answer matches Err(e) ==> r == Err::<PoolRequest, Error>(e),
{
    match answer {
        Ok(connection_string) => Ok(
            PoolRequest { connection_string, sizing: pool_sizing() },
        ),
        Err(e) => Err(e),
    }
}

/// Ask the given factory for a connection string and shape the answer into
/// a submission request. Whether a request comes back is the factory's
/// decision; whatever comes back carries the adapter's fixed sizing.
pub fn request_pool<F: Factory>(factory: &mut F) -> (r: Result<PoolRequest, Error>)
    ensures
        r matches Ok(req) ==> req.sizing == adapter_sizing(),
{
    let answer = factory.get_sql_connection_string();
    prepare_submission(answer)
}

/// What a cross-runtime submission came back as.
pub enum SubmitOutcome<T> {
    /// The submitted construction ran to completion with this result; a
    /// failure carries the construction's own diagnostic text.
    Ran(Result<T, String>),
    /// The runtime rejected or aborted the task, with this diagnostic text;
    /// the construction never reported a result.
    Rejected(String),
}

/// What the adapter reports for each submission outcome: the two failure
/// paths map to two different error variants, each keeping its own cause.
pub open spec fn submission_result<T>(outcome: SubmitOutcome<T>) -> Result<T, Error> {
    match outcome {
        SubmitOutcome::Ran(Ok(t)) => Ok(t),
        SubmitOutcome::Ran(Err(cause)) => Err(Error::Resource { cause }),
        SubmitOutcome::Rejected(cause) => Err(Error::Submission { cause }),
    }
}

/// Classify what came back from the cross-runtime submission: a constructed
/// resource is handed on; a construction failure and a submission failure
/// are reported as distinct errors, neither cause discarded.
pub fn adapt_submission<T>(outcome: SubmitOutcome<T>) -> (r: Result<T, Error>)
    ensures
        r == submission_result(outcome),
{
    match outcome {
        SubmitOutcome::Ran(Ok(t)) => Ok(t),
        SubmitOutcome::Ran(Err(cause)) => Err(Error::Resource { cause }),
        SubmitOutcome::Rejected(cause) => Err(Error::Submission { cause }),
    }
}

/// A failure of the submitted construction and a failure of the submission
/// itself are never reported alike: they come back as different error
/// variants, each carrying its own cause unchanged — even when the two
/// diagnostic texts happen to be equal.
pub proof fn lemma_adapter_failures_distinct<T>(inner: String, rejected: String)
    ensures
        submission_result::<T>(SubmitOutcome::Ran(Err(inner)))
            == Err::<T, Error>(Error::Resource { cause: inner }),
        submission_result::<T>(SubmitOutcome::Rejected(rejected))
            == Err::<T, Error>(Error::Submission { cause: rejected }),
        submission_result::<T>(SubmitOutcome::Ran(Err(inner)))
            != submission_result::<T>(SubmitOutcome::Rejected(rejected)),
{
}

} // verus!
