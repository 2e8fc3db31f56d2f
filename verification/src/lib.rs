//! A host/plugin bootstrapping layer.
//!
//! A host process loads a compiled, user-authored network service (a
//! "plugin"), provisions the resources it needs, drives the plugin's
//! asynchronous state builder, and finally obtains a handle that serves the
//! bound service on a given network address.
//!
//! This crate holds the decision core of that handshake: the lifecycle state
//! machine that sequences build-then-bind exactly once, the resource-adapter
//! steps that keep provisioning and submission failures distinct, and the
//! transport configuration a service must bind with. The host's plumbing
//! (dynamic loading, async execution, the concrete web framework and
//! database driver) runs around it and feeds it plain values.

pub mod bind;
pub mod bootstrap;
pub mod error;
pub mod resource;
pub mod runtime;

pub use bind::Address;
pub use bind::BindConfig;
pub use bind::IpRepr;
pub use bind::bind_config;
pub use bind::complete_bind;
pub use bootstrap::BindPlan;
pub use bootstrap::Bootstrapper;
pub use bootstrap::Stage;
pub use error::Error;
pub use resource::PoolRequest;
pub use resource::PoolSizing;
pub use resource::SubmitOutcome;
pub use resource::adapt_submission;
pub use resource::pool_sizing;
pub use resource::prepare_submission;
pub use resource::request_pool;

use vstd::prelude::*;

verus! {

/// A resource-provisioning capability implemented by the host.
///
/// A factory answers "provision this resource and hand me its connection
/// descriptor" requests issued by a plugin while its state is built. A call
/// may reach external infrastructure and may fail; no outcome is promised
/// here, and callers state what holds of whatever comes back.
pub trait Factory {
    /// Ask for a Postgres database and return its connection string.
    fn get_sql_connection_string(&mut self) -> Result<String, Error>;
}

/// The uniform lifecycle contract of every loadable plugin.
///
/// Exactly one operation: bind to the given address and serve there. The
/// call consumes the service — after `bind` the object is spent — and must
/// listen on exactly the given address, per [`bind::bind_config`]. An error
/// wraps the underlying cause losslessly. Whether binding succeeds is the
/// plugin's and the transport's decision; nothing is promised here.
pub trait Service: Sized {
    /// Bind to `addr` and serve until done or failed.
    fn bind(self, addr: bind::Address) -> Result<(), Error>;
}

} // verus!
