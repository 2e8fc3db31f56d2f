//! The owned execution runtime a bootstrapper carries.
//!
//! Resources built during bootstrapping can be pinned to the runtime they
//! were created on, so the bootstrapper owns one multi-threaded runtime for
//! the whole life of a deployment attempt and hands it on, together with the
//! built service, for the serve task to be spawned on. The runtime is opaque
//! here: this crate only owns it and passes it through; the host builds it,
//! spawns on it, and extends its lifetime past the serve task.

use vstd::prelude::*;

verus! {

/// Relies on tokio's `runtime::Runtime`: the multi-threaded execution
/// runtime type. Declared so a bootstrapper can own one and hand it on;
/// its values are opaque and no method of it is called from verified code.
#[verifier::external_type_specification]
#[verifier::external_body]
pub struct ExRuntime(tokio::runtime::Runtime);

} // verus!
