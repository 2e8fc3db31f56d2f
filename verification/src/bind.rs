//! Network addresses and the bind step of a service.
//!
//! A service must listen on exactly the address the deployer chose, with the
//! underlying framework's own process-level signal handling disabled (the
//! host controls shutdown) and its independent logging suppressed (the
//! host's injected logger is authoritative). [`bind_config`] computes that
//! configuration; [`complete_bind`] classifies what the framework's launch
//! reported, keeping a failure's diagnostic text unchanged.

use vstd::prelude::*;

use crate::error::Error;

verus! {

/// An IP address, as the plain values a bind configuration needs.
#[derive(Clone, Copy, Debug)]
pub enum IpRepr {
    V4 { octets: [u8; 4] },
    V6 { segments: [u16; 8] },
}

/// A socket address: where a built service is told to listen.
#[derive(Clone, Copy, Debug)]
pub struct Address {
    pub ip: IpRepr,
    pub port: u16,
}

/// The transport configuration a service binds with.
#[derive(Clone, Copy, Debug)]
pub struct BindConfig {
    /// The exact IP address to listen on.
    pub ip: IpRepr,
    /// The exact port to listen on.
    pub port: u16,
    /// Whether the framework may install its own interrupt handler.
    pub ctrlc_enabled: bool,
    /// Whether the framework may write its own log output.
    pub log_enabled: bool,
}

/// The one configuration a service may bind with at the given address.
pub open spec fn bind_config_of(addr: Address) -> BindConfig {
    BindConfig { ip: addr.ip, port: addr.port, ctrlc_enabled: false, log_enabled: false }
}

/// The transport configuration for binding at `addr`: listen on exactly the
/// given address, and take both signal handling and logging away from the
/// framework.
pub fn bind_config(addr: &Address) -> (c: BindConfig)
    ensures
        c == bind_config_of(*addr),
        c.ip == addr.ip,
        c.port == addr.port,
        !c.ctrlc_enabled,
        !c.log_enabled,
{
    BindConfig { ip: addr.ip, port: addr.port, ctrlc_enabled: false, log_enabled: false }
}

/// What the bind step reports for each outcome of the framework's launch.
pub open spec fn bind_result(outcome: Result<(), String>) -> Result<(), Error> {
    match outcome {
        Ok(u) => Ok(u),
        Err(cause) => Err(Error::Bind { cause }),
    }
}

/// Classify what the framework's launch reported: success stays success, and
/// a failure becomes a binding error that wraps the cause losslessly.
pub fn complete_bind(outcome: Result<(), String>) -> (r: Result<(), Error>)
    ensures
        r == bind_result(outcome),
{
    match outcome {
        Ok(u) => Ok(u),
        Err(cause) => Err(Error::Bind { cause }),
    }
}

/// A failed launch is reported as a binding error that carries the launch
/// failure's own diagnostic text: the cause survives classification
/// unchanged, and a serve task that reports [`complete_bind`]'s result
/// resolves to exactly that error.
pub proof fn lemma_bind_cause_preserved(cause: String)
    ensures
        bind_result(Err(cause)) == Err::<(), Error>(Error::Bind { cause }),
        crate::error::cause_of(Error::Bind { cause }) == cause,
{
}

} // verus!
