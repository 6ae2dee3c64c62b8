//! Resolving the registrar's network location.
//!
//! The registrar advertises itself under the service name `RingMaster` with
//! a local discovery service (the port manager). The resolver queries that
//! directory and picks an endpoint: an empty answer means no registrar is
//! running, a transport or protocol failure is a discovery error, and when
//! several endpoints are advertised the first one wins — no load balancing
//! or health check is performed.

use vstd::prelude::*;

use crate::errors::Error;

verus! {

/// Queries the local discovery service for the registrar's port.
///
/// The discovery port is explicit configuration, fixed when the resolver is
/// built and adjustable before use; the conventional value is 30000.
pub struct ServiceResolver {
    /// TCP port the local discovery service listens on.
    pub portman_port: u16,
}

/// Relies on `portman_client::Client::new` and
/// `portman_client::Client::find_by_service`: asks the port manager
/// listening on `portman_port` for every allocation advertised under
/// `service` and hands back their ports, in the order listed, or the
/// failure rendered with `portman_client::Error::to_string`. The answer
/// depends on what is advertised at that moment, so nothing more is
/// promised of it. The underlying client panics if the connection breaks
/// in the middle of a reply.
#[verifier::external_body]
fn find_service_ports(portman_port: u16, service: &str) -> (r: Result<Vec<u16>, String>) {
    let mut client = portman_client::Client::new(portman_port);
    match client.find_by_service(service) {
        Ok(allocations) => Ok(allocations.into_iter().map(|a| a.port).collect()),
        Err(e) => Err(e.to_string()),
    }
}

/// Classify one discovery outcome: a failure to query the directory wraps
/// its detail in [`Error::DiscoveryError`], an empty answer is
/// [`Error::NoRegistrar`], and otherwise the first advertised port wins.
pub fn classify_discovery(found: Result<Vec<u16>, String>) -> (r: Result<u16, Error>)
    ensures
        found matches Ok(ports) ==> (if ports@.len() > 0 {
            r == Result::<u16, Error>::Ok(ports@[0])
        } else {
            r == Result::<u16, Error>::Err(Error::NoRegistrar)
        }),
        found matches Err(detail) ==> r == Result::<u16, Error>::Err(
            Error::DiscoveryError(detail),
        ),
{
    match found {
        Ok(ports) => {
            if ports.len() == 0 {
                Err(Error::NoRegistrar)
            } else {
                Ok(ports[0])
            }
        },
        Err(detail) => Err(Error::DiscoveryError(detail)),
    }
}

impl ServiceResolver {
    /// A resolver pointed at the conventional discovery port, 30000.
    pub fn new() -> (r: ServiceResolver)
        ensures
            r.portman_port == 30000u16,
    {
        ServiceResolver { portman_port: 30000 }
    }

    /// Point the resolver at another discovery port for the queries that
    /// follow.
    pub fn set_portman_port(&mut self, new_port: u16)
        ensures
            final(self).portman_port == new_port,
    {
        self.portman_port = new_port;
    }

    /// Ask the discovery service where the registrar (`RingMaster`)
    /// listens. Whatever the directory answers is classified by
    /// [`classify_discovery`]: on failure the result is `NoRegistrar` or
    /// `DiscoveryError`, and no connection to any registrar is attempted.
    pub fn get_ringmaster_port(&self) -> (r: Result<u16, Error>)
        ensures
            r matches Err(e) ==> (e is NoRegistrar || e is DiscoveryError),
    {
        let found = find_service_ports(self.portman_port, "RingMaster");
        classify_discovery(found)
    }
}

} // verus!
