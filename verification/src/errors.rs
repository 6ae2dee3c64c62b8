//! The closed set of failure kinds that the registration and streaming
//! pipeline can produce. Each stage (discovery, ring attach, registration,
//! forwarding) has its own kinds; callers use them to decide how to exit.

use vstd::prelude::*;

verus! {

/// A failure of one stage of the pipeline.
///
/// The stages run strictly in order — discovery, ring attach, registration,
/// forwarding — and a failure at one stage aborts the rest without retry.
#[derive(Debug, PartialEq, Eq)]
pub enum Error {
    /// The discovery service could not be queried; the detail describes the
    /// underlying transport or protocol failure.
    DiscoveryError(String),
    /// The discovery service answered, but no registrar is advertised.
    NoRegistrar,
    /// Mapping the ring buffer file or attaching to the ring failed.
    RingAttachError(String),
    /// Opening the connection to the registrar failed.
    RegistrarUnreachable,
    /// Writing the request or reading the reply failed after connecting.
    TransportError,
    /// The registrar replied with something other than `OK`; the detail is
    /// the entire reply line.
    RegistrationRejected(String),
    /// A ring channel error other than a timeout ended the forwarding loop,
    /// or the downstream sink refused a write.
    ForwardingFatalError(String),
}

/// The readable rendering of a failure: a fixed phrase for its kind,
/// followed by the detail the kind carries, if any.
pub open spec fn message_chars(e: Error) -> Seq<char> {
    match e {
        Error::DiscoveryError(d) => "Error interacting with the port manager: "@ + d@,
        Error::NoRegistrar => "The ring master is not running"@,
        Error::RingAttachError(d) => "Could not attach the ring buffer: "@ + d@,
        Error::RegistrarUnreachable => "The ring master could not be reached"@,
        Error::TransportError => "The connection to the ring master failed"@,
        Error::RegistrationRejected(d) => "Registration rejected by the ring master: "@ + d@,
        Error::ForwardingFatalError(d) => "Fatal ring channel error: "@ + d@,
    }
}

impl Error {
    /// Render the failure for human consumption, as [`message_chars`]
    /// says: the kind's fixed phrase, then its detail.
    pub fn message(&self) -> (r: String)
        ensures
            r@ == message_chars(*self),
    {
        match self {
            Error::DiscoveryError(d) => {
                let mut s = String::from_str("Error interacting with the port manager: ");
                s.append(d.as_str());
                s
            },
            Error::NoRegistrar => String::from_str("The ring master is not running"),
            Error::RingAttachError(d) => {
                let mut s = String::from_str("Could not attach the ring buffer: ");
                s.append(d.as_str());
                s
            },
            Error::RegistrarUnreachable => String::from_str(
                "The ring master could not be reached",
            ),
            Error::TransportError => String::from_str(
                "The connection to the ring master failed",
            ),
            Error::RegistrationRejected(d) => {
                let mut s = String::from_str("Registration rejected by the ring master: ");
                s.append(d.as_str());
                s
            },
            Error::ForwardingFatalError(d) => {
                let mut s = String::from_str("Fatal ring channel error: ");
                s.append(d.as_str());
                s
            },
        }
    }
}

} // verus!
