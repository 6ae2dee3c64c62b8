//! Client-side support for registering with a ring-buffer registrar (the
//! "ring master") and streaming consumed ring data to a downstream sink.
//!
//! The crate covers four concerns:
//! * resolving the registrar's port through a local discovery service
//!   ([`discovery`]),
//! * forming the one-line registration request and classifying the
//!   registrar's one-line reply ([`protocol`]),
//! * attaching to a named ring buffer as a producer or consumer and
//!   preparing the registration ([`ring`]),
//! * draining newly available bytes from a consumer ring channel and
//!   forwarding them, byte-exact, to the sink ([`forward`]).
//!
//! Opening the registrar connection itself needs the network, which stays
//! with the caller: [`ring::attach_consumer`] hands back everything the
//! caller needs for that single request/response exchange.

pub mod args;
pub mod discovery;
pub mod errors;
pub mod forward;
pub mod protocol;
pub mod ring;
