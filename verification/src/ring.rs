//! Attaching to a named ring buffer and preparing the registration.
//!
//! The ring buffer itself — its shared-memory mapping, slot bookkeeping and
//! read primitives — is an external collaborator. This module maps the ring
//! file, claims a producer or consumer slot on it, resolves the registrar
//! through discovery, and forms the registration request; what comes back
//! is everything the caller needs to perform the single request/response
//! exchange with the registrar and then hold that connection open as the
//! registration lease.

use vstd::prelude::*;

use nscldaq_ringbuffer::ringbuffer::RingBufferMap;
use nscldaq_ringbuffer::ringbuffer::consumer;
use nscldaq_ringbuffer::ringbuffer::producer;

use crate::discovery::ServiceResolver;
use crate::errors::Error;
use crate::protocol::Role;
use crate::protocol::base_name;
use crate::protocol::connect_request;
use crate::protocol::connect_request_chars;
use crate::protocol::ring_name;

verus! {

/// The ring buffer file's shared-memory mapping, an opaque value of the
/// ring buffer crate; it is only carried from [`map_ring`] into an attach.
#[verifier::external_type_specification]
#[verifier::external_body]
pub struct ExRingBufferMap(RingBufferMap);

/// A consumer handle on the ring, an opaque value of the ring buffer
/// crate; the forwarding loop polls it and frees its slot on drop.
#[verifier::external_type_specification]
#[verifier::external_body]
pub struct ExConsumer(consumer::Consumer);

/// The producer handle on the ring, an opaque value of the ring buffer
/// crate; it frees the producer slot on drop.
#[verifier::external_type_specification]
#[verifier::external_body]
pub struct ExProducer(producer::Producer);

/// The attached ring channel: a consumer at some slot, or the producer.
pub enum ClientType {
    Consumer(consumer::Consumer),
    Producer(producer::Producer),
}

/// Everything a freshly attached client needs to register with the
/// registrar: the ring channel it holds, the registrar's port, the role it
/// claimed at attach time, and the request line to send.
///
/// The caller completes the registration by connecting to the registrar,
/// sending `request` verbatim, and reading the one-line reply; the open
/// connection is then the registration lease and must outlive the ring
/// attachment.
pub struct PendingRegistration {
    /// The attached ring channel.
    pub client: ClientType,
    /// The port the registrar listens on, as discovery resolved it.
    pub registrar_port: u16,
    /// The role claimed on the ring; for a consumer it carries the slot
    /// assigned at attach time.
    pub role: Role,
    /// The registration request line, newline-terminated.
    pub request: String,
}

/// Relies on `RingBufferMap::new`: maps the named file and checks that it
/// carries a ring buffer's header, returning the mapping or a readable
/// message naming what was wrong with the file.
#[verifier::external_body]
fn map_ring(ring_buffer_file: &str) -> (r: Result<RingBufferMap, String>) {
    RingBufferMap::new(ring_buffer_file)
}

/// Relies on `consumer::Consumer::attach`: claims a free consumer slot on
/// the mapped ring, or fails when every slot is taken; the failure is
/// rendered with `consumer::error_string`.
#[verifier::external_body]
fn attach_consumer_channel(map: RingBufferMap) -> (r: Result<consumer::Consumer, String>) {
    let ring = std::sync::Arc::new(std::sync::Mutex::new(map));
    match consumer::Consumer::attach(&ring) {
        Ok(c) => Ok(c),
        Err(e) => Err(consumer::error_string(&e)),
    }
}

/// Relies on `producer::Producer::attach`: claims the ring's single
/// producer slot, or fails when a producer already exists; the failure is
/// rendered with `producer::error_string`.
#[verifier::external_body]
fn attach_producer_channel(map: RingBufferMap) -> (r: Result<producer::Producer, String>) {
    let ring = std::sync::Arc::new(std::sync::Mutex::new(map));
    match producer::Producer::attach(&ring) {
        Ok(p) => Ok(p),
        Err(e) => Err(producer::error_string(&e)),
    }
}

/// Relies on `consumer::Consumer::get_index`: reports the slot index the
/// consumer was assigned when it attached.
pub assume_specification[ consumer::Consumer::get_index ](
    c: &consumer::Consumer,
) -> u32;

/// Attach to the ring buffer file as a consumer and prepare the
/// registration: resolve the registrar through the discovery service on
/// `portman_port`, map the file, claim a consumer slot, and form the
/// request that registers `pid` as a consumer at that slot on the ring
/// named by the file's base name.
///
/// Failures keep their stage: discovery failures come back as
/// `NoRegistrar` or `DiscoveryError` (and the ring is never touched),
/// mapping and attach failures as `RingAttachError`.
pub fn attach_consumer(ring_buffer_file: &str, portman_port: u16, pid: u32) -> (r: Result<
    PendingRegistration,
    Error,
>)
    ensures
        r matches Ok(p) ==> {
            &&& p.client is Consumer
            &&& p.role is Consumer
            &&& p.request@ == connect_request_chars(base_name(ring_buffer_file@), p.role, pid)
        },
        r matches Err(e) ==> (e is NoRegistrar || e is DiscoveryError || e is RingAttachError),
{
    let resolver = ServiceResolver { portman_port };
    let registrar_port = match resolver.get_ringmaster_port() {
        Ok(port) => port,
        Err(e) => {
            return Err(e);
        },
    };
    let map = match map_ring(ring_buffer_file) {
        Ok(m) => m,
        Err(detail) => {
            return Err(Error::RingAttachError(detail));
        },
    };
    let channel = match attach_consumer_channel(map) {
        Ok(c) => c,
        Err(detail) => {
            return Err(Error::RingAttachError(detail));
        },
    };
    let slot = channel.get_index();
    let role = Role::Consumer(slot);
    let ring = ring_name(ring_buffer_file);
    let request = connect_request(ring.as_str(), role, pid);
    Ok(
        PendingRegistration {
            client: ClientType::Consumer(channel),
            registrar_port,
            role,
            request,
        },
    )
}

/// Attach to the ring buffer file as the producer and prepare the
/// registration, exactly as [`attach_consumer`] does for a consumer; the
/// producer role carries no slot.
pub fn attach_producer(ring_buffer_file: &str, portman_port: u16, pid: u32) -> (r: Result<
    PendingRegistration,
    Error,
>)
    ensures
        r matches Ok(p) ==> {
            &&& p.client is Producer
            &&& p.role is Producer
            &&& p.request@ == connect_request_chars(base_name(ring_buffer_file@), p.role, pid)
        },
        r matches Err(e) ==> (e is NoRegistrar || e is DiscoveryError || e is RingAttachError),
{
    let resolver = ServiceResolver { portman_port };
    let registrar_port = match resolver.get_ringmaster_port() {
        Ok(port) => port,
        Err(e) => {
            return Err(e);
        },
    };
    let map = match map_ring(ring_buffer_file) {
        Ok(m) => m,
        Err(detail) => {
            return Err(Error::RingAttachError(detail));
        },
    };
    let channel = match attach_producer_channel(map) {
        Ok(p) => p,
        Err(detail) => {
            return Err(Error::RingAttachError(detail));
        },
    };
    let ring = ring_name(ring_buffer_file);
    let request = connect_request(ring.as_str(), Role::Producer, pid);
    Ok(
        PendingRegistration {
            client: ClientType::Producer(channel),
            registrar_port,
            role: Role::Producer,
            request,
        },
    )
}

} // verus!
