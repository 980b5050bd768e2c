//! Bootstrap and transport core of a capability-based RPC microservice:
//! planning of a self-signed TLS server identity, pinned-trust channel
//! establishment, and the two-party RPC session and connection-supervisor
//! state machines. The service method itself is a placeholder (answering a
//! text with the reversed text); sockets, TLS negotiation and the crypto
//! library live in the surrounding I/O layer and hand values in and out as
//! plain data.

pub mod addr;
pub mod cert;
pub mod errors;
pub mod rpc;
pub mod session;
pub mod supervisor;
pub mod trust;

use vstd::prelude::*;
use vstd::string::StringSliceAdditionalSpecFns;
use crate::addr::{parse_socket_addr, spec_parse_addr, SocketAddrV4};
use crate::errors::{Error, ErrorKind};

verus! {

/// The main microservice structure: it holds the socket address, resolved
/// once at construction time and immutable for the life of the instance.
#[derive(Debug)]
pub struct Microservice {
    /// The listening (server) or target (client) endpoint.
    pub socket_addr: SocketAddrV4,
}

impl Microservice {
    /// Create a new microservice instance from a literal `a.b.c.d:port`
    /// address string. Succeeds exactly on the strings the address grammar
    /// accepts; anything else is a configuration error. A host *name* must
    /// be resolved by the surrounding I/O layer, which then constructs the
    /// instance with [`Microservice::from_resolved`].
    pub fn new(address: &str) -> (r: Result<Microservice, Error>)
        ensures
            r matches Ok(m) ==> spec_parse_addr(address.spec_bytes()) == Option::Some(
                m.socket_addr,
            ),
            r is Err <==> spec_parse_addr(address.spec_bytes()) is None,
            r matches Err(e) ==> e.kind == ErrorKind::Config,
    {
        match parse_socket_addr(address) {
            Ok(a) => Ok(Microservice { socket_addr: a }),
            Err(e) => Err(e),
        }
    }

    /// Create a new microservice instance from an address the surrounding
    /// I/O layer already resolved (the first resolution result is used; no
    /// multi-address fallback).
    pub fn from_resolved(socket_addr: SocketAddrV4) -> (m: Microservice)
        ensures
            m.socket_addr == socket_addr,
    {
        Microservice { socket_addr }
    }
}

} // verus!
