//! The addresses at which the store service is reached.
//!
//! An address is one of a closed set: a network socket, a socket of the
//! operating system named by a path, or a channel inside the process. A
//! client holds the address it connects to, a server the address it listens
//! on.

use std::path::PathBuf;
use vstd::prelude::*;

verus! {

/// The port of the well-known network address of a store.
pub const DEFAULT_GRPC_PORT: u16 = 4402;

/// A socket address of the internet protocol, version 4.
///
/// The internet address is held as the number that its four bytes spell in
/// network order, so `0` is the address that stands for every interface.
#[derive(Clone, Copy, Debug, PartialEq, Eq, Structural)]
pub struct SocketAddressV4 {
    pub ip: u32,
    pub port: u16,
}

/// A socket address of the internet protocol, version 6.
///
/// The internet address is held as the number that its sixteen bytes spell in
/// network order.
#[derive(Clone, Copy, Debug, PartialEq, Eq, Structural)]
pub struct SocketAddressV6 {
    pub ip: u128,
    pub port: u16,
    pub flowinfo: u32,
    pub scope_id: u32,
}

/// A network socket address: an internet address and a port.
#[derive(Clone, Copy, Debug, PartialEq, Eq, Structural)]
pub enum SocketAddress {
    V4(SocketAddressV4),
    V6(SocketAddressV6),
}

impl SocketAddress {
    /// The version 4 socket address that listens on every interface.
    pub open spec fn spec_unspecified_v4(port: u16) -> SocketAddress {
        SocketAddress::V4(SocketAddressV4 { ip: 0, port })
    }

    /// The version 4 socket address that listens on every interface, at the
    /// given port.
    pub fn unspecified_v4(port: u16) -> (r: SocketAddress)
        ensures
            r == Self::spec_unspecified_v4(port),
    {
        SocketAddress::V4(SocketAddressV4 { ip: 0, port })
    }
}

/// The address at which a client reaches the store.
#[derive(Debug, PartialEq, Eq)]
pub enum StoreClientAddr {
    /// A network socket.
    GrpcHttp2(SocketAddress),
    /// A socket of the operating system, named by its path.
    GrpcUds(PathBuf),
    /// A channel inside the process that client and server share.
    Mem,
}

/// The address at which the store listens.
#[derive(Debug, PartialEq, Eq)]
pub enum StoreServerAddr {
    /// A network socket.
    GrpcHttp2(SocketAddress),
    /// A socket of the operating system, named by its path.
    GrpcUds(PathBuf),
    /// A channel inside the process that client and server share.
    Mem,
}

impl StoreClientAddr {
    /// Whether the address can be reached from outside the process.
    pub open spec fn is_network(self) -> bool {
        self !is Mem
    }

    /// The address that a server listens on so that a client with this
    /// address reaches it: the same description for a network address, and
    /// none for a channel inside the process.
    pub open spec fn listen_addr(self) -> Option<StoreServerAddr> {
        match self {
            StoreClientAddr::GrpcHttp2(addr) => Some(StoreServerAddr::GrpcHttp2(addr)),
            StoreClientAddr::GrpcUds(path) => Some(StoreServerAddr::GrpcUds(path)),
            StoreClientAddr::Mem => None,
        }
    }

    /// The well-known network address of a store: every interface, at
    /// `DEFAULT_GRPC_PORT`.
    pub open spec fn spec_default_grpc() -> StoreClientAddr {
        StoreClientAddr::GrpcHttp2(SocketAddress::spec_unspecified_v4(DEFAULT_GRPC_PORT))
    }

    /// The well-known network address of a store.
    pub fn default_grpc() -> (r: StoreClientAddr)
        ensures
            r == Self::spec_default_grpc(),
            r.is_network(),
    {
        StoreClientAddr::GrpcHttp2(SocketAddress::unspecified_v4(DEFAULT_GRPC_PORT))
    }
}

impl Clone for StoreClientAddr {
    fn clone(&self) -> (r: Self)
        ensures
            r == *self,
    {
        match self {
            StoreClientAddr::GrpcHttp2(addr) => StoreClientAddr::GrpcHttp2(*addr),
            StoreClientAddr::GrpcUds(path) => StoreClientAddr::GrpcUds(path.clone()),
            StoreClientAddr::Mem => StoreClientAddr::Mem,
        }
    }
}

impl Clone for StoreServerAddr {
    fn clone(&self) -> (r: Self)
        ensures
            r == *self,
    {
        match self {
            StoreServerAddr::GrpcHttp2(addr) => StoreServerAddr::GrpcHttp2(*addr),
            StoreServerAddr::GrpcUds(path) => StoreServerAddr::GrpcUds(path.clone()),
            StoreServerAddr::Mem => StoreServerAddr::Mem,
        }
    }
}

} // verus!
