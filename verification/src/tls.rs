//! Whether a connection carries TLS, and why not where it does not.

use crate::dns::Name;
use vstd::prelude::*;

verus! {

/// A value, or the reason for its absence.
#[derive(Debug, PartialEq, Eq, Hash)]
pub enum Conditional<C, R> {
    Present(C),
    Absent(R),
}

/// Why the proxy does not originate TLS to a peer.
#[derive(Clone, Copy, Debug, PartialEq, Eq, Hash)]
pub enum NoClientTls {
    /// Identity is disabled for the proxy.
    Disabled,
    /// The peer is on the loopback interface.
    Loopback,
    /// Discovery gave no identity for the peer.
    NotProvidedByServiceDiscovery,
    /// An ingress request carried no override for its destination.
    IngressWithoutOverride,
}

/// Why a connection did not terminate TLS at the proxy.
#[derive(Clone, Copy, Debug, PartialEq, Eq, Hash)]
pub enum NoServerTls {
    /// Identity is disabled for the proxy.
    Disabled,
    /// The connection came from the loopback interface.
    Loopback,
    /// The port is exempt from TLS.
    PortSkipped,
    /// The peer sent no TLS hello.
    NoClientHello,
}

/// The identity that a peer must present when the proxy originates TLS.
#[derive(Debug, PartialEq, Eq, Hash)]
pub struct ClientTls {
    pub server_id: Name,
}

/// The identity that a peer presented when the proxy terminated TLS.
#[derive(Debug, PartialEq, Eq, Hash)]
pub struct ServerTls {
    pub client_id: Option<Name>,
}

/// The client-side TLS state of a connection to a peer.
pub type ConditionalClientTls = Conditional<ClientTls, NoClientTls>;

/// The server-side TLS state of an accepted connection.
pub type ConditionalServerTls = Conditional<ServerTls, NoServerTls>;

impl<C, R> Conditional<C, R> {
    /// Whether the value is present.
    pub fn is_present(&self) -> (r: bool)
        ensures
            r == (self is Present),
    {
        match self {
            Conditional::Present(_) => true,
            Conditional::Absent(_) => false,
        }
    }
}

impl<C: Clone, R: Clone> Clone for Conditional<C, R> {
    fn clone(&self) -> (r: Self)
        ensures
            match (*self, r) {
                (Conditional::Present(a), Conditional::Present(b)) => cloned(a, b),
                (Conditional::Absent(a), Conditional::Absent(b)) => cloned(a, b),
                _ => false,
            },
    {
        match self {
            Conditional::Present(c) => Conditional::Present(c.clone()),
            Conditional::Absent(r) => Conditional::Absent(r.clone()),
        }
    }
}

impl Clone for ClientTls {
    fn clone(&self) -> (r: Self)
        ensures
            r == *self,
    {
        ClientTls { server_id: self.server_id.clone() }
    }
}

impl Clone for ServerTls {
    fn clone(&self) -> (r: Self)
        ensures
            r == *self,
    {
        ServerTls {
            client_id: match &self.client_id {
                Some(id) => Some(id.clone()),
                None => None,
            },
        }
    }
}

} // verus!
