//! What a tap may read of a request and of the connection that carries it.

use crate::addr::SocketAddr;
use crate::control::ServerConfig;
use crate::dst::Route;
use crate::labels::Labels;
use crate::tls::{ConditionalClientTls, ConditionalServerTls};
use std::sync::Arc;
use vstd::prelude::*;

verus! {

/// Whether the tap server runs, and where it listens.
#[derive(Clone, Copy, Debug)]
pub enum Config {
    Disabled,
    Enabled { server: ServerConfig },
}

/// The tap server of a running proxy.
#[derive(Clone, Copy, Debug, PartialEq, Eq)]
pub enum Tap {
    Disabled,
    Enabled { listen_addr: SocketAddr },
}

/// The peer of an accepted connection, as the transport saw it.
#[derive(Clone, Copy, Debug, PartialEq, Eq)]
pub struct ClientHandle {
    pub addr: SocketAddr,
}

/// What earlier layers attached to a request: each part is absent until the
/// layer that knows it has run.
#[derive(Debug)]
pub struct Extensions {
    /// The peer that sent the request.
    pub client: Option<ClientHandle>,
    /// The route that policy chose for the request.
    pub route: Option<Route>,
}

impl Extensions {
    /// Request metadata with nothing attached yet.
    pub fn new() -> (ext: Extensions)
        ensures
            ext.client is None,
            ext.route is None,
    {
        Extensions { client: None, route: None }
    }
}

/// A read-only view of a request's context. No method blocks or fails:
/// what was never attached is reported as absent.
pub trait Inspect {
    /// The address that the request came from.
    fn src_addr(&self, req: &Extensions) -> Option<SocketAddr>;

    /// Whether the proxy terminated TLS for the request.
    fn src_tls(&self, req: &Extensions) -> ConditionalServerTls;

    /// The address that the request goes to.
    fn dst_addr(&self, req: &Extensions) -> Option<SocketAddr>;

    /// The labels of the destination.
    fn dst_labels<'a>(&'a self, req: &Extensions) -> Option<&'a Labels>;

    /// Whether the proxy originates TLS to the destination.
    fn dst_tls(&self, req: &Extensions) -> ConditionalClientTls;

    /// The labels of the route that the request takes.
    fn route_labels(&self, req: &Extensions) -> Option<Arc<Labels>>;

    /// Whether the request leaves the local workload.
    fn is_outbound(&self, req: &Extensions) -> bool;
}

} // verus!
