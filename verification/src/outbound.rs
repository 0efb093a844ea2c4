//! Outbound HTTP targets: the protocol settings, header values and tap
//! metadata that follow from a resolved destination.

use crate::addr::{lemma_addr_text_visible, SocketAddr};
use crate::control::ServerConfig;
use crate::dst::{Direction, Route};
use crate::header::{
    header_bytes, header_from_str, header_of_text, lemma_visible_text_round_trip, text_of_header,
};
use crate::labels::{share_labels, Labels};
use crate::param::Param;
use crate::profiles;
use crate::target;
use crate::target::{clone_authority, ProtocolHint};
use crate::tap::{Extensions, Inspect};
use crate::tls::{Conditional, ConditionalClientTls, ConditionalServerTls, NoServerTls};
use http::header::HeaderValue;
use http::uri::Authority;
use std::sync::Arc;
use vstd::prelude::*;

verus! {

/// The HTTP version of a connection, as detected when it was accepted.
#[derive(Clone, Copy, Debug, PartialEq, Eq, Hash)]
pub enum Version {
    Http1,
    H2,
}

/// How an HTTP client speaks to an endpoint.
#[derive(Clone, Copy, Debug, PartialEq, Eq, Hash)]
pub enum Settings {
    /// Plain HTTP/1.
    Http1,
    /// HTTP/2 is required.
    H2,
    /// HTTP/1 requests carried over an upgraded HTTP/2 transport.
    OrigProtoUpgrade,
}

/// The protocol of a transport session.
#[derive(Clone, Copy, Debug, PartialEq, Eq, Hash)]
pub enum SessionProtocol {
    Http1,
    Http2,
}

pub type Accept = target::Accept<Version>;

pub type Logical = target::Logical<Version>;

pub type Concrete = target::Concrete<Version>;

pub type Endpoint = target::Endpoint<Version>;

/// The client settings for a connection of the given version to an
/// endpoint with the given hint.
pub open spec fn client_settings(protocol: Version, hint: ProtocolHint) -> Settings {
    match protocol {
        Version::H2 => Settings::H2,
        Version::Http1 => match hint {
            ProtocolHint::Unknown => Settings::Http1,
            ProtocolHint::Http2 => Settings::OrigProtoUpgrade,
        },
    }
}

/// The session protocol for a connection of the given version to an
/// endpoint with the given hint.
pub open spec fn session_protocol(protocol: Version, hint: ProtocolHint) -> SessionProtocol {
    match protocol {
        Version::H2 => SessionProtocol::Http2,
        Version::Http1 => match hint {
            ProtocolHint::Http2 => SessionProtocol::Http2,
            ProtocolHint::Unknown => SessionProtocol::Http1,
        },
    }
}

impl Param<Settings> for Endpoint {
    open spec fn param_of(&self) -> Settings {
        client_settings(self.concrete.logical.protocol, self.metadata.protocol_hint)
    }

    /// The client settings of the endpoint, which are `param_of`: HTTP/2
    /// where the connection is HTTP/2; else an upgrade where the endpoint is
    /// hinted to speak HTTP/2, and plain HTTP/1 where it is not.
    fn param(&self) -> (settings: Settings) {
        match self.concrete.logical.protocol {
            Version::H2 => Settings::H2,
            Version::Http1 => match self.metadata.protocol_hint() {
                ProtocolHint::Unknown => Settings::Http1,
                ProtocolHint::Http2 => Settings::OrigProtoUpgrade,
            },
        }
    }
}

impl Param<Option<SessionProtocol>> for Endpoint {
    open spec fn param_of(&self) -> Option<SessionProtocol> {
        Some(session_protocol(self.concrete.logical.protocol, self.metadata.protocol_hint))
    }

    /// The session protocol of the endpoint, which is `param_of`: HTTP/2
    /// where the connection is HTTP/2 or the endpoint is hinted to speak it,
    /// else HTTP/1.
    fn param(&self) -> (session: Option<SessionProtocol>) {
        match self.concrete.logical.protocol {
            Version::H2 => Some(SessionProtocol::Http2),
            Version::Http1 => match self.metadata.protocol_hint() {
                ProtocolHint::Http2 => Some(SessionProtocol::Http2),
                ProtocolHint::Unknown => Some(SessionProtocol::Http1),
            },
        }
    }
}

/// A connection that was accepted as HTTP/2 is spoken to in HTTP/2,
/// whatever is known of the endpoint.
pub proof fn lemma_h2_settings(endpoint: Endpoint)
    requires
        endpoint.concrete.logical.protocol is H2,
    ensures
        Param::<Settings>::param_of(&endpoint) == Settings::H2,
        Param::<Option<SessionProtocol>>::param_of(&endpoint) == Some(SessionProtocol::Http2),
{
}

/// An HTTP/1 connection to an endpoint of which nothing is known stays
/// plain HTTP/1, in its settings and in its session.
pub proof fn lemma_http1_unknown_settings(endpoint: Endpoint)
    requires
        endpoint.concrete.logical.protocol is Http1,
        endpoint.metadata.protocol_hint is Unknown,
    ensures
        Param::<Settings>::param_of(&endpoint) == Settings::Http1,
        Param::<Option<SessionProtocol>>::param_of(&endpoint) == Some(SessionProtocol::Http1),
{
}

/// An HTTP/1 connection to an endpoint that is hinted to speak HTTP/2 is
/// upgraded: HTTP/1 requests over an HTTP/2 session.
pub proof fn lemma_http1_hinted_settings(endpoint: Endpoint)
    requires
        endpoint.concrete.logical.protocol is Http1,
        endpoint.metadata.protocol_hint is Http2,
    ensures
        Param::<Settings>::param_of(&endpoint) == Settings::OrigProtoUpgrade,
        Param::<Option<SessionProtocol>>::param_of(&endpoint) == Some(SessionProtocol::Http2),
{
}

impl vstd::std_specs::convert::FromSpecImpl<(Version, target::Logical<()>)> for Logical {
    open spec fn obeys_from_spec() -> bool {
        true
    }

    open spec fn from_spec(v: (Version, target::Logical<()>)) -> Logical {
        target::Logical { protocol: v.0, orig_dst: v.1.orig_dst, profile: v.1.profile }
    }
}

impl From<(Version, target::Logical<()>)> for Logical {
    /// The HTTP target of a connection whose version was detected: the same
    /// destination and profile, marked with the version.
    fn from(v: (Version, target::Logical<()>)) -> (logical: Logical) {
        let (protocol, logical) = v;
        target::Logical { protocol, orig_dst: logical.orig_dst, profile: logical.profile }
    }
}

impl Logical {
    /// The route of an outbound request: the policy route, under the
    /// canonical address of the logical destination that owns it.
    pub fn mk_route(pair: (profiles::Route, Logical)) -> (route: Route)
        ensures
            route == (Route {
                route: pair.0,
                target: pair.1.addr_of(),
                direction: Direction::Out,
            }),
    {
        let (route, logical) = pair;
        Route { route, target: logical.addr(), direction: Direction::Out }
    }
}

impl<'a> vstd::std_specs::convert::FromSpecImpl<&'a Logical> for HeaderValue {
    open spec fn obeys_from_spec() -> bool {
        false
    }

    open spec fn from_spec(v: &'a Logical) -> HeaderValue {
        arbitrary()
    }
}

impl<'a> From<&'a Logical> for HeaderValue {
    /// The value of the canonical-destination header: the canonical address
    /// of the logical destination, in authority form. The text of an address
    /// is always fit for a header, so there is no failure to report.
    fn from(target: &'a Logical) -> (value: HeaderValue)
        ensures
            Some(header_bytes(value)) == header_of_text(target.addr_of().text()),
    {
        let addr = target.addr();
        let text = addr.to_string();
        proof {
            lemma_addr_text_visible(addr);
            lemma_visible_text_round_trip(addr.text());
        }
        match header_from_str(text.as_str()) {
            Ok(value) => value,
            Err(_) => unreached(),
        }
    }
}

/// The canonical-destination header of a well-formed logical destination
/// reads back as the text of its canonical address.
pub proof fn lemma_canonical_dst_round_trip(logical: Logical)
    requires
        logical.wf(),
    ensures
        header_of_text(logical.addr_of().text()) matches Some(bytes) && text_of_header(bytes)
            == Some(logical.addr_of().text()),
{
    lemma_addr_text_visible(logical.addr_of());
    lemma_visible_text_round_trip(logical.addr_of().text());
}

/// A target that may say which authority requests to it must carry.
pub trait CanOverrideAuthority {
    /// The authority that overrides the one of the request, if any does.
    fn override_authority(&self) -> Option<Authority>;
}

impl CanOverrideAuthority for Endpoint {
    fn override_authority(&self) -> (authority: Option<Authority>)
        ensures
            authority == self.metadata.authority_override,
    {
        match self.metadata.authority_override() {
            Some(a) => Some(clone_authority(a)),
            None => None,
        }
    }
}

impl Inspect for Endpoint {
    fn src_addr(&self, req: &Extensions) -> (addr: Option<SocketAddr>)
        ensures
            addr == match req.client {
                Some(client) => Some(client.addr),
                None => None,
            },
    {
        match &req.client {
            Some(client) => Some(client.addr),
            None => None,
        }
    }

    fn src_tls(&self, _req: &Extensions) -> (tls: ConditionalServerTls)
        ensures
            tls == ConditionalServerTls::Absent(NoServerTls::Loopback),
    {
        Conditional::Absent(NoServerTls::Loopback)
    }

    fn dst_addr(&self, _req: &Extensions) -> (addr: Option<SocketAddr>)
        ensures
            addr == Some(self.addr),
    {
        Some(self.addr)
    }

    fn dst_labels<'a>(&'a self, _req: &Extensions) -> (labels: Option<&'a Labels>)
        ensures
            labels == Some(&self.metadata.labels),
    {
        Some(self.metadata.labels())
    }

    fn dst_tls(&self, _req: &Extensions) -> (tls: ConditionalClientTls)
        ensures
            tls == self.tls,
    {
        self.tls.clone()
    }

    fn route_labels(&self, req: &Extensions) -> (labels: Option<Arc<Labels>>)
        ensures
            labels == match req.route {
                Some(route) => Some(route.route.labels),
                None => None,
            },
    {
        match &req.route {
            Some(route) => Some(share_labels(route.route.labels())),
            None => None,
        }
    }

    fn is_outbound(&self, _req: &Extensions) -> (outbound: bool)
        ensures
            outbound,
    {
        true
    }
}

/// The settings of the outbound proxy.
#[derive(Clone, Copy, Debug)]
pub struct Config {
    pub server: ServerConfig,
}

/// One layer of an outbound stack.
#[derive(Clone, Copy, Debug, PartialEq, Eq)]
pub enum Layer {
    /// Opens TCP connections.
    TcpConnect,
    /// Dials one endpoint, with TLS where the endpoint asks for it.
    TcpEndpoint,
    /// Forwards a TCP stream to the address that the client dialled.
    TcpForward,
    /// Speaks HTTP to one endpoint.
    HttpEndpoint,
    /// Routes HTTP requests over the endpoints that discovery resolves for a
    /// logical destination.
    HttpLogical,
}

/// An outbound stack under construction: its layers, innermost first.
#[derive(Debug)]
pub struct Outbound {
    pub stack: Vec<Layer>,
}

/// The service that the outbound listener runs.
#[derive(Debug)]
pub enum Server {
    /// Ingress mode: every connection is taken for HTTP and routed by its
    /// request; what is not HTTP is forwarded as it is, and no destination
    /// is looked up by its address.
    Ingress { tcp: Vec<Layer>, http: Vec<Layer> },
    /// Every destination is looked up in discovery by its address, for TCP
    /// and for HTTP.
    Discovery { connect: Vec<Layer> },
}

/// The TCP stack of ingress mode: connections are forwarded blindly.
pub open spec fn ingress_tcp_stack() -> Seq<Layer> {
    seq![Layer::TcpConnect, Layer::TcpEndpoint, Layer::TcpForward]
}

/// The HTTP stack of ingress mode.
pub open spec fn ingress_http_stack() -> Seq<Layer> {
    seq![Layer::TcpConnect, Layer::HttpEndpoint, Layer::HttpLogical]
}

/// The outbound stack that the gateway hands inbound traffic to.
pub open spec fn gateway_stack() -> Seq<Layer> {
    seq![Layer::TcpConnect, Layer::TcpEndpoint, Layer::HttpEndpoint, Layer::HttpLogical]
}

/// Whether `server` is the outbound server of the given mode.
pub open spec fn server_for(ingress_mode: bool, server: Server) -> bool {
    if ingress_mode {
        server matches Server::Ingress { tcp, http } && tcp@ == ingress_tcp_stack() && http@
            == ingress_http_stack()
    } else {
        server matches Server::Discovery { connect } && connect@ == seq![Layer::TcpConnect]
    }
}

impl Outbound {
    /// A stack that only opens TCP connections.
    pub fn new_tcp_connect() -> (outbound: Outbound)
        ensures
            outbound.stack@ == seq![Layer::TcpConnect],
    {
        let mut stack = Vec::new();
        stack.push(Layer::TcpConnect);
        Outbound { stack }
    }

    /// Adds `layer` on top of the stack.
    pub fn push(self, layer: Layer) -> (outbound: Outbound)
        ensures
            outbound.stack@ == self.stack@.push(layer),
    {
        let mut stack = self.stack;
        stack.push(layer);
        Outbound { stack }
    }

    /// Adds the layer that dials an endpoint.
    pub fn push_tcp_endpoint(self) -> (outbound: Outbound)
        ensures
            outbound.stack@ == self.stack@.push(Layer::TcpEndpoint),
    {
        self.push(Layer::TcpEndpoint)
    }

    /// Adds the layer that forwards TCP streams.
    pub fn push_tcp_forward(self) -> (outbound: Outbound)
        ensures
            outbound.stack@ == self.stack@.push(Layer::TcpForward),
    {
        self.push(Layer::TcpForward)
    }

    /// Adds the layer that speaks HTTP to an endpoint.
    pub fn push_http_endpoint(self) -> (outbound: Outbound)
        ensures
            outbound.stack@ == self.stack@.push(Layer::HttpEndpoint),
    {
        self.push(Layer::HttpEndpoint)
    }

    /// Adds the layer that routes HTTP by logical destination.
    pub fn push_http_logical(self) -> (outbound: Outbound)
        ensures
            outbound.stack@ == self.stack@.push(Layer::HttpLogical),
    {
        self.push(Layer::HttpLogical)
    }

    /// The layers of the stack.
    pub fn into_inner(self) -> (stack: Vec<Layer>)
        ensures
            stack == self.stack,
    {
        self.stack
    }
}

impl Server {
    /// The outbound server: the ingress server in ingress mode, else the
    /// server that discovers every destination.
    pub fn assemble(ingress_mode: bool) -> (server: Server)
        ensures
            server_for(ingress_mode, server),
            ingress_mode <==> server is Ingress,
    {
        if ingress_mode {
            let tcp = Outbound::new_tcp_connect().push_tcp_endpoint().push_tcp_forward().into_inner();
            let http =
                Outbound::new_tcp_connect().push_http_endpoint().push_http_logical().into_inner();
            assert(tcp@ =~= ingress_tcp_stack());
            assert(http@ =~= ingress_http_stack());
            Server::Ingress { tcp, http }
        } else {
            Server::Discovery { connect: Outbound::new_tcp_connect().into_inner() }
        }
    }

    /// Whether TCP destinations are looked up in discovery.
    pub fn discovers_tcp(&self) -> (r: bool)
        ensures
            r == (self is Discovery),
    {
        match self {
            Server::Ingress { .. } => false,
            Server::Discovery { .. } => true,
        }
    }
}

/// The outbound stack of the gateway.
pub fn gateway_outbound() -> (stack: Vec<Layer>)
    ensures
        stack@ == gateway_stack(),
{
    let stack = Outbound::new_tcp_connect().push_tcp_endpoint().push_http_endpoint()
        .push_http_logical().into_inner();
    assert(stack@ =~= gateway_stack());
    stack
}

} // verus!
