//! The routing targets of a connection, from the accepted connection down
//! to one resolved endpoint.

use crate::addr::{Addr, NameAddr, SocketAddr};
use crate::dns::Name;
use crate::labels::Labels;
use crate::profiles::Profile;
use crate::tls::ConditionalClientTls;
use http::uri::Authority;
use vstd::prelude::*;

verus! {

/// The authority of a URI, of the `http` crate.
#[verifier::external_type_specification]
#[verifier::external_body]
pub struct ExAuthority(Authority);

/// A copy of an authority.
///
/// Trusted: stands for `Authority::clone`, which the `http` crate derives:
/// the copy holds the same text as the authority that was copied.
#[verifier::external_body]
pub(crate) fn clone_authority(authority: &Authority) -> (r: Authority)
    ensures
        r == *authority,
{
    authority.clone()
}

/// Whether a backend is known to speak HTTP/2 where the client spoke HTTP/1.
#[derive(Clone, Copy, Debug, PartialEq, Eq, Hash)]
pub enum ProtocolHint {
    /// Nothing is known: the backend is spoken to as the client spoke.
    Unknown,
    /// The backend multiplexes HTTP/1 requests over an HTTP/2 transport.
    Http2,
}

/// What discovery knows of one endpoint.
#[derive(Debug)]
pub struct Metadata {
    /// The labels of the endpoint, in the order in which discovery gave them.
    pub labels: Labels,
    /// Whether the endpoint is known to speak HTTP/2.
    pub protocol_hint: ProtocolHint,
    /// The identity that the endpoint must present, where it has one.
    pub identity: Option<Name>,
    /// The authority that requests to the endpoint must carry, where
    /// discovery overrides it.
    pub authority_override: Option<Authority>,
}

/// An accepted connection, before anything is known of its destination
/// but the address that the client dialled.
#[derive(Clone, Copy, Debug)]
pub struct Accept<P> {
    pub orig_dst: SocketAddr,
    pub protocol: P,
}

/// A logical destination: the address that the client dialled, what
/// discovery says of it, and the protocol of the connection.
#[derive(Debug)]
pub struct Logical<P> {
    pub orig_dst: SocketAddr,
    pub profile: Option<Profile>,
    pub protocol: P,
}

/// A logical destination narrowed to one set of backends.
#[derive(Debug)]
pub struct Concrete<P> {
    /// The name under which the backends are resolved, if they are.
    pub resolve: Option<Addr>,
    pub logical: Logical<P>,
}

/// One backend of a concrete destination.
#[derive(Debug)]
pub struct Endpoint<P> {
    pub addr: SocketAddr,
    pub tls: ConditionalClientTls,
    pub metadata: Metadata,
    pub concrete: Concrete<P>,
}

impl Metadata {
    /// The metadata of an endpoint.
    pub fn new(
        labels: Labels,
        protocol_hint: ProtocolHint,
        identity: Option<Name>,
        authority_override: Option<Authority>,
    ) -> (m: Metadata)
        ensures
            m.labels == labels,
            m.protocol_hint == protocol_hint,
            m.identity == identity,
            m.authority_override == authority_override,
    {
        Metadata { labels, protocol_hint, identity, authority_override }
    }

    /// The labels of the endpoint.
    pub fn labels(&self) -> (labels: &Labels)
        ensures
            *labels == self.labels,
    {
        &self.labels
    }

    /// Whether the endpoint is known to speak HTTP/2.
    pub fn protocol_hint(&self) -> (hint: ProtocolHint)
        ensures
            hint == self.protocol_hint,
    {
        self.protocol_hint
    }

    /// The identity that the endpoint must present, where it has one.
    pub fn identity(&self) -> (identity: Option<&Name>)
        ensures
            identity == match self.identity {
                Some(id) => Some(&id),
                None => None,
            },
    {
        self.identity.as_ref()
    }

    /// The authority override, where discovery gave one.
    pub fn authority_override(&self) -> (authority: Option<&Authority>)
        ensures
            authority == match self.authority_override {
                Some(a) => Some(&a),
                None => None,
            },
    {
        self.authority_override.as_ref()
    }
}

impl<P> Logical<P> {
    /// Whether the names in the target are well-formed. They are in every
    /// target that exists at run time.
    pub open spec fn wf(&self) -> bool {
        self.addr_of().wf()
    }

    /// The canonical address of the destination: the name that discovery
    /// gives it, with the port that the client dialled; without such a
    /// name, the address that the client dialled.
    pub open spec fn addr_of(&self) -> Addr {
        match self.profile {
            Some(Profile { name: Some(name) }) => Addr::Name(
                NameAddr { name, port: self.orig_dst.port },
            ),
            _ => Addr::Socket(self.orig_dst),
        }
    }

    /// The canonical address of the destination.
    #[verifier::when_used_as_spec(addr_of)]
    pub fn addr(&self) -> (addr: Addr)
        ensures
            addr == self.addr_of(),
    {
        match &self.profile {
            Some(Profile { name: Some(name) }) => Addr::Name(
                NameAddr::new(name.clone(), self.orig_dst.port()),
            ),
            _ => Addr::Socket(self.orig_dst),
        }
    }
}

} // verus!
