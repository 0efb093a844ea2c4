use http::header::HeaderValue;
use http::uri::Authority;
use indexmap::IndexMap;
use linkerd_app::addr::{Addr, IpAddr, Ipv4Addr, Ipv6Addr, NameAddr, SocketAddr};
use linkerd_app::dns::Name;
use linkerd_app::dst::{Direction, Route};
use linkerd_app::header::{header_text, NotText};
use linkerd_app::outbound::{
    CanOverrideAuthority, Concrete, Endpoint, Logical, SessionProtocol, Settings, Version,
};
use linkerd_app::param::Param;
use linkerd_app::profiles;
use linkerd_app::profiles::Profile;
use linkerd_app::tap::{ClientHandle, Extensions, Inspect};
use linkerd_app::target;
use linkerd_app::target::{Metadata, ProtocolHint};
use linkerd_app::tls::{ClientTls, Conditional, NoClientTls, NoServerTls};
use std::sync::Arc;

fn orig_dst() -> SocketAddr {
    SocketAddr::new(IpAddr::V4(Ipv4Addr::new(10, 0, 0, 1)), 8080)
}

fn labels(pairs: &[(&str, &str)]) -> IndexMap<String, String> {
    let mut map = IndexMap::new();
    for (k, v) in pairs {
        map.insert(k.to_string(), v.to_string());
    }
    map
}

fn logical(protocol: Version, name: Option<&str>) -> Logical {
    let profile = name.map(|n| Profile { name: Some(Name::try_from_str(n).unwrap()) });
    Logical { orig_dst: orig_dst(), profile, protocol }
}

fn endpoint(protocol: Version, hint: ProtocolHint) -> Endpoint {
    Endpoint {
        addr: SocketAddr::new(IpAddr::V4(Ipv4Addr::new(10, 0, 0, 7)), 8081),
        tls: Conditional::Absent(NoClientTls::NotProvidedByServiceDiscovery),
        metadata: Metadata::new(labels(&[("pod", "web-0"), ("zone", "a")]), hint, None, None),
        concrete: Concrete { resolve: None, logical: logical(protocol, None) },
    }
}

fn settings(ep: &Endpoint) -> Settings {
    ep.param()
}

fn session(ep: &Endpoint) -> Option<SessionProtocol> {
    ep.param()
}

#[test]
fn h2_requires_h2_whatever_the_hint() {
    for hint in [ProtocolHint::Unknown, ProtocolHint::Http2] {
        let ep = endpoint(Version::H2, hint);
        assert_eq!(settings(&ep), Settings::H2);
        assert_eq!(session(&ep), Some(SessionProtocol::Http2));
    }
}

#[test]
fn http1_without_hint_stays_http1() {
    let ep = endpoint(Version::Http1, ProtocolHint::Unknown);
    assert_eq!(settings(&ep), Settings::Http1);
    assert_eq!(session(&ep), Some(SessionProtocol::Http1));
}

#[test]
fn http1_with_hint_is_upgraded() {
    let ep = endpoint(Version::Http1, ProtocolHint::Http2);
    assert_eq!(settings(&ep), Settings::OrigProtoUpgrade);
    assert_eq!(session(&ep), Some(SessionProtocol::Http2));
}

#[test]
fn hinted_http1_endpoint_scenario() {
    let ep = endpoint(Version::Http1, ProtocolHint::Http2);
    assert_eq!(settings(&ep), Settings::OrigProtoUpgrade);
    assert_eq!(session(&ep), Some(SessionProtocol::Http2));
    let header = HeaderValue::from(&ep.concrete.logical);
    assert_eq!(header.as_bytes(), b"10.0.0.1:8080");
    assert_eq!(header.to_str().unwrap(), "10.0.0.1:8080");
}

#[test]
fn canonical_dst_header_reads_back_as_the_address() {
    let targets = [
        logical(Version::Http1, None),
        logical(Version::H2, Some("web.default.svc.cluster.local")),
        Logical {
            orig_dst: SocketAddr::new(
                IpAddr::V6(Ipv6Addr::new([0x2001, 0xdb8, 0, 0, 0, 0, 0, 1])),
                443,
            ),
            profile: Some(Profile { name: None }),
            protocol: Version::Http1,
        },
    ];
    let texts = ["10.0.0.1:8080", "web.default.svc.cluster.local:8080", "[2001:db8::1]:443"];
    for (target, text) in targets.iter().zip(texts) {
        let header = HeaderValue::from(target);
        assert_eq!(target.addr().to_string(), text);
        assert_eq!(header_text(&header), Ok(text.to_string()));
    }
}

#[test]
fn opaque_header_is_not_text() {
    let opaque = HeaderValue::from_bytes(b"caf\xe9").unwrap();
    assert_eq!(header_text(&opaque), Err(NotText));
    let del = HeaderValue::from_bytes(b"a\x80").unwrap();
    assert_eq!(header_text(&del), Err(NotText));
    let tabbed = HeaderValue::from_bytes(b"a\tb").unwrap();
    assert_eq!(header_text(&tabbed), Ok("a\tb".to_string()));
}

#[test]
fn logical_addr_prefers_the_profile_name() {
    let named = logical(Version::Http1, Some("web.example"));
    let name = Name::try_from_str("web.example").unwrap();
    assert_eq!(named.addr(), Addr::Name(NameAddr::new(name, 8080)));
    let unnamed = Logical {
        orig_dst: orig_dst(),
        profile: Some(Profile { name: None }),
        protocol: Version::Http1,
    };
    assert_eq!(unnamed.addr(), Addr::Socket(orig_dst()));
    assert_eq!(logical(Version::H2, None).addr(), Addr::Socket(orig_dst()));
}

#[test]
fn http_logical_from_tcp_logical_keeps_destination_and_profile() {
    let tcp = target::Logical {
        orig_dst: orig_dst(),
        profile: Some(Profile { name: Some(Name::try_from_str("web.example").unwrap()) }),
        protocol: (),
    };
    let http = Logical::from((Version::H2, tcp));
    assert_eq!(http.protocol, Version::H2);
    assert_eq!(http.orig_dst, orig_dst());
    assert_eq!(http.profile.unwrap().name.unwrap().as_str(), "web.example");
}

#[test]
fn mk_route_pairs_route_with_canonical_address_outbound() {
    let shared = Arc::new(labels(&[("route", "get-books")]));
    let route = profiles::Route::new(shared.clone());
    let dst: Route = Logical::mk_route((route, logical(Version::Http1, Some("books.example"))));
    assert_eq!(dst.direction, Direction::Out);
    assert_eq!(dst.target.to_string(), "books.example:8080");
    assert!(Arc::ptr_eq(dst.route.labels(), &shared));
    let copy = dst.clone();
    assert!(Arc::ptr_eq(&copy.route.labels, &shared));
    assert_eq!(copy.target, dst.target);
    assert_eq!(copy.direction, Direction::Out);

    let unnamed: Route = Logical::mk_route((
        profiles::Route::new(Arc::new(IndexMap::new())),
        logical(Version::H2, None),
    ));
    assert_eq!(unnamed.target, Addr::Socket(orig_dst()));
    assert_eq!(unnamed.direction, Direction::Out);
}

#[test]
fn authority_override_is_exposed_when_present() {
    let mut ep = endpoint(Version::Http1, ProtocolHint::Unknown);
    assert_eq!(ep.override_authority(), None);
    let authority = Authority::from_static("books.example:7000");
    ep.metadata = Metadata::new(
        IndexMap::new(),
        ProtocolHint::Unknown,
        None,
        Some(authority.clone()),
    );
    assert_eq!(ep.override_authority(), Some(authority));
    assert_eq!(ep.metadata.authority_override().unwrap().as_str(), "books.example:7000");
}

#[test]
fn metadata_accessors_give_what_was_set() {
    let id = Name::try_from_str("web.identity.example").unwrap();
    let m = Metadata::new(
        labels(&[("a", "1"), ("b", "2")]),
        ProtocolHint::Http2,
        Some(id.clone()),
        None,
    );
    assert_eq!(m.protocol_hint(), ProtocolHint::Http2);
    assert_eq!(m.identity(), Some(&id));
    assert!(m.authority_override().is_none());
    let keys: Vec<&str> = m.labels().keys().map(|k| k.as_str()).collect();
    assert_eq!(keys, vec!["a", "b"]);
}

#[test]
fn inspect_reports_absent_metadata_as_absent() {
    let ep = endpoint(Version::Http1, ProtocolHint::Unknown);
    let req = Extensions::new();
    assert_eq!(ep.src_addr(&req), None);
    assert!(ep.route_labels(&req).is_none());
    assert_eq!(ep.src_tls(&req), Conditional::Absent(NoServerTls::Loopback));
    assert_eq!(ep.dst_addr(&req), Some(ep.addr));
    assert!(ep.is_outbound(&req));
}

#[test]
fn inspect_reads_attached_metadata() {
    let ep = Endpoint {
        tls: Conditional::Present(ClientTls {
            server_id: Name::try_from_str("web.identity.example").unwrap(),
        }),
        ..endpoint(Version::H2, ProtocolHint::Http2)
    };
    let client = SocketAddr::new(IpAddr::V4(Ipv4Addr::new(127, 0, 0, 1)), 51234);
    let shared = Arc::new(labels(&[("route", "get-books")]));
    let req = Extensions {
        client: Some(ClientHandle { addr: client }),
        route: Some(Logical::mk_route((
            profiles::Route::new(shared.clone()),
            logical(Version::H2, None),
        ))),
    };
    assert_eq!(ep.src_addr(&req), Some(client));
    assert_eq!(ep.src_tls(&req), Conditional::Absent(NoServerTls::Loopback));
    assert_eq!(ep.dst_addr(&req), Some(ep.addr));
    let dst_labels = ep.dst_labels(&req).unwrap();
    let pairs: Vec<(&str, &str)> =
        dst_labels.iter().map(|(k, v)| (k.as_str(), v.as_str())).collect();
    assert_eq!(pairs, vec![("pod", "web-0"), ("zone", "a")]);
    assert_eq!(ep.dst_tls(&req), ep.tls);
    assert!(ep.dst_tls(&req).is_present());
    let route_labels = ep.route_labels(&req).unwrap();
    assert!(Arc::ptr_eq(&route_labels, &shared));
    assert_eq!(route_labels.get("route").map(|v| v.as_str()), Some("get-books"));
    assert!(ep.is_outbound(&req));
}

#[test]
fn conditional_clone_keeps_the_reason() {
    let none: Conditional<ClientTls, NoClientTls> = Conditional::Absent(NoClientTls::Loopback);
    assert_eq!(none.clone(), Conditional::Absent(NoClientTls::Loopback));
    assert!(!none.is_present());
}
