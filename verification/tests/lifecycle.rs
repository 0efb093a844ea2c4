use linkerd_app::addr::{Addr, IpAddr, Ipv4Addr, NameAddr, SocketAddr};
use linkerd_app::control::{ControlAddr, ServerConfig};
use linkerd_app::dns::Name;
use linkerd_app::identity::LocalCrtKey;
use linkerd_app::lifecycle::{Build, Error, Happening, Outcome, Reaction, Stage, Task};
use linkerd_app::outbound::{Layer, Server};
use linkerd_app::tls::{ClientTls, Conditional, NoClientTls};
use linkerd_app::{admin, dns, dst, gateway, identity, inbound, oc_collector, outbound, tap};
use linkerd_app::{App, Config};

fn sock(last: u8, port: u16) -> SocketAddr {
    SocketAddr::new(IpAddr::V4(Ipv4Addr::new(127, 0, 0, last)), port)
}

fn server(port: u16) -> ServerConfig {
    ServerConfig { bind: sock(1, port) }
}

fn control(name: &str, port: u16) -> ControlAddr {
    ControlAddr {
        addr: Addr::Name(NameAddr::new(Name::try_from_str(name).unwrap(), port)),
        identity: Conditional::Present(ClientTls {
            server_id: Name::try_from_str(name).unwrap(),
        }),
    }
}

fn local() -> LocalCrtKey {
    LocalCrtKey { name: Name::try_from_str("web.identity.example").unwrap() }
}

fn config(ingress_mode: bool, with_identity: bool, with_tap: bool, with_oc: bool) -> Config {
    Config {
        outbound: outbound::Config { server: server(4140) },
        inbound: inbound::Config { server: server(4143) },
        gateway: gateway::Config { allow_discovery: true },
        ingress_mode,
        dns: dns::Config { min_ttl: None, max_ttl: Some(30) },
        identity: if with_identity {
            identity::Config::Enabled {
                control: control("identity.control.example", 8080),
                local_name: Name::try_from_str("web.identity.example").unwrap(),
            }
        } else {
            identity::Config::Disabled
        },
        dst: dst::Config {
            control: ControlAddr {
                addr: Addr::Socket(sock(9, 8086)),
                identity: Conditional::Absent(NoClientTls::Disabled),
            },
        },
        admin: admin::Config { server: server(4191), metrics_retain_idle: 600 },
        tap: if with_tap {
            tap::Config::Enabled { server: server(4190) }
        } else {
            tap::Config::Disabled
        },
        oc_collector: if with_oc {
            oc_collector::Config::Enabled { control: control("collector.example", 55678) }
        } else {
            oc_collector::Config::Disabled
        },
    }
}

fn outcomes(with_identity: bool, with_tap: bool) -> Vec<Outcome> {
    vec![
        Outcome::Built,
        Outcome::Built,
        if with_identity { Outcome::Identity(local()) } else { Outcome::Built },
        if with_tap { Outcome::Bound(sock(2, 4190)) } else { Outcome::Built },
        Outcome::Built,
        Outcome::Built,
        Outcome::Bound(sock(2, 4191)),
        Outcome::Bound(sock(2, 4143)),
        Outcome::Bound(sock(2, 4140)),
    ]
}

fn built(ingress_mode: bool, with_identity: bool, with_tap: bool, with_oc: bool) -> App {
    let mut build = config(ingress_mode, with_identity, with_tap, with_oc).build();
    for outcome in outcomes(with_identity, with_tap) {
        build = build.advance(outcome);
    }
    build.result().unwrap().unwrap()
}

fn failure(build: Build) -> Error {
    build.result().unwrap().unwrap_err()
}

#[test]
fn stages_run_in_order() {
    let order = [
        Stage::Dns,
        Stage::Metrics,
        Stage::Identity,
        Stage::Tap,
        Stage::Dst,
        Stage::OcCollector,
        Stage::Admin,
        Stage::Inbound,
        Stage::Outbound,
    ];
    let mut build = config(false, true, true, true).build();
    for (stage, outcome) in order.iter().zip(outcomes(true, true)) {
        assert_eq!(build.stage(), Some(*stage));
        build = build.advance(outcome);
    }
    assert_eq!(build.stage(), None);
    assert!(matches!(build, Build::Ready(_)));
    assert_eq!(Stage::Dns.next(), Some(Stage::Metrics));
    assert_eq!(Stage::Outbound.next(), None);
}

#[test]
fn unfinished_build_has_no_result() {
    let build = config(false, false, false, false).build();
    assert!(build.result().is_none());
    let build = config(false, false, false, false).build().advance(Outcome::Built);
    assert_eq!(build.stage(), Some(Stage::Metrics));
    assert!(build.result().is_none());
}

#[test]
fn built_app_exposes_the_bound_addresses() {
    let app = built(false, true, true, true);
    assert_eq!(app.admin_addr(), sock(2, 4191));
    assert_eq!(app.inbound_addr(), sock(2, 4143));
    assert_eq!(app.outbound_addr(), sock(2, 4140));
    assert_eq!(app.tap_addr(), Some(sock(2, 4190)));
    assert_eq!(app.dst_addr().addr, Addr::Socket(sock(9, 8086)));
    assert_eq!(app.dst_addr().identity, Conditional::Absent(NoClientTls::Disabled));
    assert_eq!(app.local_identity().unwrap().name.as_str(), "web.identity.example");
    assert_eq!(app.identity_addr().unwrap().addr.to_string(), "identity.control.example:8080");
    assert_eq!(app.opencensus_addr().unwrap().addr.to_string(), "collector.example:55678");
    assert!(app.identity.is_enabled());
    assert!(app.identity.local().is_some());
    assert!(!app.admin.latch.released());
    assert!(!app.drain.is_draining());
    assert_eq!(app.start_proxy.inbound_port, 4143);
}

#[test]
fn disabled_collaborators_have_no_address() {
    let app = built(false, false, false, false);
    assert_eq!(app.tap_addr(), None);
    assert!(app.local_identity().is_none());
    assert!(app.identity_addr().is_none());
    assert!(app.opencensus_addr().is_none());
    assert!(!app.identity.is_enabled());
    assert!(app.admin.latch.released());
    assert_eq!(app.admin_addr(), sock(2, 4191));
}

#[test]
fn ingress_mode_assembles_the_ingress_server() {
    let app = built(true, false, false, false);
    match &app.start_proxy.outbound {
        Server::Ingress { tcp, http } => {
            assert_eq!(*tcp, vec![Layer::TcpConnect, Layer::TcpEndpoint, Layer::TcpForward]);
            assert_eq!(*http, vec![Layer::TcpConnect, Layer::HttpEndpoint, Layer::HttpLogical]);
        }
        Server::Discovery { .. } => panic!("ingress mode built the discovery server"),
    }
    assert!(!app.start_proxy.outbound.discovers_tcp());
    let (_signal, running) = app.spawn();
    assert!(matches!(running.start_proxy.outbound, Server::Ingress { .. }));
}

#[test]
fn default_mode_assembles_the_discovery_server() {
    let app = built(false, false, false, false);
    match &app.start_proxy.outbound {
        Server::Discovery { connect } => assert_eq!(*connect, vec![Layer::TcpConnect]),
        Server::Ingress { .. } => panic!("default mode built the ingress server"),
    }
    assert!(app.start_proxy.outbound.discovers_tcp());
    assert_eq!(
        app.start_proxy.gateway,
        vec![Layer::TcpConnect, Layer::TcpEndpoint, Layer::HttpEndpoint, Layer::HttpLogical]
    );
    let (_signal, running) = app.spawn();
    assert!(matches!(running.start_proxy.outbound, Server::Discovery { .. }));
}

#[test]
fn failure_of_a_stage_aborts_the_build() {
    let build = config(false, false, false, false)
        .build()
        .advance(Outcome::Built)
        .advance(Outcome::Built)
        .advance(Outcome::Built)
        .advance(Outcome::Built)
        .advance(Outcome::Failed("no route to control plane".to_string()));
    assert_eq!(build.stage(), None);
    let build = build.advance(Outcome::Built).advance(Outcome::Bound(sock(2, 1)));
    assert_eq!(
        failure(build),
        Error::Failed { stage: Stage::Dst, reason: "no route to control plane".to_string() }
    );
}

#[test]
fn unbindable_listener_aborts_the_build() {
    let mut build = config(false, false, false, false).build();
    for outcome in outcomes(false, false).into_iter().take(7) {
        build = build.advance(outcome);
    }
    assert_eq!(build.stage(), Some(Stage::Inbound));
    let build = build.advance(Outcome::Failed("address in use".to_string()));
    assert_eq!(
        failure(build),
        Error::Failed { stage: Stage::Inbound, reason: "address in use".to_string() }
    );
}

#[test]
fn first_stage_can_fail() {
    let build = config(true, true, true, true).build().advance(Outcome::Failed("dns".to_string()));
    assert_eq!(failure(build), Error::Failed { stage: Stage::Dns, reason: "dns".to_string() });
}

#[test]
fn report_that_a_stage_cannot_give_is_refused() {
    let bound = config(false, false, false, false).build().advance(Outcome::Bound(sock(1, 1)));
    assert_eq!(failure(bound), Error::Unexpected { stage: Stage::Dns });

    let certified = config(false, false, false, false)
        .build()
        .advance(Outcome::Built)
        .advance(Outcome::Built)
        .advance(Outcome::Identity(local()));
    assert_eq!(failure(certified), Error::Unexpected { stage: Stage::Identity });

    let uncertified = config(false, true, false, false)
        .build()
        .advance(Outcome::Built)
        .advance(Outcome::Built)
        .advance(Outcome::Built);
    assert_eq!(failure(uncertified), Error::Unexpected { stage: Stage::Identity });

    let mut unbound = config(false, false, true, false).build();
    for outcome in outcomes(false, false).into_iter().take(4) {
        unbound = unbound.advance(outcome);
    }
    assert_eq!(failure(unbound), Error::Unexpected { stage: Stage::Tap });

    let mut tapped = config(false, false, false, false).build();
    for outcome in outcomes(false, true).into_iter().take(4) {
        tapped = tapped.advance(outcome);
    }
    assert_eq!(failure(tapped), Error::Unexpected { stage: Stage::Tap });

    let mut admin = config(false, false, false, false).build();
    for outcome in outcomes(false, false).into_iter().take(6) {
        admin = admin.advance(outcome);
    }
    assert_eq!(failure(admin.advance(Outcome::Built)), Error::Unexpected { stage: Stage::Admin });
}

#[test]
fn ready_build_takes_no_further_report() {
    let mut build = config(false, false, false, false).build();
    for outcome in outcomes(false, false) {
        build = build.advance(outcome);
    }
    let build = build.advance(Outcome::Failed("late".to_string()));
    let app = build.result().unwrap().unwrap();
    assert_eq!(app.outbound_addr(), sock(2, 4140));
}

#[test]
fn spawn_without_identity_is_ready_at_once() {
    let (signal, mut running) = built(false, false, false, false).spawn();
    assert!(!signal.is_draining());
    assert_eq!(running.admin, vec![Task::AdminServer]);
    assert!(running.ready());
    assert_eq!(running.handle(Happening::Certified), Reaction::Ignored);
    assert!(running.ready());
}

#[test]
fn spawn_with_identity_waits_for_certification() {
    let (_signal, mut running) = built(false, true, true, true).spawn();
    assert_eq!(
        running.admin,
        vec![
            Task::AdminServer,
            Task::Identity,
            Task::Certification,
            Task::TapClean,
            Task::TapServer,
            Task::OcExport,
        ]
    );
    assert!(!running.ready());
    assert_eq!(running.handle(Happening::Died(Task::TapServer)), Reaction::Logged);
    assert!(!running.ready());
    assert_eq!(running.handle(Happening::Certified), Reaction::Ready);
    assert!(running.ready());
    assert_eq!(running.handle(Happening::Certified), Reaction::Ignored);
    assert!(running.ready());
}

#[test]
fn spawn_starts_only_what_is_enabled() {
    let (_s, tap_only) = built(false, false, true, false).spawn();
    assert_eq!(tap_only.admin, vec![Task::AdminServer, Task::TapClean, Task::TapServer]);
    let (_s, oc_only) = built(false, false, false, true).spawn();
    assert_eq!(oc_only.admin, vec![Task::AdminServer, Task::OcExport]);
}

#[test]
fn dead_listener_is_fatal() {
    let (_signal, mut running) = built(false, true, false, false).spawn();
    assert_eq!(running.handle(Happening::Died(Task::Outbound)), Reaction::Fatal);
    assert_eq!(running.handle(Happening::Died(Task::Inbound)), Reaction::Fatal);
    assert_eq!(running.handle(Happening::Died(Task::AdminServer)), Reaction::Fatal);
    assert_eq!(running.handle(Happening::Died(Task::Certification)), Reaction::Fatal);
    assert!(!running.ready());
    assert_eq!(Task::TapServer.died(), Reaction::Logged);
    assert_eq!(Task::Identity.died(), Reaction::Ignored);
    assert_eq!(Task::TapClean.died(), Reaction::Ignored);
    assert_eq!(Task::OcExport.died(), Reaction::Ignored);
}

#[test]
fn tap_registry_is_swept_once_a_minute() {
    assert_eq!(Task::TapClean.interval(), Some(60));
    assert_eq!(Task::TapServer.interval(), None);
    assert_eq!(Task::AdminServer.interval(), None);
}

#[test]
fn drain_signal_of_a_spawned_app_fires_once() {
    let (mut signal, _running) = built(false, false, false, false).spawn();
    assert!(signal.fire());
    assert!(!signal.fire());
    assert!(signal.watch().signaled());
}
