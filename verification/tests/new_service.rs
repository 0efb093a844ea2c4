use linkerd_app::future_service::{FutureService, Oneshot, Polled, Readiness};
use linkerd_app::new_service::{
    FromMakeService, FromMakeServiceLayer, MakeService, NewCloneService, NewService,
};
use std::sync::Arc;

#[derive(Clone, Debug, PartialEq)]
struct Connect {
    retries: u8,
}

impl MakeService<u16> for Connect {
    type Service = String;
}

fn handler_for(port: u16) -> String {
    format!("handler:{}", port)
}

fn through_factory<N: NewService<u16>>(new: &N, target: u16) -> N::Service {
    new.new_service(target)
}

#[test]
fn function_is_a_factory() {
    assert_eq!(handler_for.new_service(8080), handler_for(8080));
    assert_eq!(through_factory(&handler_for, 80), "handler:80");
}

#[test]
fn closure_over_data_is_a_factory() {
    let prefix = String::from("svc");
    let make = |target: u16| format!("{}-{}", prefix, target);
    for target in [0u16, 1, 443, 65535] {
        assert_eq!(through_factory(&make, target), make(target));
    }
}

#[test]
fn clone_service_ignores_the_target() {
    let shared = Arc::new(String::from("handler"));
    let new = NewCloneService::from(shared.clone());
    let a: Arc<String> = new.new_service(1u16);
    let b: Arc<String> = new.new_service(2u16);
    assert_eq!(a, b);
    assert!(Arc::ptr_eq(&a, &shared));
    assert!(Arc::ptr_eq(&b, &shared));
}

#[test]
fn clone_service_hands_out_independent_copies() {
    let new = NewCloneService::from(vec![1u8, 2, 3]);
    let mut a: Vec<u8> = new.new_service("a");
    let b: Vec<u8> = new.new_service("b");
    a.push(4);
    assert_eq!(a, vec![1, 2, 3, 4]);
    assert_eq!(b, vec![1, 2, 3]);
    let again: Vec<u8> = new.clone().new_service("c");
    assert_eq!(again, vec![1, 2, 3]);
}

#[test]
fn layer_wraps_a_make_service() {
    let layer: FromMakeServiceLayer = FromMakeService::<Connect>::layer();
    let wrapped = layer.layer(Connect { retries: 3 });
    assert_eq!(wrapped.make_service, Connect { retries: 3 });
    let by_default = FromMakeServiceLayer::default().layer(Connect { retries: 1 });
    assert_eq!(by_default.make_service, Connect { retries: 1 });
}

#[test]
fn from_make_service_defers_construction() {
    let new = FromMakeService::<Connect>::layer().layer(Connect { retries: 2 });
    let service = new.new_service(8080u16);
    assert!(!service.is_constructed());
    match &service {
        FutureService::Future(Oneshot { svc, req }) => {
            assert_eq!(*svc, Connect { retries: 2 });
            assert_eq!(*req, 8080);
        }
        FutureService::Service(_) => panic!("constructed before it was polled"),
    }

    let (service, answer) = service.poll_ready(Polled::<String, ()>::Pending);
    assert!(matches!(answer, Readiness::Pending));
    assert!(!service.is_constructed());

    let (service, answer) = service.poll_ready(Polled::<String, ()>::Ready("conn".to_string()));
    assert!(matches!(answer, Readiness::Inner));
    assert!(service.is_constructed());
    assert_eq!(service.service(), "conn");
}

#[test]
fn failed_construction_leaves_the_handler_unconstructed() {
    let service: FutureService<Oneshot<Connect, u16>, String> =
        FutureService::new(Oneshot::new(Connect { retries: 0 }, 1));
    let (service, answer) = service.poll_ready(Polled::Failed("refused"));
    assert!(matches!(answer, Readiness::Failed("refused")));
    assert!(!service.is_constructed());
}

#[test]
fn constructed_handler_keeps_its_service() {
    let service: FutureService<(), String> = FutureService::Service("first".to_string());
    let (service, answer) = service.poll_ready(Polled::<String, ()>::Ready("second".to_string()));
    assert!(matches!(answer, Readiness::Inner));
    assert_eq!(service.service(), "first");
    let (service, answer) = service.poll_ready(Polled::<String, ()>::Failed(()));
    assert!(matches!(answer, Readiness::Inner));
    assert_eq!(service.service(), "first");
}

struct PerPort;

impl NewService<u16> for PerPort {
    type Service = (u16, bool);

    fn new_service(&self, port: u16) -> (u16, bool) {
        (port, port == 443)
    }
}

#[test]
fn factory_of_its_own_type_is_used_like_any_other() {
    assert_eq!(through_factory(&PerPort, 443), (443, true));
    assert_eq!(through_factory(&PerPort, 80), (80, false));
}
