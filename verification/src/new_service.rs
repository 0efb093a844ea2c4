//! Factories that turn a routing target into a ready request handler.
//!
//! A factory never blocks and never fails: a target for which no handler
//! can be made must not be constructible in the first place.

use crate::future_service::{FutureService, Oneshot};
use vstd::prelude::*;

verus! {

/// Immediately and infallibly creates (usually) a service for a target.
pub trait NewService<T> {
    type Service;

    /// Whether the factory takes `target`. Unless a factory says otherwise,
    /// it takes every target.
    open spec fn accepts(&self, target: T) -> bool {
        true
    }

    /// Whether `service` is a handler that the factory may hand out for
    /// `target`. Unless a factory says otherwise, nothing is known of what
    /// it hands out.
    open spec fn produces(&self, target: T, service: Self::Service) -> bool {
        true
    }

    fn new_service(&self, target: T) -> (service: Self::Service)
        requires
            self.accepts(target),
        ensures
            self.produces(target, service),
    ;
}

/// A capability that makes a service for a target, but not at once: the
/// service is there when the construction that it starts has completed.
pub trait MakeService<T> {
    /// The service that is made.
    type Service;
}

/// A layer that exposes an inner `MakeService` as a `NewService`.
#[derive(Clone, Copy, Debug)]
pub struct FromMakeServiceLayer(pub ());

/// Exposes an inner `MakeService` as a `NewService`.
#[derive(Clone, Copy, Debug)]
pub struct FromMakeService<S> {
    pub make_service: S,
}

/// A factory that hands out copies of one pre-built handler, whatever the
/// target.
#[derive(Debug)]
pub struct NewCloneService<S>(pub S);

// === impl NewService ===

/// Any function from a target to a handler is a factory: it takes the
/// targets that the function takes and hands out what the function returns.
///
/// Verus applies this impl where the function's type is a parameter; to
/// reason about one given closure, call it through a generic function.
impl<F, T, S> NewService<T> for F where F: Fn(T) -> S {
    type Service = S;

    open spec fn accepts(&self, target: T) -> bool {
        call_requires(*self, (target,))
    }

    open spec fn produces(&self, target: T, service: S) -> bool {
        call_ensures(*self, (target,), service)
    }

    fn new_service(&self, target: T) -> (service: S) {
        (self)(target)
    }
}

/// A function used as a factory yields for a target exactly what a direct
/// call of the function on that target yields.
pub proof fn lemma_function_is_factory<F, T, S>(f: F, target: T, service: S) where F: Fn(T) -> S
    ensures
        NewService::<T>::accepts(&f, target) <==> call_requires(f, (target,)),
        NewService::<T>::produces(&f, target, service) <==> call_ensures(f, (target,), service),
{
}

// === impl FromMakeServiceLayer ===

impl Default for FromMakeServiceLayer {
    fn default() -> (layer: Self)
        ensures
            layer == FromMakeServiceLayer(()),
    {
        FromMakeServiceLayer(())
    }
}

impl FromMakeServiceLayer {
    /// Wraps `make_service`.
    pub fn layer<S>(&self, make_service: S) -> (new_service: FromMakeService<S>)
        ensures
            new_service == (FromMakeService { make_service }),
    {
        FromMakeService { make_service }
    }
}

// === impl FromMakeService ===

impl<S> FromMakeService<S> {
    /// The layer that wraps a `MakeService` in a `FromMakeService`.
    pub fn layer() -> (layer: FromMakeServiceLayer)
        ensures
            layer == FromMakeServiceLayer(()),
    {
        FromMakeServiceLayer(())
    }
}

impl<T, S> NewService<T> for FromMakeService<S> where S: MakeService<T> + Clone {
    type Service = FutureService<Oneshot<S, T>, S::Service>;

    open spec fn accepts(&self, target: T) -> bool {
        true
    }

    /// The handler is still to be constructed, by one call of a copy of the
    /// inner `MakeService` with the target.
    open spec fn produces(&self, target: T, service: Self::Service) -> bool {
        service matches FutureService::Future(call) && call.req == target && cloned(
            self.make_service,
            call.svc,
        )
    }

    fn new_service(&self, target: T) -> (service: Self::Service) {
        FutureService::new(Oneshot::new(self.make_service.clone(), target))
    }
}

// === impl NewCloneService ===

impl<S> vstd::std_specs::convert::FromSpecImpl<S> for NewCloneService<S> {
    open spec fn obeys_from_spec() -> bool {
        true
    }

    open spec fn from_spec(inner: S) -> Self {
        NewCloneService(inner)
    }
}

impl<S> From<S> for NewCloneService<S> {
    fn from(inner: S) -> (new_service: Self) {
        NewCloneService(inner)
    }
}

impl<S: Clone> Clone for NewCloneService<S> {
    fn clone(&self) -> (r: Self)
        ensures
            cloned(self.0, r.0),
    {
        NewCloneService(self.0.clone())
    }
}

impl<T, S: Clone> NewService<T> for NewCloneService<S> {
    type Service = S;

    open spec fn accepts(&self, target: T) -> bool {
        true
    }

    open spec fn produces(&self, target: T, service: S) -> bool {
        cloned(self.0, service)
    }

    fn new_service(&self, _target: T) -> (service: S) {
        self.0.clone()
    }
}

/// What a `NewCloneService` hands out does not depend on the target: for
/// any two targets it is a copy of the one handler that the factory holds.
pub proof fn lemma_clone_service_ignores_target<T, S: Clone>(
    new_service: NewCloneService<S>,
    a: T,
    b: T,
    service: S,
)
    ensures
        NewService::<T>::accepts(&new_service, a),
        NewService::<T>::produces(&new_service, a, service) <==> cloned(new_service.0, service),
        NewService::<T>::produces(&new_service, a, service) <==> NewService::<T>::produces(
            &new_service,
            b,
            service,
        ),
{
}

} // verus!
