//! A handler whose construction completes on first use.

use vstd::prelude::*;

verus! {

/// One call of a service with a request, not made yet.
#[derive(Debug)]
pub struct Oneshot<S, Req> {
    pub svc: S,
    pub req: Req,
}

/// A handler that is either still being constructed, by a future `F`, or
/// constructed, as the service `S`.
#[derive(Debug)]
pub enum FutureService<F, S> {
    Future(F),
    Service(S),
}

/// What polling the construction of a handler gave.
#[derive(Debug)]
pub enum Polled<S, E> {
    /// The construction has not completed.
    Pending,
    /// The construction has completed with a service.
    Ready(S),
    /// The construction has failed.
    Failed(E),
}

/// What a `FutureService` answers when asked whether it is ready.
#[derive(Debug)]
pub enum Readiness<E> {
    /// It is not ready: its construction has not completed.
    Pending,
    /// It will not become ready: its construction has failed.
    Failed(E),
    /// It is constructed, and as ready as the service that it holds.
    Inner,
}

impl<S, Req> Oneshot<S, Req> {
    /// The call of `svc` with `req`.
    pub fn new(svc: S, req: Req) -> (call: Self)
        ensures
            call == (Oneshot { svc, req }),
    {
        Oneshot { svc, req }
    }
}

impl<F, S> FutureService<F, S> {
    /// The state after the construction was polled with the given outcome.
    pub open spec fn after<E>(self, polled: Polled<S, E>) -> Self {
        match self {
            FutureService::Future(fut) => match polled {
                Polled::Ready(svc) => FutureService::Service(svc),
                _ => FutureService::Future(fut),
            },
            FutureService::Service(svc) => FutureService::Service(svc),
        }
    }

    /// The answer to a readiness check in which the construction was polled
    /// with the given outcome.
    pub open spec fn answer<E>(self, polled: Polled<S, E>) -> Readiness<E> {
        match self {
            FutureService::Future(_) => match polled {
                Polled::Pending => Readiness::Pending,
                Polled::Ready(_) => Readiness::Inner,
                Polled::Failed(e) => Readiness::Failed(e),
            },
            FutureService::Service(_) => Readiness::Inner,
        }
    }

    /// A handler that `fut` is still to construct.
    pub fn new(fut: F) -> (service: Self)
        ensures
            service == FutureService::<F, S>::Future(fut),
    {
        FutureService::Future(fut)
    }

    /// Whether the handler is constructed, and may be called.
    pub fn is_constructed(&self) -> (r: bool)
        ensures
            r == (self is Service),
    {
        match self {
            FutureService::Future(_) => false,
            FutureService::Service(_) => true,
        }
    }

    /// A readiness check. While the handler is under construction, `polled`
    /// is what polling its future gave: a service constructs the handler,
    /// anything else leaves it as it is. Once constructed, the handler keeps
    /// its service and `polled` is not looked at.
    pub fn poll_ready<E>(self, polled: Polled<S, E>) -> (r: (Self, Readiness<E>))
        ensures
            r.0 == self.after(polled),
            r.1 == self.answer(polled),
    {
        match self {
            FutureService::Future(fut) => match polled {
                Polled::Pending => (FutureService::Future(fut), Readiness::Pending),
                Polled::Ready(svc) => (FutureService::Service(svc), Readiness::Inner),
                Polled::Failed(e) => (FutureService::Future(fut), Readiness::Failed(e)),
            },
            FutureService::Service(svc) => (FutureService::Service(svc), Readiness::Inner),
        }
    }

    /// The constructed service, to call it.
    pub fn service(&self) -> (svc: &S)
        requires
            self is Service,
        ensures
            *self == FutureService::<F, S>::Service(*svc),
    {
        match self {
            FutureService::Service(svc) => svc,
            FutureService::Future(_) => unreached(),
        }
    }
}

/// A handler is constructed after a readiness check exactly when it was
/// constructed before it or the check saw its construction complete; and
/// it answers that it is as ready as its service exactly when it is then
/// constructed.
pub proof fn lemma_constructed_before_called<F, S, E>(service: FutureService<F, S>, polled: Polled<S, E>)
    ensures
        service.after(polled) is Service <==> service is Service || polled is Ready,
        service.answer(polled) is Inner <==> service.after(polled) is Service,
        service is Service ==> service.after(polled) == service,
{
}

} // verus!
