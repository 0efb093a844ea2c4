//! Configures and runs the proxy: the order in which a process is built,
//! what becomes of a failure on the way, and what is started when the built
//! process is spawned.

use crate::addr::SocketAddr;
use crate::admin;
use crate::admin::{Admin, Latch};
use crate::control::ControlAddr;
use crate::dns;
use crate::drain;
use crate::drain::Signal;
use crate::dst;
use crate::gateway;
use crate::identity;
use crate::identity::{Identity, LocalCrtKey};
use crate::inbound;
use crate::oc_collector;
use crate::oc_collector::OcCollector;
use crate::outbound;
use crate::outbound::{gateway_outbound, gateway_stack, server_for, Layer, Server};
use crate::tap;
use crate::tap::Tap;
use vstd::prelude::*;

verus! {

/// The settings of a sidecar proxy.
///
/// The proxy binds two listeners: a private one for outbound requests to
/// other instances, and a public one for inbound requests from them.
#[derive(Debug)]
pub struct Config {
    pub outbound: outbound::Config,
    pub inbound: inbound::Config,
    pub gateway: gateway::Config,
    /// In ingress mode every outbound connection is routed as HTTP, and no
    /// destination is looked up by its address. What is not HTTP is
    /// forwarded without discovery, routing or TLS.
    pub ingress_mode: bool,
    pub dns: dns::Config,
    pub identity: identity::Config,
    pub dst: dst::Config,
    pub admin: admin::Config,
    pub tap: tap::Config,
    pub oc_collector: oc_collector::Config,
}

/// The stages of a build, in the order in which they run.
#[derive(Clone, Copy, Debug, PartialEq, Eq, Hash)]
pub enum Stage {
    /// The resolver is made.
    Dns,
    /// The metrics registry is made.
    Metrics,
    /// The identity is made and its certification begun.
    Identity,
    /// The tap registry is made and the tap listener bound.
    Tap,
    /// The discovery client is made.
    Dst,
    /// The span exporter is made.
    OcCollector,
    /// The admin server is made and its listener bound.
    Admin,
    /// The inbound listener is bound.
    Inbound,
    /// The outbound listener is bound.
    Outbound,
}

/// What carrying out a stage gave.
#[derive(Debug)]
pub enum Outcome {
    /// The stage is done and has nothing to report.
    Built,
    /// The stage bound a listener to this address.
    Bound(SocketAddr),
    /// The stage made the identity, with this handle on its certificate.
    Identity(LocalCrtKey),
    /// The stage failed for this reason.
    Failed(String),
}

/// Why a build came to nothing.
#[derive(Debug, PartialEq, Eq)]
pub enum Error {
    /// A stage failed.
    Failed { stage: Stage, reason: String },
    /// A stage reported what it cannot give: an address where none is
    /// bound, an identity where none is configured, or nothing where
    /// something is due.
    Unexpected { stage: Stage },
}

/// What is started once the process is spawned: the two servers, each
/// behind its own listener.
#[derive(Debug)]
pub struct StartProxy {
    /// The service of the outbound listener.
    pub outbound: Server,
    /// The port that the inbound server takes for its own.
    pub inbound_port: u16,
    /// The outbound stack that the gateway of the inbound server hands
    /// traffic to.
    pub gateway: Vec<Layer>,
}

/// A process that is built and not yet running.
#[derive(Debug)]
pub struct App {
    pub admin: Admin,
    pub drain: Signal,
    pub dst: ControlAddr,
    pub identity: Identity,
    pub inbound_addr: SocketAddr,
    pub oc_collector: OcCollector,
    pub outbound_addr: SocketAddr,
    pub start_proxy: StartProxy,
    pub tap: Tap,
}

/// A build on its way: the stage that is due, and what the stages before
/// it have given.
#[derive(Debug)]
pub struct Pending {
    pub config: Config,
    pub stage: Stage,
    pub identity: Identity,
    pub tap: Tap,
    pub oc_collector: OcCollector,
    pub admin_addr: SocketAddr,
    pub inbound_addr: SocketAddr,
    pub outbound_addr: SocketAddr,
}

/// A build: on its way, or at its end.
#[derive(Debug)]
pub enum Build {
    /// A stage is due.
    Pending(Pending),
    /// Every stage is done: the process is ready to be spawned.
    Ready(App),
    /// A stage failed: the build is over.
    Failed(Error),
}

impl Stage {
    /// The stage that follows, if any does.
    pub open spec fn next_of(self) -> Option<Stage> {
        match self {
            Stage::Dns => Some(Stage::Metrics),
            Stage::Metrics => Some(Stage::Identity),
            Stage::Identity => Some(Stage::Tap),
            Stage::Tap => Some(Stage::Dst),
            Stage::Dst => Some(Stage::OcCollector),
            Stage::OcCollector => Some(Stage::Admin),
            Stage::Admin => Some(Stage::Inbound),
            Stage::Inbound => Some(Stage::Outbound),
            Stage::Outbound => None,
        }
    }

    /// The place of the stage in the order, from 0.
    pub open spec fn index(self) -> nat {
        match self {
            Stage::Dns => 0,
            Stage::Metrics => 1,
            Stage::Identity => 2,
            Stage::Tap => 3,
            Stage::Dst => 4,
            Stage::OcCollector => 5,
            Stage::Admin => 6,
            Stage::Inbound => 7,
            Stage::Outbound => 8,
        }
    }

    /// The stage that follows, if any does.
    #[verifier::when_used_as_spec(next_of)]
    pub fn next(self) -> (next: Option<Stage>)
        ensures
            next == self.next_of(),
    {
        match self {
            Stage::Dns => Some(Stage::Metrics),
            Stage::Metrics => Some(Stage::Identity),
            Stage::Identity => Some(Stage::Tap),
            Stage::Tap => Some(Stage::Dst),
            Stage::Dst => Some(Stage::OcCollector),
            Stage::OcCollector => Some(Stage::Admin),
            Stage::Admin => Some(Stage::Inbound),
            Stage::Inbound => Some(Stage::Outbound),
            Stage::Outbound => None,
        }
    }
}

impl StartProxy {
    /// Whether `start` is what a process in the given mode, with the given
    /// inbound port, starts.
    pub open spec fn assembled(ingress_mode: bool, inbound_port: u16, start: StartProxy) -> bool {
        &&& server_for(ingress_mode, start.outbound)
        &&& start.inbound_port == inbound_port
        &&& start.gateway@ == gateway_stack()
    }

    /// Assembles the two servers. The mode of the outbound server is chosen
    /// here, once.
    pub fn assemble(ingress_mode: bool, inbound_port: u16) -> (start: StartProxy)
        ensures
            StartProxy::assembled(ingress_mode, inbound_port, start),
            ingress_mode <==> start.outbound is Ingress,
    {
        StartProxy {
            outbound: Server::assemble(ingress_mode),
            inbound_port,
            gateway: gateway_outbound(),
        }
    }
}

impl Config {
    /// Begins to build a process: nothing is made yet, and the first stage
    /// is due. Until they are bound, the listeners stand at the addresses
    /// that the settings name.
    pub fn build(self) -> (build: Build)
        ensures
            build == Build::Pending(Pending::first(self)),
    {
        let admin_addr = self.admin.server.bind;
        let inbound_addr = self.inbound.server.bind;
        let outbound_addr = self.outbound.server.bind;
        Build::Pending(
            Pending {
                config: self,
                stage: Stage::Dns,
                identity: Identity::Disabled,
                tap: Tap::Disabled,
                oc_collector: OcCollector::Disabled,
                admin_addr,
                inbound_addr,
                outbound_addr,
            },
        )
    }
}

impl Pending {
    /// The build of `config` in its first stage.
    pub open spec fn first(config: Config) -> Pending {
        Pending {
            config,
            stage: Stage::Dns,
            identity: Identity::Disabled,
            tap: Tap::Disabled,
            oc_collector: OcCollector::Disabled,
            admin_addr: config.admin.server.bind,
            inbound_addr: config.inbound.server.bind,
            outbound_addr: config.outbound.server.bind,
        }
    }

    /// What the build holds once the stage that is due has reported
    /// `outcome`; nothing, if that stage cannot report it.
    pub open spec fn taken(self, outcome: Outcome) -> Option<Pending> {
        match (self.stage, outcome) {
            (Stage::Dns, Outcome::Built) => Some(self),
            (Stage::Metrics, Outcome::Built) => Some(self),
            (Stage::Identity, Outcome::Built) => match self.config.identity {
                identity::Config::Disabled => Some(Pending { identity: Identity::Disabled, ..self }),
                _ => None,
            },
            (Stage::Identity, Outcome::Identity(local)) => match self.config.identity {
                identity::Config::Enabled { control, .. } => Some(
                    Pending { identity: Identity::Enabled { addr: control, local }, ..self },
                ),
                _ => None,
            },
            (Stage::Tap, Outcome::Built) => match self.config.tap {
                tap::Config::Disabled => Some(Pending { tap: Tap::Disabled, ..self }),
                _ => None,
            },
            (Stage::Tap, Outcome::Bound(listen_addr)) => match self.config.tap {
                tap::Config::Enabled { .. } => Some(
                    Pending { tap: Tap::Enabled { listen_addr }, ..self },
                ),
                _ => None,
            },
            (Stage::Dst, Outcome::Built) => Some(self),
            (Stage::OcCollector, Outcome::Built) => match self.config.oc_collector {
                oc_collector::Config::Disabled => Some(
                    Pending { oc_collector: OcCollector::Disabled, ..self },
                ),
                oc_collector::Config::Enabled { control } => Some(
                    Pending { oc_collector: OcCollector::Enabled { addr: control }, ..self },
                ),
            },
            (Stage::Admin, Outcome::Bound(addr)) => Some(Pending { admin_addr: addr, ..self }),
            (Stage::Inbound, Outcome::Bound(addr)) => Some(Pending { inbound_addr: addr, ..self }),
            (Stage::Outbound, Outcome::Bound(addr)) => Some(
                Pending { outbound_addr: addr, ..self },
            ),
            _ => None,
        }
    }

    /// Whether `app` is the process that the build makes once its last
    /// stage is done.
    pub open spec fn packaged(self, app: App) -> bool {
        &&& app.admin.listen_addr == self.admin_addr
        &&& app.admin.latch.is_released() == (self.identity is Disabled)
        &&& !app.drain.is_fired()
        &&& app.dst == self.config.dst.control
        &&& app.identity == self.identity
        &&& app.inbound_addr == self.inbound_addr
        &&& app.oc_collector == self.oc_collector
        &&& app.outbound_addr == self.outbound_addr
        &&& app.tap == self.tap
        &&& StartProxy::assembled(
            self.config.ingress_mode,
            self.inbound_addr.port,
            app.start_proxy,
        )
    }

    /// Whether `next` is the build after the stage that is due has reported
    /// `outcome`: over with the failure of the stage, if it failed; over
    /// with `Unexpected`, if the stage cannot report this; at the next
    /// stage, if there is one; and ready, if there is none.
    pub open spec fn leads_to(self, outcome: Outcome, next: Build) -> bool {
        match outcome {
            Outcome::Failed(reason) => next == Build::Failed(
                Error::Failed { stage: self.stage, reason },
            ),
            _ => match self.taken(outcome) {
                None => next == Build::Failed(Error::Unexpected { stage: self.stage }),
                Some(taken) => match self.stage.next_of() {
                    Some(stage) => next == Build::Pending(Pending { stage, ..taken }),
                    None => next matches Build::Ready(app) && taken.packaged(app),
                },
            },
        }
    }

    fn take(self, outcome: Outcome) -> (taken: Result<Pending, Error>)
        requires
            !(outcome is Failed),
        ensures
            match self.taken(outcome) {
                Some(p) => taken == Ok::<Pending, Error>(p),
                None => taken == Err::<Pending, Error>(Error::Unexpected { stage: self.stage }),
            },
    {
        let Pending {
            config,
            stage,
            mut identity,
            mut tap,
            mut oc_collector,
            mut admin_addr,
            mut inbound_addr,
            mut outbound_addr,
        } = self;
        let unexpected = Err(Error::Unexpected { stage });
        match (stage, outcome) {
            (Stage::Dns, Outcome::Built) => {},
            (Stage::Metrics, Outcome::Built) => {},
            (Stage::Identity, Outcome::Built) => match &config.identity {
                identity::Config::Disabled => {
                    identity = Identity::Disabled;
                },
                _ => {
                    return unexpected;
                },
            },
            (Stage::Identity, Outcome::Identity(local)) => match &config.identity {
                identity::Config::Enabled { control, .. } => {
                    identity = Identity::Enabled { addr: control.clone(), local };
                },
                _ => {
                    return unexpected;
                },
            },
            (Stage::Tap, Outcome::Built) => match config.tap {
                tap::Config::Disabled => {
                    tap = Tap::Disabled;
                },
                _ => {
                    return unexpected;
                },
            },
            (Stage::Tap, Outcome::Bound(listen_addr)) => match config.tap {
                tap::Config::Enabled { .. } => {
                    tap = Tap::Enabled { listen_addr };
                },
                _ => {
                    return unexpected;
                },
            },
            (Stage::Dst, Outcome::Built) => {},
            (Stage::OcCollector, Outcome::Built) => match &config.oc_collector {
                oc_collector::Config::Disabled => {
                    oc_collector = OcCollector::Disabled;
                },
                oc_collector::Config::Enabled { control } => {
                    oc_collector = OcCollector::Enabled { addr: control.clone() };
                },
            },
            (Stage::Admin, Outcome::Bound(addr)) => {
                admin_addr = addr;
            },
            (Stage::Inbound, Outcome::Bound(addr)) => {
                inbound_addr = addr;
            },
            (Stage::Outbound, Outcome::Bound(addr)) => {
                outbound_addr = addr;
            },
            _ => {
                return unexpected;
            },
        }
        Ok(
            Pending {
                config,
                stage,
                identity,
                tap,
                oc_collector,
                admin_addr,
                inbound_addr,
                outbound_addr,
            },
        )
    }

    /// Packages the process once the last stage is done: the drain channel
    /// is made, the readiness latch holds where there is an identity to
    /// wait for and is released where there is none, and the two servers
    /// are assembled for the mode that the settings name.
    fn package(self) -> (app: App)
        ensures
            self.packaged(app),
    {
        let (signal, _watch) = drain::channel();
        let start_proxy = StartProxy::assemble(self.config.ingress_mode, self.inbound_addr.port());
        let mut latch = Latch::new();
        if !self.identity.is_enabled() {
            latch.release();
        }
        App {
            admin: Admin { listen_addr: self.admin_addr, latch },
            drain: signal,
            dst: self.config.dst.control,
            identity: self.identity,
            inbound_addr: self.inbound_addr,
            oc_collector: self.oc_collector,
            outbound_addr: self.outbound_addr,
            start_proxy,
            tap: self.tap,
        }
    }

    /// Takes the report of the stage that is due.
    pub fn advance(self, outcome: Outcome) -> (next: Build)
        ensures
            self.leads_to(outcome, next),
    {
        let stage = self.stage;
        match outcome {
            Outcome::Failed(reason) => Build::Failed(Error::Failed { stage, reason }),
            outcome => match self.take(outcome) {
                Err(e) => Build::Failed(e),
                Ok(taken) => match stage.next() {
                    Some(stage) => Build::Pending(Pending { stage, ..taken }),
                    None => Build::Ready(taken.package()),
                },
            },
        }
    }
}

impl Build {
    /// The stage that is due, while the build is on its way.
    pub fn stage(&self) -> (stage: Option<Stage>)
        ensures
            stage == match *self {
                Build::Pending(p) => Some(p.stage),
                _ => None::<Stage>,
            },
    {
        match self {
            Build::Pending(p) => Some(p.stage),
            _ => None,
        }
    }

    /// Whether `next` is the build after `outcome`. A build that is over
    /// stays as it is.
    pub open spec fn leads_to(self, outcome: Outcome, next: Build) -> bool {
        match self {
            Build::Pending(p) => p.leads_to(outcome, next),
            _ => next == self,
        }
    }

    /// Takes the report of the stage that is due. A build that is over takes
    /// no report.
    pub fn advance(self, outcome: Outcome) -> (next: Build)
        ensures
            self.leads_to(outcome, next),
    {
        match self {
            Build::Pending(p) => p.advance(outcome),
            over => over,
        }
    }

    /// The result of the build, once it is over.
    pub fn result(self) -> (r: Option<Result<App, Error>>)
        ensures
            r == match self {
                Build::Pending(_) => None::<Result<App, Error>>,
                Build::Ready(app) => Some(Ok::<App, Error>(app)),
                Build::Failed(e) => Some(Err::<App, Error>(e)),
            },
    {
        match self {
            Build::Pending(_) => None,
            Build::Ready(app) => Some(Ok(app)),
            Build::Failed(e) => Some(Err(e)),
        }
    }
}

/// A task of a running process.
#[derive(Clone, Copy, Debug, PartialEq, Eq, Hash)]
pub enum Task {
    /// The admin server, which answers the readiness endpoint.
    AdminServer,
    /// The daemon that keeps the proxy's certificate fresh.
    Identity,
    /// The wait for the first certificate.
    Certification,
    /// The sweep of the tap registry, once a minute.
    TapClean,
    /// The tap server.
    TapServer,
    /// The export of spans.
    OcExport,
    /// The outbound server.
    Outbound,
    /// The inbound server.
    Inbound,
}

/// What is made of something that happens to a running process.
#[derive(Clone, Copy, Debug, PartialEq, Eq)]
pub enum Reaction {
    /// The process ends at once, loudly.
    Fatal,
    /// The failure is logged and the process goes on.
    Logged,
    /// The readiness latch is released: the process reports ready.
    Ready,
    /// Nothing is done.
    Ignored,
}

/// What happens to a running process.
#[derive(Clone, Copy, Debug, PartialEq, Eq)]
pub enum Happening {
    /// The identity was certified.
    Certified,
    /// A task ended in failure.
    Died(Task),
}

/// The seconds between two sweeps of the tap registry.
pub const TAP_CLEAN_INTERVAL: u64 = 60;

/// A process that was spawned: the tasks of its admin domain, in the order
/// in which they start, what its main domain starts, and its readiness.
#[derive(Debug)]
pub struct Running {
    /// The tasks of the admin domain, which has a thread of its own.
    pub admin: Vec<Task>,
    /// What the main domain starts.
    pub start_proxy: StartProxy,
    pub latch: Latch,
}

/// The tasks of the admin domain of a process, in the order in which they
/// start.
pub open spec fn admin_tasks(identity: bool, tap: bool, oc_collector: bool) -> Seq<Task> {
    seq![Task::AdminServer] + (if identity {
        seq![Task::Identity, Task::Certification]
    } else {
        Seq::empty()
    }) + (if tap {
        seq![Task::TapClean, Task::TapServer]
    } else {
        Seq::empty()
    }) + (if oc_collector {
        seq![Task::OcExport]
    } else {
        Seq::empty()
    })
}

impl Task {
    /// What the failure of the task means. A dead listener or admin server,
    /// or an identity that cannot be certified, ends the process; a dead
    /// tap server is logged; the other tasks do not fail.
    pub open spec fn on_death(self) -> Reaction {
        match self {
            Task::AdminServer | Task::Certification | Task::Outbound | Task::Inbound => {
                Reaction::Fatal
            },
            Task::TapServer => Reaction::Logged,
            Task::Identity | Task::TapClean | Task::OcExport => Reaction::Ignored,
        }
    }

    /// The seconds between two runs of the task, for a task that runs again
    /// and again: the sweep of the tap registry.
    pub fn interval(self) -> (seconds: Option<u64>)
        ensures
            seconds == if self is TapClean {
                Some(TAP_CLEAN_INTERVAL)
            } else {
                None
            },
    {
        match self {
            Task::TapClean => Some(TAP_CLEAN_INTERVAL),
            _ => None,
        }
    }

    /// What the failure of the task means.
    pub fn died(self) -> (reaction: Reaction)
        ensures
            reaction == self.on_death(),
    {
        match self {
            Task::AdminServer | Task::Certification | Task::Outbound | Task::Inbound => {
                Reaction::Fatal
            },
            Task::TapServer => Reaction::Logged,
            Task::Identity | Task::TapClean | Task::OcExport => Reaction::Ignored,
        }
    }
}

impl App {
    /// The address of the admin listener.
    pub fn admin_addr(&self) -> (addr: SocketAddr)
        ensures
            addr == self.admin.listen_addr,
    {
        self.admin.listen_addr
    }

    /// The address of the inbound listener.
    pub fn inbound_addr(&self) -> (addr: SocketAddr)
        ensures
            addr == self.inbound_addr,
    {
        self.inbound_addr
    }

    /// The address of the outbound listener.
    pub fn outbound_addr(&self) -> (addr: SocketAddr)
        ensures
            addr == self.outbound_addr,
    {
        self.outbound_addr
    }

    /// The address of the tap listener, where tap is enabled.
    pub fn tap_addr(&self) -> (addr: Option<SocketAddr>)
        ensures
            addr == match self.tap {
                Tap::Disabled => None::<SocketAddr>,
                Tap::Enabled { listen_addr } => Some(listen_addr),
            },
    {
        match self.tap {
            Tap::Disabled => None,
            Tap::Enabled { listen_addr } => Some(listen_addr),
        }
    }

    /// The address of the discovery service.
    pub fn dst_addr(&self) -> (addr: &ControlAddr)
        ensures
            *addr == self.dst,
    {
        &self.dst
    }

    /// The handle on the proxy's certificate, where identity is enabled.
    pub fn local_identity(&self) -> (local: Option<&LocalCrtKey>)
        ensures
            local == match self.identity {
                Identity::Disabled => None::<&LocalCrtKey>,
                Identity::Enabled { local, .. } => Some(&local),
            },
    {
        match &self.identity {
            Identity::Disabled => None,
            Identity::Enabled { local, .. } => Some(local),
        }
    }

    /// The address of the identity service, where identity is enabled.
    pub fn identity_addr(&self) -> (addr: Option<&ControlAddr>)
        ensures
            addr == match self.identity {
                Identity::Disabled => None::<&ControlAddr>,
                Identity::Enabled { addr, .. } => Some(&addr),
            },
    {
        match &self.identity {
            Identity::Disabled => None,
            Identity::Enabled { addr, .. } => Some(addr),
        }
    }

    /// The address of the span collector, where spans are exported.
    pub fn opencensus_addr(&self) -> (addr: Option<&ControlAddr>)
        ensures
            addr == match self.oc_collector {
                OcCollector::Disabled => None::<&ControlAddr>,
                OcCollector::Enabled { addr } => Some(&addr),
            },
    {
        match &self.oc_collector {
            OcCollector::Disabled => None,
            OcCollector::Enabled { addr } => Some(addr),
        }
    }

    /// Whether the process reports ready as soon as it is spawned: it does
    /// where there is no identity to wait for.
    pub open spec fn ready_at_spawn(&self) -> bool {
        self.admin.latch.is_released() || self.identity is Disabled
    }

    /// Spawns the process. The owner of the drain signal is handed out as
    /// it was built; the admin domain gets its tasks; and the readiness
    /// latch is released where identity is disabled, and left as it is, for
    /// the certification to release, where it is enabled.
    pub fn spawn(self) -> (r: (Signal, Running))
        ensures
            r.0 == self.drain,
            r.1.admin@ == admin_tasks(
                self.identity is Enabled,
                self.tap is Enabled,
                self.oc_collector is Enabled,
            ),
            r.1.start_proxy == self.start_proxy,
            r.1.is_ready() == self.ready_at_spawn(),
    {
        let App { admin, drain, identity, oc_collector, start_proxy, tap, .. } = self;
        let mut latch = admin.latch;
        let mut tasks: Vec<Task> = Vec::new();
        tasks.push(Task::AdminServer);
        match identity {
            Identity::Enabled { .. } => {
                tasks.push(Task::Identity);
                tasks.push(Task::Certification);
            },
            Identity::Disabled => {
                latch.release();
            },
        }
        match tap {
            Tap::Enabled { .. } => {
                tasks.push(Task::TapClean);
                tasks.push(Task::TapServer);
            },
            Tap::Disabled => {},
        }
        match oc_collector {
            OcCollector::Enabled { .. } => {
                tasks.push(Task::OcExport);
            },
            OcCollector::Disabled => {},
        }
        assert(tasks@ =~= admin_tasks(
            identity is Enabled,
            tap is Enabled,
            oc_collector is Enabled,
        ));
        (drain, Running { admin: tasks, start_proxy, latch })
    }
}

impl Running {
    /// Whether the process reports ready.
    pub open spec fn is_ready(&self) -> bool {
        self.latch.is_released()
    }

    /// What is made of `happening`.
    pub open spec fn reaction(&self, happening: Happening) -> Reaction {
        match happening {
            Happening::Certified => if self.is_ready() {
                Reaction::Ignored
            } else {
                Reaction::Ready
            },
            Happening::Died(task) => task.on_death(),
        }
    }

    /// Whether the process reports ready after `happening`: it does if it
    /// did before, or if the identity was certified.
    pub open spec fn ready_after(&self, happening: Happening) -> bool {
        self.is_ready() || happening is Certified
    }

    /// Whether the process reports ready after all of `happenings`, in
    /// order.
    pub open spec fn ready_after_all(&self, happenings: Seq<Happening>) -> bool
        decreases happenings.len(),
    {
        if happenings.len() == 0 {
            self.is_ready()
        } else {
            self.ready_after_all(happenings.drop_last()) || happenings.last() is Certified
        }
    }

    /// Whether the process reports ready.
    pub fn ready(&self) -> (r: bool)
        ensures
            r == self.is_ready(),
    {
        self.latch.released()
    }

    /// Takes what happened. Only the readiness changes, and only from not
    /// ready to ready, when the identity is certified.
    pub fn handle(&mut self, happening: Happening) -> (reaction: Reaction)
        ensures
            reaction == old(self).reaction(happening),
            final(self).is_ready() == old(self).ready_after(happening),
            final(self).admin == old(self).admin,
            final(self).start_proxy == old(self).start_proxy,
    {
        match happening {
            Happening::Certified => {
                if self.latch.released() {
                    Reaction::Ignored
                } else {
                    self.latch.release();
                    Reaction::Ready
                }
            },
            Happening::Died(task) => task.died(),
        }
    }
}

/// Whether `builds` is a run over `outcomes`: each build but the last takes
/// one outcome and so leads to the build after it.
pub open spec fn is_run(builds: Seq<Build>, outcomes: Seq<Outcome>) -> bool {
    &&& builds.len() == outcomes.len() + 1
    &&& forall|i: int|
        0 <= i < outcomes.len() ==> (#[trigger] builds[i]).leads_to(outcomes[i], builds[i + 1])
}

/// A failure ends the build with the error of the stage that failed, and a
/// build that is over takes nothing more: not a later success either.
pub proof fn lemma_failure_aborts(pending: Pending, reason: String, next: Build, later: Outcome, end: Build)
    requires
        pending.leads_to(Outcome::Failed(reason), next),
        next.leads_to(later, end),
    ensures
        next == Build::Failed(Error::Failed { stage: pending.stage, reason }),
        end == next,
{
}

/// One report moves the build on by one stage and leaves its settings as
/// they are; the build is ready only after the last stage, the binding of
/// the outbound listener; and the process that is then ready has the
/// addresses that the stages bound and the outbound server of the mode
/// that the settings name.
pub proof fn lemma_one_stage_at_a_time(pending: Pending, outcome: Outcome, next: Build)
    requires
        pending.leads_to(outcome, next),
    ensures
        next matches Build::Pending(p) ==> p.config == pending.config && p.stage.index()
            == pending.stage.index() + 1,
        next matches Build::Ready(app) ==> pending.stage == Stage::Outbound && outcome
            == Outcome::Bound(app.outbound_addr) && app.inbound_addr == pending.inbound_addr
            && app.admin.listen_addr == pending.admin_addr && (pending.config.ingress_mode
            <==> app.start_proxy.outbound is Ingress) && (app.admin.latch.is_released()
            <==> app.identity is Disabled),
        next is Failed <==> outcome is Failed || pending.taken(outcome) is None,
{
}

/// From the settings to the process, the mode is fixed. In a run that
/// starts from `config`, a build that is still on its way after `k` reports
/// is at the stage of index `k`, has seen no failure, and holds `config`
/// unchanged; and a process that is ready after `k` reports has taken all
/// nine stages and runs the ingress server exactly when `config` asks for
/// ingress mode.
pub proof fn lemma_mode_is_fixed(config: Config, builds: Seq<Build>, outcomes: Seq<Outcome>, k: int)
    requires
        is_run(builds, outcomes),
        builds[0] == Build::Pending(Pending::first(config)),
        0 <= k <= outcomes.len(),
    ensures
        builds[k] matches Build::Pending(p) ==> p.config == config && p.stage.index() == k
            && forall|i: int| 0 <= i < k ==> !(#[trigger] outcomes[i] is Failed),
        builds[k] matches Build::Ready(app) ==> k >= 9 && server_for(
            config.ingress_mode,
            app.start_proxy.outbound,
        ) && (config.ingress_mode <==> app.start_proxy.outbound is Ingress),
    decreases k,
{
    if k > 0 {
        lemma_mode_is_fixed(config, builds, outcomes, k - 1);
        assert(builds[k - 1].leads_to(outcomes[k - 1], builds[k]));
        match builds[k - 1] {
            Build::Pending(p) => {
                lemma_one_stage_at_a_time(p, outcomes[k - 1], builds[k]);
            },
            _ => {},
        }
    }
}

/// Readiness waits for the identity. A process whose latch held while it
/// had an identity to wait for reports ready, once spawned and after
/// whatever happened to it, exactly when it has no identity or its identity
/// has been certified since. So a process built with identity is never
/// ready before its certification, and one built without is ready at once.
pub proof fn lemma_readiness_ordering(app: App, running: Running, happenings: Seq<Happening>)
    requires
        app.identity is Enabled ==> !app.admin.latch.is_released(),
        running.is_ready() == app.ready_at_spawn(),
    ensures
        running.ready_after_all(happenings) <==> app.identity is Disabled || happenings.contains(
            Happening::Certified,
        ),
        app.identity is Disabled ==> running.is_ready(),
        app.identity is Enabled && !happenings.contains(Happening::Certified)
            ==> !running.ready_after_all(happenings),
    decreases happenings.len(),
{
    if happenings.len() > 0 {
        let before = happenings.drop_last();
        lemma_readiness_ordering(app, running, before);
        if happenings.contains(Happening::Certified) {
            let i = choose|i: int|
                0 <= i < happenings.len() && happenings[i] == Happening::Certified;
            if i < happenings.len() - 1 {
                assert(before[i] == Happening::Certified);
            }
        }
        if before.contains(Happening::Certified) {
            let i = choose|i: int| 0 <= i < before.len() && before[i] == Happening::Certified;
            assert(happenings[i] == Happening::Certified);
        }
        if happenings.last() is Certified {
            assert(happenings[happenings.len() - 1] == Happening::Certified);
        }
    }
}

} // verus!
