//! The admin server and the readiness that it reports.

use crate::addr::SocketAddr;
use crate::control::ServerConfig;
use vstd::prelude::*;

verus! {

/// The settings of the admin server.
#[derive(Clone, Copy, Debug)]
pub struct Config {
    pub server: ServerConfig,
    /// For how many seconds the metrics of an idle target are kept.
    pub metrics_retain_idle: u64,
}

/// What holds the readiness endpoint back: the process reports ready once the
/// latch is released, and stays ready.
#[derive(Debug)]
pub struct Latch {
    released: bool,
}

/// The admin server of a process that is built but not started.
#[derive(Debug)]
pub struct Admin {
    pub listen_addr: SocketAddr,
    pub latch: Latch,
}

impl Latch {
    /// Whether the latch is released.
    pub closed spec fn is_released(&self) -> bool {
        self.released
    }

    /// A latch that holds.
    pub fn new() -> (latch: Latch)
        ensures
            !latch.is_released(),
    {
        Latch { released: false }
    }

    /// Releases the latch. A released latch stays released.
    pub fn release(&mut self)
        ensures
            final(self).is_released(),
    {
        self.released = true;
    }

    /// Whether the process reports ready.
    pub fn released(&self) -> (r: bool)
        ensures
            r == self.is_released(),
    {
        self.released
    }
}

} // verus!
