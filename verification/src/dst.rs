//! Destinations as metrics and policy see them.

use crate::addr::Addr;
use crate::control::ControlAddr;
use crate::profiles;
use vstd::prelude::*;

verus! {

/// The settings of the discovery client.
#[derive(Debug)]
pub struct Config {
    pub control: ControlAddr,
}

/// The direction of traffic through the proxy.
#[derive(Clone, Copy, Debug, PartialEq, Eq, Hash)]
pub enum Direction {
    /// Towards the local workload.
    In,
    /// Away from the local workload.
    Out,
}

/// A policy route together with the canonical address of the logical
/// destination that owns it and the direction of its traffic.
#[derive(Debug)]
pub struct Route {
    pub route: profiles::Route,
    pub target: Addr,
    pub direction: Direction,
}

impl Clone for Route {
    fn clone(&self) -> (r: Self)
        ensures
            r == *self,
    {
        Route {
            route: self.route.clone(),
            target: self.target.clone(),
            direction: self.direction,
        }
    }
}

} // verus!
