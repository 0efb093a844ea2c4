//! Addresses of the control plane.

use crate::addr::{Addr, SocketAddr};
use crate::tls::ConditionalClientTls;
use vstd::prelude::*;

verus! {

/// The address of a control-plane service, and the identity that it must
/// present.
#[derive(Debug)]
pub struct ControlAddr {
    pub addr: Addr,
    pub identity: ConditionalClientTls,
}

impl Clone for ControlAddr {
    fn clone(&self) -> (r: Self)
        ensures
            r == *self,
    {
        ControlAddr { addr: self.addr.clone(), identity: self.identity.clone() }
    }
}

/// Where a server listens.
#[derive(Clone, Copy, Debug, PartialEq, Eq)]
pub struct ServerConfig {
    /// The address to bind. Port 0 leaves the choice of a port to the system.
    pub bind: SocketAddr,
}

} // verus!
