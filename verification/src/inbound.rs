//! The inbound side of the proxy: traffic towards the local workload.

use crate::control::ServerConfig;
use vstd::prelude::*;

verus! {

/// The settings of the inbound proxy.
#[derive(Clone, Copy, Debug)]
pub struct Config {
    pub server: ServerConfig,
}

} // verus!
