//! The gateway: inbound traffic that leaves again through the outbound side.

use vstd::prelude::*;

verus! {

/// The settings of the gateway.
#[derive(Clone, Copy, Debug)]
pub struct Config {
    /// Whether the gateway may look destinations up in discovery.
    pub allow_discovery: bool,
}

} // verus!
