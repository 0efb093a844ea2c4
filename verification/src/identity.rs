//! The proxy's own identity, and the service that certifies it.

use crate::control::ControlAddr;
use crate::dns::Name;
use vstd::prelude::*;

verus! {

/// Whether the proxy takes part in identity, and with which service.
#[derive(Debug)]
pub enum Config {
    Disabled,
    Enabled { control: ControlAddr, local_name: Name },
}

/// The live handle on the proxy's own certificate and key.
#[derive(Debug)]
pub struct LocalCrtKey {
    /// The name that the certificate is issued for.
    pub name: Name,
}

/// The identity of a running proxy.
#[derive(Debug)]
pub enum Identity {
    Disabled,
    Enabled { addr: ControlAddr, local: LocalCrtKey },
}

impl Clone for LocalCrtKey {
    fn clone(&self) -> (r: Self)
        ensures
            r == *self,
    {
        LocalCrtKey { name: self.name.clone() }
    }
}

impl Identity {
    /// Whether identity is enabled.
    pub fn is_enabled(&self) -> (r: bool)
        ensures
            r == (self is Enabled),
    {
        match self {
            Identity::Disabled => false,
            Identity::Enabled { .. } => true,
        }
    }

    /// The handle on the proxy's certificate, where identity is enabled.
    pub fn local(&self) -> (local: Option<&LocalCrtKey>)
        ensures
            local == match *self {
                Identity::Disabled => None::<&LocalCrtKey>,
                Identity::Enabled { local, .. } => Some(&local),
            },
    {
        match self {
            Identity::Disabled => None,
            Identity::Enabled { local, .. } => Some(local),
        }
    }
}

} // verus!
