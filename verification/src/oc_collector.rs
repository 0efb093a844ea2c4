//! Export of trace spans to a collector.

use crate::control::ControlAddr;
use vstd::prelude::*;

verus! {

/// Whether spans are exported, and to which collector.
#[derive(Debug)]
pub enum Config {
    Disabled,
    Enabled { control: ControlAddr },
}

/// The span exporter of a running proxy.
#[derive(Debug)]
pub enum OcCollector {
    Disabled,
    Enabled { addr: ControlAddr },
}

} // verus!
