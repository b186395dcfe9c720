//! The settings the collector runs with.

use crate::exporter::Output;
use vstd::prelude::*;

verus! {

/// Settings of one run, as plain values.
#[derive(Debug, Clone)]
pub struct Params {
    /// Capacity of the channel between the watchers and the exporter.
    pub buffer_size: usize,
    /// Names or identifiers of the containers to monitor, separated by
    /// commas; every container where absent.
    pub containers: Option<String>,
    /// Leave the energy stage out.
    pub disable_powercap: bool,
    /// Where the records go.
    pub output: Output,
}

} // verus!
