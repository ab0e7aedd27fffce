//! A configuration for a single `rigctl`: its path, the rig it drives, and
//! the commands for each EXTFSK event.
use vstd::prelude::*;

verus! {

/// The configuration: where `rigctl` is, the rig, and the commands.
#[derive(Debug)]
pub struct Config {
    pub rigctl_path: String,
    pub rig: ConfigRig,
    pub commands: ConfigCommands,
}

/// The rig that `rigctl` drives.
#[derive(Debug)]
pub struct ConfigRig {
    pub model_id: usize,
    pub device: String,
}

/// The Hamlib commands sent on each EXTFSK event.
#[derive(Debug)]
pub struct ConfigCommands {
    pub open: Option<Vec<String>>,
    pub close: Option<Vec<String>>,
    pub tx: Option<Vec<String>>,
    pub rx: Option<Vec<String>>,
}

} // verus!
