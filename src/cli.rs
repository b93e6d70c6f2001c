//! The configuration of one update run, built once at startup.

use vstd::prelude::*;

verus! {

/// What the caller asked for: the package, the PID to wait for (0 for none),
/// whether to skip the relaunch, verbose output, and no log file.
pub struct CliArgs {
    pub package: String,
    pub pid: u32,
    pub skip_launch: bool,
    pub verbose: bool,
    pub quiet: bool,
}

} // verus!
