//! Verified core of a self-updater: package format detection, zip-slip safe
//! extraction planning, the update hand-off state machine and log line building.

pub mod archive;
pub mod cli;
pub mod color;
pub mod handoff;
pub mod log;
pub mod paths;
