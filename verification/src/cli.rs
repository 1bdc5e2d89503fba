//! The command line surface, as plain data.
//!
//! These types are a *description* of what NetSentry can be asked to do:
//! the application parses arguments into them and decides what to do with
//! them. No work happens here.

use vstd::prelude::*;

verus! {

/// Top level NetSentry command.
#[derive(Debug, Clone, PartialEq, Eq)]
pub struct Cli {
    /// The subcommand to run.
    pub command: Command,
}

/// Everything NetSentry can be asked to do.
#[derive(Debug, Clone, PartialEq, Eq)]
pub enum Command {
    /// List the network interfaces visible to the capture driver.
    List,
    /// Capture packets from an interface.
    Capture(CaptureArgs),
    /// Analyse a saved capture file.
    Read(ReadArgs),
}

/// What a live capture was asked to do.
#[derive(Debug, Clone, PartialEq, Eq)]
pub struct CaptureArgs {
    /// Listing index or system name of the interface.
    pub interface: String,
    /// Stop after this many packets.
    pub count: Option<u64>,
    /// Bytes to keep per packet.
    pub snaplen: u32,
    /// Accept frames not addressed to this host.
    pub promiscuous: bool,
    /// Also save the packets to this file.
    pub write: Option<String>,
    /// Replace the output file if it already exists.
    pub overwrite: bool,
    /// Report conversations rather than packets.
    pub flows: bool,
    /// How many conversations to track at most.
    pub max_flows: usize,
}

/// What an offline analysis was asked to do.
#[derive(Debug, Clone, PartialEq, Eq)]
pub struct ReadArgs {
    /// The capture file to analyse.
    pub file: String,
    /// Analyse only the first this many packets.
    pub count: Option<u64>,
    /// Report conversations rather than packets.
    pub flows: bool,
    /// How many conversations to track at most.
    pub max_flows: usize,
}

} // verus!
