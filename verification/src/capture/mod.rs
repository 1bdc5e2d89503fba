//! Packet capture accounting.
//!
//! Where packets come from (an interface, a file) is the application's
//! business; this layer holds what a capture *is*: its settings and their
//! validation, the metadata of each packet, timestamps, and the counters and
//! outcome of a run.

pub mod device;
pub mod live;
pub mod offline;
pub mod pump;
pub mod settings;
pub mod stats;
pub mod timestamp;
pub mod writer;

pub use device::{
    DriverDevice, InterfaceAddress, InterfaceAttribute, LinkStatus, NetworkInterface, interfaces_from_driver,
    parse_index, resolve_interface,
};
pub use pump::{LinkType, PacketMetadata, PacketPump, PumpAction, PumpEvent};
pub use settings::{CaptureSettings, DEFAULT_SNAPLEN, MAX_SNAPLEN, MIN_SNAPLEN};
pub use stats::{
    CaptureSummary, CaptureTally, DriverStats, FileSummary, PacketRun, StopReason, TimeSpan,
};
pub use timestamp::PacketTimestamp;
