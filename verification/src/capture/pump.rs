//! The packet pump shared by live and offline capture.
//!
//! A live interface and a capture file are read by one loop. The loop itself
//! (waiting on the driver, handing bytes to the decoder, printing) is the
//! application's; the decisions it takes after each event are here, as a state
//! machine: [`PacketPump::step`] takes what just happened and says what to do
//! next. The differences between the two capture modes are expressed as
//! events rather than as separate code.

use vstd::prelude::*;

use crate::capture::stats::{CaptureTally, PacketRun, StopReason, TimeSpan, saturating_sum};
use crate::capture::timestamp::PacketTimestamp;
use crate::text::{push_i64, push_str, signed_digits};

verus! {

/// The link-layer format of a capture, as reported by the driver.
#[derive(Debug, Clone, PartialEq, Eq)]
pub struct LinkType {
    /// Numeric `DLT_*` value.
    pub code: i32,
    /// Short name, such as `EN10MB`.
    pub name: String,
    /// Human readable description, when libpcap knows one.
    pub description: Option<String>,
}

impl LinkType {
    /// Turns a `DLT_*` value into something printable, without ever failing.
    ///
    /// `name` and `description` are what libpcap knows of the value. libpcap
    /// does not know every link type by name; an unknown one is named by its
    /// number, `DLT_<code>`, rather than dropped or guessed at.
    pub fn describe(code: i32, name: Option<String>, description: Option<String>) -> (link: LinkType)
        ensures
            link.code == code,
            link.name@ == (match name {
                Some(known) => known@,
                None => "DLT_"@ + signed_digits(code as int),
            }),
            link.description == description,
    {
        let name = match name {
            Some(known) => known,
            None => {
                let mut text = String::new();
                push_str(&mut text, "DLT_");
                push_i64(&mut text, code as i64);
                proof {
                    reveal_strlit("DLT_");
                    assert(Seq::<char>::empty() + "DLT_"@ =~= "DLT_"@);
                }
                text
            },
        };
        LinkType { code, name, description }
    }
}

/// What is known about one captured packet.
///
/// Note what is *not* here: the packet's bytes.
#[derive(Debug, Clone, Copy, PartialEq, Eq)]
pub struct PacketMetadata {
    /// 1-based position within this capture run.
    pub number: u64,
    /// When the driver saw the packet.
    pub timestamp: PacketTimestamp,
    /// Bytes actually captured (limited by the snapshot length).
    pub caplen: u32,
    /// Bytes the packet had on the wire.
    pub wirelen: u32,
}

/// What the read loop just observed.
#[derive(Debug, Clone, Copy, PartialEq, Eq)]
pub enum PumpEvent {
    /// The interrupt flag was found set before a read.
    Interrupted,
    /// The driver handed over a packet.
    Packet {
        /// Bytes captured.
        caplen: u32,
        /// Bytes on the wire.
        wirelen: u32,
        /// The driver's timestamp.
        timestamp: PacketTimestamp,
    },
    /// The packet just delivered was handled; `output_ok` is false when the
    /// output it was written to went away.
    Delivered {
        /// Whether handling the packet succeeded.
        output_ok: bool,
    },
    /// A read found nothing within the read timeout: the idle path of a quiet
    /// interface.
    Timeout,
    /// The source reported that no more packets will come: the end of a file,
    /// or a live capture woken by an interrupt.
    SourceEnded {
        /// Whether the interrupt flag was set when that happened.
        interrupted: bool,
    },
    /// Reading failed.
    ReadFailed,
}

/// What the read loop should do next.
#[derive(Debug, Clone, Copy, PartialEq, Eq)]
pub enum PumpAction {
    /// Read the next packet.
    ReadNext,
    /// Hand this packet to the caller, then report `Delivered`.
    Deliver(PacketMetadata),
    /// Stop the run for this reason.
    Stop(StopReason),
}

/// The decisions of one pass over a packet source.
#[derive(Debug, Clone, Copy, PartialEq, Eq)]
pub struct PacketPump {
    /// Stop after this many packets.
    pub limit: Option<u64>,
    /// Totals so far.
    pub tally: CaptureTally,
    /// The span of the packets' own timestamps so far.
    pub time_span: TimeSpan,
}

impl PacketPump {
    /// A pump that has seen nothing, stopping after `limit` packets if given.
    pub fn new(limit: Option<u64>) -> (pump: Self)
        ensures
            pump.limit == limit,
            pump.tally.packets == 0,
            pump.tally.captured_bytes == 0,
            pump.tally.wire_bytes == 0,
            pump.time_span.spec_first() is None,
            pump.time_span.spec_last() is None,
    {
        PacketPump { limit, tally: CaptureTally::default(), time_span: TimeSpan::default() }
    }

    /// Takes one event and says what to do next.
    ///
    /// * An interrupt stops the run as `Interrupted`.
    /// * A packet is counted and timed, and handed out numbered by its
    ///   position in the run.
    /// * Once it is delivered, a closed output stops the run as
    ///   `OutputClosed`, a met limit as `CountReached`; otherwise reading
    ///   goes on.
    /// * A timeout goes on reading.
    /// * The end of the source stops the run as `Interrupted` when the
    ///   interrupt flag was set, as `SourceEnded` otherwise.
    /// * A read failure stops the run as `ReadFailed`.
    pub fn step(&mut self, event: PumpEvent) -> (action: PumpAction)
        ensures
            final(self).limit == old(self).limit,
            match event {
                PumpEvent::Packet { caplen, wirelen, timestamp } => {
                    &&& final(self).tally.packets == saturating_sum(old(self).tally.packets as int, 1)
                    &&& final(self).tally.captured_bytes == saturating_sum(
                        old(self).tally.captured_bytes as int,
                        caplen as int,
                    )
                    &&& final(self).tally.wire_bytes == saturating_sum(
                        old(self).tally.wire_bytes as int,
                        wirelen as int,
                    )
                    &&& final(self).time_span.spec_first() == (match old(self).time_span.spec_first() {
                        Some(first) => Some(first),
                        None => Some(timestamp),
                    })
                    &&& final(self).time_span.spec_last() == Some(timestamp)
                    &&& action == PumpAction::Deliver(
                        PacketMetadata {
                            number: final(self).tally.packets,
                            timestamp,
                            caplen,
                            wirelen,
                        },
                    )
                },
                _ => {
                    &&& final(self).tally == old(self).tally
                    &&& final(self).time_span == old(self).time_span
                    &&& action == (match event {
                        PumpEvent::Interrupted => PumpAction::Stop(StopReason::Interrupted),
                        PumpEvent::Delivered { output_ok } => if !output_ok {
                            PumpAction::Stop(StopReason::OutputClosed)
                        } else if CaptureTally::spec_limit_reached(
                            old(self).tally.packets,
                            old(self).limit,
                        ) {
                            PumpAction::Stop(StopReason::CountReached)
                        } else {
                            PumpAction::ReadNext
                        },
                        PumpEvent::Timeout => PumpAction::ReadNext,
                        PumpEvent::SourceEnded { interrupted } => if interrupted {
                            PumpAction::Stop(StopReason::Interrupted)
                        } else {
                            PumpAction::Stop(StopReason::SourceEnded)
                        },
                        _ => PumpAction::Stop(StopReason::ReadFailed),
                    })
                },
            },
    {
        match event {
            PumpEvent::Interrupted => PumpAction::Stop(StopReason::Interrupted),
            PumpEvent::Packet { caplen, wirelen, timestamp } => {
                self.tally.record(caplen, wirelen);
                self.time_span.record(timestamp);
                PumpAction::Deliver(
                    PacketMetadata { number: self.tally.packets(), timestamp, caplen, wirelen },
                )
            },
            PumpEvent::Delivered { output_ok } => {
                if !output_ok {
                    PumpAction::Stop(StopReason::OutputClosed)
                } else if self.tally.limit_reached(self.limit) {
                    PumpAction::Stop(StopReason::CountReached)
                } else {
                    PumpAction::ReadNext
                }
            },
            PumpEvent::Timeout => PumpAction::ReadNext,
            PumpEvent::SourceEnded { interrupted } => {
                if interrupted {
                    PumpAction::Stop(StopReason::Interrupted)
                } else {
                    PumpAction::Stop(StopReason::SourceEnded)
                }
            },
            PumpEvent::ReadFailed => PumpAction::Stop(StopReason::ReadFailed),
        }
    }

    /// What the pass produced, once it stopped for `stop_reason`.
    pub fn finish(self, stop_reason: StopReason) -> (run: PacketRun)
        ensures
            run.tally == self.tally,
            run.time_span == self.time_span,
            run.stop_reason == stop_reason,
    {
        PacketRun { tally: self.tally, time_span: self.time_span, stop_reason }
    }
}

} // verus!
