//! Counting a capture and reporting how it went.
//!
//! None of this touches the network: it is the arithmetic and the outcome of a
//! capture run, split out from the engine so it can be checked on its own.
//! Durations are whole microseconds.

use vstd::prelude::*;

use crate::capture::timestamp::PacketTimestamp;
use crate::error::NetSentryError;

verus! {

/// `a + b`, held at `u64::MAX` instead of wrapping.
pub open spec fn saturating_sum(a: int, b: int) -> int {
    if a + b > u64::MAX {
        u64::MAX as int
    } else {
        a + b
    }
}

/// `a + b` for two counters, held at `u64::MAX`.
pub open spec fn sum_u64(a: u64, b: u64) -> u64 {
    saturating_sum(a as int, b as int) as u64
}

/// A counter plus one, held at `u64::MAX`.
pub open spec fn bump(counter: u64) -> u64 {
    saturating_sum(counter as int, 1) as u64
}

/// Packet counters reported by the capture driver itself.
#[derive(Debug, Clone, Copy, PartialEq, Eq)]
pub struct DriverStats {
    /// Packets the driver received.
    pub received: u32,
    /// Packets dropped because the capture buffer was full.
    pub dropped: u32,
    /// Packets dropped by the interface or its driver.
    ///
    /// Not every platform reports this. libpcap sets it to zero where it is
    /// unsupported, and gives no way to tell that apart from "none dropped",
    /// so this number is presented with that caveat attached.
    pub if_dropped: u32,
}

/// Why a capture run ended.
#[derive(Debug, Clone, Copy, PartialEq, Eq, Structural)]
pub enum StopReason {
    /// The requested packet count was reached.
    CountReached,
    /// The user interrupted the capture.
    Interrupted,
    /// The capture source stopped producing packets.
    SourceEnded,
    /// The output the packets were being written to went away.
    OutputClosed,
    /// The source could not be read any further.
    ///
    /// On a file this means the capture is truncated or corrupt from that
    /// point on; the packets before it are still valid.
    ReadFailed,
}

/// Running totals for a capture.
#[derive(Debug, Clone, Copy, PartialEq, Eq)]
pub struct CaptureTally {
    /// Packets recorded so far.
    pub packets: u64,
    /// Bytes captured so far.
    pub captured_bytes: u64,
    /// Bytes those packets occupied on the wire.
    pub wire_bytes: u64,
}

impl Default for CaptureTally {
    /// No packets and no bytes.
    fn default() -> (tally: Self)
        ensures
            tally.packets == 0,
            tally.captured_bytes == 0,
            tally.wire_bytes == 0,
    {
        CaptureTally { packets: 0, captured_bytes: 0, wire_bytes: 0 }
    }
}

impl CaptureTally {
    /// Whether a packet limit has been met by `packets` recorded packets.
    pub open spec fn spec_limit_reached(packets: u64, limit: Option<u64>) -> bool {
        match limit {
            Some(limit) => packets >= limit,
            None => false,
        }
    }

    /// Adds one packet to the totals.
    ///
    /// Saturating arithmetic: a counter that stops climbing is wrong, but a
    /// capture tool that aborts mid-run because a counter wrapped is worse.
    pub fn record(&mut self, caplen: u32, wirelen: u32)
        ensures
            final(self).packets == saturating_sum(old(self).packets as int, 1),
            final(self).captured_bytes == saturating_sum(old(self).captured_bytes as int, caplen as int),
            final(self).wire_bytes == saturating_sum(old(self).wire_bytes as int, wirelen as int),
    {
        self.packets = self.packets.saturating_add(1);
        self.captured_bytes = self.captured_bytes.saturating_add(caplen as u64);
        self.wire_bytes = self.wire_bytes.saturating_add(wirelen as u64);
    }

    /// Packets recorded so far.
    pub fn packets(self) -> (packets: u64)
        ensures
            packets == self.packets,
    {
        self.packets
    }

    /// Bytes captured so far.
    pub fn captured_bytes(self) -> (bytes: u64)
        ensures
            bytes == self.captured_bytes,
    {
        self.captured_bytes
    }

    /// Bytes those packets occupied on the wire.
    pub fn wire_bytes(self) -> (bytes: u64)
        ensures
            bytes == self.wire_bytes,
    {
        self.wire_bytes
    }

    /// Whether a packet limit has been met.
    pub fn limit_reached(self, limit: Option<u64>) -> (reached: bool)
        ensures
            reached == Self::spec_limit_reached(self.packets, limit),
    {
        match limit {
            Some(limit) => self.packets >= limit,
            None => false,
        }
    }
}

/// The span of time a run's packets cover, as the packets themselves report it.
///
/// This is deliberately not the same thing as how long the run took. For a live
/// capture the two are close; for a file they are unrelated, because reading a
/// three-hour capture takes a fraction of a second.
#[derive(Debug, Clone, Copy, PartialEq, Eq)]
pub struct TimeSpan {
    first: Option<PacketTimestamp>,
    last: Option<PacketTimestamp>,
}

/// The first and last stamps of a span after more packets stamped `stamps`
/// were recorded into one whose first and last stamps are `first` and
/// `last`, one after another.
pub open spec fn stamps_after(
    first: Option<PacketTimestamp>,
    last: Option<PacketTimestamp>,
    stamps: Seq<PacketTimestamp>,
) -> (Option<PacketTimestamp>, Option<PacketTimestamp>)
    decreases stamps.len(),
{
    if stamps.len() == 0 {
        (first, last)
    } else {
        let next_first = match first {
            Some(earliest) => Some(earliest),
            None => Some(stamps[0]),
        };
        stamps_after(next_first, Some(stamps[0]), stamps.drop_first())
    }
}

/// A span keeps arrival order, not timestamp order: recording packets one
/// after another into an empty span leaves the first packet's stamp as the
/// first and the last packet's stamp as the last, whatever the stamps are.
/// A capture whose clock went backwards is reported as it was, not
/// reordered.
pub proof fn law_span_keeps_arrival_order(stamps: Seq<PacketTimestamp>)
    requires
        stamps.len() >= 1,
    ensures
        stamps_after(None, None, stamps) == (Some(stamps[0]), Some(stamps.last())),
{
    lemma_stamps_after_started(stamps[0], Some(stamps[0]), stamps.drop_first());
    assert(stamps.drop_first().len() > 0 ==> stamps.drop_first().last() == stamps.last());
}

/// Once a span has a first stamp, more packets keep it and leave the last
/// one's stamp as the last.
proof fn lemma_stamps_after_started(
    first: PacketTimestamp,
    last: Option<PacketTimestamp>,
    stamps: Seq<PacketTimestamp>,
)
    ensures
        stamps_after(Some(first), last, stamps) == (
            Some(first),
            if stamps.len() == 0 {
                last
            } else {
                Some(stamps.last())
            },
        ),
    decreases stamps.len(),
{
    if stamps.len() > 0 {
        lemma_stamps_after_started(first, Some(stamps[0]), stamps.drop_first());
        if stamps.len() > 1 {
            assert(stamps.drop_first().last() == stamps.last());
        }
    }
}

impl Default for TimeSpan {
    /// A span that has seen no packet.
    fn default() -> (span: Self)
        ensures
            span.spec_first() is None,
            span.spec_last() is None,
    {
        TimeSpan { first: None, last: None }
    }
}

impl TimeSpan {
    /// The timestamp of the first packet recorded.
    pub closed spec fn spec_first(self) -> Option<PacketTimestamp> {
        self.first
    }

    /// The timestamp of the last packet recorded.
    pub closed spec fn spec_last(self) -> Option<PacketTimestamp> {
        self.last
    }

    /// The microseconds from `first` to `last`, when both are points in time
    /// and `last` is not earlier than `first`.
    pub open spec fn spec_duration(self) -> Option<u64> {
        match (self.spec_first(), self.spec_last()) {
            (Some(first), Some(last)) => match (
                first.spec_micros_since_epoch(),
                last.spec_micros_since_epoch(),
            ) {
                (Some(f), Some(l)) => if 0 <= l - f <= u64::MAX {
                    Some((l - f) as u64)
                } else {
                    None
                },
                _ => None,
            },
            _ => None,
        }
    }

    /// Whether the last packet is stamped no earlier than the first.
    pub open spec fn spec_is_monotonic(self) -> bool {
        match (self.spec_first(), self.spec_last()) {
            (Some(first), Some(last)) => match (
                first.spec_micros_since_epoch(),
                last.spec_micros_since_epoch(),
            ) {
                (Some(f), Some(l)) => l >= f,
                _ => false,
            },
            _ => true,
        }
    }

    /// Records a packet's timestamp.
    pub fn record(&mut self, timestamp: PacketTimestamp)
        ensures
            final(self).spec_first() == (match old(self).spec_first() {
                Some(first) => Some(first),
                None => Some(timestamp),
            }),
            final(self).spec_last() == Some(timestamp),
            (final(self).spec_first(), final(self).spec_last()) == stamps_after(
                old(self).spec_first(),
                old(self).spec_last(),
                seq![timestamp],
            ),
    {
        proof {
            reveal_with_fuel(stamps_after, 2);
            assert(seq![timestamp].drop_first().len() == 0);
        }
        if self.first.is_none() {
            self.first = Some(timestamp);
        }
        self.last = Some(timestamp);
    }

    /// The timestamp of the first packet seen, if there was one.
    pub fn first(self) -> (first: Option<PacketTimestamp>)
        ensures
            first == self.spec_first(),
    {
        self.first
    }

    /// The timestamp of the last packet seen, if there was one.
    pub fn last(self) -> (last: Option<PacketTimestamp>)
        ensures
            last == self.spec_last(),
    {
        self.last
    }

    /// How much time the packets span, in microseconds.
    ///
    /// Returns `None` when the last packet is stamped *earlier* than the
    /// first, or when either is not a point in time: rather than report a
    /// negative or wrapped duration, this says it cannot tell.
    pub fn duration(self) -> (micros: Option<u64>)
        ensures
            micros == self.spec_duration(),
    {
        let (first, last) = match (self.first, self.last) {
            (Some(first), Some(last)) => (first, last),
            _ => return None,
        };
        let (f, l) = match (first.micros_since_epoch(), last.micros_since_epoch()) {
            (Some(f), Some(l)) => (f, l),
            _ => return None,
        };
        let difference = l - f;
        if 0 <= difference && difference <= u64::MAX as i128 {
            Some(difference as u64)
        } else {
            None
        }
    }

    /// Whether the last packet is stamped no earlier than the first.
    ///
    /// A capture whose timestamps go backwards is worth knowing about: it means
    /// merged files, a clock adjustment mid-capture, or tampering. An empty
    /// span cannot contradict itself.
    pub fn is_monotonic(self) -> (monotonic: bool)
        ensures
            monotonic == self.spec_is_monotonic(),
    {
        match (self.first, self.last) {
            (Some(first), Some(last)) => match (
                first.micros_since_epoch(),
                last.micros_since_epoch(),
            ) {
                (Some(f), Some(l)) => l >= f,
                _ => false,
            },
            _ => true,
        }
    }
}

/// What one pass over a packet source produced, before either kind of capture
/// adds its own context to it.
#[derive(Debug, Clone, Copy, PartialEq, Eq)]
pub struct PacketRun {
    /// Packet and byte totals.
    pub tally: CaptureTally,
    /// The span the packets themselves cover.
    pub time_span: TimeSpan,
    /// Why the pass ended.
    pub stop_reason: StopReason,
}

/// Everything worth reporting once a live capture run is over.
#[derive(Debug)]
pub struct CaptureSummary {
    /// Final packet and byte totals.
    pub tally: CaptureTally,
    /// Wall-clock duration of the run in microseconds, measured monotonically.
    pub elapsed: u64,
    /// When the run started, for the record.
    pub started_at: Option<PacketTimestamp>,
    /// Why the run ended.
    pub stop_reason: StopReason,
    /// Driver counters, or the error that prevented reading them.
    ///
    /// Held as a `Result` rather than returned as one: failing to read
    /// statistics must not cost the user the rest of the summary.
    pub driver_stats: Result<DriverStats, NetSentryError>,
}

/// Everything worth reporting after analysing a capture file.
///
/// A live summary reports what the driver saw and how long NetSentry watched;
/// a file summary reports what the file contains and when that traffic
/// happened. Driver statistics have no meaning for a file at all.
#[derive(Debug)]
pub struct FileSummary {
    /// Packet and byte totals read from the file.
    pub tally: CaptureTally,
    /// The span the file's packets cover, per their own timestamps.
    pub time_span: TimeSpan,
    /// Why reading stopped.
    pub stop_reason: StopReason,
    /// How long NetSentry took to read the file, in microseconds.
    ///
    /// Wall-clock time spent working, which says nothing about when the traffic
    /// happened: the time span answers that.
    pub processing_time: u64,
    /// The failure that ended reading early, if one did.
    ///
    /// Held here rather than returned so that a truncated file still reports
    /// the packets it did contain.
    pub read_error: Option<NetSentryError>,
}

} // verus!
