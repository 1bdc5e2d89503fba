//! What a flow accumulates as its packets go by.

use vstd::prelude::*;

use crate::capture::stats::saturating_sum;
use crate::capture::timestamp::{PacketTimestamp, lemma_timestamp_fields_determine};
use crate::decode::types::{TCP_FIN, TCP_RST, TCP_SYN, bit_set};
use crate::decode::{TcpFlags, TransportLayer};
use crate::flow::key::{Direction, FlowKey};

verus! {

/// Counters for one direction of a flow.
#[derive(Debug, Clone, Copy, PartialEq, Eq)]
pub struct DirectionStats {
    /// Packets seen travelling this way.
    pub packets: u64,
    /// Bytes of those packets that the capture actually kept.
    pub captured_bytes: u64,
    /// Bytes those packets occupied on the wire.
    ///
    /// Larger than `captured_bytes` when the capture's snapshot length
    /// truncated them. Kept separate so that "how much data moved" and "how
    /// much data we have" stay distinguishable.
    pub wire_bytes: u64,
}

impl Default for DirectionStats {
    /// Nothing seen.
    fn default() -> (stats: Self)
        ensures
            stats == (DirectionStats { packets: 0, captured_bytes: 0, wire_bytes: 0 }),
    {
        DirectionStats { packets: 0, captured_bytes: 0, wire_bytes: 0 }
    }
}

/// The counters after one more packet, each held at `u64::MAX`.
pub open spec fn direction_recorded(stats: DirectionStats, caplen: u32, wirelen: u32) -> DirectionStats {
    DirectionStats {
        packets: saturating_sum(stats.packets as int, 1) as u64,
        captured_bytes: saturating_sum(stats.captured_bytes as int, caplen as int) as u64,
        wire_bytes: saturating_sum(stats.wire_bytes as int, wirelen as int) as u64,
    }
}

impl DirectionStats {
    /// Adds one packet.
    ///
    /// Saturating throughout: the lengths come from a capture file, which is
    /// attacker-controlled input. A counter that stops climbing is wrong; a
    /// tool that aborts mid-analysis because a counter wrapped is worse.
    fn record(&mut self, caplen: u32, wirelen: u32)
        ensures
            *final(self) == direction_recorded(*old(self), caplen, wirelen),
    {
        self.packets = self.packets.saturating_add(1);
        self.captured_bytes = self.captured_bytes.saturating_add(caplen as u64);
        self.wire_bytes = self.wire_bytes.saturating_add(wirelen as u64);
    }
}

/// Cheap TCP facts for one direction of a flow.
///
/// These are counters and a bitwise OR, not a state machine.
#[derive(Debug, Clone, Copy, PartialEq, Eq)]
pub struct TcpDirectionFacts {
    /// Every flag bit seen in this direction, OR-ed together.
    pub flags_seen: TcpFlags,
    /// Segments with SYN set.
    pub syn: u64,
    /// Segments with FIN set.
    pub fin: u64,
    /// Segments with RST set.
    pub rst: u64,
}

impl Default for TcpDirectionFacts {
    /// No segment seen.
    fn default() -> (facts: Self)
        ensures
            facts == (TcpDirectionFacts { flags_seen: TcpFlags(0), syn: 0, fin: 0, rst: 0 }),
    {
        TcpDirectionFacts { flags_seen: TcpFlags(0), syn: 0, fin: 0, rst: 0 }
    }
}

/// A counter plus one when `hit`, held at `u64::MAX`.
pub open spec fn count_if(counter: u64, hit: bool) -> u64 {
    if hit {
        saturating_sum(counter as int, 1) as u64
    } else {
        counter
    }
}

/// The facts after one more segment with `flags`.
pub open spec fn facts_recorded(facts: TcpDirectionFacts, flags: TcpFlags) -> TcpDirectionFacts {
    TcpDirectionFacts {
        flags_seen: TcpFlags(facts.flags_seen.0 | flags.0),
        syn: count_if(facts.syn, bit_set(flags.0, TCP_SYN)),
        fin: count_if(facts.fin, bit_set(flags.0, TCP_FIN)),
        rst: count_if(facts.rst, bit_set(flags.0, TCP_RST)),
    }
}

impl TcpDirectionFacts {
    /// Folds one segment's flags in.
    fn record(&mut self, flags: TcpFlags)
        ensures
            *final(self) == facts_recorded(*old(self), flags),
    {
        self.flags_seen = TcpFlags(self.flags_seen.0 | flags.0);
        if flags.has_syn() {
            self.syn = self.syn.saturating_add(1);
        }
        if flags.has_fin() {
            self.fin = self.fin.saturating_add(1);
        }
        if flags.is_reset() {
            self.rst = self.rst.saturating_add(1);
        }
    }
}

/// TCP facts for both directions of a flow.
#[derive(Debug, Clone, Copy, PartialEq, Eq)]
pub struct TcpFacts {
    /// Facts about packets from A to B.
    pub a_to_b: TcpDirectionFacts,
    /// Facts about packets from B to A.
    pub b_to_a: TcpDirectionFacts,
}

impl Default for TcpFacts {
    /// No segment seen either way.
    fn default() -> (facts: Self)
        ensures
            facts.a_to_b == (TcpDirectionFacts { flags_seen: TcpFlags(0), syn: 0, fin: 0, rst: 0 }),
            facts.b_to_a == (TcpDirectionFacts { flags_seen: TcpFlags(0), syn: 0, fin: 0, rst: 0 }),
    {
        TcpFacts { a_to_b: TcpDirectionFacts::default(), b_to_a: TcpDirectionFacts::default() }
    }
}

/// No TCP segment seen either way.
pub open spec fn no_tcp_facts() -> TcpFacts {
    TcpFacts {
        a_to_b: TcpDirectionFacts { flags_seen: TcpFlags(0), syn: 0, fin: 0, rst: 0 },
        b_to_a: TcpDirectionFacts { flags_seen: TcpFlags(0), syn: 0, fin: 0, rst: 0 },
    }
}

/// One tracked conversation.
#[derive(Debug, Clone, Copy, PartialEq, Eq)]
pub struct Flow {
    /// Which conversation this is.
    pub key: FlowKey,
    /// The earliest timestamp seen on any of its packets.
    pub first_seen: PacketTimestamp,
    /// The latest timestamp seen on any of its packets.
    pub last_seen: PacketTimestamp,
    /// Counters for packets from A to B.
    pub a_to_b: DirectionStats,
    /// Counters for packets from B to A.
    pub b_to_a: DirectionStats,
    /// TCP facts, when this is a TCP flow.
    pub tcp: Option<TcpFacts>,
}

/// The earlier of two timestamps, in the order their fields sort.
pub open spec fn earlier(x: PacketTimestamp, y: PacketTimestamp) -> PacketTimestamp {
    if y.spec_not_after(x) {
        y
    } else {
        x
    }
}

/// The later of two timestamps, in the order their fields sort.
pub open spec fn later(x: PacketTimestamp, y: PacketTimestamp) -> PacketTimestamp {
    if x.spec_not_after(y) {
        y
    } else {
        x
    }
}

/// The TCP facts after one more packet: a TCP segment is folded into the
/// facts of its direction, creating them if this is the first; anything else
/// leaves them as they were.
pub open spec fn tcp_recorded(
    tcp: Option<TcpFacts>,
    direction: Direction,
    transport: Option<TransportLayer>,
) -> Option<TcpFacts> {
    match transport {
        Some(TransportLayer::Tcp(segment)) => {
            let facts = match tcp {
                Some(facts) => facts,
                None => no_tcp_facts(),
            };
            Some(
                if direction == Direction::AtoB {
                    TcpFacts {
                        a_to_b: facts_recorded(facts.a_to_b, segment.flags),
                        b_to_a: facts.b_to_a,
                    }
                } else {
                    TcpFacts {
                        a_to_b: facts.a_to_b,
                        b_to_a: facts_recorded(facts.b_to_a, segment.flags),
                    }
                },
            )
        },
        _ => tcp,
    }
}

impl Flow {
    /// The first-seen stamp is not after the last-seen one.
    pub open spec fn well_formed(self) -> bool {
        self.first_seen.spec_not_after(self.last_seen)
    }

    /// The flow a first packet at `timestamp` starts, before it is counted.
    pub open spec fn spec_new(key: FlowKey, timestamp: PacketTimestamp) -> Flow {
        Flow {
            key,
            first_seen: timestamp,
            last_seen: timestamp,
            a_to_b: DirectionStats { packets: 0, captured_bytes: 0, wire_bytes: 0 },
            b_to_a: DirectionStats { packets: 0, captured_bytes: 0, wire_bytes: 0 },
            tcp: None,
        }
    }

    /// The flow after one more packet.
    pub open spec fn spec_recorded(
        self,
        direction: Direction,
        timestamp: PacketTimestamp,
        caplen: u32,
        wirelen: u32,
        transport: Option<TransportLayer>,
    ) -> Flow {
        Flow {
            key: self.key,
            first_seen: earlier(self.first_seen, timestamp),
            last_seen: later(self.last_seen, timestamp),
            a_to_b: if direction == Direction::AtoB {
                direction_recorded(self.a_to_b, caplen, wirelen)
            } else {
                self.a_to_b
            },
            b_to_a: if direction == Direction::BtoA {
                direction_recorded(self.b_to_a, caplen, wirelen)
            } else {
                self.b_to_a
            },
            tcp: tcp_recorded(self.tcp, direction, transport),
        }
    }

    /// The microseconds from the first-seen stamp to the last-seen one, when
    /// both are points in time and the distance fits.
    pub open spec fn spec_duration(self) -> Option<u64> {
        match (
            self.first_seen.spec_micros_since_epoch(),
            self.last_seen.spec_micros_since_epoch(),
        ) {
            (Some(f), Some(l)) => if 0 <= l - f <= u64::MAX {
                Some((l - f) as u64)
            } else {
                None
            },
            _ => None,
        }
    }
}

impl Flow {
    /// Starts a flow from its first packet, which is then counted with
    /// `record`.
    pub fn new(key: FlowKey, timestamp: PacketTimestamp) -> (flow: Self)
        ensures
            flow == Flow::spec_new(key, timestamp),
            flow.well_formed(),
    {
        Self {
            key,
            first_seen: timestamp,
            last_seen: timestamp,
            a_to_b: DirectionStats::default(),
            b_to_a: DirectionStats::default(),
            tcp: None,
        }
    }

    /// Folds one packet into the flow.
    ///
    /// The first- and last-seen stamps are the minimum and maximum, not the
    /// first and last arrival: capture files are not required to be in
    /// timestamp order, and taking the ends of the range keeps the duration
    /// from going backwards.
    pub fn record(
        &mut self,
        direction: Direction,
        timestamp: PacketTimestamp,
        caplen: u32,
        wirelen: u32,
        transport: Option<&TransportLayer>,
    )
        ensures
            *final(self) == old(self).spec_recorded(
                direction,
                timestamp,
                caplen,
                wirelen,
                match transport {
                    Some(t) => Some(*t),
                    None => None,
                },
            ),
            old(self).well_formed() ==> final(self).well_formed(),
    {
        if timestamp.not_after(self.first_seen) {
            self.first_seen = timestamp;
        }
        if self.last_seen.not_after(timestamp) {
            self.last_seen = timestamp;
        }
        match direction {
            Direction::AtoB => self.a_to_b.record(caplen, wirelen),
            Direction::BtoA => self.b_to_a.record(caplen, wirelen),
        }
        if let Some(TransportLayer::Tcp(segment)) = transport {
            let mut facts = match self.tcp {
                Some(facts) => facts,
                None => TcpFacts::default(),
            };
            match direction {
                Direction::AtoB => facts.a_to_b.record(segment.flags),
                Direction::BtoA => facts.b_to_a.record(segment.flags),
            }
            self.tcp = Some(facts);
        }
    }

    /// The earliest timestamp seen on this flow.
    pub fn first_seen(&self) -> (first: PacketTimestamp)
        ensures
            first == self.first_seen,
    {
        self.first_seen
    }

    /// The latest timestamp seen on this flow.
    pub fn last_seen(&self) -> (last: PacketTimestamp)
        ensures
            last == self.last_seen,
    {
        self.last_seen
    }

    /// How long the conversation lasted, in microseconds.
    ///
    /// Returns `None` when either end is a timestamp that is not a point in
    /// time, rather than producing a duration from nonsense.
    pub fn duration(&self) -> (micros: Option<u64>)
        ensures
            micros == self.spec_duration(),
    {
        let (f, l) = match (self.first_seen.micros_since_epoch(), self.last_seen.micros_since_epoch()) {
            (Some(f), Some(l)) => (f, l),
            _ => return None,
        };
        let difference = l - f;
        if 0 <= difference && difference <= u64::MAX as i128 {
            Some(difference as u64)
        } else {
            None
        }
    }

    /// Packets in both directions.
    pub fn total_packets(&self) -> (total: u64)
        ensures
            total == saturating_sum(self.a_to_b.packets as int, self.b_to_a.packets as int),
    {
        self.a_to_b.packets.saturating_add(self.b_to_a.packets)
    }

    /// Captured bytes in both directions.
    pub fn total_captured_bytes(&self) -> (total: u64)
        ensures
            total == saturating_sum(
                self.a_to_b.captured_bytes as int,
                self.b_to_a.captured_bytes as int,
            ),
    {
        self.a_to_b.captured_bytes.saturating_add(self.b_to_a.captured_bytes)
    }

    /// Wire bytes in both directions.
    pub fn total_wire_bytes(&self) -> (total: u64)
        ensures
            total == saturating_sum(self.a_to_b.wire_bytes as int, self.b_to_a.wire_bytes as int),
    {
        self.a_to_b.wire_bytes.saturating_add(self.b_to_a.wire_bytes)
    }
}

/// Recording packets keeps the first-seen stamp at or before every packet's
/// stamp and the last-seen stamp at or after it, whatever order the packets
/// arrive in: the duration never runs backwards.
pub proof fn law_flow_bounds_every_timestamp(
    flow: Flow,
    direction: Direction,
    timestamp: PacketTimestamp,
    caplen: u32,
    wirelen: u32,
    transport: Option<TransportLayer>,
)
    requires
        flow.well_formed(),
    ensures
        ({
            let after = flow.spec_recorded(direction, timestamp, caplen, wirelen, transport);
            &&& after.well_formed()
            &&& after.first_seen.spec_not_after(timestamp)
            &&& timestamp.spec_not_after(after.last_seen)
            &&& after.first_seen.spec_not_after(flow.first_seen)
            &&& flow.last_seen.spec_not_after(after.last_seen)
        }),
{
}


/// One packet as it is counted into a flow.
pub struct FlowPacket {
    /// Which way it travelled.
    pub direction: Direction,
    /// When it was captured.
    pub timestamp: PacketTimestamp,
    /// Bytes captured.
    pub caplen: u32,
    /// Bytes on the wire.
    pub wirelen: u32,
    /// Its transport header, if one was decoded.
    pub transport: Option<TransportLayer>,
}

/// The flow after `packet` was counted into it.
pub open spec fn counted(flow: Flow, packet: FlowPacket) -> Flow {
    flow.spec_recorded(packet.direction, packet.timestamp, packet.caplen, packet.wirelen, packet.transport)
}

/// The earlier of three stamps does not depend on the order they are taken in.
proof fn lemma_earlier_swaps(x: PacketTimestamp, y: PacketTimestamp, z: PacketTimestamp)
    ensures
        earlier(earlier(x, y), z) == earlier(earlier(x, z), y),
        later(later(x, y), z) == later(later(x, z), y),
{
    if y.spec_seconds() == z.spec_seconds() && y.spec_microseconds() == z.spec_microseconds() {
        lemma_timestamp_fields_determine(y, z);
    }
}

/// One saturating step after another gives the same counter in either order.
proof fn lemma_saturating_steps_swap(a: u64, x: int, y: int)
    requires
        x >= 0,
        y >= 0,
    ensures
        saturating_sum(saturating_sum(a as int, x) as u64 as int, y) == saturating_sum(
            saturating_sum(a as int, y) as u64 as int,
            x,
        ),
{
}

/// Counting two segments into one direction's TCP facts gives the same facts
/// in either order.
proof fn lemma_facts_swap(facts: TcpDirectionFacts, f: TcpFlags, g: TcpFlags)
    ensures
        facts_recorded(facts_recorded(facts, f), g) == facts_recorded(facts_recorded(facts, g), f),
{
    let (s, a, b) = (facts.flags_seen.0, f.0, g.0);
    assert((s | a) | b == (s | b) | a) by (bit_vector);
    lemma_saturating_steps_swap(facts.syn, 1, 1);
    lemma_saturating_steps_swap(facts.fin, 1, 1);
    lemma_saturating_steps_swap(facts.rst, 1, 1);
}

/// Counting two packets into a flow gives the same flow in either order: a
/// conversation does not depend on the order its packets were read in, so a
/// capture read backwards produces the same flows.
pub proof fn law_flow_counting_is_order_free(flow: Flow, first: FlowPacket, second: FlowPacket)
    ensures
        counted(counted(flow, first), second) == counted(counted(flow, second), first),
{
    lemma_earlier_swaps(flow.first_seen, first.timestamp, second.timestamp);
    lemma_earlier_swaps(flow.last_seen, first.timestamp, second.timestamp);
    lemma_saturating_steps_swap(flow.a_to_b.packets, 1, 1);
    lemma_saturating_steps_swap(flow.a_to_b.captured_bytes, first.caplen as int, second.caplen as int);
    lemma_saturating_steps_swap(flow.a_to_b.wire_bytes, first.wirelen as int, second.wirelen as int);
    lemma_saturating_steps_swap(flow.b_to_a.packets, 1, 1);
    lemma_saturating_steps_swap(flow.b_to_a.captured_bytes, first.caplen as int, second.caplen as int);
    lemma_saturating_steps_swap(flow.b_to_a.wire_bytes, first.wirelen as int, second.wirelen as int);
    if let (Some(TransportLayer::Tcp(one)), Some(TransportLayer::Tcp(two))) = (first.transport, second.transport) {
        let facts = match flow.tcp {
            Some(facts) => facts,
            None => no_tcp_facts(),
        };
        lemma_facts_swap(facts.a_to_b, one.flags, two.flags);
        lemma_facts_swap(facts.b_to_a, one.flags, two.flags);
    }
}


/// Two packets that start a flow between them end with the same flow in
/// either order: the one seen first starts it, the other is counted into it.
pub proof fn lemma_fresh_flow_is_order_free(key: FlowKey, first: FlowPacket, second: FlowPacket)
    ensures
        counted(counted(Flow::spec_new(key, first.timestamp), first), second) == counted(
            counted(Flow::spec_new(key, second.timestamp), second),
            first,
        ),
{
    let (x, y) = (first.timestamp, second.timestamp);
    if x.spec_seconds() == y.spec_seconds() && x.spec_microseconds() == y.spec_microseconds() {
        lemma_timestamp_fields_determine(x, y);
    }
    lemma_saturating_steps_swap(0, 1, 1);
    lemma_saturating_steps_swap(0, first.caplen as int, second.caplen as int);
    lemma_saturating_steps_swap(0, first.wirelen as int, second.wirelen as int);
    if let (Some(TransportLayer::Tcp(one)), Some(TransportLayer::Tcp(two))) = (first.transport, second.transport) {
        lemma_facts_swap(no_tcp_facts().a_to_b, one.flags, two.flags);
        lemma_facts_swap(no_tcp_facts().b_to_a, one.flags, two.flags);
    }
}

} // verus!
