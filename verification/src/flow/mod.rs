//! Flow tracking: grouping packets into the conversations they belong to.
//!
//! The tracker takes decoded packets and their metadata, never raw bytes: it
//! computes no offsets and parses no headers, so the decoder stays the single
//! source of truth about what a packet contains.
//!
//! Only TCP and UDP form flows: both have ports, and a port pair is what makes
//! two endpoints a conversation rather than two hosts that exchanged
//! something. ICMP has no ports, and ARP is not IP at all. Neither is dropped
//! from the packet view; both are counted in [`UntrackedCounts`] so that the
//! summary can say what it left out rather than quietly narrowing the picture.

pub mod accounting;
pub mod key;
pub mod order;
pub mod stats;

pub use key::{Direction, Endpoint, FlowKey, FlowProtocol};
pub use stats::{DirectionStats, Flow, TcpDirectionFacts, TcpFacts};

use vstd::prelude::*;

use crate::capture::pump::PacketMetadata;
use crate::capture::stats::{bump, sum_u64};
use crate::decode::model::{DecodedPacketView, NetworkLayerView};
use crate::decode::{DecodeStop, DecodedPacket, NetworkLayer, TransportLayer};
use crate::flow::key::{Placement, compare_keys, key_rank, lemma_key_rank_injective, spec_from_packet};

verus! {

/// How many flows to track before refusing to start new ones.
///
/// A bound matters because the input is attacker-controlled: a crafted
/// capture can name a million distinct endpoints as cheaply as one.
pub const DEFAULT_MAX_FLOWS: usize = 100_000;

/// Why a packet could not be put into a flow.
///
/// Every one of these is a normal thing to see in a capture, not an error.
#[derive(Debug, Clone, Copy, PartialEq, Eq)]
pub struct UntrackedCounts {
    /// ARP packets, which have no IP layer to key a flow on.
    pub arp: u64,
    /// ICMP and ICMPv6 messages, which have no ports.
    pub icmp: u64,
    /// Fragments other than the first, whose ports are in another packet.
    pub later_fragments: u64,
    /// Packets whose headers did not decode far enough to identify a flow.
    pub undecoded: u64,
    /// Packets carrying an IP protocol NetSentry forms no flows for.
    pub other_protocol: u64,
    /// Packets that would have started a new flow after the limit was reached.
    pub over_flow_limit: u64,
}

impl Default for UntrackedCounts {
    /// Nothing left out.
    fn default() -> (counts: Self)
        ensures
            counts == (UntrackedCounts {
                arp: 0,
                icmp: 0,
                later_fragments: 0,
                undecoded: 0,
                other_protocol: 0,
                over_flow_limit: 0,
            }),
    {
        UntrackedCounts {
            arp: 0,
            icmp: 0,
            later_fragments: 0,
            undecoded: 0,
            other_protocol: 0,
            over_flow_limit: 0,
        }
    }
}

/// The six counters added up, each addition held at `u64::MAX`.
pub open spec fn untracked_total(counts: UntrackedCounts) -> u64 {
    sum_u64(
        sum_u64(
            sum_u64(sum_u64(sum_u64(counts.arp, counts.icmp), counts.later_fragments), counts.undecoded),
            counts.other_protocol,
        ),
        counts.over_flow_limit,
    )
}

impl UntrackedCounts {
    /// How many packets were left out of the flow table altogether.
    pub fn total(self) -> (total: u64)
        ensures
            total == untracked_total(self),
    {
        self.arp.saturating_add(self.icmp).saturating_add(self.later_fragments).saturating_add(
            self.undecoded,
        ).saturating_add(self.other_protocol).saturating_add(self.over_flow_limit)
    }

    /// Whether anything at all was left out.
    pub fn any(self) -> (any: bool)
        ensures
            any == (untracked_total(self) > 0),
    {
        self.total() > 0
    }
}

/// Why a packet that forms no flow was left out.
#[derive(Debug, Clone, Copy, PartialEq, Eq, Structural)]
pub enum UntrackedReason {
    /// An ARP packet.
    Arp,
    /// An ICMP or ICMPv6 message.
    Icmp,
    /// A fragment other than the first.
    LaterFragment,
    /// An IP protocol without flows.
    OtherProtocol,
    /// Headers that did not decode far enough.
    Undecoded,
}

/// The reason a packet that forms no flow is counted under: ARP first, then
/// ICMP, then a later fragment or an unsupported protocol above an IP header
/// with nothing decoded above it, and anything else as undecoded.
pub open spec fn spec_untracked_reason(packet: DecodedPacketView) -> UntrackedReason {
    match (packet.network, packet.transport, packet.stopped) {
        (Some(NetworkLayerView::Arp(_)), _, _) => UntrackedReason::Arp,
        (_, Some(TransportLayer::Icmp(_)), _) => UntrackedReason::Icmp,
        (Some(_), None, Some(DecodeStop::NonInitialFragment)) => UntrackedReason::LaterFragment,
        (Some(_), None, Some(DecodeStop::UnsupportedProtocol(_))) => UntrackedReason::OtherProtocol,
        _ => UntrackedReason::Undecoded,
    }
}

/// The counters with one more packet under `reason`.
pub open spec fn untracked_counted(counts: UntrackedCounts, reason: UntrackedReason) -> UntrackedCounts {
    match reason {
        UntrackedReason::Arp => UntrackedCounts {
            arp: bump(counts.arp),
            ..counts
        },
        UntrackedReason::Icmp => UntrackedCounts {
            icmp: bump(counts.icmp),
            ..counts
        },
        UntrackedReason::LaterFragment => UntrackedCounts {
            later_fragments: bump(counts.later_fragments),
            ..counts
        },
        UntrackedReason::OtherProtocol => UntrackedCounts {
            other_protocol: bump(counts.other_protocol),
            ..counts
        },
        UntrackedReason::Undecoded => UntrackedCounts {
            undecoded: bump(counts.undecoded),
            ..counts
        },
    }
}

/// A flow after the packet described by `metadata` and `transport`, going
/// `direction`, was counted into it.
pub open spec fn flow_after(
    flow: Flow,
    direction: Direction,
    metadata: PacketMetadata,
    transport: Option<TransportLayer>,
) -> Flow {
    flow.spec_recorded(direction, metadata.timestamp, metadata.caplen, metadata.wirelen, transport)
}

/// What happened to one packet offered to the table.
#[derive(Debug, Clone, Copy, PartialEq, Eq, Structural)]
pub enum RecordOutcome {
    /// The packet was counted into a flow.
    Counted,
    /// The packet belongs to no flow NetSentry forms.
    Untracked,
    /// The packet would have needed a new flow, and the limit was reached.
    OverLimit,
}

/// Whether some flow in `flows` has `key`.
pub open spec fn holds_key(flows: Seq<Flow>, key: FlowKey) -> bool {
    exists|i: int| 0 <= i < flows.len() && #[trigger] flows[i].key == key
}

/// Whether the flows are in strictly increasing key order, so that no key
/// occurs twice.
pub open spec fn keys_ascending(flows: Seq<Flow>) -> bool {
    forall|i: int, j: int|
        0 <= i < j < flows.len() ==> key_rank(#[trigger] flows[i].key) < key_rank(#[trigger] flows[j].key)
}

/// Whether a flow with `key` belongs at position `i` of `flows`: after every
/// flow with a lower key and before every flow with a higher one.
pub open spec fn fits_at(flows: Seq<Flow>, key: FlowKey, i: int) -> bool {
    &&& 0 <= i <= flows.len()
    &&& forall|k: int| 0 <= k < i ==> key_rank(#[trigger] flows[k].key) < key_rank(key)
    &&& forall|k: int| i <= k < flows.len() ==> key_rank(key) < key_rank(#[trigger] flows[k].key)
}

/// The position of the flow with `key`, when `flows` holds one.
pub open spec fn position_of(flows: Seq<Flow>, key: FlowKey) -> int {
    choose|i: int| 0 <= i < flows.len() && #[trigger] flows[i].key == key
}

/// A table's flows and counters after one more packet, the table holding
/// `flows` and `untracked` and tracking at most `max_flows` flows.
pub open spec fn table_after(
    flows: Seq<Flow>,
    max_flows: usize,
    untracked: UntrackedCounts,
    metadata: PacketMetadata,
    packet: DecodedPacketView,
) -> (Seq<Flow>, UntrackedCounts) {
    match spec_from_packet(packet) {
        None => (flows, untracked_counted(untracked, spec_untracked_reason(packet))),
        Some((key, direction)) => if holds_key(flows, key) {
            let i = position_of(flows, key);
            (flows.update(i, flow_after(flows[i], direction, metadata, packet.transport)), untracked)
        } else if flows.len() >= max_flows {
            (flows, UntrackedCounts { over_flow_limit: bump(untracked.over_flow_limit), ..untracked })
        } else {
            let i = choose|i: int| fits_at(flows, key, i);
            (
                flows.insert(
                    i,
                    flow_after(Flow::spec_new(key, metadata.timestamp), direction, metadata, packet.transport),
                ),
                untracked,
            )
        },
    }
}

/// Whether flow `f` is listed before flow `g`: by first-seen stamp (seconds,
/// then microseconds), then by key.
pub open spec fn flow_precedes(f: Flow, g: Flow) -> bool {
    let (fs, fu) = (f.first_seen.spec_seconds(), f.first_seen.spec_microseconds());
    let (gs, gu) = (g.first_seen.spec_seconds(), g.first_seen.spec_microseconds());
    ||| fs < gs
    ||| fs == gs && fu < gu
    ||| fs == gs && fu == gu && key_rank(f.key) < key_rank(g.key)
}

/// Whether the flows are listed in strictly increasing `flow_precedes` order.
pub open spec fn listed_in_order(flows: Seq<Flow>) -> bool {
    forall|i: int, j: int|
        0 <= i < j < flows.len() ==> flow_precedes(#[trigger] flows[i], #[trigger] flows[j])
}

/// Whether `listed` lists exactly the flows of `flows`, in order.
pub open spec fn lists_flows(flows: Seq<Flow>, listed: Seq<Flow>) -> bool {
    &&& listed.len() == flows.len()
    &&& listed_in_order(listed)
    &&& forall|i: int| 0 <= i < listed.len() ==> flows.contains(#[trigger] listed[i])
    &&& forall|j: int| 0 <= j < flows.len() ==> listed.contains(#[trigger] flows[j])
}

/// The flows in listing order: by first-seen stamp, then by key.
pub open spec fn listing(flows: Seq<Flow>) -> Seq<Flow> {
    choose|listed: Seq<Flow>| lists_flows(flows, listed)
}

/// Two listings in strict order of the same elements are the same listing.
proof fn lemma_listing_unique(s: Seq<Flow>, t: Seq<Flow>)
    requires
        s.len() == t.len(),
        listed_in_order(s),
        listed_in_order(t),
        forall|i: int| 0 <= i < s.len() ==> t.contains(#[trigger] s[i]),
        forall|i: int| 0 <= i < t.len() ==> s.contains(#[trigger] t[i]),
    ensures
        s == t,
    decreases s.len(),
{
    if s.len() > 0 {
        assert(t.contains(s[0]));
        assert(s.contains(t[0]));
        let j = choose|j: int| 0 <= j < s.len() && s[j] == t[0];
        let k = choose|k: int| 0 <= k < t.len() && t[k] == s[0];
        if s[0] != t[0] {
            assert(j != 0);
            assert(k != 0);
            assert(flow_precedes(s[0], s[j]));
            assert(flow_precedes(t[0], t[k]));
            assert(false);
        }
        let s1 = s.drop_first();
        let t1 = t.drop_first();
        assert forall|i: int| 0 <= i < s1.len() implies t1.contains(#[trigger] s1[i]) by {
            assert(s1[i] == s[i + 1]);
            assert(t.contains(s[i + 1]));
            let m = choose|m: int| 0 <= m < t.len() && t[m] == s[i + 1];
            assert(flow_precedes(s[0], s[i + 1]));
            if m == 0 {
                assert(false);
            }
            assert(t1[m - 1] == t[m]);
        }
        assert forall|i: int| 0 <= i < t1.len() implies s1.contains(#[trigger] t1[i]) by {
            assert(t1[i] == t[i + 1]);
            assert(s.contains(t[i + 1]));
            let m = choose|m: int| 0 <= m < s.len() && s[m] == t[i + 1];
            assert(flow_precedes(t[0], t[i + 1]));
            if m == 0 {
                assert(false);
            }
            assert(s1[m - 1] == s[m]);
        }
        lemma_listing_unique(s1, t1);
        assert(s =~= seq![s[0]] + s1);
        assert(t =~= seq![t[0]] + t1);
    }
}

/// A listing of a table's flows in order is the listing.
proof fn lemma_listing_is_the_listing(flows: Seq<Flow>, listed: Seq<Flow>)
    requires
        lists_flows(flows, listed),
    ensures
        listed == listing(flows),
{
    let other = listing(flows);
    assert(lists_flows(flows, other));
    assert forall|i: int| 0 <= i < listed.len() implies other.contains(#[trigger] listed[i]) by {
        let k = choose|k: int| 0 <= k < flows.len() && flows[k] == listed[i];
        assert(other.contains(flows[k]));
    }
    assert forall|i: int| 0 <= i < other.len() implies listed.contains(#[trigger] other[i]) by {
        let k = choose|k: int| 0 <= k < flows.len() && flows[k] == other[i];
        assert(listed.contains(flows[k]));
    }
    lemma_listing_unique(listed, other);
}

/// The set of conversations seen so far.
///
/// The flows are held in key order, so a packet's flow is found by binary
/// search and every listing is reproducible; [`FlowTable::flows_sorted`]
/// lists them by when they started.
#[derive(Debug)]
pub struct FlowTable {
    flows: Vec<Flow>,
    max_flows: usize,
    untracked: UntrackedCounts,
}

impl FlowTable {
    /// The flows, in key order.
    pub closed spec fn spec_flows(&self) -> Seq<Flow> {
        self.flows@
    }

    /// The limit this table was built with.
    pub closed spec fn spec_max_flows(&self) -> usize {
        self.max_flows
    }

    /// What was left out so far.
    pub closed spec fn spec_untracked(&self) -> UntrackedCounts {
        self.untracked
    }

    /// Keys are unique and in order, and the table never holds more flows
    /// than its limit.
    #[verifier::type_invariant]
    closed spec fn well_formed(&self) -> bool {
        &&& keys_ascending(self.flows@)
        &&& self.flows@.len() <= self.max_flows
    }

    /// Creates a table that will track at most `max_flows` conversations.
    pub fn with_limit(max_flows: usize) -> (table: Self)
        ensures
            table.spec_flows() == Seq::<Flow>::empty(),
            table.spec_max_flows() == max_flows,
            table.spec_untracked() == (UntrackedCounts {
                arp: 0,
                icmp: 0,
                later_fragments: 0,
                undecoded: 0,
                other_protocol: 0,
                over_flow_limit: 0,
            }),
    {
        FlowTable { flows: Vec::new(), max_flows, untracked: UntrackedCounts::default() }
    }

    /// Finds `key`: `Ok` with its position when a flow has it, `Err` with the
    /// position a new flow with it would take otherwise.
    fn find(&self, key: FlowKey) -> (found: Result<usize, usize>)
        ensures
            found matches Ok(i) ==> i < self.spec_flows().len() && self.spec_flows()[i as int].key
                == key,
            found matches Err(i) ==> {
                &&& i <= self.spec_flows().len()
                &&& !holds_key(self.spec_flows(), key)
                &&& forall|k: int|
                    0 <= k < i ==> key_rank(#[trigger] self.spec_flows()[k].key) < key_rank(key)
                &&& forall|k: int|
                    i <= k < self.spec_flows().len() ==> key_rank(key) < key_rank(
                        #[trigger] self.spec_flows()[k].key,
                    )
            },
    {
        proof {
            use_type_invariant(self);
        }
        let mut low: usize = 0;
        let mut high: usize = self.flows.len();
        while low < high
            invariant
                low <= high <= self.flows@.len(),
                keys_ascending(self.flows@),
                forall|k: int| 0 <= k < low ==> key_rank(#[trigger] self.flows@[k].key) < key_rank(key),
                forall|k: int|
                    high <= k < self.flows@.len() ==> key_rank(key) < key_rank(
                        #[trigger] self.flows@[k].key,
                    ),
            decreases high - low,
        {
            let middle = low + (high - low) / 2;
            match compare_keys(self.flows[middle].key, key) {
                Placement::Before => {
                    low = middle + 1;
                },
                Placement::After => {
                    high = middle;
                },
                Placement::Same => {
                    proof {
                        lemma_key_rank_injective(self.flows@[middle as int].key, key);
                    }
                    return Ok(middle);
                },
            }
        }
        proof {
            assert forall|i: int| 0 <= i < self.flows@.len() implies #[trigger] self.flows@[i].key
                != key by {
                if i < low {
                } else {
                }
            }
        }
        Err(low)
    }

    /// Folds one decoded packet into the table.
    ///
    /// Never fails. A packet that belongs to no flow is counted under its
    /// reason. A packet of a tracked conversation is counted into its flow,
    /// even once the table is full. A packet that would start a new
    /// conversation is refused and counted as over the limit once the table
    /// holds `max_flows` flows; otherwise it starts one, in key order.
    pub fn record(&mut self, metadata: &PacketMetadata, packet: &DecodedPacket) -> (outcome: RecordOutcome)
        ensures
            final(self).spec_max_flows() == old(self).spec_max_flows(),
            final(self).spec_flows().len() <= final(self).spec_max_flows(),
            keys_ascending(final(self).spec_flows()),
            (final(self).spec_flows(), final(self).spec_untracked()) == table_after(
                old(self).spec_flows(),
                old(self).spec_max_flows(),
                old(self).spec_untracked(),
                *metadata,
                packet@,
            ),
            outcome == (match spec_from_packet(packet@) {
                None => RecordOutcome::Untracked,
                Some((key, _)) => if holds_key(old(self).spec_flows(), key) {
                    RecordOutcome::Counted
                } else if old(self).spec_flows().len() >= old(self).spec_max_flows() {
                    RecordOutcome::OverLimit
                } else {
                    RecordOutcome::Counted
                },
            }),
    {
        let ghost before = self.spec_flows();
        let outcome = self.record_packet(metadata, packet);
        proof {
            if let Some((key, _)) = spec_from_packet(packet@) {
                if holds_key(before, key) {
                    let i = position_of(before, key);
                    assert(before[i].key == key);
                } else if before.len() < self.spec_max_flows() {
                    let i = choose|i: int| fits_at(before, key, i);
                    let j = choose|j: int|
                        fits_at(before, key, j) && self.spec_flows() == #[trigger] before.insert(
                            j,
                            flow_after(
                                Flow::spec_new(key, metadata.timestamp),
                                spec_from_packet(packet@).unwrap().1,
                                *metadata,
                                packet.transport,
                            ),
                        );
                    lemma_fits_unique(before, key, i, j);
                }
            }
        }
        outcome
    }

    /// Folds one decoded packet into the table, with each case spelled out.
    fn record_packet(&mut self, metadata: &PacketMetadata, packet: &DecodedPacket) -> (outcome: RecordOutcome)
        ensures
            final(self).spec_max_flows() == old(self).spec_max_flows(),
            final(self).spec_flows().len() <= final(self).spec_max_flows(),
            keys_ascending(final(self).spec_flows()),
            match spec_from_packet(packet@) {
                None => {
                    &&& outcome == RecordOutcome::Untracked
                    &&& final(self).spec_flows() == old(self).spec_flows()
                    &&& final(self).spec_untracked() == untracked_counted(
                        old(self).spec_untracked(),
                        spec_untracked_reason(packet@),
                    )
                },
                Some((key, direction)) => {
                    if holds_key(old(self).spec_flows(), key) {
                        &&& outcome == RecordOutcome::Counted
                        &&& final(self).spec_untracked() == old(self).spec_untracked()
                        &&& forall|i: int|
                            0 <= i < old(self).spec_flows().len() && #[trigger] old(
                                self,
                            ).spec_flows()[i].key == key ==> final(self).spec_flows() == old(
                                self,
                            ).spec_flows().update(i, flow_after(old(self).spec_flows()[i], direction, *metadata, packet.transport))
                    } else if old(self).spec_flows().len() >= old(self).spec_max_flows() {
                        &&& outcome == RecordOutcome::OverLimit
                        &&& final(self).spec_flows() == old(self).spec_flows()
                        &&& final(self).spec_untracked() == (UntrackedCounts {
                            over_flow_limit: bump(old(self).spec_untracked().over_flow_limit),
                            ..old(self).spec_untracked()
                        })
                    } else {
                        &&& outcome == RecordOutcome::Counted
                        &&& final(self).spec_untracked() == old(self).spec_untracked()
                        &&& exists|i: int|
                            fits_at(old(self).spec_flows(), key, i) && final(self).spec_flows()
                                == #[trigger] old(self).spec_flows().insert(
                                i,
                                flow_after(Flow::spec_new(key, metadata.timestamp), direction, *metadata, packet.transport),
                            )
                    }
                },
            },
    {
        proof {
            use_type_invariant(&*self);
        }
        let (key, direction) = match FlowKey::from_packet(packet) {
            Some(keyed) => keyed,
            None => {
                self.count_untracked(packet);
                return RecordOutcome::Untracked;
            },
        };
        let transport = match &packet.transport {
            Some(t) => Some(t),
            None => None,
        };
        assert((match transport {
            Some(t) => Some(*t),
            None => None,
        }) == packet.transport);
        match self.find(key) {
            Ok(i) => {
                let mut flow = self.flows[i];
                flow.record(direction, metadata.timestamp, metadata.caplen, metadata.wirelen, transport);
                let ghost before = self.flows@;
                let mut flows: Vec<Flow> = Vec::new();
                std::mem::swap(&mut flows, &mut self.flows);
                flows.set(i, flow);
                proof {
                    assert forall|k: int| 0 <= k < before.len() && #[trigger] before[k].key == key implies k
                        == i by {
                        if k != i {
                            lemma_distinct_positions(before, k, i as int);
                        }
                    }
                    assert forall|p: int, q: int|
                        0 <= p < q < flows@.len() implies key_rank(#[trigger] flows@[p].key)
                        < key_rank(#[trigger] flows@[q].key) by {
                        assert(flows@[p].key == before[p].key);
                        assert(flows@[q].key == before[q].key);
                    }
                }
                self.flows = flows;
                RecordOutcome::Counted
            },
            Err(i) => {
                if self.flows.len() >= self.max_flows {
                    self.untracked.over_flow_limit = self.untracked.over_flow_limit.saturating_add(1);
                    return RecordOutcome::OverLimit;
                }
                let mut flow = Flow::new(key, metadata.timestamp);
                flow.record(direction, metadata.timestamp, metadata.caplen, metadata.wirelen, transport);
                let ghost before = self.flows@;
                let mut flows: Vec<Flow> = Vec::new();
                std::mem::swap(&mut flows, &mut self.flows);
                flows.insert(i, flow);
                proof {
                    assert forall|p: int, q: int|
                        0 <= p < q < flows@.len() implies key_rank(#[trigger] flows@[p].key)
                        < key_rank(#[trigger] flows@[q].key) by {
                        if q < i {
                            assert(flows@[p] == before[p]);
                            assert(flows@[q] == before[q]);
                        } else if q == i {
                            assert(flows@[p] == before[p]);
                        } else if p == i {
                            assert(flows@[q] == before[q - 1]);
                        } else if p < i {
                            assert(flows@[p] == before[p]);
                            assert(flows@[q] == before[q - 1]);
                        } else {
                            assert(flows@[p] == before[p - 1]);
                            assert(flows@[q] == before[q - 1]);
                        }
                    }
                }
                self.flows = flows;
                assert(fits_at(before, key, i as int));
                assert(self.flows@ == before.insert(
                    i as int,
                    flow_after(Flow::spec_new(key, metadata.timestamp), direction, *metadata, packet.transport),
                ));
                RecordOutcome::Counted
            },
        }
    }

    /// Works out why a packet formed no flow, and counts it.
    fn count_untracked(&mut self, packet: &DecodedPacket)
        ensures
            final(self).spec_flows() == old(self).spec_flows(),
            final(self).spec_max_flows() == old(self).spec_max_flows(),
            final(self).spec_untracked() == untracked_counted(
                old(self).spec_untracked(),
                spec_untracked_reason(packet@),
            ),
    {
        proof {
            use_type_invariant(&*self);
        }
        let reason = match (&packet.network, &packet.transport, &packet.stopped) {
            (Some(NetworkLayer::Arp(_)), _, _) => UntrackedReason::Arp,
            (_, Some(TransportLayer::Icmp(_)), _) => UntrackedReason::Icmp,
            (Some(_), None, Some(DecodeStop::NonInitialFragment)) => UntrackedReason::LaterFragment,
            (Some(_), None, Some(DecodeStop::UnsupportedProtocol(_))) => UntrackedReason::OtherProtocol,
            _ => UntrackedReason::Undecoded,
        };
        match reason {
            UntrackedReason::Arp => {
                self.untracked.arp = self.untracked.arp.saturating_add(1);
            },
            UntrackedReason::Icmp => {
                self.untracked.icmp = self.untracked.icmp.saturating_add(1);
            },
            UntrackedReason::LaterFragment => {
                self.untracked.later_fragments = self.untracked.later_fragments.saturating_add(1);
            },
            UntrackedReason::OtherProtocol => {
                self.untracked.other_protocol = self.untracked.other_protocol.saturating_add(1);
            },
            UntrackedReason::Undecoded => {
                self.untracked.undecoded = self.untracked.undecoded.saturating_add(1);
            },
        }
    }

    /// How many conversations are being tracked.
    pub fn len(&self) -> (count: usize)
        ensures
            count == self.spec_flows().len(),
            count <= self.spec_max_flows(),
    {
        proof {
            use_type_invariant(self);
        }
        self.flows.len()
    }

    /// Whether no conversation has been seen.
    pub fn is_empty(&self) -> (empty: bool)
        ensures
            empty == (self.spec_flows().len() == 0),
    {
        self.flows.len() == 0
    }

    /// The limit this table was built with.
    pub fn max_flows(&self) -> (limit: usize)
        ensures
            limit == self.spec_max_flows(),
    {
        self.max_flows
    }

    /// Whether the table has stopped accepting new conversations.
    pub fn is_full(&self) -> (full: bool)
        ensures
            full == (self.spec_flows().len() >= self.spec_max_flows()),
    {
        self.flows.len() >= self.max_flows
    }

    /// What was left out, and why.
    pub fn untracked(&self) -> (counts: UntrackedCounts)
        ensures
            counts == self.spec_untracked(),
    {
        self.untracked
    }

    /// Every flow, in a stable order: by when the conversation started, then
    /// by key.
    ///
    /// The tie-break matters: two flows stamped at the same microsecond still
    /// come out in a fixed order, so the same capture prints the same way on
    /// every run.
    pub fn flows_sorted(&self) -> (listed: Vec<Flow>)
        ensures
            listed@ == listing(self.spec_flows()),
            listed@.len() == self.spec_flows().len(),
            listed_in_order(listed@),
            forall|i: int| 0 <= i < listed@.len() ==> self.spec_flows().contains(#[trigger] listed@[i]),
            forall|j: int|
                0 <= j < self.spec_flows().len() ==> listed@.contains(#[trigger] self.spec_flows()[j]),
            forall|i: int, j: int|
                0 <= i < j < listed@.len() ==> (#[trigger] listed@[i]).first_seen.spec_not_after(
                    (#[trigger] listed@[j]).first_seen,
                ),
    {
        proof {
            use_type_invariant(self);
        }
        let mut listed: Vec<Flow> = Vec::new();
        let mut j: usize = 0;
        while j < self.flows.len()
            invariant
                j <= self.flows@.len(),
                keys_ascending(self.flows@),
                listed@.len() == j,
                listed_in_order(listed@),
                drawn_from(listed@, self.flows@, j as int),
                keys_below_rest(listed@, self.flows@, j as int),
                covers(listed@, self.flows@, j as int),
            decreases self.flows@.len() - j,
        {
            let flow = self.flows[j];
            let mut position: usize = 0;
            while position < listed.len() && precedes(&listed[position], &flow)
                invariant
                    position <= listed@.len(),
                    forall|p: int| 0 <= p < position ==> flow_precedes(#[trigger] listed@[p], flow),
                decreases listed@.len() - position,
            {
                position = position + 1;
            }
            let ghost before = listed@;
            proof {
                assert forall|p: int| 0 <= p < before.len() implies key_rank(#[trigger] before[p].key)
                    != key_rank(flow.key) by {
                    assert(key_rank(before[p].key) < key_rank(self.flows@[j as int].key));
                }
                lemma_rest_follow(before, position as int, flow);
                lemma_insert_keeps_order(before, position as int, flow);
            }
            listed.insert(position, flow);
            proof {
                assert(listed@ == before.insert(position as int, flow));
                lemma_insert_membership(self.flows@, before, position as int, j as int);
            }
            j = j + 1;
        }
        proof {
            assert forall|i: int| 0 <= i < listed@.len() implies self.flows@.contains(
                #[trigger] listed@[i],
            ) by {
                let k = choose|k: int| 0 <= k < j && listed@[i] == self.flows@[k];
            }
            lemma_listing_is_the_listing(self.flows@, listed@);
            assert forall|i: int, j: int| 0 <= i < j < listed@.len() implies (
            #[trigger] listed@[i]).first_seen.spec_not_after((#[trigger] listed@[j]).first_seen) by {
                law_listing_follows_start_time(listed@, i, j);
            }
        }
        listed
    }
}

/// Whether every listed flow is one of the first `j` flows of the table.
pub open spec fn drawn_from(listed: Seq<Flow>, flows: Seq<Flow>, j: int) -> bool {
    forall|i: int| 0 <= i < listed.len() ==> exists|k: int| 0 <= k < j && #[trigger] listed[i] == flows[k]
}

/// Whether each of the first `j` flows of the table is listed.
pub open spec fn covers(listed: Seq<Flow>, flows: Seq<Flow>, j: int) -> bool {
    forall|k: int| 0 <= k < j ==> listed.contains(#[trigger] flows[k])
}

/// Whether every listed flow's key is below those of the table's flows from
/// position `j` on.
pub open spec fn keys_below_rest(listed: Seq<Flow>, flows: Seq<Flow>, j: int) -> bool {
    forall|i: int, k: int|
        0 <= i < listed.len() && j <= k < flows.len() ==> key_rank(#[trigger] listed[i].key) < key_rank(
            #[trigger] flows[k].key,
        )
}

/// Inserting a flow where everything before it precedes it and it precedes
/// everything after it keeps a listing in order.
proof fn lemma_insert_keeps_order(before: Seq<Flow>, position: int, flow: Flow)
    requires
        listed_in_order(before),
        0 <= position <= before.len(),
        forall|p: int| 0 <= p < position ==> flow_precedes(#[trigger] before[p], flow),
        forall|p: int| position <= p < before.len() ==> flow_precedes(flow, #[trigger] before[p]),
    ensures
        listed_in_order(before.insert(position, flow)),
{
    let after = before.insert(position, flow);
    assert forall|p: int, q: int| 0 <= p < q < after.len() implies flow_precedes(
        #[trigger] after[p],
        #[trigger] after[q],
    ) by {
        if q < position {
            assert(after[p] == before[p] && after[q] == before[q]);
        } else if q == position {
            assert(after[p] == before[p]);
        } else if p == position {
            assert(after[q] == before[q - 1]);
        } else if p < position {
            assert(after[p] == before[p]);
            assert(after[q] == before[q - 1]);
        } else {
            assert(after[p] == before[p - 1]);
            assert(after[q] == before[q - 1]);
        }
    }
}

/// In an ordered listing whose keys all differ from `flow`'s, everything from
/// the first entry that does not precede `flow` onwards follows it.
proof fn lemma_rest_follow(before: Seq<Flow>, position: int, flow: Flow)
    requires
        listed_in_order(before),
        0 <= position <= before.len(),
        position < before.len() ==> !flow_precedes(before[position], flow),
        forall|p: int| 0 <= p < before.len() ==> key_rank(#[trigger] before[p].key) != key_rank(flow.key),
    ensures
        forall|p: int| position <= p < before.len() ==> flow_precedes(flow, #[trigger] before[p]),
{
    assert forall|p: int| position <= p < before.len() implies flow_precedes(flow, #[trigger] before[p]) by {
        assert(key_rank(before[position].key) != key_rank(flow.key));
        assert(flow_precedes(flow, before[position]));
        if p > position {
            assert(flow_precedes(before[position], before[p]));
        }
    }
}

/// After inserting the `j`th flow of the table into the listing, the listing
/// holds exactly the first `j + 1` flows of the table.
proof fn lemma_insert_membership(flows: Seq<Flow>, before: Seq<Flow>, position: int, j: int)
    requires
        0 <= j < flows.len(),
        0 <= position <= before.len(),
        keys_ascending(flows),
        drawn_from(before, flows, j),
        covers(before, flows, j),
    ensures
        drawn_from(before.insert(position, flows[j]), flows, j + 1),
        keys_below_rest(before.insert(position, flows[j]), flows, j + 1),
        covers(before.insert(position, flows[j]), flows, j + 1),
{
    let after = before.insert(position, flows[j]);
    assert forall|i: int| 0 <= i < after.len() implies exists|k: int|
        0 <= k < j + 1 && #[trigger] after[i] == flows[k] by {
        if i < position {
            assert(after[i] == before[i]);
        } else if i == position {
            assert(after[i] == flows[j]);
        } else {
            assert(after[i] == before[i - 1]);
        }
    }
    assert forall|i: int, k: int| 0 <= i < after.len() && j + 1 <= k < flows.len() implies key_rank(
        #[trigger] after[i].key,
    ) < key_rank(#[trigger] flows[k].key) by {
        let m = choose|m: int| 0 <= m < j + 1 && after[i] == flows[m];
    }
    assert forall|k: int| 0 <= k < j + 1 implies after.contains(#[trigger] flows[k]) by {
        if k < j {
            let at = choose|at: int| 0 <= at < before.len() && before[at] == flows[k];
            if at < position {
                assert(after[at] == before[at]);
            } else {
                assert(after[at + 1] == before[at]);
            }
        } else {
            assert(after[position] == flows[k]);
        }
    }
}

impl Default for FlowTable {
    /// A table with the default flow limit.
    fn default() -> (table: Self)
        ensures
            table.spec_flows() == Seq::<Flow>::empty(),
            table.spec_max_flows() == DEFAULT_MAX_FLOWS,
            table.spec_untracked() == (UntrackedCounts {
                arp: 0,
                icmp: 0,
                later_fragments: 0,
                undecoded: 0,
                other_protocol: 0,
                over_flow_limit: 0,
            }),
    {
        Self::with_limit(DEFAULT_MAX_FLOWS)
    }
}

/// Whether flow `f` is listed before flow `g`.
fn precedes(f: &Flow, g: &Flow) -> (before: bool)
    ensures
        before == flow_precedes(*f, *g),
{
    let (fs, fu) = (f.first_seen.seconds(), f.first_seen.microseconds());
    let (gs, gu) = (g.first_seen.seconds(), g.first_seen.microseconds());
    if fs != gs {
        fs < gs
    } else if fu != gu {
        fu < gu
    } else {
        match compare_keys(f.key, g.key) {
            Placement::Before => true,
            _ => false,
        }
    }
}

/// A key fits at one position of a sequence at most.
pub proof fn lemma_fits_unique(flows: Seq<Flow>, key: FlowKey, i: int, j: int)
    requires
        fits_at(flows, key, i),
        fits_at(flows, key, j),
    ensures
        i == j,
{
    if i < j {
        assert(key_rank(key) < key_rank(flows[i].key));
    } else if j < i {
        assert(key_rank(key) < key_rank(flows[j].key));
    }
}

/// In a key-ordered sequence, two positions holding the same key are one
/// position.
proof fn lemma_distinct_positions(flows: Seq<Flow>, i: int, j: int)
    requires
        keys_ascending(flows),
        0 <= i < flows.len(),
        0 <= j < flows.len(),
        i != j,
    ensures
        flows[i].key != flows[j].key,
{
    if i < j {
        assert(key_rank(flows[i].key) < key_rank(flows[j].key));
    } else {
        assert(key_rank(flows[j].key) < key_rank(flows[i].key));
    }
}


/// Conversations are listed in the order they started: a flow listed before
/// another was first seen no later, comparing seconds and then
/// microseconds, and so, when both stamps are points in time, at no later a
/// microsecond since the epoch.
pub proof fn law_listing_follows_start_time(listed: Seq<Flow>, i: int, j: int)
    requires
        listed_in_order(listed),
        0 <= i < j < listed.len(),
    ensures
        ({
            let (f, g) = (listed[i].first_seen, listed[j].first_seen);
            &&& f.spec_seconds() <= g.spec_seconds()
            &&& f.spec_seconds() == g.spec_seconds() ==> f.spec_microseconds() <= g.spec_microseconds()
            &&& f.spec_micros_since_epoch() is Some && g.spec_micros_since_epoch() is Some
                ==> f.spec_micros_since_epoch().unwrap() <= g.spec_micros_since_epoch().unwrap()
        }),
{
    assert(flow_precedes(listed[i], listed[j]));
}

/// An ICMP or ICMPv6 message that is not part of an ARP exchange forms no
/// flow, having no ports, and is counted as ICMP: recording it changes
/// nothing in the table but the ICMP counter, whatever its network layer.
pub proof fn law_icmp_is_counted_as_icmp(
    flows: Seq<Flow>,
    max_flows: usize,
    untracked: UntrackedCounts,
    metadata: PacketMetadata,
    packet: DecodedPacketView,
)
    requires
        packet.transport matches Some(TransportLayer::Icmp(_)),
        !(packet.network matches Some(NetworkLayerView::Arp(_))),
    ensures
        table_after(flows, max_flows, untracked, metadata, packet) == (
            flows,
            UntrackedCounts { icmp: bump(untracked.icmp), ..untracked },
        ),
{
}

} // verus!
