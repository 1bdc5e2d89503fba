//! Every packet offered to the flow table is counted exactly once: in a
//! flow, or under the reason it formed none.

use vstd::prelude::*;

use crate::capture::pump::PacketMetadata;
use crate::decode::model::DecodedPacketView;
use crate::flow::key::{Direction, spec_from_packet};
use crate::flow::stats::Flow;
use crate::flow::order::lemma_fits_somewhere;
use crate::flow::{
    UntrackedCounts, UntrackedReason, fits_at, holds_key, keys_ascending, position_of,
    spec_untracked_reason, table_after,
};

verus! {

/// The packets counted into a flow, both ways.
pub open spec fn flow_packets(flow: Flow) -> int {
    flow.a_to_b.packets + flow.b_to_a.packets
}

/// The packets counted into all the flows of a table.
pub open spec fn packets_in(flows: Seq<Flow>) -> int
    decreases flows.len(),
{
    if flows.len() == 0 {
        0
    } else {
        packets_in(flows.drop_last()) + flow_packets(flows.last())
    }
}

/// The packets counted as forming no flow, over all reasons.
pub open spec fn packets_left_out(counts: UntrackedCounts) -> int {
    counts.arp + counts.icmp + counts.later_fragments + counts.undecoded + counts.other_protocol
        + counts.over_flow_limit
}

/// The current value of the counter one more packet would go to.
pub open spec fn counter_for(
    flows: Seq<Flow>,
    max_flows: usize,
    untracked: UntrackedCounts,
    packet: DecodedPacketView,
) -> u64 {
    match spec_from_packet(packet) {
        None => match spec_untracked_reason(packet) {
            UntrackedReason::Arp => untracked.arp,
            UntrackedReason::Icmp => untracked.icmp,
            UntrackedReason::LaterFragment => untracked.later_fragments,
            UntrackedReason::OtherProtocol => untracked.other_protocol,
            UntrackedReason::Undecoded => untracked.undecoded,
        },
        Some((key, direction)) => if holds_key(flows, key) {
            let flow = flows[position_of(flows, key)];
            if direction == Direction::AtoB {
                flow.a_to_b.packets
            } else {
                flow.b_to_a.packets
            }
        } else if flows.len() >= max_flows {
            untracked.over_flow_limit
        } else {
            0
        },
    }
}

/// Replacing one flow changes the total by the difference.
proof fn lemma_packets_after_update(flows: Seq<Flow>, i: int, flow: Flow)
    requires
        0 <= i < flows.len(),
    ensures
        packets_in(flows.update(i, flow)) == packets_in(flows) - flow_packets(flows[i]) + flow_packets(
            flow,
        ),
    decreases flows.len(),
{
    let updated = flows.update(i, flow);
    if i == flows.len() - 1 {
        assert(updated.drop_last() =~= flows.drop_last());
    } else {
        lemma_packets_after_update(flows.drop_last(), i, flow);
        assert(updated.drop_last() =~= flows.drop_last().update(i, flow));
    }
}

/// Inserting a flow adds its packets to the total.
proof fn lemma_packets_after_insert(flows: Seq<Flow>, i: int, flow: Flow)
    requires
        0 <= i <= flows.len(),
    ensures
        packets_in(flows.insert(i, flow)) == packets_in(flows) + flow_packets(flow),
    decreases flows.len(),
{
    let inserted = flows.insert(i, flow);
    if i == flows.len() {
        assert(inserted.drop_last() =~= flows);
    } else {
        lemma_packets_after_insert(flows.drop_last(), i, flow);
        assert(inserted.drop_last() =~= flows.drop_last().insert(i, flow));
    }
}

/// Nothing is dropped: every packet offered to the table adds exactly one to
/// the packets counted in flows and the packets left out, together, unless
/// the one counter it goes to is already at its ceiling.
pub proof fn law_every_packet_is_counted_once(
    flows: Seq<Flow>,
    max_flows: usize,
    untracked: UntrackedCounts,
    metadata: PacketMetadata,
    packet: DecodedPacketView,
)
    requires
        keys_ascending(flows),
        counter_for(flows, max_flows, untracked, packet) < u64::MAX,
    ensures
        ({
            let after = table_after(flows, max_flows, untracked, metadata, packet);
            packets_in(after.0) + packets_left_out(after.1) == packets_in(flows) + packets_left_out(
                untracked,
            ) + 1
        }),
{
    if let Some((key, direction)) = spec_from_packet(packet) {
        if holds_key(flows, key) {
            let i = position_of(flows, key);
            let after = table_after(flows, max_flows, untracked, metadata, packet);
            lemma_packets_after_update(flows, i, after.0[i]);
            assert(after.0 == flows.update(i, after.0[i]));
        } else if flows.len() < max_flows {
            lemma_fits_somewhere(flows, key);
            let i = choose|i: int| fits_at(flows, key, i);
            let after = table_after(flows, max_flows, untracked, metadata, packet);
            lemma_packets_after_insert(flows, i, after.0[i]);
            assert(after.0 == flows.insert(i, after.0[i]));
        }
    }
}

} // verus!
