//! Why the order packets are read in does not change the flow table.
//!
//! A flow's identity does not depend on which of its packets came first (see
//! [`crate::flow::key`]), its counters do not depend on the order they were
//! counted in (see [`crate::flow::stats::law_flow_counting_is_order_free`]),
//! and the table keeps its flows in key order rather than arrival order. So
//! recording two packets gives the same table whichever is recorded first,
//! as long as the flow limit does not pick between them.

use vstd::prelude::*;

use crate::capture::pump::PacketMetadata;
use crate::capture::stats::bump;
use crate::decode::TransportLayer;
use crate::decode::model::DecodedPacketView;
use crate::flow::key::{FlowKey, key_rank, lemma_key_rank_injective, spec_from_packet};
use crate::flow::stats::{
    Flow, FlowPacket, counted, law_flow_counting_is_order_free, lemma_fresh_flow_is_order_free,
};
use crate::flow::{
    UntrackedCounts, fits_at, flow_after, holds_key, keys_ascending, lemma_fits_unique, position_of,
    spec_untracked_reason, table_after, untracked_counted,
};

verus! {

/// A packet and its metadata as they are counted into a flow.
pub open spec fn as_flow_packet(
    direction: crate::flow::key::Direction,
    metadata: PacketMetadata,
    transport: Option<TransportLayer>,
) -> FlowPacket {
    FlowPacket {
        direction,
        timestamp: metadata.timestamp,
        caplen: metadata.caplen,
        wirelen: metadata.wirelen,
        transport,
    }
}

/// The flow at `i` is the table's only flow with that key.
proof fn lemma_position(flows: Seq<Flow>, key: FlowKey, i: int)
    requires
        keys_ascending(flows),
        0 <= i < flows.len(),
        flows[i].key == key,
    ensures
        holds_key(flows, key),
        position_of(flows, key) == i,
{
    assert(holds_key(flows, key));
    let c = position_of(flows, key);
    if c != i {
        if c < i {
            assert(key_rank(flows[c].key) < key_rank(flows[i].key));
        } else {
            assert(key_rank(flows[i].key) < key_rank(flows[c].key));
        }
    }
}

/// A key that is not held fits somewhere.
pub proof fn lemma_fits_somewhere(flows: Seq<Flow>, key: FlowKey)
    requires
        keys_ascending(flows),
        !holds_key(flows, key),
    ensures
        exists|i: int| fits_at(flows, key, i),
    decreases flows.len(),
{
    if flows.len() == 0 {
        assert(fits_at(flows, key, 0));
    } else {
        let last = flows.len() - 1;
        if key_rank(flows[last].key) < key_rank(key) {
            assert(fits_at(flows, key, flows.len() as int));
        } else {
            let front = flows.drop_last();
            assert forall|p: int, q: int| 0 <= p < q < front.len() implies key_rank(
                #[trigger] front[p].key,
            ) < key_rank(#[trigger] front[q].key) by {
                assert(front[p] == flows[p] && front[q] == flows[q]);
            }
            assert(!holds_key(front, key)) by {
                if holds_key(front, key) {
                    let w = choose|w: int| 0 <= w < front.len() && #[trigger] front[w].key == key;
                    assert(flows[w].key == key);
                }
            }
            lemma_fits_somewhere(front, key);
            let i = choose|i: int| fits_at(front, key, i);
            if key_rank(flows[last].key) == key_rank(key) {
                lemma_key_rank_injective(flows[last].key, key);
            }
            assert forall|k: int| i <= k < flows.len() implies key_rank(key) < key_rank(
                #[trigger] flows[k].key,
            ) by {
                if k < last {
                    assert(front[k] == flows[k]);
                }
            }
            assert forall|k: int| 0 <= k < i implies key_rank(#[trigger] flows[k].key) < key_rank(
                key,
            ) by {
                assert(front[k] == flows[k]);
            }
            assert(fits_at(flows, key, i));
        }
    }
}

/// Replacing a flow by one with the same key changes neither which keys
/// are held nor where a key fits.
proof fn lemma_same_keys_after_update(flows: Seq<Flow>, i: int, flow: Flow, key: FlowKey, j: int)
    requires
        0 <= i < flows.len(),
        flow.key == flows[i].key,
    ensures
        holds_key(flows.update(i, flow), key) == holds_key(flows, key),
        fits_at(flows.update(i, flow), key, j) == fits_at(flows, key, j),
        keys_ascending(flows) ==> keys_ascending(flows.update(i, flow)),
{
    let updated = flows.update(i, flow);
    assert forall|k: int| 0 <= k < flows.len() implies #[trigger] updated[k].key == flows[k].key by {}
    if holds_key(flows, key) {
        let w = choose|w: int| 0 <= w < flows.len() && #[trigger] flows[w].key == key;
        assert(updated[w].key == key);
    }
    if holds_key(updated, key) {
        let w = choose|w: int| 0 <= w < updated.len() && #[trigger] updated[w].key == key;
        assert(flows[w].key == key);
    }
    if fits_at(flows, key, j) {
        assert forall|k: int| 0 <= k < j implies key_rank(#[trigger] updated[k].key) < key_rank(key) by {
            assert(updated[k].key == flows[k].key);
        }
        assert forall|k: int| j <= k < updated.len() implies key_rank(key) < key_rank(
            #[trigger] updated[k].key,
        ) by {
            assert(updated[k].key == flows[k].key);
        }
    }
    if fits_at(updated, key, j) {
        assert forall|k: int| 0 <= k < j implies key_rank(#[trigger] flows[k].key) < key_rank(key) by {
            assert(updated[k].key == flows[k].key);
        }
        assert forall|k: int| j <= k < flows.len() implies key_rank(key) < key_rank(
            #[trigger] flows[k].key,
        ) by {
            assert(updated[k].key == flows[k].key);
        }
    }
    if keys_ascending(flows) {
        assert forall|p: int, q: int| 0 <= p < q < updated.len() implies key_rank(
            #[trigger] updated[p].key,
        ) < key_rank(#[trigger] updated[q].key) by {
            assert(updated[p].key == flows[p].key);
            assert(updated[q].key == flows[q].key);
        }
    }
}

/// Inserting a flow where its key fits keeps the keys ascending, and adds
/// its key to those held.
proof fn lemma_insert_fitting(flows: Seq<Flow>, j: int, flow: Flow)
    requires
        keys_ascending(flows),
        fits_at(flows, flow.key, j),
    ensures
        keys_ascending(flows.insert(j, flow)),
        flows.insert(j, flow)[j] == flow,
{
    let inserted = flows.insert(j, flow);
    assert forall|p: int, q: int| 0 <= p < q < inserted.len() implies key_rank(
        #[trigger] inserted[p].key,
    ) < key_rank(#[trigger] inserted[q].key) by {
        if q < j {
            assert(inserted[p] == flows[p] && inserted[q] == flows[q]);
        } else if q == j {
            assert(inserted[p] == flows[p]);
        } else if p == j {
            assert(inserted[q] == flows[q - 1]);
        } else if p < j {
            assert(inserted[p] == flows[p] && inserted[q] == flows[q - 1]);
        } else {
            assert(inserted[p] == flows[p - 1] && inserted[q] == flows[q - 1]);
        }
    }
}

/// Where a second key fits once a first, different one was inserted where
/// it fits.
proof fn lemma_fits_after_insert(flows: Seq<Flow>, j1: int, flow: Flow, key: FlowKey, j2: int)
    requires
        fits_at(flows, flow.key, j1),
        fits_at(flows, key, j2),
        flow.key != key,
    ensures
        key_rank(flow.key) < key_rank(key) ==> j1 <= j2 && fits_at(flows.insert(j1, flow), key, j2 + 1),
        key_rank(key) < key_rank(flow.key) ==> j2 <= j1 && fits_at(flows.insert(j1, flow), key, j2),
        key_rank(flow.key) != key_rank(key),
{
    if key_rank(flow.key) == key_rank(key) {
        lemma_key_rank_injective(flow.key, key);
    }
    let inserted = flows.insert(j1, flow);
    if key_rank(flow.key) < key_rank(key) {
        if j2 < j1 {
            assert(key_rank(flows[j2].key) < key_rank(flow.key));
            assert(key_rank(key) < key_rank(flows[j2].key));
        }
        assert forall|k: int| 0 <= k < j2 + 1 implies key_rank(#[trigger] inserted[k].key) < key_rank(
            key,
        ) by {
            if k < j1 {
                assert(inserted[k] == flows[k]);
            } else if k > j1 {
                assert(inserted[k] == flows[k - 1]);
            }
        }
        assert forall|k: int| j2 + 1 <= k < inserted.len() implies key_rank(key) < key_rank(
            #[trigger] inserted[k].key,
        ) by {
            assert(inserted[k] == flows[k - 1]);
        }
    } else {
        if j1 < j2 {
            assert(key_rank(flows[j1].key) < key_rank(key));
            assert(key_rank(flow.key) < key_rank(flows[j1].key));
        }
        assert forall|k: int| 0 <= k < j2 implies key_rank(#[trigger] inserted[k].key) < key_rank(
            key,
        ) by {
            assert(inserted[k] == flows[k]);
        }
        assert forall|k: int| j2 <= k < inserted.len() implies key_rank(key) < key_rank(
            #[trigger] inserted[k].key,
        ) by {
            if k < j1 {
                assert(inserted[k] == flows[k]);
            } else if k > j1 {
                assert(inserted[k] == flows[k - 1]);
            }
        }
    }
}

/// A key not held stays not held when a flow with another key is inserted.
proof fn lemma_held_after_insert(flows: Seq<Flow>, j: int, flow: Flow, key: FlowKey)
    requires
        0 <= j <= flows.len(),
        flow.key != key,
    ensures
        holds_key(flows.insert(j, flow), key) == holds_key(flows, key),
{
    let inserted = flows.insert(j, flow);
    if holds_key(flows, key) {
        let w = choose|w: int| 0 <= w < flows.len() && #[trigger] flows[w].key == key;
        if w < j {
            assert(inserted[w].key == key);
        } else {
            assert(inserted[w + 1].key == key);
        }
    }
    if holds_key(inserted, key) {
        let w = choose|w: int| 0 <= w < inserted.len() && #[trigger] inserted[w].key == key;
        if w < j {
            assert(flows[w].key == key);
        } else if w > j {
            assert(flows[w - 1].key == key);
        }
    }
}

/// The table after one packet keeps its keys ascending and within the
/// limit.
proof fn lemma_after_keeps_order(
    flows: Seq<Flow>,
    max_flows: usize,
    untracked: UntrackedCounts,
    metadata: PacketMetadata,
    packet: DecodedPacketView,
)
    requires
        keys_ascending(flows),
        flows.len() <= max_flows,
    ensures
        keys_ascending(table_after(flows, max_flows, untracked, metadata, packet).0),
        table_after(flows, max_flows, untracked, metadata, packet).0.len() <= max_flows,
{
    if let Some((key, direction)) = spec_from_packet(packet) {
        if holds_key(flows, key) {
            let i = position_of(flows, key);
            lemma_same_keys_after_update(
                flows,
                i,
                flow_after(flows[i], direction, metadata, packet.transport),
                key,
                0,
            );
        } else if flows.len() < max_flows {
            lemma_fits_somewhere(flows, key);
            let j = choose|j: int| fits_at(flows, key, j);
            lemma_insert_fitting(
                flows,
                j,
                flow_after(Flow::spec_new(key, metadata.timestamp), direction, metadata, packet.transport),
            );
        }
    }
}

/// Recording two packets into a table gives the same flows and the same
/// counters in either order: a capture read backwards produces the same
/// flow table. The one exception is a table with room for exactly one more
/// flow, offered two packets that would each start a different one: then
/// whichever comes first is tracked and the other is counted over the limit.
pub proof fn law_recording_order_is_free(
    flows: Seq<Flow>,
    max_flows: usize,
    untracked: UntrackedCounts,
    first_metadata: PacketMetadata,
    first: DecodedPacketView,
    second_metadata: PacketMetadata,
    second: DecodedPacketView,
)
    requires
        keys_ascending(flows),
        flows.len() <= max_flows,
        !(flows.len() + 1 == max_flows && spec_from_packet(first) is Some && spec_from_packet(second) is Some
            && spec_from_packet(first).unwrap().0 != spec_from_packet(second).unwrap().0 && !holds_key(
            flows,
            spec_from_packet(first).unwrap().0,
        ) && !holds_key(flows, spec_from_packet(second).unwrap().0)),
    ensures
        ({
            let one = table_after(flows, max_flows, untracked, first_metadata, first);
            let two = table_after(flows, max_flows, untracked, second_metadata, second);
            table_after(one.0, max_flows, one.1, second_metadata, second) == table_after(
                two.0,
                max_flows,
                two.1,
                first_metadata,
                first,
            )
        }),
{
    lemma_after_keeps_order(flows, max_flows, untracked, first_metadata, first);
    lemma_after_keeps_order(flows, max_flows, untracked, second_metadata, second);
    match (spec_from_packet(first), spec_from_packet(second)) {
        (Some((k1, d1)), Some((k2, d2))) => {
            lemma_both_keyed(
                flows,
                max_flows,
                untracked,
                first_metadata,
                first,
                second_metadata,
                second,
                k1,
                d1,
                k2,
                d2,
            );
        },
        _ => {
            let one = table_after(flows, max_flows, untracked, first_metadata, first);
            let two = table_after(flows, max_flows, untracked, second_metadata, second);
            let r1 = spec_untracked_reason(first);
            let r2 = spec_untracked_reason(second);
            if spec_from_packet(first) is None && spec_from_packet(second) is None {
                if r1 != r2 {
                    assert(untracked_counted(untracked_counted(untracked, r1), r2) == untracked_counted(
                        untracked_counted(untracked, r2),
                        r1,
                    ));
                }
            }
            assert(table_after(one.0, max_flows, one.1, second_metadata, second) == table_after(
                two.0,
                max_flows,
                two.1,
                first_metadata,
                first,
            ));
        },
    }
}

/// The law when both packets belong to flows.
#[verifier::rlimit(40)]
proof fn lemma_both_keyed(
    flows: Seq<Flow>,
    max_flows: usize,
    untracked: UntrackedCounts,
    first_metadata: PacketMetadata,
    first: DecodedPacketView,
    second_metadata: PacketMetadata,
    second: DecodedPacketView,
    k1: FlowKey,
    d1: crate::flow::key::Direction,
    k2: FlowKey,
    d2: crate::flow::key::Direction,
)
    requires
        keys_ascending(flows),
        flows.len() <= max_flows,
        spec_from_packet(first) == Some((k1, d1)),
        spec_from_packet(second) == Some((k2, d2)),
        !(flows.len() + 1 == max_flows && k1 != k2 && !holds_key(flows, k1) && !holds_key(flows, k2)),
    ensures
        ({
            let one = table_after(flows, max_flows, untracked, first_metadata, first);
            let two = table_after(flows, max_flows, untracked, second_metadata, second);
            table_after(one.0, max_flows, one.1, second_metadata, second) == table_after(
                two.0,
                max_flows,
                two.1,
                first_metadata,
                first,
            )
        }),
{
    let p1 = as_flow_packet(d1, first_metadata, first.transport);
    let p2 = as_flow_packet(d2, second_metadata, second.transport);
    let one = table_after(flows, max_flows, untracked, first_metadata, first);
    let two = table_after(flows, max_flows, untracked, second_metadata, second);
    let left = table_after(one.0, max_flows, one.1, second_metadata, second);
    let right = table_after(two.0, max_flows, two.1, first_metadata, first);
    if k1 == k2 {
        if holds_key(flows, k1) {
            let i = position_of(flows, k1);
            let f = flows[i];
            lemma_same_keys_after_update(flows, i, counted(f, p1), k1, 0);
            lemma_same_keys_after_update(flows, i, counted(f, p2), k1, 0);
            lemma_position(one.0, k1, i);
            lemma_position(two.0, k1, i);
            law_flow_counting_is_order_free(f, p1, p2);
            assert(left.0 =~= right.0);
        } else if flows.len() < max_flows {
            lemma_fits_somewhere(flows, k1);
            let j = choose|j: int| fits_at(flows, k1, j);
            let n1 = counted(Flow::spec_new(k1, first_metadata.timestamp), p1);
            let n2 = counted(Flow::spec_new(k1, second_metadata.timestamp), p2);
            lemma_insert_fitting(flows, j, n1);
            lemma_insert_fitting(flows, j, n2);
            lemma_position(one.0, k1, j);
            lemma_position(two.0, k1, j);
            lemma_fresh_flow_is_order_free(k1, p1, p2);
            assert(left.0 =~= right.0);
        }
    } else if holds_key(flows, k1) && holds_key(flows, k2) {
        let i1 = position_of(flows, k1);
        let i2 = position_of(flows, k2);
        let a = counted(flows[i1], p1);
        let b = counted(flows[i2], p2);
        lemma_same_keys_after_update(flows, i1, a, k2, 0);
        lemma_same_keys_after_update(flows, i2, b, k1, 0);
        lemma_position(one.0, k2, i2);
        lemma_position(two.0, k1, i1);
        assert(left.0 =~= right.0);
    } else if holds_key(flows, k1) {
        lemma_held_new(
            flows,
            max_flows,
            untracked,
            first_metadata,
            first,
            second_metadata,
            second,
            k1,
            d1,
            k2,
            d2,
        );
    } else if holds_key(flows, k2) {
        lemma_held_new(
            flows,
            max_flows,
            untracked,
            second_metadata,
            second,
            first_metadata,
            first,
            k2,
            d2,
            k1,
            d1,
        );
    } else if flows.len() + 2 <= max_flows {
        lemma_fits_somewhere(flows, k1);
        lemma_fits_somewhere(flows, k2);
        let j1 = choose|j: int| fits_at(flows, k1, j);
        let j2 = choose|j: int| fits_at(flows, k2, j);
        let n1 = counted(Flow::spec_new(k1, first_metadata.timestamp), p1);
        let n2 = counted(Flow::spec_new(k2, second_metadata.timestamp), p2);
        lemma_fits_after_insert(flows, j1, n1, k2, j2);
        lemma_fits_after_insert(flows, j2, n2, k1, j1);
        lemma_held_after_insert(flows, j1, n1, k2);
        lemma_held_after_insert(flows, j2, n2, k1);
        lemma_insert_fitting(flows, j1, n1);
        lemma_insert_fitting(flows, j2, n2);
        if key_rank(k1) < key_rank(k2) {
            lemma_fits_unique(one.0, k2, choose|j: int| fits_at(one.0, k2, j), j2 + 1);
            lemma_fits_unique(two.0, k1, choose|j: int| fits_at(two.0, k1, j), j1);
        } else {
            lemma_fits_unique(one.0, k2, choose|j: int| fits_at(one.0, k2, j), j2);
            lemma_fits_unique(two.0, k1, choose|j: int| fits_at(two.0, k1, j), j1 + 1);
        }
        assert(left.0 =~= right.0);
    }
}

/// The law when the first packet's flow is held and the second's is not.
#[verifier::rlimit(40)]
proof fn lemma_held_new(
    flows: Seq<Flow>,
    max_flows: usize,
    untracked: UntrackedCounts,
    first_metadata: PacketMetadata,
    first: DecodedPacketView,
    second_metadata: PacketMetadata,
    second: DecodedPacketView,
    k1: FlowKey,
    d1: crate::flow::key::Direction,
    k2: FlowKey,
    d2: crate::flow::key::Direction,
)
    requires
        keys_ascending(flows),
        flows.len() <= max_flows,
        spec_from_packet(first) == Some((k1, d1)),
        spec_from_packet(second) == Some((k2, d2)),
        k1 != k2,
        holds_key(flows, k1),
        !holds_key(flows, k2),
    ensures
        ({
            let one = table_after(flows, max_flows, untracked, first_metadata, first);
            let two = table_after(flows, max_flows, untracked, second_metadata, second);
            table_after(one.0, max_flows, one.1, second_metadata, second) == table_after(
                two.0,
                max_flows,
                two.1,
                first_metadata,
                first,
            )
        }),
{
    let p1 = as_flow_packet(d1, first_metadata, first.transport);
    let p2 = as_flow_packet(d2, second_metadata, second.transport);
    let one = table_after(flows, max_flows, untracked, first_metadata, first);
    let two = table_after(flows, max_flows, untracked, second_metadata, second);
    let left = table_after(one.0, max_flows, one.1, second_metadata, second);
    let right = table_after(two.0, max_flows, two.1, first_metadata, first);
    let i1 = position_of(flows, k1);
    let a = counted(flows[i1], p1);
    lemma_fits_somewhere(flows, k2);
    let j = choose|j: int| fits_at(flows, k2, j);
    lemma_same_keys_after_update(flows, i1, a, k2, j);
    lemma_fits_unique(one.0, k2, choose|q: int| fits_at(one.0, k2, q), j);
    if flows.len() < max_flows {
        let n2 = counted(Flow::spec_new(k2, second_metadata.timestamp), p2);
        lemma_insert_fitting(flows, j, n2);
        lemma_held_after_insert(flows, j, n2, k1);
        let shifted = if i1 < j {
            i1
        } else {
            i1 + 1
        };
        assert(two.0[shifted] == flows[i1]);
        lemma_position(two.0, k1, shifted);
        assert(left.0 =~= right.0);
    } else {
        lemma_position(flows, k1, i1);
        assert(left.0 =~= right.0);
    }
}

} // verus!
