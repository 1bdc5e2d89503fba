//! Rendering the flow table.
//!
//! As everywhere in this layer: data in, `String` out. The table's flows come
//! already ordered by `FlowTable::flows_sorted`, so nothing here decides
//! ordering: reproducible output is a property of the tracker, not of the
//! printer.

use vstd::prelude::*;

use crate::capture::stats::saturating_sum;
use crate::flow::stats::{Flow, TcpDirectionFacts};
use crate::flow::{FlowTable, UntrackedCounts, listing, untracked_total};
use crate::render::size::{size_in_unit, sized, tenths_exec, tenths_of};
use crate::render::values::{endpoint_text, flags_text, push_endpoint, push_flags};
use crate::text::{digits, pad_left, pad_right, push_char, push_padded_right, push_str, push_u64, push_u64_zero_padded};

verus! {

/// The name of unit `k`.
pub open spec fn unit_name(k: nat) -> Seq<char> {
    if k == 1 {
        "KB"@
    } else if k == 2 {
        "MB"@
    } else if k == 3 {
        "GB"@
    } else {
        "TB"@
    }
}

/// A byte count for people: exact below 10 000 (`54 B`), and above that in
/// decimal units rounded to one decimal (`56.2 KB`, 1 KB being 1000 bytes),
/// the quotient being the one binary64 arithmetic computes.
pub open spec fn bytes_text(bytes: u64) -> Seq<char> {
    if bytes < 10_000 {
        digits(bytes as nat) + " B"@
    } else {
        let (value, k) = sized(bytes as nat);
        let t = tenths_of(value);
        digits(t / 10) + seq!['.'] + digits(t % 10) + seq![' '] + unit_name(k)
    }
}

/// Appends a byte count for people.
fn push_bytes(out: &mut String, bytes: u64)
    ensures
        final(out)@ == old(out)@ + bytes_text(bytes),
{
    if bytes < 10_000 {
        push_u64(out, bytes);
        push_str(out, " B");
        proof {
            assert(out@ =~= old(out)@ + bytes_text(bytes));
        }
        return;
    }
    let (value, unit) = size_in_unit(bytes);
    let count = tenths_exec(value);
    let name: &str = if unit == 1 {
        "KB"
    } else if unit == 2 {
        "MB"
    } else if unit == 3 {
        "GB"
    } else {
        "TB"
    };
    push_u64(out, (count / 10) as u64);
    push_char(out, '.');
    push_u64(out, (count % 10) as u64);
    push_char(out, ' ');
    push_str(out, name);
    proof {
        assert(out@ =~= old(out)@ + bytes_text(bytes));
    }
}

/// Formats a byte count for people.
///
/// Decimal units, because network sizes are conventionally decimal. Counts
/// below 10 000 are printed exactly: a small flow's size is the kind of number
/// an analyst wants to be able to add up.
pub fn format_bytes(bytes: u64) -> (text: String)
    ensures
        text@ == bytes_text(bytes),
{
    let mut out = String::new();
    push_bytes(&mut out, bytes);
    proof {
        assert(Seq::<char>::empty() + bytes_text(bytes) =~= bytes_text(bytes));
    }
    out
}

/// A flow's duration: `S.ccs` below a minute, `Mm SS.ccs` from a minute on,
/// to the hundredth of a second; `unknown` when it could not be worked out.
pub open spec fn flow_duration_text(duration: Option<u64>) -> Seq<char> {
    match duration {
        None => "unknown"@,
        Some(micros) => {
            let seconds = micros / 1_000_000;
            let hundredths = (micros % 1_000_000) / 1_000 / 10;
            if seconds < 60 {
                digits(seconds as nat) + seq!['.'] + pad_left(digits(hundredths as nat), 2, '0') + seq!['s']
            } else {
                digits((seconds / 60) as nat) + "m "@ + pad_left(digits((seconds % 60) as nat), 2, '0')
                    + seq!['.'] + pad_left(digits(hundredths as nat), 2, '0') + seq!['s']
            }
        },
    }
}

/// Formats a flow's duration in microseconds, or says it could not be worked
/// out.
pub fn format_duration(duration: Option<u64>) -> (text: String)
    ensures
        text@ == flow_duration_text(duration),
{
    let mut out = String::new();
    match duration {
        None => push_str(&mut out, "unknown"),
        Some(micros) => {
            let seconds = micros / 1_000_000;
            let hundredths = (micros % 1_000_000) / 1_000 / 10;
            if seconds < 60 {
                push_u64(&mut out, seconds);
            } else {
                push_u64(&mut out, seconds / 60);
                push_str(&mut out, "m ");
                push_u64_zero_padded(&mut out, seconds % 60, 2);
            }
            push_char(&mut out, '.');
            push_u64_zero_padded(&mut out, hundredths, 2);
            push_char(&mut out, 's');
        },
    }
    proof {
        assert(out@ =~= flow_duration_text(duration));
    }
    out
}

/// One direction's TCP facts: `[FLAGS] syn n fin n rst n`.
pub open spec fn facts_text(facts: TcpDirectionFacts) -> Seq<char> {
    seq!['['] + flags_text(facts.flags_seen) + "] syn "@ + digits(facts.syn as nat) + " fin "@ + digits(
        facts.fin as nat,
    ) + " rst "@ + digits(facts.rst as nat)
}

/// Appends one direction's TCP facts.
fn push_facts(out: &mut String, facts: TcpDirectionFacts)
    ensures
        final(out)@ == old(out)@ + facts_text(facts),
{
    push_char(out, '[');
    push_flags(out, facts.flags_seen);
    push_str(out, "] syn ");
    push_u64(out, facts.syn);
    push_str(out, " fin ");
    push_u64(out, facts.fin);
    push_str(out, " rst ");
    push_u64(out, facts.rst);
    proof {
        assert(out@ =~= old(out)@ + facts_text(facts));
    }
}

/// The packets in both directions of a flow.
pub open spec fn total_packets(flow: Flow) -> nat {
    saturating_sum(flow.a_to_b.packets as int, flow.b_to_a.packets as int) as nat
}

/// The captured bytes in both directions of a flow.
pub open spec fn total_captured(flow: Flow) -> u64 {
    saturating_sum(flow.a_to_b.captured_bytes as int, flow.b_to_a.captured_bytes as int) as u64
}

/// The wire bytes in both directions of a flow.
pub open spec fn total_wire(flow: Flow) -> u64 {
    saturating_sum(flow.a_to_b.wire_bytes as int, flow.b_to_a.wire_bytes as int) as u64
}

/// The first line of a flow entry: the conversation.
pub open spec fn entry_head_text(flow: Flow) -> Seq<char> {
    "  "@ + flow.key.protocol.spec_label()@ + seq![' '] + endpoint_text(flow.key.a) + " \u{2194} "@
        + endpoint_text(flow.key.b) + seq!['\n']
}

/// The second line of a flow entry: totals and duration.
pub open spec fn entry_totals_text(flow: Flow) -> Seq<char> {
    "      packets "@ + pad_right(digits(total_packets(flow)), 7, ' ') + " bytes "@ + pad_right(
        bytes_text(total_wire(flow)),
        10,
        ' ',
    ) + " duration "@ + flow_duration_text(flow.spec_duration()) + seq!['\n']
}

/// The third line of a flow entry: each direction.
pub open spec fn entry_directions_text(flow: Flow) -> Seq<char> {
    "      A\u{2192}B "@ + digits(flow.a_to_b.packets as nat) + " / "@ + pad_right(
        bytes_text(flow.a_to_b.wire_bytes),
        12,
        ' ',
    ) + " B\u{2192}A "@ + digits(flow.b_to_a.packets as nat) + " / "@ + bytes_text(flow.b_to_a.wire_bytes)
        + seq!['\n']
}

/// The truncation line, only when the capture actually truncated something.
pub open spec fn entry_truncation_text(flow: Flow) -> Seq<char> {
    if total_captured(flow) != total_wire(flow) {
        "      captured "@ + bytes_text(total_captured(flow)) + " of "@ + bytes_text(total_wire(flow))
            + " on the wire (snapshot length truncated these packets)\n"@
    } else {
        Seq::empty()
    }
}

/// The TCP line, only for a flow with TCP facts.
pub open spec fn entry_tcp_text(flow: Flow) -> Seq<char> {
    match flow.tcp {
        Some(facts) => "      TCP A\u{2192}B "@ + facts_text(facts.a_to_b) + "   B\u{2192}A "@ + facts_text(
            facts.b_to_a,
        ) + seq!['\n'],
        None => Seq::empty(),
    }
}

/// One flow as its lines.
pub open spec fn entry_text(flow: Flow) -> Seq<char> {
    entry_head_text(flow) + entry_totals_text(flow) + entry_directions_text(flow) + entry_truncation_text(
        flow,
    ) + entry_tcp_text(flow)
}

/// Appends the first two lines of a flow entry.
fn push_entry_top(out: &mut String, flow: &Flow)
    ensures
        final(out)@ == old(out)@ + entry_head_text(*flow) + entry_totals_text(*flow),
{
    push_str(out, "  ");
    push_str(out, flow.key.protocol.label());
    push_char(out, ' ');
    push_endpoint(out, flow.key.a);
    push_str(out, " \u{2194} ");
    push_endpoint(out, flow.key.b);
    push_char(out, '\n');
    let ghost head = out@;
    proof {
        assert(head =~= old(out)@ + entry_head_text(*flow));
    }

    push_str(out, "      packets ");
    let mut packets = String::new();
    push_u64(&mut packets, flow.total_packets());
    proof {
        assert(packets@ =~= digits(total_packets(*flow)));
    }
    push_padded_right(out, packets.as_str(), 7, ' ');
    push_str(out, " bytes ");
    let wire = format_bytes(flow.total_wire_bytes());
    push_padded_right(out, wire.as_str(), 10, ' ');
    push_str(out, " duration ");
    let duration = format_duration(flow.duration());
    push_str(out, duration.as_str());
    push_char(out, '\n');
    proof {
        assert(out@ =~= head + entry_totals_text(*flow));
    }
}

/// Appends the direction, truncation and TCP lines of a flow entry.
fn push_entry_bottom(out: &mut String, flow: &Flow)
    ensures
        final(out)@ == old(out)@ + entry_directions_text(*flow) + entry_truncation_text(*flow)
            + entry_tcp_text(*flow),
{
    push_str(out, "      A\u{2192}B ");
    push_u64(out, flow.a_to_b.packets);
    push_str(out, " / ");
    let forward = format_bytes(flow.a_to_b.wire_bytes);
    push_padded_right(out, forward.as_str(), 12, ' ');
    push_str(out, " B\u{2192}A ");
    push_u64(out, flow.b_to_a.packets);
    push_str(out, " / ");
    push_bytes(out, flow.b_to_a.wire_bytes);
    push_char(out, '\n');
    let ghost directions = out@;
    proof {
        assert(directions =~= old(out)@ + entry_directions_text(*flow));
    }

    let captured = flow.total_captured_bytes();
    let wire = flow.total_wire_bytes();
    if captured != wire {
        push_str(out, "      captured ");
        push_bytes(out, captured);
        push_str(out, " of ");
        push_bytes(out, wire);
        push_str(out, " on the wire (snapshot length truncated these packets)\n");
    }
    let ghost truncation = out@;
    proof {
        assert(truncation =~= directions + entry_truncation_text(*flow));
    }

    match flow.tcp {
        Some(facts) => {
            push_str(out, "      TCP A\u{2192}B ");
            push_facts(out, facts.a_to_b);
            push_str(out, "   B\u{2192}A ");
            push_facts(out, facts.b_to_a);
            push_char(out, '\n');
        },
        None => {},
    }
    proof {
        assert(out@ =~= truncation + entry_tcp_text(*flow));
    }
}

/// Renders one flow as its lines.
///
/// Several lines rather than a table row because an IPv6 conversation is over
/// 90 characters of addresses alone; wrapping the numbers underneath the
/// endpoints keeps both readable without measuring the terminal.
pub fn flow_entry(flow: &Flow) -> (entry: String)
    ensures
        entry@ == entry_text(*flow),
{
    let mut out = String::new();
    push_entry_top(&mut out, flow);
    push_entry_bottom(&mut out, flow);
    proof {
        assert(out@ =~= entry_text(*flow));
    }
    out
}

/// `count label` as the one part of the note for one reason, or nothing when
/// the count is zero.
pub open spec fn part(count: u64, label: Seq<char>) -> Seq<Seq<char>> {
    if count > 0 {
        seq![digits(count as nat) + seq![' '] + label]
    } else {
        Seq::<Seq<char>>::empty()
    }
}

/// The `count label` parts of the note about untracked packets, for the
/// reasons with a non-zero count, in a fixed order.
pub open spec fn reason_parts(counts: UntrackedCounts) -> Seq<Seq<char>> {
    part(counts.arp, "ARP"@) + part(counts.icmp, "ICMP"@) + part(counts.later_fragments, "later fragments"@)
        + part(counts.other_protocol, "other IP protocols"@) + part(counts.undecoded, "undecoded"@) + part(
        counts.over_flow_limit,
        "over the flow limit"@,
    )
}

/// Parts joined with `, `.
pub open spec fn listed_parts(parts: Seq<Seq<char>>) -> Seq<char>
    decreases parts.len(),
{
    if parts.len() == 0 {
        Seq::empty()
    } else if parts.len() == 1 {
        parts[0]
    } else {
        listed_parts(parts.drop_last()) + ", "@ + parts.last()
    }
}

/// The note about packets that formed no flow; empty when there were none.
pub open spec fn untracked_note_text(counts: UntrackedCounts) -> Seq<char> {
    if untracked_total(counts) == 0 {
        Seq::empty()
    } else {
        "\n    "@ + digits(untracked_total(counts) as nat) + " packets formed no flow: "@ + listed_parts(
            reason_parts(counts),
        ) + ".\n"@
    }
}

/// Appends `count label` to the note when the count is not zero.
fn push_reason(
    out: &mut String,
    parts: Ghost<Seq<Seq<char>>>,
    any_before: bool,
    count: u64,
    label: &str,
) -> (added: (Ghost<Seq<Seq<char>>>, bool))
    requires
        old(out)@ == listed_parts(parts@),
        any_before == (parts@.len() > 0),
    ensures
        added.0@ == parts@ + part(count, label@),
        added.1 == (added.0@.len() > 0),
        final(out)@ == listed_parts(added.0@),
{
    if count > 0 {
        if any_before {
            push_str(out, ", ");
        }
        push_u64(out, count);
        push_char(out, ' ');
        push_str(out, label);
        let ghost part = digits(count as nat) + seq![' '] + label@;
        proof {
            assert((parts@ + seq![part]).drop_last() =~= parts@);
            assert(out@ =~= listed_parts(parts@ + seq![part]));
        }
        (Ghost(parts@ + seq![part]), true)
    } else {
        proof {
            assert(parts@ + Seq::<Seq<char>>::empty() =~= parts@);
        }
        (Ghost(parts@ + Seq::<Seq<char>>::empty()), any_before)
    }
}

/// Renders the note about packets that formed no flow.
pub fn untracked_note(counts: UntrackedCounts) -> (note: String)
    ensures
        note@ == untracked_note_text(counts),
{
    if !counts.any() {
        return String::new();
    }
    let mut reasons = String::new();
    let parts = Ghost(Seq::<Seq<char>>::empty());
    let (parts, any) = push_reason(&mut reasons, parts, false, counts.arp, "ARP");
    let (parts, any) = push_reason(&mut reasons, parts, any, counts.icmp, "ICMP");
    let (parts, any) = push_reason(&mut reasons, parts, any, counts.later_fragments, "later fragments");
    let (parts, any) = push_reason(&mut reasons, parts, any, counts.other_protocol, "other IP protocols");
    let (parts, any) = push_reason(&mut reasons, parts, any, counts.undecoded, "undecoded");
    let (parts, _) = push_reason(&mut reasons, parts, any, counts.over_flow_limit, "over the flow limit");
    proof {
        assert(parts@ =~= reason_parts(counts));
    }
    let mut out = String::new();
    push_str(&mut out, "\n    ");
    push_u64(&mut out, counts.total());
    push_str(&mut out, " packets formed no flow: ");
    push_str(&mut out, reasons.as_str());
    push_str(&mut out, ".\n");
    proof {
        assert(out@ =~= untracked_note_text(counts));
    }
    out
}

/// The entries of the first `count` listed flows, separated by blank lines.
pub open spec fn entries_text(listed: Seq<Flow>, count: nat) -> Seq<char>
    decreases count,
{
    if count == 0 {
        Seq::empty()
    } else {
        entries_text(listed, (count - 1) as nat) + (if count > 1 {
            seq!['\n']
        } else {
            Seq::empty()
        }) + entry_text(listed[count - 1])
    }
}

/// The whole flow section: a heading, every flow, and a summary.
pub open spec fn flow_table_text(table: FlowTable) -> Seq<char> {
    let listed = listing(table.spec_flows());
    "\n[*] Flows: "@ + digits(listed.len()) + seq!['\n'] + (if listed.len() > 0 {
        "    A is the endpoint on the left of \u{2194}, B the one on the right.\n"@
            + "    The order is fixed by address and port, not by who spoke first.\n"@
    } else {
        Seq::empty()
    }) + seq!['\n'] + (if listed.len() == 0 {
        "    (no TCP or UDP conversations were seen)\n\n"@
    } else {
        Seq::empty()
    }) + entries_text(listed, listed.len()) + untracked_note_text(table.spec_untracked()) + if table.spec_flows().len()
        >= table.spec_max_flows() {
        "\n    The flow limit of "@ + digits(table.spec_max_flows() as nat)
            + " was reached. Raise it with --max-flows.\n"@
    } else {
        Seq::empty()
    }
}

/// Appends the heading of the flow section.
fn push_flow_heading(out: &mut String, count: usize)
    ensures
        final(out)@ == old(out)@ + "\n[*] Flows: "@ + digits(count as nat) + seq!['\n'] + (if count > 0 {
            "    A is the endpoint on the left of \u{2194}, B the one on the right.\n"@
                + "    The order is fixed by address and port, not by who spoke first.\n"@
        } else {
            Seq::empty()
        }) + seq!['\n'] + (if count == 0 {
            "    (no TCP or UDP conversations were seen)\n\n"@
        } else {
            Seq::empty()
        }),
{
    push_str(out, "\n[*] Flows: ");
    push_u64(out, count as u64);
    push_char(out, '\n');
    if count > 0 {
        push_str(out, "    A is the endpoint on the left of \u{2194}, B the one on the right.\n");
        push_str(out, "    The order is fixed by address and port, not by who spoke first.\n");
    }
    push_char(out, '\n');
    if count == 0 {
        push_str(out, "    (no TCP or UDP conversations were seen)\n\n");
    }
    proof {
        assert(out@ =~= old(out)@ + "\n[*] Flows: "@ + digits(count as nat) + seq!['\n'] + (if count > 0 {
            "    A is the endpoint on the left of \u{2194}, B the one on the right.\n"@
                + "    The order is fixed by address and port, not by who spoke first.\n"@
        } else {
            Seq::empty()
        }) + seq!['\n'] + (if count == 0 {
            "    (no TCP or UDP conversations were seen)\n\n"@
        } else {
            Seq::empty()
        }));
    }
}

/// Renders the whole flow section: a heading, every flow, and a summary.
///
/// A and B are not "client" and "server": they are the two endpoints in a
/// fixed order, so that the same conversation is identified the same way no
/// matter which packet arrived first, and the heading says so.
pub fn flow_table(table: &FlowTable) -> (text: String)
    ensures
        text@ == flow_table_text(*table),
{
    let flows = table.flows_sorted();
    let mut out = String::new();
    push_flow_heading(&mut out, flows.len());
    let ghost head = out@;
    let mut k: usize = 0;
    while k < flows.len()
        invariant
            k <= flows@.len(),
            out@ == head + entries_text(flows@, k as nat),
        decreases flows@.len() - k,
    {
        if k > 0 {
            push_char(&mut out, '\n');
        }
        let entry = flow_entry(&flows[k]);
        push_str(&mut out, entry.as_str());
        proof {
            assert(out@ =~= head + entries_text(flows@, (k + 1) as nat));
        }
        k = k + 1;
    }
    let note = untracked_note(table.untracked());
    push_str(&mut out, note.as_str());
    if table.is_full() {
        push_str(&mut out, "\n    The flow limit of ");
        push_u64(&mut out, table.max_flows() as u64);
        push_str(&mut out, " was reached. Raise it with --max-flows.\n");
    }
    proof {
        assert(out@ =~= flow_table_text(*table));
    }
    out
}

} // verus!
