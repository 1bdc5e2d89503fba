//! Rendering `netsentry list`.

use vstd::prelude::*;

use crate::capture::device::{InterfaceAddress, InterfaceAttribute, NetworkInterface};
use crate::decode::types::IpAddress;
use crate::flow::key::{be_value, octets_value};
use crate::render::values::{ip_text, push_ip};
use crate::render::{VERSION, push_sanitized, sanitized};
use crate::text::{digits, pad_right, push_char, push_padded_right, push_str, push_u64};

verus! {

/// Indentation of an interface's detail lines.
pub const INDENT: &'static str = "    ";

/// Width of the detail label column ("description" is the longest label).
pub const LABEL_WIDTH: usize = 11;

/// Gap between the label column and its value.
pub const LABEL_GAP: &'static str = "  ";

/// `2` to the power `n`.
pub open spec fn two_to(n: nat) -> nat
    decreases n,
{
    if n == 0 {
        1
    } else {
        two_to((n - 1) as nat) * 2
    }
}

/// The `width`-bit mask whose top `prefix` bits are ones and the rest zeros.
pub open spec fn top_ones(prefix: nat, width: nat) -> nat
    decreases prefix,
{
    if prefix == 0 {
        0
    } else {
        top_ones((prefix - 1) as nat, width) + two_to((width - prefix) as nat)
    }
}

/// The bit width of an address family: 32 or 128.
pub open spec fn address_width(address: IpAddress) -> nat {
    match address {
        IpAddress::V4(_) => 32,
        IpAddress::V6(_) => 128,
    }
}

/// An address's bits read as one number.
pub open spec fn address_bits(address: IpAddress) -> nat {
    match address {
        IpAddress::V4(v4) => be_value(v4.0@),
        IpAddress::V6(v6) => be_value(v6.0@),
    }
}

/// The prefix length a netmask stands for: present exactly when the mask is
/// a run of ones followed by a run of zeros.
pub open spec fn spec_prefix_len(netmask: IpAddress) -> Option<u32> {
    if exists|p: nat| p <= address_width(netmask) && #[trigger] top_ones(p, address_width(netmask))
        == address_bits(netmask) {
        Some(
            (choose|p: nat|
                p <= address_width(netmask) && #[trigger] top_ones(p, address_width(netmask))
                    == address_bits(netmask)) as u32,
        )
    } else {
        None
    }
}

/// A mask with more leading ones is a larger number, and every mask is
/// below `2^width`.
proof fn lemma_top_ones(p: nat, q: nat, width: nat)
    requires
        p <= q <= width,
    ensures
        top_ones(p, width) + two_to((width - p) as nat) == two_to(width),
        p < q ==> top_ones(p, width) < top_ones(q, width),
    decreases q,
{
    lemma_top_ones_sum(p, width);
    if p < q {
        lemma_top_ones(p, (q - 1) as nat, width);
        lemma_two_to_positive((width - q) as nat);
    }
}

/// The top `p` ones and the `width - p` bits below them fill `width` bits.
proof fn lemma_top_ones_sum(p: nat, width: nat)
    requires
        p <= width,
    ensures
        top_ones(p, width) + two_to((width - p) as nat) == two_to(width),
    decreases p,
{
    if p > 0 {
        lemma_top_ones_sum((p - 1) as nat, width);
        assert(two_to((width - p + 1) as nat) == two_to((width - p) as nat) * 2);
    }
}

/// The powers of two the prefix search starts from and stays below.
proof fn lemma_two_to_values()
    ensures
        two_to(31) == 0x8000_0000,
        two_to(32) == 0x1_0000_0000,
        two_to(127) == 0x8000_0000_0000_0000_0000_0000_0000_0000,
        two_to(128) == 0x1_0000_0000_0000_0000_0000_0000_0000_0000int,
{
    reveal_with_fuel(two_to, 11);
    assert(two_to(10) == 0x400);
    assert(two_to(20) == 0x10_0000);
    assert(two_to(30) == 0x4000_0000);
    assert(two_to(31) == 0x8000_0000);
    assert(two_to(32) == 0x1_0000_0000);
    assert(two_to(42) == 0x400_0000_0000);
    assert(two_to(52) == 0x10_0000_0000_0000);
    assert(two_to(62) == 0x4000_0000_0000_0000);
    assert(two_to(72) == 0x100_0000_0000_0000_0000int);
    assert(two_to(82) == 0x4_0000_0000_0000_0000_0000int);
    assert(two_to(92) == 0x1000_0000_0000_0000_0000_0000int);
    assert(two_to(102) == 0x40_0000_0000_0000_0000_0000_0000int);
    assert(two_to(112) == 0x1_0000_0000_0000_0000_0000_0000_0000int);
    assert(two_to(122) == 0x400_0000_0000_0000_0000_0000_0000_0000int);
    assert(two_to(127) == 0x8000_0000_0000_0000_0000_0000_0000_0000int);
    assert(two_to(128) == 0x1_0000_0000_0000_0000_0000_0000_0000_0000int);
}

/// Powers of two are positive.
proof fn lemma_two_to_positive(n: nat)
    ensures
        two_to(n) >= 1,
    decreases n,
{
    if n > 0 {
        lemma_two_to_positive((n - 1) as nat);
    }
}

/// Converts a netmask into a prefix length.
///
/// Returns `None` if the mask is not a run of ones followed by a run of
/// zeros. Non-contiguous masks are legal to configure on some systems and are
/// occasionally a sign of a misconfigured (or deliberately odd) host, so they
/// are surfaced rather than normalised away.
pub fn netmask_to_prefix_len(netmask: IpAddress) -> (prefix: Option<u32>)
    ensures
        prefix == spec_prefix_len(netmask),
{
    let (value, width): (u128, u32) = match netmask {
        IpAddress::V4(v4) => {
            let octets = v4.0;
            (octets_value(&octets), 32)
        },
        IpAddress::V6(v6) => {
            let octets = v6.0;
            (octets_value(&octets), 128)
        },
    };
    let ghost w = width as nat;
    proof {
        lemma_two_to_values();
    }
    let mut bit: u128 = if width == 32 {
        0x8000_0000
    } else {
        0x8000_0000_0000_0000_0000_0000_0000_0000
    };
    let mut mask: u128 = 0;
    let mut p: u32 = 0;
    loop
        invariant
            w == width as nat,
            width == 32 || width == 128,
            value == address_bits(netmask),
            w == address_width(netmask),
            two_to(128) == 0x1_0000_0000_0000_0000_0000_0000_0000_0000int,
            p <= width,
            mask == top_ones(p as nat, w),
            p < width ==> bit == two_to((w - p - 1) as nat),
            forall|q: nat| q < p ==> #[trigger] top_ones(q, w) != value,
        decreases width - p,
    {
        if mask == value {
            proof {
                assert(top_ones(p as nat, w) == address_bits(netmask));
                let chosen = choose|q: nat| q <= w && #[trigger] top_ones(q, w) == address_bits(netmask);
                if chosen < p {
                    lemma_top_ones(chosen, p as nat, w);
                } else if chosen > p {
                    lemma_top_ones(p as nat, chosen, w);
                }
            }
            return Some(p);
        }
        if p == width {
            proof {
                assert forall|q: nat| q <= w implies #[trigger] top_ones(q, w) != address_bits(netmask) by {
                    if q == p {
                    }
                }
            }
            return None;
        }
        proof {
            lemma_top_ones_sum((p + 1) as nat, w);
            lemma_two_to_positive((w - p - 1) as nat);
            lemma_two_to_values();
        }
        mask = mask + bit;
        p = p + 1;
        if p < width {
            proof {
                assert(two_to((w - p) as nat) == two_to((w - p - 1) as nat) * 2);
            }
            bit = bit / 2;
        }
    }
}

/// True when both addresses are IPv4, or both are IPv6.
pub open spec fn same_family(a: IpAddress, b: IpAddress) -> bool {
    (a is V4) == (b is V4)
}

/// An address as CIDR when its mask is a prefix of the same family; the mask
/// spelled out otherwise; the bare address without a mask.
pub open spec fn address_text(address: InterfaceAddress) -> Seq<char> {
    match address.netmask {
        None => ip_text(address.addr),
        Some(netmask) => match spec_prefix_len(netmask) {
            Some(prefix) if same_family(address.addr, netmask) => ip_text(address.addr) + seq!['/']
                + digits(prefix as nat),
            _ => ip_text(address.addr) + " (netmask "@ + ip_text(netmask) + seq![')'],
        },
    }
}

/// Appends an address as CIDR when possible.
fn push_address(out: &mut String, address: &InterfaceAddress)
    ensures
        final(out)@ == old(out)@ + address_text(*address),
{
    push_ip(out, address.addr);
    match address.netmask {
        None => {},
        Some(netmask) => {
            let prefix = netmask_to_prefix_len(netmask);
            let same = address.addr.is_ipv4() == netmask.is_ipv4();
            match prefix {
                Some(length) if same => {
                    push_char(out, '/');
                    push_u64(out, length as u64);
                },
                _ => {
                    push_str(out, " (netmask ");
                    push_ip(out, netmask);
                    push_char(out, ')');
                },
            }
        },
    }
    proof {
        assert(out@ =~= old(out)@ + address_text(*address));
    }
}

/// Formats an address as CIDR when possible.
///
/// Falls back to spelling the mask out whenever it cannot be expressed as a
/// prefix length, so a strange mask is reported rather than quietly rounded
/// into a plausible looking one.
pub fn format_address(address: &InterfaceAddress) -> (text: String)
    ensures
        text@ == address_text(*address),
{
    let mut out = String::new();
    push_address(&mut out, address);
    proof {
        assert(Seq::<char>::empty() + address_text(*address) =~= address_text(*address));
    }
    out
}

/// One `label   value` detail line.
pub open spec fn detail_line(label: Seq<char>, value: Seq<char>) -> Seq<char> {
    INDENT@ + pad_right(label, LABEL_WIDTH as nat, ' ') + LABEL_GAP@ + value + seq!['\n']
}

/// Appends one `label   value` detail line.
fn push_detail_head(out: &mut String, label: &str)
    ensures
        final(out)@ == old(out)@ + INDENT@ + pad_right(label@, LABEL_WIDTH as nat, ' ') + LABEL_GAP@,
{
    push_str(out, INDENT);
    push_padded_right(out, label, LABEL_WIDTH, ' ');
    push_str(out, LABEL_GAP);
}

/// Attribute labels joined with `, `.
pub open spec fn attribute_list(attributes: Seq<InterfaceAttribute>) -> Seq<char>
    decreases attributes.len(),
{
    if attributes.len() == 0 {
        Seq::empty()
    } else if attributes.len() == 1 {
        attributes[0].spec_label()@
    } else {
        attribute_list(attributes.drop_last()) + ", "@ + attributes.last().spec_label()@
    }
}

/// The status line's value: the status, then any attributes in brackets.
pub open spec fn status_text(interface: NetworkInterface) -> Seq<char> {
    interface.status.spec_label()@ + if interface.attributes@.len() == 0 {
        Seq::empty()
    } else {
        "  ["@ + attribute_list(interface.attributes@) + seq![']']
    }
}

/// The address lines for the first `count` addresses: the first labelled
/// `addresses`, the rest aligned under it.
pub open spec fn address_lines(addresses: Seq<InterfaceAddress>, count: nat) -> Seq<char>
    decreases count,
{
    if count == 0 {
        Seq::empty()
    } else {
        address_lines(addresses, (count - 1) as nat) + detail_line(
            if count == 1 {
                "addresses"@
            } else {
                Seq::empty()
            },
            address_text(addresses[count - 1]),
        )
    }
}

/// Appends the status line's value.
fn push_status(out: &mut String, interface: &NetworkInterface)
    ensures
        final(out)@ == old(out)@ + status_text(*interface),
{
    push_str(out, interface.status.label());
    if interface.attributes.len() > 0 {
        push_str(out, "  [");
        let ghost opened = out@;
        let mut k: usize = 0;
        while k < interface.attributes.len()
            invariant
                k <= interface.attributes@.len(),
                out@ == opened + attribute_list(interface.attributes@.subrange(0, k as int)),
            decreases interface.attributes@.len() - k,
        {
            if k > 0 {
                push_str(out, ", ");
            }
            push_str(out, interface.attributes[k].label());
            proof {
                let next = interface.attributes@.subrange(0, k + 1);
                assert(next.drop_last() =~= interface.attributes@.subrange(0, k as int));
            }
            k = k + 1;
        }
        push_char(out, ']');
        proof {
            assert(interface.attributes@.subrange(0, k as int) =~= interface.attributes@);
        }
    }
    proof {
        assert(out@ =~= old(out)@ + status_text(*interface));
    }
}

/// Appends the address lines of an interface, or `(none)`.
fn push_addresses(out: &mut String, interface: &NetworkInterface)
    ensures
        final(out)@ == old(out)@ + if interface.addresses@.len() == 0 {
            detail_line("addresses"@, "(none)"@)
        } else {
            address_lines(interface.addresses@, interface.addresses@.len())
        },
{
    if interface.addresses.len() == 0 {
        push_detail_head(out, "addresses");
        push_str(out, "(none)");
        push_char(out, '\n');
        proof {
            assert(out@ =~= old(out)@ + detail_line("addresses"@, "(none)"@));
        }
    } else {
        let mut k: usize = 0;
        while k < interface.addresses.len()
            invariant
                k <= interface.addresses@.len(),
                out@ == old(out)@ + address_lines(interface.addresses@, k as nat),
            decreases interface.addresses@.len() - k,
        {
            if k == 0 {
                push_detail_head(out, "addresses");
            } else {
                push_detail_head(out, "");
            }
            push_address(out, &interface.addresses[k]);
            push_char(out, '\n');
            proof {
                reveal_strlit("");
                assert(out@ =~= old(out)@ + address_lines(interface.addresses@, (k + 1) as nat));
            }
            k = k + 1;
        }
    }
}

/// One interface as a labelled block.
pub open spec fn block_text(interface: NetworkInterface) -> Seq<char> {
    seq!['['] + digits(interface.index as nat) + "] "@ + sanitized(interface.name@) + seq!['\n']
        + detail_line(
        "description"@,
        match interface.description {
            Some(text) => sanitized(text@),
            None => "(none)"@,
        },
    ) + detail_line("status"@, status_text(interface)) + if interface.addresses@.len() == 0 {
        detail_line("addresses"@, "(none)"@)
    } else {
        address_lines(interface.addresses@, interface.addresses@.len())
    }
}

/// Renders one interface as a labelled block.
///
/// A block layout is used rather than a table because Windows interface names
/// (`\Device\NPF_{3F2A8C10-4B7D-11EE-9C1A-9A2B0C3D4E5F}`) are far too wide for
/// a column without truncating them, and truncating the very string the user
/// must pass back to the tool would be a usability bug.
pub fn interface_block(interface: &NetworkInterface) -> (block: String)
    ensures
        block@ == block_text(*interface),
{
    let mut out = String::new();
    push_char(&mut out, '[');
    push_u64(&mut out, interface.index as u64);
    push_str(&mut out, "] ");
    push_sanitized(&mut out, interface.name.as_str());
    push_char(&mut out, '\n');

    push_detail_head(&mut out, "description");
    match &interface.description {
        Some(text) => push_sanitized(&mut out, text.as_str()),
        None => push_str(&mut out, "(none)"),
    }
    push_char(&mut out, '\n');

    push_detail_head(&mut out, "status");
    push_status(&mut out, interface);
    push_char(&mut out, '\n');
    push_addresses(&mut out, interface);
    proof {
        reveal_strlit("addresses");
        assert(out@ =~= block_text(*interface));
    }
    out
}

/// "1 interface" or "n interfaces".
pub open spec fn count_phrase_text(count: nat) -> Seq<char> {
    if count == 1 {
        "1 interface"@
    } else {
        digits(count) + " interfaces"@
    }
}

/// "1 interface" / "4 interfaces": English pluralisation for the summary line.
pub fn count_phrase(count: usize) -> (phrase: String)
    ensures
        phrase@ == count_phrase_text(count as nat),
{
    let mut out = String::new();
    if count == 1 {
        push_str(&mut out, "1 interface");
    } else {
        push_u64(&mut out, count as u64);
        push_str(&mut out, " interfaces");
    }
    proof {
        assert(out@ =~= count_phrase_text(count as nat));
    }
    out
}

/// The blocks of the first `count` interfaces, each followed by a blank line.
pub open spec fn blocks_text(interfaces: Seq<NetworkInterface>, count: nat) -> Seq<char>
    decreases count,
{
    if count == 0 {
        Seq::empty()
    } else {
        blocks_text(interfaces, (count - 1) as nat) + block_text(interfaces[count - 1]) + seq!['\n']
    }
}

/// The full `netsentry list` output.
pub open spec fn listing_text(interfaces: Seq<NetworkInterface>) -> Seq<char> {
    "NetSentry "@ + VERSION@ + " \u{2014} network interfaces\n\n"@ + blocks_text(interfaces, interfaces.len())
        + count_phrase_text(interfaces.len()) + " found.\n"@
}

/// Renders the full `netsentry list` output, trailing newline included.
pub fn interface_list(interfaces: &[NetworkInterface]) -> (listing: String)
    ensures
        listing@ == listing_text(interfaces@),
{
    let mut out = String::new();
    push_str(&mut out, "NetSentry ");
    push_str(&mut out, VERSION);
    push_str(&mut out, " \u{2014} network interfaces\n\n");
    let ghost head = out@;
    let mut k: usize = 0;
    while k < interfaces.len()
        invariant
            k <= interfaces@.len(),
            out@ == head + blocks_text(interfaces@, k as nat),
        decreases interfaces@.len() - k,
    {
        let block = interface_block(&interfaces[k]);
        push_str(&mut out, block.as_str());
        push_char(&mut out, '\n');
        proof {
            assert(out@ =~= head + blocks_text(interfaces@, (k + 1) as nat));
        }
        k = k + 1;
    }
    let phrase = count_phrase(interfaces.len());
    push_str(&mut out, phrase.as_str());
    push_str(&mut out, " found.\n");
    proof {
        assert(out@ =~= listing_text(interfaces@));
    }
    out
}

} // verus!
