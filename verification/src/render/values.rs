//! The text of protocol values: addresses, EtherTypes, IP protocols, TCP
//! flags, endpoints and flow keys, each as people conventionally write it.

use vstd::prelude::*;

use crate::decode::types::{
    EtherType, IpAddress, Ipv4Address, Ipv6Address, MacAddress, TCP_ACK, TCP_CWR, TCP_ECE, TCP_FIN,
    TCP_NS, TCP_PSH, TCP_RST, TCP_SYN, TCP_URG, TcpFlags, bit_set,
};
use crate::flow::key::{Endpoint, FlowKey};
use crate::text::{
    digits, hex2, hex4, hex_digits, push_char, push_hex, push_hex2, push_hex4, push_str, push_u64,
};

verus! {

/// `aa:bb:cc:dd:ee:ff`: six octets in lowercase hexadecimal.
pub open spec fn mac_text(mac: MacAddress) -> Seq<char> {
    hex2(mac.0[0]) + seq![':'] + hex2(mac.0[1]) + seq![':'] + hex2(mac.0[2]) + seq![':'] + hex2(
        mac.0[3],
    ) + seq![':'] + hex2(mac.0[4]) + seq![':'] + hex2(mac.0[5])
}

/// Appends a MAC address in the conventional form.
pub fn push_mac(out: &mut String, mac: MacAddress)
    ensures
        final(out)@ == old(out)@ + mac_text(mac),
{
    let mut i: usize = 0;
    while i < 6
        invariant
            i <= 6,
            out@ == old(out)@ + mac_prefix_text(mac, i as int),
        decreases 6 - i,
    {
        if i > 0 {
            push_char(out, ':');
        }
        push_hex2(out, mac.0[i]);
        i = i + 1;
    }
    proof {
        reveal_with_fuel(mac_prefix_text, 7);
        assert(mac_prefix_text(mac, 6) =~= mac_text(mac));
    }
}

/// The text of the first `n` octets of a MAC address, colon separated.
pub open spec fn mac_prefix_text(mac: MacAddress, n: int) -> Seq<char>
    decreases n,
{
    if n <= 0 {
        Seq::empty()
    } else if n == 1 {
        hex2(mac.0[0])
    } else {
        mac_prefix_text(mac, n - 1) + seq![':'] + hex2(mac.0[n - 1])
    }
}

impl MacAddress {
    /// The address in the conventional form, `aa:bb:cc:dd:ee:ff`.
    pub fn to_text(&self) -> (text: String)
        ensures
            text@ == mac_text(*self),
    {
        let mut out = String::new();
        push_mac(&mut out, *self);
        proof {
            assert(Seq::<char>::empty() + mac_text(*self) =~= mac_text(*self));
        }
        out
    }
}

/// The name of an EtherType; a length or an unknown value keeps its number.
pub open spec fn ether_type_text(ether_type: EtherType) -> Seq<char> {
    match ether_type {
        EtherType::Ipv4 => "IPv4"@,
        EtherType::Arp => "ARP"@,
        EtherType::Ipv6 => "IPv6"@,
        EtherType::Vlan => "802.1Q"@,
        EtherType::VlanQinQ => "802.1ad"@,
        EtherType::Length(value) => "802.3 length "@ + digits(value as nat),
        EtherType::Other(value) => "EtherType 0x"@ + hex4(value),
    }
}

/// Appends the name of an EtherType.
pub fn push_ether_type(out: &mut String, ether_type: EtherType)
    ensures
        final(out)@ == old(out)@ + ether_type_text(ether_type),
{
    match ether_type {
        EtherType::Ipv4 => push_str(out, "IPv4"),
        EtherType::Arp => push_str(out, "ARP"),
        EtherType::Ipv6 => push_str(out, "IPv6"),
        EtherType::Vlan => push_str(out, "802.1Q"),
        EtherType::VlanQinQ => push_str(out, "802.1ad"),
        EtherType::Length(value) => {
            push_str(out, "802.3 length ");
            push_u64(out, value as u64);
        },
        EtherType::Other(value) => {
            push_str(out, "EtherType 0x");
            push_hex4(out, value);
        },
    }
    proof {
        assert(out@ =~= old(out)@ + ether_type_text(ether_type));
    }
}

impl EtherType {
    /// The EtherType's name, or `802.3 length <n>` / `EtherType 0x<hhhh>`.
    pub fn to_text(&self) -> (text: String)
        ensures
            text@ == ether_type_text(*self),
    {
        let mut out = String::new();
        push_ether_type(&mut out, *self);
        proof {
            assert(Seq::<char>::empty() + ether_type_text(*self) =~= ether_type_text(*self));
        }
        out
    }
}

/// The bit of the `k`th TCP flag in the order flags are conventionally
/// written: SYN, FIN, RST, PSH, ACK, URG, ECE, CWR, NS.
pub open spec fn flag_bit(k: int) -> u16 {
    if k == 0 {
        TCP_SYN
    } else if k == 1 {
        TCP_FIN
    } else if k == 2 {
        TCP_RST
    } else if k == 3 {
        TCP_PSH
    } else if k == 4 {
        TCP_ACK
    } else if k == 5 {
        TCP_URG
    } else if k == 6 {
        TCP_ECE
    } else if k == 7 {
        TCP_CWR
    } else {
        TCP_NS
    }
}

/// The name of the `k`th TCP flag, in the same order.
pub open spec fn flag_name(k: int) -> Seq<char> {
    if k == 0 {
        "SYN"@
    } else if k == 1 {
        "FIN"@
    } else if k == 2 {
        "RST"@
    } else if k == 3 {
        "PSH"@
    } else if k == 4 {
        "ACK"@
    } else if k == 5 {
        "URG"@
    } else if k == 6 {
        "ECE"@
    } else if k == 7 {
        "CWR"@
    } else {
        "NS"@
    }
}

/// The names of the flags among the first `k` that are set in `bits`.
pub open spec fn flag_words(bits: u16, k: nat) -> Seq<Seq<char>>
    decreases k,
{
    if k == 0 {
        Seq::empty()
    } else if bit_set(bits, flag_bit(k - 1)) {
        flag_words(bits, (k - 1) as nat).push(flag_name(k - 1))
    } else {
        flag_words(bits, (k - 1) as nat)
    }
}

/// Words joined with commas.
pub open spec fn comma_joined(words: Seq<Seq<char>>) -> Seq<char>
    decreases words.len(),
{
    if words.len() == 0 {
        Seq::empty()
    } else if words.len() == 1 {
        words[0]
    } else {
        comma_joined(words.drop_last()) + seq![','] + words.last()
    }
}

/// The flags set, comma separated in the conventional order, or `none`.
pub open spec fn flags_text(flags: TcpFlags) -> Seq<char> {
    if flag_words(flags.0, 9).len() == 0 {
        "none"@
    } else {
        comma_joined(flag_words(flags.0, 9))
    }
}

/// Appends the flags set in the conventional order, or `none`.
pub fn push_flags(out: &mut String, flags: TcpFlags)
    ensures
        final(out)@ == old(out)@ + flags_text(flags),
{
    let bits: [u16; 9] = [
        TCP_SYN,
        TCP_FIN,
        TCP_RST,
        TCP_PSH,
        TCP_ACK,
        TCP_URG,
        TCP_ECE,
        TCP_CWR,
        TCP_NS,
    ];
    let names: [&str; 9] = ["SYN", "FIN", "RST", "PSH", "ACK", "URG", "ECE", "CWR", "NS"];
    proof {
        assert forall|k: int| 0 <= k < 9 implies #[trigger] bits@[k] == flag_bit(k) && bits@[k] > 0 by {}
        assert forall|k: int| 0 <= k < 9 implies (#[trigger] names@[k])@ == flag_name(k) by {}
    }
    let mut first = true;
    let mut k: usize = 0;
    while k < 9
        invariant
            k <= 9,
            forall|j: int| 0 <= j < 9 ==> #[trigger] bits@[j] == flag_bit(j) && bits@[j] > 0,
            forall|j: int| 0 <= j < 9 ==> (#[trigger] names@[j])@ == flag_name(j),
            out@ == old(out)@ + comma_joined(flag_words(flags.0, k as nat)),
            first == (flag_words(flags.0, k as nat).len() == 0),
        decreases 9 - k,
    {
        let bit = bits[k];
        if flags.0 / bit % 2 == 1 {
            if !first {
                push_char(out, ',');
            }
            push_str(out, names[k]);
            proof {
                let before = flag_words(flags.0, k as nat);
                assert(flag_words(flags.0, (k + 1) as nat) == before.push(flag_name(k as int)));
                assert(before.push(flag_name(k as int)).drop_last() =~= before);
                if before.len() == 0 {
                    assert(comma_joined(before.push(flag_name(k as int))) == flag_name(k as int));
                    assert(out@ =~= old(out)@ + comma_joined(flag_words(flags.0, (k + 1) as nat)));
                } else {
                    assert(out@ =~= old(out)@ + comma_joined(flag_words(flags.0, (k + 1) as nat)));
                }
            }
            first = false;
        } else {
            proof {
                assert(flag_words(flags.0, (k + 1) as nat) == flag_words(flags.0, k as nat));
            }
        }
        k = k + 1;
    }
    if first {
        push_str(out, "none");
        proof {
            assert(comma_joined(flag_words(flags.0, 9)) =~= Seq::<char>::empty());
            assert(out@ =~= old(out)@ + flags_text(flags));
        }
    }
}

impl TcpFlags {
    /// The flags set, written the way people read them: `SYN,ACK`, or
    /// `none` when no bit is set.
    pub fn to_text(&self) -> (text: String)
        ensures
            text@ == flags_text(*self),
    {
        let mut out = String::new();
        push_flags(&mut out, *self);
        proof {
            assert(Seq::<char>::empty() + flags_text(*self) =~= flags_text(*self));
        }
        out
    }
}

/// `a.b.c.d`: four octets in decimal.
pub open spec fn ipv4_text(address: Ipv4Address) -> Seq<char> {
    digits(address.0[0] as nat) + seq!['.'] + digits(address.0[1] as nat) + seq!['.'] + digits(
        address.0[2] as nat,
    ) + seq!['.'] + digits(address.0[3] as nat)
}

/// Appends an IPv4 address in dotted decimal.
pub fn push_ipv4(out: &mut String, address: Ipv4Address)
    ensures
        final(out)@ == old(out)@ + ipv4_text(address),
{
    push_u64(out, address.0[0] as u64);
    push_char(out, '.');
    push_u64(out, address.0[1] as u64);
    push_char(out, '.');
    push_u64(out, address.0[2] as u64);
    push_char(out, '.');
    push_u64(out, address.0[3] as u64);
    proof {
        assert(out@ =~= old(out)@ + ipv4_text(address));
    }
}

/// The `k`th 16-bit group of an IPv6 address.
pub open spec fn group(octets: Seq<u8>, k: int) -> nat {
    (octets[2 * k] as nat) * 256 + octets[2 * k + 1] as nat
}

/// The eight 16-bit groups of an IPv6 address.
pub open spec fn groups(address: Ipv6Address) -> Seq<nat> {
    Seq::new(8, |k: int| group(address.0@, k))
}

/// Whether `length` groups from `start` are all zero.
pub open spec fn zero_run(groups: Seq<nat>, start: int, length: int) -> bool {
    &&& 0 <= start
    &&& 0 <= length
    &&& start + length <= groups.len()
    &&& forall|k: int| start <= k < start + length ==> #[trigger] groups[k] == 0
}

/// Whether `(start, length)` is the run of zero groups that `::` replaces:
/// the longest run of at least two zero groups, the leftmost among equally
/// long ones; `(0, 0)` when there is no run of two.
pub open spec fn compressed_run(groups: Seq<nat>, start: int, length: int) -> bool {
    ||| {
        &&& length >= 2
        &&& zero_run(groups, start, length)
        &&& forall|s: int, l: int| #[trigger] zero_run(groups, s, l) ==> l <= length
        &&& forall|s: int| #[trigger] zero_run(groups, s, length) ==> start <= s
    }
    ||| {
        &&& length == 0
        &&& start == 0
        &&& forall|s: int| !#[trigger] zero_run(groups, s, 2)
    }
}

/// Groups in lowercase hexadecimal without leading zeros, colon separated.
pub open spec fn hex_groups(groups: Seq<nat>) -> Seq<char>
    decreases groups.len(),
{
    if groups.len() == 0 {
        Seq::empty()
    } else if groups.len() == 1 {
        hex_digits(groups[0])
    } else {
        hex_groups(groups.drop_last()) + seq![':'] + hex_digits(groups.last())
    }
}

/// Whether an address is an IPv4-mapped IPv6 address, `::ffff:a.b.c.d`.
pub open spec fn ipv4_mapped(address: Ipv6Address) -> bool {
    &&& forall|k: int| 0 <= k < 10 ==> #[trigger] address.0[k] == 0
    &&& address.0[10] == 0xff
    &&& address.0[11] == 0xff
}

/// An IPv6 address as std writes it (RFC 5952): an IPv4-mapped address as
/// `::ffff:` and dotted decimal; otherwise the groups in hexadecimal with the
/// longest run of two or more zero groups, the leftmost of equals, replaced
/// by `::`.
pub open spec fn ipv6_text(address: Ipv6Address) -> Seq<char> {
    if ipv4_mapped(address) {
        "::ffff:"@ + ipv4_text(
            Ipv4Address([address.0[12], address.0[13], address.0[14], address.0[15]]),
        )
    } else {
        let g = groups(address);
        let (start, length) = choose|start: int, length: int| compressed_run(g, start, length);
        if length >= 2 {
            hex_groups(g.subrange(0, start)) + "::"@ + hex_groups(g.subrange(start + length, 8))
        } else {
            hex_groups(g)
        }
    }
}

/// Only one run is the compressed run.
proof fn lemma_compressed_run_unique(g: Seq<nat>, s1: int, l1: int, s2: int, l2: int)
    requires
        compressed_run(g, s1, l1),
        compressed_run(g, s2, l2),
    ensures
        s1 == s2 && l1 == l2,
{
    if l1 >= 2 && l2 == 0 {
        assert(zero_run(g, s1, 2));
    }
    if l2 >= 2 && l1 == 0 {
        assert(zero_run(g, s2, 2));
    }
}

/// Appends groups `from..to` in hexadecimal, colon separated.
fn push_groups(out: &mut String, values: &[u16; 8], from: usize, to: usize)
    requires
        from <= to <= 8,
    ensures
        final(out)@ == old(out)@ + hex_groups(values@.map_values(|v: u16| v as nat).subrange(from as int, to as int)),
{
    let ghost all = values@.map_values(|v: u16| v as nat);
    let mut k: usize = from;
    while k < to
        invariant
            from <= k <= to <= 8,
            all == values@.map_values(|v: u16| v as nat),
            out@ == old(out)@ + hex_groups(all.subrange(from as int, k as int)),
        decreases to - k,
    {
        if k > from {
            push_char(out, ':');
        }
        push_hex(out, values[k] as u64);
        proof {
            let next = all.subrange(from as int, k + 1);
            assert(next.drop_last() =~= all.subrange(from as int, k as int));
            assert(next.last() == values@[k as int] as nat);
        }
        k = k + 1;
    }
}

/// Appends an IPv6 address as std writes it.
pub fn push_ipv6(out: &mut String, address: Ipv6Address)
    ensures
        final(out)@ == old(out)@ + ipv6_text(address),
{
    let o = address.0;
    let mut mapped = o[10] == 0xff && o[11] == 0xff;
    let mut i: usize = 0;
    while i < 10
        invariant
            i <= 10,
            o == address.0,
            mapped == (o[10] == 0xff && o[11] == 0xff && forall|k: int| 0 <= k < i ==> #[trigger] o[k] == 0),
        decreases 10 - i,
    {
        if o[i] != 0 {
            mapped = false;
        }
        i = i + 1;
    }
    if mapped {
        push_str(out, "::ffff:");
        push_ipv4(out, Ipv4Address([o[12], o[13], o[14], o[15]]));
        proof {
            assert(out@ =~= old(out)@ + ipv6_text(address));
        }
        return;
    }
    let mut values: [u16; 8] = [0; 8];
    let mut k: usize = 0;
    while k < 8
        invariant
            k <= 8,
            o == address.0,
            forall|j: int| 0 <= j < k ==> #[trigger] values@[j] as nat == group(o@, j),
        decreases 8 - k,
    {
        values.set(k, (o[2 * k] as u16) * 256 + o[2 * k + 1] as u16);
        k = k + 1;
    }
    let ghost g = groups(address);
    proof {
        assert(values@.map_values(|v: u16| v as nat) =~= g);
    }
    let mut found = false;
    let mut best_start: usize = 0;
    let mut best_length: usize = 0;
    let mut length: usize = 8;
    while length >= 2 && !found
        invariant
            1 <= length <= 8,
            g == values@.map_values(|v: u16| v as nat),
            g.len() == 8,
            forall|s: int, l: int| length < l && #[trigger] zero_run(g, s, l) ==> found,
            found ==> compressed_run(g, best_start as int, best_length as int),
            !found ==> best_start == 0 && best_length == 0,
            !found ==> forall|s: int, l: int| #[trigger] zero_run(g, s, l) ==> l <= length,
        decreases length + if found { 0int } else { 1int },
    {
        let mut start: usize = 0;
        while start + length <= 8 && !found
            invariant
                2 <= length <= 8,
                start <= 8,
                g == values@.map_values(|v: u16| v as nat),
                g.len() == 8,
                !found ==> forall|s: int| 0 <= s < start ==> !#[trigger] zero_run(g, s, length as int),
                !found ==> forall|s: int, l: int| #[trigger] zero_run(g, s, l) ==> l <= length,
                !found ==> best_start == 0 && best_length == 0,
                found ==> compressed_run(g, best_start as int, best_length as int),
            decreases 9 - start + if found { 0int } else { 1int },
        {
            let mut all_zero = true;
            let mut j: usize = start;
            while j < start + length
                invariant
                    start <= j <= start + length <= 8,
                    g == values@.map_values(|v: u16| v as nat),
                    all_zero == forall|m: int| start <= m < j ==> #[trigger] g[m] == 0,
                decreases start + length - j,
            {
                proof {
                    assert(g[j as int] == values@[j as int] as nat);
                }
                if values[j] != 0 {
                    all_zero = false;
                }
                j = j + 1;
            }
            if all_zero {
                proof {
                    assert(zero_run(g, start as int, length as int));
                    assert forall|s: int| #[trigger] zero_run(g, s, length as int) implies start <= s by {
                        if s < start {
                        }
                    }
                }
                found = true;
                best_start = start;
                best_length = length;
            } else {
                proof {
                    assert(!zero_run(g, start as int, length as int));
                }
                start = start + 1;
            }
        }
        if !found {
            proof {
                assert forall|s: int| #[trigger] zero_run(g, s, length as int) implies false by {
                    if s >= start {
                    }
                }
            }
            length = length - 1;
        }
    }
    proof {
        if !found {
            assert forall|s: int| !#[trigger] zero_run(g, s, 2) by {
                if zero_run(g, s, 2) {
                }
            }
            assert(compressed_run(g, 0, 0));
        }
        assert(compressed_run(g, best_start as int, best_length as int));
        assert(exists|s: int, l: int| compressed_run(g, s, l));
        let (cs, cl) = choose|start: int, length: int| compressed_run(g, start, length);
        lemma_compressed_run_unique(g, best_start as int, best_length as int, cs, cl);
    }
    if best_length >= 2 {
        push_groups(out, &values, 0, best_start);
        push_str(out, "::");
        push_groups(out, &values, best_start + best_length, 8);
        proof {
            assert(out@ =~= old(out)@ + ipv6_text(address));
        }
    } else {
        push_groups(out, &values, 0, 8);
        proof {
            assert(g.subrange(0, 8) =~= g);
            assert(out@ =~= old(out)@ + ipv6_text(address));
        }
    }
}

/// An address in its family's conventional text.
pub open spec fn ip_text(address: IpAddress) -> Seq<char> {
    match address {
        IpAddress::V4(v4) => ipv4_text(v4),
        IpAddress::V6(v6) => ipv6_text(v6),
    }
}

/// Appends an address in its family's conventional text.
pub fn push_ip(out: &mut String, address: IpAddress)
    ensures
        final(out)@ == old(out)@ + ip_text(address),
{
    match address {
        IpAddress::V4(v4) => push_ipv4(out, v4),
        IpAddress::V6(v6) => push_ipv6(out, v6),
    }
}

impl Ipv4Address {
    /// The address in dotted decimal.
    pub fn to_text(&self) -> (text: String)
        ensures
            text@ == ipv4_text(*self),
    {
        let mut out = String::new();
        push_ipv4(&mut out, *self);
        proof {
            assert(Seq::<char>::empty() + ipv4_text(*self) =~= ipv4_text(*self));
        }
        out
    }
}

impl Ipv6Address {
    /// The address as std writes it.
    pub fn to_text(&self) -> (text: String)
        ensures
            text@ == ipv6_text(*self),
    {
        let mut out = String::new();
        push_ipv6(&mut out, *self);
        proof {
            assert(Seq::<char>::empty() + ipv6_text(*self) =~= ipv6_text(*self));
        }
        out
    }
}

impl IpAddress {
    /// The address in its family's conventional text.
    pub fn to_text(&self) -> (text: String)
        ensures
            text@ == ip_text(*self),
    {
        let mut out = String::new();
        push_ip(&mut out, *self);
        proof {
            assert(Seq::<char>::empty() + ip_text(*self) =~= ip_text(*self));
        }
        out
    }
}

/// `address:port`, with an IPv6 address in brackets (`[address]:port`), the
/// convention URLs use, since the address itself holds colons.
pub open spec fn endpoint_text(endpoint: Endpoint) -> Seq<char> {
    match endpoint.address {
        IpAddress::V4(v4) => ipv4_text(v4) + seq![':'] + digits(endpoint.port as nat),
        IpAddress::V6(v6) => seq!['['] + ipv6_text(v6) + seq![']', ':'] + digits(endpoint.port as nat),
    }
}

/// Appends an endpoint as `address:port`.
pub fn push_endpoint(out: &mut String, endpoint: Endpoint)
    ensures
        final(out)@ == old(out)@ + endpoint_text(endpoint),
{
    match endpoint.address {
        IpAddress::V4(v4) => {
            push_ipv4(out, v4);
        },
        IpAddress::V6(v6) => {
            push_char(out, '[');
            push_ipv6(out, v6);
            push_char(out, ']');
        },
    }
    push_char(out, ':');
    push_u64(out, endpoint.port as u64);
    proof {
        assert(out@ =~= old(out)@ + endpoint_text(endpoint));
    }
}

impl Endpoint {
    /// The endpoint as `address:port`.
    pub fn to_text(&self) -> (text: String)
        ensures
            text@ == endpoint_text(*self),
    {
        let mut out = String::new();
        push_endpoint(&mut out, *self);
        proof {
            assert(Seq::<char>::empty() + endpoint_text(*self) =~= endpoint_text(*self));
        }
        out
    }
}

/// `PROTO A ↔ B`: a key as a two-way conversation.
pub open spec fn key_text(key: FlowKey) -> Seq<char> {
    key.protocol.spec_label()@ + seq![' '] + endpoint_text(key.a) + seq![' ', '\u{2194}', ' ']
        + endpoint_text(key.b)
}

/// Appends a key as `PROTO A ↔ B`.
pub fn push_key(out: &mut String, key: FlowKey)
    ensures
        final(out)@ == old(out)@ + key_text(key),
{
    push_str(out, key.protocol.label());
    push_char(out, ' ');
    push_endpoint(out, key.a);
    push_char(out, ' ');
    push_char(out, '\u{2194}');
    push_char(out, ' ');
    push_endpoint(out, key.b);
    proof {
        assert(out@ =~= old(out)@ + key_text(key));
    }
}

impl FlowKey {
    /// The key as a two-way conversation, `PROTO A ↔ B`.
    pub fn to_text(&self) -> (text: String)
        ensures
            text@ == key_text(*self),
    {
        let mut out = String::new();
        push_key(&mut out, *self);
        proof {
            assert(Seq::<char>::empty() + key_text(*self) =~= key_text(*self));
        }
        out
    }
}

} // verus!
