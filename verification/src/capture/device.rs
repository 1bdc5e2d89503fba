//! Network interfaces, and finding the one a user asked for.
//!
//! The capture driver reports each interface as a name, an optional
//! description, a flag word and a list of addresses. This module turns those
//! plain values into NetSentry's own [`NetworkInterface`], so that nothing
//! above it depends on the driver, and resolves a user's selector against the
//! listing.

use vstd::prelude::*;

use crate::decode::types::IpAddress;
use crate::error::NetSentryError;
use crate::text::{
    eq_ignore_ascii_case, equal_ignoring_ascii_case, str_equal, text_of, trim_white_space,
    trimmed,
};

verus! {

/// `PCAP_IF_LOOPBACK`: the interface is a loopback interface.
pub const PCAP_IF_LOOPBACK: u32 = 0x0000_0001;
/// `PCAP_IF_UP`: the interface is administratively up.
pub const PCAP_IF_UP: u32 = 0x0000_0002;
/// `PCAP_IF_RUNNING`: the interface is operational.
pub const PCAP_IF_RUNNING: u32 = 0x0000_0004;
/// `PCAP_IF_WIRELESS`: the interface is radio based.
pub const PCAP_IF_WIRELESS: u32 = 0x0000_0008;
/// `PCAP_IF_CONNECTION_STATUS_CONNECTED`, in the two-bit status field.
pub const PCAP_IF_CONNECTION_STATUS_CONNECTED: u32 = 0x0000_0010;
/// `PCAP_IF_CONNECTION_STATUS_DISCONNECTED`, in the two-bit status field.
pub const PCAP_IF_CONNECTION_STATUS_DISCONNECTED: u32 = 0x0000_0020;

/// Whether the single-bit `flag` (a power of two) is set in `flags`.
pub open spec fn flag_set(flags: u32, flag: u32) -> bool {
    (flags / flag) % 2 == 1
}

/// The two-bit connection status field of a flag word: 0 unknown,
/// 1 connected, 2 disconnected, 3 not applicable.
pub open spec fn connection_status(flags: u32) -> u32 {
    (flags / 16) % 4
}

/// Operational state of an interface, taken verbatim from the `UP` and
/// `RUNNING` flags the driver reports.
///
/// The driver's flags are not refined with platform specific knowledge: an
/// interface whose driver leaves them empty reads as `Down` rather than being
/// guessed at.
#[derive(Debug, Clone, Copy, PartialEq, Eq, Structural)]
pub enum LinkStatus {
    /// `UP` and `RUNNING`: administratively enabled and operational.
    Running,
    /// `UP` without `RUNNING`: enabled, but not carrying traffic.
    Up,
    /// `UP` is not set.
    Down,
}

impl LinkStatus {
    /// The status a flag word states.
    pub open spec fn spec_from_flags(flags: u32) -> LinkStatus {
        if flag_set(flags, PCAP_IF_UP) {
            if flag_set(flags, PCAP_IF_RUNNING) {
                LinkStatus::Running
            } else {
                LinkStatus::Up
            }
        } else {
            LinkStatus::Down
        }
    }

    /// Short lowercase label used in terminal output.
    pub open spec fn spec_label(self) -> &'static str {
        match self {
            LinkStatus::Running => "running",
            LinkStatus::Up => "up",
            LinkStatus::Down => "down",
        }
    }

    /// Short lowercase label used in terminal output.
    pub fn label(self) -> (label: &'static str)
        ensures
            label == self.spec_label(),
    {
        match self {
            Self::Running => "running",
            Self::Up => "up",
            Self::Down => "down",
        }
    }

    /// Derives the status from the flag word reported by the driver.
    pub fn from_flags(flags: u32) -> (status: Self)
        ensures
            status == Self::spec_from_flags(flags),
    {
        let up = (flags / PCAP_IF_UP) % 2 == 1;
        let running = (flags / PCAP_IF_RUNNING) % 2 == 1;
        if up {
            if running {
                Self::Running
            } else {
                Self::Up
            }
        } else {
            Self::Down
        }
    }
}

/// An additional fact the driver reported about an interface.
///
/// Only facts the driver states explicitly are listed; an unknown or not
/// applicable connection status produces no attribute at all, because it
/// carries no information.
#[derive(Debug, Clone, Copy, PartialEq, Eq, Structural)]
pub enum InterfaceAttribute {
    /// Loopback: traffic never leaves this machine.
    Loopback,
    /// Radio based link (Wi-Fi, 802.15.4, IrDA).
    Wireless,
    /// The adapter reports itself as connected.
    Connected,
    /// The adapter reports itself as disconnected.
    Disconnected,
}

impl InterfaceAttribute {
    /// Short lowercase label used in terminal output.
    pub open spec fn spec_label(self) -> &'static str {
        match self {
            InterfaceAttribute::Loopback => "loopback",
            InterfaceAttribute::Wireless => "wireless",
            InterfaceAttribute::Connected => "connected",
            InterfaceAttribute::Disconnected => "disconnected",
        }
    }

    /// Short lowercase label used in terminal output.
    pub fn label(self) -> (label: &'static str)
        ensures
            label == self.spec_label(),
    {
        match self {
            Self::Loopback => "loopback",
            Self::Wireless => "wireless",
            Self::Connected => "connected",
            Self::Disconnected => "disconnected",
        }
    }

    /// The attributes a flag word states, in this order: loopback, wireless,
    /// then the connection status when it is connected or disconnected.
    pub open spec fn spec_from_flags(flags: u32) -> Seq<InterfaceAttribute> {
        (if flag_set(flags, PCAP_IF_LOOPBACK) {
            seq![InterfaceAttribute::Loopback]
        } else {
            Seq::empty()
        }) + (if flag_set(flags, PCAP_IF_WIRELESS) {
            seq![InterfaceAttribute::Wireless]
        } else {
            Seq::empty()
        }) + (if connection_status(flags) == 1 {
            seq![InterfaceAttribute::Connected]
        } else if connection_status(flags) == 2 {
            seq![InterfaceAttribute::Disconnected]
        } else {
            Seq::empty()
        })
    }

    /// Collects every attribute the driver explicitly reported.
    pub fn from_flags(flags: u32) -> (attributes: Vec<Self>)
        ensures
            attributes@ == Self::spec_from_flags(flags),
    {
        let mut attributes = Vec::new();
        if (flags / PCAP_IF_LOOPBACK) % 2 == 1 {
            attributes.push(Self::Loopback);
        }
        if (flags / PCAP_IF_WIRELESS) % 2 == 1 {
            attributes.push(Self::Wireless);
        }
        let status = (flags / 16) % 4;
        if status == 1 {
            attributes.push(Self::Connected);
        } else if status == 2 {
            attributes.push(Self::Disconnected);
        }
        proof {
            assert(attributes@ =~= Self::spec_from_flags(flags));
        }
        attributes
    }
}

/// A single address bound to an interface.
#[derive(Debug, Clone, Copy, PartialEq, Eq)]
pub struct InterfaceAddress {
    /// The address itself.
    pub addr: IpAddress,
    /// The network mask, when the driver supplied one.
    pub netmask: Option<IpAddress>,
}

/// A network interface that the capture driver can see.
#[derive(Debug, Clone, PartialEq, Eq)]
pub struct NetworkInterface {
    /// 1-based position in the listing. This is a *presentation* handle for
    /// humans, not a stable system identifier: it can change between runs.
    pub index: usize,
    /// The system name that must be passed to the capture driver (`eth0` on
    /// Linux, `\Device\NPF_{GUID}` on Windows), verbatim. It is not safe to
    /// print as it is; the rendering layer sanitises it.
    pub name: String,
    /// Human readable description, when the driver supplies one.
    pub description: Option<String>,
    /// Operational state.
    pub status: LinkStatus,
    /// Extra facts reported by the driver.
    pub attributes: Vec<InterfaceAttribute>,
    /// Addresses bound to this interface.
    pub addresses: Vec<InterfaceAddress>,
}

/// A description as it is kept: trimmed, and absent when nothing is left.
pub open spec fn kept_description(description: Option<Seq<char>>) -> Option<Seq<char>> {
    match description {
        Some(text) => if trimmed(text).len() > 0 {
            Some(trimmed(text))
        } else {
            None
        },
        None => None,
    }
}

impl NetworkInterface {
    /// Converts one driver-reported device into a `NetworkInterface`.
    ///
    /// The name is kept byte for byte: it is the handle that must be passed
    /// back to the driver. The description is trimmed, and dropped when
    /// nothing is left of it. Status and attributes come from the flag word.
    pub fn from_driver(
        index: usize,
        name: String,
        description: Option<String>,
        flags: u32,
        addresses: Vec<InterfaceAddress>,
    ) -> (interface: Self)
        ensures
            interface.index == index,
            interface.name@ == name@,
            (match interface.description {
                Some(text) => Some(text@),
                None => None,
            }) == kept_description(
                match description {
                    Some(text) => Some(text@),
                    None => None,
                },
            ),
            interface.status == LinkStatus::spec_from_flags(flags),
            interface.attributes@ == InterfaceAttribute::spec_from_flags(flags),
            interface.addresses@ == addresses@,
    {
        let description = match description {
            Some(text) => {
                let kept = trim_white_space(text.as_str());
                if kept.unicode_len() > 0 {
                    Some(text_of(kept))
                } else {
                    None
                }
            },
            None => None,
        };
        NetworkInterface {
            index,
            name,
            description,
            status: LinkStatus::from_flags(flags),
            attributes: InterfaceAttribute::from_flags(flags),
            addresses,
        }
    }
}

/// One device as the capture driver reports it, before it is numbered.
#[derive(Debug, Clone, PartialEq, Eq)]
pub struct DriverDevice {
    /// The system name.
    pub name: String,
    /// The driver's description, untrimmed.
    pub description: Option<String>,
    /// The driver's flag word.
    pub flags: u32,
    /// The addresses bound to the device.
    pub addresses: Vec<InterfaceAddress>,
}

/// Whether `interface` is `device` as listed at position `index`.
pub open spec fn lists_device(interface: NetworkInterface, index: int, device: DriverDevice) -> bool {
    &&& interface.index == index
    &&& interface.name@ == device.name@
    &&& (match interface.description {
        Some(text) => Some(text@),
        None => None,
    }) == kept_description(
        match device.description {
            Some(text) => Some(text@),
            None => None,
        },
    )
    &&& interface.status == LinkStatus::spec_from_flags(device.flags)
    &&& interface.attributes@ == InterfaceAttribute::spec_from_flags(device.flags)
    &&& interface.addresses@ == device.addresses@
}

/// Numbers the devices the driver reported, in the driver's order, from 1.
///
/// A driver that answers with no devices at all is not an empty listing but
/// a failure: on Windows it usually means Npcap is not installed correctly.
pub fn interfaces_from_driver(devices: Vec<DriverDevice>) -> (listed: Result<
    Vec<NetworkInterface>,
    NetSentryError,
>)
    ensures
        devices@.len() == 0 ==> listed == Err::<Vec<NetworkInterface>, NetSentryError>(
            NetSentryError::NoInterfacesFound,
        ),
        devices@.len() > 0 ==> (listed matches Ok(list) && list@.len() == devices@.len() && forall|i: int|
            0 <= i < list@.len() ==> lists_device(#[trigger] list@[i], i + 1, devices@[i])),
{
    if devices.len() == 0 {
        return Err(NetSentryError::NoInterfacesFound);
    }
    let ghost reported = devices@;
    let mut devices = devices;
    let mut listed: Vec<NetworkInterface> = Vec::new();
    let mut position: usize = 0;
    while devices.len() > 0
        invariant
            position == listed@.len(),
            reported.len() <= usize::MAX,
            position + devices@.len() == reported.len(),
            devices@ == reported.subrange(position as int, reported.len() as int),
            forall|i: int| 0 <= i < position ==> lists_device(#[trigger] listed@[i], i + 1, reported[i]),
        decreases devices@.len(),
    {
        let device = devices.remove(0);
        proof {
            assert(device == reported[position as int]);
        }
        let interface = NetworkInterface::from_driver(
            position + 1,
            device.name,
            device.description,
            device.flags,
            device.addresses,
        );
        listed.push(interface);
        position = position + 1;
        proof {
            assert(devices@ =~= reported.subrange(position as int, reported.len() as int));
        }
    }
    Ok(listed)
}

/// The decimal value of a string of digits.
pub open spec fn decimal_value(s: Seq<char>) -> nat
    decreases s.len(),
{
    if s.len() == 0 {
        0
    } else {
        decimal_value(s.drop_last()) * 10 + ((s.last() as u32) - 48) as nat
    }
}

/// Whether every character of `s` is an ASCII digit.
pub open spec fn all_digits(s: Seq<char>) -> bool {
    forall|k: int| 0 <= k < s.len() ==> '0' <= #[trigger] s[k] <= '9'
}

/// The listing index a selector names: a plain, non-empty run of ASCII
/// digits whose value fits a `usize` and is at least 1.
pub open spec fn spec_parse_index(selector: Seq<char>) -> Option<usize> {
    if selector.len() > 0 && all_digits(selector) && 1 <= decimal_value(selector) <= usize::MAX {
        Some(decimal_value(selector) as usize)
    } else {
        None
    }
}

/// Parses a listing index, rejecting anything that is not a plain positive
/// decimal number.
///
/// A sign (`+3`) is refused, and so is `0`: the listing is 1-based, and a user
/// typing `0` has misunderstood rather than picked something.
pub fn parse_index(selector: &str) -> (index: Option<usize>)
    ensures
        index == spec_parse_index(selector@),
{
    let n = selector.unicode_len();
    if n == 0 {
        return None;
    }
    let mut value: usize = 0;
    let mut fits = true;
    let mut i: usize = 0;
    while i < n
        invariant
            n == selector@.len(),
            i <= n,
            all_digits(selector@.take(i as int)),
            fits ==> value == decimal_value(selector@.take(i as int)),
            !fits ==> decimal_value(selector@.take(i as int)) > usize::MAX,
        decreases n - i,
    {
        let c = selector.get_char(i);
        if c < '0' || c > '9' {
            proof {
                assert(selector@[i as int] == c);
            }
            return None;
        }
        let digit = ((c as u32) - 48) as usize;
        proof {
            let t = selector@.take(i as int + 1);
            assert(t.drop_last() =~= selector@.take(i as int));
            assert(t.last() == c);
            assert(decimal_value(t) == decimal_value(selector@.take(i as int)) * 10 + digit);
            assert forall|k: int| 0 <= k < t.len() implies '0' <= #[trigger] t[k] <= '9' by {
                if k < i {
                    assert(t[k] == selector@.take(i as int)[k]);
                }
            }
        }
        if fits {
            match value.checked_mul(10) {
                Some(tens) => match tens.checked_add(digit) {
                    Some(next) => {
                        value = next;
                    },
                    None => {
                        fits = false;
                    },
                },
                None => {
                    fits = false;
                    proof {
                        assert(decimal_value(selector@.take(i as int)) * 10 > usize::MAX);
                    }
                },
            }
        } else {
            proof {
                assert(decimal_value(selector@.take(i as int)) * 10 >= decimal_value(selector@.take(i as int)))
                    by (nonlinear_arith)
                    requires
                        decimal_value(selector@.take(i as int)) >= 0,
                ;
            }
        }
        i = i + 1;
    }
    proof {
        assert(selector@.take(n as int) =~= selector@);
    }
    if !fits || value == 0 {
        None
    } else {
        Some(value)
    }
}

/// Whether interface `i` is the first in the listing whose name is `name`.
pub open spec fn is_first_named(interfaces: Seq<NetworkInterface>, name: Seq<char>, i: int) -> bool {
    &&& 0 <= i < interfaces.len()
    &&& interfaces[i].name@ == name
    &&& forall|j: int| 0 <= j < i ==> #[trigger] interfaces[j].name@ != name
}

/// Whether no interface is named `name`.
pub open spec fn none_named(interfaces: Seq<NetworkInterface>, name: Seq<char>) -> bool {
    forall|i: int| 0 <= i < interfaces.len() ==> #[trigger] interfaces[i].name@ != name
}

/// Whether interface `i` is the first in the listing with listing index `index`.
pub open spec fn is_first_indexed(interfaces: Seq<NetworkInterface>, index: usize, i: int) -> bool {
    &&& 0 <= i < interfaces.len()
    &&& interfaces[i].index == index
    &&& forall|j: int| 0 <= j < i ==> #[trigger] interfaces[j].index != index
}

/// The positions of the interfaces whose names match `name` once ASCII case
/// is ignored, in listing order.
pub open spec fn case_insensitive_matches(interfaces: Seq<NetworkInterface>, name: Seq<char>) -> Seq<int>
    decreases interfaces.len(),
{
    if interfaces.len() == 0 {
        Seq::empty()
    } else {
        let earlier = case_insensitive_matches(interfaces.drop_last(), name);
        if equal_ignoring_ascii_case(interfaces.last().name@, name) {
            earlier.push(interfaces.len() - 1)
        } else {
            earlier
        }
    }
}

/// The outcome of resolving a selector, by the position of the interface it
/// names or the error it gives.
pub open spec fn resolves_to(
    interfaces: Seq<NetworkInterface>,
    selector: Seq<char>,
    outcome: Result<int, NetSentryError>,
) -> bool {
    let wanted = trimmed(selector);
    if !none_named(interfaces, wanted) {
        outcome matches Ok(i) && is_first_named(interfaces, wanted, i)
    } else if let Some(index) = spec_parse_index(wanted) {
        if exists|i: int| 0 <= i < interfaces.len() && #[trigger] interfaces[i].index == index {
            (outcome matches Ok(i) && is_first_indexed(interfaces, index, i))
        } else {
            outcome == Err::<int, NetSentryError>(
                NetSentryError::InterfaceIndexOutOfRange { index, available: interfaces.len() as usize },
            )
        }
    } else {
        let matches = case_insensitive_matches(interfaces, wanted);
        if matches.len() == 1 {
            outcome == Ok::<int, NetSentryError>(matches[0])
        } else if matches.len() >= 2 {
            (outcome matches Err(NetSentryError::AmbiguousInterface { selector }) && selector@ == wanted)
        } else {
            (outcome matches Err(NetSentryError::InterfaceNotFound { selector, available })
                && selector@ == wanted && available == interfaces.len())
        }
    }
}

/// Finds the interface a user asked for, by name or by listing index.
///
/// Surrounding white space in the selector is ignored. Accepted selectors, in
/// this order of preference:
///
/// 1. An **exact system name** (`eth0`, `\Device\NPF_{...}`).
/// 2. A **listing index** as shown by `netsentry list` (1-based).
/// 3. A **case-insensitive system name**, if it matches exactly one interface.
///
/// Names are tried before numbers so that an interface literally called `3`
/// still wins over index 3: silently opening the wrong interface is the kind
/// of bug a security tool must not have.
///
/// Fails with `InterfaceIndexOutOfRange` when a number is given that no
/// interface has, `AmbiguousInterface` when only a case-insensitive match is
/// possible and it is not unique, and `InterfaceNotFound` otherwise.
pub fn resolve_interface<'a>(interfaces: &'a [NetworkInterface], selector: &str) -> (found: Result<
    &'a NetworkInterface,
    NetSentryError,
>)
    ensures
        exists|outcome: Result<int, NetSentryError>|
            resolves_to(interfaces@, selector@, outcome) && match outcome {
                Ok(i) => (found matches Ok(interface) && *interface == interfaces@[i]),
                Err(error) => found == Err::<&NetworkInterface, NetSentryError>(error),
            },
{
    let wanted = trim_white_space(selector);
    let n = interfaces.len();

    let mut i: usize = 0;
    while i < n
        invariant
            n == interfaces@.len(),
            i <= n,
            forall|j: int| 0 <= j < i ==> #[trigger] interfaces@[j].name@ != wanted@,
            wanted@ == trimmed(selector@),
        decreases n - i,
    {
        if str_equal(interfaces[i].name.as_str(), wanted) {
            proof {
                assert(interfaces@[i as int].name@ == wanted@);
                assert(trimmed(selector@) == wanted@);
                assert(interfaces@[i as int].name@ == trimmed(selector@));
                assert(!none_named(interfaces@, wanted@));
                assert(is_first_named(interfaces@, wanted@, i as int));
                assert(resolves_to(interfaces@, selector@, Ok(i as int)));
            }
            return Ok(&interfaces[i]);
        }
        i = i + 1;
    }

    assert(none_named(interfaces@, wanted@));
    if let Some(index) = parse_index(wanted) {
        let mut k: usize = 0;
        while k < n
            invariant
                n == interfaces@.len(),
                k <= n,
                forall|j: int| 0 <= j < k ==> #[trigger] interfaces@[j].index != index,
                wanted@ == trimmed(selector@),
                none_named(interfaces@, wanted@),
                spec_parse_index(wanted@) == Some(index),
            decreases n - k,
        {
            if interfaces[k].index == index {
                proof {
                    assert(interfaces@[k as int].index == index);
                    assert(is_first_indexed(interfaces@, index, k as int));
                    assert(resolves_to(interfaces@, selector@, Ok(k as int)));
                }
                return Ok(&interfaces[k]);
            }
            k = k + 1;
        }
        let error = NetSentryError::InterfaceIndexOutOfRange { index, available: n };
        proof {
            assert(resolves_to(interfaces@, selector@, Err(error)));
        }
        return Err(error);
    }

    let mut first: Option<usize> = None;
    let mut count: usize = 0;
    let mut m: usize = 0;
    while m < n
        invariant
            n == interfaces@.len(),
            m <= n,
            count == case_insensitive_matches(interfaces@.take(m as int), wanted@).len(),
            count <= m,
            wanted@ == trimmed(selector@),
            count >= 1 ==> (first matches Some(f) && f as int == case_insensitive_matches(
                interfaces@.take(m as int),
                wanted@,
            )[0]),
        decreases n - m,
    {
        proof {
            lemma_matches_prefix(interfaces@.take(m as int + 1), wanted@);
            assert(interfaces@.take(m as int + 1).drop_last() =~= interfaces@.take(m as int));
        }
        if eq_ignore_ascii_case(interfaces[m].name.as_str(), wanted) {
            if count == 0 {
                first = Some(m);
            }
            count = count + 1;
        }
        m = m + 1;
    }
    proof {
        assert(interfaces@.take(n as int) =~= interfaces@);
        lemma_matches_prefix(interfaces@, wanted@);
    }
    if count == 1 {
        let f = match first {
            Some(f) => f,
            None => 0,
        };
        proof {
            assert(resolves_to(interfaces@, selector@, Ok(f as int)));
        }
        Ok(&interfaces[f])
    } else if count >= 2 {
        let error = NetSentryError::AmbiguousInterface { selector: text_of(wanted) };
        proof {
            assert(resolves_to(interfaces@, selector@, Err(error)));
        }
        Err(error)
    } else {
        let error = NetSentryError::InterfaceNotFound { selector: text_of(wanted), available: n };
        proof {
            assert(resolves_to(interfaces@, selector@, Err(error)));
        }
        Err(error)
    }
}

/// The matches of a listing extend those of its prefix, and every match is a
/// position in the listing.
proof fn lemma_matches_prefix(interfaces: Seq<NetworkInterface>, name: Seq<char>)
    ensures
        forall|k: int|
            0 <= k < case_insensitive_matches(interfaces, name).len() ==> 0
                <= #[trigger] case_insensitive_matches(interfaces, name)[k] < interfaces.len(),
        case_insensitive_matches(interfaces, name).len() <= interfaces.len(),
    decreases interfaces.len(),
{
    if interfaces.len() > 0 {
        lemma_matches_prefix(interfaces.drop_last(), name);
    }
}

} // verus!
