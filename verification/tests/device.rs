//! Network interfaces: what the driver reports, and finding the one asked for.

use netsentry::NetSentryError;
use netsentry::capture::{
    DriverDevice, InterfaceAddress, InterfaceAttribute, LinkStatus, NetworkInterface,
    interfaces_from_driver, resolve_interface,
};
use netsentry::decode::{IpAddress, Ipv4Address, Ipv6Address};

/// What the driver reports of one device, in the order
/// `NetworkInterface::from_driver` takes it.
fn device(
    name: &str,
    desc: Option<&str>,
    flags: u32,
    addresses: Vec<InterfaceAddress>,
) -> (String, Option<String>, u32, Vec<InterfaceAddress>) {
    (name.to_owned(), desc.map(ToOwned::to_owned), flags, addresses)
}

/// Converts a device as the capture layer does.
fn from_pcap_device(
    index: usize,
    device: &(String, Option<String>, u32, Vec<InterfaceAddress>),
) -> NetworkInterface {
    let (name, desc, flags, addresses) = device.clone();
    NetworkInterface::from_driver(index, name, desc, flags, addresses)
}

fn address(addr: IpAddress, netmask: Option<IpAddress>) -> InterfaceAddress {
    InterfaceAddress { addr, netmask }
}

const PCAP_IF_LOOPBACK: u32 = 0x0000_0001;
const PCAP_IF_UP: u32 = 0x0000_0002;
const PCAP_IF_RUNNING: u32 = 0x0000_0004;
const PCAP_IF_WIRELESS: u32 = 0x0000_0008;
const PCAP_IF_CONNECTED: u32 = 0x0000_0010;
const PCAP_IF_DISCONNECTED: u32 = 0x0000_0020;

fn interfaces(names: &[&str]) -> Vec<NetworkInterface> {
    names
        .iter()
        .enumerate()
        .map(|(position, name)| NetworkInterface {
            index: position + 1,
            name: (*name).to_owned(),
            description: None,
            status: LinkStatus::Down,
            attributes: vec![],
            addresses: vec![],
        })
        .collect()
}

#[test]
fn resolves_by_listing_index() {
    let list = interfaces(&["eth0", "wlan0", "lo"]);

    for (selector, expected) in [("1", "eth0"), ("2", "wlan0"), ("3", "lo")] {
        let found = resolve_interface(&list, selector).ok();
        assert_eq!(found.map(|iface| iface.name.as_str()), Some(expected));
    }
}

#[test]
fn resolves_by_exact_system_name() {
    let list = interfaces(&["eth0", "\\Device\\NPF_{ABC-123}"]);

    let found = resolve_interface(&list, "\\Device\\NPF_{ABC-123}").ok();
    assert_eq!(found.map(|iface| iface.index), Some(2));
}

#[test]
fn resolves_windows_names_case_insensitively() {
    let list = interfaces(&["\\Device\\NPF_{Abc-123}"]);

    let found = resolve_interface(&list, "\\device\\npf_{abc-123}").ok();
    assert_eq!(found.map(|iface| iface.index), Some(1));
}

#[test]
fn surrounding_whitespace_is_tolerated() {
    let list = interfaces(&["eth0", "wlan0"]);

    assert_eq!(
        resolve_interface(&list, "  2  ")
            .ok()
            .map(|iface| iface.name.as_str()),
        Some("wlan0")
    );
    assert_eq!(
        resolve_interface(&list, " eth0 ")
            .ok()
            .map(|iface| iface.index),
        Some(1)
    );
}

#[test]
fn an_interface_named_like_a_number_wins_over_that_index() {
    // Pathological, but silently opening the wrong interface would be worse
    // than any amount of pedantry here.
    let list = interfaces(&["eth0", "3", "lo"]);

    let found = resolve_interface(&list, "3").ok();
    assert_eq!(found.map(|iface| iface.index), Some(2));
}

#[test]
fn out_of_range_index_reports_how_many_exist() {
    let list = interfaces(&["eth0", "wlan0"]);

    let error = resolve_interface(&list, "9").err();
    assert!(matches!(
        error,
        Some(NetSentryError::InterfaceIndexOutOfRange {
            index: 9,
            available: 2
        })
    ));
}

#[test]
fn index_zero_is_rejected_because_the_listing_starts_at_one() {
    let list = interfaces(&["eth0"]);
    assert!(resolve_interface(&list, "0").is_err());
}

#[test]
fn unknown_names_are_reported_not_guessed() {
    let list = interfaces(&["eth0", "wlan0"]);

    for selector in ["eth1", "", "  ", "-1", "+1", "1.0", "0x1", "eth0 extra"] {
        let outcome = resolve_interface(&list, selector);
        assert!(
            outcome.is_err(),
            "selector {selector:?} should not resolve, got {:?}",
            outcome.map(|iface| iface.name.clone())
        );
    }
}

#[test]
fn an_ambiguous_case_insensitive_match_is_refused() {
    let list = interfaces(&["Eth0", "ETH0"]);

    let error = resolve_interface(&list, "eth0").err();
    assert!(matches!(
        error,
        Some(NetSentryError::AmbiguousInterface { .. })
    ));
}

#[test]
fn resolving_against_an_empty_list_is_an_error_not_a_panic() {
    assert!(resolve_interface(&[], "1").is_err());
    assert!(resolve_interface(&[], "eth0").is_err());
}

#[test]
fn link_status_maps_up_and_running_flags() {
    let cases = [
        (PCAP_IF_UP | PCAP_IF_RUNNING, LinkStatus::Running),
        (PCAP_IF_UP, LinkStatus::Up),
        (PCAP_IF_RUNNING, LinkStatus::Down),
        (0, LinkStatus::Down),
    ];

    for (flags, expected) in cases {
        let iface = from_pcap_device(1, &device("eth0", None, flags, vec![]));
        assert_eq!(iface.status, expected, "flags {flags:#x}");
    }
}

#[test]
fn attributes_only_report_what_the_driver_states() {
    let wifi = from_pcap_device(
        1,
        &device("wlan0", None, PCAP_IF_WIRELESS | PCAP_IF_CONNECTED, vec![]),
    );
    assert_eq!(
        wifi.attributes,
        vec![InterfaceAttribute::Wireless, InterfaceAttribute::Connected]
    );

    let loopback = from_pcap_device(
        2,
        &device("lo", None, PCAP_IF_LOOPBACK | PCAP_IF_DISCONNECTED, vec![]),
    );
    assert_eq!(
        loopback.attributes,
        vec![
            InterfaceAttribute::Loopback,
            InterfaceAttribute::Disconnected
        ]
    );

    // An unknown connection status must not become an attribute.
    let plain = from_pcap_device(3, &device("eth0", None, PCAP_IF_UP, vec![]));
    assert!(plain.attributes.is_empty());
}

#[test]
fn blank_descriptions_become_none() {
    for blank in ["", "   ", "\t\n"] {
        let iface = from_pcap_device(1, &device("eth0", Some(blank), 0, vec![]));
        assert_eq!(iface.description, None, "input was {blank:?}");
    }

    let iface = from_pcap_device(1, &device("eth0", Some("  Intel Wi-Fi 6  "), 0, vec![]));
    assert_eq!(iface.description.as_deref(), Some("Intel Wi-Fi 6"));
}

#[test]
fn addresses_are_carried_over_in_order() {
    let v4 = IpAddress::V4(Ipv4Address::new(10, 0, 2, 15));
    let v4_mask = IpAddress::V4(Ipv4Address::new(255, 255, 255, 0));
    let v6 = IpAddress::V6(Ipv6Address::new(0, 0, 0, 0, 0, 0, 0, 1));

    let iface = from_pcap_device(
        7,
        &device(
            "eth0",
            None,
            PCAP_IF_UP,
            vec![address(v4, Some(v4_mask)), address(v6, None)],
        ),
    );

    assert_eq!(iface.index, 7);
    assert_eq!(
        iface.addresses,
        vec![
            InterfaceAddress {
                addr: v4,
                netmask: Some(v4_mask)
            },
            InterfaceAddress {
                addr: v6,
                netmask: None
            },
        ]
    );
}

#[test]
fn the_driver_listing_is_numbered_from_one_in_order() {
    let devices = vec![
        DriverDevice {
            name: "eth0".to_owned(),
            description: Some("  Intel wired  ".to_owned()),
            flags: PCAP_IF_UP | PCAP_IF_RUNNING | PCAP_IF_CONNECTED,
            addresses: vec![address(
                IpAddress::V4(Ipv4Address([192, 0, 2, 2])),
                Some(IpAddress::V4(Ipv4Address([255, 255, 255, 0]))),
            )],
        },
        DriverDevice {
            name: "lo".to_owned(),
            description: Some("   ".to_owned()),
            flags: PCAP_IF_LOOPBACK | PCAP_IF_UP,
            addresses: Vec::new(),
        },
    ];
    let listed = interfaces_from_driver(devices);
    let Ok(listed) = listed else {
        panic!("two devices must list");
    };
    assert_eq!(listed.len(), 2);
    assert_eq!(listed[0].index, 1);
    assert_eq!(listed[0].name, "eth0");
    assert_eq!(listed[0].description.as_deref(), Some("Intel wired"));
    assert_eq!(listed[0].status, LinkStatus::Running);
    assert_eq!(listed[0].attributes, vec![InterfaceAttribute::Connected]);
    assert_eq!(listed[0].addresses.len(), 1);
    assert_eq!(listed[1].index, 2);
    assert_eq!(listed[1].name, "lo");
    assert_eq!(listed[1].description, None);
    assert_eq!(listed[1].status, LinkStatus::Up);
    assert_eq!(listed[1].attributes, vec![InterfaceAttribute::Loopback]);
}

#[test]
fn a_driver_that_reports_nothing_is_an_error() {
    assert_eq!(
        interfaces_from_driver(Vec::new()),
        Err(NetSentryError::NoInterfacesFound)
    );
}
