//! Rendering a capture run.

use std::time::Duration;

use netsentry::NetSentryError;
use netsentry::capture::{
    CaptureSettings, CaptureSummary, CaptureTally, DriverStats, LinkStatus, LinkType, NetworkInterface,
    PacketTimestamp, StopReason,
};
use netsentry::render::capture::{capture_header, capture_summary, format_duration, stop_reason_phrase};

/// A duration as the whole microseconds the library works in.
fn micros(duration: Duration) -> u64 {
    u64::try_from(duration.as_micros()).unwrap_or(u64::MAX)
}


fn settings() -> CaptureSettings {
    CaptureSettings::new(65_535, true, Some(20)).unwrap_or_default()
}

fn link_type() -> LinkType {
    LinkType {
        code: 1,
        name: "EN10MB".into(),
        description: Some("Ethernet".into()),
    }
}

fn summary(
    stop_reason: StopReason,
    stats: Result<DriverStats, NetSentryError>,
) -> CaptureSummary {
    let mut tally = CaptureTally::default();
    tally.record(64, 1514);
    tally.record(74, 74);

    CaptureSummary {
        tally,
        elapsed: micros(Duration::from_millis(6412)),
        started_at: Some(PacketTimestamp::from_parts(1_790_005_351, 104_881)),
        stop_reason,
        driver_stats: stats,
    }
}

#[test]
fn capture_header_states_every_capture_parameter() {
    let interface = NetworkInterface {
        index: 1,
        name: "eth0".into(),
        description: Some("Intel Wi-Fi 6".into()),
        status: LinkStatus::Running,
        attributes: vec![],
        addresses: vec![],
    };
    let header = capture_header(&interface, settings(), &link_type(), false);

    assert!(
        header.contains("interface   : eth0  (Intel Wi-Fi 6)"),
        "{header}"
    );
    assert!(header.contains("link type   : EN10MB (Ethernet)"));
    assert!(header.contains("snaplen     : 65535 bytes"));
    assert!(header.contains("promiscuous : on"));
    assert!(header.contains("stop after  : 20 packets"));
    assert!(header.contains("clock       : UTC"));
    assert!(header.contains("metadata only"));
}

#[test]
fn flow_mode_warns_that_packets_will_not_be_printed() {
    let interface = NetworkInterface {
        index: 1,
        name: "eth0".into(),
        description: None,
        status: LinkStatus::Running,
        attributes: vec![],
        addresses: vec![],
    };
    let header = capture_header(&interface, settings(), &link_type(), true);
    assert!(header.contains("output      : conversations"), "{header}");

    let plain = capture_header(&interface, settings(), &link_type(), false);
    assert!(!plain.contains("output      :"), "{plain}");
}

#[test]
fn capture_header_says_ctrl_c_when_there_is_no_limit() {
    let interface = NetworkInterface {
        index: 1,
        name: "eth0".into(),
        description: None,
        status: LinkStatus::Running,
        attributes: vec![],
        addresses: vec![],
    };
    let unlimited = CaptureSettings::new(1500, false, None).unwrap_or_default();
    let header = capture_header(&interface, unlimited, &link_type(), false);

    assert!(header.contains("stop after  : Ctrl+C"), "{header}");
    assert!(header.contains("promiscuous : off"));
    // No description means no empty parentheses.
    assert!(header.contains("interface   : eth0\n"), "{header}");
}

#[test]
fn capture_summary_reports_totals_and_driver_counters() {
    let rendered = capture_summary(&summary(
        StopReason::CountReached,
        Ok(DriverStats {
            received: 12,
            dropped: 3,
            if_dropped: 1,
        }),
    ));

    assert!(rendered.contains("Capture finished (packet count reached)"));
    assert!(rendered.contains("packets captured     : 2"));
    assert!(rendered.contains("captured bytes       : 138"));
    assert!(rendered.contains("wire bytes           : 1588"));
    assert!(rendered.contains("elapsed              : 6.412s"));
    assert!(rendered.contains("started at           : 2026-09-21 15:42:31.104881 UTC"));
    assert!(rendered.contains("received           : 12"));
    assert!(rendered.contains("dropped (buffer)   : 3"));
    assert!(rendered.contains("dropped (interface): 1"));
    // A non-zero count needs no caveat.
    assert!(!rendered.contains("not reported"));
}

#[test]
fn a_zero_interface_drop_count_is_qualified_rather_than_asserted() {
    let rendered = capture_summary(&summary(
        StopReason::Interrupted,
        Ok(DriverStats {
            received: 2,
            dropped: 0,
            if_dropped: 0,
        }),
    ));

    assert!(rendered.contains("Capture finished (interrupted by user)"));
    assert!(rendered.contains("not every driver reports interface-level drops"));
}

#[test]
fn unavailable_statistics_do_not_cost_the_user_the_summary() {
    let rendered = capture_summary(&summary(
        StopReason::Interrupted,
        Err(NetSentryError::CaptureStatistics {
            source: "libpcap error: statistics not supported".to_owned(),
        }),
    ));

    // The totals we computed ourselves are still there ...
    assert!(rendered.contains("packets captured     : 2"));
    // ... and the missing part is named, not faked.
    assert!(rendered.contains("driver statistics: unavailable"));
    assert!(rendered.contains("statistics not supported"));
    assert!(!rendered.contains("received           :"));
}

#[test]
fn every_stop_reason_has_wording() {
    for reason in [
        StopReason::CountReached,
        StopReason::Interrupted,
        StopReason::SourceEnded,
        StopReason::OutputClosed,
    ] {
        assert!(!stop_reason_phrase(reason).is_empty());
    }
}

#[test]
fn durations_stay_readable_past_a_minute() {
    assert_eq!(format_duration(micros(Duration::from_millis(0))), "0.000s");
    assert_eq!(format_duration(micros(Duration::from_millis(7))), "0.007s");
    assert_eq!(format_duration(micros(Duration::from_millis(6412))), "6.412s");
    assert_eq!(format_duration(micros(Duration::from_millis(59_999))), "59.999s");
    assert_eq!(format_duration(micros(Duration::from_millis(60_000))), "1m 00.000s");
    assert_eq!(format_duration(micros(Duration::from_millis(63_120))), "1m 03.120s");
    assert_eq!(format_duration(micros(Duration::from_secs(3671))), "61m 11.000s");
}
