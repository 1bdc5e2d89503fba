//! Decisions taken around opening, reading and writing captures.

use netsentry::capture::live::{classify_open_error, READ_TIMEOUT_MS};
use netsentry::capture::offline::{check_opened, classify_file_open_error, OpenFailure};
use netsentry::capture::timestamp::widen;
use netsentry::capture::writer::check_output_target;
use netsentry::capture::LinkType;
use netsentry::NetSentryError;

#[test]
fn permission_failures_are_told_apart_from_other_failures() {
    let denied = [
        "socket: Operation not permitted",
        "eth0: You don't have permission to capture on that device",
        "Permission denied",
        "Error opening adapter: Access is denied. (5)",
    ];
    for message in denied {
        let error = classify_open_error("eth0", format!("libpcap error: {message}"));
        assert!(
            matches!(error, NetSentryError::CapturePermissionDenied { .. }),
            "{message:?} should be read as a privilege problem"
        );
    }

    let other = [
        "eth0: No such device exists",
        "BIOCSETIF failed: Device not configured",
    ];
    for message in other {
        let error = classify_open_error("eth0", format!("libpcap error: {message}"));
        assert!(
            matches!(error, NetSentryError::CaptureOpen { .. }),
            "{message:?} should not be read as a privilege problem"
        );
    }
}

#[test]
fn a_refusal_keeps_the_interface_and_the_drivers_words() {
    let error = classify_open_error("wlan0", "PERMISSION DENIED".to_owned());
    assert_eq!(
        error,
        NetSentryError::CapturePermissionDenied {
            interface: "wlan0".to_owned(),
            source: "PERMISSION DENIED".to_owned(),
        }
    );
    let error = classify_open_error("wlan0", "no such device".to_owned());
    assert_eq!(
        error,
        NetSentryError::CaptureOpen {
            interface: "wlan0".to_owned(),
            source: "no such device".to_owned(),
        }
    );
}

#[test]
fn the_read_timeout_is_never_zero() {
    assert_eq!(READ_TIMEOUT_MS, 250);
}

#[test]
fn live_timeval_fields_widen_on_every_target() {
    assert_eq!(widen(-1_i32), -1_i64);
    assert_eq!(widen(i32::MAX), 2_147_483_647_i64);
    assert_eq!(widen(i64::MIN), i64::MIN);
}

#[test]
fn pump_timeval_fields_widen_on_every_target() {
    assert_eq!(widen(-1_i32), -1_i64);
    assert_eq!(widen(i32::MAX), 2_147_483_647_i64);
    assert_eq!(widen(i64::MIN), i64::MIN);
}

#[test]
fn live_unknown_link_types_are_named_by_number() {
    let described = LinkType::describe(1, Some("EN10MB".to_owned()), Some("Ethernet".to_owned()));
    assert_eq!(described.code, 1);
    assert_eq!(described.name, "EN10MB");

    let unknown = LinkType::describe(31_337, None, None);
    assert_eq!(unknown.code, 31_337);
    assert_eq!(unknown.name, "DLT_31337");
    assert_eq!(unknown.description, None);
}

#[test]
fn pump_unknown_link_types_are_named_by_number() {
    let described = LinkType::describe(113, Some("LINUX_SLL".to_owned()), None);
    assert_eq!(described.code, 113);
    assert_eq!(described.name, "LINUX_SLL");

    let unknown = LinkType::describe(-7, None, None);
    assert_eq!(unknown.code, -7);
    assert_eq!(unknown.name, "DLT_-7");
    assert_eq!(unknown.description, None);
}

#[test]
fn filesystem_errors_map_to_their_own_variants() {
    let path = "/some/where.pcap";

    let missing = classify_file_open_error(path.to_owned(), OpenFailure::NotFound, false, String::new());
    assert!(matches!(missing, NetSentryError::CaptureFileMissing { .. }));

    let denied = classify_file_open_error(
        path.to_owned(),
        OpenFailure::PermissionDenied,
        false,
        String::new(),
    );
    assert!(matches!(
        denied,
        NetSentryError::CaptureFilePermissionDenied { .. }
    ));

    let other = classify_file_open_error(
        path.to_owned(),
        OpenFailure::Other,
        false,
        "invalid data".to_owned(),
    );
    assert_eq!(
        other,
        NetSentryError::CaptureFileUnreadable {
            path: path.to_owned(),
            reason: "invalid data".to_owned(),
        }
    );
}

#[test]
fn a_directory_that_fails_to_open_is_named_as_a_directory() {
    let error = classify_file_open_error(
        "/tmp".to_owned(),
        OpenFailure::Other,
        true,
        "Is a directory (os error 21)".to_owned(),
    );
    assert_eq!(
        error,
        NetSentryError::CaptureFileIsDirectory {
            path: "/tmp".to_owned()
        }
    );
}

#[test]
fn a_directory_that_opens_is_still_refused() {
    assert_eq!(
        check_opened("/tmp".to_owned(), true),
        Err(NetSentryError::CaptureFileIsDirectory {
            path: "/tmp".to_owned()
        })
    );
    assert_eq!(check_opened("/tmp/a.pcap".to_owned(), false), Ok(()));
}

#[test]
fn an_occupied_output_path_is_refused_unless_overwriting() {
    assert_eq!(
        check_output_target("out.pcap".to_owned(), true, true, false),
        Err(NetSentryError::OutputFileExists {
            path: "out.pcap".to_owned()
        })
    );
    assert_eq!(check_output_target("out.pcap".to_owned(), true, true, true), Ok(()));
    assert_eq!(check_output_target("out.pcap".to_owned(), true, false, false), Ok(()));
}

#[test]
fn a_non_utf8_output_path_is_refused_first() {
    assert_eq!(
        check_output_target("/tmp/netsentry-\u{fffd}.pcap".to_owned(), false, true, false),
        Err(NetSentryError::PathNotUtf8 {
            path: "/tmp/netsentry-\u{fffd}.pcap".to_owned()
        })
    );
}
