//! Error reports: what happened, why, and what to do about it.

use netsentry::NetSentryError;
use netsentry::render::error_report;

#[test]
fn mod_error_report_states_what_why_and_next_step() {
    let report = error_report(&NetSentryError::InterfaceEnumeration {
        source: "libpcap error: socket: Operation not permitted".to_owned(),
    });

    assert!(report.starts_with("error: could not enumerate network interfaces\n"));
    assert!(report.contains("cause: "));
    assert!(report.contains("Operation not permitted"));
    assert!(report.contains("hint: "));
    assert!(report.ends_with('\n'));
}

#[test]
fn mod_error_report_indents_continuation_hints() {
    let report = error_report(&NetSentryError::NoInterfacesFound);
    let hint_lines: Vec<&str> = report
        .lines()
        .filter(|line| line.starts_with("hint: ") || line.starts_with("      "))
        .collect();

    assert_eq!(
        hint_lines.len(),
        NetSentryError::NoInterfacesFound.hints().len()
    );
    assert!(hint_lines[0].starts_with("hint: "));
    for line in &hint_lines[1..] {
        assert!(line.starts_with("      "), "unaligned hint: {line:?}");
    }
}
