//! Rendering a capture run: the banner before it and the summary after it,
//! for a live interface and for a capture file.

use vstd::prelude::*;

use crate::capture::device::NetworkInterface;
use crate::capture::pump::LinkType;
use crate::capture::settings::CaptureSettings;
use crate::capture::stats::{CaptureSummary, DriverStats, FileSummary, StopReason, TimeSpan};
use crate::error::NetSentryError;
use crate::render::{VERSION, push_sanitized, sanitized};
use crate::text::{digits, pad_left, pad_right, push_char, push_padded_right, push_str, push_u64, push_u64_zero_padded};

verus! {

/// One `[*] label : value` banner line.
pub open spec fn banner_line(label: Seq<char>, value: Seq<char>) -> Seq<char> {
    "[*] "@ + pad_right(label, 12, ' ') + ": "@ + value + seq!['\n']
}

/// Appends the start of a banner line, up to its value.
fn push_banner_head(out: &mut String, label: &str)
    ensures
        final(out)@ == old(out)@ + "[*] "@ + pad_right(label@, 12, ' ') + ": "@,
{
    push_str(out, "[*] ");
    push_padded_right(out, label, 12, ' ');
    push_str(out, ": ");
}

/// Appends one `[*] label : value` banner line.
fn push_banner(out: &mut String, label: &str, value: &str)
    ensures
        final(out)@ == old(out)@ + banner_line(label@, value@),
{
    push_banner_head(out, label);
    push_str(out, value);
    push_char(out, '\n');
    proof {
        assert(out@ =~= old(out)@ + banner_line(label@, value@));
    }
}

/// One `label : value` summary line.
pub open spec fn summary_line(label: Seq<char>, value: Seq<char>) -> Seq<char> {
    "    "@ + pad_right(label, 21, ' ') + ": "@ + value + seq!['\n']
}

/// Appends one `label : value` summary line.
fn push_summary_row(out: &mut String, label: &str, value: &str)
    ensures
        final(out)@ == old(out)@ + summary_line(label@, value@),
{
    push_str(out, "    ");
    push_padded_right(out, label, 21, ' ');
    push_str(out, ": ");
    push_str(out, value);
    push_char(out, '\n');
    proof {
        assert(out@ =~= old(out)@ + summary_line(label@, value@));
    }
}

/// Appends one summary line whose value is a number.
fn push_count_row(out: &mut String, label: &str, value: u64)
    ensures
        final(out)@ == old(out)@ + summary_line(label@, digits(value as nat)),
{
    let mut text = String::new();
    push_u64(&mut text, value);
    proof {
        assert(text@ =~= digits(value as nat));
    }
    push_summary_row(out, label, text.as_str());
}

/// Why a capture stopped, in words.
pub open spec fn stop_reason_text(reason: StopReason) -> &'static str {
    match reason {
        StopReason::CountReached => "packet count reached",
        StopReason::Interrupted => "interrupted by user",
        StopReason::SourceEnded => "capture source ended",
        StopReason::OutputClosed => "output closed",
        StopReason::ReadFailed => "could not read any further",
    }
}

/// Explains why a capture stopped.
pub fn stop_reason_phrase(reason: StopReason) -> (phrase: &'static str)
    ensures
        phrase == stop_reason_text(reason),
{
    match reason {
        StopReason::CountReached => "packet count reached",
        StopReason::Interrupted => "interrupted by user",
        StopReason::SourceEnded => "capture source ended",
        StopReason::OutputClosed => "output closed",
        StopReason::ReadFailed => "could not read any further",
    }
}

/// A duration for humans, to the millisecond: `S.mmms` below a minute,
/// `Mm SS.mmms` from a minute on.
pub open spec fn duration_text(micros: u64) -> Seq<char> {
    let seconds = micros / 1_000_000;
    let millis = (micros % 1_000_000) / 1_000;
    if seconds < 60 {
        digits(seconds as nat) + seq!['.'] + pad_left(digits(millis as nat), 3, '0') + seq!['s']
    } else {
        digits((seconds / 60) as nat) + "m "@ + pad_left(digits((seconds % 60) as nat), 2, '0') + seq!['.']
            + pad_left(digits(millis as nat), 3, '0') + seq!['s']
    }
}

/// Formats a duration of `micros` microseconds for humans, keeping millisecond
/// resolution.
pub fn format_duration(micros: u64) -> (text: String)
    ensures
        text@ == duration_text(micros),
{
    let seconds = micros / 1_000_000;
    let millis = (micros % 1_000_000) / 1_000;
    let mut out = String::new();
    if seconds < 60 {
        push_u64(&mut out, seconds);
    } else {
        push_u64(&mut out, seconds / 60);
        push_str(&mut out, "m ");
        push_u64_zero_padded(&mut out, seconds % 60, 2);
    }
    push_char(&mut out, '.');
    push_u64_zero_padded(&mut out, millis, 3);
    push_char(&mut out, 's');
    proof {
        assert(out@ =~= duration_text(micros));
    }
    out
}

/// A link type's name, with libpcap's description in parentheses when it has
/// one.
pub open spec fn link_text(link_type: LinkType) -> Seq<char> {
    link_type.name@ + match link_type.description {
        Some(description) => " ("@ + sanitized(description@) + seq![')'],
        None => Seq::empty(),
    }
}

/// Appends a link type's name and description.
fn push_link(out: &mut String, link_type: &LinkType)
    ensures
        final(out)@ == old(out)@ + link_text(*link_type),
{
    push_str(out, link_type.name.as_str());
    match &link_type.description {
        Some(description) => {
            push_str(out, " (");
            push_sanitized(out, description.as_str());
            push_char(out, ')');
        },
        None => {},
    }
    proof {
        assert(out@ =~= old(out)@ + link_text(*link_type));
    }
}

/// The interface as the capture banner names it: its name, then its
/// description in parentheses when it has one, both made safe to print.
pub open spec fn interface_text(interface: NetworkInterface) -> Seq<char> {
    sanitized(interface.name@) + match interface.description {
        Some(description) => "  ("@ + sanitized(description@) + seq![')'],
        None => Seq::empty(),
    }
}

/// How many packets a live capture stops after.
pub open spec fn stop_after_text(count: Option<u64>) -> Seq<char> {
    match count {
        Some(n) => if n == 1 {
            "1 packet"@
        } else {
            digits(n as nat) + " packets"@
        },
        None => "Ctrl+C"@,
    }
}

/// The banner printed before a live capture starts.
pub open spec fn capture_header_text(
    interface: NetworkInterface,
    settings: CaptureSettings,
    link_type: LinkType,
    flow_mode: bool,
) -> Seq<char> {
    "NetSentry "@ + VERSION@ + " \u{2014} live capture\n\n"@ + banner_line("interface"@, interface_text(interface))
        + banner_line("link type"@, link_text(link_type)) + banner_line(
        "snaplen"@,
        digits(settings.spec_snaplen() as nat) + " bytes"@,
    ) + banner_line(
        "promiscuous"@,
        if settings.spec_promiscuous() {
            "on"@
        } else {
            "off"@
        },
    ) + banner_line("stop after"@, stop_after_text(settings.spec_count())) + banner_line(
        "clock"@,
        "UTC"@,
    ) + banner_line("payload"@, "not captured for display \u{2014} metadata only"@) + (if flow_mode {
        banner_line("output"@, "conversations, summarised when the capture ends"@)
    } else {
        Seq::empty()
    }) + seq!['\n']
}

/// Appends the banner line naming the interface.
fn push_interface_line(out: &mut String, interface: &NetworkInterface)
    ensures
        final(out)@ == old(out)@ + banner_line("interface"@, interface_text(*interface)),
{
    push_banner_head(out, "interface");
    push_sanitized(out, interface.name.as_str());
    match &interface.description {
        Some(description) => {
            push_str(out, "  (");
            push_sanitized(out, description.as_str());
            push_char(out, ')');
        },
        None => {},
    }
    push_char(out, '\n');
    proof {
        assert(out@ =~= old(out)@ + banner_line("interface"@, interface_text(*interface)));
    }
}

/// Appends the banner line naming the link type.
fn push_link_line(out: &mut String, link_type: &LinkType)
    ensures
        final(out)@ == old(out)@ + banner_line("link type"@, link_text(*link_type)),
{
    push_banner_head(out, "link type");
    push_link(out, link_type);
    push_char(out, '\n');
    proof {
        assert(out@ =~= old(out)@ + banner_line("link type"@, link_text(*link_type)));
    }
}

/// Appends the banner lines for the snapshot length, promiscuity and limit.
fn push_settings_lines(out: &mut String, settings: CaptureSettings)
    ensures
        final(out)@ == old(out)@ + banner_line("snaplen"@, digits(settings.spec_snaplen() as nat) + " bytes"@)
            + banner_line(
            "promiscuous"@,
            if settings.spec_promiscuous() {
                "on"@
            } else {
                "off"@
            },
        ) + banner_line("stop after"@, stop_after_text(settings.spec_count())),
{
    push_banner_head(out, "snaplen");
    push_u64(out, settings.snaplen() as u64);
    push_str(out, " bytes");
    push_char(out, '\n');
    let ghost first = out@;
    proof {
        assert(first =~= old(out)@ + banner_line("snaplen"@, digits(settings.spec_snaplen() as nat) + " bytes"@));
    }
    push_banner(out, "promiscuous", if settings.promiscuous() { "on" } else { "off" });
    let ghost second = out@;
    push_banner_head(out, "stop after");
    match settings.count() {
        Some(1) => push_str(out, "1 packet"),
        Some(count) => {
            push_u64(out, count);
            push_str(out, " packets");
        },
        None => push_str(out, "Ctrl+C"),
    }
    push_char(out, '\n');
    proof {
        assert(out@ =~= second + banner_line("stop after"@, stop_after_text(settings.spec_count())));
    }
}

/// Renders the banner printed before a capture starts.
///
/// In flow mode nothing is printed per packet, so the banner says up front
/// that the silence is intentional and when the output will arrive.
pub fn capture_header(
    interface: &NetworkInterface,
    settings: CaptureSettings,
    link_type: &LinkType,
    flow_mode: bool,
) -> (header: String)
    ensures
        header@ == capture_header_text(*interface, settings, *link_type, flow_mode),
{
    let mut out = String::new();
    push_str(&mut out, "NetSentry ");
    push_str(&mut out, VERSION);
    push_str(&mut out, " \u{2014} live capture\n\n");
    push_interface_line(&mut out, interface);
    push_link_line(&mut out, link_type);
    push_settings_lines(&mut out, settings);
    push_banner(&mut out, "clock", "UTC");
    push_banner(&mut out, "payload", "not captured for display \u{2014} metadata only");
    let ghost body = out@;
    if flow_mode {
        push_banner(&mut out, "output", "conversations, summarised when the capture ends");
    }
    push_char(&mut out, '\n');
    proof {
        assert(out@ =~= capture_header_text(*interface, settings, *link_type, flow_mode));
    }
    out
}

/// How much of a file an analysis reads.
pub open spec fn read_extent_text(limit: Option<u64>) -> Seq<char> {
    match limit {
        Some(n) => if n == 1 {
            "first packet only"@
        } else {
            "first "@ + digits(n as nat) + " packets"@
        },
        None => "whole file"@,
    }
}

/// The banner printed before a capture file is analysed.
pub open spec fn file_header_text(path: Seq<char>, link_type: LinkType, limit: Option<u64>, flow_mode: bool) -> Seq<
    char,
> {
    "NetSentry "@ + VERSION@ + " \u{2014} offline analysis\n\n"@ + banner_line("file"@, sanitized(path))
        + banner_line("format"@, "pcap/pcapng (read-only)"@) + banner_line("link type"@, link_text(link_type))
        + banner_line("read"@, read_extent_text(limit)) + banner_line("clock"@, "UTC"@) + (if flow_mode {
        banner_line("output"@, "conversations, not individual packets"@)
    } else {
        Seq::empty()
    }) + seq!['\n']
}

/// Appends the banner line saying how much of the file is read.
fn push_read_line(out: &mut String, limit: Option<u64>)
    ensures
        final(out)@ == old(out)@ + banner_line("read"@, read_extent_text(limit)),
{
    push_banner_head(out, "read");
    match limit {
        Some(1) => push_str(out, "first packet only"),
        Some(count) => {
            push_str(out, "first ");
            push_u64(out, count);
            push_str(out, " packets");
        },
        None => push_str(out, "whole file"),
    }
    push_char(out, '\n');
    proof {
        assert(out@ =~= old(out)@ + banner_line("read"@, read_extent_text(limit)));
    }
}

/// Renders the banner printed before a capture file is analysed; `path` is
/// the file's path as text.
pub fn file_header(path: &str, link_type: &LinkType, limit: Option<u64>, flow_mode: bool) -> (header: String)
    ensures
        header@ == file_header_text(path@, *link_type, limit, flow_mode),
{
    let mut out = String::new();
    push_str(&mut out, "NetSentry ");
    push_str(&mut out, VERSION);
    push_str(&mut out, " \u{2014} offline analysis\n\n");
    push_banner_head(&mut out, "file");
    push_sanitized(&mut out, path);
    push_char(&mut out, '\n');
    let ghost named = out@;
    proof {
        assert(named =~= "NetSentry "@ + VERSION@ + " \u{2014} offline analysis\n\n"@ + banner_line(
            "file"@,
            sanitized(path@),
        ));
    }
    push_banner(&mut out, "format", "pcap/pcapng (read-only)");
    push_link_line(&mut out, link_type);
    push_read_line(&mut out, limit);
    push_banner(&mut out, "clock", "UTC");
    if flow_mode {
        push_banner(&mut out, "output", "conversations, not individual packets");
    }
    push_char(&mut out, '\n');
    proof {
        assert(out@ =~= file_header_text(path@, *link_type, limit, flow_mode));
    }
    out
}

/// The three lines saying when a capture's packets happened.
pub open spec fn time_span_text(span: TimeSpan) -> Seq<char> {
    match (span.spec_first(), span.spec_last()) {
        (Some(first), Some(last)) => summary_line("first packet"@, first.spec_datetime()) + summary_line(
            "last packet"@,
            last.spec_datetime(),
        ) + summary_line(
            "capture span"@,
            match span.spec_duration() {
                Some(micros) => duration_text(micros),
                None => "unknown \u{2014} the file's timestamps are not in order"@,
            },
        ),
        _ => summary_line("first packet"@, "(none)"@) + summary_line("last packet"@, "(none)"@)
            + summary_line("capture span"@, "(no packets)"@),
    }
}

/// Appends the three lines saying when a capture's packets happened.
fn push_time_span(out: &mut String, span: TimeSpan)
    ensures
        final(out)@ == old(out)@ + time_span_text(span),
{
    match (span.first(), span.last()) {
        (Some(first), Some(last)) => {
            let first_text = first.format_datetime();
            push_summary_row(out, "first packet", first_text.as_str());
            let last_text = last.format_datetime();
            push_summary_row(out, "last packet", last_text.as_str());
            match span.duration() {
                Some(micros) => {
                    let text = format_duration(micros);
                    push_summary_row(out, "capture span", text.as_str());
                },
                None => push_summary_row(
                    out,
                    "capture span",
                    "unknown \u{2014} the file's timestamps are not in order",
                ),
            }
        },
        _ => {
            push_summary_row(out, "first packet", "(none)");
            push_summary_row(out, "last packet", "(none)");
            push_summary_row(out, "capture span", "(no packets)");
        },
    }
    proof {
        assert(out@ =~= old(out)@ + time_span_text(span));
    }
}

/// The lines about a failure that ended reading early.
pub open spec fn read_error_text(error: Option<NetSentryError>) -> Seq<char> {
    match error {
        Some(e) => "\n    the rest of the file could not be read:\n      "@ + e.spec_message() + seq!['\n']
            + match e.spec_cause() {
            Some(cause) => "      cause: "@ + cause + seq!['\n'],
            None => Seq::empty(),
        },
        None => Seq::empty(),
    }
}

/// The summary printed once a capture file has been analysed.
pub open spec fn file_summary_text(summary: FileSummary) -> Seq<char> {
    "\n[*] Analysis finished ("@ + stop_reason_text(summary.stop_reason)@ + ").\n\n"@ + summary_line(
        "packets analysed"@,
        digits(summary.tally.packets as nat),
    ) + summary_line("captured bytes"@, digits(summary.tally.captured_bytes as nat)) + summary_line(
        "wire bytes"@,
        digits(summary.tally.wire_bytes as nat),
    ) + seq!['\n'] + time_span_text(summary.time_span) + summary_line(
        "read in"@,
        duration_text(summary.processing_time) + " (wall clock)"@,
    ) + read_error_text(summary.read_error)
}

/// Renders the summary printed once a capture file has been analysed.
///
/// The two kinds of time are labelled apart on purpose. `capture span` is when
/// the traffic happened, taken from the packets; `read in` is how long
/// NetSentry spent reading the file. Reporting the second as though it were
/// the first would be a lie about the evidence.
pub fn file_summary(summary: &FileSummary) -> (text: String)
    ensures
        text@ == file_summary_text(*summary),
{
    let mut out = String::new();
    push_str(&mut out, "\n[*] Analysis finished (");
    push_str(&mut out, stop_reason_phrase(summary.stop_reason));
    push_str(&mut out, ").\n\n");
    push_count_row(&mut out, "packets analysed", summary.tally.packets());
    push_count_row(&mut out, "captured bytes", summary.tally.captured_bytes());
    push_count_row(&mut out, "wire bytes", summary.tally.wire_bytes());
    push_char(&mut out, '\n');
    push_time_span(&mut out, summary.time_span);
    let mut read_in = format_duration(summary.processing_time);
    push_str(&mut read_in, " (wall clock)");
    push_summary_row(&mut out, "read in", read_in.as_str());
    match &summary.read_error {
        Some(error) => {
            push_str(&mut out, "\n    the rest of the file could not be read:\n      ");
            let message = error.message();
            push_str(&mut out, message.as_str());
            push_char(&mut out, '\n');
            match error.cause() {
                Some(cause) => {
                    push_str(&mut out, "      cause: ");
                    push_str(&mut out, cause.as_str());
                    push_char(&mut out, '\n');
                },
                None => {},
            }
        },
        None => {},
    }
    proof {
        assert(out@ =~= file_summary_text(*summary));
    }
    out
}

/// The warning shown before packets are written to disk.
pub open spec fn write_warning_text(path: Seq<char>) -> Seq<char> {
    "[!] Writing full packets, payload included, to "@ + sanitized(path) + seq!['\n']
        + "    This file will contain whatever the traffic contained: credentials and\n"@
        + "    session tokens from plaintext protocols, hostnames, and your network's\n"@
        + "    internal layout. Store and share it accordingly.\n\n"@
}

/// Renders the warning shown before packets are written to disk; `path` is
/// the file's path as text.
///
/// Printed every time, without a way to silence it: writing a capture file is
/// the one thing NetSentry does that creates a lasting copy of other people's
/// traffic.
pub fn write_warning(path: &str) -> (warning: String)
    ensures
        warning@ == write_warning_text(path@),
{
    let mut out = String::new();
    push_str(&mut out, "[!] Writing full packets, payload included, to ");
    push_sanitized(&mut out, path);
    push_char(&mut out, '\n');
    push_str(&mut out, "    This file will contain whatever the traffic contained: credentials and\n");
    push_str(&mut out, "    session tokens from plaintext protocols, hostnames, and your network's\n");
    push_str(&mut out, "    internal layout. Store and share it accordingly.\n\n");
    proof {
        assert(out@ =~= write_warning_text(path@));
    }
    out
}

/// The caveat printed under the driver's interface-drop counter.
pub open spec fn drop_caveat_text(stats: DriverStats) -> &'static str {
    if stats.if_dropped == 0 {
        "\n    Note: not every driver reports interface-level drops. A zero above\n          can mean \"none\" or \"not reported\".\n"
    } else {
        ""
    }
}

/// The caveat printed under the driver's interface-drop counter.
///
/// libpcap sets this counter to zero on platforms that do not support it and
/// offers no way to tell that apart from "nothing was dropped", so a zero is
/// annotated rather than presented as a fact.
pub fn interface_drop_caveat(stats: &DriverStats) -> (caveat: &'static str)
    ensures
        caveat == drop_caveat_text(*stats),
{
    if stats.if_dropped == 0 {
        "\n    Note: not every driver reports interface-level drops. A zero above\n          can mean \"none\" or \"not reported\".\n"
    } else {
        ""
    }
}

/// The driver statistics section of a live summary.
pub open spec fn driver_stats_text(stats: Result<DriverStats, NetSentryError>) -> Seq<char> {
    match stats {
        Ok(s) => "    driver statistics\n"@ + summary_line("  received"@, digits(s.received as nat))
            + summary_line("  dropped (buffer)"@, digits(s.dropped as nat)) + summary_line(
            "  dropped (interface)"@,
            digits(s.if_dropped as nat),
        ) + drop_caveat_text(s)@,
        Err(e) => "    driver statistics: unavailable\n      reason: "@ + e.spec_message() + seq!['\n']
            + match e.spec_cause() {
            Some(cause) => "      cause:  "@ + cause + seq!['\n'],
            None => Seq::empty(),
        },
    }
}

/// Appends the driver statistics section of a live summary.
fn push_driver_stats(out: &mut String, stats: &Result<DriverStats, NetSentryError>)
    ensures
        final(out)@ == old(out)@ + driver_stats_text(*stats),
{
    match stats {
        Ok(s) => {
            push_str(out, "    driver statistics\n");
            push_count_row(out, "  received", s.received as u64);
            push_count_row(out, "  dropped (buffer)", s.dropped as u64);
            push_count_row(out, "  dropped (interface)", s.if_dropped as u64);
            push_str(out, interface_drop_caveat(s));
        },
        Err(error) => {
            push_str(out, "    driver statistics: unavailable\n      reason: ");
            let message = error.message();
            push_str(out, message.as_str());
            push_char(out, '\n');
            match error.cause() {
                Some(cause) => {
                    push_str(out, "      cause:  ");
                    push_str(out, cause.as_str());
                    push_char(out, '\n');
                },
                None => {},
            }
        },
    }
    proof {
        assert(out@ =~= old(out)@ + driver_stats_text(*stats));
    }
}

/// The summary printed once a live capture run is over.
pub open spec fn capture_summary_text(summary: CaptureSummary) -> Seq<char> {
    "\n[*] Capture finished ("@ + stop_reason_text(summary.stop_reason)@ + ").\n\n"@ + summary_line(
        "packets captured"@,
        digits(summary.tally.packets as nat),
    ) + summary_line("captured bytes"@, digits(summary.tally.captured_bytes as nat)) + summary_line(
        "wire bytes"@,
        digits(summary.tally.wire_bytes as nat),
    ) + summary_line("elapsed"@, duration_text(summary.elapsed)) + match summary.started_at {
        Some(started) => summary_line("started at"@, started.spec_datetime()),
        None => Seq::empty(),
    } + seq!['\n'] + driver_stats_text(summary.driver_stats)
}

/// Renders the summary printed once a capture run is over.
///
/// Statistics the driver would not give cost nothing else: the totals counted
/// here are still shown, and the missing part is named, not faked.
pub fn capture_summary(summary: &CaptureSummary) -> (text: String)
    ensures
        text@ == capture_summary_text(*summary),
{
    let mut out = String::new();
    push_str(&mut out, "\n[*] Capture finished (");
    push_str(&mut out, stop_reason_phrase(summary.stop_reason));
    push_str(&mut out, ").\n\n");
    push_count_row(&mut out, "packets captured", summary.tally.packets());
    push_count_row(&mut out, "captured bytes", summary.tally.captured_bytes());
    push_count_row(&mut out, "wire bytes", summary.tally.wire_bytes());
    let elapsed = format_duration(summary.elapsed);
    push_summary_row(&mut out, "elapsed", elapsed.as_str());
    match summary.started_at {
        Some(started) => {
            let text = started.format_datetime();
            push_summary_row(&mut out, "started at", text.as_str());
        },
        None => {},
    }
    push_char(&mut out, '\n');
    push_driver_stats(&mut out, &summary.driver_stats);
    proof {
        assert(out@ =~= capture_summary_text(*summary));
    }
    out
}


/// The summary of a capture file reports, on consecutive lines, the first
/// packet's date and time as the span's first stamp and the last packet's as
/// its last stamp: `first packet : <first>` then `last packet : <last>`,
/// whatever else surrounds them.
pub proof fn law_file_summary_reports_first_then_last(summary: FileSummary)
    requires
        summary.time_span.spec_first() is Some,
        summary.time_span.spec_last() is Some,
    ensures
        exists|before: Seq<char>, after: Seq<char>|
            file_summary_text(summary) == before + summary_line(
                "first packet"@,
                summary.time_span.spec_first().unwrap().spec_datetime(),
            ) + summary_line("last packet"@, summary.time_span.spec_last().unwrap().spec_datetime())
                + after,
{
    let span = summary.time_span;
    let first_line = summary_line("first packet"@, span.spec_first().unwrap().spec_datetime());
    let last_line = summary_line("last packet"@, span.spec_last().unwrap().spec_datetime());
    let before = "\n[*] Analysis finished ("@ + stop_reason_text(summary.stop_reason)@ + ").\n\n"@
        + summary_line("packets analysed"@, digits(summary.tally.packets as nat)) + summary_line(
        "captured bytes"@,
        digits(summary.tally.captured_bytes as nat),
    ) + summary_line("wire bytes"@, digits(summary.tally.wire_bytes as nat)) + seq!['\n'];
    let after = summary_line(
        "capture span"@,
        match span.spec_duration() {
            Some(micros) => duration_text(micros),
            None => "unknown \u{2014} the file's timestamps are not in order"@,
        },
    ) + summary_line("read in"@, duration_text(summary.processing_time) + " (wall clock)"@)
        + read_error_text(summary.read_error);
    assert(file_summary_text(summary) =~= before + first_line + last_line + after);
}

} // verus!
