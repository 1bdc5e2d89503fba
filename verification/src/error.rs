//! Typed failures for NetSentry.
//!
//! Errors are *typed* rather than stringly-typed so that callers can react to
//! a specific failure instead of pattern matching on English text. Each
//! variant explains itself in three parts: [`NetSentryError::message`] says
//! *what* went wrong, [`NetSentryError::cause`] carries the underlying
//! driver's or operating system's own words for *why*, and
//! [`NetSentryError::hints`] says what the *user* can do about it.
//!
//! The underlying failures arrive as text: the capture driver's error is
//! recorded as the message it displays, so that this type stays plain data.

use vstd::prelude::*;

use crate::text::{digits, push_str, push_u64};

verus! {

/// Every way a NetSentry operation can fail.
#[derive(Debug, Clone, PartialEq, Eq)]
#[non_exhaustive]
pub enum NetSentryError {
    /// The interface list could not be built.
    InterfaceEnumeration {
        /// The capture driver's own description of the failure.
        source: String,
    },
    /// The capture driver responded, but reported zero interfaces.
    NoInterfacesFound,
    /// The interface selector matched nothing.
    InterfaceNotFound {
        /// What the user asked for.
        selector: String,
        /// How many interfaces the driver reported.
        available: usize,
    },
    /// A listing index was given that no interface has.
    InterfaceIndexOutOfRange {
        /// The index the user asked for.
        index: usize,
        /// How many interfaces the driver reported.
        available: usize,
    },
    /// A name matched several interfaces once letter case was ignored.
    AmbiguousInterface {
        /// What the user asked for.
        selector: String,
    },
    /// `--snaplen` was outside the range libpcap accepts.
    InvalidSnaplen {
        /// The rejected value.
        value: u32,
        /// Smallest accepted value.
        min: u32,
        /// Largest accepted value.
        max: u32,
    },
    /// `--count` was zero, which would capture nothing.
    InvalidCount {
        /// The rejected value.
        value: u64,
    },
    /// The capture driver refused to open the interface for lack of privileges.
    CapturePermissionDenied {
        /// The interface that was being opened.
        interface: String,
        /// The capture driver's own description of the failure.
        source: String,
    },
    /// The capture driver refused to open the interface.
    CaptureOpen {
        /// The interface that was being opened.
        interface: String,
        /// The capture driver's own description of the failure.
        source: String,
    },
    /// Reading from an open capture failed.
    CaptureRead {
        /// The capture driver's own description of the failure.
        source: String,
    },
    /// The driver would not report its packet counters.
    CaptureStatistics {
        /// The capture driver's own description of the failure.
        source: String,
    },
    /// The interrupt handler could not be installed.
    SignalHandler {
        /// The underlying failure.
        source: String,
    },
    /// The capture file does not exist.
    CaptureFileMissing {
        /// The path that was given.
        path: String,
    },
    /// The capture file exists but may not be read.
    CaptureFilePermissionDenied {
        /// The path that was given.
        path: String,
    },
    /// The path names a directory, not a capture file.
    CaptureFileIsDirectory {
        /// The path that was given.
        path: String,
    },
    /// The capture file could not be opened for another reason.
    CaptureFileUnreadable {
        /// The path that was given.
        path: String,
        /// The operating system's explanation.
        reason: String,
    },
    /// The file is readable but is not a capture libpcap understands.
    CaptureFileFormat {
        /// The path that was given.
        path: String,
        /// The capture driver's own description of the failure.
        source: String,
    },
    /// Reading stopped part way through a damaged capture file.
    CaptureFileCorrupt {
        /// The path that was given.
        path: String,
        /// The capture driver's own description of the failure.
        source: String,
    },
    /// The output path is not valid UTF-8, which libpcap cannot be handed.
    PathNotUtf8 {
        /// The path, lossily converted for display.
        path: String,
    },
    /// The output file already exists and overwriting was not asked for.
    OutputFileExists {
        /// The path that was given.
        path: String,
    },
    /// The output file could not be created.
    OutputFileUnwritable {
        /// The path that was given.
        path: String,
        /// The operating system's explanation.
        reason: String,
    },
    /// Packets could not be flushed to the output file.
    CaptureWriteFailed {
        /// The path that was given.
        path: String,
        /// The capture driver's own description of the failure.
        source: String,
    },
}

/// Convenience alias for results produced by NetSentry.
pub type Result<T> = core::result::Result<T, NetSentryError>;

/// Hints for a failure to reach the capture driver at all.
pub open spec fn privilege_hints() -> Seq<&'static str> {
    seq![
        "packet capture requires elevated privileges",
        "Windows: run this terminal as Administrator",
        "Linux:   run as root, or grant the binary CAP_NET_RAW and CAP_NET_ADMIN",
    ]
}

impl NetSentryError {
    /// The suggestions offered for each kind of failure, one per line.
    pub open spec fn spec_hints(&self) -> Seq<&'static str> {
        match self {
            NetSentryError::InterfaceEnumeration { .. } => privilege_hints(),
            NetSentryError::NoInterfacesFound => seq![
                "Windows: install Npcap from https://npcap.com and enable",
                "         \"WinPcap API-compatible Mode\" during setup",
                "Linux:   make sure libpcap is installed and you have capture privileges",
            ],
            NetSentryError::InterfaceNotFound { .. }
            | NetSentryError::InterfaceIndexOutOfRange { .. } => seq![
                "run `netsentry list` to see the available interfaces",
                "an interface can be given by its [n] index or by its system name",
            ],
            NetSentryError::AmbiguousInterface { .. } => seq![
                "run `netsentry list` and pass the interface's exact system name",
            ],
            NetSentryError::InvalidSnaplen { .. } => seq![
                "--snaplen is how many bytes of each packet to keep",
                "65535 captures whole frames; smaller values truncate them",
            ],
            NetSentryError::InvalidCount { .. } => seq![
                "--count is how many packets to capture before stopping",
                "omit --count to capture until you press Ctrl+C",
            ],
            NetSentryError::CapturePermissionDenied { .. } => seq![
                "capturing packets needs more privileges than listing interfaces",
                "Windows: run this terminal as Administrator",
                "Linux:   run as root, or grant the binary CAP_NET_RAW and CAP_NET_ADMIN:",
                "         sudo setcap cap_net_raw,cap_net_admin=eip ./netsentry",
            ],
            NetSentryError::CaptureOpen { .. } => seq![
                "check the interface still exists with `netsentry list`",
                "an interface that is down cannot be captured on",
                "capturing also needs elevated privileges (Administrator, or root/CAP_NET_RAW)",
            ],
            NetSentryError::CaptureRead { .. } => seq![
                "the interface may have been removed or reconfigured mid-capture",
                "re-run `netsentry list` to check it is still present",
            ],
            NetSentryError::CaptureStatistics { .. } => seq![
                "the captured packets are still correct; only the driver's own counters are missing",
                "not every capture source keeps statistics",
            ],
            NetSentryError::SignalHandler { .. } => seq![
                "another handler for Ctrl+C may already be installed in this process",
            ],
            NetSentryError::CaptureFileMissing { .. } => seq![
                "check the path; reading a capture file needs no privileges",
            ],
            NetSentryError::CaptureFilePermissionDenied { .. } => seq![
                "the file exists but your user may not read it",
                "check its permissions, or ask its owner for a readable copy",
            ],
            NetSentryError::CaptureFileIsDirectory { .. } => seq![
                "name a .pcap or .pcapng file inside the directory, not the directory itself",
            ],
            NetSentryError::CaptureFileUnreadable { .. } => seq![
                "check that the file is a local, readable capture file",
            ],
            NetSentryError::CaptureFileFormat { .. } => seq![
                "only pcap and pcapng captures can be read",
                "compressed captures (.gz, .zst) must be decompressed first",
            ],
            NetSentryError::CaptureFileCorrupt { .. } => seq![
                "the packets before the damage were still analysed",
                "a capture whose writer was stopped mid-packet ends like this",
            ],
            NetSentryError::PathNotUtf8 { .. } => seq![
                "choose an output path made of valid UTF-8 characters",
            ],
            NetSentryError::OutputFileExists { .. } => seq![
                "choose a new file name, or pass --overwrite to replace the existing capture",
            ],
            NetSentryError::OutputFileUnwritable { .. } => seq![
                "check that the directory exists and that you may write to it",
            ],
            NetSentryError::CaptureWriteFailed { .. } => seq![
                "the disk may be full, or the file may have been removed mid-capture",
            ],
        }
    }

    /// Actionable suggestions for the user, one per line.
    ///
    /// Returning a slice (rather than formatting into a string) keeps the
    /// presentation decision with the caller.
    pub fn hints(&self) -> (hints: &'static [&'static str])
        ensures
            hints@ == self.spec_hints(),
            hints@.len() >= 1,
    {
        let hints: &'static [&'static str] = match self {
            Self::InterfaceEnumeration { .. } => &[
                "packet capture requires elevated privileges",
                "Windows: run this terminal as Administrator",
                "Linux:   run as root, or grant the binary CAP_NET_RAW and CAP_NET_ADMIN",
            ],
            Self::NoInterfacesFound => &[
                "Windows: install Npcap from https://npcap.com and enable",
                "         \"WinPcap API-compatible Mode\" during setup",
                "Linux:   make sure libpcap is installed and you have capture privileges",
            ],
            Self::InterfaceNotFound { .. } | Self::InterfaceIndexOutOfRange { .. } => &[
                "run `netsentry list` to see the available interfaces",
                "an interface can be given by its [n] index or by its system name",
            ],
            Self::AmbiguousInterface { .. } => &[
                "run `netsentry list` and pass the interface's exact system name",
            ],
            Self::InvalidSnaplen { .. } => &[
                "--snaplen is how many bytes of each packet to keep",
                "65535 captures whole frames; smaller values truncate them",
            ],
            Self::InvalidCount { .. } => &[
                "--count is how many packets to capture before stopping",
                "omit --count to capture until you press Ctrl+C",
            ],
            Self::CapturePermissionDenied { .. } => &[
                "capturing packets needs more privileges than listing interfaces",
                "Windows: run this terminal as Administrator",
                "Linux:   run as root, or grant the binary CAP_NET_RAW and CAP_NET_ADMIN:",
                "         sudo setcap cap_net_raw,cap_net_admin=eip ./netsentry",
            ],
            Self::CaptureOpen { .. } => &[
                "check the interface still exists with `netsentry list`",
                "an interface that is down cannot be captured on",
                "capturing also needs elevated privileges (Administrator, or root/CAP_NET_RAW)",
            ],
            Self::CaptureRead { .. } => &[
                "the interface may have been removed or reconfigured mid-capture",
                "re-run `netsentry list` to check it is still present",
            ],
            Self::CaptureStatistics { .. } => &[
                "the captured packets are still correct; only the driver's own counters are missing",
                "not every capture source keeps statistics",
            ],
            Self::SignalHandler { .. } => &[
                "another handler for Ctrl+C may already be installed in this process",
            ],
            Self::CaptureFileMissing { .. } => &[
                "check the path; reading a capture file needs no privileges",
            ],
            Self::CaptureFilePermissionDenied { .. } => &[
                "the file exists but your user may not read it",
                "check its permissions, or ask its owner for a readable copy",
            ],
            Self::CaptureFileIsDirectory { .. } => &[
                "name a .pcap or .pcapng file inside the directory, not the directory itself",
            ],
            Self::CaptureFileUnreadable { .. } => &[
                "check that the file is a local, readable capture file",
            ],
            Self::CaptureFileFormat { .. } => &[
                "only pcap and pcapng captures can be read",
                "compressed captures (.gz, .zst) must be decompressed first",
            ],
            Self::CaptureFileCorrupt { .. } => &[
                "the packets before the damage were still analysed",
                "a capture whose writer was stopped mid-packet ends like this",
            ],
            Self::PathNotUtf8 { .. } => &[
                "choose an output path made of valid UTF-8 characters",
            ],
            Self::OutputFileExists { .. } => &[
                "choose a new file name, or pass --overwrite to replace the existing capture",
            ],
            Self::OutputFileUnwritable { .. } => &[
                "check that the directory exists and that you may write to it",
            ],
            Self::CaptureWriteFailed { .. } => &[
                "the disk may be full, or the file may have been removed mid-capture",
            ],
        };
        hints
    }
}

/// A string as `{:?}` writes it: quoted, with quotes, backslashes and
/// characters that do not print escaped.
pub uninterp spec fn debug_quoted(text: Seq<char>) -> Seq<char>;

/// A string as `{:?}` writes it, by `format!("{:?}", ..)` (the `Debug`
/// implementation of `str`).
///
/// The contract claims that the result is `debug_quoted` of the argument, a
/// function of the argument alone, which begins and ends with a double
/// quote. The escaping rules in between are left to std and not stated here.
#[verifier::external_body]
fn debug_text(text: &str) -> (quoted: String)
    ensures
        quoted@ == debug_quoted(text@),
        quoted@.len() >= 2,
        quoted@[0] == '"',
        quoted@.last() == '"',
{
    format!("{:?}", text)
}

/// Appends a string as `{:?}` writes it.
fn push_debug_quoted(out: &mut String, text: &str)
    ensures
        final(out)@ == old(out)@ + debug_quoted(text@),
        final(out)@.len() >= old(out)@.len() + 2,
        final(out)@[old(out)@.len() as int] == '"',
        final(out)@.last() == '"',
{
    let quoted = debug_text(text);
    push_str(out, quoted.as_str());
}

impl NetSentryError {
    /// The one-line statement of what went wrong.
    pub open spec fn spec_message(&self) -> Seq<char> {
        match self {
            NetSentryError::InterfaceEnumeration { .. } => "could not enumerate network interfaces"@,
            NetSentryError::NoInterfacesFound => "no network interfaces are visible to the capture driver"@,
            NetSentryError::InterfaceNotFound { selector, available } => "interface "@ + debug_quoted(
                selector@,
            ) + " not found ("@ + digits(*available as nat) + " interface(s) available)"@,
            NetSentryError::InterfaceIndexOutOfRange { index, available } => "interface #"@ + digits(
                *index as nat,
            ) + " not found ("@ + digits(*available as nat) + " interface(s) available)"@,
            NetSentryError::AmbiguousInterface { selector } => "interface "@ + debug_quoted(selector@)
                + " matches more than one interface"@,
            NetSentryError::InvalidSnaplen { value, min, max } => "invalid snapshot length "@ + digits(
                *value as nat,
            ) + ": must be between "@ + digits(*min as nat) + " and "@ + digits(*max as nat)
                + " bytes"@,
            NetSentryError::InvalidCount { value } => "invalid packet count "@ + digits(*value as nat)
                + ": must be at least 1"@,
            NetSentryError::CapturePermissionDenied { interface, .. } => "not allowed to capture on "@
                + debug_quoted(interface@),
            NetSentryError::CaptureOpen { interface, .. } => "could not open "@ + debug_quoted(
                interface@,
            ) + " for capture"@,
            NetSentryError::CaptureRead { .. } => "capture failed while reading packets"@,
            NetSentryError::CaptureStatistics { .. } => "capture statistics are unavailable"@,
            NetSentryError::SignalHandler { .. } => "could not install the Ctrl+C handler"@,
            NetSentryError::CaptureFileMissing { path } => "capture file not found: "@ + path@,
            NetSentryError::CaptureFilePermissionDenied { path } => "not allowed to read capture file: "@
                + path@,
            NetSentryError::CaptureFileIsDirectory { path } => "not a capture file but a directory: "@
                + path@,
            NetSentryError::CaptureFileUnreadable { path, .. } => "could not open capture file: "@
                + path@,
            NetSentryError::CaptureFileFormat { path, .. } => "not a capture file libpcap can read: "@
                + path@,
            NetSentryError::CaptureFileCorrupt { path, .. } => "capture file is truncated or corrupt: "@
                + path@,
            NetSentryError::PathNotUtf8 { path } => "output path is not valid UTF-8: "@ + path@,
            NetSentryError::OutputFileExists { path } => "refusing to overwrite existing file: "@ + path@,
            NetSentryError::OutputFileUnwritable { path, .. } => "could not create output file: "@
                + path@,
            NetSentryError::CaptureWriteFailed { path, .. } => "could not write capture file: "@ + path@,
        }
    }

    /// The underlying failure's own words, when there is one: the driver's
    /// message, or the operating system's reason.
    pub open spec fn spec_cause(&self) -> Option<Seq<char>> {
        match self {
            NetSentryError::InterfaceEnumeration { source } => Some(source@),
            NetSentryError::CapturePermissionDenied { source, .. } => Some(source@),
            NetSentryError::CaptureOpen { source, .. } => Some(source@),
            NetSentryError::CaptureRead { source } => Some(source@),
            NetSentryError::CaptureStatistics { source } => Some(source@),
            NetSentryError::SignalHandler { source } => Some(source@),
            NetSentryError::CaptureFileUnreadable { reason, .. } => Some(reason@),
            NetSentryError::CaptureFileFormat { source, .. } => Some(source@),
            NetSentryError::CaptureFileCorrupt { source, .. } => Some(source@),
            NetSentryError::OutputFileUnwritable { reason, .. } => Some(reason@),
            NetSentryError::CaptureWriteFailed { source, .. } => Some(source@),
            _ => None,
        }
    }

    /// What went wrong, in one line.
    pub fn message(&self) -> (message: String)
        ensures
            message@ == self.spec_message(),
    {
        let mut out = String::new();
        match self {
            NetSentryError::InterfaceEnumeration { .. } => push_str(&mut out, "could not enumerate network interfaces"),
            NetSentryError::NoInterfacesFound => push_str(&mut out, "no network interfaces are visible to the capture driver"),
            NetSentryError::InterfaceNotFound { selector, available } => {
                push_str(&mut out, "interface ");
                push_debug_quoted(&mut out, selector.as_str());
                push_str(&mut out, " not found (");
                push_u64(&mut out, *available as u64);
                push_str(&mut out, " interface(s) available)");
            },
            NetSentryError::InterfaceIndexOutOfRange { index, available } => {
                push_str(&mut out, "interface #");
                push_u64(&mut out, *index as u64);
                push_str(&mut out, " not found (");
                push_u64(&mut out, *available as u64);
                push_str(&mut out, " interface(s) available)");
            },
            NetSentryError::AmbiguousInterface { selector } => {
                push_str(&mut out, "interface ");
                push_debug_quoted(&mut out, selector.as_str());
                push_str(&mut out, " matches more than one interface");
            },
            NetSentryError::InvalidSnaplen { value, min, max } => {
                push_str(&mut out, "invalid snapshot length ");
                push_u64(&mut out, *value as u64);
                push_str(&mut out, ": must be between ");
                push_u64(&mut out, *min as u64);
                push_str(&mut out, " and ");
                push_u64(&mut out, *max as u64);
                push_str(&mut out, " bytes");
            },
            NetSentryError::InvalidCount { value } => {
                push_str(&mut out, "invalid packet count ");
                push_u64(&mut out, *value);
                push_str(&mut out, ": must be at least 1");
            },
            NetSentryError::CapturePermissionDenied { interface, .. } => {
                push_str(&mut out, "not allowed to capture on ");
                push_debug_quoted(&mut out, interface.as_str());
            },
            NetSentryError::CaptureOpen { interface, .. } => {
                push_str(&mut out, "could not open ");
                push_debug_quoted(&mut out, interface.as_str());
                push_str(&mut out, " for capture");
            },
            NetSentryError::CaptureRead { .. } => push_str(&mut out, "capture failed while reading packets"),
            NetSentryError::CaptureStatistics { .. } => push_str(&mut out, "capture statistics are unavailable"),
            NetSentryError::SignalHandler { .. } => push_str(&mut out, "could not install the Ctrl+C handler"),
            NetSentryError::CaptureFileMissing { path } => {
                push_str(&mut out, "capture file not found: ");
                push_str(&mut out, path.as_str());
            },
            NetSentryError::CaptureFilePermissionDenied { path } => {
                push_str(&mut out, "not allowed to read capture file: ");
                push_str(&mut out, path.as_str());
            },
            NetSentryError::CaptureFileIsDirectory { path } => {
                push_str(&mut out, "not a capture file but a directory: ");
                push_str(&mut out, path.as_str());
            },
            NetSentryError::CaptureFileUnreadable { path, .. } => {
                push_str(&mut out, "could not open capture file: ");
                push_str(&mut out, path.as_str());
            },
            NetSentryError::CaptureFileFormat { path, .. } => {
                push_str(&mut out, "not a capture file libpcap can read: ");
                push_str(&mut out, path.as_str());
            },
            NetSentryError::CaptureFileCorrupt { path, .. } => {
                push_str(&mut out, "capture file is truncated or corrupt: ");
                push_str(&mut out, path.as_str());
            },
            NetSentryError::PathNotUtf8 { path } => {
                push_str(&mut out, "output path is not valid UTF-8: ");
                push_str(&mut out, path.as_str());
            },
            NetSentryError::OutputFileExists { path } => {
                push_str(&mut out, "refusing to overwrite existing file: ");
                push_str(&mut out, path.as_str());
            },
            NetSentryError::OutputFileUnwritable { path, .. } => {
                push_str(&mut out, "could not create output file: ");
                push_str(&mut out, path.as_str());
            },
            NetSentryError::CaptureWriteFailed { path, .. } => {
                push_str(&mut out, "could not write capture file: ");
                push_str(&mut out, path.as_str());
            },
        }
        proof {
            assert(out@ =~= self.spec_message());
        }
        out
    }

    /// Why it went wrong, in the underlying failure's own words, when the
    /// failure came from the driver or the operating system.
    pub fn cause(&self) -> (cause: Option<&String>)
        ensures
            (match cause {
                Some(text) => Some(text@),
                None => None,
            }) == self.spec_cause(),
    {
        match self {
            NetSentryError::InterfaceEnumeration { source } => Some(source),
            NetSentryError::CapturePermissionDenied { source, .. } => Some(source),
            NetSentryError::CaptureOpen { source, .. } => Some(source),
            NetSentryError::CaptureRead { source } => Some(source),
            NetSentryError::CaptureStatistics { source } => Some(source),
            NetSentryError::SignalHandler { source } => Some(source),
            NetSentryError::CaptureFileUnreadable { reason, .. } => Some(reason),
            NetSentryError::CaptureFileFormat { source, .. } => Some(source),
            NetSentryError::CaptureFileCorrupt { source, .. } => Some(source),
            NetSentryError::OutputFileUnwritable { reason, .. } => Some(reason),
            NetSentryError::CaptureWriteFailed { source, .. } => Some(source),
            _ => None,
        }
    }
}

} // verus!
