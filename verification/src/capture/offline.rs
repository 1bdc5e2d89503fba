//! Decisions about reading a capture file.
//!
//! The path is user input, so the ordinary filesystem problems are diagnosed
//! by asking the operating system before libpcap is involved: libpcap reports
//! all of them as one English string, and telling them apart by reading that
//! text would be both fragile and untranslatable. Which error explains which
//! failure is decided here.

use vstd::prelude::*;

use crate::error::NetSentryError;

verus! {

/// How opening a file failed, as the operating system classifies it.
#[derive(Debug, Clone, Copy, PartialEq, Eq, Structural)]
pub enum OpenFailure {
    /// Nothing exists at the path.
    NotFound,
    /// Something exists there but may not be read.
    PermissionDenied,
    /// Any other reason.
    Other,
}

/// Maps a failure to open a capture file to the error that explains it.
///
/// A missing file and a refused one have errors of their own. Some platforms
/// refuse to open a directory at all, with a reason that differs between
/// them; asking what the path *is* answers that portably, so any other
/// failure on a directory is reported as one. Everything else keeps the
/// operating system's reason.
pub fn classify_file_open_error(
    path: String,
    failure: OpenFailure,
    is_directory: bool,
    reason: String,
) -> (error: NetSentryError)
    ensures
        failure == OpenFailure::NotFound ==> (error matches NetSentryError::CaptureFileMissing { path: p }
            && p@ == path@),
        failure == OpenFailure::PermissionDenied ==> (error matches NetSentryError::CaptureFilePermissionDenied {
            path: p,
        } && p@ == path@),
        failure == OpenFailure::Other && is_directory ==> (error matches NetSentryError::CaptureFileIsDirectory {
            path: p,
        } && p@ == path@),
        failure == OpenFailure::Other && !is_directory ==> (error matches NetSentryError::CaptureFileUnreadable {
            path: p,
            reason: r,
        } && p@ == path@ && r@ == reason@),
{
    match failure {
        OpenFailure::NotFound => NetSentryError::CaptureFileMissing { path },
        OpenFailure::PermissionDenied => NetSentryError::CaptureFilePermissionDenied { path },
        OpenFailure::Other => {
            if is_directory {
                NetSentryError::CaptureFileIsDirectory { path }
            } else {
                NetSentryError::CaptureFileUnreadable { path, reason }
            }
        },
    }
}

/// Decides whether a path that opened is a capture file to hand to libpcap.
///
/// Opening a directory *succeeds* on Unix, so a successful open is not proof
/// that there is a file here: a directory is refused.
pub fn check_opened(path: String, is_directory: bool) -> (verdict: Result<(), NetSentryError>)
    ensures
        !is_directory <==> verdict is Ok,
        is_directory ==> (verdict matches Err(NetSentryError::CaptureFileIsDirectory { path: p })
            && p@ == path@),
{
    if is_directory {
        Err(NetSentryError::CaptureFileIsDirectory { path })
    } else {
        Ok(())
    }
}

} // verus!
