//! Decisions about writing captured packets to a file.
//!
//! Writing a capture is the one thing NetSentry does that creates a lasting
//! copy of someone's traffic, so it is deliberately hard to do by accident:
//! an existing file is refused rather than replaced unless overwriting was
//! asked for, and the path is checked before the interface is opened, so a
//! mistyped path costs nothing.

use vstd::prelude::*;

use crate::error::NetSentryError;

verus! {

/// Decides whether a capture may be written to a path.
///
/// `path` is the path as text, `utf8` whether it is valid UTF-8 (libpcap's
/// binding cannot take one that is not), and `occupied` whether something is
/// already there. A non-UTF-8 path is refused first; then an existing file,
/// unless `overwrite` was asked for. A capture cannot be re-recorded, so
/// silently truncating one is not a recoverable mistake.
pub fn check_output_target(
    path: String,
    utf8: bool,
    occupied: bool,
    overwrite: bool,
) -> (verdict: Result<(), NetSentryError>)
    ensures
        !utf8 ==> (verdict matches Err(NetSentryError::PathNotUtf8 { path: p }) && p@ == path@),
        utf8 && occupied && !overwrite ==> (verdict matches Err(NetSentryError::OutputFileExists { path: p })
            && p@ == path@),
        utf8 && (!occupied || overwrite) ==> verdict is Ok,
{
    if !utf8 {
        return Err(NetSentryError::PathNotUtf8 { path });
    }
    if occupied && !overwrite {
        return Err(NetSentryError::OutputFileExists { path });
    }
    Ok(())
}

} // verus!
