//! Live capture decisions.
//!
//! Opening an interface and reading from it is the application's work; what
//! is decided about it is here: how long one read may block, and whether a
//! refusal to open was a privilege problem.

use vstd::prelude::*;

use crate::error::NetSentryError;
use crate::text::{contains_ignoring_ascii_case, contains_text, lowered, text_of};

verus! {

/// How long a single read may block before the loop regains control, in
/// milliseconds.
///
/// 250 ms is short enough that a Ctrl+C feels instant and long enough that an
/// idle interface costs four wake-ups per second rather than a spinning CPU.
/// Never zero: libpcap reads a timeout of 0 as "wait forever".
pub const READ_TIMEOUT_MS: i32 = 250;

/// The phrases that mark a refusal to open as a privilege problem.
pub open spec fn denial_phrases() -> Seq<Seq<char>> {
    seq![
        "permission denied"@,
        "operation not permitted"@,
        "you don't have permission"@,
        "access is denied"@,
        "not permitted"@,
    ]
}

/// Whether a driver message, read without regard to ASCII case, names a
/// privilege problem.
pub open spec fn names_denial(message: Seq<char>) -> bool {
    exists|k: int| 0 <= k < denial_phrases().len() && contains_text(lowered(message), #[trigger] denial_phrases()[k])
}

/// Decides whether a failure to open a capture was a privilege problem.
///
/// `message` is the capture driver's own description of the failure, which
/// is free text; this is a best-effort reading of it. It only ever changes
/// which advice the user is given: the generic error mentions privileges
/// too, because that is by far the most common cause.
pub fn classify_open_error(interface: &str, message: String) -> (error: NetSentryError)
    ensures
        names_denial(message@) ==> (error matches NetSentryError::CapturePermissionDenied {
            interface: named,
            source,
        } && named@ == interface@ && source@ == message@),
        !names_denial(message@) ==> (error matches NetSentryError::CaptureOpen { interface: named, source }
            && named@ == interface@ && source@ == message@),
{
    let phrases: [&str; 5] = [
        "permission denied",
        "operation not permitted",
        "you don't have permission",
        "access is denied",
        "not permitted",
    ];
    proof {
        assert(phrases@.map_values(|p: &str| p@) =~= denial_phrases());
    }
    let mut denied = false;
    let mut k: usize = 0;
    while k < 5
        invariant
            k <= 5,
            phrases@.map_values(|p: &str| p@) == denial_phrases(),
            denied == exists|j: int| 0 <= j < k && contains_text(lowered(message@), #[trigger] denial_phrases()[j]),
        decreases 5 - k,
    {
        if contains_ignoring_ascii_case(message.as_str(), phrases[k]) {
            proof {
                assert(denial_phrases()[k as int] == phrases@[k as int]@);
            }
            denied = true;
        } else {
            proof {
                assert(denial_phrases()[k as int] == phrases@[k as int]@);
            }
        }
        k = k + 1;
    }
    if denied {
        NetSentryError::CapturePermissionDenied { interface: text_of(interface), source: message }
    } else {
        NetSentryError::CaptureOpen { interface: text_of(interface), source: message }
    }
}

} // verus!
