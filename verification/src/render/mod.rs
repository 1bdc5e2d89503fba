//! Terminal rendering.
//!
//! Every function here is pure: data in, `String` out. Nothing touches the
//! network, the filesystem or stdout, so the whole presentation layer is
//! described by its contracts, and the same data could later be rendered as
//! JSON or handed to a UI without rewriting anything.

pub mod capture;
pub mod flow;
pub mod interfaces;
pub mod packet;
pub mod protocol;
pub mod size;
pub mod values;

pub use interfaces::{format_address, interface_list, netmask_to_prefix_len};

use vstd::prelude::*;

use crate::error::NetSentryError;
use crate::text::{push_char, push_str};

verus! {

/// The version printed in every banner.
pub const VERSION: &'static str = "0.4.0";

/// Whether a character is a control character (general category `Cc`), as
/// `char::is_control` reports it.
pub open spec fn is_control_char(c: char) -> bool {
    (c as u32) <= 0x1f || (0x7f <= (c as u32) && (c as u32) <= 0x9f)
}

/// Text made safe to print: every control character replaced with U+FFFD.
pub open spec fn sanitized(text: Seq<char>) -> Seq<char> {
    text.map_values(|c: char| if is_control_char(c) { '\u{FFFD}' } else { c })
}

/// Appends driver-supplied text made safe to print to a terminal.
///
/// Interface names and descriptions come from the operating system and are
/// not trusted: a control character or ANSI escape sequence in one would let
/// whatever wrote it move the cursor, recolour, or erase parts of the output.
/// Control characters are replaced with U+FFFD. The text is never truncated:
/// hiding part of an interface name would be worse than printing an ugly one.
pub fn push_sanitized(out: &mut String, text: &str)
    ensures
        final(out)@ == old(out)@ + sanitized(text@),
{
    let n = text.unicode_len();
    let mut i: usize = 0;
    while i < n
        invariant
            n == text@.len(),
            i <= n,
            out@ == old(out)@ + sanitized(text@).subrange(0, i as int),
        decreases n - i,
    {
        let c = text.get_char(i);
        let v = c as u32;
        if v <= 0x1f || (0x7f <= v && v <= 0x9f) {
            push_char(out, '\u{FFFD}');
        } else {
            push_char(out, c);
        }
        proof {
            assert(sanitized(text@).subrange(0, i + 1) =~= sanitized(text@).subrange(0, i as int).push(
                sanitized(text@)[i as int],
            ));
        }
        i = i + 1;
    }
    proof {
        assert(sanitized(text@).subrange(0, n as int) =~= sanitized(text@));
    }
}

/// The hint lines of an error report, from the `first`th hint on: the first
/// hint labelled `hint: `, the rest indented to match.
pub open spec fn hint_lines(hints: Seq<&'static str>, count: nat) -> Seq<char>
    decreases count,
{
    if count == 0 {
        Seq::empty()
    } else {
        hint_lines(hints, (count - 1) as nat) + (if count == 1 {
            "hint: "@
        } else {
            "      "@
        }) + seq![' '] + hints[count - 1]@ + seq!['\n']
    }
}

/// The report of a failure: what happened, why, and what to do about it.
pub open spec fn report_text(error: NetSentryError) -> Seq<char> {
    "error: "@ + error.spec_message() + seq!['\n'] + (match error.spec_cause() {
        Some(cause) => "cause: "@ + cause + seq!['\n'],
        None => Seq::empty(),
    }) + hint_lines(error.spec_hints(), error.spec_hints().len())
}

/// Renders a failure as *what happened*, *why*, and *what to do about it*.
///
/// A security tool is only useful if the person running it can tell "there
/// is nothing to see" from "I could not look", so the driver's or the
/// operating system's own words are kept in a `cause:` line.
pub fn error_report(error: &NetSentryError) -> (report: String)
    ensures
        report@ == report_text(*error),
{
    let mut out = String::new();
    push_str(&mut out, "error: ");
    let message = error.message();
    push_str(&mut out, message.as_str());
    push_char(&mut out, '\n');
    match error.cause() {
        Some(cause) => {
            push_str(&mut out, "cause: ");
            push_str(&mut out, cause.as_str());
            push_char(&mut out, '\n');
        },
        None => {},
    }
    let ghost head = out@;
    let hints = error.hints();
    let mut position: usize = 0;
    while position < hints.len()
        invariant
            position <= hints@.len(),
            hints@ == error.spec_hints(),
            out@ == head + hint_lines(hints@, position as nat),
        decreases hints@.len() - position,
    {
        if position == 0 {
            push_str(&mut out, "hint: ");
        } else {
            push_str(&mut out, "      ");
        }
        push_char(&mut out, ' ');
        push_str(&mut out, hints[position]);
        push_char(&mut out, '\n');
        proof {
            assert(out@ =~= head + hint_lines(hints@, (position + 1) as nat));
        }
        position = position + 1;
    }
    proof {
        assert(out@ =~= report_text(*error));
    }
    out
}

} // verus!
