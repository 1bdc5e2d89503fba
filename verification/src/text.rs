//! Building text: decimal and hexadecimal numbers, padding, and appending to
//! a `String`, each with the sequence of characters it produces.

use vstd::prelude::*;
use vstd::string::StrSliceExecFns;

verus! {

/// The character of a decimal digit.
pub open spec fn digit_char(d: nat) -> char
    recommends
        d < 10,
{
    (48 + d) as char
}

/// The decimal digits of `n`, without leading zeros (`"0"` for zero).
pub open spec fn digits(n: nat) -> Seq<char>
    decreases n,
{
    if n < 10 {
        seq![digit_char(n)]
    } else {
        digits(n / 10).push(digit_char(n % 10))
    }
}

/// The decimal text of a signed number, with a leading `-` when negative.
pub open spec fn signed_digits(n: int) -> Seq<char> {
    if n < 0 {
        seq!['-'] + digits((-n) as nat)
    } else {
        digits(n as nat)
    }
}

/// `count` copies of `c`.
pub open spec fn repeat(c: char, count: nat) -> Seq<char> {
    Seq::new(count, |_i: int| c)
}

/// `s` with `fill` added on the left until it is `width` characters long.
pub open spec fn pad_left(s: Seq<char>, width: nat, fill: char) -> Seq<char> {
    if s.len() >= width {
        s
    } else {
        repeat(fill, (width - s.len()) as nat) + s
    }
}

/// `s` with `fill` added on the right until it is `width` characters long.
pub open spec fn pad_right(s: Seq<char>, width: nat, fill: char) -> Seq<char> {
    if s.len() >= width {
        s
    } else {
        s + repeat(fill, (width - s.len()) as nat)
    }
}

/// A number zero-padded to `width` the way `{:0width$}` writes it: the sign,
/// then zeros, then the digits, `width` characters in all when they fit.
pub open spec fn zero_padded(n: int, width: nat) -> Seq<char> {
    if n < 0 {
        seq!['-'] + pad_left(digits((-n) as nat), if width >= 1 { (width - 1) as nat } else { 0 }, '0')
    } else {
        pad_left(digits(n as nat), width, '0')
    }
}

/// The lowercase hexadecimal character of a nibble.
pub open spec fn hex_char(d: nat) -> char
    recommends
        d < 16,
{
    if d < 10 {
        (48 + d) as char
    } else {
        (87 + d) as char
    }
}

/// A byte as two lowercase hexadecimal digits.
pub open spec fn hex2(b: u8) -> Seq<char> {
    seq![hex_char((b / 16) as nat), hex_char((b % 16) as nat)]
}

/// A 16-bit value as four lowercase hexadecimal digits.
pub open spec fn hex4(v: u16) -> Seq<char> {
    hex2((v / 256) as u8) + hex2((v % 256) as u8)
}

/// The lowercase hexadecimal digits of `n`, without leading zeros (`"0"` for
/// zero), as `{:x}` writes them.
pub open spec fn hex_digits(n: nat) -> Seq<char>
    decreases n,
{
    if n < 16 {
        seq![hex_char(n)]
    } else {
        hex_digits(n / 16).push(hex_char(n % 16))
    }
}

/// Appends one character to a string, by `String::push`.
///
/// The contract claims of `String::push` what its documentation says: the
/// string afterwards holds its old characters followed by `c`.
#[verifier::external_body]
pub(crate) fn push_char(out: &mut String, c: char)
    ensures
        final(out)@ == old(out)@.push(c),
{
    out.push(c);
}

/// Appends a string slice to a string.
pub fn push_str(out: &mut String, s: &str)
    ensures
        final(out)@ == old(out)@ + s@,
{
    out.append(s);
}

/// A new, empty string.
pub fn empty() -> (out: String)
    ensures
        out@ == Seq::<char>::empty(),
{
    String::new()
}

/// A string holding the characters of `s`.
pub fn text_of(s: &str) -> (out: String)
    ensures
        out@ == s@,
{
    let mut out = String::new();
    out.append(s);
    proof {
        assert(Seq::<char>::empty() + s@ =~= s@);
    }
    out
}

/// The character of a decimal digit.
fn digit(d: u64) -> (c: char)
    requires
        d < 10,
    ensures
        c == digit_char(d as nat),
{
    ((48 + d) as u8) as char
}

/// Appends the decimal digits of `n`.
pub fn push_u64(out: &mut String, n: u64)
    ensures
        final(out)@ == old(out)@ + digits(n as nat),
    decreases n,
{
    if n >= 10 {
        push_u64(out, n / 10);
    }
    push_char(out, digit(n % 10));
    proof {
        if n >= 10 {
            assert(old(out)@ + digits((n / 10) as nat) + seq![digit_char((n % 10) as nat)] =~= old(
                out,
            )@ + digits(n as nat));
        } else {
            assert(old(out)@.push(digit_char(n as nat)) =~= old(out)@ + digits(n as nat));
        }
    }
}

/// Appends the decimal text of `n`, with a leading `-` when it is negative.
pub fn push_i64(out: &mut String, n: i64)
    ensures
        final(out)@ == old(out)@ + signed_digits(n as int),
{
    if n < 0 {
        push_char(out, '-');
        let magnitude: u64 = if n == i64::MIN {
            9_223_372_036_854_775_808u64
        } else {
            (-n) as u64
        };
        push_u64(out, magnitude);
        proof {
            assert(old(out)@.push('-') + digits(magnitude as nat) =~= old(out)@ + (seq!['-']
                + digits(magnitude as nat)));
        }
    } else {
        push_u64(out, n as u64);
    }
}

/// The decimal digits of `n` as a new string.
pub fn u64_text(n: u64) -> (out: String)
    ensures
        out@ == digits(n as nat),
{
    let mut out = String::new();
    push_u64(&mut out, n);
    proof {
        assert(Seq::<char>::empty() + digits(n as nat) =~= digits(n as nat));
    }
    out
}

/// `digits(n)` is never empty.
pub proof fn lemma_digits_nonempty(n: nat)
    ensures
        digits(n).len() >= 1,
    decreases n,
{
    if n >= 10 {
        lemma_digits_nonempty(n / 10);
    }
}

/// Appends `count` copies of `c`.
pub fn push_repeat(out: &mut String, c: char, count: usize)
    ensures
        final(out)@ == old(out)@ + repeat(c, count as nat),
{
    let mut i: usize = 0;
    while i < count
        invariant
            i <= count,
            out@ == old(out)@ + repeat(c, i as nat),
        decreases count - i,
    {
        push_char(out, c);
        i = i + 1;
        proof {
            assert(old(out)@ + repeat(c, (i - 1) as nat) + seq![c] =~= old(out)@ + repeat(
                c,
                i as nat,
            ));
        }
    }
}

/// Appends `s`, padded on the right with `fill` to `width` characters.
pub fn push_padded_right(out: &mut String, s: &str, width: usize, fill: char)
    ensures
        final(out)@ == old(out)@ + pad_right(s@, width as nat, fill),
{
    let len = s.unicode_len();
    push_str(out, s);
    if len < width {
        push_repeat(out, fill, width - len);
        proof {
            assert(old(out)@ + s@ + repeat(fill, (width - len) as nat) =~= old(out)@ + pad_right(
                s@,
                width as nat,
                fill,
            ));
        }
    }
}

/// Appends `s`, padded on the left with `fill` to `width` characters.
pub fn push_padded_left(out: &mut String, s: &str, width: usize, fill: char)
    ensures
        final(out)@ == old(out)@ + pad_left(s@, width as nat, fill),
{
    let len = s.unicode_len();
    if len < width {
        push_repeat(out, fill, width - len);
        push_str(out, s);
        proof {
            assert(old(out)@ + repeat(fill, (width - len) as nat) + s@ =~= old(out)@ + pad_left(
                s@,
                width as nat,
                fill,
            ));
        }
    } else {
        push_str(out, s);
    }
}

/// Appends the decimal digits of `n`, zero-padded to `width`.
pub fn push_u64_zero_padded(out: &mut String, n: u64, width: usize)
    ensures
        final(out)@ == old(out)@ + pad_left(digits(n as nat), width as nat, '0'),
{
    let text = u64_text(n);
    push_padded_left(out, text.as_str(), width, '0');
}

/// Appends a signed number zero-padded to `width`, as `{:0width$}` writes it.
pub fn push_i64_zero_padded(out: &mut String, n: i64, width: usize)
    ensures
        final(out)@ == old(out)@ + zero_padded(n as int, width as nat),
{
    if n < 0 {
        push_char(out, '-');
        let magnitude: u64 = if n == i64::MIN {
            9_223_372_036_854_775_808u64
        } else {
            (-n) as u64
        };
        let inner = if width >= 1 {
            width - 1
        } else {
            0
        };
        push_u64_zero_padded(out, magnitude, inner);
        proof {
            assert(old(out)@.push('-') + pad_left(digits(magnitude as nat), inner as nat, '0')
                =~= old(out)@ + zero_padded(n as int, width as nat));
        }
    } else {
        push_u64_zero_padded(out, n as u64, width);
    }
}

/// Whether two strings hold the same characters.
pub fn str_equal(a: &str, b: &str) -> (equal: bool)
    ensures
        equal == (a@ == b@),
{
    let n = a.unicode_len();
    if n != b.unicode_len() {
        return false;
    }
    let mut i: usize = 0;
    while i < n
        invariant
            n == a@.len() == b@.len(),
            i <= n,
            forall|k: int| 0 <= k < i ==> a@[k] == b@[k],
        decreases n - i,
    {
        if a.get_char(i) != b.get_char(i) {
            return false;
        }
        i = i + 1;
    }
    assert(a@ =~= b@);
    true
}

/// Whether `c` has the Unicode `White_Space` property, as `char::is_whitespace`
/// reports it.
pub open spec fn is_white_space(c: char) -> bool {
    let v = c as u32;
    ||| 0x09 <= v <= 0x0d
    ||| v == 0x20
    ||| v == 0x85
    ||| v == 0xa0
    ||| v == 0x1680
    ||| 0x2000 <= v <= 0x200a
    ||| v == 0x2028
    ||| v == 0x2029
    ||| v == 0x202f
    ||| v == 0x205f
    ||| v == 0x3000
}

/// Whether `c` has the Unicode `White_Space` property.
pub fn white_space(c: char) -> (space: bool)
    ensures
        space == is_white_space(c),
{
    let v = c as u32;
    (0x09 <= v && v <= 0x0d) || v == 0x20 || v == 0x85 || v == 0xa0 || v == 0x1680 || (0x2000 <= v
        && v <= 0x200a) || v == 0x2028 || v == 0x2029 || v == 0x202f || v == 0x205f || v == 0x3000
}

/// Where the text of `s` starts once leading white space is dropped.
pub open spec fn trim_start_index(s: Seq<char>) -> int
    decreases s.len(),
{
    if s.len() == 0 || !is_white_space(s[0]) {
        0
    } else {
        1 + trim_start_index(s.drop_first())
    }
}

/// Where the text of `s` ends once trailing white space is dropped.
pub open spec fn trim_end_index(s: Seq<char>) -> int
    decreases s.len(),
{
    if s.len() == 0 || !is_white_space(s.last()) {
        s.len() as int
    } else {
        trim_end_index(s.drop_last())
    }
}

/// `s` without its leading and trailing white space (`str::trim`).
pub open spec fn trimmed(s: Seq<char>) -> Seq<char> {
    let start = trim_start_index(s);
    if start >= s.len() {
        Seq::empty()
    } else {
        s.subrange(start, trim_end_index(s))
    }
}

/// The bounds the trimming indices keep to.
proof fn lemma_trim_indices(s: Seq<char>)
    ensures
        0 <= trim_start_index(s) <= s.len(),
        0 <= trim_end_index(s) <= s.len(),
        forall|k: int| 0 <= k < trim_start_index(s) ==> is_white_space(#[trigger] s[k]),
        trim_start_index(s) < s.len() ==> !is_white_space(s[trim_start_index(s)]),
        forall|k: int| trim_end_index(s) <= k < s.len() ==> is_white_space(#[trigger] s[k]),
        trim_end_index(s) > 0 ==> !is_white_space(s[trim_end_index(s) - 1]),
        trim_start_index(s) < s.len() ==> trim_start_index(s) < trim_end_index(s),
    decreases s.len(),
{
    if s.len() > 0 {
        lemma_trim_indices(s.drop_first());
        lemma_trim_indices(s.drop_last());
        if is_white_space(s[0]) {
            assert forall|k: int| 0 <= k < trim_start_index(s) implies is_white_space(#[trigger] s[k]) by {
                if k > 0 {
                    assert(s[k] == s.drop_first()[k - 1]);
                }
            }
        }
        if is_white_space(s.last()) {
            assert forall|k: int| trim_end_index(s) <= k < s.len() implies is_white_space(#[trigger] s[k]) by {
                if k < s.len() - 1 {
                    assert(s[k] == s.drop_last()[k]);
                }
            }
        }
        if trim_start_index(s) < s.len() && trim_end_index(s) <= trim_start_index(s) {
            let k = trim_start_index(s);
            assert(is_white_space(s[k]));
        }
    }
}

/// `s` without its leading and trailing white space.
pub fn trim_white_space(s: &str) -> (text: &str)
    ensures
        text@ == trimmed(s@),
{
    let n = s.unicode_len();
    let mut start: usize = 0;
    while start < n && white_space(s.get_char(start))
        invariant
            n == s@.len(),
            start <= n,
            forall|k: int| 0 <= k < start ==> is_white_space(#[trigger] s@[k]),
        decreases n - start,
    {
        start = start + 1;
    }
    let mut end: usize = n;
    while end > start && white_space(s.get_char(end - 1))
        invariant
            n == s@.len(),
            start <= end <= n,
            forall|k: int| end <= k < n ==> is_white_space(#[trigger] s@[k]),
        decreases end - start,
    {
        end = end - 1;
    }
    proof {
        lemma_trim_indices(s@);
        lemma_trim_start_is_first(s@, start as int);
        if start < n {
            lemma_trim_end_is_last(s@, end as int);
        }
    }
    s.substring_char(start, end)
}

/// The first index holding something other than white space, when all before
/// it are white space, is where trimming starts.
proof fn lemma_trim_start_is_first(s: Seq<char>, start: int)
    requires
        0 <= start <= s.len(),
        forall|k: int| 0 <= k < start ==> is_white_space(#[trigger] s[k]),
        start < s.len() ==> !is_white_space(s[start]),
    ensures
        trim_start_index(s) == start,
    decreases s.len(),
{
    if s.len() > 0 && start > 0 {
        assert forall|k: int| 0 <= k < start - 1 implies is_white_space(#[trigger] s.drop_first()[k]) by {
            assert(s.drop_first()[k] == s[k + 1]);
        }
        if start < s.len() {
            assert(s.drop_first()[start - 1] == s[start]);
        }
        lemma_trim_start_is_first(s.drop_first(), start - 1);
    }
}

/// The index after the last one holding something other than white space,
/// when all from it on are white space, is where trimming ends.
proof fn lemma_trim_end_is_last(s: Seq<char>, end: int)
    requires
        0 < end <= s.len(),
        forall|k: int| end <= k < s.len() ==> is_white_space(#[trigger] s[k]),
        !is_white_space(s[end - 1]),
    ensures
        trim_end_index(s) == end,
    decreases s.len(),
{
    if end < s.len() {
        assert forall|k: int| end <= k < s.len() - 1 implies is_white_space(#[trigger] s.drop_last()[k]) by {
            assert(s.drop_last()[k] == s[k]);
        }
        assert(s.drop_last()[end - 1] == s[end - 1]);
        lemma_trim_end_is_last(s.drop_last(), end);
    }
}

/// The ASCII lowercase form of a character; any other character is kept.
pub open spec fn ascii_lower(c: char) -> char {
    if 'A' <= c <= 'Z' {
        ((c as u32) + 32) as char
    } else {
        c
    }
}

/// Whether two strings are equal once ASCII letters are folded to lowercase
/// (`str::eq_ignore_ascii_case`).
pub open spec fn equal_ignoring_ascii_case(a: Seq<char>, b: Seq<char>) -> bool {
    a.len() == b.len() && forall|k: int| 0 <= k < a.len() ==> ascii_lower(#[trigger] a[k]) == ascii_lower(b[k])
}

/// The ASCII lowercase form of a character.
pub fn lower_ascii(c: char) -> (lower: char)
    ensures
        lower == ascii_lower(c),
{
    if 'A' <= c && c <= 'Z' {
        ((c as u8) + 32) as char
    } else {
        c
    }
}

/// Whether two strings are equal once ASCII letters are folded to lowercase.
pub fn eq_ignore_ascii_case(a: &str, b: &str) -> (equal: bool)
    ensures
        equal == equal_ignoring_ascii_case(a@, b@),
{
    let n = a.unicode_len();
    if n != b.unicode_len() {
        return false;
    }
    let mut i: usize = 0;
    while i < n
        invariant
            n == a@.len() == b@.len(),
            i <= n,
            forall|k: int| 0 <= k < i ==> ascii_lower(#[trigger] a@[k]) == ascii_lower(b@[k]),
        decreases n - i,
    {
        if lower_ascii(a.get_char(i)) != lower_ascii(b.get_char(i)) {
            return false;
        }
        i = i + 1;
    }
    true
}

/// The ASCII lowercase form of every character of a string
/// (`str::to_ascii_lowercase`).
pub open spec fn lowered(s: Seq<char>) -> Seq<char> {
    s.map_values(|c: char| ascii_lower(c))
}

/// Whether `needle` occurs in `hay` as a run of consecutive characters.
pub open spec fn contains_text(hay: Seq<char>, needle: Seq<char>) -> bool {
    exists|i: int| 0 <= i <= hay.len() - needle.len() && #[trigger] hay.subrange(i, i + needle.len()) == needle
}

/// Whether `needle` occurs in the ASCII-lowercased form of `hay`.
pub fn contains_ignoring_ascii_case(hay: &str, needle: &str) -> (found: bool)
    ensures
        found == contains_text(lowered(hay@), needle@),
{
    let n = hay.unicode_len();
    let m = needle.unicode_len();
    if m > n {
        proof {
            assert forall|i: int| 0 <= i <= lowered(hay@).len() - needle@.len() implies #[trigger] lowered(
                hay@,
            ).subrange(i, i + needle@.len()) != needle@ by {}
        }
        return false;
    }
    let mut start: usize = 0;
    while start <= n - m
        invariant
            n == hay@.len(),
            m == needle@.len(),
            m <= n,
            start <= n - m + 1,
            forall|i: int| 0 <= i < start ==> #[trigger] lowered(hay@).subrange(i, i + m) != needle@,
        decreases n - m + 1 - start,
    {
        let mut k: usize = 0;
        let mut same = true;
        while k < m
            invariant
                n == hay@.len(),
                m == needle@.len(),
                start + m <= n,
                k <= m,
                same == forall|j: int| 0 <= j < k ==> ascii_lower(#[trigger] hay@[start + j]) == needle@[j],
            decreases m - k,
        {
            if lower_ascii(hay.get_char(start + k)) != needle.get_char(k) {
                same = false;
            }
            k = k + 1;
        }
        if same {
            proof {
                assert forall|j: int| 0 <= j < m implies #[trigger] lowered(hay@).subrange(
                    start as int,
                    start + m,
                )[j] == needle@[j] by {
                    assert(lowered(hay@)[start + j] == ascii_lower(hay@[start + j]));
                }
                assert(lowered(hay@).subrange(start as int, start + m) =~= needle@);
            }
            return true;
        }
        proof {
            let j = choose|j: int| 0 <= j < m && ascii_lower(#[trigger] hay@[start + j]) != needle@[j];
            assert(lowered(hay@)[start + j] == ascii_lower(hay@[start + j]));
            assert(lowered(hay@).subrange(start as int, start + m)[j] != needle@[j]);
        }
        start = start + 1;
    }
    false
}

/// The lowercase hexadecimal character of a nibble.
fn hex_digit(d: u64) -> (c: char)
    requires
        d < 16,
    ensures
        c == hex_char(d as nat),
{
    if d < 10 {
        ((48 + d) as u8) as char
    } else {
        ((87 + d) as u8) as char
    }
}

/// Appends the lowercase hexadecimal digits of `n`, without leading zeros.
pub fn push_hex(out: &mut String, n: u64)
    ensures
        final(out)@ == old(out)@ + hex_digits(n as nat),
    decreases n,
{
    if n >= 16 {
        push_hex(out, n / 16);
    }
    push_char(out, hex_digit(n % 16));
    proof {
        if n >= 16 {
            assert(old(out)@ + hex_digits((n / 16) as nat) + seq![hex_char((n % 16) as nat)] =~= old(
                out,
            )@ + hex_digits(n as nat));
        } else {
            assert(old(out)@.push(hex_char(n as nat)) =~= old(out)@ + hex_digits(n as nat));
        }
    }
}

/// Appends a byte as two lowercase hexadecimal digits.
pub fn push_hex2(out: &mut String, b: u8)
    ensures
        final(out)@ == old(out)@ + hex2(b),
{
    push_char(out, hex_digit((b / 16) as u64));
    push_char(out, hex_digit((b % 16) as u64));
    proof {
        assert(old(out)@.push(hex_char((b / 16) as nat)).push(hex_char((b % 16) as nat)) =~= old(out)@
            + hex2(b));
    }
}

/// Appends a 16-bit value as four lowercase hexadecimal digits.
pub fn push_hex4(out: &mut String, v: u16)
    ensures
        final(out)@ == old(out)@ + hex4(v),
{
    push_hex2(out, (v / 256) as u8);
    push_hex2(out, (v % 256) as u8);
    proof {
        assert(old(out)@ + hex2((v / 256) as u8) + hex2((v % 256) as u8) =~= old(out)@ + hex4(v));
    }
}

/// The decimal digits of a byte.
pub open spec fn byte_digits(value: u8) -> Seq<char> {
    digits(value as nat)
}

/// Appends the decimal digits of a byte.
pub fn push_u8(out: &mut String, value: u8)
    ensures
        final(out)@ == old(out)@ + byte_digits(value),
{
    push_u64(out, value as u64);
}

/// The decimal digits of a 16-bit value.
pub open spec fn word_digits(value: u16) -> Seq<char> {
    digits(value as nat)
}

/// Appends the decimal digits of a 16-bit value.
pub fn push_u16(out: &mut String, value: u16)
    ensures
        final(out)@ == old(out)@ + word_digits(value),
{
    push_u64(out, value as u64);
}

} // verus!
