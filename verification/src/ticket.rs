//! The receive-ticket text field: UTF-16 offsets (as the platform's input method speaks)
//! converted to UTF-8 byte offsets (as Rust strings are indexed), and the edits the field
//! accepts.

use vstd::prelude::*;
use vstd::utf8::*;
use core::ops::Range;
use crate::text::{chars_of, string_from_chars};

verus! {

/// The longest ticket the field accepts, in UTF-8 bytes.
pub const MAX_TICKET_LEN: usize = 16384;

/// The number of bytes of a character's UTF-8 encoding.
pub open spec fn utf8_width(c: char) -> nat {
    if (c as u32) < 0x80 {
        1
    } else if (c as u32) < 0x800 {
        2
    } else if (c as u32) < 0x10000 {
        3
    } else {
        4
    }
}

/// The number of UTF-16 code units that encode a character.
pub open spec fn utf16_width(c: char) -> nat {
    if (c as u32) < 0x10000 {
        1
    } else {
        2
    }
}

/// The UTF-8 length, in bytes, of a character sequence.
pub open spec fn utf8_len(s: Seq<char>) -> nat
    decreases s.len(),
{
    if s.len() == 0 {
        0
    } else {
        utf8_width(s[0]) + utf8_len(s.drop_first())
    }
}

/// The UTF-16 length, in code units, of a character sequence.
pub open spec fn utf16_len(s: Seq<char>) -> nat
    decreases s.len(),
{
    if s.len() == 0 {
        0
    } else {
        utf16_width(s[0]) + utf16_len(s.drop_first())
    }
}

/// The number of leading characters the UTF-16 offset `target` falls after: the first
/// `k` from `from` on whose prefix has at least `target` code units, else the length.
pub open spec fn chars_before_utf16(s: Seq<char>, target: int, from: int) -> int
    decreases s.len() - from,
{
    if from >= s.len() || utf16_len(s.take(from)) >= target {
        from
    } else {
        chars_before_utf16(s, target, from + 1)
    }
}

/// The UTF-8 byte offset at which the UTF-16 offset `target` lands in `s`, rounded up to
/// the next character boundary and capped at the end of `s`.
pub open spec fn utf16_to_byte_offset(s: Seq<char>, target: int) -> nat {
    utf8_len(s.take(chars_before_utf16(s, target, 0)))
}

/// Whether `offset` is the UTF-8 byte offset of a character boundary of `s`.
pub open spec fn is_byte_boundary(s: Seq<char>, offset: int) -> bool {
    exists|k: int| 0 <= k <= s.len() && #[trigger] utf8_len(s.take(k)) == offset
}

proof fn lemma_utf8_len_concat(a: Seq<char>, b: Seq<char>)
    ensures
        utf8_len(a + b) == utf8_len(a) + utf8_len(b),
    decreases a.len(),
{
    if a.len() > 0 {
        assert((a + b).drop_first() =~= a.drop_first() + b);
        lemma_utf8_len_concat(a.drop_first(), b);
    } else {
        assert(a + b =~= b);
    }
}

proof fn lemma_utf16_len_concat(a: Seq<char>, b: Seq<char>)
    ensures
        utf16_len(a + b) == utf16_len(a) + utf16_len(b),
    decreases a.len(),
{
    if a.len() > 0 {
        assert((a + b).drop_first() =~= a.drop_first() + b);
        lemma_utf16_len_concat(a.drop_first(), b);
    } else {
        assert(a + b =~= b);
    }
}

/// Extending a prefix by one character adds that character's widths.
proof fn lemma_prefix_step(s: Seq<char>, k: int)
    requires
        0 <= k < s.len(),
    ensures
        utf8_len(s.take(k + 1)) == utf8_len(s.take(k)) + utf8_width(s[k]),
        utf16_len(s.take(k + 1)) == utf16_len(s.take(k)) + utf16_width(s[k]),
{
    let one = seq![s[k]];
    assert(s.take(k + 1) =~= s.take(k) + one);
    assert(one.drop_first() =~= Seq::<char>::empty());
    assert(utf8_len(one) == utf8_width(s[k]) + utf8_len(one.drop_first()));
    assert(utf16_len(one) == utf16_width(s[k]) + utf16_len(one.drop_first()));
    lemma_utf8_len_concat(s.take(k), one);
    lemma_utf16_len_concat(s.take(k), one);
}

/// Longer prefixes are strictly longer in UTF-8.
proof fn lemma_prefix_strictly_increasing(s: Seq<char>, j: int, k: int)
    requires
        0 <= j < k <= s.len(),
    ensures
        utf8_len(s.take(j)) < utf8_len(s.take(k)),
    decreases k - j,
{
    lemma_prefix_step(s, k - 1);
    if j < k - 1 {
        lemma_prefix_strictly_increasing(s, j, k - 1);
    }
}

/// The UTF-8 length is the length of the standard encoding.
proof fn lemma_utf8_len_is_encoding_len(s: Seq<char>)
    ensures
        utf8_len(s) == encode_utf8(s).len(),
    decreases s.len(),
{
    if s.len() > 0 {
        char_is_scalar(s[0]);
        lemma_utf8_len_is_encoding_len(s.drop_first());
    }
}

/// The byte length of a string slice, as `str::len` gives it.
fn byte_len(s: &str) -> (res: usize)
    ensures
        res == utf8_len(s@),
{
    proof {
        lemma_utf8_len_is_encoding_len(s@);
    }
    let bytes = s.as_bytes();
    bytes.len()
}

fn char_utf8_width(c: char) -> (res: usize)
    ensures
        res == utf8_width(c),
{
    let v = c as u32;
    if v < 0x80 {
        1
    } else if v < 0x800 {
        2
    } else if v < 0x10000 {
        3
    } else {
        4
    }
}

fn char_utf16_width(c: char) -> (res: usize)
    ensures
        res == utf16_width(c),
{
    if (c as u32) < 0x10000 {
        1
    } else {
        2
    }
}

proof fn lemma_prefix_bounded(s: Seq<char>, k: int)
    requires
        0 <= k <= s.len(),
    ensures
        utf8_len(s.take(k)) <= utf8_len(s),
        utf16_len(s.take(k)) <= utf8_len(s),
    decreases s.len() - k,
{
    if k < s.len() {
        lemma_prefix_step(s, k);
        lemma_prefix_bounded(s, k + 1);
    } else {
        assert(s.take(k) =~= s);
        lemma_utf16_le_utf8(s);
    }
}

proof fn lemma_utf16_le_utf8(s: Seq<char>)
    ensures
        utf16_len(s) <= utf8_len(s),
    decreases s.len(),
{
    if s.len() > 0 {
        lemma_utf16_le_utf8(s.drop_first());
    }
}

/// Converts a UTF-16 offset to the UTF-8 byte offset of the character it falls at.
fn utf16_offset_to_byte(chars: &Vec<char>, total: usize, target: usize) -> (res: usize)
    requires
        total == utf8_len(chars@),
    ensures
        res == utf16_to_byte_offset(chars@, target as int),
{
    let n = chars.len();
    let mut k: usize = 0;
    let mut bytes: usize = 0;
    let mut units: usize = 0;
    assert(chars@.take(0) =~= Seq::<char>::empty());
    while k < n
        invariant
            k <= n == chars@.len(),
            total == utf8_len(chars@),
            bytes == utf8_len(chars@.take(k as int)),
            units == utf16_len(chars@.take(k as int)),
            chars_before_utf16(chars@, target as int, 0) == chars_before_utf16(
                chars@,
                target as int,
                k as int,
            ),
        decreases n - k,
    {
        if units >= target {
            return bytes;
        }
        proof {
            lemma_prefix_step(chars@, k as int);
            lemma_prefix_bounded(chars@, k + 1);
        }
        bytes = bytes + char_utf8_width(chars[k]);
        units = units + char_utf16_width(chars[k]);
        k = k + 1;
    }
    assert(chars@.take(n as int) =~= chars@);
    total
}

/// Maps a range of UTF-16 offsets to the byte range of the characters it covers; an
/// offset inside a surrogate pair rounds up to the next character, and offsets past the
/// end land at the end.
pub fn utf16_to_byte_range(text: &str, range: Range<usize>) -> (res: Range<usize>)
    ensures
        res.start == utf16_to_byte_offset(text@, range.start as int),
        res.end == utf16_to_byte_offset(text@, range.end as int),
{
    let chars = chars_of(text);
    let total = byte_len(text);
    let start = utf16_offset_to_byte(&chars, total, range.start);
    let end = utf16_offset_to_byte(&chars, total, range.end);
    start..end
}

/// The number of UTF-16 code units before the character boundary at byte `offset`.
fn utf16_units_before(chars: &Vec<char>, offset: usize) -> (res: usize)
    requires
        is_byte_boundary(chars@, offset as int),
    ensures
        forall|k: int|
            0 <= k <= chars@.len() && utf8_len(chars@.take(k)) == offset ==> res == utf16_len(
                chars@.take(k),
            ),
{
    let ghost kk = choose|k: int| 0 <= k <= chars@.len() && #[trigger] utf8_len(chars@.take(k)) == offset;
    let n = chars.len();
    let mut k: usize = 0;
    let mut bytes: usize = 0;
    let mut units: usize = 0;
    assert(chars@.take(0) =~= Seq::<char>::empty());
    while bytes < offset
        invariant
            k <= n == chars@.len(),
            0 <= kk <= chars@.len(),
            utf8_len(chars@.take(kk)) == offset,
            bytes == utf8_len(chars@.take(k as int)),
            units == utf16_len(chars@.take(k as int)),
            k <= kk,
        decreases kk - k,
    {
        proof {
            if kk == k {
                assert(false);
            }
            lemma_prefix_step(chars@, k as int);
            lemma_prefix_bounded(chars@, k + 1);
            lemma_prefix_bounded(chars@, kk);
            lemma_utf16_le_utf8(chars@.take(k + 1));
            if k + 1 < kk {
                lemma_prefix_strictly_increasing(chars@, k + 1, kk);
            }
        }
        bytes = bytes + char_utf8_width(chars[k]);
        units = units + char_utf16_width(chars[k]);
        k = k + 1;
    }
    proof {
        if k < kk {
            lemma_prefix_strictly_increasing(chars@, k as int, kk);
        }
        assert(k == kk);
        assert forall|j: int|
            0 <= j <= chars@.len() && utf8_len(chars@.take(j)) == offset implies units
            == utf16_len(chars@.take(j)) by {
            if j < k {
                lemma_prefix_strictly_increasing(chars@, j, k as int);
            } else if j > k {
                lemma_prefix_strictly_increasing(chars@, k as int, j);
            }
        }
    }
    units
}

/// Maps a byte range whose ends are character boundaries to UTF-16 offsets.
pub fn byte_to_utf16_range(text: &str, range: Range<usize>) -> (res: Range<usize>)
    requires
        is_byte_boundary(text@, range.start as int),
        is_byte_boundary(text@, range.end as int),
    ensures
        forall|k: int|
            0 <= k <= text@.len() && utf8_len(text@.take(k)) == range.start ==> res.start
                == utf16_len(#[trigger] text@.take(k)),
        forall|k: int|
            0 <= k <= text@.len() && utf8_len(text@.take(k)) == range.end ==> res.end
                == utf16_len(#[trigger] text@.take(k)),
{
    let chars = chars_of(text);
    let start = utf16_units_before(&chars, range.start);
    let end = utf16_units_before(&chars, range.end);
    start..end
}

/// The number of leading characters before byte offset `target`: the first `k` from
/// `from` on whose prefix has at least `target` bytes, else the length.
pub open spec fn chars_before_byte(s: Seq<char>, target: int, from: int) -> int
    decreases s.len() - from,
{
    if from >= s.len() || utf8_len(s.take(from)) >= target {
        from
    } else {
        chars_before_byte(s, target, from + 1)
    }
}

proof fn lemma_chars_before_boundary(s: Seq<char>, k: int, from: int)
    requires
        0 <= from <= k <= s.len(),
    ensures
        chars_before_byte(s, utf8_len(s.take(k)) as int, from) == k,
    decreases k - from,
{
    if from < k {
        lemma_prefix_strictly_increasing(s, from, k);
        lemma_chars_before_boundary(s, k, from + 1);
    }
}

/// The character index of the boundary at byte offset `offset`.
fn char_index_of_byte(chars: &Vec<char>, offset: usize) -> (res: usize)
    requires
        is_byte_boundary(chars@, offset as int),
    ensures
        res <= chars@.len(),
        utf8_len(chars@.take(res as int)) == offset,
        res == chars_before_byte(chars@, offset as int, 0),
{
    let ghost kk = choose|k: int| 0 <= k <= chars@.len() && #[trigger] utf8_len(chars@.take(k)) == offset;
    proof {
        lemma_chars_before_boundary(chars@, kk, 0);
    }
    let n = chars.len();
    let mut k: usize = 0;
    let mut bytes: usize = 0;
    assert(chars@.take(0) =~= Seq::<char>::empty());
    while bytes < offset
        invariant
            k <= n == chars@.len(),
            0 <= kk <= chars@.len(),
            utf8_len(chars@.take(kk)) == offset,
            bytes == utf8_len(chars@.take(k as int)),
            k <= kk,
        decreases kk - k,
    {
        proof {
            if kk == k {
                assert(false);
            }
            lemma_prefix_step(chars@, k as int);
            lemma_prefix_bounded(chars@, kk);
            if k + 1 < kk {
                lemma_prefix_strictly_increasing(chars@, k + 1, kk);
            }
        }
        bytes = bytes + char_utf8_width(chars[k]);
        k = k + 1;
    }
    proof {
        if k < kk {
            lemma_prefix_strictly_increasing(chars@, k as int, kk);
        }
    }
    k
}

/// A string of `chars[..start] + inserted + chars[end..]`.
fn splice(chars: &Vec<char>, start: usize, end: usize, inserted: &Vec<char>) -> (res: String)
    requires
        start <= end <= chars@.len(),
    ensures
        res@ == chars@.take(start as int) + inserted@ + chars@.skip(end as int),
{
    let mut joined: Vec<char> = Vec::new();
    let mut i: usize = 0;
    while i < start
        invariant
            i <= start <= end <= chars@.len(),
            joined@ == chars@.take(i as int),
        decreases start - i,
    {
        joined.push(chars[i]);
        assert(chars@.take(i + 1) =~= chars@.take(i as int).push(chars@[i as int]));
        i = i + 1;
    }
    let mut j: usize = 0;
    while j < inserted.len()
        invariant
            j <= inserted@.len(),
            joined@ == chars@.take(start as int) + inserted@.take(j as int),
        decreases inserted@.len() - j,
    {
        joined.push(inserted[j]);
        assert(inserted@.take(j + 1) =~= inserted@.take(j as int).push(inserted@[j as int]));
        j = j + 1;
    }
    assert(inserted@.take(inserted@.len() as int) =~= inserted@);
    let mut m: usize = end;
    assert(chars@.subrange(end as int, end as int) =~= Seq::<char>::empty());
    while m < chars.len()
        invariant
            end <= m <= chars@.len(),
            joined@ == chars@.take(start as int) + inserted@ + chars@.subrange(end as int, m as int),
        decreases chars@.len() - m,
    {
        joined.push(chars[m]);
        assert(chars@.subrange(end as int, m + 1) =~= chars@.subrange(end as int, m as int).push(chars@[m as int]));
        m = m + 1;
    }
    assert(chars@.subrange(end as int, chars@.len() as int) =~= chars@.skip(end as int));
    let len = joined.len();
    let res = string_from_chars(&joined, 0, len);
    assert(joined@.subrange(0, len as int) =~= joined@);
    res
}

/// Whether `c` is white space in the sense of Unicode's `White_Space` property, which
/// `char::is_whitespace` and `str::trim` use.
pub open spec fn is_unicode_whitespace(c: char) -> bool {
    let v = c as u32;
    ||| 0x09 <= v <= 0x0D
    ||| v == 0x20
    ||| v == 0x85
    ||| v == 0xA0
    ||| v == 0x1680
    ||| 0x2000 <= v <= 0x200A
    ||| v == 0x2028
    ||| v == 0x2029
    ||| v == 0x202F
    ||| v == 0x205F
    ||| v == 0x3000
}

fn is_whitespace_char(c: char) -> (res: bool)
    ensures
        res == is_unicode_whitespace(c),
{
    let v = c as u32;
    (0x09 <= v && v <= 0x0D) || v == 0x20 || v == 0x85 || v == 0xA0 || v == 0x1680 || (0x2000
        <= v && v <= 0x200A) || v == 0x2028 || v == 0x2029 || v == 0x202F || v == 0x205F || v
        == 0x3000
}

/// `s` without leading white space.
pub open spec fn trim_start_ws(s: Seq<char>) -> Seq<char>
    decreases s.len(),
{
    if s.len() > 0 && is_unicode_whitespace(s[0]) {
        trim_start_ws(s.drop_first())
    } else {
        s
    }
}

/// `s` without trailing white space.
pub open spec fn trim_end_ws(s: Seq<char>) -> Seq<char>
    decreases s.len(),
{
    if s.len() > 0 && is_unicode_whitespace(s.last()) {
        trim_end_ws(s.drop_last())
    } else {
        s
    }
}

/// `s` without leading and trailing white space, as `str::trim` gives it.
pub open spec fn trim_ws(s: Seq<char>) -> Seq<char> {
    trim_end_ws(trim_start_ws(s))
}

/// The characters of `s` without leading and trailing white space.
pub fn trim_whitespace(s: &str) -> (res: String)
    ensures
        res@ == trim_ws(s@),
{
    let chars = chars_of(s);
    let n = chars.len();
    let mut a: usize = 0;
    assert(chars@.skip(0) =~= chars@);
    while a < n && is_whitespace_char(chars[a])
        invariant
            a <= n == chars@.len(),
            trim_start_ws(chars@) == trim_start_ws(chars@.skip(a as int)),
        decreases n - a,
    {
        assert(chars@.skip(a as int).drop_first() =~= chars@.skip(a + 1));
        a = a + 1;
    }
    let ghost front = chars@.skip(a as int);
    assert(trim_start_ws(front) == front);
    let mut b: usize = n;
    assert(chars@.subrange(a as int, n as int) =~= front);
    while b > a && is_whitespace_char(chars[b - 1])
        invariant
            a <= b <= n == chars@.len(),
            trim_end_ws(front) == trim_end_ws(chars@.subrange(a as int, b as int)),
        decreases b - a,
    {
        assert(chars@.subrange(a as int, b as int).drop_last() =~= chars@.subrange(a as int, b - 1));
        b = b - 1;
    }
    string_from_chars(&chars, a, b)
}

/// The smaller of two integers.
pub open spec fn min_int(a: int, b: int) -> int {
    if a <= b {
        a
    } else {
        b
    }
}

/// The byte range an edit replaces: the given UTF-16 range mapped to bytes, or the
/// selection where none is given, each end capped at the end of the text.
pub open spec fn edit_bounds(text: Seq<char>, selected: (int, int), range: Option<Range<usize>>) -> (
    int,
    int,
) {
    let bytes = match range {
        Some(r) => (
            utf16_to_byte_offset(text, r.start as int) as int,
            utf16_to_byte_offset(text, r.end as int) as int,
        ),
        None => selected,
    };
    (min_int(bytes.0, utf8_len(text) as int), min_int(bytes.1, utf8_len(text) as int))
}

/// Whether an edit replacing bytes `start..end` of `text` with `inserted` is applied:
/// the range must not be reversed and the result must fit the ticket length limit.
pub open spec fn edit_accepted(text: Seq<char>, start: int, end: int, inserted: Seq<char>) -> bool {
    start <= end && utf8_len(text) - (end - start) + utf8_len(inserted) <= MAX_TICKET_LEN
}

/// The text after replacing bytes `start..end` (character boundaries) with `inserted`.
pub open spec fn edited_text(text: Seq<char>, start: int, end: int, inserted: Seq<char>) -> Seq<
    char,
> {
    text.take(chars_before_byte(text, start, 0)) + inserted + text.skip(chars_before_byte(text, end, 0))
}

proof fn lemma_chars_before_utf16_bounds(s: Seq<char>, target: int, from: int)
    requires
        0 <= from <= s.len(),
    ensures
        from <= chars_before_utf16(s, target, from) <= s.len(),
    decreases s.len() - from,
{
    if !(from >= s.len() || utf16_len(s.take(from)) >= target) {
        lemma_chars_before_utf16_bounds(s, target, from + 1);
    }
}

proof fn lemma_end_is_boundary(s: Seq<char>)
    ensures
        utf8_len(s.take(s.len() as int)) == utf8_len(s),
        is_byte_boundary(s, utf8_len(s) as int),
{
    assert(s.take(s.len() as int) =~= s);
}

proof fn lemma_utf16_offset_is_boundary(s: Seq<char>, target: int)
    ensures
        is_byte_boundary(s, utf16_to_byte_offset(s, target) as int),
        utf16_to_byte_offset(s, target) <= utf8_len(s),
{
    let k = chars_before_utf16(s, target, 0);
    lemma_chars_before_utf16_bounds(s, target, 0);
    lemma_prefix_bounded(s, k);
    assert(utf8_len(s.take(k)) == utf16_to_byte_offset(s, target));
}

proof fn lemma_utf16_prefix_strictly_increasing(s: Seq<char>, j: int, k: int)
    requires
        0 <= j < k <= s.len(),
    ensures
        utf16_len(s.take(j)) < utf16_len(s.take(k)),
    decreases k - j,
{
    lemma_prefix_step(s, k - 1);
    if j < k - 1 {
        lemma_utf16_prefix_strictly_increasing(s, j, k - 1);
    }
}

proof fn lemma_chars_before_utf16_at(s: Seq<char>, k: int, from: int)
    requires
        0 <= from <= k <= s.len(),
    ensures
        chars_before_utf16(s, utf16_len(s.take(k)) as int, from) == k,
    decreases k - from,
{
    if from < k {
        lemma_utf16_prefix_strictly_increasing(s, from, k);
        lemma_chars_before_utf16_at(s, k, from + 1);
    }
}

/// UTF-16 and UTF-8 offsets of the same character boundary correspond both ways: the
/// UTF-16 offset of a boundary maps to its byte offset, and that byte offset maps back.
pub proof fn lemma_offsets_round_trip(s: Seq<char>, k: int)
    requires
        0 <= k <= s.len(),
    ensures
        utf16_to_byte_offset(s, utf16_len(s.take(k)) as int) == utf8_len(s.take(k)),
        is_byte_boundary(s, utf8_len(s.take(k)) as int),
        chars_before_byte(s, utf8_len(s.take(k)) as int, 0) == k,
{
    lemma_chars_before_utf16_at(s, k, 0);
    lemma_chars_before_boundary(s, k, 0);
}

/// An accepted edit leaves a text of exactly the kept bytes plus the inserted ones, which
/// is within the ticket length limit.
pub proof fn lemma_edit_within_limit(text: Seq<char>, start: int, end: int, inserted: Seq<char>)
    requires
        is_byte_boundary(text, start),
        is_byte_boundary(text, end),
        edit_accepted(text, start, end, inserted),
    ensures
        utf8_len(edited_text(text, start, end, inserted)) == utf8_len(text) - (end - start)
            + utf8_len(inserted),
        utf8_len(edited_text(text, start, end, inserted)) <= MAX_TICKET_LEN,
{
    let ks = choose|k: int| 0 <= k <= text.len() && #[trigger] utf8_len(text.take(k)) == start;
    let ke = choose|k: int| 0 <= k <= text.len() && #[trigger] utf8_len(text.take(k)) == end;
    lemma_chars_before_boundary(text, ks, 0);
    lemma_chars_before_boundary(text, ke, 0);
    assert(text =~= text.take(ke) + text.skip(ke));
    lemma_utf8_len_concat(text.take(ke), text.skip(ke));
    lemma_utf8_len_concat(text.take(ks) + inserted, text.skip(ke));
    lemma_utf8_len_concat(text.take(ks), inserted);
}

/// An edit between two character boundaries, in order, whose result fits the ticket
/// limit is applied, also when it inserts nothing: the characters between the two
/// boundaries give way to the inserted ones, so an empty insertion deletes them.
pub proof fn lemma_fitting_edit_applied(text: Seq<char>, ks: int, ke: int, inserted: Seq<char>)
    requires
        0 <= ks <= ke <= text.len(),
        utf8_len(text) - (utf8_len(text.take(ke)) - utf8_len(text.take(ks))) + utf8_len(inserted)
            <= MAX_TICKET_LEN,
    ensures
        utf8_len(text.take(ks)) <= utf8_len(text.take(ke)) <= utf8_len(text),
        edit_accepted(
            text,
            utf8_len(text.take(ks)) as int,
            utf8_len(text.take(ke)) as int,
            inserted,
        ),
        edited_text(text, utf8_len(text.take(ks)) as int, utf8_len(text.take(ke)) as int, inserted)
            == text.take(ks) + inserted + text.skip(ke),
        edited_text(
            text,
            utf8_len(text.take(ks)) as int,
            utf8_len(text.take(ke)) as int,
            Seq::<char>::empty(),
        ) == text.take(ks) + text.skip(ke),
{
    if ks < ke {
        lemma_prefix_strictly_increasing(text, ks, ke);
    }
    lemma_prefix_bounded(text, ke);
    lemma_chars_before_boundary(text, ks, 0);
    lemma_chars_before_boundary(text, ke, 0);
    assert(text.take(ks) + Seq::<char>::empty() =~= text.take(ks));
}

/// An edit between two character boundaries is dropped where the second boundary comes
/// before the first, or where the result would be longer than the ticket limit.
pub proof fn lemma_unfitting_edit_dropped(text: Seq<char>, ks: int, ke: int, inserted: Seq<char>)
    requires
        0 <= ks <= text.len(),
        0 <= ke <= text.len(),
        ke < ks || utf8_len(text) - (utf8_len(text.take(ke)) - utf8_len(text.take(ks)))
            + utf8_len(inserted) > MAX_TICKET_LEN,
    ensures
        utf8_len(text.take(ks)) <= utf8_len(text),
        utf8_len(text.take(ke)) <= utf8_len(text),
        !edit_accepted(
            text,
            utf8_len(text.take(ks)) as int,
            utf8_len(text.take(ke)) as int,
            inserted,
        ),
{
    lemma_prefix_bounded(text, ks);
    lemma_prefix_bounded(text, ke);
    if ke < ks {
        lemma_prefix_strictly_increasing(text, ke, ks);
    }
}

/// The ticket field's state after clearing or pasting: its text and the selected
/// byte range, whose ends are character boundaries unless the text was cleared under it.
pub struct TicketInput {
    text: String,
    selection: Range<usize>,
}

impl TicketInput {
    #[verifier::type_invariant]
    spec fn well_formed(self) -> bool {
        self.text@.len() == 0 || (is_byte_boundary(self.text@, self.selection.start as int)
            && is_byte_boundary(self.text@, self.selection.end as int))
    }

    /// The characters in the field.
    pub closed spec fn contents(self) -> Seq<char> {
        self.text@
    }

    /// The selected byte range (start, end).
    pub closed spec fn selected(self) -> (int, int) {
        (self.selection.start as int, self.selection.end as int)
    }

    /// Whether the selection lies on character boundaries of the text.
    pub open spec fn selection_on_boundaries(self) -> bool {
        is_byte_boundary(self.contents(), self.selected().0) && is_byte_boundary(
            self.contents(),
            self.selected().1,
        )
    }

    /// An empty field with the caret at the start.
    pub fn new() -> (res: TicketInput)
        ensures
            res.contents() == Seq::<char>::empty(),
            res.selected() == (0int, 0int),
    {
        TicketInput { text: String::new(), selection: 0..0 }
    }

    /// The text in the field.
    pub fn as_str(&self) -> (res: &str)
        ensures
            res@ == self.contents(),
    {
        self.text.as_str()
    }

    /// The selected byte range.
    pub fn selection(&self) -> (res: Range<usize>)
        ensures
            res.start == self.selected().0,
            res.end == self.selected().1,
    {
        self.selection.start..self.selection.end
    }

    /// Whether the selection lies on character boundaries of the text.
    pub fn selection_in_bounds(&self) -> (res: bool)
        ensures
            res == self.selection_on_boundaries(),
    {
        proof {
            use_type_invariant(self);
        }
        let chars = chars_of(self.text.as_str());
        let total = byte_len(self.text.as_str());
        let ok_start = is_boundary_offset(&chars, total, self.selection.start);
        let ok_end = is_boundary_offset(&chars, total, self.selection.end);
        ok_start && ok_end
    }

    /// Replaces the text with pasted text and puts the caret after it.
    pub fn paste(&mut self, text: String)
        ensures
            final(self).contents() == text@,
            final(self).selected() == (utf8_len(text@) as int, utf8_len(text@) as int),
    {
        let len = byte_len(text.as_str());
        proof {
            assert(text@.take(text@.len() as int) =~= text@);
            assert(utf8_len(text@.take(text@.len() as int)) == len);
        }
        *self = TicketInput { text, selection: len..len };
    }

    /// Empties the text, leaving the selection where it was.
    pub fn clear(&mut self)
        ensures
            final(self).contents() == Seq::<char>::empty(),
            final(self).selected() == old(self).selected(),
    {
        self.text = String::new();
    }

    /// The text without leading and trailing white space.
    pub fn trimmed(&self) -> (res: String)
        ensures
            res@ == trim_ws(self.contents()),
    {
        trim_whitespace(self.text.as_str())
    }

    /// Replaces bytes of the text with `inserted` and puts the caret after the insertion.
    /// The replaced range is `range` (UTF-16 offsets) or, where none is given, the
    /// selection; the edit is dropped where that range is reversed or the result would be
    /// longer than the ticket limit.
    pub fn replace(&mut self, range: Option<Range<usize>>, inserted: &str)
        ensures
            ({
                let (start, end) = edit_bounds(old(self).contents(), old(self).selected(), range);
                if edit_accepted(old(self).contents(), start, end, inserted@) {
                    &&& final(self).contents() == edited_text(
                        old(self).contents(),
                        start,
                        end,
                        inserted@,
                    )
                    &&& final(self).selected() == (
                        start + utf8_len(inserted@),
                        start + utf8_len(inserted@),
                    )
                } else {
                    &&& final(self).contents() == old(self).contents()
                    &&& final(self).selected() == old(self).selected()
                }
            }),
    {
        proof {
            use_type_invariant(&*self);
        }
        let ghost text = self.text@;
        let chars = chars_of(self.text.as_str());
        let total = byte_len(self.text.as_str());
        let (raw_start, raw_end) = match range {
            Some(r) => {
                let b = utf16_to_byte_range(self.text.as_str(), r);
                proof {
                    lemma_utf16_offset_is_boundary(text, r.start as int);
                    lemma_utf16_offset_is_boundary(text, r.end as int);
                }
                (b.start, b.end)
            },
            None => (self.selection.start, self.selection.end),
        };
        let start = if raw_start <= total {
            raw_start
        } else {
            total
        };
        let end = if raw_end <= total {
            raw_end
        } else {
            total
        };
        proof {
            lemma_end_is_boundary(text);
            if text.len() == 0 {
                assert(start == 0 && end == 0);
                assert(text.take(0) =~= Seq::<char>::empty());
                assert(utf8_len(text.take(0)) == 0);
            }
        }
        let inserted_len = byte_len(inserted);
        if start > end {
            return;
        }
        let kept = total - (end - start);
        if inserted_len > MAX_TICKET_LEN || kept > MAX_TICKET_LEN - inserted_len {
            return;
        }
        let ks = char_index_of_byte(&chars, start);
        let ke = char_index_of_byte(&chars, end);
        proof {
            if ks > ke {
                lemma_prefix_strictly_increasing(text, ke as int, ks as int);
            }
        }
        let inserted_chars = chars_of(inserted);
        let new_text = splice(&chars, ks, ke, &inserted_chars);
        let caret = start + inserted_len;
        proof {
            let new = new_text@;
            let upto = ks + inserted@.len();
            assert(new.take(upto) =~= text.take(ks as int) + inserted@);
            lemma_utf8_len_concat(text.take(ks as int), inserted@);
            assert(utf8_len(new.take(upto)) == caret);
            assert(0 <= upto <= new.len());
        }
        *self = TicketInput { text: new_text, selection: caret..caret };
    }

    /// Replaces text as `replace` does, then selects the UTF-16 range `selected` of the
    /// new text where one is given.
    pub fn replace_and_mark(
        &mut self,
        range: Option<Range<usize>>,
        inserted: &str,
        selected: Option<Range<usize>>,
    )
        ensures
            ({
                let (start, end) = edit_bounds(old(self).contents(), old(self).selected(), range);
                let text = if edit_accepted(old(self).contents(), start, end, inserted@) {
                    edited_text(old(self).contents(), start, end, inserted@)
                } else {
                    old(self).contents()
                };
                &&& final(self).contents() == text
                &&& match selected {
                    Some(r) => final(self).selected() == (
                        utf16_to_byte_offset(text, r.start as int) as int,
                        utf16_to_byte_offset(text, r.end as int) as int,
                    ),
                    None => final(self).selected() == (if edit_accepted(
                        old(self).contents(),
                        start,
                        end,
                        inserted@,
                    ) {
                        (start + utf8_len(inserted@), start + utf8_len(inserted@))
                    } else {
                        old(self).selected()
                    }),
                }
            }),
    {
        self.replace(range, inserted);
        if let Some(r) = selected {
            let b = utf16_to_byte_range(self.text.as_str(), r);
            proof {
                lemma_utf16_offset_is_boundary(self.text@, r.start as int);
                lemma_utf16_offset_is_boundary(self.text@, r.end as int);
            }
            let text = self.text.clone();
            *self = TicketInput { text, selection: b };
        }
    }

    /// The text of the UTF-16 range `range`, with that range adjusted to the character
    /// boundaries it was rounded to; no text where the range is reversed.
    pub fn text_for_range(&self, range: Range<usize>) -> (res: (Option<String>, Range<usize>))
        ensures
            ({
                let text = self.contents();
                let k1 = chars_before_utf16(text, range.start as int, 0);
                let k2 = chars_before_utf16(text, range.end as int, 0);
                &&& res.1.start == utf16_len(text.take(k1))
                &&& res.1.end == utf16_len(text.take(k2))
                &&& match res.0 {
                    Some(t) => k1 <= k2 && t@ == text.subrange(k1, k2),
                    None => k1 > k2,
                }
            }),
    {
        let ghost text = self.text@;
        let ghost k1 = chars_before_utf16(text, range.start as int, 0);
        let ghost k2 = chars_before_utf16(text, range.end as int, 0);
        proof {
            lemma_chars_before_utf16_bounds(text, range.start as int, 0);
            lemma_chars_before_utf16_bounds(text, range.end as int, 0);
            lemma_utf16_offset_is_boundary(text, range.start as int);
            lemma_utf16_offset_is_boundary(text, range.end as int);
        }
        let bytes = utf16_to_byte_range(self.text.as_str(), range);
        let adjusted = byte_to_utf16_range(self.text.as_str(), bytes.start..bytes.end);
        let chars = chars_of(self.text.as_str());
        let ks = char_index_of_byte(&chars, bytes.start);
        let ke = char_index_of_byte(&chars, bytes.end);
        proof {
            lemma_chars_before_boundary(text, k1, 0);
            lemma_chars_before_boundary(text, k2, 0);
        }
        if bytes.start > bytes.end {
            proof {
                if k1 <= k2 {
                    if k1 < k2 {
                        lemma_prefix_strictly_increasing(text, k1, k2);
                    }
                }
            }
            return (None, adjusted);
        }
        proof {
            if k1 > k2 {
                lemma_prefix_strictly_increasing(text, k2, k1);
            }
        }
        (Some(string_from_chars(&chars, ks, ke)), adjusted)
    }

    /// The selection in UTF-16 offsets.
    pub fn selected_utf16_range(&self) -> (res: Range<usize>)
        requires
            self.selection_on_boundaries(),
        ensures
            forall|k: int|
                0 <= k <= self.contents().len() && utf8_len(self.contents().take(k))
                    == self.selected().0 ==> res.start == utf16_len(#[trigger] self.contents().take(k)),
            forall|k: int|
                0 <= k <= self.contents().len() && utf8_len(self.contents().take(k))
                    == self.selected().1 ==> res.end == utf16_len(#[trigger] self.contents().take(k)),
    {
        byte_to_utf16_range(self.text.as_str(), self.selection.start..self.selection.end)
    }

    /// The length of the text in UTF-16 code units.
    pub fn utf16_count(&self) -> (res: usize)
        ensures
            res == utf16_len(self.contents()),
    {
        let chars = chars_of(self.text.as_str());
        let total = byte_len(self.text.as_str());
        let n = chars.len();
        let mut k: usize = 0;
        let mut units: usize = 0;
        assert(chars@.take(0) =~= Seq::<char>::empty());
        while k < n
            invariant
                k <= n == chars@.len(),
                total == utf8_len(chars@),
                units == utf16_len(chars@.take(k as int)),
            decreases n - k,
        {
            proof {
                lemma_prefix_step(chars@, k as int);
                lemma_prefix_bounded(chars@, k + 1);
            }
            units = units + char_utf16_width(chars[k]);
            k = k + 1;
        }
        assert(chars@.take(n as int) =~= chars@);
        units
    }
}

/// Whether byte offset `offset` is a character boundary of the text whose characters are
/// `chars` and whose byte length is `total`.
fn is_boundary_offset(chars: &Vec<char>, total: usize, offset: usize) -> (res: bool)
    requires
        total == utf8_len(chars@),
    ensures
        res == is_byte_boundary(chars@, offset as int),
{
    let n = chars.len();
    let mut k: usize = 0;
    let mut bytes: usize = 0;
    assert(chars@.take(0) =~= Seq::<char>::empty());
    while k < n
        invariant
            k <= n == chars@.len(),
            total == utf8_len(chars@),
            bytes == utf8_len(chars@.take(k as int)),
            forall|j: int| 0 <= j < k ==> #[trigger] utf8_len(chars@.take(j)) != offset,
        decreases n - k,
    {
        if bytes == offset {
            return true;
        }
        proof {
            lemma_prefix_step(chars@, k as int);
            lemma_prefix_bounded(chars@, k + 1);
        }
        bytes = bytes + char_utf8_width(chars[k]);
        k = k + 1;
    }
    assert(chars@.take(n as int) =~= chars@);
    if bytes == offset {
        return true;
    }
    false
}

} // verus!
