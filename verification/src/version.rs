//! Release-version comparison and the choice of the update to offer.

use vstd::prelude::*;
use crate::text::{chars_of, string_from_chars};

verus! {

/// Whether `c` is an ASCII decimal digit.
pub open spec fn is_digit(c: char) -> bool {
    '0' <= c && c <= '9'
}

/// The value of a decimal digit.
pub open spec fn digit_value(c: char) -> int {
    c as int - '0' as int
}

/// The value of a string of decimal digits (0 for the empty string).
pub open spec fn decimal_value(s: Seq<char>) -> int
    decreases s.len(),
{
    if s.len() == 0 {
        0
    } else {
        decimal_value(s.drop_last()) * 10 + digit_value(s.last())
    }
}

/// The part of a number's text after an optional leading `+`.
pub open spec fn unsigned_digits(s: Seq<char>) -> Seq<char> {
    if s.len() > 0 && s[0] == '+' {
        s.drop_first()
    } else {
        s
    }
}

/// Whether every character of `s` is a decimal digit.
pub open spec fn all_digits(s: Seq<char>) -> bool {
    forall|i: int| 0 <= i < s.len() ==> is_digit(#[trigger] s[i])
}

/// Parsing an unsigned 64-bit integer as `str::parse::<u64>` does: an optional `+`,
/// then at least one decimal digit and nothing else, with a value that fits in 64 bits.
pub open spec fn parse_u64(s: Seq<char>) -> Option<u64> {
    let digits = unsigned_digits(s);
    if digits.len() > 0 && all_digits(digits) && decimal_value(digits) <= u64::MAX {
        Some(decimal_value(digits) as u64)
    } else {
        None
    }
}

/// `s` without its leading `v` characters (as many as there are).
pub open spec fn trim_leading_v(s: Seq<char>) -> Seq<char>
    decreases s.len(),
{
    if s.len() > 0 && s[0] == 'v' {
        trim_leading_v(s.drop_first())
    } else {
        s
    }
}

/// The pieces of `s` between `.` separators, as `str::split('.')` yields them
/// (the empty string gives one empty piece).
pub open spec fn split_dots(s: Seq<char>) -> Seq<Seq<char>>
    decreases s.len(),
{
    if s.len() == 0 {
        seq![Seq::<char>::empty()]
    } else {
        let init = split_dots(s.drop_last());
        if s.last() == '.' {
            init.push(Seq::<char>::empty())
        } else {
            init.update(init.len() - 1, init.last().push(s.last()))
        }
    }
}

/// Component `k` of a version string: the `k`-th dot-separated piece after the leading
/// `v`s, read as an integer, with 0 for a missing or unreadable piece.
pub open spec fn version_component(version: Seq<char>, k: int) -> u64 {
    let pieces = split_dots(trim_leading_v(version));
    if k < pieces.len() {
        match parse_u64(pieces[k]) {
            Some(n) => n,
            None => 0,
        }
    } else {
        0
    }
}

/// The (major, minor, patch) triple of a version string.
pub open spec fn version_triple(version: Seq<char>) -> (u64, u64, u64) {
    (version_component(version, 0), version_component(version, 1), version_component(version, 2))
}

/// Lexicographic order on triples: `a` comes strictly after `b`.
pub open spec fn triple_after(a: (u64, u64, u64), b: (u64, u64, u64)) -> bool {
    a.0 > b.0 || (a.0 == b.0 && (a.1 > b.1 || (a.1 == b.1 && a.2 > b.2)))
}

/// Whether `candidate` names a strictly newer release than `current`.
pub open spec fn newer_version(current: Seq<char>, candidate: Seq<char>) -> bool {
    triple_after(version_triple(candidate), version_triple(current))
}

proof fn lemma_decimal_value_nonneg(s: Seq<char>)
    requires
        forall|i: int| 0 <= i < s.len() ==> is_digit(#[trigger] s[i]),
    ensures
        decimal_value(s) >= 0,
    decreases s.len(),
{
    if s.len() > 0 {
        lemma_decimal_value_nonneg(s.drop_last());
    }
}

/// Reads `chars[from..to]` as `str::parse::<u64>` would.
fn parse_piece(chars: &Vec<char>, from: usize, to: usize) -> (res: Option<u64>)
    requires
        from <= to <= chars@.len(),
    ensures
        res == parse_u64(chars@.subrange(from as int, to as int)),
{
    let ghost piece = chars@.subrange(from as int, to as int);
    let mut i: usize = from;
    if from < to && chars[from] == '+' {
        i = from + 1;
    }
    let start = i;
    let ghost digits = unsigned_digits(piece);
    assert(digits =~= chars@.subrange(start as int, to as int));
    if start == to {
        return None;
    }
    let mut value: u64 = 0;
    let mut overflow = false;
    while i < to
        invariant
            from <= start <= i <= to <= chars@.len(),
            digits =~= chars@.subrange(start as int, to as int),
            digits == unsigned_digits(piece),
            piece == chars@.subrange(from as int, to as int),
            forall|j: int| start <= j < i ==> is_digit(#[trigger] chars@[j]),
            !overflow ==> value == decimal_value(chars@.subrange(start as int, i as int)),
            overflow ==> decimal_value(chars@.subrange(start as int, i as int)) > u64::MAX,
        decreases to - i,
    {
        let c = chars[i];
        if !('0' <= c && c <= '9') {
            assert(!is_digit(digits[i - start]));
            assert(!all_digits(digits));
            return None;
        }
        let d = (c as u32 - '0' as u32) as u64;
        let ghost prefix = chars@.subrange(start as int, i as int);
        let ghost next = chars@.subrange(start as int, i + 1);
        assert(next.drop_last() =~= prefix);
        assert(next.last() == c);
        proof {
            assert forall|j: int| 0 <= j < prefix.len() implies is_digit(#[trigger] prefix[j]) by {
                assert(prefix[j] == chars@[start + j]);
            }
            lemma_decimal_value_nonneg(prefix);
        }
        if !overflow {
            if value > (u64::MAX - d) / 10 {
                overflow = true;
                assert(value * 10 + d > u64::MAX) by (nonlinear_arith)
                    requires
                        value > (u64::MAX - d) / 10,
                        d <= 9,
                ;
            } else {
                assert(value * 10 + d <= u64::MAX) by (nonlinear_arith)
                    requires
                        value <= (u64::MAX - d) / 10,
                        d <= 9,
                ;
                value = value * 10 + d;
            }
        } else {
            assert(decimal_value(prefix) * 10 + digit_value(c) > u64::MAX) by (nonlinear_arith)
                requires
                    decimal_value(prefix) > u64::MAX,
                    0 <= digit_value(c) <= 9,
            ;
        }
        i = i + 1;
    }
    assert(all_digits(digits)) by {
        assert forall|j: int| 0 <= j < digits.len() implies is_digit(#[trigger] digits[j]) by {
            assert(digits[j] == chars@[start + j]);
        }
    }
    if overflow {
        None
    } else {
        Some(value)
    }
}

/// A parsed piece, or 0 where it does not read as an integer.
pub open spec fn piece_value(piece: Seq<char>) -> u64 {
    match parse_u64(piece) {
        Some(n) => n,
        None => 0,
    }
}

proof fn lemma_trim_leading_v_step(s: Seq<char>, k: int)
    requires
        0 <= k < s.len(),
        s[k] == 'v',
    ensures
        trim_leading_v(s.skip(k)) == trim_leading_v(s.skip(k + 1)),
{
    assert(s.skip(k).drop_first() =~= s.skip(k + 1));
}

/// The (major, minor, patch) triple of a version string: its first three dot-separated
/// pieces after any leading `v`s, each read as an integer (0 where missing or unreadable).
pub fn version_triple_of(version: &str) -> (res: (u64, u64, u64))
    ensures
        res == version_triple(version@),
{
    let chars = chars_of(version);
    let n = chars.len();
    let mut start: usize = 0;
    assert(chars@.skip(0) =~= chars@);
    while start < n && chars[start] == 'v'
        invariant
            start <= n == chars@.len(),
            trim_leading_v(chars@) == trim_leading_v(chars@.skip(start as int)),
        decreases n - start,
    {
        proof {
            lemma_trim_leading_v_step(chars@, start as int);
        }
        start = start + 1;
    }
    let ghost t = chars@.skip(start as int);
    assert(trim_leading_v(t) == t);
    assert(t == trim_leading_v(version@));
    let mut parts: (u64, u64, u64) = (0, 0, 0);
    let mut idx: usize = 0;
    let mut field_start: usize = start;
    let mut i: usize = start;
    assert(t.take(0) =~= Seq::<char>::empty());
    assert(chars@.subrange(start as int, start as int) =~= Seq::<char>::empty());
    while i < n
        invariant
            start <= field_start <= i <= n == chars@.len(),
            t == chars@.skip(start as int),
            idx <= i - start,
            split_dots(t.take(i - start)).len() == idx + 1,
            split_dots(t.take(i - start)).last() == chars@.subrange(field_start as int, i as int),
            idx > 0 ==> parts.0 == piece_value(split_dots(t.take(i - start))[0]),
            idx > 1 ==> parts.1 == piece_value(split_dots(t.take(i - start))[1]),
            idx > 2 ==> parts.2 == piece_value(split_dots(t.take(i - start))[2]),
            idx <= 0 ==> parts.0 == 0,
            idx <= 1 ==> parts.1 == 0,
            idx <= 2 ==> parts.2 == 0,
        decreases n - i,
    {
        let ghost before = split_dots(t.take(i - start));
        let ghost taken = t.take(i + 1 - start);
        assert(taken.drop_last() =~= t.take(i - start));
        assert(taken.last() == chars@[i as int]);
        if chars[i] == '.' {
            assert(split_dots(taken) == before.push(Seq::<char>::empty()));
            let value = match parse_piece(&chars, field_start, i) {
                Some(v) => v,
                None => 0,
            };
            if idx == 0 {
                parts.0 = value;
            } else if idx == 1 {
                parts.1 = value;
            } else if idx == 2 {
                parts.2 = value;
            }
            idx = idx + 1;
            field_start = i + 1;
            assert(chars@.subrange(field_start as int, i + 1) =~= Seq::<char>::empty());
        } else {
            assert(split_dots(taken) == before.update(before.len() - 1, before.last().push(chars@[i as int])));
            assert(chars@.subrange(field_start as int, i + 1) =~= chars@.subrange(field_start as int, i as int).push(chars@[i as int]));
        }
        i = i + 1;
    }
    assert(t.take(n - start) =~= t);
    let value = match parse_piece(&chars, field_start, n) {
        Some(v) => v,
        None => 0,
    };
    if idx == 0 {
        parts.0 = value;
    } else if idx == 1 {
        parts.1 = value;
    } else if idx == 2 {
        parts.2 = value;
    }
    parts
}

/// Whether `candidate` names a strictly newer release than `current`: their
/// (major, minor, patch) triples compare lexicographically.
pub fn is_newer_version(current: &str, candidate: &str) -> (res: bool)
    ensures
        res == newer_version(current@, candidate@),
{
    let a = version_triple_of(candidate);
    let b = version_triple_of(current);
    a.0 > b.0 || (a.0 == b.0 && (a.1 > b.1 || (a.1 == b.1 && a.2 > b.2)))
}

/// `version` without its leading `v` characters, as `trim_start_matches('v')` gives it.
pub fn strip_leading_v(version: &str) -> (res: String)
    ensures
        res@ == trim_leading_v(version@),
{
    let chars = chars_of(version);
    let n = chars.len();
    let mut start: usize = 0;
    assert(chars@.skip(0) =~= chars@);
    while start < n && chars[start] == 'v'
        invariant
            start <= n == chars@.len(),
            trim_leading_v(chars@) == trim_leading_v(chars@.skip(start as int)),
        decreases n - start,
    {
        proof {
            lemma_trim_leading_v_step(chars@, start as int);
        }
        start = start + 1;
    }
    assert(chars@.subrange(start as int, n as int) =~= chars@.skip(start as int));
    string_from_chars(&chars, start, n)
}

/// No version is newer than itself.
pub proof fn lemma_newer_irreflexive(version: Seq<char>)
    ensures
        !newer_version(version, version),
{
}

/// Of two versions, at most one is newer than the other.
pub proof fn lemma_newer_asymmetric(a: Seq<char>, b: Seq<char>)
    ensures
        newer_version(a, b) ==> !newer_version(b, a),
{
}

/// Being newer is transitive.
pub proof fn lemma_newer_transitive(a: Seq<char>, b: Seq<char>, c: Seq<char>)
    requires
        newer_version(a, b),
        newer_version(b, c),
    ensures
        newer_version(a, c),
{
}

/// Of two versions whose (major, minor, patch) differ, one is newer than the other; and
/// the candidate is newer exactly when, at the first of the three that differs, its
/// number is the larger.
pub proof fn lemma_newer_by_first_difference(current: Seq<char>, candidate: Seq<char>)
    ensures
        version_triple(current) != version_triple(candidate) ==> newer_version(current, candidate)
            || newer_version(candidate, current),
        version_triple(candidate).0 > version_triple(current).0 ==> newer_version(
            current,
            candidate,
        ),
        version_triple(candidate).0 == version_triple(current).0 && version_triple(candidate).1
            > version_triple(current).1 ==> newer_version(current, candidate),
        version_triple(candidate).0 == version_triple(current).0 && version_triple(candidate).1
            == version_triple(current).1 && version_triple(candidate).2 > version_triple(
            current,
        ).2 ==> newer_version(current, candidate),
        version_triple(candidate).0 < version_triple(current).0 ==> !newer_version(
            current,
            candidate,
        ),
{
}

/// A leading `v` does not change what a version string stands for.
pub proof fn lemma_leading_v_ignored(version: Seq<char>)
    ensures
        version_triple(seq!['v'] + version) == version_triple(version),
{
    let s = seq!['v'] + version;
    assert(s.drop_first() =~= version);
}

} // verus!
