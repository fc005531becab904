//! Character-level helpers shared by the format registry, the session file
//! list and the path accessors: case-insensitive comparison over ASCII
//! letters, substring search, and a lexicographic order on strings.

use vstd::prelude::*;

verus! {

/// True when `x` is an ASCII upper-case letter.
pub open spec fn is_ascii_upper(x: char) -> bool {
    65 <= x as u32 && x as u32 <= 90
}

/// Character equality up to ASCII case: equal outright, or the same letter
/// with the two cases.
pub open spec fn ci_char_eq(x: char, y: char) -> bool {
    ||| x == y
    ||| (is_ascii_upper(x) && x as u32 + 32 == y as u32)
    ||| (is_ascii_upper(y) && y as u32 + 32 == x as u32)
}

/// String equality up to ASCII case.
pub open spec fn ci_eq(a: Seq<char>, b: Seq<char>) -> bool {
    a.len() == b.len() && (forall|i: int| 0 <= i < a.len() ==> ci_char_eq(a[i], b[i]))
}

/// Compares two characters without regard to ASCII case.
pub fn ci_char_eq_exec(x: char, y: char) -> (r: bool)
    ensures
        r == ci_char_eq(x, y),
{
    let xu: u32 = x as u32;
    let yu: u32 = y as u32;
    x == y || (65 <= xu && xu <= 90 && xu + 32 == yu) || (65 <= yu && yu <= 90 && yu + 32 == xu)
}

/// Compares two strings without regard to ASCII case.
pub fn ci_str_eq(a: &str, b: &str) -> (r: bool)
    ensures
        r == ci_eq(a@, b@),
{
    let alen: usize = a.unicode_len();
    let blen: usize = b.unicode_len();
    if alen != blen {
        return false;
    }
    let mut i: usize = 0;
    while i < alen
        invariant
            i <= alen,
            alen == a@.len(),
            alen == b@.len(),
            forall|j: int| 0 <= j < i ==> ci_char_eq(a@[j], b@[j]),
        decreases alen - i,
    {
        if !ci_char_eq_exec(a.get_char(i), b.get_char(i)) {
            return false;
        }
        i = i + 1;
    }
    true
}

/// True when `pat` occurs in `s` at position `i`, up to ASCII case.
pub open spec fn ci_match_at(s: Seq<char>, pat: Seq<char>, i: int) -> bool {
    0 <= i && i + pat.len() <= s.len() && ci_eq(s.subrange(i, i + pat.len() as int), pat)
}

/// The first position at or after `from` where `pat` occurs in `s`, up to
/// ASCII case.
pub open spec fn find_ci(s: Seq<char>, pat: Seq<char>, from: int) -> Option<int>
    decreases s.len() - from,
{
    if from < 0 || from + pat.len() > s.len() {
        None
    } else if ci_match_at(s, pat, from) {
        Some(from)
    } else {
        find_ci(s, pat, from + 1)
    }
}

/// Tests `pat` against `s` at position `at`, without regard to ASCII case.
pub fn ci_match_at_exec(s: &str, pat: &str, at: usize) -> (r: bool)
    requires
        at <= s@.len(),
    ensures
        r == ci_match_at(s@, pat@, at as int),
{
    let slen: usize = s.unicode_len();
    let plen: usize = pat.unicode_len();
    if plen > slen - at {
        return false;
    }
    let mut k: usize = 0;
    while k < plen
        invariant
            k <= plen,
            at + plen <= slen,
            slen == s@.len(),
            plen == pat@.len(),
            forall|j: int| 0 <= j < k ==> ci_char_eq(s@[at + j], pat@[j]),
        decreases plen - k,
    {
        if !ci_char_eq_exec(s.get_char(at + k), pat.get_char(k)) {
            assert(!ci_eq(s@.subrange(at as int, at + plen as int), pat@)) by {
                assert(s@.subrange(at as int, at + plen as int)[k as int] == s@[at + k]);
            }
            return false;
        }
        k = k + 1;
    }
    assert(ci_eq(s@.subrange(at as int, at + plen as int), pat@)) by {
        assert(forall|j: int|
            0 <= j < plen ==> #[trigger] s@.subrange(at as int, at + plen as int)[j] == s@.index(
                at + j,
            ));
    }
    true
}

/// Finds the first occurrence of `pat` in `s` at or after `from`, without
/// regard to ASCII case.
pub fn find_ci_exec(s: &str, pat: &str, from: usize) -> (r: Option<usize>)
    requires
        from <= s@.len(),
    ensures
        match r {
            Some(i) => find_ci(s@, pat@, from as int) == Some(i as int) && i + pat@.len()
                <= s@.len(),
            None => find_ci(s@, pat@, from as int) is None,
        },
    decreases s@.len() - from,
{
    let slen: usize = s.unicode_len();
    let plen: usize = pat.unicode_len();
    if plen > slen - from {
        return None;
    }
    if ci_match_at_exec(s, pat, from) {
        return Some(from);
    }
    find_ci_exec(s, pat, from + 1)
}

/// The position of the last occurrence of `c` in `s`.
pub open spec fn last_index_of(s: Seq<char>, c: char) -> Option<int>
    decreases s.len(),
{
    if s.len() == 0 {
        None
    } else if s.last() == c {
        Some(s.len() - 1)
    } else {
        last_index_of(s.drop_last(), c)
    }
}

/// Finds the last occurrence of `c` in the first `end` characters of `s`.
pub fn last_index_of_before(s: &str, c: char, end: usize) -> (r: Option<usize>)
    requires
        end <= s@.len(),
    ensures
        match r {
            Some(i) => last_index_of(s@.subrange(0, end as int), c) == Some(i as int) && i < end,
            None => last_index_of(s@.subrange(0, end as int), c) is None,
        },
    decreases end,
{
    if end == 0 {
        return None;
    }
    let prefix: Ghost<Seq<char>> = Ghost(s@.subrange(0, end as int));
    assert(prefix@.last() == s@[end - 1]);
    if s.get_char(end - 1) == c {
        return Some(end - 1);
    }
    assert(prefix@.drop_last() =~= s@.subrange(0, end - 1));
    last_index_of_before(s, c, end - 1)
}

/// Finds the last occurrence of `c` in `s`.
pub fn last_index_of_exec(s: &str, c: char) -> (r: Option<usize>)
    ensures
        match r {
            Some(i) => last_index_of(s@, c) == Some(i as int) && i < s@.len(),
            None => last_index_of(s@, c) is None,
        },
{
    let len: usize = s.unicode_len();
    assert(s@.subrange(0, len as int) =~= s@);
    last_index_of_before(s, c, len)
}

/// True when a string holds no ASCII upper-case letter.
pub open spec fn all_lower(s: Seq<char>) -> bool {
    forall|i: int| 0 <= i < s.len() ==> !is_ascii_upper(#[trigger] s[i])
}

/// A string is case-insensitively equal to at most one string without
/// upper-case letters: the folding target is unique.
pub proof fn lemma_ci_eq_unique(e: Seq<char>, a: Seq<char>, b: Seq<char>)
    requires
        ci_eq(e, a),
        ci_eq(e, b),
        all_lower(a),
        all_lower(b),
    ensures
        a == b,
{
    assert forall|i: int| 0 <= i < a.len() implies a[i] == b[i] by {
        assert(ci_char_eq(e[i], a[i]));
        assert(ci_char_eq(e[i], b[i]));
        lemma_char_cast_injective(a[i], b[i]);
        lemma_char_cast_injective(e[i], a[i]);
        lemma_char_cast_injective(e[i], b[i]);
    }
    assert(a =~= b);
}

/// A found last occurrence really is an occurrence.
pub proof fn lemma_last_index_of_is_char(s: Seq<char>, c: char)
    requires
        last_index_of(s, c) is Some,
    ensures
        0 <= last_index_of(s, c)->0 < s.len(),
        s[last_index_of(s, c)->0] == c,
    decreases s.len(),
{
    if s.len() > 0 && s.last() != c {
        lemma_last_index_of_is_char(s.drop_last(), c);
    }
}

/// Strict lexicographic order on character sequences, by code point.
pub open spec fn chars_lt(a: Seq<char>, b: Seq<char>) -> bool
    decreases a.len(),
{
    if b.len() == 0 {
        false
    } else if a.len() == 0 {
        true
    } else if (a[0] as u32) < (b[0] as u32) {
        true
    } else if a[0] != b[0] {
        false
    } else {
        chars_lt(a.drop_first(), b.drop_first())
    }
}

/// Non-strict lexicographic order on character sequences.
pub open spec fn chars_le(a: Seq<char>, b: Seq<char>) -> bool {
    chars_lt(a, b) || a == b
}

/// A code point determines a character: equal casts imply equal characters.
proof fn lemma_char_cast_injective(x: char, y: char)
    ensures
        x as u32 == y as u32 ==> x == y,
{
    vstd::utf8::char_u32_cast(x, x as u32);
    vstd::utf8::char_u32_cast(y, y as u32);
}

/// Two non-empty sequences with equal heads and equal tails are equal.
proof fn lemma_eq_from_head_tail(a: Seq<char>, b: Seq<char>)
    requires
        a.len() > 0,
        b.len() > 0,
        a[0] == b[0],
        a.drop_first() == b.drop_first(),
    ensures
        a == b,
{
    assert(a.drop_first().len() == a.len() - 1);
    assert(b.drop_first().len() == b.len() - 1);
    assert(a.len() == b.len());
    assert forall|i: int| 0 <= i < a.len() implies a[i] == b[i] by {
        if i >= 1 {
            assert(a[i] == a.drop_first()[i - 1]);
            assert(b[i] == b.drop_first()[i - 1]);
        }
    }
    assert(a =~= b);
}

/// The lexicographic order is total: of two sequences, one is less than or
/// equal to the other.
pub proof fn lemma_chars_le_total(a: Seq<char>, b: Seq<char>)
    ensures
        chars_le(a, b) || chars_le(b, a),
    decreases a.len(),
{
    if a.len() == 0 || b.len() == 0 {
        if a.len() == 0 && b.len() == 0 {
            assert(a =~= b);
        }
    } else {
        if a[0] == b[0] {
            lemma_chars_le_total(a.drop_first(), b.drop_first());
            if a.drop_first() == b.drop_first() {
                lemma_eq_from_head_tail(a, b);
            }
        } else {
            lemma_char_cast_injective(a[0], b[0]);
        }
    }
}

/// The strict lexicographic order is irreflexive.
pub proof fn lemma_chars_lt_irrefl(a: Seq<char>)
    ensures
        !chars_lt(a, a),
    decreases a.len(),
{
    if a.len() > 0 {
        lemma_chars_lt_irrefl(a.drop_first());
    }
}

/// The strict lexicographic order is transitive.
pub proof fn lemma_chars_lt_trans(a: Seq<char>, b: Seq<char>, c: Seq<char>)
    requires
        chars_lt(a, b),
        chars_lt(b, c),
    ensures
        chars_lt(a, c),
    decreases a.len(),
{
    if b.len() == 0 || c.len() == 0 {
    } else if a.len() == 0 {
    } else {
        lemma_char_cast_injective(a[0], b[0]);
        lemma_char_cast_injective(b[0], c[0]);
        lemma_char_cast_injective(a[0], c[0]);
        if a[0] == b[0] && b[0] == c[0] {
            lemma_chars_lt_trans(a.drop_first(), b.drop_first(), c.drop_first());
        }
    }
}

/// Exactly one of `a < b`, `a == b`, `b < a` holds.
pub proof fn lemma_chars_lt_connected(a: Seq<char>, b: Seq<char>)
    ensures
        chars_lt(a, b) || chars_lt(b, a) || a == b,
        chars_lt(a, b) ==> !chars_lt(b, a) && a != b,
    decreases a.len(),
{
    lemma_chars_le_total(a, b);
    lemma_chars_lt_irrefl(a);
    lemma_chars_lt_irrefl(b);
    if chars_lt(a, b) && chars_lt(b, a) {
        lemma_chars_lt_trans(a, b, a);
    }
}

/// Compares two strings in the lexicographic order, by code point.
pub fn str_lt(a: &str, b: &str) -> (r: bool)
    ensures
        r == chars_lt(a@, b@),
{
    assert(a@.skip(0) =~= a@);
    assert(b@.skip(0) =~= b@);
    str_lt_from(a, b, 0)
}

fn str_lt_from(a: &str, b: &str, i: usize) -> (r: bool)
    requires
        i <= a@.len(),
        i <= b@.len(),
    ensures
        r == chars_lt(a@.skip(i as int), b@.skip(i as int)),
    decreases a@.len() - i,
{
    let alen: usize = a.unicode_len();
    let blen: usize = b.unicode_len();
    let ghost sa = a@.skip(i as int);
    let ghost sb = b@.skip(i as int);
    if i == blen {
        assert(sb.len() == 0);
        return false;
    }
    if i == alen {
        assert(sa.len() == 0 && sb.len() > 0);
        return true;
    }
    let ca: char = a.get_char(i);
    let cb: char = b.get_char(i);
    assert(sa[0] == a@[i as int] && sb[0] == b@[i as int]);
    if (ca as u32) < (cb as u32) {
        return true;
    }
    if ca != cb {
        return false;
    }
    assert(sa.drop_first() =~= a@.skip(i + 1));
    assert(sb.drop_first() =~= b@.skip(i + 1));
    str_lt_from(a, b, i + 1)
}

} // verus!
