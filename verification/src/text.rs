//! Verified text utilities: equality, lexicographic comparison and
//! searching over the character sequences that back `&str` and `String`.

use vstd::prelude::*;
use vstd::string::*;

verus! {

/// Lexicographic comparison of two character sequences by code point,
/// the order in which the server's offset tokens sort.
pub open spec fn lex_cmp_chars(a: Seq<char>, b: Seq<char>) -> core::cmp::Ordering
    decreases a.len(),
{
    if a.len() == 0 && b.len() == 0 {
        core::cmp::Ordering::Equal
    } else if a.len() == 0 {
        core::cmp::Ordering::Less
    } else if b.len() == 0 {
        core::cmp::Ordering::Greater
    } else if (a[0] as u32) < (b[0] as u32) {
        core::cmp::Ordering::Less
    } else if (b[0] as u32) < (a[0] as u32) {
        core::cmp::Ordering::Greater
    } else {
        lex_cmp_chars(a.skip(1), b.skip(1))
    }
}

/// Character-for-character equality of two string slices.
pub fn str_eq(a: &str, b: &str) -> (r: bool)
    ensures
        r == (a@ == b@),
{
    let alen = a.unicode_len();
    let blen = b.unicode_len();
    if alen != blen {
        return false;
    }
    let mut i: usize = 0;
    while i < alen
        invariant
            i <= alen,
            alen == a@.len(),
            blen == b@.len(),
            alen == blen,
            forall|j: int| 0 <= j < i ==> a@[j] == b@[j],
        decreases alen - i,
    {
        if a.get_char(i) != b.get_char(i) {
            return false;
        }
        i += 1;
    }
    proof {
        assert(a@ =~= b@);
    }
    true
}

/// Lexicographic comparison of two string slices by code point.
pub fn str_cmp(a: &str, b: &str) -> (r: core::cmp::Ordering)
    ensures
        r == lex_cmp_chars(a@, b@),
{
    let alen = a.unicode_len();
    let blen = b.unicode_len();
    let mut i: usize = 0;
    proof {
        assert(a@.skip(0) =~= a@);
        assert(b@.skip(0) =~= b@);
    }
    loop
        invariant
            i <= alen,
            i <= blen,
            alen == a@.len(),
            blen == b@.len(),
            lex_cmp_chars(a@, b@) == lex_cmp_chars(a@.skip(i as int), b@.skip(i as int)),
        decreases alen - i,
    {
        if i == alen || i == blen {
            if alen == blen {
                return core::cmp::Ordering::Equal;
            } else if alen < blen {
                return core::cmp::Ordering::Less;
            } else {
                return core::cmp::Ordering::Greater;
            }
        }
        let ca = a.get_char(i) as u32;
        let cb = b.get_char(i) as u32;
        if ca < cb {
            return core::cmp::Ordering::Less;
        } else if cb < ca {
            return core::cmp::Ordering::Greater;
        }
        proof {
            assert(a@.skip(i as int).skip(1) =~= a@.skip(i + 1));
            assert(b@.skip(i as int).skip(1) =~= b@.skip(i + 1));
        }
        i += 1;
    }
}

/// The view of an optional owned string.
pub open spec fn view_opt_string(o: Option<String>) -> Option<Seq<char>> {
    match o {
        Some(s) => Some(s@),
        None => None,
    }
}

/// The view of an optional string slice.
pub open spec fn view_opt_str(o: Option<&str>) -> Option<Seq<char>> {
    match o {
        Some(s) => Some(s@),
        None => None,
    }
}

/// Whether `c` is a decimal digit.
pub open spec fn is_dec_digit(c: char) -> bool {
    '0' as u32 <= c as u32 <= '9' as u32
}

/// The numeric value of a digit character.
pub open spec fn digit_val(c: char) -> int {
    c as u32 - '0' as u32
}

/// The digit character for a value in `0..10`.
pub open spec fn dec_digit(d: int) -> char {
    if d == 0 {
        '0'
    } else if d == 1 {
        '1'
    } else if d == 2 {
        '2'
    } else if d == 3 {
        '3'
    } else if d == 4 {
        '4'
    } else if d == 5 {
        '5'
    } else if d == 6 {
        '6'
    } else if d == 7 {
        '7'
    } else if d == 8 {
        '8'
    } else {
        '9'
    }
}

/// The decimal rendering of a natural number, most significant digit
/// first, with no leading zeros (a single `'0'` for zero).
pub open spec fn spec_dec_string(n: nat) -> Seq<char>
    decreases n,
{
    if n < 10 {
        seq![dec_digit(n as int)]
    } else {
        spec_dec_string(n / 10) + seq![dec_digit((n % 10) as int)]
    }
}

/// The value of a digit string read most significant digit first.
pub open spec fn spec_digits_val(s: Seq<char>) -> int
    decreases s.len(),
{
    if s.len() == 0 {
        0
    } else {
        spec_digits_val(s.drop_last()) * 10 + digit_val(s.last())
    }
}

fn digit_str(d: u64) -> (r: &'static str)
    requires
        d < 10,
    ensures
        r@ =~= seq![dec_digit(d as int)],
{
    proof {
        reveal_strlit("0");
        reveal_strlit("1");
        reveal_strlit("2");
        reveal_strlit("3");
        reveal_strlit("4");
        reveal_strlit("5");
        reveal_strlit("6");
        reveal_strlit("7");
        reveal_strlit("8");
        reveal_strlit("9");
    }
    if d == 0 {
        "0"
    } else if d == 1 {
        "1"
    } else if d == 2 {
        "2"
    } else if d == 3 {
        "3"
    } else if d == 4 {
        "4"
    } else if d == 5 {
        "5"
    } else if d == 6 {
        "6"
    } else if d == 7 {
        "7"
    } else if d == 8 {
        "8"
    } else {
        "9"
    }
}

/// Render a number in decimal.
pub fn u64_to_string(n: u64) -> (r: String)
    ensures
        r@ == spec_dec_string(n as nat),
    decreases n,
{
    if n < 10 {
        let mut s = String::new();
        s.append(digit_str(n));
        proof {
            assert(s@ =~= spec_dec_string(n as nat));
        }
        s
    } else {
        let mut s = u64_to_string(n / 10);
        s.append(digit_str(n % 10));
        proof {
            assert(s@ =~= spec_dec_string(n as nat));
        }
        s
    }
}

/// A digit-string prefix never exceeds the value of the whole string.
proof fn lemma_digits_val_prefix(s: Seq<char>, k: int)
    requires
        0 <= k <= s.len(),
        forall|j: int| 0 <= j < s.len() ==> is_dec_digit(#[trigger] s[j]),
    ensures
        spec_digits_val(s.take(k)) <= spec_digits_val(s),
        spec_digits_val(s.take(k)) >= 0,
    decreases s.len() - k,
{
    if k == s.len() {
        assert(s.take(k) =~= s);
        lemma_digits_val_nonneg(s.take(k));
    } else {
        assert(s.take(k + 1).drop_last() =~= s.take(k));
        assert(s.take(k + 1).last() == s[k]);
        lemma_digits_val_nonneg(s.take(k));
        lemma_digits_val_prefix(s, k + 1);
    }
}

/// The value of an all-digit string is non-negative.
proof fn lemma_digits_val_nonneg(s: Seq<char>)
    requires
        forall|j: int| 0 <= j < s.len() ==> is_dec_digit(#[trigger] s[j]),
    ensures
        spec_digits_val(s) >= 0,
    decreases s.len(),
{
    if s.len() > 0 {
        lemma_digits_val_nonneg(s.drop_last());
    }
}

/// Whether a string is non-empty, all decimal digits, and in range for
/// `u64`: exactly the strings `parse_u64` accepts.
pub open spec fn spec_u64_parsable(s: Seq<char>) -> bool {
    &&& s.len() > 0
    &&& (forall|j: int| 0 <= j < s.len() ==> is_dec_digit(#[trigger] s[j]))
    &&& spec_digits_val(s) <= u64::MAX
}

/// Parse a non-empty all-digit decimal string into a `u64`; anything
/// else, including values out of range, yields `None`.
pub fn parse_u64(s: &str) -> (r: Option<u64>)
    ensures
        r is Some <==> spec_u64_parsable(s@),
        r matches Some(v) ==> v == spec_digits_val(s@),
{
    let len = s.unicode_len();
    if len == 0 {
        return None;
    }
    let mut i: usize = 0;
    let mut v: u64 = 0;
    while i < len
        invariant
            0 < len == s@.len(),
            i <= len,
            forall|j: int| 0 <= j < i ==> is_dec_digit(#[trigger] s@[j]),
            v == spec_digits_val(s@.take(i as int)),
        decreases len - i,
    {
        let c = s.get_char(i);
        let cu = c as u32;
        if cu < '0' as u32 || cu > '9' as u32 {
            return None;
        }
        let d: u64 = (cu - '0' as u32) as u64;
        proof {
            assert(s@.take(i + 1).drop_last() =~= s@.take(i as int));
            assert(s@.take(i + 1).last() == s@[i as int]);
        }
        if v > (u64::MAX - d) / 10 {
            proof {
                if spec_u64_parsable(s@) {
                    lemma_digits_val_prefix(s@, i + 1);
                    assert(spec_digits_val(s@.take(i + 1)) > u64::MAX);
                }
            }
            return None;
        }
        v = v * 10 + d;
        i += 1;
    }
    proof {
        assert(s@.take(len as int) =~= s@);
    }
    Some(v)
}

/// Whether `p` occurs in `s` starting at index `i`.
pub open spec fn matches_at(s: Seq<char>, p: Seq<char>, i: int) -> bool {
    &&& 0 <= i
    &&& i + p.len() <= s.len()
    &&& s.subrange(i, i + p.len()) == p
}

/// Whether `p` occurs anywhere in `s`.
pub open spec fn spec_contains_seq(s: Seq<char>, p: Seq<char>) -> bool {
    exists|i: int| matches_at(s, p, i)
}

/// Whether `s` begins with `p`.
pub fn str_starts_with(s: &str, p: &str) -> (r: bool)
    ensures
        r == matches_at(s@, p@, 0),
{
    let slen = s.unicode_len();
    let plen = p.unicode_len();
    if plen > slen {
        return false;
    }
    let mut i: usize = 0;
    while i < plen
        invariant
            i <= plen,
            plen <= slen,
            slen == s@.len(),
            plen == p@.len(),
            forall|j: int| 0 <= j < i ==> s@[j] == p@[j],
        decreases plen - i,
    {
        if s.get_char(i) != p.get_char(i) {
            proof {
                assert(s@.subrange(0, p@.len() as int)[i as int] != p@[i as int]);
            }
            return false;
        }
        i += 1;
    }
    proof {
        assert(s@.subrange(0, p@.len() as int) =~= p@);
    }
    true
}

/// Whether `p` occurs as a substring of `s`.
pub fn str_contains(s: &str, p: &str) -> (r: bool)
    ensures
        r == spec_contains_seq(s@, p@),
{
    let slen = s.unicode_len();
    let plen = p.unicode_len();
    if plen > slen {
        proof {
            assert forall|i: int| !matches_at(s@, p@, i) by {}
        }
        return false;
    }
    if plen == 0 {
        proof {
            assert(s@.subrange(0, 0) =~= p@);
            assert(matches_at(s@, p@, 0));
        }
        return true;
    }
    let mut i: usize = 0;
    while i <= slen - plen
        invariant
            0 < plen <= slen,
            slen == s@.len(),
            plen == p@.len(),
            i <= slen - plen + 1,
            forall|k: int| 0 <= k < i ==> !matches_at(s@, p@, k),
        decreases slen - plen - i + 1,
    {
        let mut j: usize = 0;
        let mut hit = true;
        while j < plen
            invariant
                i + plen <= slen,
                slen == s@.len(),
                plen == p@.len(),
                j <= plen,
                hit ==> forall|m: int| 0 <= m < j ==> s@[i + m] == p@[m],
                !hit ==> !matches_at(s@, p@, i as int),
            decreases plen - j,
        {
            if s.get_char(i + j) != p.get_char(j) {
                proof {
                    if matches_at(s@, p@, i as int) {
                        assert(s@.subrange(i as int, i + p@.len())[j as int] == p@[j as int]);
                    }
                }
                hit = false;
                j = plen;
            } else {
                j += 1;
            }
        }
        if hit {
            proof {
                assert(s@.subrange(i as int, i + p@.len()) =~= p@);
                assert(matches_at(s@, p@, i as int));
            }
            return true;
        }
        i += 1;
    }
    false
}

/// The index of the first occurrence of `c` in `s`, if any.
pub open spec fn spec_find_char(s: Seq<char>, c: char) -> Option<int>
    decreases s.len(),
{
    if s.len() == 0 {
        None
    } else if s[0] == c {
        Some(0)
    } else {
        match spec_find_char(s.skip(1), c) {
            Some(i) => Some(i + 1),
            None => None,
        }
    }
}

/// `spec_find_char` yields the least index holding `c`, and `None`
/// exactly when `c` does not occur.
pub proof fn lemma_find_char(s: Seq<char>, c: char)
    ensures
        match spec_find_char(s, c) {
            Some(i) => 0 <= i < s.len() && s[i] == c && (forall|j: int| 0 <= j < i ==> s[j] != c),
            None => forall|j: int| 0 <= j < s.len() ==> s[j] != c,
        },
    decreases s.len(),
{
    if s.len() > 0 && s[0] != c {
        lemma_find_char(s.skip(1), c);
        match spec_find_char(s.skip(1), c) {
            Some(i) => {
                assert(s.skip(1)[i] == s[i + 1]);
                assert forall|j: int| 0 <= j < i + 1 implies s[j] != c by {
                    if j > 0 {
                        assert(s.skip(1)[j - 1] != c);
                    }
                }
            },
            None => {
                assert forall|j: int| 0 <= j < s.len() implies s[j] != c by {
                    if j > 0 {
                        assert(s.skip(1)[j - 1] != c);
                    }
                }
            },
        }
    }
}

/// Find the first occurrence of `c` in `s`.
pub fn str_find_char(s: &str, c: char) -> (r: Option<usize>)
    ensures
        match r {
            Some(i) => spec_find_char(s@, c) == Some(i as int),
            None => spec_find_char(s@, c) is None,
        },
{
    proof {
        lemma_find_char(s@, c);
    }
    let len = s.unicode_len();
    let mut i: usize = 0;
    while i < len
        invariant
            i <= len,
            len == s@.len(),
            forall|j: int| 0 <= j < i ==> s@[j] != c,
        decreases len - i,
    {
        if s.get_char(i) == c {
            proof {
                lemma_find_char(s@, c);
                match spec_find_char(s@, c) {
                    Some(k) => {
                        if k < i {
                            assert(s@[k] != c);
                        } else if k > i {
                            assert(s@[i as int] != c);
                        }
                    },
                    None => {
                        assert(s@[i as int] != c);
                    },
                }
            }
            return Some(i);
        }
        i += 1;
    }
    None
}

/// `s` with every trailing occurrence of `c` removed.
pub open spec fn spec_strip_trailing(s: Seq<char>, c: char) -> Seq<char>
    decreases s.len(),
{
    if s.len() > 0 && s.last() == c {
        spec_strip_trailing(s.drop_last(), c)
    } else {
        s
    }
}

/// A take at the boundary of the trailing run of `c` realizes
/// `spec_strip_trailing`.
pub proof fn lemma_strip_trailing_take(s: Seq<char>, c: char, end: int)
    requires
        0 <= end <= s.len(),
        forall|j: int| end <= j < s.len() ==> s[j] == c,
        end > 0 ==> s[end - 1] != c,
    ensures
        spec_strip_trailing(s, c) == s.take(end),
    decreases s.len(),
{
    if s.len() == 0 {
        assert(s.take(end) =~= s);
    } else if s.last() == c {
        if end == s.len() {
            assert(s[end - 1] != c);
            assert(false);
        }
        lemma_strip_trailing_take(s.drop_last(), c, end);
        assert(s.drop_last().take(end) =~= s.take(end));
    } else {
        assert(end == s.len());
        assert(s.take(end) =~= s);
    }
}

/// Strip every trailing occurrence of `c` from `s`.
pub fn str_strip_trailing<'a>(s: &'a str, c: char) -> (r: &'a str)
    ensures
        r@ == spec_strip_trailing(s@, c),
{
    let len = s.unicode_len();
    let mut end: usize = len;
    while end > 0 && s.get_char(end - 1) == c
        invariant
            end <= len,
            len == s@.len(),
            forall|j: int| end <= j < s@.len() ==> s@[j] == c,
        decreases end,
    {
        end -= 1;
    }
    proof {
        lemma_strip_trailing_take(s@, c, end as int);
    }
    s.substring_char(0, end)
}

/// ASCII lowercase of a code point: the letters `A`..`Z` map down, all
/// other code points are unchanged.
pub open spec fn lower_u32(x: u32) -> int {
    if 'A' as u32 <= x <= 'Z' as u32 {
        x + 32
    } else {
        x as int
    }
}

fn lower_exec(x: u32) -> (r: u64)
    ensures
        r == lower_u32(x),
{
    if 'A' as u32 <= x && x <= 'Z' as u32 {
        x as u64 + 32
    } else {
        x as u64
    }
}

/// Whether `p` occurs in `s` at index `i` when both are compared ASCII
/// case-insensitively.
pub open spec fn matches_at_ci(s: Seq<char>, p: Seq<char>, i: int) -> bool {
    &&& 0 <= i
    &&& i + p.len() <= s.len()
    &&& forall|j: int| 0 <= j < p.len() ==> lower_u32(s[i + j] as u32) == lower_u32(#[trigger] p[j] as u32)
}

/// Whether `p` occurs anywhere in `s`, ASCII case-insensitively.
pub open spec fn spec_contains_ci(s: Seq<char>, p: Seq<char>) -> bool {
    exists|i: int| matches_at_ci(s, p, i)
}

/// Whether `p` occurs as a substring of `s` when both sides are compared
/// ASCII case-insensitively.
pub fn str_contains_ci(s: &str, p: &str) -> (r: bool)
    ensures
        r == spec_contains_ci(s@, p@),
{
    let slen = s.unicode_len();
    let plen = p.unicode_len();
    if plen > slen {
        proof {
            assert forall|i: int| !matches_at_ci(s@, p@, i) by {}
        }
        return false;
    }
    if plen == 0 {
        proof {
            assert(matches_at_ci(s@, p@, 0));
        }
        return true;
    }
    let mut i: usize = 0;
    while i <= slen - plen
        invariant
            0 < plen <= slen,
            slen == s@.len(),
            plen == p@.len(),
            i <= slen - plen + 1,
            forall|k: int| 0 <= k < i ==> !matches_at_ci(s@, p@, k),
        decreases slen - plen - i + 1,
    {
        let mut j: usize = 0;
        let mut hit = true;
        while j < plen
            invariant
                i + plen <= slen,
                slen == s@.len(),
                plen == p@.len(),
                j <= plen,
                hit ==> forall|m: int| 0 <= m < j ==> lower_u32(s@[i + m] as u32) == lower_u32(#[trigger] p@[m] as u32),
                !hit ==> !matches_at_ci(s@, p@, i as int),
            decreases plen - j,
        {
            if lower_exec(s.get_char(i + j) as u32) != lower_exec(p.get_char(j) as u32) {
                hit = false;
                j = plen;
            } else {
                j += 1;
            }
        }
        if hit {
            proof {
                assert(matches_at_ci(s@, p@, i as int));
            }
            return true;
        }
        i += 1;
    }
    false
}

} // verus!
