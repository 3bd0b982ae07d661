//! Verified text utilities shared by the file parsers: splitting a
//! string into lines or delimited fields, and reading unsigned decimal
//! numbers.

use vstd::prelude::*;
use vstd::arithmetic::div_mod::{lemma_fundamental_div_mod, lemma_mod_division_less_than_divisor};

verus! {

/// Splitting on a separator, built left to right: the last piece grows
/// until the separator starts a new one.  Always at least one piece;
/// the empty string yields one empty piece.
pub open spec fn spec_split(s: Seq<char>, sep: char) -> Seq<Seq<char>>
    decreases s.len(),
{
    if s.len() == 0 {
        seq![Seq::empty()]
    } else {
        let r = spec_split(s.drop_last(), sep);
        if s.last() == sep {
            r.push(Seq::empty())
        } else {
            r.update(r.len() - 1, r.last().push(s.last()))
        }
    }
}

/// Bounded splitting: at most `n` pieces; once `n` pieces exist, further
/// separators stay in the last piece.
pub open spec fn spec_splitn(s: Seq<char>, sep: char, n: nat) -> Seq<Seq<char>>
    decreases s.len(),
{
    if s.len() == 0 {
        seq![Seq::empty()]
    } else {
        let r = spec_splitn(s.drop_last(), sep, n);
        if s.last() == sep && r.len() < n {
            r.push(Seq::empty())
        } else {
            r.update(r.len() - 1, r.last().push(s.last()))
        }
    }
}

/// A split has at least one piece.
pub proof fn lemma_split_len(s: Seq<char>, sep: char)
    ensures
        spec_split(s, sep).len() >= 1,
    decreases s.len(),
{
    if s.len() > 0 {
        lemma_split_len(s.drop_last(), sep);
    }
}

/// Drops one trailing carriage return, as the line iterator of `str`
/// does.
pub open spec fn strip_cr(p: Seq<char>) -> Seq<char> {
    if p.len() > 0 && p.last() == '\r' {
        p.drop_last()
    } else {
        p
    }
}

/// The lines of a text: split on the newline, drop the empty piece a
/// trailing newline leaves, strip one trailing carriage return from
/// each line.
pub open spec fn spec_lines(s: Seq<char>) -> Seq<Seq<char>> {
    let raw = spec_split(s, '\n');
    let kept = if raw.last().len() == 0 {
        raw.drop_last()
    } else {
        raw
    };
    kept.map_values(|p: Seq<char>| strip_cr(p))
}

/// An ASCII decimal digit.
pub open spec fn is_digit(c: char) -> bool {
    48 <= c as u32 <= 57
}

/// The value of one digit.
pub open spec fn digit_val(c: char) -> int {
    c as u32 - 48
}

/// Every character is a digit.
pub open spec fn all_digits(s: Seq<char>) -> bool {
    forall|i: int| 0 <= i < s.len() ==> is_digit(#[trigger] s[i])
}

/// The value of a digit string, most significant first.
pub open spec fn dec_value(s: Seq<char>) -> int
    decreases s.len(),
{
    if s.len() == 0 {
        0
    } else {
        dec_value(s.drop_last()) * 10 + digit_val(s.last())
    }
}

/// A digit string's value is never negative.
pub proof fn lemma_dec_value_nonneg(s: Seq<char>)
    requires
        all_digits(s),
    ensures
        dec_value(s) >= 0,
    decreases s.len(),
{
    if s.len() > 0 {
        assert(all_digits(s.drop_last()));
        lemma_dec_value_nonneg(s.drop_last());
    }
}

/// A prefix of a digit string never exceeds the whole string's value.
pub proof fn lemma_dec_value_prefix(s: Seq<char>, j: int)
    requires
        all_digits(s),
        0 <= j <= s.len(),
    ensures
        dec_value(s.take(j)) <= dec_value(s),
    decreases s.len(),
{
    if j < s.len() {
        assert(all_digits(s.drop_last()));
        assert(s.take(j) =~= s.drop_last().take(j));
        lemma_dec_value_prefix(s.drop_last(), j);
        lemma_dec_value_nonneg(s.drop_last());
    } else {
        assert(s.take(j) =~= s);
    }
}

/// Value bounds of short digit strings.
pub proof fn lemma_dec_value_small(s: Seq<char>)
    requires
        all_digits(s),
        s.len() <= 3,
    ensures
        0 <= dec_value(s),
        s.len() <= 1 ==> dec_value(s) <= 9,
        s.len() <= 2 ==> dec_value(s) <= 99,
        dec_value(s) <= 999,
    decreases s.len(),
{
    if s.len() > 0 {
        assert(all_digits(s.drop_last()));
        lemma_dec_value_small(s.drop_last());
    }
}

/// Splits a string at every occurrence of `sep`.
pub fn split_char(s: &str, sep: char) -> (r: Vec<String>)
    ensures
        r.deep_view() == spec_split(s@, sep),
        r@.len() >= 1,
{
    let n = s.unicode_len();
    let mut pieces: Vec<String> = Vec::new();
    let mut start: usize = 0;
    let mut i: usize = 0;
    while i < n
        invariant
            start <= i <= n,
            n == s@.len(),
            spec_split(s@.take(i as int), sep)
                =~~= pieces.deep_view().push(s@.subrange(start as int, i as int)),
        decreases n - i,
    {
        let c = s.get_char(i);
        proof {
            assert(s@.take(i + 1).drop_last() =~= s@.take(i as int));
        }
        if c == sep {
            let piece = s.substring_char(start, i).to_owned();
            pieces.push(piece);
            proof {
                assert(spec_split(s@.take(i + 1), sep)
                    =~~= pieces.deep_view().push(s@.subrange(i + 1, i + 1)));
            }
            start = i + 1;
        } else {
            proof {
                let r = spec_split(s@.take(i as int), sep);
                assert(r.last() == s@.subrange(start as int, i as int));
                assert(s@.subrange(start as int, i as int).push(s@[i as int])
                    =~= s@.subrange(start as int, i + 1));
                assert(spec_split(s@.take(i + 1), sep)
                    =~~= pieces.deep_view().push(s@.subrange(start as int, i + 1)));
            }
        }
        i = i + 1;
    }
    let piece = s.substring_char(start, n).to_owned();
    pieces.push(piece);
    proof {
        assert(s@.take(n as int) =~= s@);
        assert(pieces.deep_view() =~~= spec_split(s@, sep));
    }
    pieces
}

/// Splits a string at the first `n - 1` occurrences of `sep`; the rest
/// stays in the last piece.
pub fn splitn_char(s: &str, sep: char, n: usize) -> (r: Vec<String>)
    requires
        n >= 1,
    ensures
        r.deep_view() == spec_splitn(s@, sep, n as nat),
        1 <= r@.len() <= n,
{
    let len = s.unicode_len();
    let mut pieces: Vec<String> = Vec::new();
    let mut start: usize = 0;
    let mut i: usize = 0;
    while i < len
        invariant
            start <= i <= len,
            n >= 1,
            len == s@.len(),
            pieces@.len() < n,
            spec_splitn(s@.take(i as int), sep, n as nat)
                =~~= pieces.deep_view().push(s@.subrange(start as int, i as int)),
        decreases len - i,
    {
        let c = s.get_char(i);
        proof {
            assert(s@.take(i + 1).drop_last() =~= s@.take(i as int));
        }
        if c == sep && pieces.len() + 1 < n {
            let piece = s.substring_char(start, i).to_owned();
            pieces.push(piece);
            proof {
                assert(spec_splitn(s@.take(i + 1), sep, n as nat)
                    =~~= pieces.deep_view().push(s@.subrange(i + 1, i + 1)));
            }
            start = i + 1;
        } else {
            proof {
                let r = spec_splitn(s@.take(i as int), sep, n as nat);
                assert(r.last() == s@.subrange(start as int, i as int));
                assert(s@.subrange(start as int, i as int).push(s@[i as int])
                    =~= s@.subrange(start as int, i + 1));
                assert(spec_splitn(s@.take(i + 1), sep, n as nat)
                    =~~= pieces.deep_view().push(s@.subrange(start as int, i + 1)));
            }
        }
        i = i + 1;
    }
    let piece = s.substring_char(start, len).to_owned();
    pieces.push(piece);
    proof {
        assert(s@.take(len as int) =~= s@);
        assert(pieces.deep_view() =~~= spec_splitn(s@, sep, n as nat));
    }
    pieces
}

/// Splits a text into its lines.
pub fn split_lines(s: &str) -> (r: Vec<String>)
    ensures
        r.deep_view() == spec_lines(s@),
{
    let raw = split_char(s, '\n');
    let mut kept = raw;
    let last_len = kept[kept.len() - 1].as_str().unicode_len();
    if last_len == 0 {
        kept.pop();
    }
    let mut out: Vec<String> = Vec::new();
    let mut i: usize = 0;
    proof {
        lemma_split_len(s@, '\n');
    }
    while i < kept.len()
        invariant
            i <= kept@.len(),
            kept.deep_view() == (if spec_split(s@, '\n').last().len() == 0 {
                spec_split(s@, '\n').drop_last()
            } else {
                spec_split(s@, '\n')
            }),
            out.deep_view() =~~= kept.deep_view().take(i as int).map_values(
                |p: Seq<char>| strip_cr(p)),
        decreases kept@.len() - i,
    {
        let line = &kept[i];
        let llen = line.as_str().unicode_len();
        let stripped: String;
        if llen > 0 && line.as_str().get_char(llen - 1) == '\r' {
            stripped = line.as_str().substring_char(0, llen - 1).to_owned();
            proof {
                assert(stripped@ =~= strip_cr(kept.deep_view()[i as int]));
            }
        } else {
            stripped = line.clone();
            proof {
                assert(stripped@ =~= strip_cr(kept.deep_view()[i as int]));
            }
        }
        let ghost prev = out.deep_view();
        out.push(stripped);
        proof {
            assert(out.deep_view() =~~= prev.push(stripped@));
            assert(kept.deep_view().take(i + 1).map_values(|p: Seq<char>| strip_cr(p))
                =~~= kept.deep_view().take(i as int).map_values(|p: Seq<char>| strip_cr(p))
                    .push(strip_cr(kept.deep_view()[i as int])));
        }
        i = i + 1;
    }
    proof {
        assert(kept.deep_view().take(kept.deep_view().len() as int) =~= kept.deep_view());
        assert(out.deep_view() =~~= spec_lines(s@));
    }
    out
}

/// Reads an unsigned decimal number.  Exactly the nonempty all-digit
/// strings whose value fits a `u64` are accepted.
pub fn parse_u64(s: &str) -> (r: Option<u64>)
    ensures
        r is Some <==> s@.len() >= 1 && all_digits(s@) && dec_value(s@) <= u64::MAX,
        r is Some ==> r->0 == dec_value(s@),
{
    let n = s.unicode_len();
    if n == 0 {
        return None;
    }
    let mut value: u64 = 0;
    let mut i: usize = 0;
    while i < n
        invariant
            i <= n,
            n == s@.len(),
            all_digits(s@.take(i as int)),
            value == dec_value(s@.take(i as int)),
        decreases n - i,
    {
        let c = s.get_char(i);
        let u = c as u32;
        proof {
            assert(s@.take(i + 1).drop_last() =~= s@.take(i as int));
        }
        if u < 48 || u > 57 {
            proof {
                assert(!is_digit(s@[i as int]));
            }
            return None;
        }
        let d = (u - 48) as u64;
        if value > (u64::MAX - d) / 10 {
            proof {
                lemma_fundamental_div_mod(u64::MAX - d, 10);
                lemma_mod_division_less_than_divisor(u64::MAX - d, 10);
                assert(dec_value(s@.take(i + 1)) > u64::MAX);
                if all_digits(s@) {
                    lemma_dec_value_prefix(s@, i + 1);
                }
            }
            return None;
        }
        proof {
            lemma_fundamental_div_mod(u64::MAX - d, 10);
            lemma_mod_division_less_than_divisor(u64::MAX - d, 10);
        }
        value = value * 10 + d;
        i = i + 1;
    }
    proof {
        assert(s@.take(n as int) =~= s@);
    }
    Some(value)
}

/// Whether two strings hold the same characters.
pub fn str_eq(a: &str, b: &str) -> (r: bool)
    ensures
        r == (a@ == b@),
{
    let na = a.unicode_len();
    let nb = b.unicode_len();
    if na != nb {
        return false;
    }
    let mut i: usize = 0;
    while i < na
        invariant
            i <= na,
            na == a@.len(),
            na == b@.len(),
            forall|j: int| 0 <= j < i as int ==> a@[j] == b@[j],
        decreases na - i,
    {
        if a.get_char(i) != b.get_char(i) {
            return false;
        }
        i = i + 1;
    }
    proof {
        assert(a@ =~= b@);
    }
    true
}

/// Whether every character of the string is an ASCII decimal digit.
pub fn check_all_digits(s: &str) -> (r: bool)
    ensures
        r == all_digits(s@),
{
    let n = s.unicode_len();
    let mut i: usize = 0;
    while i < n
        invariant
            i <= n,
            n == s@.len(),
            forall|j: int| 0 <= j < i as int ==> is_digit(#[trigger] s@[j]),
        decreases n - i,
    {
        let u = s.get_char(i) as u32;
        if u < 48 || u > 57 {
            return false;
        }
        i = i + 1;
    }
    true
}

/// Whether `p` occurs in `s` as a contiguous run.
pub open spec fn spec_contains_str(s: Seq<char>, p: Seq<char>) -> bool {
    exists|k: int| 0 <= k && k + p.len() <= s.len() && #[trigger] s.subrange(k, k + p.len()) == p
}

/// Whether the string contains the pattern.
pub fn contains_str(s: &str, pat: &str) -> (r: bool)
    ensures
        r == spec_contains_str(s@, pat@),
{
    let n = s.unicode_len();
    let m = pat.unicode_len();
    if m > n {
        return false;
    }
    let mut k: usize = 0;
    while k <= n - m
        invariant
            k <= n,
            m <= n,
            n == s@.len(),
            m == pat@.len(),
            forall|q: int| 0 <= q < k as int
                ==> #[trigger] s@.subrange(q, q + pat@.len()) != pat@,
        decreases n - k,
    {
        let mut j: usize = 0;
        while j < m && s.get_char(k + j) == pat.get_char(j)
            invariant
                j <= m,
                k + m <= n,
                n == s@.len(),
                m == pat@.len(),
                forall|l: int| 0 <= l < j as int ==> s@[k + l] == pat@[l],
            decreases m - j,
        {
            j = j + 1;
        }
        if j == m {
            proof {
                assert(s@.subrange(k as int, k + pat@.len()) =~= pat@);
            }
            return true;
        }
        proof {
            assert(s@.subrange(k as int, k + pat@.len())[j as int] == s@[k + j]);
            assert(s@.subrange(k as int, k + pat@.len()) != pat@);
        }
        k = k + 1;
    }
    false
}

/// Whether the string contains the character.
pub fn contains_char(s: &str, c: char) -> (r: bool)
    ensures
        r == s@.contains(c),
{
    let n = s.unicode_len();
    let mut i: usize = 0;
    while i < n
        invariant
            i <= n,
            n == s@.len(),
            forall|j: int| 0 <= j < i as int ==> s@[j] != c,
        decreases n - i,
    {
        if s.get_char(i) == c {
            return true;
        }
        i = i + 1;
    }
    false
}

} // verus!
