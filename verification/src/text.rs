//! Character-sequence utilities shared by the parsers and builders: substring
//! containment, string equality, splitting into lines, and decimal rendering
//! of integers.

use vstd::prelude::*;

verus! {

/// `needle` occurs in `hay` starting exactly at position `i`.
pub open spec fn matches_at(hay: Seq<char>, needle: Seq<char>, i: int) -> bool {
    0 <= i && i + needle.len() <= hay.len() && hay.subrange(i, i + needle.len()) == needle
}

/// `needle` occurs as a contiguous run inside `hay`.
pub open spec fn contains_seq(hay: Seq<char>, needle: Seq<char>) -> bool {
    exists|i: int| #[trigger] matches_at(hay, needle, i)
}

proof fn lemma_matches_at_contains(hay: Seq<char>, needle: Seq<char>, i: int)
    requires
        matches_at(hay, needle, i),
    ensures
        contains_seq(hay, needle),
{
}

/// Whether `hay[i..i+needle.len()] == needle`, checked character by character.
fn matches_at_exec(hay: &str, needle: &str, i: usize, hay_len: usize, needle_len: usize) -> (r:
    bool)
    requires
        hay_len == hay@.len(),
        needle_len == needle@.len(),
        i + needle_len <= hay_len,
    ensures
        r == matches_at(hay@, needle@, i as int),
{
    let mut j: usize = 0;
    while j < needle_len
        invariant
            hay_len == hay@.len(),
            needle_len == needle@.len(),
            i + needle_len <= hay_len,
            j <= needle_len,
            forall|k: int| 0 <= k < j ==> hay@[i + k] == needle@[k],
        decreases needle_len - j,
    {
        if hay.get_char(i + j) != needle.get_char(j) {
            assert(hay@.subrange(i as int, i + needle@.len()) != needle@) by {
                assert(hay@.subrange(i as int, i + needle@.len())[j as int] != needle@[j as int]);
            }
            return false;
        }
        j += 1;
    }
    assert(hay@.subrange(i as int, i + needle@.len()) =~= needle@);
    true
}

/// Substring search: does `needle` occur anywhere in `hay`?
pub fn str_contains(hay: &str, needle: &str) -> (r: bool)
    ensures
        r == contains_seq(hay@, needle@),
{
    let hay_len = hay.unicode_len();
    let needle_len = needle.unicode_len();
    if needle_len > hay_len {
        assert(!contains_seq(hay@, needle@));
        return false;
    }
    if needle_len == 0 {
        assert(matches_at(hay@, needle@, 0)) by {
            assert(hay@.subrange(0, 0) =~= needle@);
        }
        return true;
    }
    let mut i: usize = 0;
    while i <= hay_len - needle_len
        invariant
            hay_len == hay@.len(),
            needle_len == needle@.len(),
            0 < needle_len <= hay_len,
            i <= hay_len - needle_len + 1,
            forall|k: int| 0 <= k < i ==> !matches_at(hay@, needle@, k),
        decreases hay_len - i,
    {
        if matches_at_exec(hay, needle, i, hay_len, needle_len) {
            proof {
                lemma_matches_at_contains(hay@, needle@, i as int);
            }
            return true;
        }
        i += 1;
    }
    assert(forall|k: int| matches_at(hay@, needle@, k) ==> 0 <= k <= hay@.len() - needle@.len());
    false
}

/// Character-for-character equality of two string slices.
pub fn str_eq(a: &str, b: &str) -> (r: bool)
    ensures
        r == (a@ == b@),
{
    let a_len = a.unicode_len();
    let b_len = b.unicode_len();
    if a_len != b_len {
        return false;
    }
    let mut i: usize = 0;
    while i < a_len
        invariant
            a_len == a@.len(),
            b_len == b@.len(),
            a_len == b_len,
            i <= a_len,
            forall|k: int| 0 <= k < i ==> a@[k] == b@[k],
        decreases a_len - i,
    {
        if a.get_char(i) != b.get_char(i) {
            return false;
        }
        i += 1;
    }
    assert(a@ =~= b@);
    true
}

/// The character for one decimal digit.
pub open spec fn digit_char(d: nat) -> char {
    if d == 0 {
        '0'
    } else if d == 1 {
        '1'
    } else if d == 2 {
        '2'
    } else if d == 3 {
        '3'
    } else if d == 4 {
        '4'
    } else if d == 5 {
        '5'
    } else if d == 6 {
        '6'
    } else if d == 7 {
        '7'
    } else if d == 8 {
        '8'
    } else {
        '9'
    }
}

/// Decimal rendering of a natural number, most significant digit first,
/// without leading zeros (except for zero itself).
pub open spec fn dec_rep(n: nat) -> Seq<char>
    decreases n,
{
    if n < 10 {
        seq![digit_char(n)]
    } else {
        dec_rep(n / 10).push(digit_char(n % 10))
    }
}

/// The one-character string slice for a decimal digit.
fn digit_str(d: u64) -> (r: &'static str)
    requires
        d < 10,
    ensures
        r@ =~= seq![digit_char(d as nat)],
{
    proof {
        reveal_strlit("0");
        reveal_strlit("1");
        reveal_strlit("2");
        reveal_strlit("3");
        reveal_strlit("4");
        reveal_strlit("5");
        reveal_strlit("6");
        reveal_strlit("7");
        reveal_strlit("8");
        reveal_strlit("9");
    }
    match d {
        0 => "0",
        1 => "1",
        2 => "2",
        3 => "3",
        4 => "4",
        5 => "5",
        6 => "6",
        7 => "7",
        8 => "8",
        _ => "9",
    }
}

/// Renders `n` in decimal.
pub fn u64_to_string(n: u64) -> (s: String)
    ensures
        s@ == dec_rep(n as nat),
    decreases n,
{
    if n < 10 {
        String::from_str(digit_str(n))
    } else {
        let mut s = u64_to_string(n / 10);
        s.append(digit_str(n % 10));
        assert(s@ =~= dec_rep(n as nat));
        s
    }
}

/// A decimal digit.
pub open spec fn is_digit(c: char) -> bool {
    '0' <= c && c <= '9'
}

/// Horizontal whitespace inside a diagnostic line.
pub open spec fn is_blank(c: char) -> bool {
    c == ' ' || c == '\t'
}

/// The first position at or after `i` that does not hold a decimal digit.
pub open spec fn digit_run_end(s: Seq<char>, i: int) -> int
    decreases s.len() - i,
    when i <= s.len()
{
    if i < 0 || i >= s.len() || !is_digit(s[i]) {
        i
    } else {
        digit_run_end(s, i + 1)
    }
}

/// The first position at or after `i` that does not hold a blank.
pub open spec fn blank_run_end(s: Seq<char>, i: int) -> int
    decreases s.len() - i,
    when i <= s.len()
{
    if i < 0 || i >= s.len() || !is_blank(s[i]) {
        i
    } else {
        blank_run_end(s, i + 1)
    }
}

/// The first position at or after `i` that holds a blank, or the end.
pub open spec fn nonblank_run_end(s: Seq<char>, i: int) -> int
    decreases s.len() - i,
    when i <= s.len()
{
    if i < 0 || i >= s.len() || is_blank(s[i]) {
        i
    } else {
        nonblank_run_end(s, i + 1)
    }
}

/// The first position at or after `i` that holds a closing bracket, or the
/// end.
pub open spec fn nonbracket_run_end(s: Seq<char>, i: int) -> int
    decreases s.len() - i,
    when i <= s.len()
{
    if i < 0 || i >= s.len() || s[i] == ']' {
        i
    } else {
        nonbracket_run_end(s, i + 1)
    }
}

/// Scans past decimal digits starting at `i`.
pub fn scan_digits(s: &str, i: usize, len: usize) -> (r: usize)
    requires
        len == s@.len(),
        i <= len,
    ensures
        r == digit_run_end(s@, i as int),
        i <= r <= len,
{
    let mut j = i;
    while j < len
        invariant
            len == s@.len(),
            i <= j <= len,
            digit_run_end(s@, i as int) == digit_run_end(s@, j as int),
        decreases len - j,
    {
        let c = s.get_char(j);
        if !('0' <= c && c <= '9') {
            return j;
        }
        j += 1;
    }
    j
}

/// Scans past blanks starting at `i`.
pub fn scan_blanks(s: &str, i: usize, len: usize) -> (r: usize)
    requires
        len == s@.len(),
        i <= len,
    ensures
        r == blank_run_end(s@, i as int),
        i <= r <= len,
{
    let mut j = i;
    while j < len
        invariant
            len == s@.len(),
            i <= j <= len,
            blank_run_end(s@, i as int) == blank_run_end(s@, j as int),
        decreases len - j,
    {
        let c = s.get_char(j);
        if !(c == ' ' || c == '\t') {
            return j;
        }
        j += 1;
    }
    j
}

/// Scans past non-blank characters starting at `i`.
pub fn scan_nonblanks(s: &str, i: usize, len: usize) -> (r: usize)
    requires
        len == s@.len(),
        i <= len,
    ensures
        r == nonblank_run_end(s@, i as int),
        i <= r <= len,
{
    let mut j = i;
    while j < len
        invariant
            len == s@.len(),
            i <= j <= len,
            nonblank_run_end(s@, i as int) == nonblank_run_end(s@, j as int),
        decreases len - j,
    {
        let c = s.get_char(j);
        if c == ' ' || c == '\t' {
            return j;
        }
        j += 1;
    }
    j
}

/// Scans up to the next closing bracket starting at `i`.
pub fn scan_nonbrackets(s: &str, i: usize, len: usize) -> (r: usize)
    requires
        len == s@.len(),
        i <= len,
    ensures
        r == nonbracket_run_end(s@, i as int),
        i <= r <= len,
{
    let mut j = i;
    while j < len
        invariant
            len == s@.len(),
            i <= j <= len,
            nonbracket_run_end(s@, i as int) == nonbracket_run_end(s@, j as int),
        decreases len - j,
    {
        let c = s.get_char(j);
        if c == ']' {
            return j;
        }
        j += 1;
    }
    j
}

/// The views of a sequence of strings.
pub open spec fn string_views(strs: Seq<String>) -> Seq<Seq<char>> {
    strs.map_values(|s: String| s@)
}

/// A line chunk with one trailing carriage return removed.
pub open spec fn strip_cr(line: Seq<char>) -> Seq<char> {
    if line.len() > 0 && line.last() == '\r' {
        line.drop_last()
    } else {
        line
    }
}

/// Splitting on every newline character; the result always holds at least
/// one (possibly empty) chunk, and newline characters appear in none.
pub open spec fn raw_split_nl(s: Seq<char>) -> Seq<Seq<char>>
    decreases s.len(),
{
    if s.len() == 0 {
        seq![Seq::<char>::empty()]
    } else if s.last() == '\n' {
        raw_split_nl(s.drop_last()).push(Seq::<char>::empty())
    } else {
        let r = raw_split_nl(s.drop_last());
        r.update(r.len() - 1, r.last().push(s.last()))
    }
}

pub proof fn lemma_raw_split_nl_nonempty(s: Seq<char>)
    ensures
        raw_split_nl(s).len() >= 1,
    decreases s.len(),
{
    if s.len() > 0 {
        lemma_raw_split_nl_nonempty(s.drop_last());
    }
}

/// The lines of `s`: chunks between newlines, each with a trailing carriage
/// return removed, and no final empty chunk after a terminating newline.
pub open spec fn spec_lines(s: Seq<char>) -> Seq<Seq<char>> {
    if s.len() == 0 {
        Seq::<Seq<char>>::empty()
    } else {
        let raw = raw_split_nl(s);
        let chunks = if raw.last().len() == 0 {
            raw.drop_last()
        } else {
            raw
        };
        chunks.map_values(|c: Seq<char>| strip_cr(c))
    }
}

/// Splits `text` into lines, mirroring `spec_lines`.
pub fn split_lines(text: &str) -> (lines: Vec<String>)
    ensures
        lines@.map_values(|l: String| l@) == spec_lines(text@),
{
    let len = text.unicode_len();
    let mut lines: Vec<String> = Vec::new();
    if len == 0 {
        assert(lines@.map_values(|l: String| l@) =~= spec_lines(text@));
        return lines;
    }
    let mut start: usize = 0;
    let mut i: usize = 0;
    while i < len
        invariant
            len == text@.len(),
            0 < len,
            start <= i <= len,
            lines@.len() + 1 == raw_split_nl(text@.subrange(0, i as int)).len(),
            lines@.map_values(|l: String| l@) =~= raw_split_nl(
                text@.subrange(0, i as int),
            ).drop_last().map_values(|c: Seq<char>| strip_cr(c)),
            text@.subrange(start as int, i as int) =~= raw_split_nl(
                text@.subrange(0, i as int),
            ).last(),
            raw_split_nl(text@.subrange(0, i as int)).last().len() == i - start,
        decreases len - i,
    {
        proof {
            lemma_raw_split_nl_nonempty(text@.subrange(0, i as int));
            assert(text@.subrange(0, i + 1).drop_last() =~= text@.subrange(0, i as int));
        }
        let c = text.get_char(i);
        if c == '\n' {
            let end = if i > start && text.get_char(i - 1) == '\r' {
                i - 1
            } else {
                i
            };
            let chunk = text.substring_char(start, end);
            proof {
                assert(strip_cr(text@.subrange(start as int, i as int)) =~= text@.subrange(
                    start as int,
                    end as int,
                ));
            }
            lines.push(String::from_str(chunk));
            start = i + 1;
            proof {
                let prev = text@.subrange(0, i as int);
                let now = text@.subrange(0, i + 1);
                assert(raw_split_nl(now) =~= raw_split_nl(prev).push(Seq::<char>::empty()));
                assert(raw_split_nl(now).drop_last() =~= raw_split_nl(prev));
                let target = raw_split_nl(now).drop_last().map_values(|c: Seq<char>| strip_cr(c));
                let got = lines@.map_values(|l: String| l@);
                assert(got.len() == target.len());
                assert forall|k: int| 0 <= k < got.len() implies got[k] == target[k] by {
                    assert(got[k] == lines@[k]@);
                    assert(target[k] == strip_cr(raw_split_nl(prev)[k]));
                    if k < lines@.len() - 1 {
                        assert(lines@[k]@ == raw_split_nl(prev).drop_last().map_values(
                            |c: Seq<char>| strip_cr(c),
                        )[k]);
                        assert(raw_split_nl(prev).drop_last()[k] == raw_split_nl(prev)[k]);
                    } else {
                        assert(lines@[k]@ == strip_cr(raw_split_nl(prev).last()));
                    }
                }
                assert(got =~= target);
                assert(text@.subrange(start as int, i + 1) =~= raw_split_nl(now).last());
            }
        } else {
            proof {
                let prev = text@.subrange(0, i as int);
                let now = text@.subrange(0, i + 1);
                let r = raw_split_nl(prev);
                assert(raw_split_nl(now) =~= r.update(r.len() - 1, r.last().push(text@[i as int])));
                assert(raw_split_nl(now).drop_last() =~= r.drop_last());
                assert(lines@.map_values(|l: String| l@) =~= raw_split_nl(now).drop_last().map_values(
                    |c: Seq<char>| strip_cr(c),
                ));
                assert(text@.subrange(start as int, i + 1) =~= raw_split_nl(now).last());
            }
        }
        i += 1;
    }
    proof {
        assert(text@.subrange(0, len as int) =~= text@);
        lemma_raw_split_nl_nonempty(text@);
    }
    if start == len {
        proof {
            assert(raw_split_nl(text@).last().len() == 0);
            assert(lines@.map_values(|l: String| l@) =~= spec_lines(text@));
        }
        return lines;
    }
    let end = if text.get_char(len - 1) == '\r' {
        len - 1
    } else {
        len
    };
    let chunk = text.substring_char(start, end);
    proof {
        assert(strip_cr(text@.subrange(start as int, len as int)) =~= text@.subrange(
            start as int,
            end as int,
        ));
    }
    lines.push(String::from_str(chunk));
    proof {
        let raw = raw_split_nl(text@);
        assert(raw.last().len() > 0);
        assert(raw =~= raw.drop_last().push(raw.last()));
        let target = raw.map_values(|c: Seq<char>| strip_cr(c));
        let got = lines@.map_values(|l: String| l@);
        assert(got.len() == target.len());
        assert forall|k: int| 0 <= k < got.len() implies got[k] == target[k] by {
            assert(got[k] == lines@[k]@);
            assert(target[k] == strip_cr(raw[k]));
            if k < lines@.len() - 1 {
                assert(lines@[k]@ == raw.drop_last().map_values(|c: Seq<char>| strip_cr(c))[k]);
                assert(raw.drop_last()[k] == raw[k]);
            } else {
                assert(lines@[k]@ == strip_cr(raw.last()));
            }
        }
        assert(got =~= target);
        assert(lines@.map_values(|l: String| l@) =~= spec_lines(text@));
    }
    lines
}

} // verus!
