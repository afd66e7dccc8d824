//! Verified text utilities for the wire-format parsers: substring search,
//! whitespace trimming, line splitting, ASCII case-insensitive prefix
//! matching, and decimal rendering of status codes.

use vstd::prelude::*;
use vstd::string::*;

verus! {

/// Whether the pattern `p` occurs in `s` starting at index `i`.
pub open spec fn matches_at(s: Seq<char>, p: Seq<char>, i: int) -> bool {
    &&& 0 <= i
    &&& i + p.len() <= s.len()
    &&& forall|j: int| 0 <= j < p.len() ==> s[i + j] == p[j]
}

/// The first index at or after `from` where `p` occurs in `s`, if any.
pub open spec fn find_seq(s: Seq<char>, p: Seq<char>, from: int) -> Option<int>
    decreases s.len() - from + 1,
    when 0 <= from
{
    if from + p.len() > s.len() {
        None
    } else if matches_at(s, p, from) {
        Some(from)
    } else {
        find_seq(s, p, from + 1)
    }
}

/// Whether `p` occurs anywhere in `s`.
pub open spec fn contains_seq(s: Seq<char>, p: Seq<char>) -> bool {
    find_seq(s, p, 0) is Some
}

/// `find_seq` returns exactly the first match position at or after `from`.
pub proof fn lemma_find_seq_props(s: Seq<char>, p: Seq<char>, from: int)
    requires
        0 <= from,
    ensures
        match find_seq(s, p, from) {
            Some(i) => from <= i && matches_at(s, p, i) && forall|j: int|
                from <= j < i ==> !matches_at(s, p, j),
            None => forall|j: int| from <= j ==> !matches_at(s, p, j),
        },
    decreases s.len() - from + 1,
{
    if from + p.len() > s.len() {
        assert forall|j: int| from <= j implies !matches_at(s, p, j) by {}
    } else if matches_at(s, p, from) {
    } else {
        lemma_find_seq_props(s, p, from + 1);
    }
}

/// Finds the first occurrence of `pat` in `s` at or after character index
/// `from`, as a character index.
pub fn find_from(s: &str, pat: &str, from: usize) -> (r: Option<usize>)
    ensures
        r matches Some(i) ==> find_seq(s@, pat@, from as int) == Some(i as int),
        r is None ==> find_seq(s@, pat@, from as int) is None,
{
    let n = s.unicode_len();
    let m = pat.unicode_len();
    if from > n || m > n - from {
        proof {
            lemma_find_seq_none_short(s@, pat@, from as int);
        }
        return None;
    }
    let mut i = from;
    while i <= n - m
        invariant
            from <= i,
            i <= n + 1,
            m <= n - from,
            from <= n,
            n == s@.len(),
            m == pat@.len(),
            forall|j: int| from <= j < i ==> !matches_at(s@, pat@, j),
        decreases n - i,
    {
        let mut k: usize = 0;
        let mut hit = true;
        while hit && k < m
            invariant
                0 <= k <= m,
                i + m <= n,
                n == s@.len(),
                m == pat@.len(),
                hit ==> forall|j: int| 0 <= j < k ==> s@[i + j] == pat@[j],
                !hit ==> !matches_at(s@, pat@, i as int),
            decreases m - k + (if hit { 1int } else { 0int }),
        {
            if s.get_char(i + k) != pat.get_char(k) {
                hit = false;
            } else {
                k += 1;
            }
        }
        if hit {
            proof {
                assert(matches_at(s@, pat@, i as int));
                lemma_find_seq_first(s@, pat@, from as int, i as int);
            }
            return Some(i);
        }
        proof {
            assert(!matches_at(s@, pat@, i as int));
        }
        i += 1;
    }
    proof {
        lemma_find_seq_no_match(s@, pat@, from as int);
    }
    None
}

/// When the pattern cannot fit after `from`, there is no match.
proof fn lemma_find_seq_none_short(s: Seq<char>, p: Seq<char>, from: int)
    requires
        0 <= from,
        from > s.len() || p.len() > s.len() - from,
    ensures
        find_seq(s, p, from) is None,
    decreases s.len() - from + 1,
{
    if from + p.len() <= s.len() {
        lemma_find_seq_none_short(s, p, from + 1);
    }
}

/// A match at `i` with no match before it pins down `find_seq`.
proof fn lemma_find_seq_first(s: Seq<char>, p: Seq<char>, from: int, i: int)
    requires
        0 <= from <= i,
        matches_at(s, p, i),
        forall|j: int| from <= j < i ==> !matches_at(s, p, j),
    ensures
        find_seq(s, p, from) == Some(i),
    decreases i - from,
{
    if from < i {
        lemma_find_seq_first(s, p, from + 1, i);
    }
}

/// No match anywhere at or after `from` pins `find_seq` to `None`.
proof fn lemma_find_seq_no_match(s: Seq<char>, p: Seq<char>, from: int)
    requires
        0 <= from,
        forall|j: int| from <= j ==> !matches_at(s, p, j),
    ensures
        find_seq(s, p, from) is None,
    decreases s.len() - from + 1,
{
    if from + p.len() <= s.len() {
        lemma_find_seq_no_match(s, p, from + 1);
    }
}

/// Whether `pat` occurs anywhere in `s`.
pub fn contains_str(s: &str, pat: &str) -> (r: bool)
    ensures
        r == contains_seq(s@, pat@),
{
    find_from(s, pat, 0).is_some()
}

/// The characters of an optional string.
pub open spec fn view_opt(o: Option<String>) -> Option<Seq<char>> {
    match o {
        Some(s) => Some(s@),
        None => None,
    }
}

/// The whitespace characters stripped by trimming.
pub open spec fn is_space(c: char) -> bool {
    c == ' ' || c == '\t' || c == '\r' || c == '\n'
}

/// `s` with leading whitespace removed.
pub open spec fn trim_front(s: Seq<char>) -> Seq<char>
    decreases s.len(),
{
    if s.len() > 0 && is_space(s[0]) {
        trim_front(s.subrange(1, s.len() as int))
    } else {
        s
    }
}

/// `s` with trailing whitespace removed.
pub open spec fn trim_back(s: Seq<char>) -> Seq<char>
    decreases s.len(),
{
    if s.len() > 0 && is_space(s[s.len() - 1]) {
        trim_back(s.subrange(0, s.len() - 1))
    } else {
        s
    }
}

/// `s` with leading and trailing whitespace removed.
pub open spec fn trim_seq(s: Seq<char>) -> Seq<char> {
    trim_back(trim_front(s))
}

/// Leading whitespace up to a non-space character at `a` pins `trim_front`.
proof fn lemma_trim_front_at(s: Seq<char>, a: int)
    requires
        0 <= a <= s.len(),
        forall|j: int| 0 <= j < a ==> is_space(s[j]),
        a < s.len() ==> !is_space(s[a]),
    ensures
        trim_front(s) == s.subrange(a, s.len() as int),
    decreases a,
{
    if a == 0 {
        assert(s.subrange(0, s.len() as int) =~= s);
    } else {
        let s1 = s.subrange(1, s.len() as int);
        lemma_trim_front_at(s1, a - 1);
        assert(s1.subrange(a - 1, s1.len() as int) =~= s.subrange(a, s.len() as int));
    }
}

/// Trailing whitespace from `b` on, with a non-space just before, pins
/// `trim_back`.
proof fn lemma_trim_back_at(s: Seq<char>, b: int)
    requires
        0 <= b <= s.len(),
        forall|j: int| b <= j < s.len() ==> is_space(s[j]),
        b > 0 ==> !is_space(s[b - 1]),
    ensures
        trim_back(s) == s.subrange(0, b),
    decreases s.len() - b,
{
    if b == s.len() {
        assert(s.subrange(0, s.len() as int) =~= s);
    } else {
        let s1 = s.subrange(0, s.len() - 1);
        lemma_trim_back_at(s1, b);
        assert(s1.subrange(0, b) =~= s.subrange(0, b));
    }
}

/// Whether `c` is one of the whitespace characters trimmed by `trim_str`.
pub fn is_space_char(c: char) -> (r: bool)
    ensures
        r == is_space(c),
{
    c == ' ' || c == '\t' || c == '\r' || c == '\n'
}

/// Removes leading and trailing whitespace.
pub fn trim_str(s: &str) -> (r: String)
    ensures
        r@ == trim_seq(s@),
{
    let n = s.unicode_len();
    let mut a: usize = 0;
    while a < n && is_space_char(s.get_char(a))
        invariant
            0 <= a <= n,
            n == s@.len(),
            forall|j: int| 0 <= j < a ==> is_space(s@[j]),
        decreases n - a,
    {
        a += 1;
    }
    let mut b: usize = n;
    while b > a && is_space_char(s.get_char(b - 1))
        invariant
            a <= b <= n,
            n == s@.len(),
            forall|j: int| b <= j < n ==> is_space(s@[j]),
        decreases b,
    {
        b -= 1;
    }
    proof {
        lemma_trim_front_at(s@, a as int);
        let t = s@.subrange(a as int, n as int);
        lemma_trim_back_at(t, b - a);
        assert(t.subrange(0, b - a) =~= s@.subrange(a as int, b as int));
    }
    let piece = s.substring_char(a, b);
    String::from_str(piece)
}

/// The code point of `c` with ASCII upper-case letters folded to lower case.
pub open spec fn lower_code(c: char) -> int {
    if 65 <= c as int && c as int <= 90 {
        c as int + 32
    } else {
        c as int
    }
}

/// Whether `line` begins with `name`, compared ASCII case-insensitively.
pub open spec fn header_match(line: Seq<char>, name: Seq<char>) -> bool {
    &&& line.len() >= name.len()
    &&& forall|j: int| 0 <= j < name.len() ==> lower_code(line[j]) == lower_code(name[j])
}

/// Tests whether `s` starts with `prefix`, ignoring ASCII case.
pub fn starts_with_ignore_case(s: &str, prefix: &str) -> (r: bool)
    ensures
        r == header_match(s@, prefix@),
{
    let n = s.unicode_len();
    let m = prefix.unicode_len();
    if n < m {
        return false;
    }
    let mut k: usize = 0;
    while k < m
        invariant
            0 <= k <= m,
            m <= n,
            n == s@.len(),
            m == prefix@.len(),
            forall|j: int| 0 <= j < k ==> lower_code(s@[j]) == lower_code(prefix@[j]),
        decreases m - k,
    {
        let a = s.get_char(k) as u32;
        let b = prefix.get_char(k) as u32;
        let la = if 65 <= a && a <= 90 { a + 32 } else { a };
        let lb = if 65 <= b && b <= 90 { b + 32 } else { b };
        if la != lb {
            return false;
        }
        k += 1;
    }
    true
}

/// A line with a trailing carriage return stripped.
pub open spec fn strip_cr(l: Seq<char>) -> Seq<char> {
    if l.len() > 0 && l[l.len() - 1] == '\r' {
        l.subrange(0, l.len() - 1)
    } else {
        l
    }
}

/// The index of the first line feed at or after `i`, or the end of `s`.
pub open spec fn line_end(s: Seq<char>, i: int) -> int
    decreases s.len() - i,
    when 0 <= i
{
    if i >= s.len() {
        s.len() as int
    } else if s[i] == '\n' {
        i
    } else {
        line_end(s, i + 1)
    }
}

/// Bounds and characterization of `line_end`.
proof fn lemma_line_end(s: Seq<char>, i: int)
    requires
        0 <= i <= s.len(),
    ensures
        i <= line_end(s, i) <= s.len(),
        forall|j: int| i <= j < line_end(s, i) ==> s[j] != '\n',
        line_end(s, i) < s.len() ==> s[line_end(s, i)] == '\n',
    decreases s.len() - i,
{
    if i < s.len() && s[i] != '\n' {
        lemma_line_end(s, i + 1);
    }
}

/// A stretch without line feeds ending at a line feed or the end pins
/// `line_end`.
proof fn lemma_line_end_eq(s: Seq<char>, i: int, e: int)
    requires
        0 <= i <= e <= s.len(),
        forall|j: int| i <= j < e ==> s[j] != '\n',
        e < s.len() ==> s[e] == '\n',
    ensures
        line_end(s, i) == e,
    decreases e - i,
{
    if i < e {
        lemma_line_end_eq(s, i + 1, e);
    }
}

/// The lines of `s` starting at index `i`: split at line feeds, each line
/// stripped of one trailing carriage return.
pub open spec fn lines_from(s: Seq<char>, i: int) -> Seq<Seq<char>>
    decreases s.len() - i + 1,
    when 0 <= i
    via lines_from_dec
{
    if i >= s.len() {
        Seq::empty()
    } else {
        seq![strip_cr(s.subrange(i, line_end(s, i)))] + lines_from(s, line_end(s, i) + 1)
    }
}

#[via_fn]
proof fn lines_from_dec(s: Seq<char>, i: int) {
    if i < s.len() {
        lemma_line_end(s, i);
    }
}

/// The lines of `s`, as `str::lines` yields them: split at line feeds, one
/// trailing carriage return stripped per line, no empty final line.
pub open spec fn lines_spec(s: Seq<char>) -> Seq<Seq<char>> {
    lines_from(s, 0)
}

/// Splits `s` into its lines.
pub fn split_lines(s: &str) -> (r: Vec<String>)
    ensures
        r@.len() == lines_spec(s@).len(),
        forall|k: int| 0 <= k < r@.len() ==> r@[k]@ == lines_spec(s@)[k],
{
    let n = s.unicode_len();
    let mut out: Vec<String> = Vec::new();
    let ghost mut done: Seq<Seq<char>> = Seq::empty();
    proof {
        assert(done + lines_from(s@, 0) =~= lines_from(s@, 0));
    }
    let mut i: usize = 0;
    while i < n
        invariant
            0 <= i <= n + 1,
            n == s@.len(),
            done + lines_from(s@, i as int) == lines_spec(s@),
            out@.len() == done.len(),
            forall|k: int| 0 <= k < out@.len() ==> out@[k]@ == done[k],
        decreases n - i,
    {
        let mut e = i;
        while e < n && s.get_char(e) != '\n'
            invariant
                i <= e <= n,
                n == s@.len(),
                forall|j: int| i <= j < e ==> s@[j] != '\n',
            decreases n - e,
        {
            e += 1;
        }
        proof {
            lemma_line_end_eq(s@, i as int, e as int);
        }
        let stop = if e > i && s.get_char(e - 1) == '\r' {
            e - 1
        } else {
            e
        };
        let line = String::from_str(s.substring_char(i, stop));
        proof {
            assert(line@ =~= strip_cr(s@.subrange(i as int, e as int)));
            assert(done.push(line@) + lines_from(s@, e + 1) =~= done + lines_from(
                s@,
                i as int,
            ));
            done = done.push(line@);
        }
        out.push(line);
        if e < n {
            i = e + 1;
        } else {
            proof {
                assert(lines_from(s@, e + 1) =~= lines_from(s@, n as int));
            }
            i = n;
        }
    }
    proof {
        assert(done + lines_from(s@, i as int) =~= done);
    }
    out
}

/// The decimal digit character for `d`.
pub open spec fn digit_char(d: int) -> char {
    if d == 0 {
        '0'
    } else if d == 1 {
        '1'
    } else if d == 2 {
        '2'
    } else if d == 3 {
        '3'
    } else if d == 4 {
        '4'
    } else if d == 5 {
        '5'
    } else if d == 6 {
        '6'
    } else if d == 7 {
        '7'
    } else if d == 8 {
        '8'
    } else {
        '9'
    }
}

/// The decimal representation of `n`, most significant digit first.
pub open spec fn dec_seq(n: int) -> Seq<char>
    decreases n,
    when n >= 0
{
    if n < 10 {
        seq![digit_char(n)]
    } else {
        dec_seq(n / 10) + seq![digit_char(n % 10)]
    }
}

/// The single-character string for a decimal digit.
fn digit_str(d: u16) -> (r: &'static str)
    requires
        d < 10,
    ensures
        r@ == seq![digit_char(d as int)],
{
    proof {
        reveal_strlit("0");
        reveal_strlit("1");
        reveal_strlit("2");
        reveal_strlit("3");
        reveal_strlit("4");
        reveal_strlit("5");
        reveal_strlit("6");
        reveal_strlit("7");
        reveal_strlit("8");
        reveal_strlit("9");
    }
    let r = match d {
        0 => "0",
        1 => "1",
        2 => "2",
        3 => "3",
        4 => "4",
        5 => "5",
        6 => "6",
        7 => "7",
        8 => "8",
        _ => "9",
    };
    proof {
        assert(r@ =~= seq![digit_char(d as int)]);
    }
    r
}

/// Renders `n` in decimal.
pub fn dec_str_u16(n: u16) -> (r: String)
    ensures
        r@ == dec_seq(n as int),
    decreases n,
{
    if n < 10 {
        String::from_str(digit_str(n))
    } else {
        let mut s = dec_str_u16(n / 10);
        s.append(digit_str(n % 10));
        proof {
            assert(s@ =~= dec_seq(n as int));
        }
        s
    }
}

} // verus!
