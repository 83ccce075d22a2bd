//! Character-level text helpers shared by the parsers and formatters: decimal integers as
//! the standard library reads them, decimal rendering, comparison and splitting.

use vstd::prelude::*;

verus! {

/// Why a string could not be read as an integer; the same cases as `core::num::IntErrorKind`.
#[derive(Debug, Clone, Copy, PartialEq, Eq)]
pub enum IntErrorKind {
    /// The string was empty.
    Empty,
    /// The string held a character that is not a digit (or a lone sign).
    InvalidDigit,
    /// The value was too large for the target type.
    PosOverflow,
    /// The value was too small for the target type.
    NegOverflow,
}

/// An integer could not be read from a string.
#[derive(Debug, Clone, Copy, PartialEq, Eq)]
pub struct ParseIntError {
    pub kind: IntErrorKind,
}

pub open spec fn is_digit(c: char) -> bool {
    '0' <= c && c <= '9'
}

pub open spec fn digit_value(c: char) -> int {
    (c as int) - ('0' as int)
}

/// The character of the decimal digit `d` (`0 <= d < 10`).
pub open spec fn digit_char(d: int) -> char {
    (d + ('0' as int)) as char
}

/// The value of a string of decimal digits, most significant first.
pub open spec fn decimal_value(s: Seq<char>) -> int
    decreases s.len(),
{
    if s.len() == 0 {
        0
    } else {
        decimal_value(s.drop_last()) * 10 + digit_value(s.last())
    }
}

/// Reads the digits of `s` from left to right, as the standard library does: the first
/// character that is not a digit, or the first prefix whose value exceeds `max`, decides
/// the error.
pub open spec fn scan_unsigned(s: Seq<char>, max: int) -> Result<int, IntErrorKind>
    decreases s.len(),
{
    if s.len() == 0 {
        Ok(0)
    } else {
        match scan_unsigned(s.drop_last(), max) {
            Err(e) => Err(e),
            Ok(v) => if !is_digit(s.last()) {
                Err(IntErrorKind::InvalidDigit)
            } else if v * 10 + digit_value(s.last()) > max {
                Err(IntErrorKind::PosOverflow)
            } else {
                Ok(v * 10 + digit_value(s.last()))
            },
        }
    }
}

/// Like [`scan_unsigned`], but accumulating a negative value bounded below by `min`.
pub open spec fn scan_negative(s: Seq<char>, min: int) -> Result<int, IntErrorKind>
    decreases s.len(),
{
    if s.len() == 0 {
        Ok(0)
    } else {
        match scan_negative(s.drop_last(), min) {
            Err(e) => Err(e),
            Ok(v) => if !is_digit(s.last()) {
                Err(IntErrorKind::InvalidDigit)
            } else if v * 10 - digit_value(s.last()) < min {
                Err(IntErrorKind::NegOverflow)
            } else {
                Ok(v * 10 - digit_value(s.last()))
            },
        }
    }
}

/// What `str::parse` gives for an unsigned integer type whose largest value is `max`.
pub open spec fn parse_unsigned(s: Seq<char>, max: int) -> Result<int, IntErrorKind> {
    if s.len() == 0 {
        Err(IntErrorKind::Empty)
    } else if s.len() == 1 && (s[0] == '+' || s[0] == '-') {
        Err(IntErrorKind::InvalidDigit)
    } else if s[0] == '+' {
        scan_unsigned(s.drop_first(), max)
    } else {
        scan_unsigned(s, max)
    }
}

/// What `str::parse` gives for a signed integer type with the range `min..=max`.
pub open spec fn parse_signed(s: Seq<char>, min: int, max: int) -> Result<int, IntErrorKind> {
    if s.len() == 0 {
        Err(IntErrorKind::Empty)
    } else if s.len() == 1 && (s[0] == '+' || s[0] == '-') {
        Err(IntErrorKind::InvalidDigit)
    } else if s[0] == '+' {
        scan_unsigned(s.drop_first(), max)
    } else if s[0] == '-' {
        scan_negative(s.drop_first(), min)
    } else {
        scan_unsigned(s, max)
    }
}

/// The shortest decimal representation of `n`.
pub open spec fn decimal_string(n: nat) -> Seq<char>
    decreases n,
{
    if n < 10 {
        seq![digit_char(n as int)]
    } else {
        decimal_string(n / 10).push(digit_char((n % 10) as int))
    }
}

/// The index of the first occurrence of `c` in `s`.
pub open spec fn index_of(s: Seq<char>, c: char) -> Option<int>
    decreases s.len(),
{
    if s.len() == 0 {
        None
    } else if s[0] == c {
        Some(0)
    } else {
        match index_of(s.drop_first(), c) {
            Some(i) => Some(i + 1),
            None => None,
        }
    }
}

/// The part of `s` before the first `sep`, and the part after it if there is a `sep`.
pub open spec fn split_once(s: Seq<char>, sep: char) -> (Seq<char>, Option<Seq<char>>) {
    match index_of(s, sep) {
        Some(i) => (s.subrange(0, i), Some(s.subrange(i + 1, s.len() as int))),
        None => (s, None),
    }
}

/// The first three items that `str::split(sep)` yields.
pub open spec fn split3(s: Seq<char>, sep: char) -> (Seq<char>, Option<Seq<char>>, Option<Seq<char>>) {
    let (a, rest) = split_once(s, sep);
    match rest {
        None => (a, None, None),
        Some(r) => {
            let (b, rest2) = split_once(r, sep);
            match rest2 {
                None => (a, Some(b), None),
                Some(r2) => (a, Some(b), Some(split_once(r2, sep).0)),
            }
        },
    }
}

/// The items that `str::splitn(3, sep)` yields.
pub open spec fn splitn3(s: Seq<char>, sep: char) -> (Seq<char>, Option<Seq<char>>, Option<Seq<char>>) {
    let (a, rest) = split_once(s, sep);
    match rest {
        None => (a, None, None),
        Some(r) => {
            let (b, rest2) = split_once(r, sep);
            (a, Some(b), rest2)
        },
    }
}

pub proof fn lemma_scan_unsigned_err_extends(p: Seq<char>, q: Seq<char>, max: int)
    requires
        scan_unsigned(p, max) is Err,
    ensures
        scan_unsigned(p + q, max) == scan_unsigned(p, max),
    decreases q.len(),
{
    if q.len() > 0 {
        lemma_scan_unsigned_err_extends(p, q.drop_last(), max);
        assert((p + q).drop_last() =~= p + q.drop_last());
    } else {
        assert(p + q =~= p);
    }
}

pub proof fn lemma_scan_negative_err_extends(p: Seq<char>, q: Seq<char>, min: int)
    requires
        scan_negative(p, min) is Err,
    ensures
        scan_negative(p + q, min) == scan_negative(p, min),
    decreases q.len(),
{
    if q.len() > 0 {
        lemma_scan_negative_err_extends(p, q.drop_last(), min);
        assert((p + q).drop_last() =~= p + q.drop_last());
    } else {
        assert(p + q =~= p);
    }
}

proof fn lemma_scan_unsigned_bounds(s: Seq<char>, max: int)
    requires
        0 <= max,
    ensures
        scan_unsigned(s, max) matches Ok(v) ==> 0 <= v <= max,
    decreases s.len(),
{
    if s.len() > 0 {
        lemma_scan_unsigned_bounds(s.drop_last(), max);
    }
}

proof fn lemma_scan_negative_bounds(s: Seq<char>, min: int)
    requires
        min <= 0,
    ensures
        scan_negative(s, min) matches Ok(v) ==> min <= v <= 0,
    decreases s.len(),
{
    if s.len() > 0 {
        lemma_scan_negative_bounds(s.drop_last(), min);
    }
}

/// What the parsers read lies in the range they were given.
pub proof fn lemma_parse_bounds(s: Seq<char>, min: int, max: int)
    requires
        min <= 0 <= max,
    ensures
        parse_unsigned(s, max) matches Ok(v) ==> 0 <= v <= max,
        parse_signed(s, min, max) matches Ok(v) ==> min <= v <= max,
{
    lemma_scan_unsigned_bounds(s, max);
    lemma_scan_negative_bounds(s, min);
    if s.len() > 0 {
        lemma_scan_unsigned_bounds(s.drop_first(), max);
        lemma_scan_negative_bounds(s.drop_first(), min);
    }
}

/// A string that starts with a character other than a digit or `+` does not parse as an
/// unsigned integer.
pub proof fn lemma_scan_first_non_digit(s: Seq<char>, max: int)
    requires
        s.len() > 0,
        !is_digit(s[0]),
        s[0] != '+',
    ensures
        parse_unsigned(s, max) is Err,
{
    if s.len() > 1 {
        let p = s.subrange(0, 1);
        assert(p.drop_last() =~= Seq::<char>::empty());
        assert(scan_unsigned(p, max) is Err);
        lemma_scan_unsigned_err_extends(p, s.subrange(1, s.len() as int), max);
        assert(p + s.subrange(1, s.len() as int) =~= s);
    } else {
        assert(s.drop_last() =~= Seq::<char>::empty());
    }
}

/// The decimal rendering of `n` is non-empty, made of digits, and reads back as `n`.
pub proof fn lemma_decimal_string(n: nat, max: int)
    requires
        n <= max,
    ensures
        decimal_string(n).len() > 0,
        forall|i: int| 0 <= i < decimal_string(n).len() ==> is_digit(#[trigger] decimal_string(n)[i]),
        decimal_value(decimal_string(n)) == n,
        scan_unsigned(decimal_string(n), max) == Ok::<int, IntErrorKind>(n as int),
    decreases n,
{
    let s = decimal_string(n);
    if n >= 10 {
        lemma_decimal_string(n / 10, max);
        let d = (n % 10) as int;
        lemma_digit_char(d);
        assert(s.drop_last() =~= decimal_string(n / 10));
        assert(s.last() == digit_char(d));
        assert((n / 10) * 10 + d == n);
        assert(decimal_value(s) == decimal_value(s.drop_last()) * 10 + digit_value(s.last()));
        assert(scan_unsigned(s.drop_last(), max) == Ok::<int, IntErrorKind>((n / 10) as int));
        assert(scan_unsigned(s, max) == Ok::<int, IntErrorKind>(n as int));
    } else {
        lemma_digit_char(n as int);
        assert(s.drop_last() =~= Seq::<char>::empty());
        assert(s.last() == digit_char(n as int));
        assert(decimal_value(s.drop_last()) == 0);
        assert(scan_unsigned(s.drop_last(), max) == Ok::<int, IntErrorKind>(0));
        assert(decimal_value(s) == n);
    }
}

pub proof fn lemma_digit_char(d: int)
    requires
        0 <= d < 10,
    ensures
        is_digit(digit_char(d)),
        digit_value(digit_char(d)) == d,
{
    assert((d + ('0' as int)) as char as int == d + 48);
}

/// A decimal rendering read back by `str::parse` gives the number.
pub proof fn lemma_parse_decimal_string(n: nat, max: int)
    requires
        n <= max,
    ensures
        parse_unsigned(decimal_string(n), max) == Ok::<int, IntErrorKind>(n as int),
{
    lemma_decimal_string(n, max);
}

/// A sequence of digits contains no `c` that is not a digit.
pub proof fn lemma_digits_index_of(s: Seq<char>, c: char)
    requires
        !is_digit(c),
        forall|i: int| 0 <= i < s.len() ==> is_digit(#[trigger] s[i]),
    ensures
        index_of(s, c) is None,
    decreases s.len(),
{
    if s.len() > 0 {
        lemma_digits_index_of(s.drop_first(), c);
    }
}

pub proof fn lemma_index_of_concat(a: Seq<char>, b: Seq<char>, c: char)
    requires
        index_of(a, c) is None,
    ensures
        index_of(a + b, c) == (match index_of(b, c) {
            Some(i) => Some(i + a.len()),
            None => None::<int>,
        }),
    decreases a.len(),
{
    if a.len() == 0 {
        assert(a + b =~= b);
    } else {
        lemma_index_of_concat(a.drop_first(), b, c);
        assert((a + b).drop_first() =~= a.drop_first() + b);
    }
}

pub proof fn lemma_index_of_found(s: Seq<char>, c: char)
    ensures
        index_of(s, c) matches Some(i) ==> 0 <= i < s.len() && s[i] == c && forall|j: int|
            0 <= j < i ==> s[j] != c,
        index_of(s, c) is None ==> forall|j: int| 0 <= j < s.len() ==> s[j] != c,
    decreases s.len(),
{
    if s.len() > 0 {
        lemma_index_of_found(s.drop_first(), c);
        if s[0] != c {
            assert forall|j: int| 1 <= j < s.len() implies s[j] == s.drop_first()[j - 1] by {}
        }
    }
}


/// Whether `s` begins with `p`.
pub open spec fn starts_with(s: Seq<char>, p: Seq<char>) -> bool {
    p.len() <= s.len() && s.subrange(0, p.len() as int) == p
}

/// Half-open ranges `[start, end)` of the pieces that a split produced.
#[derive(Debug, Clone, Copy)]
pub struct Spans {
    pub first: (usize, usize),
    pub second: Option<(usize, usize)>,
    pub third: Option<(usize, usize)>,
}

pub open spec fn span_seq(cs: Seq<char>, r: (usize, usize)) -> Seq<char> {
    cs.subrange(r.0 as int, r.1 as int)
}

pub open spec fn opt_span_seq(cs: Seq<char>, r: Option<(usize, usize)>) -> Option<Seq<char>> {
    match r {
        Some(r) => Some(span_seq(cs, r)),
        None => None,
    }
}

/// The pieces of `cs` that the spans denote.
pub open spec fn spans_seqs(cs: Seq<char>, sp: Spans) -> (Seq<char>, Option<Seq<char>>, Option<Seq<char>>) {
    (span_seq(cs, sp.first), opt_span_seq(cs, sp.second), opt_span_seq(cs, sp.third))
}

pub open spec fn span_in(r: (usize, usize), lo: usize, hi: usize) -> bool {
    lo <= r.0 <= r.1 <= hi
}

pub open spec fn spans_in(sp: Spans, lo: usize, hi: usize) -> bool {
    &&& span_in(sp.first, lo, hi)
    &&& sp.second matches Some(r) ==> span_in(r, lo, hi)
    &&& sp.third matches Some(r) ==> span_in(r, lo, hi)
}

/// Splits `cs[lo..hi]` at the first `sep`.
fn split_once_range(cs: &Vec<char>, lo: usize, hi: usize, sep: char) -> (r: ((usize, usize), Option<
    (usize, usize),
>))
    requires
        lo <= hi <= cs@.len(),
    ensures
        span_in(r.0, lo, hi),
        r.1 matches Some(x) ==> span_in(x, lo, hi),
        (span_seq(cs@, r.0), opt_span_seq(cs@, r.1)) == split_once(
            cs@.subrange(lo as int, hi as int),
            sep,
        ),
{
    let ghost s = cs@.subrange(lo as int, hi as int);
    match find_char(cs, lo, hi, sep) {
        Some(p) => {
            proof {
                let i = (p - lo) as int;
                lemma_index_of_found(s, sep);
                assert(s.subrange(0, i) =~= cs@.subrange(lo as int, p as int));
                assert(s.subrange(i + 1, s.len() as int) =~= cs@.subrange(p + 1, hi as int));
            }
            ((lo, p), Some((p + 1, hi)))
        },
        None => ((lo, hi), None),
    }
}

/// The spans of the items that `str::splitn(3, sep)` yields on `cs[lo..hi]`.
pub fn splitn3_range(cs: &Vec<char>, lo: usize, hi: usize, sep: char) -> (sp: Spans)
    requires
        lo <= hi <= cs@.len(),
    ensures
        spans_in(sp, lo, hi),
        spans_seqs(cs@, sp) == splitn3(cs@.subrange(lo as int, hi as int), sep),
{
    let (a, rest) = split_once_range(cs, lo, hi, sep);
    match rest {
        None => Spans { first: a, second: None, third: None },
        Some((s2, e2)) => {
            let (b, rest2) = split_once_range(cs, s2, e2, sep);
            Spans { first: a, second: Some(b), third: rest2 }
        },
    }
}

/// The spans of the first three items that `str::split(sep)` yields on `cs[lo..hi]`.
pub fn split3_range(cs: &Vec<char>, lo: usize, hi: usize, sep: char) -> (sp: Spans)
    requires
        lo <= hi <= cs@.len(),
    ensures
        spans_in(sp, lo, hi),
        spans_seqs(cs@, sp) == split3(cs@.subrange(lo as int, hi as int), sep),
{
    let (a, rest) = split_once_range(cs, lo, hi, sep);
    match rest {
        None => Spans { first: a, second: None, third: None },
        Some((s2, e2)) => {
            let (b, rest2) = split_once_range(cs, s2, e2, sep);
            match rest2 {
                None => Spans { first: a, second: Some(b), third: None },
                Some((s3, e3)) => {
                    let (c, _) = split_once_range(cs, s3, e3, sep);
                    Spans { first: a, second: Some(b), third: Some(c) }
                },
            }
        },
    }
}

/// The length of `lit` if `cs[lo..hi]` begins with it.
pub fn strip_prefix_len(cs: &Vec<char>, lo: usize, hi: usize, lit: &str) -> (r: Option<usize>)
    requires
        lo <= hi <= cs@.len(),
    ensures
        match r {
            Some(k) => starts_with(cs@.subrange(lo as int, hi as int), lit@) && k == lit@.len(),
            None => !starts_with(cs@.subrange(lo as int, hi as int), lit@),
        },
{
    let k = lit.unicode_len();
    if k <= hi - lo && range_eq(cs, lo, lo + k, lit) {
        assert(cs@.subrange(lo as int, hi as int).subrange(0, k as int) =~= cs@.subrange(
            lo as int,
            lo + k,
        ));
        Some(k)
    } else {
        proof {
            if k <= hi - lo {
                assert(cs@.subrange(lo as int, hi as int).subrange(0, k as int) =~= cs@.subrange(
                    lo as int,
                    lo + k,
                ));
            }
        }
        None
    }
}


/// Splitting `p + [sep] + rest` at the first `sep` gives `p` and `rest` when `p` holds no `sep`.
pub proof fn lemma_split_once_concat(p: Seq<char>, rest: Seq<char>, sep: char)
    requires
        index_of(p, sep) is None,
    ensures
        split_once(p + seq![sep] + rest, sep) == (p, Some(rest)),
{
    let s = p + seq![sep] + rest;
    lemma_index_of_concat(p, seq![sep] + rest, sep);
    assert(p + (seq![sep] + rest) =~= s);
    assert((seq![sep] + rest)[0] == sep);
    assert(index_of(seq![sep] + rest, sep) == Some(0int));
    assert(s.subrange(0, p.len() as int) =~= p);
    assert(s.subrange(p.len() as int + 1, s.len() as int) =~= rest);
}

/// `p:q:r` splits into `p`, `q` and `r` when neither `p` nor `q` holds a `sep`, whether split
/// with `splitn(3, sep)` or, when `r` holds no `sep` either, with `split(sep)`.
pub proof fn lemma_split_three(p: Seq<char>, q: Seq<char>, r: Seq<char>, sep: char)
    requires
        index_of(p, sep) is None,
        index_of(q, sep) is None,
    ensures
        splitn3(p + seq![sep] + q + seq![sep] + r, sep) == (p, Some(q), Some(r)),
        index_of(r, sep) is None ==> split3(p + seq![sep] + q + seq![sep] + r, sep) == (
            p,
            Some(q),
            Some(r),
        ),
{
    let s = p + seq![sep] + q + seq![sep] + r;
    let rest = q + seq![sep] + r;
    assert(s =~= p + seq![sep] + rest);
    lemma_split_once_concat(p, rest, sep);
    lemma_split_once_concat(q, r, sep);
}


/// `s` with every leading copy of the non-empty `p` removed (`str::trim_start_matches`).
pub open spec fn trim_start_matches(s: Seq<char>, p: Seq<char>) -> Seq<char>
    decreases s.len(),
{
    if p.len() > 0 && starts_with(s, p) {
        trim_start_matches(s.subrange(p.len() as int, s.len() as int), p)
    } else {
        s
    }
}

/// `s` without its leading `c`s.
pub open spec fn trim_start_char(s: Seq<char>, c: char) -> Seq<char>
    decreases s.len(),
{
    if s.len() > 0 && s[0] == c {
        trim_start_char(s.drop_first(), c)
    } else {
        s
    }
}

/// `s` without its trailing `c`s.
pub open spec fn trim_end_char(s: Seq<char>, c: char) -> Seq<char>
    decreases s.len(),
{
    if s.len() > 0 && s.last() == c {
        trim_end_char(s.drop_last(), c)
    } else {
        s
    }
}

/// The start of what remains of `cs[lo..hi]` once every leading copy of `lit` is removed.
pub fn trim_start_matches_range(cs: &Vec<char>, lo: usize, hi: usize, lit: &str) -> (r: usize)
    requires
        lo <= hi <= cs@.len(),
    ensures
        lo <= r <= hi,
        cs@.subrange(r as int, hi as int) == trim_start_matches(
            cs@.subrange(lo as int, hi as int),
            lit@,
        ),
{
    let mut i = lo;
    while i < hi
        invariant
            lo <= i <= hi <= cs@.len(),
            trim_start_matches(cs@.subrange(i as int, hi as int), lit@) == trim_start_matches(
                cs@.subrange(lo as int, hi as int),
                lit@,
            ),
        decreases hi - i,
    {
        match strip_prefix_len(cs, i, hi, lit) {
            Some(k) => {
                if k == 0 {
                    return i;
                }
                assert(cs@.subrange(i as int, hi as int).subrange(k as int, (hi - i) as int)
                    =~= cs@.subrange(i + k, hi as int));
                i = i + k;
            },
            None => {
                return i;
            },
        }
    }
    proof {
        let e = cs@.subrange(i as int, hi as int);
        assert(e.len() == 0);
        if lit@.len() > 0 && starts_with(e, lit@) {
            assert(false);
        }
    }
    i
}

/// The start of what remains of `cs[lo..hi]` without its leading `c`s.
pub fn trim_start_char_range(cs: &Vec<char>, lo: usize, hi: usize, c: char) -> (r: usize)
    requires
        lo <= hi <= cs@.len(),
    ensures
        lo <= r <= hi,
        cs@.subrange(r as int, hi as int) == trim_start_char(cs@.subrange(lo as int, hi as int), c),
{
    let mut i = lo;
    while i < hi && cs[i] == c
        invariant
            lo <= i <= hi <= cs@.len(),
            trim_start_char(cs@.subrange(i as int, hi as int), c) == trim_start_char(
                cs@.subrange(lo as int, hi as int),
                c,
            ),
        decreases hi - i,
    {
        assert(cs@.subrange(i as int, hi as int).drop_first() =~= cs@.subrange(i + 1, hi as int));
        i = i + 1;
    }
    i
}

/// The end of what remains of `cs[lo..hi]` without its trailing `c`s.
pub fn trim_end_char_range(cs: &Vec<char>, lo: usize, hi: usize, c: char) -> (r: usize)
    requires
        lo <= hi <= cs@.len(),
    ensures
        lo <= r <= hi,
        cs@.subrange(lo as int, r as int) == trim_end_char(cs@.subrange(lo as int, hi as int), c),
{
    let mut j = hi;
    while j > lo && cs[j - 1] == c
        invariant
            lo <= j <= hi <= cs@.len(),
            trim_end_char(cs@.subrange(lo as int, j as int), c) == trim_end_char(
                cs@.subrange(lo as int, hi as int),
                c,
            ),
        decreases j - lo,
    {
        assert(cs@.subrange(lo as int, j as int).drop_last() =~= cs@.subrange(lo as int, j - 1));
        j = j - 1;
    }
    j
}

/// The characters of `s`, in order.
pub fn chars_of(s: &str) -> (v: Vec<char>)
    ensures
        v@ == s@,
{
    let n = s.unicode_len();
    let mut v: Vec<char> = Vec::new();
    let mut i: usize = 0;
    while i < n
        invariant
            n == s@.len(),
            i <= n,
            v@ == s@.subrange(0, i as int),
        decreases n - i,
    {
        let c = s.get_char(i);
        v.push(c);
        i = i + 1;
        assert(v@ =~= s@.subrange(0, i as int));
    }
    assert(v@ =~= s@);
    v
}

/// Whether two strings hold the same characters.
pub fn str_eq(a: &str, b: &str) -> (r: bool)
    ensures
        r == (a@ == b@),
{
    let n = a.unicode_len();
    if n != b.unicode_len() {
        return false;
    }
    let mut i: usize = 0;
    while i < n
        invariant
            n == a@.len(),
            n == b@.len(),
            i <= n,
            forall|j: int| 0 <= j < i ==> a@[j] == b@[j],
        decreases n - i,
    {
        if a.get_char(i) != b.get_char(i) {
            return false;
        }
        i = i + 1;
    }
    assert(a@ =~= b@);
    true
}

/// Whether `cs[lo..hi]` holds the characters of `lit`.
pub fn range_eq(cs: &Vec<char>, lo: usize, hi: usize, lit: &str) -> (r: bool)
    requires
        lo <= hi <= cs@.len(),
    ensures
        r == (cs@.subrange(lo as int, hi as int) == lit@),
{
    let n = lit.unicode_len();
    if hi - lo != n {
        return false;
    }
    let mut i: usize = 0;
    while i < n
        invariant
            n == lit@.len(),
            hi - lo == n,
            lo <= hi <= cs@.len(),
            i <= n,
            forall|j: int| 0 <= j < i ==> cs@[lo + j] == lit@[j],
        decreases n - i,
    {
        if cs[lo + i] != lit.get_char(i) {
            assert(cs@.subrange(lo as int, hi as int)[i as int] != lit@[i as int]);
            return false;
        }
        i = i + 1;
    }
    assert(cs@.subrange(lo as int, hi as int) =~= lit@);
    true
}

/// The position of the first `c` in `cs[lo..hi]`, counted from the start of `cs`.
pub fn find_char(cs: &Vec<char>, lo: usize, hi: usize, c: char) -> (r: Option<usize>)
    requires
        lo <= hi <= cs@.len(),
    ensures
        match index_of(cs@.subrange(lo as int, hi as int), c) {
            Some(i) => r == Some((lo + i) as usize),
            None => r is None,
        },
{
    let ghost s = cs@.subrange(lo as int, hi as int);
    let mut i: usize = lo;
    while i < hi
        invariant
            lo <= i <= hi <= cs@.len(),
            s == cs@.subrange(lo as int, hi as int),
            forall|j: int| lo <= j < i ==> cs@[j] != c,
        decreases hi - i,
    {
        if cs[i] == c {
            proof {
                lemma_index_of_found(s, c);
                let k = (i - lo) as int;
                if index_of(s, c) is None {
                    assert(s[k] == c);
                } else {
                    let f = index_of(s, c)->0;
                    if f < k {
                        assert(s[f] == cs@[lo + f]);
                    }
                    if f > k {
                        assert(s[k] == c);
                    }
                }
            }
            return Some(i);
        }
        i = i + 1;
    }
    proof {
        lemma_index_of_found(s, c);
        if index_of(s, c) is Some {
            let f = index_of(s, c)->0;
            assert(s[f] == cs@[lo + f]);
        }
    }
    None
}

/// Reads `cs[lo..hi]` as the digits of an unsigned number no larger than `max`.
fn scan_unsigned_range(cs: &Vec<char>, lo: usize, hi: usize, max: u64) -> (r: Result<
    u64,
    IntErrorKind,
>)
    requires
        lo <= hi <= cs@.len(),
    ensures
        match r {
            Ok(v) => scan_unsigned(cs@.subrange(lo as int, hi as int), max as int) == Ok::<
                int,
                IntErrorKind,
            >(v as int),
            Err(e) => scan_unsigned(cs@.subrange(lo as int, hi as int), max as int) == Err::<
                int,
                IntErrorKind,
            >(e),
        },
{
    let mut v: u64 = 0;
    let mut i: usize = lo;
    assert(cs@.subrange(lo as int, lo as int) =~= Seq::<char>::empty());
    while i < hi
        invariant
            lo <= i <= hi <= cs@.len(),
            scan_unsigned(cs@.subrange(lo as int, i as int), max as int) == Ok::<int, IntErrorKind>(
                v as int,
            ),
        decreases hi - i,
    {
        let ghost p = cs@.subrange(lo as int, i as int);
        let ghost p1 = cs@.subrange(lo as int, i + 1);
        assert(p1.drop_last() =~= p);
        assert(p1.last() == cs@[i as int]);
        let c = cs[i];
        if !('0' <= c && c <= '9') {
            proof {
                lemma_scan_unsigned_err_extends(p1, cs@.subrange(i + 1, hi as int), max as int);
                assert(p1 + cs@.subrange(i + 1, hi as int) =~= cs@.subrange(lo as int, hi as int));
            }
            return Err(IntErrorKind::InvalidDigit);
        }
        let d = ((c as u32) - ('0' as u32)) as u64;
        if (v as u128) * 10 + (d as u128) > (max as u128) {
            proof {
                lemma_scan_unsigned_err_extends(p1, cs@.subrange(i + 1, hi as int), max as int);
                assert(p1 + cs@.subrange(i + 1, hi as int) =~= cs@.subrange(lo as int, hi as int));
            }
            return Err(IntErrorKind::PosOverflow);
        }
        v = v * 10 + d;
        i = i + 1;
    }
    Ok(v)
}

/// Reads `cs[lo..hi]` as the digits of a negative number no smaller than `min`.
fn scan_negative_range(cs: &Vec<char>, lo: usize, hi: usize, min: i64) -> (r: Result<
    i64,
    IntErrorKind,
>)
    requires
        lo <= hi <= cs@.len(),
        min <= 0,
    ensures
        match r {
            Ok(v) => scan_negative(cs@.subrange(lo as int, hi as int), min as int) == Ok::<
                int,
                IntErrorKind,
            >(v as int),
            Err(e) => scan_negative(cs@.subrange(lo as int, hi as int), min as int) == Err::<
                int,
                IntErrorKind,
            >(e),
        },
{
    let mut v: i64 = 0;
    let mut i: usize = lo;
    assert(cs@.subrange(lo as int, lo as int) =~= Seq::<char>::empty());
    while i < hi
        invariant
            lo <= i <= hi <= cs@.len(),
            min <= 0,
            scan_negative(cs@.subrange(lo as int, i as int), min as int) == Ok::<int, IntErrorKind>(
                v as int,
            ),
        decreases hi - i,
    {
        let ghost p = cs@.subrange(lo as int, i as int);
        let ghost p1 = cs@.subrange(lo as int, i + 1);
        assert(p1.drop_last() =~= p);
        assert(p1.last() == cs@[i as int]);
        proof {
            lemma_scan_negative_bounds(p, min as int);
        }
        let c = cs[i];
        if !('0' <= c && c <= '9') {
            proof {
                lemma_scan_negative_err_extends(p1, cs@.subrange(i + 1, hi as int), min as int);
                assert(p1 + cs@.subrange(i + 1, hi as int) =~= cs@.subrange(lo as int, hi as int));
            }
            return Err(IntErrorKind::InvalidDigit);
        }
        let d = ((c as u32) - ('0' as u32)) as i128;
        if (v as i128) * 10 - d < (min as i128) {
            proof {
                lemma_scan_negative_err_extends(p1, cs@.subrange(i + 1, hi as int), min as int);
                assert(p1 + cs@.subrange(i + 1, hi as int) =~= cs@.subrange(lo as int, hi as int));
            }
            return Err(IntErrorKind::NegOverflow);
        }
        v = ((v as i128) * 10 - d) as i64;
        i = i + 1;
    }
    Ok(v)
}

/// Reads `cs[lo..hi]` as `str::parse` reads an unsigned integer no larger than `max`.
pub fn parse_unsigned_range(cs: &Vec<char>, lo: usize, hi: usize, max: u64) -> (r: Result<
    u64,
    ParseIntError,
>)
    requires
        lo <= hi <= cs@.len(),
    ensures
        match r {
            Ok(v) => parse_unsigned(cs@.subrange(lo as int, hi as int), max as int) == Ok::<
                int,
                IntErrorKind,
            >(v as int),
            Err(e) => parse_unsigned(cs@.subrange(lo as int, hi as int), max as int) == Err::<
                int,
                IntErrorKind,
            >(e.kind),
        },
{
    let ghost s = cs@.subrange(lo as int, hi as int);
    if lo == hi {
        return Err(ParseIntError { kind: IntErrorKind::Empty });
    }
    assert(s[0] == cs@[lo as int]);
    let first = cs[lo];
    if hi - lo == 1 && (first == '+' || first == '-') {
        return Err(ParseIntError { kind: IntErrorKind::InvalidDigit });
    }
    let start = if first == '+' {
        assert(s.drop_first() =~= cs@.subrange(lo + 1, hi as int));
        lo + 1
    } else {
        lo
    };
    match scan_unsigned_range(cs, start, hi, max) {
        Ok(v) => Ok(v),
        Err(kind) => Err(ParseIntError { kind }),
    }
}

/// Reads `cs[lo..hi]` as `str::parse` reads a signed integer in `min..=max`.
pub fn parse_signed_range(cs: &Vec<char>, lo: usize, hi: usize, min: i64, max: i64) -> (r: Result<
    i64,
    ParseIntError,
>)
    requires
        lo <= hi <= cs@.len(),
        min <= 0 <= max,
    ensures
        match r {
            Ok(v) => parse_signed(cs@.subrange(lo as int, hi as int), min as int, max as int)
                == Ok::<int, IntErrorKind>(v as int),
            Err(e) => parse_signed(cs@.subrange(lo as int, hi as int), min as int, max as int)
                == Err::<int, IntErrorKind>(e.kind),
        },
{
    let ghost s = cs@.subrange(lo as int, hi as int);
    if lo == hi {
        return Err(ParseIntError { kind: IntErrorKind::Empty });
    }
    assert(s[0] == cs@[lo as int]);
    let first = cs[lo];
    if hi - lo == 1 && (first == '+' || first == '-') {
        return Err(ParseIntError { kind: IntErrorKind::InvalidDigit });
    }
    if first == '-' {
        assert(s.drop_first() =~= cs@.subrange(lo + 1, hi as int));
        return match scan_negative_range(cs, lo + 1, hi, min) {
            Ok(v) => Ok(v),
            Err(kind) => Err(ParseIntError { kind }),
        };
    }
    let start = if first == '+' {
        assert(s.drop_first() =~= cs@.subrange(lo + 1, hi as int));
        lo + 1
    } else {
        lo
    };
    match scan_unsigned_range(cs, start, hi, max as u64) {
        Ok(v) => {
            proof {
                lemma_scan_unsigned_bounds(cs@.subrange(start as int, hi as int), max as int);
            }
            Ok(v as i64)
        },
        Err(kind) => Err(ParseIntError { kind }),
    }
}

/// `String::push`: appends the character `c` to the end of `s`.
#[verifier::external_body]
pub(crate) fn push_char(s: &mut String, c: char)
    ensures
        final(s)@ == old(s)@.push(c),
{
    s.push(c);
}

/// Appends the decimal representation of `n` to `s`.
pub fn push_decimal(s: &mut String, n: u64)
    ensures
        final(s)@ == old(s)@ + decimal_string(n as nat),
    decreases n,
{
    if n >= 10 {
        push_decimal(s, n / 10);
    }
    let d = (n % 10) as u32;
    let c = char_from_digit(d);
    push_char(s, c);
    proof {
        if n >= 10 {
            assert(decimal_string(n as nat) == decimal_string((n / 10) as nat).push(
                digit_char((n % 10) as int),
            ));
        } else {
            assert(decimal_string(n as nat) =~= seq![digit_char(n as int)]);
        }
    }
    assert(final(s)@ =~= old(s)@ + decimal_string(n as nat));
}

fn char_from_digit(d: u32) -> (c: char)
    requires
        d < 10,
    ensures
        c == digit_char(d as int),
{
    match d {
        0 => '0',
        1 => '1',
        2 => '2',
        3 => '3',
        4 => '4',
        5 => '5',
        6 => '6',
        7 => '7',
        8 => '8',
        _ => '9',
    }
}

/// The decimal representation of `n`.
pub fn decimal(n: u64) -> (s: String)
    ensures
        s@ == decimal_string(n as nat),
{
    let mut s = String::new();
    push_decimal(&mut s, n);
    assert(s@ =~= decimal_string(n as nat));
    s
}

/// The one-character literal `"["`.
pub proof fn lemma_strlit_single_char()
    ensures
        "["@ == seq!['['],
{
    reveal_strlit("[");
    assert("["@ =~= seq!['[']);
}

/// A string holding the characters of `lit`.
pub fn string_of(lit: &str) -> (s: String)
    ensures
        s@ == lit@,
{
    lit.to_owned()
}

/// Appends the characters of `lit` to `s`.
pub fn push_str(s: &mut String, lit: &str)
    ensures
        final(s)@ == old(s)@ + lit@,
{
    s.append(lit);
}

} // verus!
