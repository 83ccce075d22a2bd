//! What is known about a game server from outside: where it is, as `geoiplookup` reports it.

use vstd::prelude::*;

use crate::text::{chars_of, find_char, index_of, range_eq};

verus! {

/// Where a server is located.
#[derive(Debug, Clone)]
pub struct GeoInfo {
    pub country_code: String,
    pub region: String,
}

/// `p` occurs in `s` at `i`.
pub open spec fn matches_at(s: Seq<char>, p: Seq<char>, i: int) -> bool {
    0 <= i && i + p.len() <= s.len() && s.subrange(i, i + p.len()) == p
}

/// The first index at which `p` occurs in `s` (`str::find`).
#[verifier::opaque]
pub open spec fn find(s: Seq<char>, p: Seq<char>) -> Option<int> {
    if exists|i: int| matches_at(s, p, i) {
        Some(choose|i: int| matches_at(s, p, i) && forall|j: int| 0 <= j < i ==> !matches_at(s, p, j))
    } else {
        None
    }
}

/// The parts of `s` before and after the first `p` (`str::split_once`).
pub open spec fn split_once_str(s: Seq<char>, p: Seq<char>) -> Option<(Seq<char>, Seq<char>)> {
    match find(s, p) {
        Some(i) => Some((s.subrange(0, i), s.subrange(i + p.len(), s.len() as int))),
        None => None,
    }
}

/// The item at index `n` that splitting `s` at every `p` yields (`str::split(p).nth(n)`).
pub open spec fn split_nth(s: Seq<char>, p: Seq<char>, n: nat) -> Option<Seq<char>>
    decreases n,
{
    match find(s, p) {
        None => if n == 0 {
            Some(s)
        } else {
            None
        },
        Some(i) => if n == 0 {
            Some(s.subrange(0, i))
        } else {
            split_nth(s.subrange(i + p.len(), s.len() as int), p, (n - 1) as nat)
        },
    }
}

/// The first line of `s` and what follows it (`str::lines`): a line ends at a `\n`, and a
/// `\r` just before that `\n` is not part of it; an empty `s` has no line.
pub open spec fn first_line(s: Seq<char>) -> Option<(Seq<char>, Seq<char>)> {
    if s.len() == 0 {
        None
    } else {
        match index_of(s, '\n') {
            None => Some((s, Seq::empty())),
            Some(i) => {
                let l = s.subrange(0, i);
                Some(
                    (
                        if l.len() > 0 && l.last() == '\r' {
                            l.drop_last()
                        } else {
                            l
                        },
                        s.subrange(i + 1, s.len() as int),
                    ),
                )
            },
        }
    }
}

/// What `geoiplookup` output `s` says of a server's location: the country code on the first
/// line, after `GeoIP Country Edition: ` and before the next `, `, and the city, the fifth
/// `, `-separated item of the second line.
pub open spec fn geoiplookup_model(s: Seq<char>) -> Option<(Seq<char>, Seq<char>)> {
    match first_line(s) {
        None => None,
        Some((country_line, rest)) => match split_once_str(country_line, "GeoIP Country Edition: "@) {
            None => None,
            Some((_, after)) => match split_once_str(after, ", "@) {
                None => None,
                Some((code, _)) => match first_line(rest) {
                    None => None,
                    Some((city_line, _)) => match split_nth(city_line, ", "@, 4) {
                        None => None,
                        Some(city) => Some((code, city)),
                    },
                },
            },
        },
    }
}

/// The first occurrence is where `p` occurs and occurs nowhere before.
proof fn lemma_find_at(s: Seq<char>, p: Seq<char>, k: int)
    requires
        matches_at(s, p, k),
        forall|j: int| 0 <= j < k ==> !matches_at(s, p, j),
    ensures
        find(s, p) == Some(k),
{
    reveal(find);
    let c = choose|i: int| matches_at(s, p, i) && forall|j: int| 0 <= j < i ==> !matches_at(s, p, j);
    assert(matches_at(s, p, c) && forall|j: int| 0 <= j < c ==> !matches_at(s, p, j));
    if c < k {
        assert(!matches_at(s, p, c));
    } else if c > k {
        assert(!matches_at(s, p, k));
    }
}

/// The first index in `cs[lo..hi]` at which `pat` occurs, counted from the start of `cs`.
fn find_range(cs: &Vec<char>, lo: usize, hi: usize, pat: &str) -> (r: Option<usize>)
    requires
        lo <= hi <= cs@.len(),
        pat@.len() > 0,
    ensures
        r is None <==> find(cs@.subrange(lo as int, hi as int), pat@) is None,
        r matches Some(k) ==> find(cs@.subrange(lo as int, hi as int), pat@) == Some(k - lo) && lo
            <= k && k + pat@.len() <= hi && cs@.subrange(k as int, k + pat@.len()) == pat@,
{
    reveal(find);
    let ghost s = cs@.subrange(lo as int, hi as int);
    let ghost p = pat@;
    let n = pat.unicode_len();
    if hi - lo < n {
        assert forall|i: int| !matches_at(s, p, i) by {}
        return None;
    }
    let mut k = lo;
    while n <= hi - k
        invariant
            lo <= k <= hi,
            n == p.len(),
            n > 0,
            n <= hi - lo,
            hi <= cs@.len(),
            s == cs@.subrange(lo as int, hi as int),
            p == pat@,
            forall|i: int| 0 <= i < k - lo ==> !matches_at(s, p, i),
        decreases hi - k,
    {
        if range_eq(cs, k, k + n, pat) {
            let ghost i = k - lo;
            assert(s.subrange(i, i + p.len()) =~= cs@.subrange(k as int, k + n));
            assert(matches_at(s, p, i));
            proof {
                lemma_find_at(s, p, i);
            }
            return Some(k);
        }
        proof {
            let i = k - lo;
            assert(s.subrange(i, i + p.len()) =~= cs@.subrange(k as int, k + n));
        }
        k = k + 1;
    }
    assert forall|i: int| !matches_at(s, p, i) by {
        if 0 <= i && i + p.len() <= s.len() {
            assert(i < k - lo);
        }
    }
    None
}

/// The first line of `cs[lo..hi]` as a range, and where the rest starts.
fn first_line_range(cs: &Vec<char>, lo: usize, hi: usize) -> (r: Option<(usize, usize, usize)>)
    requires
        lo <= hi <= cs@.len(),
    ensures
        match first_line(cs@.subrange(lo as int, hi as int)) {
            None => r is None,
            Some((line, rest)) => r matches Some(t) && lo <= t.0 <= t.1 <= t.2 <= hi && cs@.subrange(
                t.0 as int,
                t.1 as int,
            ) == line && cs@.subrange(t.2 as int, hi as int) == rest,
        },
{
    let ghost s = cs@.subrange(lo as int, hi as int);
    if lo == hi {
        return None;
    }
    match find_char(cs, lo, hi, '\n') {
        None => {
            assert(cs@.subrange(hi as int, hi as int) =~= Seq::<char>::empty());
            Some((lo, hi, hi))
        },
        Some(e) => {
            proof {
                crate::text::lemma_index_of_found(s, '\n');
            }
            let ghost i = e - lo;
            let ghost l = s.subrange(0, i);
            assert(l =~= cs@.subrange(lo as int, e as int));
            assert(s.subrange(i + 1, s.len() as int) =~= cs@.subrange(e + 1, hi as int));
            if e > lo && cs[e - 1] == '\r' {
                assert(l.drop_last() =~= cs@.subrange(lo as int, e - 1));
                Some((lo, e - 1, e + 1))
            } else {
                Some((lo, e, e + 1))
            }
        },
    }
}

/// The country code in the country line `cs[lo..hi]`, as a range of `cs`.
fn country_code_range(cs: &Vec<char>, lo: usize, hi: usize) -> (r: Option<(usize, usize)>)
    requires
        lo <= hi <= cs@.len(),
    ensures
        match split_once_str(cs@.subrange(lo as int, hi as int), "GeoIP Country Edition: "@) {
            None => r is None,
            Some((_, after)) => match split_once_str(after, ", "@) {
                None => r is None,
                Some((code, _)) => r matches Some(t) && lo <= t.0 <= t.1 <= hi && cs@.subrange(
                    t.0 as int,
                    t.1 as int,
                ) == code,
            },
        },
{
    proof {
        reveal_strlit("GeoIP Country Edition: ");
        reveal_strlit(", ");
    }
    let prefix = "GeoIP Country Edition: ";
    let p0 = match find_range(cs, lo, hi, prefix) {
        None => {
            return None;
        },
        Some(p) => p,
    };
    let a0 = p0 + prefix.unicode_len();
    let ghost line = cs@.subrange(lo as int, hi as int);
    let ghost after = cs@.subrange(a0 as int, hi as int);
    assert(line.subrange(p0 - lo + 23, line.len() as int) =~= after);
    let p1 = match find_range(cs, a0, hi, ", ") {
        None => {
            return None;
        },
        Some(p) => p,
    };
    assert(after.subrange(0, p1 - a0) =~= cs@.subrange(a0 as int, p1 as int));
    Some((a0, p1))
}

/// Reads where a server is from the output of `geoiplookup`: the country code from the
/// country line and the city from the city line. Output in another shape gives `None`.
pub fn parse_geoiplookup(stdout: &str) -> (r: Option<GeoInfo>)
    ensures
        match geoiplookup_model(stdout@) {
            None => r is None,
            Some((code, city)) => r matches Some(g) && g.country_code@ == code && g.region@ == city,
        },
{
    let cs = chars_of(stdout);
    let n = cs.len();
    assert(cs@.subrange(0, n as int) =~= stdout@);
    let (c0, c1, rest) = match first_line_range(&cs, 0, n) {
        None => {
            return None;
        },
        Some(t) => t,
    };
    let code = match country_code_range(&cs, c0, c1) {
        None => {
            return None;
        },
        Some(t) => t,
    };
    let (l0, l1, _) = match first_line_range(&cs, rest, n) {
        None => {
            return None;
        },
        Some(t) => t,
    };
    let city = match split_nth_range(&cs, l0, l1, 4) {
        None => {
            return None;
        },
        Some(t) => t,
    };
    let country_code = stdout.substring_char(code.0, code.1).to_owned();
    let region = stdout.substring_char(city.0, city.1).to_owned();
    Some(GeoInfo { country_code, region })
}

/// The item at index `k` of splitting `cs[lo..hi]` at every `, `, as a range of `cs`.
fn split_nth_range(cs: &Vec<char>, lo: usize, hi: usize, k: usize) -> (r: Option<(usize, usize)>)
    requires
        lo <= hi <= cs@.len(),
    ensures
        match split_nth(cs@.subrange(lo as int, hi as int), ", "@, k as nat) {
            None => r is None,
            Some(item) => r matches Some(t) && lo <= t.0 <= t.1 <= hi && cs@.subrange(
                t.0 as int,
                t.1 as int,
            ) == item,
        },
    decreases k,
{
    proof {
        reveal_strlit(", ");
    }
    match find_range(cs, lo, hi, ", ") {
        None => {
            if k == 0 {
                Some((lo, hi))
            } else {
                None
            }
        },
        Some(p) => {
            let ghost s = cs@.subrange(lo as int, hi as int);
            assert(s.subrange(0, p - lo) =~= cs@.subrange(lo as int, p as int));
            assert(s.subrange(p - lo + 2, s.len() as int) =~= cs@.subrange(p + 2, hi as int));
            if k == 0 {
                Some((lo, p))
            } else {
                assert(split_nth(s, ", "@, k as nat) == split_nth(
                    cs@.subrange(p + 2, hi as int),
                    ", "@,
                    (k - 1) as nat,
                ));
                split_nth_range(cs, p + 2, hi, k - 1)
            }
        },
    }
}

} // verus!
