//! Steam as an OpenID 2.0 provider: the decisions taken around the login round trip.

use vstd::prelude::*;

use crate::steam_id::{parse_model, SteamId};
use crate::text::{chars_of, string_of};

verus! {

/// The URL of Steam's OpenID login endpoint.
pub fn login_url_base() -> (r: &'static str)
    ensures
        r@ == "https://steamcommunity.com/openid/login"@,
{
    "https://steamcommunity.com/openid/login"
}

/// The line of Steam's answer that accepts a payload.
pub open spec fn valid_line() -> Seq<u8> {
    seq![
        105u8, 115u8, 95u8, 118u8, 97u8, 108u8, 105u8, 100u8, 58u8, 116u8, 114u8, 117u8, 101u8,
    ]
}

/// `body[start..end]` is a whole line of `body`: it is preceded by the start of the body or a
/// newline, and followed by the end of the body or a newline.
pub open spec fn is_line(body: Seq<u8>, start: int, end: int) -> bool {
    &&& 0 <= start <= end <= body.len()
    &&& (start == 0 || body[start - 1] == 10u8)
    &&& (end == body.len() || body[end] == 10u8)
    &&& forall|k: int| start <= k < end ==> body[k] != 10u8
}

/// Whether some line of `body` reads `is_valid:true`.
pub open spec fn accepts(body: Seq<u8>) -> bool {
    exists|start: int, end: int| is_line(body, start, end) && body.subrange(start, end) == valid_line()
}

/// The index of the first newline at or after `from`, or the length of the body.
fn line_end(body: &[u8], from: usize) -> (r: usize)
    requires
        from <= body@.len(),
    ensures
        from <= r <= body@.len(),
        r == body@.len() || body@[r as int] == 10u8,
        forall|k: int| from <= k < r ==> body@[k] != 10u8,
{
    let mut i = from;
    while i < body.len() && body[i] != 10u8
        invariant
            from <= i <= body@.len(),
            forall|k: int| from <= k < i ==> body@[k] != 10u8,
        decreases body@.len() - i,
    {
        i = i + 1;
    }
    i
}

/// Whether `body[start..end]` reads `is_valid:true`.
fn is_valid_line(body: &[u8], start: usize, end: usize) -> (r: bool)
    requires
        start <= end <= body@.len(),
    ensures
        r == (body@.subrange(start as int, end as int) == valid_line()),
{
    let expected: [u8; 13] = [105, 115, 95, 118, 97, 108, 105, 100, 58, 116, 114, 117, 101];
    assert(expected@ =~= valid_line());
    if end - start != 13 {
        return false;
    }
    let mut k: usize = 0;
    while k < 13
        invariant
            end - start == 13,
            start <= end <= body@.len(),
            k <= 13,
            expected@ == valid_line(),
            forall|m: int| 0 <= m < k ==> body@[start + m] == expected@[m],
        decreases 13 - k,
    {
        if body[start + k] != expected[k] {
            assert(body@.subrange(start as int, end as int)[k as int] != valid_line()[k as int]);
            return false;
        }
        k = k + 1;
    }
    assert(body@.subrange(start as int, end as int) =~= valid_line());
    true
}

/// Whether Steam's answer to a check of a callback payload accepts it: some line of the answer
/// reads `is_valid:true`.
pub fn is_valid_response(body: &[u8]) -> (r: bool)
    ensures
        r == accepts(body@),
{
    let mut start: usize = 0;
    loop
        invariant
            start <= body@.len(),
            start == 0 || body@[start - 1] == 10u8,
            forall|s: int, e: int|
                is_line(body@, s, e) && s < start ==> body@.subrange(s, e) != valid_line(),
        decreases body@.len() - start,
    {
        let end = line_end(body, start);
        if is_valid_line(body, start, end) {
            assert(is_line(body@, start as int, end as int));
            return true;
        }
        assert forall|s: int, e: int| is_line(body@, s, e) && s < end + 1 implies body@.subrange(
            s,
            e,
        ) != valid_line() by {
            if s >= start && s <= end {
                if s > start {
                    assert(body@[s - 1] != 10u8);
                }
                assert(s == start);
                if e != end {
                    if e < end {
                        assert(body@[e as int] != 10u8);
                    } else {
                        assert(body@[end as int] != 10u8);
                    }
                }
            }
        }
        if end == body.len() {
            assert forall|s: int, e: int| is_line(body@, s, e) implies body@.subrange(s, e)
                != valid_line() by {}
            return false;
        }
        start = end + 1;
    }
}

/// Sets the mode of a callback payload before it is sent back to Steam for checking: it is
/// `check_authentication` afterwards, whatever it was.
pub fn set_check_authentication_mode(mode: &mut String)
    ensures
        final(mode)@ == "check_authentication"@,
{
    *mode = string_of("check_authentication");
}

/// The end of the realm within a return URL: the URL up to where its path starts, or the
/// whole URL when the path starts at the beginning.
pub fn realm_end(return_to_len: usize, path_start: usize) -> (r: usize)
    requires
        path_start <= return_to_len,
    ensures
        r == (if path_start == 0 {
            return_to_len
        } else {
            path_start
        }),
{
    if path_start == 0 {
        return_to_len
    } else {
        path_start
    }
}

/// The index of the last `c` in `s`.
pub open spec fn last_index_of(s: Seq<char>, c: char) -> Option<int>
    decreases s.len(),
{
    if s.len() == 0 {
        None
    } else if s.last() == c {
        Some(s.len() - 1)
    } else {
        last_index_of(s.drop_last(), c)
    }
}

/// The last segment of the URL path `path` (`Url::path_segments` and its last item): the text
/// after the last `/`, for a path that starts with `/`; other paths have no segments.
pub open spec fn last_path_segment(path: Seq<char>) -> Option<Seq<char>> {
    if path.len() > 0 && path[0] == '/' {
        match last_index_of(path, '/') {
            Some(i) => Some(path.subrange(i + 1, path.len() as int)),
            None => None,
        }
    } else {
        None
    }
}

/// The SteamID that a claimed ID with the URL path `path` names: the last segment of the path
/// read as a SteamID of any known format, or `None` where there is no segment or it is no
/// SteamID.
pub fn steam_id_of_claimed_path(path: &str) -> (r: Option<SteamId>)
    ensures
        match last_path_segment(path@) {
            None => r is None,
            Some(segment) => match parse_model(segment) {
                Ok(v) => r matches Some(s) && s@ == v,
                Err(_) => r is None,
            },
        },
{
    let cs = chars_of(path);
    let n = cs.len();
    if n == 0 || cs[0] != '/' {
        return None;
    }
    let mut i = n;
    assert(path@.subrange(0, n as int) =~= path@);
    while i > 0 && cs[i - 1] != '/'
        invariant
            0 <= i <= n,
            n == cs@.len(),
            cs@ == path@,
            last_index_of(path@, '/') == last_index_of(path@.subrange(0, i as int), '/'),
        decreases i,
    {
        assert(path@.subrange(0, i as int).drop_last() =~= path@.subrange(0, i - 1));
        i = i - 1;
    }
    if i == 0 {
        assert(path@.subrange(0, 0) =~= Seq::<char>::empty());
        return None;
    }
    assert(path@.subrange(0, i as int).last() == '/');
    let segment = path.substring_char(i, n);
    match SteamId::parse(segment) {
        Ok(s) => Some(s),
        Err(_) => None,
    }
}

} // verus!
