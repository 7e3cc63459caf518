//! The handshake gate: before a connection upgrade is acknowledged, the
//! `Cookie` request headers are parsed as semicolon-separated, trimmed
//! `name=value` pairs, and the `access_token` value is extracted. A request
//! without one is rejected with status 401 and a short body, so that no
//! socket ever opens for it.

use vstd::prelude::*;
use crate::text::find_from;
use crate::text::lemma_find_from;
use crate::text::lemma_find_from_unique;
use crate::text::trim_view;
use crate::text::find_char_in;
use crate::text::trim_bounds;
use crate::text::range_eq_str;

verus! {

/// The cookie name that carries the bearer token.
pub open spec fn access_token_name() -> Seq<char> {
    seq!['a', 'c', 'c', 'e', 's', 's', '_', 't', 'o', 'k', 'e', 'n']
}

/// Whether `c` is `l` or its ASCII uppercase form (`l` is a lowercase
/// letter).
pub open spec fn char_eq_ci(c: char, l: char) -> bool {
    c == l || (c as u32) + 32 == (l as u32)
}

/// Whether `s` names the `Cookie` header, ASCII case-insensitively.
pub open spec fn is_cookie_header_name(s: Seq<char>) -> bool {
    &&& s.len() == 6
    &&& char_eq_ci(s[0], 'c')
    &&& char_eq_ci(s[1], 'o')
    &&& char_eq_ci(s[2], 'o')
    &&& char_eq_ci(s[3], 'k')
    &&& char_eq_ci(s[4], 'i')
    &&& char_eq_ci(s[5], 'e')
}

/// The token one `name=value` segment assigns: the trimmed part after the
/// first `=`, provided the trimmed part before it is `access_token`.
pub open spec fn pair_token(seg: Seq<char>) -> Option<Seq<char>> {
    let eq = find_from(seg, 0, '=');
    if eq == seg.len() {
        None
    } else if trim_view(seg.subrange(0, eq)) == access_token_name() {
        Some(trim_view(seg.subrange(eq + 1, seg.len() as int)))
    } else {
        None
    }
}

/// The token assigned by the semicolon-separated segments of `s` from
/// position `from` on; when several segments assign one, the last wins.
pub open spec fn token_from(s: Seq<char>, from: int) -> Option<Seq<char>>
    decreases s.len() - from when 0 <= from <= s.len() via token_from_decreases
{
    let semi = find_from(s, from, ';');
    if semi >= s.len() {
        pair_token(s.subrange(from, s.len() as int))
    } else {
        match token_from(s, semi + 1) {
            Some(v) => Some(v),
            None => pair_token(s.subrange(from, semi)),
        }
    }
}

#[via_fn]
proof fn token_from_decreases(s: Seq<char>, from: int) {
    lemma_find_from(s, from, ';');
}

/// The view of each header pair.
pub open spec fn header_views(s: Seq<(String, String)>) -> Seq<(Seq<char>, Seq<char>)> {
    Seq::new(s.len(), |i: int| (s[i].0@, s[i].1@))
}

/// The access token carried by the cookie headers among `hs`, pairs in
/// later headers overriding earlier ones.
pub open spec fn cookie_token(hs: Seq<(Seq<char>, Seq<char>)>) -> Option<Seq<char>>
    decreases hs.len(),
{
    if hs.len() == 0 {
        None
    } else if is_cookie_header_name(hs.last().0) {
        match token_from(hs.last().1, 0) {
            Some(v) => Some(v),
            None => cookie_token(hs.drop_last()),
        }
    } else {
        cookie_token(hs.drop_last())
    }
}

/// A request without a cookie header carries no token: inspecting it is
/// rejected, and the upgrade never completes.
pub proof fn lemma_no_cookie_no_token(hs: Seq<(Seq<char>, Seq<char>)>)
    requires
        forall|i: int| 0 <= i < hs.len() ==> !is_cookie_header_name((#[trigger] hs[i]).0),
    ensures
        cookie_token(hs) is None,
    decreases hs.len(),
{
    if hs.len() > 0 {
        assert(!is_cookie_header_name(hs[hs.len() - 1].0));
        assert(forall|i: int|
            0 <= i < hs.drop_last().len() ==> !is_cookie_header_name(
                (#[trigger] hs.drop_last()[i]).0,
            ));
        lemma_no_cookie_no_token(hs.drop_last());
    }
}

/// The response an upgrade request is rejected with before any socket
/// opens.
#[derive(Debug)]
pub struct UpgradeRejection {
    /// The HTTP status of the rejection.
    pub status: u16,
    /// The short diagnostic body.
    pub body: String,
}

/// Whether `name` names the `Cookie` header, ASCII case-insensitively.
fn is_cookie_header(name: &str) -> (r: bool)
    ensures
        r == is_cookie_header_name(name@),
{
    let n = name.unicode_len();
    if n != 6 {
        return false;
    }
    char_ci(name.get_char(0), 'c') && char_ci(name.get_char(1), 'o') && char_ci(
        name.get_char(2),
        'o',
    ) && char_ci(name.get_char(3), 'k') && char_ci(name.get_char(4), 'i') && char_ci(
        name.get_char(5),
        'e',
    )
}

/// Whether `c` is `l` or its ASCII uppercase form.
fn char_ci(c: char, l: char) -> (r: bool)
    ensures
        r == char_eq_ci(c, l),
{
    c == l || (c as u32) + 32 == (l as u32)
}

/// The access token assigned by the cookie segments of `v`, as
/// `token_from` describes; the token of the last `access_token` segment.
fn scan_cookie_value(v: &str) -> (r: Option<String>)
    ensures
        match r {
            Some(t) => token_from(v@, 0) == Some(t@),
            None => token_from(v@, 0) is None,
        },
{
    let n = v.unicode_len();
    let mut start: usize = 0;
    let mut found: Option<String> = None;
    loop
        invariant
            n == v@.len(),
            start <= n,
            token_from(v@, 0) == match token_from(v@, start as int) {
                Some(t) => Some(t),
                None => match found {
                    Some(f) => Some(f@),
                    None => None,
                },
            },
        decreases n - start,
    {
        let semi = find_char_in(v, start, n, ';');
        proof {
            lemma_find_from_unique(v@, start as int, ';', semi as int);
        }
        let seg_token = scan_segment(v, start, semi);
        if seg_token.is_some() {
            found = seg_token;
        }
        proof {
            if semi < n {
                assert(token_from(v@, start as int) == match token_from(v@, semi + 1) {
                    Some(t) => Some::<Seq<char>>(t),
                    None => pair_token(v@.subrange(start as int, semi as int)),
                });
            } else {
                assert(token_from(v@, start as int) == pair_token(
                    v@.subrange(start as int, n as int),
                ));
            }
        }
        if semi == n {
            return found;
        }
        start = semi + 1;
    }
}

/// The token assigned by the segment of `v` between `start` and `end`, as
/// `pair_token` describes.
fn scan_segment(v: &str, start: usize, end: usize) -> (r: Option<String>)
    requires
        start <= end <= v@.len(),
    ensures
        match r {
            Some(t) => pair_token(v@.subrange(start as int, end as int)) == Some(t@),
            None => pair_token(v@.subrange(start as int, end as int)) is None,
        },
{
    let ghost seg = v@.subrange(start as int, end as int);
    let eq = find_char_in(v, start, end, '=');
    proof {
        assert forall|j: int| 0 <= j < eq - start implies seg[j] != '=' by {
            assert(seg[j] == v@[start + j]);
        }
        if eq < end {
            assert(seg[eq - start] == v@[eq as int]);
        }
        lemma_find_from_unique(seg, 0, '=', eq - start);
    }
    if eq == end {
        return None;
    }
    let (nl, nh) = trim_bounds(v, start, eq);
    proof {
        assert(seg.subrange(0, eq - start) =~= v@.subrange(start as int, eq as int));
    }
    let name_matches = range_eq_str(v, nl, nh, "access_token");
    proof {
        reveal_strlit("access_token");
        assert("access_token"@ =~= access_token_name());
    }
    if !name_matches {
        return None;
    }
    let (vl, vh) = trim_bounds(v, eq + 1, end);
    proof {
        assert(seg.subrange(eq - start + 1, seg.len() as int) =~= v@.subrange(
            eq + 1,
            end as int,
        ));
    }
    let token = v.substring_char(vl, vh);
    Some(String::from_str(token))
}

/// Inspects the upgrade request's headers, given as name/value pairs, and
/// extracts the bearer token from their cookies. A request whose cookies
/// assign no `access_token` is rejected with status 401 and a short body;
/// the upgrade must then never complete.
pub fn handle_websocket_header_inspection(headers: &Vec<(String, String)>) -> (r: Result<
    String,
    UpgradeRejection,
>)
    ensures
        match cookie_token(header_views(headers@)) {
            Some(t) => r matches Ok(tok) && tok@ == t,
            None => r matches Err(rej) && rej.status == 401 && rej.body@ == "No Token Provided!"@,
        },
{
    let n = headers.len();
    let mut found: Option<String> = None;
    let mut i: usize = 0;
    while i < n
        invariant
            n == headers@.len(),
            i <= n,
            cookie_token(header_views(headers@.subrange(0, i as int))) == match found {
                Some(f) => Some(f@),
                None => None::<Seq<char>>,
            },
        decreases n - i,
    {
        let ghost prefix = headers@.subrange(0, i as int);
        if is_cookie_header(headers[i].0.as_str()) {
            let t = scan_cookie_value(headers[i].1.as_str());
            if t.is_some() {
                found = t;
            }
        }
        proof {
            let next = headers@.subrange(0, i + 1);
            assert(header_views(next).drop_last() =~= header_views(prefix));
            assert(header_views(next).last().0 =~= headers@[i as int].0@);
            assert(header_views(next).last().1 =~= headers@[i as int].1@);
        }
        i += 1;
    }
    proof {
        assert(headers@.subrange(0, n as int) =~= headers@);
    }
    match found {
        Some(token) => Ok(token),
        None => Err(
            UpgradeRejection { status: 401, body: String::from_str("No Token Provided!") },
        ),
    }
}

} // verus!
