//! Reading a raw request: which handler it goes to, the id in its path and
//! its body.

use vstd::prelude::*;
use crate::text::{has_prefix, is_space, is_space_char, starts_with};

verus! {

/// The handler that a request goes to.
#[derive(Clone, Copy, Debug, PartialEq, Eq, Structural)]
pub enum Route {
    /// `GET /users/<id>`: one user.
    GetOne,
    /// `GET /users`: every user.
    GetAll,
    /// `POST /users`: a new user from the body.
    Create,
    /// `PUT /users?id=<id>`: new name and email for the user with the id.
    Update,
    /// `DELETE /users?id=<id>`: remove the user with the id.
    Delete,
    /// Anything else.
    Unknown,
}

/// The route of a request, by the first of the prefixes that it starts with.
pub open spec fn route_of(req: Seq<char>) -> Route {
    if starts_with(req, "GET /users/"@) {
        Route::GetOne
    } else if starts_with(req, "GET /users"@) {
        Route::GetAll
    } else if starts_with(req, "POST /users"@) {
        Route::Create
    } else if starts_with(req, "PUT /users"@) {
        Route::Update
    } else if starts_with(req, "DELETE /users"@) {
        Route::Delete
    } else {
        Route::Unknown
    }
}

/// Picks the handler for a request.
pub fn route(request: &str) -> (r: Route)
    ensures
        r == route_of(request@),
{
    if has_prefix(request, "GET /users/") {
        Route::GetOne
    } else if has_prefix(request, "GET /users") {
        Route::GetAll
    } else if has_prefix(request, "POST /users") {
        Route::Create
    } else if has_prefix(request, "PUT /users") {
        Route::Update
    } else if has_prefix(request, "DELETE /users") {
        Route::Delete
    } else {
        Route::Unknown
    }
}

/// The first index at or after `i` where `s` holds `c`, or `s.len()`.
pub open spec fn index_of(s: Seq<char>, c: char, i: int) -> int
    decreases s.len() - i,
{
    if i < 0 || i >= s.len() {
        s.len() as int
    } else if s[i] == c {
        i
    } else {
        index_of(s, c, i + 1)
    }
}

/// The first index in `i..e` whose character is (or, with `space` false, is
/// not) white space; `e` if there is none.
pub open spec fn skip_until(s: Seq<char>, i: int, e: int, space: bool) -> int
    decreases e - i,
{
    if i < 0 || i >= e || e > s.len() {
        e
    } else if is_space(s[i]) == space {
        i
    } else {
        skip_until(s, i + 1, e, space)
    }
}

/// Where the third `/`-separated piece of `req` starts, if there is one.
pub open spec fn third_piece_start(req: Seq<char>) -> Option<int> {
    let a = index_of(req, '/', 0);
    let b = index_of(req, '/', a + 1);
    if b < req.len() {
        Some(b + 1)
    } else {
        None
    }
}

/// The id of a request: in the third piece of the request split at `/`, the
/// first run of characters that are not white space; empty where there is no
/// such piece or run.
pub open spec fn id_of(req: Seq<char>) -> Seq<char> {
    match third_piece_start(req) {
        Some(start) => {
            let end = index_of(req, '/', start);
            let p = skip_until(req, start, end, false);
            let q = skip_until(req, p, end, true);
            req.subrange(p, q)
        },
        None => Seq::empty(),
    }
}

proof fn lemma_index_of_bounds(s: Seq<char>, c: char, i: int)
    requires
        0 <= i,
    ensures
        i <= index_of(s, c, i) <= s.len() || (i > s.len() && index_of(s, c, i) == s.len()),
    decreases s.len() - i,
{
    if i < s.len() && s[i] != c {
        lemma_index_of_bounds(s, c, i + 1);
    }
}

proof fn lemma_skip_until_bounds(s: Seq<char>, i: int, e: int, space: bool)
    requires
        0 <= i <= e <= s.len(),
    ensures
        i <= skip_until(s, i, e, space) <= e,
    decreases e - i,
{
    if i < e && is_space(s[i]) != space {
        lemma_skip_until_bounds(s, i + 1, e, space);
    }
}

/// Finds the first `c` at or after `i` in `s`, whose length is `n`.
fn find_char(s: &str, n: usize, c: char, i: usize) -> (r: usize)
    requires
        n == s@.len(),
        i <= n,
    ensures
        r == index_of(s@, c, i as int),
{
    let mut j = i;
    while j < n
        invariant
            n == s@.len(),
            i <= j <= n,
            index_of(s@, c, i as int) == index_of(s@, c, j as int),
        decreases n - j,
    {
        if s.get_char(j) == c {
            return j;
        }
        j = j + 1;
    }
    j
}

/// Finds the first index in `i..e` whose character is (or is not) white space.
fn skip(s: &str, i: usize, e: usize, space: bool) -> (r: usize)
    requires
        i <= e <= s@.len(),
    ensures
        r == skip_until(s@, i as int, e as int, space),
{
    let mut j = i;
    while j < e
        invariant
            i <= j <= e <= s@.len(),
            skip_until(s@, i as int, e as int, space) == skip_until(s@, j as int, e as int, space),
        decreases e - j,
    {
        if is_space_char(s.get_char(j)) == space {
            return j;
        }
        j = j + 1;
    }
    j
}

/// The id that a request names in its path: `GET /users/7 HTTP/1.1` gives
/// `7`.
pub fn get_id(request: &str) -> (r: &str)
    ensures
        r@ == id_of(request@),
{
    let n = request.unicode_len();
    let a = find_char(request, n, '/', 0);
    if a >= n {
        proof {
            lemma_index_of_bounds(request@, '/', a + 1);
        }
        return request.substring_char(0, 0);
    }
    let b = find_char(request, n, '/', a + 1);
    if b >= n {
        return request.substring_char(0, 0);
    }
    let start = b + 1;
    let end = find_char(request, n, '/', start);
    proof {
        lemma_index_of_bounds(request@, '/', start as int);
    }
    let p = skip(request, start, end, false);
    proof {
        lemma_skip_until_bounds(request@, start as int, end as int, false);
    }
    let q = skip(request, p, end, true);
    proof {
        lemma_skip_until_bounds(request@, p as int, end as int, true);
    }
    request.substring_char(p, q)
}

/// Whether `?id=` stands at `i` in `s`.
pub open spec fn id_query_at(s: Seq<char>, i: int) -> bool {
    0 <= i && i + 4 <= s.len() && s[i] == '?' && s[i + 1] == 'i' && s[i + 2] == 'd' && s[i + 3]
        == '='
}

/// The first index in `i..e` where `?id=` starts and ends within `e`, or `e`.
pub open spec fn id_query_from(s: Seq<char>, i: int, e: int) -> int
    decreases e - i,
{
    if i < 0 || i + 4 > e || e > s.len() {
        e
    } else if id_query_at(s, i) {
        i
    } else {
        id_query_from(s, i + 1, e)
    }
}

/// The first index in `i..e` where `s` holds `c`, or `e`.
pub open spec fn index_in(s: Seq<char>, c: char, i: int, e: int) -> int
    decreases e - i,
{
    if i < 0 || i >= e || e > s.len() {
        e
    } else if s[i] == c {
        i
    } else {
        index_in(s, c, i + 1, e)
    }
}

/// Where the request target starts: just after the first space; `None`
/// where there is no space.
pub open spec fn target_start(req: Seq<char>) -> Option<int> {
    let sp = index_of(req, ' ', 0);
    if sp < req.len() {
        Some(sp + 1)
    } else {
        None
    }
}

/// The id given in the query of a request: in the request target (from
/// just after the first space up to the next white space), the text after
/// the first `?id=` up to the next `&` or the end of the target; empty where
/// the target holds no `?id=`.
pub open spec fn query_id_of(req: Seq<char>) -> Seq<char> {
    match target_start(req) {
        Some(start) => {
            let end = skip_until(req, start, req.len() as int, true);
            let q = id_query_from(req, start, end);
            if q + 4 <= end {
                req.subrange(q + 4, index_in(req, '&', q + 4, end))
            } else {
                Seq::empty()
            }
        },
        None => Seq::empty(),
    }
}

proof fn lemma_id_query_from_bounds(s: Seq<char>, i: int, e: int)
    requires
        0 <= i <= e <= s.len(),
    ensures
        i <= id_query_from(s, i, e) <= e,
        id_query_from(s, i, e) + 4 <= e ==> id_query_at(s, id_query_from(s, i, e)),
    decreases e - i,
{
    if i + 4 <= e && !id_query_at(s, i) {
        lemma_id_query_from_bounds(s, i + 1, e);
    }
}

/// The id that a request names in its query: `PUT /users?id=5 HTTP/1.1`
/// gives `5`.
pub fn query_id(request: &str) -> (r: &str)
    ensures
        r@ == query_id_of(request@),
{
    let n = request.unicode_len();
    let sp = find_char(request, n, ' ', 0);
    if sp >= n {
        return request.substring_char(0, 0);
    }
    let start = sp + 1;
    let end = skip(request, start, n, true);
    proof {
        lemma_skip_until_bounds(request@, start as int, n as int, true);
    }
    let mut q = start;
    while q < end && end - q >= 4
        invariant
            n == request@.len(),
            start <= q <= end <= n,
            id_query_from(request@, start as int, end as int) == id_query_from(
                request@,
                q as int,
                end as int,
            ),
        ensures
            start <= q <= end,
            id_query_from(request@, start as int, end as int) == id_query_from(
                request@,
                q as int,
                end as int,
            ),
            q + 4 <= end ==> id_query_at(request@, q as int),
        decreases end - q,
    {
        if request.get_char(q) == '?' && request.get_char(q + 1) == 'i' && request.get_char(q + 2)
            == 'd' && request.get_char(q + 3) == '=' {
            break;
        }
        q = q + 1;
    }
    proof {
        lemma_id_query_from_bounds(request@, q as int, end as int);
    }
    if q >= end || end - q < 4 {
        return request.substring_char(0, 0);
    }
    let v = q + 4;
    let mut w = v;
    while w < end
        invariant
            n == request@.len(),
            v <= w <= end <= n,
            index_in(request@, '&', v as int, end as int) == index_in(
                request@,
                '&',
                w as int,
                end as int,
            ),
        ensures
            v <= w <= end,
            index_in(request@, '&', v as int, end as int) == w,
        decreases end - w,
    {
        if request.get_char(w) == '&' {
            break;
        }
        w = w + 1;
    }
    request.substring_char(v, w)
}

/// Whether the four characters at `i` are `\r\n\r\n`, the line break that
/// ends the head of a request.
pub open spec fn blank_line_at(s: Seq<char>, i: int) -> bool {
    0 <= i && i + 4 <= s.len() && s[i] == '\r' && s[i + 1] == '\n' && s[i + 2] == '\r' && s[i
        + 3] == '\n'
}

/// Where the last piece starts when `s` is split at `\r\n\r\n`, matches found
/// from the left and not overlapping: scanning from `i`, with the current
/// piece starting at `start`.
pub open spec fn last_piece_from(s: Seq<char>, i: int, start: int) -> int
    decreases s.len() - i,
{
    if i < 0 || i + 4 > s.len() {
        start
    } else if blank_line_at(s, i) {
        last_piece_from(s, i + 4, i + 4)
    } else {
        last_piece_from(s, i + 1, start)
    }
}

/// The body of a request: what follows the last `\r\n\r\n` separator, or the
/// whole request where there is none.
pub open spec fn body_of(req: Seq<char>) -> Seq<char> {
    req.subrange(last_piece_from(req, 0, 0), req.len() as int)
}

/// The body of a request.
pub fn request_body(request: &str) -> (r: &str)
    ensures
        r@ == body_of(request@),
{
    let n = request.unicode_len();
    let mut i: usize = 0;
    let mut start: usize = 0;
    while n >= 4 && i <= n - 4
        invariant
            n == request@.len(),
            i <= n,
            start <= i,
            last_piece_from(request@, 0, 0) == last_piece_from(request@, i as int, start as int),
        decreases n - i,
    {
        if request.get_char(i) == '\r' && request.get_char(i + 1) == '\n' && request.get_char(i + 2)
            == '\r' && request.get_char(i + 3) == '\n' {
            i = i + 4;
            start = i;
        } else {
            i = i + 1;
        }
    }
    request.substring_char(start, n)
}

} // verus!
