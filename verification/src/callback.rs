//! What the login callback carries: the request line that the browser sends
//! to the loopback listener, and the cookie in which the service hands out a
//! session token.

use crate::model::{outcome_view, text_view, AuthCallbackResult, CallbackOutcome};
use crate::split::{
    find, find_from, lemma_find_from, lemma_split_from, lines, split, split_chars, split_from,
    strip_cr, views, words, words_of,
};
use crate::text::{
    chars_of, contains, contains_seq, has_prefix, slice_of, starts_with, string_of, trim, trimmed,
};
use vstd::prelude::*;

verus! {

/// The first line of `s`, without its line ending: a line feed, or a carriage
/// return and a line feed. Text without a line feed is one line; empty text
/// has no line.
pub open spec fn first_line(s: Seq<char>) -> Option<Seq<char>> {
    if s.len() == 0 {
        None
    } else {
        let i = find_from(s, '\n', 0);
        if i >= s.len() {
            Some(s)
        } else if i > 0 && s[i - 1] == '\r' {
            Some(s.take(i - 1))
        } else {
            Some(s.take(i))
        }
    }
}

/// Takes the first line of `v`.
pub fn first_line_of(v: &Vec<char>) -> (r: Option<Vec<char>>)
    ensures
        match r {
            Some(line) => first_line(v@) == Some(line@),
            None => first_line(v@) is None,
        },
{
    if v.len() == 0 {
        return None;
    }
    let i = find(v, '\n', 0);
    let end: usize = if i >= v.len() {
        v.len()
    } else if i > 0 && v[i - 1] == '\r' {
        i - 1
    } else {
        i
    };
    let line = slice_of(v, 0, end);
    assert(v@.subrange(0, v@.len() as int) == v@);
    Some(line)
}

/// The value of the first parameter that begins with `key`: what follows
/// the key in it.
pub open spec fn first_value(params: Seq<Seq<char>>, key: Seq<char>) -> Option<Seq<char>>
    decreases params.len(),
{
    if params.len() == 0 {
        None
    } else if has_prefix(params[0], key) {
        Some(params[0].skip(key.len() as int))
    } else {
        first_value(params.drop_first(), key)
    }
}

/// Looks up the first parameter that begins with `key`.
pub fn find_value(params: &Vec<Vec<char>>, key: &Vec<char>) -> (r: Option<Vec<char>>)
    ensures
        match r {
            Some(value) => first_value(views(params@), key@) == Some(value@),
            None => first_value(views(params@), key@) is None,
        },
{
    let mut i: usize = 0;
    assert(views(params@).skip(0) == views(params@));
    while i < params.len()
        invariant
            i <= params.len(),
            first_value(views(params@), key@) == first_value(views(params@).skip(i as int), key@),
        decreases params.len() - i,
    {
        let ghost rest = views(params@).skip(i as int);
        assert(rest[0] == params@[i as int]@);
        assert(rest.drop_first() == views(params@).skip(i + 1));
        if starts_with(&params[i], key) {
            let value = slice_of(&params[i], key.len(), params[i].len());
            return Some(value);
        }
        i += 1;
    }
    None
}

/// The query string of a callback request: on the first line, which must
/// name the callback path, the second word is the request target, and the
/// query is what stands in it between the first `?` and the next.
pub open spec fn callback_query(request: Seq<char>) -> Option<Seq<char>> {
    match first_line(request) {
        None => None,
        Some(line) => {
            if !contains_seq(line, "/auth/callback"@) || words(line).len() < 2 || split(
                words(line)[1],
                '?',
            ).len() < 2 {
                None
            } else {
                Some(split(words(line)[1], '?')[1])
            }
        },
    }
}

/// What a query string resolves to. Its parameters are read in order. The
/// first that begins with `token=` gives a session token. Without one, the
/// first that begins with `2fa_token=` gives the token of a pending
/// challenge. Without either there is no outcome.
pub open spec fn query_outcome(query: Seq<char>) -> Option<CallbackOutcome> {
    let params = split(query, '&');
    match first_value(params, "token="@) {
        Some(token) => Some(CallbackOutcome::Success(token)),
        None => match first_value(params, "2fa_token="@) {
            Some(token) => Some(CallbackOutcome::TwoFactorPending(token)),
            None => None,
        },
    }
}

/// What a callback request resolves to.
pub open spec fn callback_outcome(request: Seq<char>) -> Option<CallbackOutcome> {
    match callback_query(request) {
        None => None,
        Some(query) => query_outcome(query),
    }
}

/// Resolves a query string.
pub fn parse_query(query: &Vec<char>) -> (r: Option<AuthCallbackResult>)
    ensures
        outcome_view(r) == query_outcome(query@),
{
    let params = split_chars(query, '&');
    let token_key = chars_of("token=");
    match find_value(&params, &token_key) {
        Some(token) => Some(AuthCallbackResult::Success(string_of(&token))),
        None => {
            let pending_key = chars_of("2fa_token=");
            match find_value(&params, &pending_key) {
                Some(token) => Some(AuthCallbackResult::TwoFactor(string_of(&token))),
                None => None,
            }
        },
    }
}

/// Reads the outcome of a login out of the request that the browser sent to
/// the callback listener. Only the first line is read.
pub fn parse_token_from_request(request: &str) -> (r: Option<AuthCallbackResult>)
    ensures
        outcome_view(r) == callback_outcome(request@),
{
    let v = chars_of(request);
    let line = match first_line_of(&v) {
        Some(line) => line,
        None => {
            return None;
        },
    };
    let marker = chars_of("/auth/callback");
    if !contains(&line, &marker) {
        return None;
    }
    let w = words_of(&line);
    if w.len() < 2 {
        return None;
    }
    let parts = split_chars(&w[1], '?');
    assert(views(w@)[1] == w@[1]@);
    if parts.len() < 2 {
        return None;
    }
    assert(views(parts@)[1] == parts@[1]@);
    parse_query(&parts[1])
}

/// The parts of a cookie header, cut at `;`, each without the white space
/// around it.
pub open spec fn cookie_parts(header: Seq<char>) -> Seq<Seq<char>> {
    Seq::new(split(header, ';').len(), |i: int| trimmed(split(header, ';')[i]))
}

/// The session token that a cookie header carries: the value of its first
/// part that begins with `token=`.
pub open spec fn cookie_token(header: Option<Seq<char>>) -> Option<Seq<char>> {
    match header {
        Some(h) => first_value(cookie_parts(h), "token="@),
        None => None,
    }
}

/// Reads the session token out of the `Set-Cookie` header of a response;
/// `set_cookie` is the header's value where the response has one that is
/// text.
pub fn parse_token_from_header(set_cookie: Option<&str>) -> (r: Option<String>)
    ensures
        text_view(r) == cookie_token(
            match set_cookie {
                Some(h) => Some(h@),
                None => None,
            },
        ),
{
    let header = match set_cookie {
        Some(h) => h,
        None => {
            return None;
        },
    };
    let pieces = split_chars(&chars_of(header), ';');
    let mut parts: Vec<Vec<char>> = Vec::new();
    let mut i: usize = 0;
    while i < pieces.len()
        invariant
            i <= pieces.len(),
            views(pieces@) == split(header@, ';'),
            parts.len() == i,
            forall|j: int| 0 <= j < i ==> parts@[j]@ == trimmed(#[trigger] pieces@[j]@),
        decreases pieces.len() - i,
    {
        parts.push(trim(&pieces[i]));
        i += 1;
    }
    proof {
        assert forall|j: int| 0 <= j < parts.len() implies views(parts@)[j] == cookie_parts(
            header@,
        )[j] by {
            assert(views(pieces@)[j] == pieces@[j]@);
        }
        assert(views(parts@) =~= cookie_parts(header@));
    }
    let key = chars_of("token=");
    match find_value(&parts, &key) {
        Some(token) => Some(string_of(&token)),
        None => None,
    }
}

/// The index of the first parameter that begins with `key` decides
/// `first_value`.
pub proof fn lemma_first_value_at(params: Seq<Seq<char>>, key: Seq<char>, k: int)
    requires
        0 <= k < params.len(),
        has_prefix(params[k], key),
        forall|j: int| 0 <= j < k ==> !has_prefix(#[trigger] params[j], key),
    ensures
        first_value(params, key) == Some(params[k].skip(key.len() as int)),
    decreases k,
{
    if k > 0 {
        let rest = params.drop_first();
        assert(rest[k - 1] == params[k]);
        assert forall|j: int| 0 <= j < k - 1 implies !has_prefix(#[trigger] rest[j], key) by {
            assert(rest[j] == params[j + 1]);
        }
        lemma_first_value_at(rest, key, k - 1);
    }
}

/// Where no parameter begins with `key`, `first_value` finds nothing.
pub proof fn lemma_first_value_none(params: Seq<Seq<char>>, key: Seq<char>)
    requires
        forall|j: int| 0 <= j < params.len() ==> !has_prefix(#[trigger] params[j], key),
    ensures
        first_value(params, key) is None,
    decreases params.len(),
{
    if params.len() > 0 {
        let rest = params.drop_first();
        assert forall|j: int| 0 <= j < rest.len() implies !has_prefix(#[trigger] rest[j], key) by {
            assert(rest[j] == params[j + 1]);
        }
        lemma_first_value_none(rest, key);
    }
}

/// A query whose first parameter that begins with `token=` is its `k`-th
/// resolves to the session token that follows the key there, whatever else
/// the query holds.
pub proof fn lemma_session_token_wins(query: Seq<char>, k: int)
    requires
        0 <= k < split(query, '&').len(),
        has_prefix(split(query, '&')[k], "token="@),
        forall|j: int| 0 <= j < k ==> !has_prefix(#[trigger] split(query, '&')[j], "token="@),
    ensures
        query_outcome(query) == Some(
            CallbackOutcome::Success(split(query, '&')[k].skip("token="@.len() as int)),
        ),
{
    lemma_first_value_at(split(query, '&'), "token="@, k);
}

/// A query without a parameter that begins with `token=`, whose first
/// parameter that begins with `2fa_token=` is its `k`-th, resolves to the
/// pending challenge whose token follows the key there.
pub proof fn lemma_pending_token_without_session(query: Seq<char>, k: int)
    requires
        0 <= k < split(query, '&').len(),
        forall|j: int|
            0 <= j < split(query, '&').len() ==> !has_prefix(
                #[trigger] split(query, '&')[j],
                "token="@,
            ),
        has_prefix(split(query, '&')[k], "2fa_token="@),
        forall|j: int| 0 <= j < k ==> !has_prefix(#[trigger] split(query, '&')[j], "2fa_token="@),
    ensures
        query_outcome(query) == Some(
            CallbackOutcome::TwoFactorPending(
                split(query, '&')[k].skip("2fa_token="@.len() as int),
            ),
        ),
{
    lemma_first_value_none(split(query, '&'), "token="@);
    lemma_first_value_at(split(query, '&'), "2fa_token="@, k);
}

/// A query in which no parameter begins with `token=` or `2fa_token=`
/// resolves to nothing.
pub proof fn lemma_no_token_no_outcome(query: Seq<char>)
    requires
        forall|j: int|
            0 <= j < split(query, '&').len() ==> !has_prefix(
                #[trigger] split(query, '&')[j],
                "token="@,
            ) && !has_prefix(split(query, '&')[j], "2fa_token="@),
    ensures
        query_outcome(query) is None,
{
    lemma_first_value_none(split(query, '&'), "token="@);
    lemma_first_value_none(split(query, '&'), "2fa_token="@);
}

/// The first line is the first of the lines.
pub proof fn lemma_first_line_is_first_of_lines(s: Seq<char>)
    ensures
        first_line(s) == if lines(s).len() > 0 {
            Some(lines(s)[0])
        } else {
            None
        },
{
    lemma_find_from(s, '\n', 0);
    let i = find_from(s, '\n', 0);
    let parts = split(s, '\n');
    if i >= s.len() {
        assert(parts == seq![s.subrange(0, s.len() as int)]);
        assert(s.subrange(0, s.len() as int) == s);
    } else {
        lemma_split_from(s, '\n', i + 1);
        let rest = split_from(s, '\n', i + 1);
        assert(parts == seq![s.subrange(0, i)] + rest);
        assert(parts[0] == s.take(i));
        assert(lines(s)[0] == strip_cr(s.take(i)));
        if i > 0 && s[i - 1] == '\r' {
            assert(s.take(i).drop_last() == s.take(i - 1));
        }
    }
}

} // verus!
