//! URL arithmetic: joining, query strings, API base variants, file names.
use vstd::prelude::*;
use vstd::string::*;
use crate::text::{
    lemma_strip_end_last,
    chars_of, contains, contains_exec, ends_with, ends_with_exec, find_char, first_index, last_index,
    push_char, rfind_char, slice_of, starts_with, starts_with_exec, string_of, strip_end, strip_end_len,
};

verus! {

/// Whether `p` is an absolute `http` or `https` URL.
pub open spec fn is_absolute(p: Seq<char>) -> bool {
    starts_with(p, "http://"@) || starts_with(p, "https://"@)
}

/// `p` without one leading `/`.
pub open spec fn drop_slash(p: Seq<char>) -> Seq<char> {
    if p.len() > 0 && p[0] == '/' {
        p.drop_first()
    } else {
        p
    }
}

/// `path` resolved against `base`: absolute paths stand alone, relative ones
/// follow the base with exactly one `/` between them.
pub open spec fn join(base: Seq<char>, path: Seq<char>) -> Seq<char> {
    if is_absolute(path) {
        path
    } else if path.len() > 0 && path[0] == '/' {
        strip_end(base, '/') + path
    } else {
        strip_end(base, '/') + seq!['/'] + path
    }
}

/// Joins `path` onto `base`.
pub fn urljoin(base: &str, path: &str) -> (r: String)
    ensures
        r@ == join(base@, path@),
{
    let p = chars_of(path);
    let http = chars_of("http://");
    let https = chars_of("https://");
    if starts_with_exec(&p, &http) || starts_with_exec(&p, &https) {
        return String::from_str(path);
    }
    let b = chars_of(base);
    let e = strip_end_len(&b, '/');
    let mut out = string_of(&b, 0, e);
    if p.len() == 0 || p[0] != '/' {
        push_char(&mut out, '/');
    }
    out.append(path);
    out
}

/// Joining an absolute URL onto any base gives that URL back, and joining
/// the result again changes nothing.
pub proof fn lemma_join_absolute(base: Seq<char>, other: Seq<char>, path: Seq<char>)
    requires
        is_absolute(path),
    ensures
        join(base, path) == path,
        join(other, join(base, path)) == join(base, path),
{
}

/// A relative path follows the base, stripped of its trailing `/`, after
/// exactly one `/`; the base part never ends in `/` itself.
pub proof fn lemma_join_relative(base: Seq<char>, path: Seq<char>)
    requires
        !is_absolute(path),
    ensures
        join(base, path) == strip_end(base, '/') + seq!['/'] + drop_slash(path),
        strip_end(base, '/').len() == 0 || strip_end(base, '/').last() != '/',
{
    lemma_strip_end_last(base, '/');
    if path.len() > 0 && path[0] == '/' {
        assert(path =~= seq!['/'] + path.drop_first());
        assert(strip_end(base, '/') + path =~= strip_end(base, '/') + seq!['/'] + path.drop_first());
    }
}

/// `k=v` for one query parameter.
pub open spec fn param_text(p: (&str, &str)) -> Seq<char> {
    p.0@ + seq!['='] + p.1@
}

/// The parameters as `k1=v1&k2=v2...`.
pub open spec fn query_text(ps: Seq<(&str, &str)>) -> Seq<char>
    decreases ps.len(),
{
    if ps.len() == 0 {
        Seq::empty()
    } else if ps.len() == 1 {
        param_text(ps[0])
    } else {
        query_text(ps.drop_last()) + seq!['&'] + param_text(ps.last())
    }
}

/// `url` with the parameters appended, after `&` if it already has a query,
/// else after `?`.
pub open spec fn with_query(url: Seq<char>, ps: Seq<(&str, &str)>) -> Seq<char> {
    url + seq![if contains(url, seq!['?']) { '&' } else { '?' }] + query_text(ps)
}

/// Appends query parameters to a URL.
pub fn append_query(url: &str, params: &[(&str, &str)]) -> (r: String)
    ensures
        r@ == with_query(url@, params@),
{
    let u = chars_of(url);
    let mut q: Vec<char> = Vec::new();
    q.push('?');
    let mut out = String::from_str(url);
    if contains_exec(&u, &q) {
        push_char(&mut out, '&');
    } else {
        assert(q@ =~= seq!['?']);
        push_char(&mut out, '?');
    }
    let ghost head = out@;
    let mut i: usize = 0;
    while i < params.len()
        invariant
            i <= params@.len(),
            head == url@ + seq![if contains(url@, seq!['?']) { '&' } else { '?' }],
            out@ == head + query_text(params@.subrange(0, i as int)),
        decreases params.len() - i,
    {
        let (k, v) = params[i];
        let ghost before = params@.subrange(0, i as int);
        if i > 0 {
            push_char(&mut out, '&');
        }
        out.append(k);
        push_char(&mut out, '=');
        out.append(v);
        i = i + 1;
        proof {
            let now = params@.subrange(0, i as int);
            assert(now.drop_last() =~= before);
            assert(now.last() == (k, v));
            if i == 1 {
                assert(before.len() == 0);
            }
        }
        assert(out@ =~= head + query_text(params@.subrange(0, i as int)));
    }
    assert(params@.subrange(0, params@.len() as int) =~= params@);
    out
}

/// The alternate API base tried when the configured one is not found.
pub open spec fn v2_variant(base: Seq<char>) -> Option<Seq<char>> {
    let b = strip_end(base, '/');
    if ends_with(b, "/api"@) {
        Some(b + "/v2"@)
    } else if !contains(b, "/api/"@) && !ends_with(b, "/api/v2"@) {
        Some(b + "/api/v2"@)
    } else {
        None
    }
}

/// The `/v2` variant of an API base, where one can be derived.
pub fn api_v2_variant(base: &str) -> (r: Option<String>)
    ensures
        match r {
            Some(s) => v2_variant(base@) == Some(s@),
            None => v2_variant(base@) is None,
        },
{
    let v = chars_of(base);
    let e = strip_end_len(&v, '/');
    let b = slice_of(&v, 0, e);
    assert(b@ == strip_end(base@, '/'));
    if ends_with_exec(&b, &chars_of("/api")) {
        let mut out = string_of(&v, 0, e);
        out.append("/v2");
        return Some(out);
    }
    if !contains_exec(&b, &chars_of("/api/")) && !ends_with_exec(&b, &chars_of("/api/v2")) {
        let mut out = string_of(&v, 0, e);
        out.append("/api/v2");
        return Some(out);
    }
    None
}

/// The part of `url` before its query string.
pub open spec fn url_path(url: Seq<char>) -> Seq<char> {
    let q = first_index(url, '?');
    if q >= 0 {
        url.subrange(0, q)
    } else {
        url
    }
}

/// The last `/`-separated segment of `path`.
pub open spec fn last_segment(path: Seq<char>) -> Seq<char> {
    let k = last_index(path, '/');
    if k >= 0 {
        path.subrange(k + 1, path.len() as int)
    } else {
        path
    }
}

/// The file name a URL points at, if its last path segment is not empty.
pub open spec fn filename_of(url: Seq<char>) -> Option<Seq<char>> {
    let seg = last_segment(url_path(url));
    if seg.len() == 0 {
        None
    } else {
        Some(seg)
    }
}

/// Guesses a file name from the last path segment of a URL.
pub fn guess_filename_from_url(url: &str) -> (r: Option<String>)
    ensures
        match r {
            Some(s) => filename_of(url@) == Some(s@),
            None => filename_of(url@) is None,
        },
{
    let u = chars_of(url);
    let end = match find_char(&u, '?') {
        Some(q) => q,
        None => u.len(),
    };
    let path = slice_of(&u, 0, end);
    assert(path@ == url_path(url@)) by {
        assert(u@.subrange(0, u@.len() as int) =~= u@);
    }
    let start = match rfind_char(&path, '/') {
        Some(k) => k + 1,
        None => 0,
    };
    assert(path@.subrange(start as int, path@.len() as int) == last_segment(path@)) by {
        assert(path@.subrange(0, path@.len() as int) =~= path@);
    }
    if start == path.len() {
        None
    } else {
        Some(string_of(&path, start, path.len()))
    }
}

} // verus!
