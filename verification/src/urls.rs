//! Links a page renders into an `href`: only http(s) URLs may be stored, so
//! that a `javascript:` or `data:` value never reaches a reader's browser.
use vstd::prelude::*;
use crate::text::{ascii_lower, chars_of, eq_ignore_ascii_case, string_from, to_ascii_lower, trim, trimmed};

verus! {

pub open spec fn http_scheme() -> Seq<char> {
    seq!['h', 't', 't', 'p', ':', '/', '/']
}

pub open spec fn https_scheme() -> Seq<char> {
    seq!['h', 't', 't', 'p', 's', ':', '/', '/']
}

/// `u` starts with `http://` or `https://` (scheme in any ASCII case) and
/// names something after it.
pub open spec fn is_http_url(u: Seq<char>) -> bool {
    ||| (u.len() > 7 && eq_ignore_ascii_case(u.take(7), http_scheme()))
    ||| (u.len() > 8 && eq_ignore_ascii_case(u.take(8), https_scheme()))
}

fn starts_with_ignore_ascii_case(s: &[char], p: &[char]) -> (r: bool)
    ensures
        r == (p@.len() <= s@.len() && eq_ignore_ascii_case(s@.take(p@.len() as int), p@)),
{
    if p.len() > s.len() {
        return false;
    }
    let mut i: usize = 0;
    while i < p.len()
        invariant
            p@.len() <= s@.len(),
            i <= p@.len(),
            forall|j: int| 0 <= j < i ==> #[trigger] ascii_lower(s@[j]) == ascii_lower(p@[j]),
        decreases p@.len() - i,
    {
        if to_ascii_lower(s[i]) != to_ascii_lower(p[i]) {
            assert(s@.take(p@.len() as int)[i as int] == s@[i as int]);
            return false;
        }
        i = i + 1;
    }
    assert forall|j: int| 0 <= j < p@.len() implies #[trigger] ascii_lower(
        s@.take(p@.len() as int)[j],
    ) == ascii_lower(p@[j]) by {
        assert(s@.take(p@.len() as int)[j] == s@[j]);
    }
    true
}

/// Whether a text is an http(s) URL.
pub fn is_http_url_text(u: &[char]) -> (r: bool)
    ensures
        r == is_http_url(u@),
{
    let mut http: Vec<char> = Vec::new();
    http.push('h');
    http.push('t');
    http.push('t');
    http.push('p');
    http.push(':');
    http.push('/');
    http.push('/');
    assert(http@ =~= http_scheme());
    let mut https: Vec<char> = Vec::new();
    https.push('h');
    https.push('t');
    https.push('t');
    https.push('p');
    https.push('s');
    https.push(':');
    https.push('/');
    https.push('/');
    assert(https@ =~= https_scheme());
    (u.len() > 7 && starts_with_ignore_ascii_case(u, http.as_slice())) || (u.len() > 8
        && starts_with_ignore_ascii_case(u, https.as_slice()))
}

/// A URL field of a request: trimmed, and refused with `<field> must be an
/// http:// or https:// URL.` unless it is one.
pub fn validate_http_url(value: &str, field: &str) -> (r: Result<String, String>)
    ensures
        is_http_url(trimmed(value@)) ==> (r matches Ok(v) && v@ == trimmed(value@)),
        !is_http_url(trimmed(value@)) ==> (r matches Err(m) && m@ == field@
            + " must be an http:// or https:// URL."@),
{
    let cs = chars_of(value);
    let t = trim(cs.as_slice());
    if is_http_url_text(t.as_slice()) {
        Ok(string_from(t.as_slice()))
    } else {
        Err(crate::errors::msg2(field, " must be an http:// or https:// URL."))
    }
}

/// An http(s) URL starts with a letter, so it is never blank.
pub proof fn lemma_http_url_not_blank(u: Seq<char>)
    requires
        is_http_url(u),
    ensures
        !crate::text::blank(u),
{
    if u.len() > 7 && eq_ignore_ascii_case(u.take(7), http_scheme()) {
        assert(ascii_lower(u.take(7)[0]) == ascii_lower(http_scheme()[0]));
    } else {
        assert(ascii_lower(u.take(8)[0]) == ascii_lower(https_scheme()[0]));
    }
    assert(u.take(7)[0] == u[0] || u.take(8)[0] == u[0]);
    assert(!crate::text::is_ws(u[0]));
}

/// `http://` and `https://` followed by anything, the scheme in any case,
/// are http(s) URLs; a bare scheme is not, and neither are `javascript:`,
/// `data:` or `ftp://` URLs.
pub proof fn law_http_urls(rest: Seq<char>)
    ensures
        rest.len() > 0 ==> is_http_url("http://"@ + rest),
        rest.len() > 0 ==> is_http_url("https://"@ + rest),
        rest.len() > 0 ==> is_http_url("HTTPS://"@ + rest),
        !is_http_url("http://"@),
        !is_http_url("https://"@),
        !is_http_url("javascript:"@ + rest),
        !is_http_url("data:"@ + rest),
        !is_http_url("ftp://"@ + rest),
{
    reveal_strlit("http://");
    reveal_strlit("https://");
    reveal_strlit("HTTPS://");
    reveal_strlit("javascript:");
    reveal_strlit("data:");
    reveal_strlit("ftp://");
    assert(("http://"@ + rest).take(7) =~= http_scheme());
    assert(("https://"@ + rest).take(8) =~= https_scheme());
    assert("https://"@.take(7)[4] == 's');
    assert(ascii_lower("https://"@.take(7)[4]) != ascii_lower(http_scheme()[4]));
    let u = "HTTPS://"@ + rest;
    assert(u.take(8) =~= "HTTPS://"@);
    assert(eq_ignore_ascii_case("HTTPS://"@, https_scheme())) by {
        assert forall|i: int| 0 <= i < 8 implies ascii_lower(#[trigger] "HTTPS://"@[i]) == ascii_lower(
            https_scheme()[i],
        ) by {}
    }
    let j = "javascript:"@ + rest;
    assert(j[0] == 'j');
    if j.len() > 7 {
        assert(j.take(7)[0] == 'j');
        assert(ascii_lower(j.take(7)[0]) != ascii_lower(http_scheme()[0]));
    }
    if j.len() > 8 {
        assert(j.take(8)[0] == 'j');
        assert(ascii_lower(j.take(8)[0]) != ascii_lower(https_scheme()[0]));
    }
    let d = "data:"@ + rest;
    assert(d[0] == 'd');
    if d.len() > 7 {
        assert(d.take(7)[0] == 'd');
        assert(ascii_lower(d.take(7)[0]) != ascii_lower(http_scheme()[0]));
    }
    if d.len() > 8 {
        assert(d.take(8)[0] == 'd');
        assert(ascii_lower(d.take(8)[0]) != ascii_lower(https_scheme()[0]));
    }
    let f = "ftp://"@ + rest;
    assert(f[0] == 'f');
    if f.len() > 7 {
        assert(f.take(7)[0] == 'f');
        assert(ascii_lower(f.take(7)[0]) != ascii_lower(http_scheme()[0]));
    }
    if f.len() > 8 {
        assert(f.take(8)[0] == 'f');
        assert(ascii_lower(f.take(8)[0]) != ascii_lower(https_scheme()[0]));
    }
}

} // verus!
