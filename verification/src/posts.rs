//! Texts of a post: the content and the draft that an update rewrites
//! together, with one usage list for the media both reference, and the links
//! a newsletter campaign for a published post points to.
use vstd::prelude::*;
use crate::errors::{PostError, msg, msg3};
use crate::text::{chars_of, slice_chars, string_from};
use crate::shortnames::{apply_refs, extracted, names, replace_media_short_names};

verus! {

/// Content and draft with their media references rewritten, the content
/// first, against one usage list that starts empty.
pub open spec fn rewritten_texts(content: Seq<char>, draft: Seq<char>) -> (
    Seq<char>,
    Seq<char>,
    Seq<Seq<char>>,
) {
    let (c, u) = apply_refs(content, Seq::empty(), extracted(content));
    let (d, u2) = apply_refs(draft, u, extracted(draft));
    (c, d, u2)
}

/// The texts a post update stores: content and draft must come together;
/// when they do, both are rewritten and the usage list they share is returned.
pub fn post_update_texts(content: Option<String>, draft: Option<String>) -> (r: Result<
    Option<(String, String, Vec<String>)>,
    PostError,
>)
    ensures
        match (content, draft) {
            (Some(c), Some(d)) => r matches Ok(Some((c2, d2, u))) && (c2@, d2@, names(u@))
                == rewritten_texts(c@, d@),
            (None, None) => r matches Ok(None),
            _ => r matches Err(PostError::UploadFailed(m)) && m@
                == "Content and Draft must both present or both absent."@,
        },
{
    match (content, draft) {
        (Some(c), Some(d)) => {
            let mut c = c;
            let mut d = d;
            let mut usage: Vec<String> = Vec::new();
            assert(names(usage@) =~= Seq::<Seq<char>>::empty());
            replace_media_short_names(&mut c, &mut usage);
            replace_media_short_names(&mut d, &mut usage);
            Ok(Some((c, d, usage)))
        },
        (None, None) => Ok(None),
        _ => Err(
            PostError::UploadFailed(msg("Content and Draft must both present or both absent.")),
        ),
    }
}

/// A site's base URL without the slashes it may end with.
pub open spec fn without_trailing_slashes(s: Seq<char>) -> Seq<char>
    decreases s.len(),
{
    if s.len() > 0 && s.last() == '/' {
        without_trailing_slashes(s.drop_last())
    } else {
        s
    }
}

fn trim_trailing_slashes(s: &str) -> (r: String)
    ensures
        r@ == without_trailing_slashes(s@),
{
    let cs = chars_of(s);
    let mut n: usize = cs.len();
    assert(cs@.take(n as int) == cs@);
    while n > 0 && cs[n - 1] == '/'
        invariant
            n <= cs@.len(),
            without_trailing_slashes(cs@) == without_trailing_slashes(cs@.take(n as int)),
        decreases n,
    {
        assert(cs@.take(n as int).drop_last() == cs@.take(n - 1));
        n = n - 1;
    }
    let kept = slice_chars(cs.as_slice(), 0, n);
    assert(cs@.subrange(0, n as int) == cs@.take(n as int));
    string_from(kept.as_slice())
}

/// The link of a published post in its newsletter campaign:
/// `<base>/posts/<slug>`.
pub fn campaign_post_url(app_base_url: &str, slug: &str) -> (r: String)
    ensures
        r@ == without_trailing_slashes(app_base_url@) + "/posts/"@ + slug@,
{
    let base = trim_trailing_slashes(app_base_url);
    msg3(base.as_str(), "/posts/", slug)
}

/// The link of a published post's cover in its newsletter campaign:
/// `<base>/api/media/i/<short name>`.
pub fn campaign_cover_url(app_base_url: &str, short_name: &str) -> (r: String)
    ensures
        r@ == without_trailing_slashes(app_base_url@) + "/api/media/i/"@ + short_name@,
{
    let base = trim_trailing_slashes(app_base_url);
    msg3(base.as_str(), "/api/media/i/", short_name)
}

} // verus!
