//! External links of a project page: blank entries are dropped, the rest
//! trimmed, at most twenty kept, and every URL must be http(s).
use vstd::prelude::*;
use crate::errors::{ProjectError, msg};
use crate::text::{blank, chars_of, is_blank, law_trim_idempotent, string_from, trim, trimmed};
use crate::urls::{is_http_url, is_http_url_text};

verus! {

/// An external link a project lists.
pub struct ProjectLink {
    pub label: String,
    pub url: String,
}

fn string_is_blank(s: &String) -> (r: bool)
    ensures
        r == blank(s@),
{
    let cs = chars_of(s.as_str());
    is_blank(cs.as_slice())
}

pub open spec fn keeps_project_link(l: ProjectLink) -> bool {
    !blank(l.label@) && !blank(l.url@)
}

/// Blank-free project links with their label and URL trimmed.
pub open spec fn normalized_project_links(links: Seq<ProjectLink>) -> Seq<(Seq<char>, Seq<char>)> {
    links.filter(|l: ProjectLink| keeps_project_link(l)).map_values(
        |l: ProjectLink| (trimmed(l.label@), trimmed(l.url@)),
    )
}

pub open spec fn link_pairs(links: Seq<ProjectLink>) -> Seq<(Seq<char>, Seq<char>)> {
    links.map_values(|l: ProjectLink| (l.label@, l.url@))
}

fn trim_string(s: &String) -> (r: String)
    ensures
        r@ == trimmed(s@),
{
    let cs = chars_of(s.as_str());
    let t = trim(cs.as_slice());
    string_from(t.as_slice())
}

/// Drops links with a blank label or URL and trims the rest.
fn kept_trimmed_links(links: Vec<ProjectLink>) -> (r: Vec<ProjectLink>)
    ensures
        r@.len() == normalized_project_links(links@).len(),
        forall|i: int|
            0 <= i < r@.len() ==> (#[trigger] r@[i].label@, r@[i].url@) == normalized_project_links(
                links@,
            )[i],
{
    let mut out: Vec<ProjectLink> = Vec::new();
    let ghost mut kept: Seq<ProjectLink> = Seq::empty();
    let mut i: usize = 0;
    while i < links.len()
        invariant
            i <= links@.len(),
            kept == links@.take(i as int).filter(|l: ProjectLink| keeps_project_link(l)),
            out@.len() == kept.len(),
            forall|j: int|
                0 <= j < out@.len() ==> (#[trigger] out@[j].label@, out@[j].url@) == (
                    trimmed(kept[j].label@),
                    trimmed(kept[j].url@),
                ),
        decreases links@.len() - i,
    {
        proof {
            reveal(Seq::filter);
            assert(links@.take(i + 1).drop_last() == links@.take(i as int));
            assert(links@.take(i + 1).last() == links@[i as int]);
        }
        let l = &links[i];
        if !string_is_blank(&l.label) && !string_is_blank(&l.url) {
            let label = trim_string(&l.label);
            let url = trim_string(&l.url);
            out.push(ProjectLink { label, url });
            proof {
                kept = kept.push(links@[i as int]);
            }
        }
        i = i + 1;
    }
    assert(links@.take(links@.len() as int) == links@);
    out
}


/// Upper bound on how many external links a project may list.
pub const MAX_PROJECT_LINKS: usize = 20;

/// What normalizing a project's links gives: the kept, trimmed links, or why
/// they are refused (more than twenty, or a URL that is not http(s)).
pub open spec fn project_links_outcome(links: Seq<ProjectLink>) -> Result<
    Seq<(Seq<char>, Seq<char>)>,
    Seq<char>,
> {
    let n = normalized_project_links(links);
    if n.len() > MAX_PROJECT_LINKS {
        Err("A project may have at most 20 links."@)
    } else if exists|k: int| 0 <= k < n.len() && !is_http_url(#[trigger] n[k].1) {
        Err("Link URL must be an http:// or https:// URL."@)
    } else {
        Ok(n)
    }
}

/// Trim, drop blanks, and check that every remaining link is an http(s) URL:
/// link URLs are rendered into an `href`, so a `javascript:` or `data:` value
/// must not be storable.
pub fn normalize_links(links: Vec<ProjectLink>) -> (r: Result<Vec<ProjectLink>, ProjectError>)
    ensures
        match project_links_outcome(links@) {
            Ok(n) => r matches Ok(v) && link_pairs(v@) == n,
            Err(m) => r matches Err(ProjectError::InvalidDemo(e)) && e@ == m,
        },
{
    let kept = kept_trimmed_links(links);
    let ghost n = normalized_project_links(links@);
    assert(link_pairs(kept@) =~= n);
    if kept.len() > MAX_PROJECT_LINKS {
        return Err(ProjectError::InvalidDemo(msg("A project may have at most 20 links.")));
    }
    let mut i: usize = 0;
    while i < kept.len()
        invariant
            i <= kept@.len(),
            link_pairs(kept@) == n,
            n == normalized_project_links(links@),
            kept@.len() <= MAX_PROJECT_LINKS,
            forall|k: int| 0 <= k < i ==> is_http_url(#[trigger] n[k].1),
        decreases kept@.len() - i,
    {
        let url = chars_of(kept[i].url.as_str());
        assert(n[i as int].1 == kept@[i as int].url@);
        if !is_http_url_text(url.as_slice()) {
            assert(!is_http_url(n[i as int].1));
            return Err(ProjectError::InvalidDemo(msg("Link URL must be an http:// or https:// URL.")));
        }
        i = i + 1;
    }
    Ok(kept)
}

proof fn lemma_filter_keeps_all(s: Seq<ProjectLink>)
    requires
        forall|i: int| 0 <= i < s.len() ==> keeps_project_link(#[trigger] s[i]),
    ensures
        s.filter(|l: ProjectLink| keeps_project_link(l)) == s,
    decreases s.len(),
{
    reveal(Seq::filter);
    if s.len() > 0 {
        lemma_filter_keeps_all(s.drop_last());
        assert(s.drop_last().push(s.last()) == s);
    }
}

/// Normalizing links that are already normalized changes nothing: none of
/// them is blank and each is already trimmed.
pub proof fn law_normalized_project_links_are_stable(links: Seq<ProjectLink>, again: Seq<ProjectLink>)
    requires
        link_pairs(again) == normalized_project_links(links),
    ensures
        normalized_project_links(again) == link_pairs(again),
{
    let kept = links.filter(|l: ProjectLink| keeps_project_link(l));
    let norm = normalized_project_links(links);
    assert(norm.len() == kept.len());
    assert(link_pairs(again).len() == again.len());
    assert forall|i: int| 0 <= i < again.len() implies keeps_project_link(#[trigger] again[i])
        && trimmed(again[i].label@) == again[i].label@ && trimmed(again[i].url@) == again[i].url@ by {
        assert(link_pairs(again)[i] == norm[i]);
        assert(norm[i] == (trimmed(kept[i].label@), trimmed(kept[i].url@)));
        links.lemma_filter_pred(|l: ProjectLink| keeps_project_link(l), i);
        law_trim_idempotent(kept[i].label@);
        law_trim_idempotent(kept[i].url@);
    }
    lemma_filter_keeps_all(again);
    assert(normalized_project_links(again) =~= link_pairs(again));
}

/// Accepted links are at most twenty, each with a non-blank trimmed label and
/// a trimmed http(s) URL; normalizing them again accepts them unchanged.
pub proof fn law_accepted_project_links(links: Seq<ProjectLink>, again: Seq<ProjectLink>)
    requires
        project_links_outcome(links) is Ok,
        link_pairs(again) == project_links_outcome(links)->Ok_0,
    ensures
        again.len() <= MAX_PROJECT_LINKS,
        forall|k: int|
            0 <= k < again.len() ==> !blank(#[trigger] again[k].label@) && trimmed(again[k].label@)
                == again[k].label@ && trimmed(again[k].url@) == again[k].url@ && is_http_url(
                again[k].url@,
            ),
        project_links_outcome(again) == Ok::<Seq<(Seq<char>, Seq<char>)>, Seq<char>>(
            link_pairs(again),
        ),
{
    let n = normalized_project_links(links);
    let kept = links.filter(|l: ProjectLink| keeps_project_link(l));
    law_normalized_project_links_are_stable(links, again);
    assert(link_pairs(again).len() == again.len());
    assert forall|k: int| 0 <= k < again.len() implies !blank(#[trigger] again[k].label@) && trimmed(
        again[k].label@,
    ) == again[k].label@ && trimmed(again[k].url@) == again[k].url@ && is_http_url(again[k].url@) by {
        assert(link_pairs(again)[k] == n[k]);
        assert(n[k] == (trimmed(kept[k].label@), trimmed(kept[k].url@)));
        links.lemma_filter_pred(|l: ProjectLink| keeps_project_link(l), k);
        law_trim_idempotent(kept[k].label@);
        law_trim_idempotent(kept[k].url@);
        if !is_http_url(n[k].1) {
            assert(exists|j: int| 0 <= j < n.len() && !is_http_url(#[trigger] n[j].1));
        }
    }
    let n2 = normalized_project_links(again);
    if exists|j: int| 0 <= j < n2.len() && !is_http_url(#[trigger] n2[j].1) {
        let j = choose|j: int| 0 <= j < n2.len() && !is_http_url(#[trigger] n2[j].1);
        assert(n2[j] == link_pairs(again)[j]);
        assert(is_http_url(again[j].url@));
    }
}

} // verus!
