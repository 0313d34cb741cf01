//! Media references in post, game and project content. Each referenced short
//! name is replaced by its index in a usage list, which the media service
//! stores beside the content so that renaming a medium needs no rewrite.
//!
//! Two syntaxes reference media: `@[kind:NAME]` (optionally `@(1_2)[kind:NAME]`)
//! and `:::app lottie NAME`. References are rewritten from the last one in the
//! text to the first, so that earlier byte offsets stay valid.
use vstd::prelude::*;
use crate::numbers::{decimal, format_u64};
use crate::serving::{chars_for_bytes, count_chars_for_bytes};
use crate::text::{chars_of, str_eq, string_from};

verus! {

/// A media short name found in content, and the byte offset where it starts.
pub struct ShortNameExtraction {
    pub short_name: String,
    pub start: usize,
}

/// What `regex` finds for capture group 1 of `pattern` over `content`: `None`
/// when the pattern does not compile, else one entry per match, left to right,
/// with the group's byte offset and text where the group took part.
pub uninterp spec fn group_one_captures(pattern: Seq<char>, content: Seq<char>) -> Option<
    Seq<Option<(int, Seq<char>)>>,
>;

pub open spec fn capture_views(v: Seq<Option<(usize, String)>>) -> Seq<Option<(int, Seq<char>)>> {
    v.map_values(
        |o: Option<(usize, String)>|
            match o {
                Some(p) => Some((p.0 as int, p.1@)),
                None => None,
            },
    )
}

/// Compiles `pattern` with `regex::Regex::new` and walks `Regex::captures_iter`
/// over `content`, keeping capture group 1 of every match (`Captures::get`,
/// `Match::start`, `Match::as_str`). Claimed: the result is the named one,
/// converted entry by entry; nothing is claimed of what the names hold.
#[verifier::external_body]
fn group_one_matches(pattern: &str, content: &str) -> (r: Option<Vec<Option<(usize, String)>>>)
    ensures
        match r {
            Some(v) => group_one_captures(pattern@, content@) == Some(capture_views(v@)),
            None => group_one_captures(pattern@, content@) is None,
        },
{
    let re = match regex::Regex::new(pattern) {
        Ok(re) => re,
        Err(_) => return None,
    };
    let mut found = Vec::new();
    for cap in re.captures_iter(content) {
        found.push(
            match cap.get(1) {
                Some(m) => Some((m.start(), m.as_str().to_string())),
                None => None,
            },
        );
    }
    Some(found)
}

/// `@[kind:NAME]`, optionally with a `(digits_and_underscores)` group after `@`.
pub open spec fn reference_pattern() -> Seq<char> {
    "@(?:\\([\\d_]+\\))?\\[[\\w-]+:([^\\]]+)\\]"@
}

/// `:::app lottie NAME`.
pub open spec fn lottie_pattern() -> Seq<char> {
    ":::app\\s+lottie\\s+([^\\s]+)"@
}

pub open spec fn ext_view(e: ShortNameExtraction) -> (int, Seq<char>) {
    (e.start as int, e.short_name@)
}

pub open spec fn ext_views(s: Seq<ShortNameExtraction>) -> Seq<(int, Seq<char>)> {
    s.map_values(|e: ShortNameExtraction| ext_view(e))
}

/// The captures where group 1 took part, in order.
pub open spec fn present(caps: Seq<Option<(int, Seq<char>)>>) -> Seq<(int, Seq<char>)>
    decreases caps.len(),
{
    if caps.len() == 0 {
        Seq::empty()
    } else {
        let rest = present(caps.drop_last());
        match caps.last() {
            Some(x) => rest.push(x),
            None => rest,
        }
    }
}

pub open spec fn present_of(found: Option<Seq<Option<(int, Seq<char>)>>>) -> Seq<(int, Seq<char>)> {
    match found {
        Some(caps) => present(caps),
        None => Seq::empty(),
    }
}

/// Inserts `x` after every entry that starts at or after it (`s` latest first).
pub open spec fn insert_by_start(s: Seq<(int, Seq<char>)>, x: (int, Seq<char>)) -> Seq<
    (int, Seq<char>),
>
    decreases s.len(),
{
    if s.len() == 0 {
        seq![x]
    } else if s[0].0 >= x.0 {
        seq![s[0]] + insert_by_start(s.drop_first(), x)
    } else {
        seq![x] + s
    }
}

/// The stable sort of `s` by descending start: latest reference first, and
/// references with equal starts in the order they were found.
pub open spec fn latest_first(s: Seq<(int, Seq<char>)>) -> Seq<(int, Seq<char>)>
    decreases s.len(),
{
    if s.len() == 0 {
        Seq::empty()
    } else {
        insert_by_start(latest_first(s.drop_last()), s.last())
    }
}

/// The references found in `content`, latest first: those of the `@[..]`
/// syntax, then those of the lottie syntax, stably sorted by start.
pub open spec fn extracted(content: Seq<char>) -> Seq<(int, Seq<char>)> {
    latest_first(
        present_of(group_one_captures(reference_pattern(), content)) + present_of(
            group_one_captures(lottie_pattern(), content),
        ),
    )
}

/// Index of `name` in `usage`: its first position, or `usage.len()` if absent.
pub open spec fn position_of(usage: Seq<Seq<char>>, name: Seq<char>) -> int
    decreases usage.len(),
{
    if usage.len() == 0 {
        0
    } else if usage[0] == name {
        0
    } else {
        1 + position_of(usage.drop_first(), name)
    }
}

/// The usage list once `name` is in it: appended when new.
pub open spec fn with_name(usage: Seq<Seq<char>>, name: Seq<char>) -> Seq<Seq<char>> {
    if usage.contains(name) {
        usage
    } else {
        usage.push(name)
    }
}

/// `content` with the `count` characters that start at byte `start` replaced
/// by `text`; unchanged when byte `start` is no character boundary or fewer
/// than `count` characters follow it.
pub open spec fn replaced_at(content: Seq<char>, start: int, count: int, text: Seq<char>) -> Seq<
    char,
> {
    match chars_for_bytes(content, start) {
        Some(i) => if i + count <= content.len() {
            content.take(i as int) + text + content.skip(i + count)
        } else {
            content
        },
        None => content,
    }
}

/// Rewrites the references `refs` in order: each name joins the usage list if
/// new, and its text in the content becomes the decimal of its index.
pub open spec fn apply_refs(
    content: Seq<char>,
    usage: Seq<Seq<char>>,
    refs: Seq<(int, Seq<char>)>,
) -> (Seq<char>, Seq<Seq<char>>)
    decreases refs.len(),
{
    if refs.len() == 0 {
        (content, usage)
    } else {
        let r = refs[0];
        let u = with_name(usage, r.1);
        let digits = decimal(position_of(u, r.1) as nat);
        apply_refs(replaced_at(content, r.0, r.1.len() as int, digits), u, refs.drop_first())
    }
}

pub open spec fn names(u: Seq<String>) -> Seq<Seq<char>> {
    u.map_values(|s: String| s@)
}

/// No name occurs twice.
pub open spec fn distinct(u: Seq<Seq<char>>) -> bool {
    forall|i: int, j: int| 0 <= i < j < u.len() ==> u[i] != u[j]
}

proof fn lemma_position_found(u: Seq<Seq<char>>, name: Seq<char>, k: int)
    requires
        0 <= k < u.len(),
        u[k] == name,
        forall|m: int| 0 <= m < k ==> u[m] != name,
    ensures
        position_of(u, name) == k,
    decreases k,
{
    if k > 0 {
        lemma_position_found(u.drop_first(), name, k - 1);
    }
}

/// Adds `name` to the usage list if it is new, and returns its index.
fn usage_index(usage: &mut Vec<String>, name: &String) -> (idx: usize)
    ensures
        names(final(usage)@) == with_name(names(old(usage)@), name@),
        idx == position_of(names(final(usage)@), name@),
{
    let ghost u0 = names(usage@);
    let mut k: usize = 0;
    while k < usage.len()
        invariant
            k <= usage@.len(),
            names(usage@) == u0,
            forall|m: int| 0 <= m < k ==> u0[m] != name@,
        decreases usage@.len() - k,
    {
        if str_eq(usage[k].as_str(), name.as_str()) {
            proof {
                assert(u0[k as int] == name@);
                assert(u0.contains(name@));
                lemma_position_found(u0, name@, k as int);
            }
            return k;
        }
        k = k + 1;
    }
    proof {
        assert(!u0.contains(name@)) by {
            if u0.contains(name@) {
                let m = choose|m: int| 0 <= m < u0.len() && u0[m] == name@;
                assert(u0[m] == name@);
            }
        }
    }
    let n = usage.len();
    usage.push(name.clone());
    proof {
        let u1 = names(usage@);
        assert(u1 =~= u0.push(name@));
        assert forall|m: int| 0 <= m < n implies u1[m] != name@ by {
            assert(u1[m] == u0[m]);
        }
        lemma_position_found(u1, name@, n as int);
    }
    n
}

/// `content` with the `count` characters from byte offset `start` replaced by `text`.
fn replace_at(content: &Vec<char>, start: usize, count: usize, text: &Vec<char>) -> (r: Vec<char>)
    ensures
        r@ == replaced_at(content@, start as int, count as int, text@),
{
    match count_chars_for_bytes(content.as_slice(), start) {
        Some(i) => {
            if i <= content.len() && count <= content.len() - i {
                let mut out: Vec<char> = Vec::new();
                let mut k: usize = 0;
                while k < i
                    invariant
                        k <= i <= content@.len(),
                        out@ == content@.take(k as int),
                    decreases i - k,
                {
                    out.push(content[k]);
                    assert(content@.take(k + 1) == content@.take(k as int).push(content@[k as int]));
                    k = k + 1;
                }
                let mut t: usize = 0;
                while t < text.len()
                    invariant
                        t <= text@.len(),
                        out@ == content@.take(i as int) + text@.take(t as int),
                    decreases text@.len() - t,
                {
                    out.push(text[t]);
                    assert(text@.take(t + 1) == text@.take(t as int).push(text@[t as int]));
                    t = t + 1;
                }
                assert(text@.take(text@.len() as int) == text@);
                let mut k: usize = i + count;
                while k < content.len()
                    invariant
                        i + count <= k <= content@.len(),
                        out@ == content@.take(i as int) + text@ + content@.subrange(
                            i + count,
                            k as int,
                        ),
                    decreases content@.len() - k,
                {
                    out.push(content[k]);
                    assert(content@.subrange(i + count, k + 1) == content@.subrange(
                        i + count,
                        k as int,
                    ).push(content@[k as int]));
                    k = k + 1;
                }
                assert(content@.subrange(i + count, content@.len() as int) == content@.skip(
                    i + count,
                ));
                out
            } else {
                content.clone()
            }
        },
        None => content.clone(),
    }
}

proof fn lemma_apply_refs_extends(content: Seq<char>, usage: Seq<Seq<char>>, refs: Seq<(int, Seq<char>)>)
    ensures
        apply_refs(content, usage, refs).1.len() >= usage.len(),
        apply_refs(content, usage, refs).1.take(usage.len() as int) == usage,
    decreases refs.len(),
{
    if refs.len() > 0 {
        let r = refs[0];
        let u = with_name(usage, r.1);
        let digits = decimal(position_of(u, r.1) as nat);
        lemma_apply_refs_extends(replaced_at(content, r.0, r.1.len() as int, digits), u, refs.drop_first());
        let fin = apply_refs(content, usage, refs).1;
        assert(u.take(usage.len() as int) == usage);
        assert(fin.take(usage.len() as int) == fin.take(u.len() as int).take(usage.len() as int));
    }
}

/// Every name that the rewritten references use is in the usage list
/// afterwards, so that each index written into the content resolves.
pub proof fn law_usage_holds_every_reference(
    content: Seq<char>,
    usage: Seq<Seq<char>>,
    refs: Seq<(int, Seq<char>)>,
)
    ensures
        forall|k: int| 0 <= k < refs.len() ==> apply_refs(content, usage, refs).1.contains(
            #[trigger] refs[k].1,
        ),
    decreases refs.len(),
{
    if refs.len() > 0 {
        let r = refs[0];
        let u = with_name(usage, r.1);
        let digits = decimal(position_of(u, r.1) as nat);
        let c2 = replaced_at(content, r.0, r.1.len() as int, digits);
        let rest = refs.drop_first();
        law_usage_holds_every_reference(c2, u, rest);
        lemma_apply_refs_extends(c2, u, rest);
        let fin = apply_refs(content, usage, refs).1;
        assert(fin == apply_refs(c2, u, rest).1);
        assert(u.contains(r.1)) by {
            if !usage.contains(r.1) {
                assert(u[usage.len() as int] == r.1);
            }
        }
        assert(fin.contains(r.1)) by {
            let j = choose|j: int| 0 <= j < u.len() && u[j] == r.1;
            assert(fin.take(u.len() as int)[j] == u[j]);
            assert(fin[j] == r.1);
        }
        assert forall|k: int| 0 <= k < refs.len() implies fin.contains(#[trigger] refs[k].1) by {
            if k > 0 {
                assert(refs[k] == rest[k - 1]);
            }
        }
    }
}

/// The content with reference `k` replaced by the decimal of `idx[k]`, in order.
pub open spec fn rewrite_refs(content: Seq<char>, refs: Seq<(int, Seq<char>)>, idx: Seq<int>) -> Seq<char>
    decreases refs.len(),
{
    if refs.len() == 0 || idx.len() == 0 {
        content
    } else {
        rewrite_refs(
            replaced_at(content, refs[0].0, refs[0].1.len() as int, decimal(idx[0] as nat)),
            refs.drop_first(),
            idx.drop_first(),
        )
    }
}

/// Each reference's index: the position of its name in `usage`.
pub open spec fn indices_in(usage: Seq<Seq<char>>, refs: Seq<(int, Seq<char>)>) -> Seq<int> {
    refs.map_values(|r: (int, Seq<char>)| position_of(usage, r.1))
}

proof fn lemma_position_prefix(p: Seq<Seq<char>>, f: Seq<Seq<char>>, n: Seq<char>)
    requires
        p.len() <= f.len(),
        f.take(p.len() as int) == p,
        p.contains(n),
    ensures
        position_of(f, n) == position_of(p, n),
        0 <= position_of(p, n) < p.len(),
    decreases p.len(),
{
    assert(f[0] == f.take(p.len() as int)[0]);
    if p[0] != n {
        let j = choose|j: int| 0 <= j < p.len() && p[j] == n;
        assert(j > 0);
        assert(p.drop_first()[j - 1] == n);
        assert(f.drop_first().take(p.drop_first().len() as int) =~= p.drop_first()) by {
            assert forall|i: int| 0 <= i < p.drop_first().len() implies f.drop_first().take(
                p.drop_first().len() as int,
            )[i] == p.drop_first()[i] by {
                assert(f.take(p.len() as int)[i + 1] == p[i + 1]);
            }
        }
        lemma_position_prefix(p.drop_first(), f.drop_first(), n);
    }
}

/// After rewriting, the usage list holds exactly the names it held and the
/// names the references use; and each reference was replaced by the decimal
/// of its name's index in that final list.
pub proof fn law_rewritten_references(content: Seq<char>, usage: Seq<Seq<char>>, refs: Seq<(int, Seq<char>)>)
    ensures
        forall|n: Seq<char>|
            #![trigger apply_refs(content, usage, refs).1.contains(n)]
            apply_refs(content, usage, refs).1.contains(n) <==> (usage.contains(n) || exists|k: int|
                0 <= k < refs.len() && (#[trigger] refs[k]).1 == n),
        apply_refs(content, usage, refs).0 == rewrite_refs(
            content,
            refs,
            indices_in(apply_refs(content, usage, refs).1, refs),
        ),
    decreases refs.len(),
{
    let fin = apply_refs(content, usage, refs).1;
    if refs.len() == 0 {
        assert forall|n: Seq<char>| fin.contains(n) <==> (usage.contains(n) || exists|k: int|
            0 <= k < refs.len() && (#[trigger] refs[k]).1 == n) by {}
    } else {
        let r = refs[0];
        let u = with_name(usage, r.1);
        let digits = decimal(position_of(u, r.1) as nat);
        let c2 = replaced_at(content, r.0, r.1.len() as int, digits);
        let rest = refs.drop_first();
        law_rewritten_references(c2, u, rest);
        lemma_apply_refs_extends(c2, u, rest);
        assert(fin == apply_refs(c2, u, rest).1);
        assert(u.contains(r.1)) by {
            if !usage.contains(r.1) {
                assert(u[usage.len() as int] == r.1);
            }
        }
        lemma_position_prefix(u, fin, r.1);
        let idx = indices_in(fin, refs);
        assert(idx.drop_first() =~= indices_in(fin, rest));
        assert(idx[0] == position_of(fin, r.1));
        assert forall|n: Seq<char>| fin.contains(n) <==> (usage.contains(n) || exists|k: int|
            0 <= k < refs.len() && (#[trigger] refs[k]).1 == n) by {
            if fin.contains(n) {
                if u.contains(n) {
                    if !usage.contains(n) {
                        let j = choose|j: int| 0 <= j < u.len() && u[j] == n;
                        assert(n == r.1);
                        assert(refs[0].1 == n);
                    }
                } else {
                    let k = choose|k: int| 0 <= k < rest.len() && (#[trigger] rest[k]).1 == n;
                    assert(refs[k + 1] == rest[k]);
                }
            }
            if usage.contains(n) {
                let j = choose|j: int| 0 <= j < usage.len() && usage[j] == n;
                assert(u[j] == n);
                assert(fin.take(u.len() as int)[j] == u[j]);
                assert(fin[j] == n);
            }
            if exists|k: int| 0 <= k < refs.len() && (#[trigger] refs[k]).1 == n {
                let k = choose|k: int| 0 <= k < refs.len() && (#[trigger] refs[k]).1 == n;
                if k == 0 {
                    let j = choose|j: int| 0 <= j < u.len() && u[j] == n;
                    assert(fin.take(u.len() as int)[j] == u[j]);
                    assert(fin[j] == n);
                } else {
                    assert(rest[k - 1] == refs[k]);
                }
            }
        }
    }
}

/// Rewrites the given references in `content`, in the order given, extending
/// `usage` with the names it did not hold yet. Names already in `usage` keep
/// their index, and a usage list without repeats stays without repeats.
pub fn apply_media_short_names(
    content: &mut String,
    usage: &mut Vec<String>,
    refs: &Vec<ShortNameExtraction>,
)
    ensures
        (final(content)@, names(final(usage)@)) == apply_refs(
            old(content)@,
            names(old(usage)@),
            ext_views(refs@),
        ),
        names(final(usage)@).take(old(usage)@.len() as int) == names(old(usage)@),
        old(usage)@.len() <= final(usage)@.len(),
        distinct(names(old(usage)@)) ==> distinct(names(final(usage)@)),
{
    let ghost c0 = content@;
    let ghost u0 = names(usage@);
    let ghost all = ext_views(refs@);
    let mut cur: Vec<char> = chars_of(content.as_str());
    let mut k: usize = 0;
    assert(all.skip(0) == all);
    while k < refs.len()
        invariant
            k <= refs@.len(),
            all == ext_views(refs@),
            apply_refs(c0, u0, all) == apply_refs(cur@, names(usage@), all.skip(k as int)),
            u0.len() <= names(usage@).len(),
            names(usage@).take(u0.len() as int) == u0,
            distinct(u0) ==> distinct(names(usage@)),
        decreases refs@.len() - k,
    {
        let r = &refs[k];
        let ghost before = names(usage@);
        proof {
            assert(all.skip(k as int)[0] == ext_view(refs@[k as int]));
            assert(all.skip(k as int).drop_first() == all.skip(k + 1));
        }
        let idx = usage_index(usage, &r.short_name);
        let digits = format_u64(idx as u64);
        let name_chars = chars_of(r.short_name.as_str());
        cur = replace_at(&cur, r.start, name_chars.len(), &digits);
        proof {
            let after = names(usage@);
            assert(after.take(u0.len() as int) == u0) by {
                if !before.contains(r.short_name@) {
                    assert(after.take(u0.len() as int) =~= before.take(u0.len() as int));
                }
            }
            if distinct(u0) && !before.contains(r.short_name@) {
                assert forall|i: int, j: int| 0 <= i < j < after.len() implies after[i] != after[j] by {
                    if j == before.len() {
                        assert(before[i] == after[i]);
                        if after[i] == after[j] {
                            assert(before.contains(r.short_name@));
                        }
                    } else {
                        assert(after[i] == before[i] && after[j] == before[j]);
                    }
                }
            }
        }
        k = k + 1;
    }
    *content = string_from(cur.as_slice());
}

proof fn lemma_insert_by_start_at(s: Seq<(int, Seq<char>)>, x: (int, Seq<char>), p: int)
    requires
        0 <= p <= s.len(),
        forall|k: int| 0 <= k < p ==> s[k].0 >= x.0,
        p < s.len() ==> s[p].0 < x.0,
    ensures
        insert_by_start(s, x) == s.insert(p, x),
    decreases p,
{
    if p == 0 {
        assert(s.insert(0, x) =~= seq![x] + s);
    } else {
        lemma_insert_by_start_at(s.drop_first(), x, p - 1);
        assert(s.insert(p, x) =~= seq![s[0]] + s.drop_first().insert(p - 1, x));
    }
}

/// Places `item` into `out`, kept latest first, after every entry that starts
/// at or after it.
fn insert_latest_first(out: &mut Vec<ShortNameExtraction>, item: ShortNameExtraction)
    ensures
        ext_views(final(out)@) == insert_by_start(ext_views(old(out)@), ext_view(item)),
{
    let mut p: usize = 0;
    while p < out.len() && out[p].start >= item.start
        invariant
            p <= out@.len(),
            forall|k: int| 0 <= k < p ==> out@[k].start >= item.start,
        decreases out@.len() - p,
    {
        p = p + 1;
    }
    let ghost before = ext_views(out@);
    proof {
        lemma_insert_by_start_at(before, ext_view(item), p as int);
    }
    out.insert(p, item);
    assert(ext_views(out@) =~= before.insert(p as int, ext_view(item)));
}

/// Appends the captures where group 1 took part, as extractions.
fn push_present(out: &mut Vec<ShortNameExtraction>, found: Option<Vec<Option<(usize, String)>>>)
    ensures
        ext_views(final(out)@) == ext_views(old(out)@) + present_of(
            match found {
                Some(v) => Some(capture_views(v@)),
                None => None,
            },
        ),
{
    match found {
        Some(v) => {
            let ghost caps = capture_views(v@);
            let ghost start = ext_views(out@);
            let mut i: usize = 0;
            assert(caps.take(0) =~= Seq::<Option<(int, Seq<char>)>>::empty());
            while i < v.len()
                invariant
                    i <= v@.len(),
                    caps == capture_views(v@),
                    ext_views(out@) == start + present(caps.take(i as int)),
                decreases v@.len() - i,
            {
                assert(caps.take(i + 1).drop_last() == caps.take(i as int));
                assert(caps.take(i + 1).last() == caps[i as int]);
                match &v[i] {
                    Some(pair) => {
                        let e = ShortNameExtraction { short_name: pair.1.clone(), start: pair.0 };
                        let ghost prev = ext_views(out@);
                        out.push(e);
                        proof {
                            assert(caps[i as int] == Some((pair.0 as int, pair.1@)));
                            assert(present(caps.take(i + 1)) == present(caps.take(i as int)).push(
                                (pair.0 as int, pair.1@),
                            ));
                            assert(ext_views(out@) =~= prev.push((pair.0 as int, pair.1@)));
                        }
                    },
                    None => {},
                }
                i = i + 1;
            }
            assert(caps.take(v@.len() as int) == caps);
        },
        None => {
            assert(ext_views(out@) =~= ext_views(out@) + Seq::<(int, Seq<char>)>::empty());
        },
    }
}

/// Orders the references that the two syntaxes found: the stable sort, by
/// descending start, of the `@[..]` references followed by the lottie ones.
pub fn order_extractions(
    references: Option<Vec<Option<(usize, String)>>>,
    lotties: Option<Vec<Option<(usize, String)>>>,
) -> (r: Vec<ShortNameExtraction>)
    ensures
        ext_views(r@) == latest_first(
            present_of(
                match references {
                    Some(v) => Some(capture_views(v@)),
                    None => None,
                },
            ) + present_of(
                match lotties {
                    Some(v) => Some(capture_views(v@)),
                    None => None,
                },
            ),
        ),
{
    let mut found: Vec<ShortNameExtraction> = Vec::new();
    push_present(&mut found, references);
    push_present(&mut found, lotties);
    let ghost all = ext_views(found@);
    assert(all =~= Seq::<(int, Seq<char>)>::empty() + all);
    let mut out: Vec<ShortNameExtraction> = Vec::new();
    let mut i: usize = 0;
    while i < found.len()
        invariant
            i <= found@.len(),
            all == ext_views(found@),
            ext_views(out@) == latest_first(all.take(i as int)),
        decreases found@.len() - i,
    {
        assert(all.take(i + 1).drop_last() == all.take(i as int));
        assert(all.take(i + 1).last() == all[i as int]);
        let e = ShortNameExtraction { short_name: found[i].short_name.clone(), start: found[i].start };
        insert_latest_first(&mut out, e);
        i = i + 1;
    }
    assert(all.take(found@.len() as int) == all);
    out
}

/// The media references in `content`, latest first.
pub fn extract_media_short_names(content: &str) -> (r: Vec<ShortNameExtraction>)
    ensures
        ext_views(r@) == extracted(content@),
{
    let references = group_one_matches("@(?:\\([\\d_]+\\))?\\[[\\w-]+:([^\\]]+)\\]", content);
    let lotties = group_one_matches(":::app\\s+lottie\\s+([^\\s]+)", content);
    order_extractions(references, lotties)
}

/// Replaces every media short name referenced in `content` by its index in
/// `usage`, adding the names that `usage` does not hold yet, latest reference
/// first.
pub fn replace_media_short_names(content: &mut String, usage: &mut Vec<String>)
    ensures
        (final(content)@, names(final(usage)@)) == apply_refs(
            old(content)@,
            names(old(usage)@),
            extracted(old(content)@),
        ),
        names(final(usage)@).take(old(usage)@.len() as int) == names(old(usage)@),
        old(usage)@.len() <= final(usage)@.len(),
        distinct(names(old(usage)@)) ==> distinct(names(final(usage)@)),
        forall|n: Seq<char>|
            #![trigger names(final(usage)@).contains(n)]
            names(final(usage)@).contains(n) <==> (names(old(usage)@).contains(n) || exists|k: int|
                0 <= k < extracted(old(content)@).len() && (#[trigger] extracted(old(content)@)[k]).1
                    == n),
        final(content)@ == rewrite_refs(
            old(content)@,
            extracted(old(content)@),
            indices_in(names(final(usage)@), extracted(old(content)@)),
        ),
{
    let ghost c0 = content@;
    let ghost u0 = names(usage@);
    proof {
        law_rewritten_references(c0, u0, extracted(c0));
    }
    let refs = extract_media_short_names(content.as_str());
    apply_media_short_names(content, usage, &refs);
}

} // verus!
