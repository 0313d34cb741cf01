//! Paths that stay where they are put: a path made of normal components only
//! names something below the directory it is joined to. These lemmas show
//! that the normal form of a zip entry path has exactly its normal
//! components, so that nothing a demo archive plans to write climbs out.
use vstd::prelude::*;
use crate::paths::{
    SComp, components, has_invalid, index_of, is_absolute, join, lemma_index_of_bounds,
    lemma_index_of_exact, normalized_zip, piece_comp, pieces_comps, push_normals, split_on,
};

verus! {

/// A name a normal component can carry: not empty, not `.` or `..`, no `/`.
pub open spec fn good_name(p: Seq<char>) -> bool {
    &&& p.len() > 0
    &&& p != seq!['.']
    &&& p != seq!['.', '.']
    &&& forall|i: int| 0 <= i < p.len() ==> p[i] != '/'
}

/// Every component is a normal one with a proper name.
pub open spec fn all_normal(cs: Seq<SComp>) -> bool {
    forall|i: int| 0 <= i < cs.len() ==> (#[trigger] cs[i] matches SComp::Normal(p) && good_name(p))
}

/// The normal components of `cs`, in order.
pub open spec fn normals_of(cs: Seq<SComp>) -> Seq<SComp>
    decreases cs.len(),
{
    if cs.len() == 0 {
        Seq::empty()
    } else {
        let prev = normals_of(cs.drop_last());
        if cs.last() is Normal {
            prev.push(cs.last())
        } else {
            prev
        }
    }
}

pub open spec fn names(cs: Seq<SComp>) -> Seq<Seq<char>> {
    cs.map_values(|c: SComp| c->Normal_0)
}

pub open spec fn no_slash(p: Seq<char>) -> bool {
    forall|i: int| 0 <= i < p.len() ==> p[i] != '/'
}

proof fn lemma_no_slash_index(p: Seq<char>)
    requires
        no_slash(p),
    ensures
        index_of(p, '/') == -1,
{
    lemma_index_of_exact(p, '/', p.len() as int);
}

/// The pieces of `str::split('/')` hold no `/`.
proof fn lemma_split_pieces(s: Seq<char>)
    ensures
        forall|j: int| 0 <= j < split_on(s, '/').len() ==> no_slash(#[trigger] split_on(s, '/')[j]),
    decreases s.len(),
{
    lemma_index_of_bounds(s, '/');
    let k = index_of(s, '/');
    if k >= 0 {
        lemma_split_pieces(s.skip(k + 1));
        let rest = split_on(s.skip(k + 1), '/');
        assert(split_on(s, '/') == seq![s.take(k)] + rest);
        assert forall|j: int| 0 <= j < split_on(s, '/').len() implies no_slash(
            #[trigger] split_on(s, '/')[j],
        ) by {
            if j > 0 {
                assert(split_on(s, '/')[j] == rest[j - 1]);
            }
        }
    }
}

/// Normal components that `pieces_comps` yields carry proper names.
proof fn lemma_pieces_normals_good(ps: Seq<Seq<char>>, first: bool)
    requires
        forall|j: int| 0 <= j < ps.len() ==> no_slash(#[trigger] ps[j]),
    ensures
        forall|i: int|
            0 <= i < pieces_comps(ps, first).len() ==> (#[trigger] pieces_comps(ps, first)[i] matches SComp::Normal(
                p,
            ) ==> good_name(p)),
    decreases ps.len(),
{
    if ps.len() > 0 {
        assert forall|j: int| 0 <= j < ps.drop_first().len() implies no_slash(
            #[trigger] ps.drop_first()[j],
        ) by {
            assert(ps.drop_first()[j] == ps[j + 1]);
        }
        lemma_pieces_normals_good(ps.drop_first(), false);
        assert(no_slash(ps[0]));
        let head = piece_comp(ps[0], first);
        let rest = pieces_comps(ps.drop_first(), false);
        assert(pieces_comps(ps, first) == head + rest);
        assert forall|i: int| 0 <= i < pieces_comps(ps, first).len() implies (
        #[trigger] pieces_comps(ps, first)[i] matches SComp::Normal(p) ==> good_name(p)) by {
            if i >= head.len() {
                assert(pieces_comps(ps, first)[i] == rest[i - head.len()]);
            }
        }
    }
}

/// Every normal component of a path carries a proper name.
pub proof fn lemma_component_names_good(s: Seq<char>)
    ensures
        forall|i: int|
            0 <= i < components(s).len() ==> (#[trigger] components(s)[i] matches SComp::Normal(p)
                ==> good_name(p)),
{
    lemma_split_pieces(s);
    let ps = split_on(s, '/');
    if is_absolute(s) {
        lemma_pieces_normals_good(ps, false);
        let rest = pieces_comps(ps, false);
        assert forall|i: int| 0 <= i < components(s).len() implies (
        #[trigger] components(s)[i] matches SComp::Normal(p) ==> good_name(p)) by {
            if i > 0 {
                assert(components(s)[i] == rest[i - 1]);
            }
        }
    } else {
        lemma_pieces_normals_good(ps, true);
    }
}

/// `push_normals` reads only the normal components.
proof fn lemma_push_normals_of(cs: Seq<SComp>)
    ensures
        push_normals(cs) == push_normals(normals_of(cs)),
    decreases cs.len(),
{
    if cs.len() > 0 {
        lemma_push_normals_of(cs.drop_last());
        let prev = normals_of(cs.drop_last());
        if cs.last() is Normal {
            assert(prev.push(cs.last()).drop_last() == prev);
        }
    }
}

/// The normal components of `cs` whose normal names are proper are all normal.
proof fn lemma_normals_of_all_normal(cs: Seq<SComp>)
    requires
        forall|i: int| 0 <= i < cs.len() ==> (#[trigger] cs[i] matches SComp::Normal(p) ==> good_name(p)),
    ensures
        all_normal(normals_of(cs)),
    decreases cs.len(),
{
    if cs.len() > 0 {
        assert forall|i: int| 0 <= i < cs.drop_last().len() implies (
        #[trigger] cs.drop_last()[i] matches SComp::Normal(p) ==> good_name(p)) by {
            assert(cs.drop_last()[i] == cs[i]);
        }
        lemma_normals_of_all_normal(cs.drop_last());
        assert(cs.last() == cs[cs.len() - 1]);
    }
}

/// The text `push_normals` builds from proper names: the names joined by `/`.
proof fn lemma_push_normals_shape(ns: Seq<SComp>)
    requires
        all_normal(ns),
        ns.len() > 0,
    ensures
        push_normals(ns).len() > 0,
        push_normals(ns)[0] != '/',
        push_normals(ns).last() != '/',
        ns.len() == 1 ==> push_normals(ns) == ns.last()->Normal_0,
        ns.len() > 1 ==> push_normals(ns) == push_normals(ns.drop_last()) + seq!['/']
            + ns.last()->Normal_0,
    decreases ns.len(),
{
    let p = ns.last()->Normal_0;
    assert(ns[ns.len() - 1] == ns.last());
    assert(good_name(p));
    if ns.len() == 1 {
        assert(push_normals(ns.drop_last()) == Seq::<char>::empty());
        assert(Seq::<char>::empty() + p == p);
    } else {
        assert forall|i: int| 0 <= i < ns.drop_last().len() implies (#[trigger] ns.drop_last()[i] matches SComp::Normal(
            q,
        ) && good_name(q)) by {
            assert(ns.drop_last()[i] == ns[i]);
        }
        lemma_push_normals_shape(ns.drop_last());
    }
}

/// Splitting at a `/` splits the two sides separately.
proof fn lemma_split_concat(x: Seq<char>, y: Seq<char>)
    ensures
        split_on(x + seq!['/'] + y, '/') == split_on(x, '/') + split_on(y, '/'),
    decreases x.len(),
{
    let s = x + seq!['/'] + y;
    lemma_index_of_bounds(x, '/');
    let k = index_of(x, '/');
    if k < 0 {
        assert forall|j: int| 0 <= j < x.len() implies s[j] != '/' by {
            assert(s[j] == x[j]);
        }
        lemma_index_of_exact(s, '/', x.len() as int);
        assert(s.take(x.len() as int) == x);
        assert(s.skip(x.len() + 1 as int) == y);
    } else {
        assert forall|j: int| 0 <= j < k implies s[j] != '/' by {
            assert(s[j] == x[j]);
        }
        assert(s[k] == x[k]);
        lemma_index_of_exact(s, '/', k);
        assert(s.take(k) == x.take(k));
        assert(s.skip(k + 1) == x.skip(k + 1) + seq!['/'] + y);
        lemma_split_concat(x.skip(k + 1), y);
        assert(split_on(s, '/') == seq![x.take(k)] + (split_on(x.skip(k + 1), '/') + split_on(y, '/')));
        assert(split_on(x, '/') == seq![x.take(k)] + split_on(x.skip(k + 1), '/'));
        assert(seq![x.take(k)] + (split_on(x.skip(k + 1), '/') + split_on(y, '/')) == (seq![
            x.take(k),
        ] + split_on(x.skip(k + 1), '/')) + split_on(y, '/'));
    }
}

proof fn lemma_split_joined(ns: Seq<SComp>)
    requires
        all_normal(ns),
        ns.len() > 0,
    ensures
        split_on(push_normals(ns), '/') == names(ns),
    decreases ns.len(),
{
    lemma_push_normals_shape(ns);
    let p = ns.last()->Normal_0;
    assert(ns[ns.len() - 1] == ns.last());
    assert(good_name(p));
    lemma_no_slash_index(p);
    assert(split_on(p, '/') == seq![p]);
    if ns.len() == 1 {
        assert(names(ns) =~= seq![p]);
    } else {
        assert forall|i: int| 0 <= i < ns.drop_last().len() implies (#[trigger] ns.drop_last()[i] matches SComp::Normal(
            q,
        ) && good_name(q)) by {
            assert(ns.drop_last()[i] == ns[i]);
        }
        lemma_split_joined(ns.drop_last());
        lemma_split_concat(push_normals(ns.drop_last()), p);
        assert(names(ns) =~= names(ns.drop_last()) + seq![p]);
    }
}

proof fn lemma_pieces_of_names(ns: Seq<SComp>, first: bool)
    requires
        all_normal(ns),
    ensures
        pieces_comps(names(ns), first) == ns,
    decreases ns.len(),
{
    if ns.len() > 0 {
        assert forall|i: int| 0 <= i < ns.drop_first().len() implies (#[trigger] ns.drop_first()[i] matches SComp::Normal(
            q,
        ) && good_name(q)) by {
            assert(ns.drop_first()[i] == ns[i + 1]);
        }
        lemma_pieces_of_names(ns.drop_first(), false);
        assert(names(ns).drop_first() =~= names(ns.drop_first()));
        assert(ns[0] matches SComp::Normal(p) && good_name(p));
        assert(piece_comp(names(ns)[0], first) == seq![ns[0]]);
        assert(ns =~= seq![ns[0]] + ns.drop_first());
    }
}

/// Names joined by `/` read back as exactly those normal components.
pub proof fn lemma_components_of_push_normals(ns: Seq<SComp>)
    requires
        all_normal(ns),
    ensures
        components(push_normals(ns)) == ns,
{
    if ns.len() == 0 {
        let e = Seq::<char>::empty();
        lemma_index_of_exact(e, '/', 0);
        assert(split_on(e, '/') == seq![e]);
        assert(pieces_comps(seq![e], true) == piece_comp(e, true) + pieces_comps(
            seq![e].drop_first(),
            false,
        ));
        assert(seq![e].drop_first() =~= Seq::<Seq<char>>::empty());
    } else {
        lemma_push_normals_shape(ns);
        lemma_split_joined(ns);
        lemma_pieces_of_names(ns, true);
    }
}

/// The normal form of a zip entry path is made of the path's normal
/// components and nothing else; it neither climbs out nor starts at the root.
pub proof fn law_normalized_zip_stays_inside(s: Seq<char>)
    requires
        normalized_zip(s) is Some,
    ensures
        components(normalized_zip(s)->0) == normals_of(components(s)),
        all_normal(components(normalized_zip(s)->0)),
        !has_invalid(normalized_zip(s)->0),
{
    let cs = components(s);
    lemma_component_names_good(s);
    lemma_normals_of_all_normal(cs);
    lemma_push_normals_of(cs);
    lemma_components_of_push_normals(normals_of(cs));
    let n = normalized_zip(s)->0;
    assert(!has_invalid(n)) by {
        if has_invalid(n) {
            let i = choose|i: int| 0 <= i < components(n).len() && crate::paths::comp_is_invalid(
                #[trigger] components(n)[i],
            );
            assert(components(n)[i] matches SComp::Normal(p) && good_name(p));
        }
    }
}

/// A path that passes the synced-file rule (`is_safe_relative_path`) is made
/// of normal components only.
pub proof fn law_safe_relative_paths_stay_inside(s: Seq<char>)
    requires
        crate::paths::safe_relative(s),
    ensures
        all_normal(components(s)),
{
    let ps = split_on(s, '/');
    lemma_split_pieces(s);
    let ns = ps.map_values(|p: Seq<char>| SComp::Normal(p));
    assert forall|i: int| 0 <= i < ns.len() implies (#[trigger] ns[i] matches SComp::Normal(q)
        && good_name(q)) by {
        let p = ps[i];
        assert(p.len() > 0 && p[0] != '.');
        assert(no_slash(p));
        assert(p != seq!['.']) by {
            if p == seq!['.'] {
                assert(p[0] == '.');
            }
        }
        assert(p != seq!['.', '.']) by {
            if p == seq!['.', '.'] {
                assert(p[0] == '.');
            }
        }
    }
    assert(names(ns) =~= ps);
    lemma_pieces_of_names(ns, true);
    assert(!is_absolute(s));
}

proof fn lemma_signed_decimal_good(n: int)
    ensures
        good_name(crate::numbers::signed_decimal(n)),
{
    let d = crate::numbers::signed_decimal(n);
    if n < 0 {
        crate::numbers::lemma_decimal_digits((-n) as nat);
        let m = crate::numbers::decimal((-n) as nat);
        assert forall|i: int| 0 <= i < d.len() implies d[i] != '/' by {
            if i > 0 {
                assert(d[i] == m[i - 1]);
                assert(crate::numbers::is_digit(m[i - 1]));
            }
        }
    } else {
        crate::numbers::lemma_decimal_digits(n as nat);
        assert forall|i: int| 0 <= i < d.len() implies d[i] != '/' by {
            assert(crate::numbers::is_digit(d[i]));
        }
        assert(crate::numbers::is_digit(d[0]));
    }
    assert(d[0] != '.') by {
        if n >= 0 {
            assert(crate::numbers::is_digit(d[0]));
        }
    }
    assert(d != seq!['.']) by {
        if d == seq!['.'] {
            assert(d[0] == '.');
        }
    }
    assert(d != seq!['.', '.']) by {
        if d == seq!['.', '.'] {
            assert(d[0] == '.');
        }
    }
}

/// The storage key of a js-dos bundle names three normal components below
/// the store (`jsdos`, the game's id, the bundle's file), so serving it can
/// never reach outside the demo directory; the hash holds no `/`, as the
/// hexadecimal SHA-256 the key is made from does not.
pub proof fn law_jsdos_key_stays_inside(game_id: int, sha256: Seq<char>)
    requires
        no_slash(sha256),
    ensures
        all_normal(components(crate::paths::jsdos_key(game_id, sha256))),
        !has_invalid(crate::paths::jsdos_key(game_id, sha256)),
{
    let dir = seq!['j', 's', 'd', 'o', 's'];
    let id = crate::numbers::signed_decimal(game_id);
    let file = sha256 + seq!['.', 'j', 's', 'd', 'o', 's'];
    lemma_signed_decimal_good(game_id);
    assert(good_name(dir)) by {
        assert(dir[0] == 'j');
    }
    assert(good_name(file)) by {
        assert forall|i: int| 0 <= i < file.len() implies file[i] != '/' by {
            if i < sha256.len() {
                assert(file[i] == sha256[i]);
            }
        }
        assert(file.len() >= 6);
    }
    let ns = seq![SComp::Normal(dir), SComp::Normal(id), SComp::Normal(file)];
    assert(all_normal(ns));
    let n2 = ns.drop_last();
    let n1 = n2.drop_last();
    assert(all_normal(n2));
    assert(all_normal(n1));
    lemma_push_normals_shape(ns);
    lemma_push_normals_shape(n2);
    lemma_push_normals_shape(n1);
    assert(n1 == seq![SComp::Normal(dir)]);
    assert(push_normals(ns) =~= crate::paths::jsdos_key(game_id, sha256));
    lemma_components_of_push_normals(ns);
    let k = crate::paths::jsdos_key(game_id, sha256);
    assert(!has_invalid(k)) by {
        if has_invalid(k) {
            let i = choose|i: int| 0 <= i < components(k).len() && crate::paths::comp_is_invalid(
                #[trigger] components(k)[i],
            );
            assert(components(k)[i] matches SComp::Normal(p) && good_name(p));
        }
    }
}

proof fn lemma_normals_of_empty(cs: Seq<SComp>)
    ensures
        (normals_of(cs).len() == 0) == !(exists|i: int| 0 <= i < cs.len() && (#[trigger] cs[i]) is Normal),
    decreases cs.len(),
{
    if cs.len() > 0 {
        lemma_normals_of_empty(cs.drop_last());
        if exists|i: int| 0 <= i < cs.drop_last().len() && (#[trigger] cs.drop_last()[i]) is Normal {
            let i = choose|i: int| 0 <= i < cs.drop_last().len() && (#[trigger] cs.drop_last()[i]) is Normal;
            assert(cs[i] is Normal);
        }
        if exists|i: int| 0 <= i < cs.len() && (#[trigger] cs[i]) is Normal {
            let i = choose|i: int| 0 <= i < cs.len() && (#[trigger] cs[i]) is Normal;
            if i < cs.len() - 1 {
                assert(cs.drop_last()[i] is Normal);
            } else {
                assert(cs.last() is Normal);
            }
        }
        if cs.last() is Normal {
            assert(cs[cs.len() - 1] is Normal);
        }
    }
}

/// A zip entry path has no normal form exactly when it climbs out, starts at
/// the root or names no normal component; the normal form of a normal form is
/// itself.
pub proof fn law_normalized_zip_exact(s: Seq<char>)
    ensures
        (normalized_zip(s) is None) == (has_invalid(s) || !(exists|i: int|
            0 <= i < components(s).len() && (#[trigger] components(s)[i]) is Normal)),
        normalized_zip(s) matches Some(n) ==> normalized_zip(n) == Some(n),
{
    let cs = components(s);
    lemma_component_names_good(s);
    lemma_normals_of_all_normal(cs);
    lemma_push_normals_of(cs);
    lemma_normals_of_empty(cs);
    let ns = normals_of(cs);
    if ns.len() > 0 {
        lemma_push_normals_shape(ns);
    }
    if normalized_zip(s) is Some {
        law_normalized_zip_stays_inside(s);
        let n = normalized_zip(s)->0;
        assert(components(n) == ns);
        lemma_push_normals_of(ns);
        assert(normals_of(ns) == ns) by {
            lemma_normals_of_all_normal_fixed(ns);
        }
    }
}

proof fn lemma_normals_of_all_normal_fixed(ns: Seq<SComp>)
    requires
        all_normal(ns),
    ensures
        normals_of(ns) == ns,
    decreases ns.len(),
{
    if ns.len() > 0 {
        assert forall|i: int| 0 <= i < ns.drop_last().len() implies (#[trigger] ns.drop_last()[i] matches SComp::Normal(
            q,
        ) && good_name(q)) by {
            assert(ns.drop_last()[i] == ns[i]);
        }
        lemma_normals_of_all_normal_fixed(ns.drop_last());
        assert(ns[ns.len() - 1] == ns.last());
        assert(ns.drop_last().push(ns.last()) == ns);
    }
}

proof fn lemma_pieces_comps_append(a: Seq<Seq<char>>, b: Seq<Seq<char>>, first: bool)
    requires
        a.len() > 0,
    ensures
        pieces_comps(a + b, first) == pieces_comps(a, first) + pieces_comps(b, false),
    decreases a.len(),
{
    assert((a + b)[0] == a[0]);
    assert((a + b).drop_first() == a.drop_first() + b);
    if a.len() == 1 {
        assert(a.drop_first() == Seq::<Seq<char>>::empty());
        assert(a.drop_first() + b == b);
        assert(pieces_comps(a.drop_first(), false) == Seq::<SComp>::empty());
    } else {
        lemma_pieces_comps_append(a.drop_first(), b, false);
    }
}

proof fn lemma_split_nonempty(s: Seq<char>)
    ensures
        split_on(s, '/').len() > 0,
{
    lemma_index_of_bounds(s, '/');
}

/// Joining a path that passes the synced-file rule onto any base lands
/// strictly below that base: the components of the join are the base's
/// followed by at least one normal component.
pub proof fn law_safe_relative_join_stays_below(base: Seq<char>, s: Seq<char>)
    requires
        crate::paths::safe_relative(s),
    ensures
        components(join(base, s)) == components(base) + components(s),
        components(s).len() > 0,
        all_normal(components(s)),
{
    law_safe_relative_paths_stay_inside(s);
    let ps = split_on(s, '/');
    lemma_split_pieces(s);
    lemma_split_nonempty(s);
    let ns = ps.map_values(|p: Seq<char>| SComp::Normal(p));
    assert forall|i: int| 0 <= i < ns.len() implies (#[trigger] ns[i] matches SComp::Normal(q)
        && good_name(q)) by {
        let p = ps[i];
        assert(p.len() > 0 && p[0] != '.');
        assert(no_slash(p));
        assert(p != seq!['.']) by {
            if p == seq!['.'] {
                assert(p[0] == '.');
            }
        }
        assert(p != seq!['.', '.']) by {
            if p == seq!['.', '.'] {
                assert(p[0] == '.');
            }
        }
    }
    assert(names(ns) =~= ps);
    lemma_pieces_of_names(ns, true);
    lemma_pieces_of_names(ns, false);
    assert(pieces_comps(ps, false) == components(s));
    assert(!is_absolute(s));
    let j = join(base, s);
    if base.len() == 0 {
        assert(j == s);
        let e = Seq::<char>::empty();
        assert(base =~= e);
        lemma_index_of_exact(e, '/', 0);
        assert(split_on(e, '/') == seq![e]);
        assert(pieces_comps(seq![e], true) == piece_comp(e, true) + pieces_comps(
            seq![e].drop_first(),
            false,
        ));
        assert(seq![e].drop_first() =~= Seq::<Seq<char>>::empty());
        assert(components(base) == Seq::<SComp>::empty());
        assert(components(base) + components(s) == components(s));
    } else {
        let b0 = if base.last() == '/' { base.drop_last() } else { base };
        let e = Seq::<char>::empty();
        if base.last() == '/' {
            assert(j == base + s);
            assert(base == b0 + seq!['/'] + e);
            assert(j == b0 + seq!['/'] + s);
        } else {
            assert(j == base + seq!['/'] + s);
        }
        lemma_split_concat(b0, s);
        lemma_split_nonempty(b0);
        assert(j[0] == base[0]);
        assert(is_absolute(j) == is_absolute(base));
        let first = !is_absolute(base);
        lemma_pieces_comps_append(split_on(b0, '/'), ps, first);
        if base.last() == '/' {
            lemma_split_concat(b0, e);
            lemma_index_of_exact(e, '/', 0);
            assert(split_on(e, '/') == seq![e]);
            lemma_pieces_comps_append(split_on(b0, '/'), seq![e], first);
            assert(pieces_comps(seq![e], false) == piece_comp(e, false) + pieces_comps(
                seq![e].drop_first(),
                false,
            ));
            assert(seq![e].drop_first() =~= Seq::<Seq<char>>::empty());
            assert(pieces_comps(seq![e], false) =~= Seq::<SComp>::empty());
            assert(pieces_comps(split_on(base, '/'), first) =~= pieces_comps(split_on(b0, '/'), first));
        }
        if is_absolute(base) {
            assert(components(j) =~= components(base) + components(s));
        } else {
            assert(components(j) =~= components(base) + components(s));
        }
    }
}

} // verus!
