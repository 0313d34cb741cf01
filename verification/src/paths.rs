//! Unix paths as text: how `Path::components`, `Path::join` and `str::split`
//! see them, and the path rules of demo archives, synced files and media storage.
use vstd::prelude::*;
use crate::numbers::{decimal, format_i64, signed_decimal};
use crate::text::{chars_eq, slice_chars, string_from};

verus! {

/// Position of the first `c` in `s`, or -1.
pub open spec fn index_of(s: Seq<char>, c: char) -> int
    decreases s.len(),
{
    if s.len() == 0 {
        -1
    } else if s[0] == c {
        0
    } else {
        let r = index_of(s.drop_first(), c);
        if r < 0 {
            -1
        } else {
            r + 1
        }
    }
}

/// The pieces `str::split(c)` yields, empty pieces included.
pub open spec fn split_on(s: Seq<char>, c: char) -> Seq<Seq<char>>
    decreases s.len(),
{
    let k = index_of(s, c);
    if k < 0 {
        seq![s]
    } else {
        proof {
            lemma_index_of_bounds(s, c);
        }
        seq![s.take(k)] + split_on(s.skip(k + 1), c)
    }
}

pub proof fn lemma_index_of_bounds(s: Seq<char>, c: char)
    ensures
        -1 <= index_of(s, c) < s.len(),
        index_of(s, c) >= 0 ==> s[index_of(s, c)] == c,
        forall|j: int| 0 <= j < s.len() && (index_of(s, c) < 0 || j < index_of(s, c)) ==> s[j]
            != c,
    decreases s.len(),
{
    if s.len() > 0 && s[0] != c {
        lemma_index_of_bounds(s.drop_first(), c);
        assert forall|j: int|
            0 <= j < s.len() && (index_of(s, c) < 0 || j < index_of(s, c)) implies s[j] != c by {
            if j > 0 {
                assert(s[j] == s.drop_first()[j - 1]);
            }
        }
    }
}

pub(crate) proof fn lemma_index_of_exact(s: Seq<char>, c: char, k: int)
    requires
        0 <= k <= s.len(),
        forall|j: int| 0 <= j < k ==> s[j] != c,
        k < s.len() ==> s[k] == c,
    ensures
        index_of(s, c) == (if k == s.len() { -1 } else { k }),
    decreases s.len(),
{
    if s.len() > 0 && k > 0 {
        assert(s[0] != c);
        assert forall|j: int| 0 <= j < k - 1 implies s.drop_first()[j] != c by {
            assert(s.drop_first()[j] == s[j + 1]);
        }
        if k < s.len() {
            assert(s.drop_first()[k - 1] == s[k]);
        }
        lemma_index_of_exact(s.drop_first(), c, k - 1);
    }
}

/// First position of `c` in `s[from..]`, as an absolute index, or `s.len()`.
fn find_char(s: &[char], from: usize, c: char) -> (r: usize)
    requires
        from <= s@.len(),
    ensures
        from <= r <= s@.len(),
        index_of(s@.skip(from as int), c) == (if r == s@.len() {
            -1
        } else {
            r - from
        }),
{
    let mut i = from;
    while i < s.len() && s[i] != c
        invariant
            from <= i <= s@.len(),
            forall|j: int| from <= j < i ==> s@[j] != c,
        decreases s@.len() - i,
    {
        i = i + 1;
    }
    proof {
        let t = s@.skip(from as int);
        assert forall|j: int| 0 <= j < i - from implies t[j] != c by {
            assert(t[j] == s@[from + j]);
        }
        if i < s@.len() {
            assert(t[i - from] == s@[i as int]);
        }
        lemma_index_of_exact(t, c, i - from);
    }
    i
}

/// `str::split(c)` into owned pieces.
pub fn split(s: &[char], c: char) -> (r: Vec<Vec<char>>)
    ensures
        r@.len() == split_on(s@, c).len(),
        forall|i: int| 0 <= i < r@.len() ==> #[trigger] r@[i]@ == split_on(s@, c)[i],
{
    let mut out: Vec<Vec<char>> = Vec::new();
    let ghost mut pieces: Seq<Seq<char>> = Seq::empty();
    let mut from: usize = 0;
    assert(s@.skip(0) == s@);
    loop
        invariant
            from <= s@.len(),
            out@.len() == pieces.len(),
            forall|i: int| 0 <= i < out@.len() ==> #[trigger] out@[i]@ == pieces[i],
            pieces + split_on(s@.skip(from as int), c) == split_on(s@, c),
        decreases s@.len() - from,
    {
        let k = find_char(s, from, c);
        let piece = slice_chars(s, from, k);
        let ghost t = s@.skip(from as int);
        if k == s.len() {
            assert(piece@ == t);
            assert(split_on(t, c) == seq![t]);
            proof {
                pieces = pieces.push(piece@);
            }
            out.push(piece);
            assert(pieces == split_on(s@, c));
            return out;
        }
        assert(piece@ == t.take(k - from));
        assert(t.skip(k - from + 1) == s@.skip(k + 1));
        assert(split_on(t, c) == seq![t.take(k - from)] + split_on(t.skip(k - from + 1), c));
        proof {
            pieces = pieces.push(piece@);
        }
        out.push(piece);
        assert(pieces + split_on(s@.skip(k + 1), c) == split_on(s@, c));
        from = k + 1;
    }
}

/// One component of a path, as `std::path::Component` names them on Unix.
pub enum Comp {
    RootDir,
    CurDir,
    ParentDir,
    Normal(Vec<char>),
}

pub ghost enum SComp {
    RootDir,
    CurDir,
    ParentDir,
    Normal(Seq<char>),
}

impl Comp {
    pub open spec fn view(&self) -> SComp {
        match self {
            Comp::RootDir => SComp::RootDir,
            Comp::CurDir => SComp::CurDir,
            Comp::ParentDir => SComp::ParentDir,
            Comp::Normal(v) => SComp::Normal(v@),
        }
    }
}

/// The component one `/`-separated piece contributes; `first` marks the piece
/// at the very start of a relative path, the only place `.` counts.
pub open spec fn piece_comp(p: Seq<char>, first: bool) -> Seq<SComp> {
    if p.len() == 0 {
        Seq::empty()
    } else if p == seq!['.'] {
        if first {
            seq![SComp::CurDir]
        } else {
            Seq::empty()
        }
    } else if p == seq!['.', '.'] {
        seq![SComp::ParentDir]
    } else {
        seq![SComp::Normal(p)]
    }
}

pub open spec fn pieces_comps(ps: Seq<Seq<char>>, first: bool) -> Seq<SComp>
    decreases ps.len(),
{
    if ps.len() == 0 {
        Seq::empty()
    } else {
        piece_comp(ps[0], first) + pieces_comps(ps.drop_first(), false)
    }
}

pub open spec fn is_absolute(s: Seq<char>) -> bool {
    s.len() > 0 && s[0] == '/'
}

/// `Path::components` of a Unix path.
pub open spec fn components(s: Seq<char>) -> Seq<SComp> {
    if is_absolute(s) {
        seq![SComp::RootDir] + pieces_comps(split_on(s, '/'), false)
    } else {
        pieces_comps(split_on(s, '/'), true)
    }
}

proof fn lemma_pieces_comps_step(ps: Seq<Seq<char>>, i: int, first: bool)
    requires
        0 <= i < ps.len(),
    ensures
        pieces_comps(ps.skip(i), first) == piece_comp(ps[i], first) + pieces_comps(
            ps.skip(i + 1),
            false,
        ),
{
    assert(ps.skip(i)[0] == ps[i]);
    assert(ps.skip(i).drop_first() == ps.skip(i + 1));
}

fn is_dot(p: &[char]) -> (r: bool)
    ensures
        r == (p@ == seq!['.']),
{
    if p.len() == 1 && p[0] == '.' {
        assert(p@ =~= seq!['.']);
        true
    } else {
        false
    }
}

fn is_dot_dot(p: &[char]) -> (r: bool)
    ensures
        r == (p@ == seq!['.', '.']),
{
    if p.len() == 2 && p[0] == '.' && p[1] == '.' {
        assert(p@ =~= seq!['.', '.']);
        true
    } else {
        false
    }
}

/// `Path::components`.
pub fn path_components(s: &[char]) -> (r: Vec<Comp>)
    ensures
        r@.len() == components(s@).len(),
        forall|i: int| 0 <= i < r@.len() ==> #[trigger] r@[i].view() == components(s@)[i],
{
    let pieces = split(s, '/');
    let ghost ps = split_on(s@, '/');
    let absolute = s.len() > 0 && s[0] == '/';
    let mut out: Vec<Comp> = Vec::new();
    let ghost mut acc: Seq<SComp> = Seq::empty();
    if absolute {
        out.push(Comp::RootDir);
        proof {
            acc = seq![SComp::RootDir];
        }
    }
    let ghost first0 = !absolute;
    assert(ps.skip(0) == ps);
    let mut i: usize = 0;
    while i < pieces.len()
        invariant
            pieces@.len() == ps.len(),
            ps == split_on(s@, '/'),
            forall|j: int| 0 <= j < pieces@.len() ==> #[trigger] pieces@[j]@ == ps[j],
            i <= pieces@.len(),
            first0 == !is_absolute(s@),
            absolute == is_absolute(s@),
            out@.len() == acc.len(),
            forall|j: int| 0 <= j < out@.len() ==> #[trigger] out@[j].view() == acc[j],
            acc + pieces_comps(ps.skip(i as int), i == 0 && first0) == components(s@),
        decreases pieces@.len() - i,
    {
        proof {
            lemma_pieces_comps_step(ps, i as int, i == 0 && first0);
        }
        let p = &pieces[i];
        let ghost pc = piece_comp(ps[i as int], i == 0 && first0);
        let ghost old_acc = acc;
        assert(p@ == ps[i as int]);
        if p.len() == 0 {
            assert(pc =~= Seq::<SComp>::empty());
        } else if is_dot(p.as_slice()) {
            if i == 0 && !absolute {
                assert(pc == seq![SComp::CurDir]);
                out.push(Comp::CurDir);
                proof {
                    acc = acc.push(SComp::CurDir);
                }
            } else {
                assert(pc =~= Seq::<SComp>::empty());
            }
        } else if is_dot_dot(p.as_slice()) {
            assert(pc == seq![SComp::ParentDir]);
            out.push(Comp::ParentDir);
            proof {
                acc = acc.push(SComp::ParentDir);
            }
        } else {
            let q = slice_chars(p.as_slice(), 0, p.len());
            assert(q@ == p@);
            assert(pc == seq![SComp::Normal(ps[i as int])]);
            out.push(Comp::Normal(q));
            proof {
                acc = acc.push(SComp::Normal(ps[i as int]));
            }
        }
        assert(acc =~= old_acc + pc);
        assert(old_acc + pc + pieces_comps(ps.skip(i + 1), false) =~= old_acc + (pc + pieces_comps(ps.skip(i + 1), false)));
        assert(acc + pieces_comps(ps.skip(i + 1), false) == components(s@));
        i = i + 1;
    }
    assert(pieces_comps(ps.skip(i as int), i == 0 && first0) == Seq::<SComp>::empty());
    assert(acc == components(s@));
    out
}

/// `PathBuf::push` / `Path::join` on Unix: an absolute `p` replaces the base,
/// otherwise `p` is appended after a `/` unless the base is empty or ends in one.
pub open spec fn join(base: Seq<char>, p: Seq<char>) -> Seq<char> {
    if is_absolute(p) {
        p
    } else if base.len() == 0 || base.last() == '/' {
        base + p
    } else {
        base + seq!['/'] + p
    }
}

/// `Path::join`.
pub fn path_join(base: &[char], p: &[char]) -> (r: Vec<char>)
    ensures
        r@ == join(base@, p@),
{
    if p.len() > 0 && p[0] == '/' {
        return slice_chars(p, 0, p.len());
    }
    let mut r = slice_chars(base, 0, base.len());
    if base.len() > 0 && base[base.len() - 1] != '/' {
        r.push('/');
    }
    let mut i: usize = 0;
    let ghost r0 = r@;
    while i < p.len()
        invariant
            i <= p@.len(),
            r@ == r0 + p@.take(i as int),
        decreases p@.len() - i,
    {
        r.push(p[i]);
        assert(p@.take(i + 1) == p@.take(i as int).push(p@[i as int]));
        i = i + 1;
    }
    assert(p@.take(p@.len() as int) == p@);
    r
}

pub open spec fn comp_is_invalid(c: SComp) -> bool {
    c is ParentDir || c is RootDir
}

/// Whether a path climbs out of its base (`..`) or is absolute.
pub open spec fn has_invalid(s: Seq<char>) -> bool {
    exists|i: int| 0 <= i < components(s).len() && comp_is_invalid(#[trigger] components(s)[i])
}

/// A path that climbs out of its base (`..`) or is absolute is rejected.
pub fn has_invalid_component(path: &[char]) -> (r: bool)
    ensures
        r == has_invalid(path@),
{
    let comps = path_components(path);
    let mut i: usize = 0;
    while i < comps.len()
        invariant
            comps@.len() == components(path@).len(),
            forall|j: int| 0 <= j < comps@.len() ==> #[trigger] comps@[j].view() == components(
                path@,
            )[j],
            i <= comps@.len(),
            forall|j: int| 0 <= j < i ==> !comp_is_invalid(#[trigger] components(path@)[j]),
        decreases comps@.len() - i,
    {
        match &comps[i] {
            Comp::RootDir | Comp::ParentDir => {
                assert(comp_is_invalid(components(path@)[i as int]));
                return true;
            },
            _ => {},
        }
        assert(comps@[i as int].view() == components(path@)[i as int]);
        i = i + 1;
    }
    false
}

/// The text a sequence of normal components joins to, as successive
/// `PathBuf::push` calls build it from an empty buffer.
pub open spec fn push_normals(cs: Seq<SComp>) -> Seq<char>
    decreases cs.len(),
{
    if cs.len() == 0 {
        Seq::empty()
    } else {
        let prev = push_normals(cs.drop_last());
        match cs.last() {
            SComp::Normal(p) => join(prev, p),
            _ => prev,
        }
    }
}

/// A zip entry path reduced to its normal components; `None` when the path is
/// unsafe (absolute or with `..`) or names nothing.
pub open spec fn normalized_zip(s: Seq<char>) -> Option<Seq<char>> {
    if has_invalid(s) || push_normals(components(s)).len() == 0 {
        None
    } else {
        Some(push_normals(components(s)))
    }
}

pub fn normalized_zip_path(path: &[char]) -> (r: Option<Vec<char>>)
    ensures
        match r {
            Some(v) => normalized_zip(path@) == Some(v@),
            None => normalized_zip(path@) is None,
        },
{
    if has_invalid_component(path) {
        return None;
    }
    let comps = path_components(path);
    let ghost cs = components(path@);
    let mut out: Vec<char> = Vec::new();
    let mut i: usize = 0;
    while i < comps.len()
        invariant
            comps@.len() == cs.len(),
            cs == components(path@),
            forall|j: int| 0 <= j < comps@.len() ==> #[trigger] comps@[j].view() == cs[j],
            i <= comps@.len(),
            out@ == push_normals(cs.take(i as int)),
        decreases comps@.len() - i,
    {
        assert(cs.take(i + 1).drop_last() == cs.take(i as int));
        assert(comps@[i as int].view() == cs[i as int]);
        match &comps[i] {
            Comp::Normal(part) => {
                out = path_join(out.as_slice(), part.as_slice());
            },
            _ => {},
        }
        i = i + 1;
    }
    assert(cs.take(cs.len() as int) == cs);
    if out.len() == 0 {
        None
    } else {
        Some(out)
    }
}

/// `Path::file_name`: the last component when it is a normal one.
pub open spec fn file_name(s: Seq<char>) -> Option<Seq<char>> {
    let cs = components(s);
    if cs.len() > 0 && cs.last() is Normal {
        Some(cs.last()->Normal_0)
    } else {
        None
    }
}

pub open spec fn index_html() -> Seq<char> {
    seq!['i', 'n', 'd', 'e', 'x', '.', 'h', 't', 'm', 'l']
}

/// The shared top-level directory of archive entries, when every entry sits
/// below the same one and none is a top-level `index.html`.
pub open spec fn common_root(paths: Seq<Seq<char>>) -> Option<Seq<char>>
    decreases paths.len(),
{
    if paths.len() == 0 {
        None
    } else {
        let cs = components(paths.last());
        let prev = common_root(paths.drop_last());
        if cs == seq![SComp::Normal(index_html())] {
            None
        } else if cs.len() < 2 || !(cs[0] is Normal) {
            None
        } else if paths.len() > 1 && prev != Some(cs[0]->Normal_0) {
            None
        } else {
            Some(cs[0]->Normal_0)
        }
    }
}

proof fn lemma_common_root_none_prefix(ps: Seq<Seq<char>>, k: int)
    requires
        1 <= k <= ps.len(),
        common_root(ps.take(k)) is None,
    ensures
        common_root(ps) is None,
    decreases ps.len(),
{
    if k < ps.len() {
        assert(ps.drop_last().take(k) == ps.take(k));
        lemma_common_root_none_prefix(ps.drop_last(), k);
    } else {
        assert(ps.take(k) == ps);
    }
}

/// The common root is the first component of every entry, and every entry
/// reaches below it.
pub proof fn law_common_root_heads_every_path(ps: Seq<Seq<char>>)
    requires
        common_root(ps) is Some,
    ensures
        forall|i: int|
            0 <= i < ps.len() ==> components(#[trigger] ps[i]).len() >= 2 && components(ps[i])[0]
                == SComp::Normal(common_root(ps)->0),
    decreases ps.len(),
{
    let r = common_root(ps)->0;
    if ps.len() > 1 {
        law_common_root_heads_every_path(ps.drop_last());
        assert forall|i: int| 0 <= i < ps.len() implies components(#[trigger] ps[i]).len() >= 2
            && components(ps[i])[0] == SComp::Normal(r) by {
            if i < ps.len() - 1 {
                assert(ps[i] == ps.drop_last()[i]);
            } else {
                assert(ps[i] == ps.last());
            }
        }
    } else {
        assert forall|i: int| 0 <= i < ps.len() implies components(#[trigger] ps[i]).len() >= 2
            && components(ps[i])[0] == SComp::Normal(r) by {
            assert(ps[i] == ps.last());
        }
    }
}


pub open spec fn common_root_step(prev: Option<Seq<char>>, cs: Seq<SComp>, first: bool) -> Option<Seq<char>> {
    if cs == seq![SComp::Normal(index_html())] {
        None
    } else if cs.len() < 2 || !(cs[0] is Normal) {
        None
    } else if !first && prev != Some(cs[0]->Normal_0) {
        None
    } else {
        Some(cs[0]->Normal_0)
    }
}

proof fn lemma_common_root_unfold(ps: Seq<Seq<char>>, i: int)
    requires
        0 <= i < ps.len(),
    ensures
        common_root(ps.take(i + 1)) == common_root_step(common_root(ps.take(i)), components(ps[i]), i == 0),
{
    assert(ps.take(i + 1).drop_last() == ps.take(i));
    assert(ps.take(i + 1).last() == ps[i]);
}

fn is_index_html(p: &[char]) -> (r: bool)
    ensures
        r == (p@ == index_html()),
{
    let lit = crate::text::chars_of("index.html");
    proof {
        reveal_strlit("index.html");
    }
    assert(lit@ =~= index_html());
    chars_eq(p, lit.as_slice())
}

/// The common first directory of all entry paths, if there is one and no
/// entry is a top-level `index.html`.
pub fn strip_common_root(paths: &[Vec<char>]) -> (r: Option<Vec<char>>)
    ensures
        match r {
            Some(v) => common_root(paths@.map_values(|p: Vec<char>| p@)) == Some(v@),
            None => common_root(paths@.map_values(|p: Vec<char>| p@)) is None,
        },
{
    let ghost ps = paths@.map_values(|p: Vec<char>| p@);
    let mut first_root: Option<Vec<char>> = None;
    let mut i: usize = 0;
    while i < paths.len()
        invariant
            ps == paths@.map_values(|p: Vec<char>| p@),
            i <= paths@.len(),
            i > 0 ==> common_root(ps.take(i as int)) is Some,
            match first_root {
                Some(v) => i > 0 && common_root(ps.take(i as int)) == Some(v@),
                None => i == 0,
            },
        decreases paths@.len() - i,
    {
        let p = &paths[i];
        proof {
            lemma_common_root_unfold(ps, i as int);
        }
        assert(ps[i as int] == p@);
        let comps = path_components(p.as_slice());
        let ghost cs = components(p@);
        let single_index = comps.len() == 1 && match &comps[0] {
            Comp::Normal(n) => is_index_html(n.as_slice()),
            _ => false,
        };
        if comps.len() == 1 {
            assert(comps@[0].view() == cs[0]);
        }
        assert(single_index == (cs == seq![SComp::Normal(index_html())])) by {
            if cs == seq![SComp::Normal(index_html())] {
                assert(cs[0] == SComp::Normal(index_html()));
            }
            if single_index {
                assert(cs =~= seq![SComp::Normal(index_html())]);
            }
        }
        if single_index {
            proof {
                lemma_common_root_none_prefix(ps, i + 1);
            }
            return None;
        }
        if comps.len() < 2 {
            proof {
                lemma_common_root_none_prefix(ps, i + 1);
            }
            return None;
        }
        assert(comps@[0].view() == cs[0]);
        let first: Vec<char> = match &comps[0] {
            Comp::Normal(n) => {
                assert(n@ == cs[0]->Normal_0);
                let f = slice_chars(n.as_slice(), 0, n.len());
                assert(f@ =~= n@);
                f
            },
            _ => {
                proof {
                    lemma_common_root_none_prefix(ps, i + 1);
                }
                return None;
            },
        };
        match &first_root {
            Some(root) => {
                if !chars_eq(root.as_slice(), first.as_slice()) {
                    proof {
                        lemma_common_root_none_prefix(ps, i + 1);
                    }
                    return None;
                }
            },
            None => {
                first_root = Some(first);
            },
        }
        assert(common_root(ps.take(i + 1)) == Some(first@));
        i = i + 1;
    }
    assert(ps.take(paths@.len() as int) == ps);
    first_root
}

/// A synced file path must be relative, use `/` only, and every segment must
/// be a plain, visible name.
pub open spec fn safe_relative(s: Seq<char>) -> bool {
    &&& s.len() > 0
    &&& s[0] != '/'
    &&& forall|i: int| 0 <= i < s.len() ==> s[i] != '\\'
    &&& forall|i: int|
        0 <= i < split_on(s, '/').len() ==> {
            let seg = #[trigger] split_on(s, '/')[i];
            seg.len() > 0 && seg[0] != '.'
        }
}

/// Rejects traversal, absolute paths, backslashes and hidden/transient files.
pub fn is_safe_relative_path(relative: &[char]) -> (r: bool)
    ensures
        r == safe_relative(relative@),
{
    if relative.len() == 0 || relative[0] == '/' {
        return false;
    }
    let mut i: usize = 0;
    while i < relative.len()
        invariant
            i <= relative@.len(),
            forall|j: int| 0 <= j < i ==> relative@[j] != '\\',
        decreases relative@.len() - i,
    {
        if relative[i] == '\\' {
            return false;
        }
        i = i + 1;
    }
    let segs = split(relative, '/');
    let mut k: usize = 0;
    while k < segs.len()
        invariant
            segs@.len() == split_on(relative@, '/').len(),
            forall|j: int| 0 <= j < segs@.len() ==> #[trigger] segs@[j]@ == split_on(
                relative@,
                '/',
            )[j],
            k <= segs@.len(),
            forall|j: int|
                0 <= j < k ==> {
                    let seg = #[trigger] split_on(relative@, '/')[j];
                    seg.len() > 0 && seg[0] != '.'
                },
        decreases segs@.len() - k,
    {
        let seg = &segs[k];
        assert(seg@ == split_on(relative@, '/')[k as int]);
        if seg.len() == 0 || seg[0] == '.' {
            return false;
        }
        k = k + 1;
    }
    true
}

/// Where a js-dos bundle is stored, keyed by its owner and content hash.
pub open spec fn jsdos_key(game_id: int, sha256: Seq<char>) -> Seq<char> {
    seq!['j', 's', 'd', 'o', 's', '/'] + signed_decimal(game_id) + seq!['/'] + sha256 + seq![
        '.',
        'j',
        's',
        'd',
        'o',
        's',
    ]
}

pub fn jsdos_storage_key(game_id: i64, sha256: &[char]) -> (r: String)
    ensures
        r@ == jsdos_key(game_id as int, sha256@),
{
    let mut v: Vec<char> = Vec::new();
    v.push('j');
    v.push('s');
    v.push('d');
    v.push('o');
    v.push('s');
    v.push('/');
    let mut id = format_i64(game_id);
    v.append(&mut id);
    v.push('/');
    let mut i: usize = 0;
    let ghost v0 = v@;
    while i < sha256.len()
        invariant
            i <= sha256@.len(),
            v@ == v0 + sha256@.take(i as int),
        decreases sha256@.len() - i,
    {
        v.push(sha256[i]);
        assert(sha256@.take(i + 1) == sha256@.take(i as int).push(sha256@[i as int]));
        i = i + 1;
    }
    assert(sha256@.take(sha256@.len() as int) == sha256@);
    v.push('.');
    v.push('j');
    v.push('s');
    v.push('d');
    v.push('o');
    v.push('s');
    assert(v@ =~= jsdos_key(game_id as int, sha256@));
    string_from(v.as_slice())
}

/// The staging file of an in-progress js-dos upload:
/// `<demo_dir>/.uploads/jsdos/<upload_id>.part`.
pub open spec fn jsdos_temp(demo_dir: Seq<char>, upload_id: Seq<char>) -> Seq<char> {
    join(
        join(join(demo_dir, seq!['.', 'u', 'p', 'l', 'o', 'a', 'd', 's']), seq!['j', 's', 'd', 'o', 's']),
        upload_id + seq!['.', 'p', 'a', 'r', 't'],
    )
}

pub fn jsdos_temp_path(demo_dir: &[char], upload_id: &[char]) -> (r: Vec<char>)
    ensures
        r@ == jsdos_temp(demo_dir@, upload_id@),
{
    let uploads = crate::text::chars_of(".uploads");
    let jsdos = crate::text::chars_of("jsdos");
    proof {
        reveal_strlit(".uploads");
        reveal_strlit("jsdos");
    }
    assert(uploads@ =~= seq!['.', 'u', 'p', 'l', 'o', 'a', 'd', 's']);
    assert(jsdos@ =~= seq!['j', 's', 'd', 'o', 's']);
    let mut name = slice_chars(upload_id, 0, upload_id.len());
    name.push('.');
    name.push('p');
    name.push('a');
    name.push('r');
    name.push('t');
    assert(name@ =~= upload_id@ + seq!['.', 'p', 'a', 'r', 't']);
    let a = path_join(demo_dir, uploads.as_slice());
    let b = path_join(a.as_slice(), jsdos.as_slice());
    path_join(b.as_slice(), name.as_slice())
}

} // verus!
