//! Media serving: single byte ranges of `Range` headers, the thumbnail
//! fallback name, and where a stored medium lives on disk.
use vstd::prelude::*;
use crate::errors::MediaError;
use crate::numbers::{all_digits, decimal, is_digit, parse_u64, parse_unsigned, signed_decimal, format_i64};
use crate::paths::{
    SComp, Comp, components, file_name, index_of, join, path_components, path_join,
};
use crate::text::{chars_of, has_prefix, has_suffix, slice_chars, string_from, chars_eq};

verus! {

pub open spec fn bytes_prefix() -> Seq<char> {
    seq!['b', 'y', 't', 'e', 's', '=']
}

pub open spec fn has_char(s: Seq<char>, c: char) -> bool {
    exists|i: int| 0 <= i < s.len() && s[i] == c
}

/// The inclusive byte range a single-range `bytes=start-end` header selects
/// from a file of `size` bytes, clamped to the file; `None` for multi-range,
/// malformed and unsatisfiable headers.
pub open spec fn byte_range(r: Seq<char>, size: nat) -> Option<(nat, nat)> {
    let max = u64::MAX as nat;
    if !has_prefix(r, bytes_prefix()) {
        None
    } else {
        let rest = r.skip(6);
        let k = index_of(rest, '-');
        if has_char(rest, ',') || k < 0 {
            None
        } else {
            let a = rest.take(k);
            let b = rest.skip(k + 1);
            if a.len() == 0 {
                match parse_unsigned(b, max) {
                    None => None,
                    Some(last) => if last == 0 || size == 0 {
                        None
                    } else {
                        Some((if size > last { (size - last) as nat } else { 0 }, (size - 1) as nat))
                    },
                }
            } else {
                match parse_unsigned(a, max) {
                    None => None,
                    Some(start) => if start >= size {
                        None
                    } else {
                        let end: Option<nat> = if b.len() == 0 {
                            Some((size - 1) as nat)
                        } else {
                            match parse_unsigned(b, max) {
                                None => None,
                                Some(e) => Some(if e < size - 1 { e } else { (size - 1) as nat }),
                            }
                        };
                        match end {
                            None => None,
                            Some(e) => if e < start {
                                None
                            } else {
                                Some((start, e))
                            },
                        }
                    },
                }
            }
        }
    }
}

fn find(s: &[char], c: char) -> (r: Option<usize>)
    ensures
        match r {
            Some(k) => index_of(s@, c) == k,
            None => index_of(s@, c) == -1,
        },
{
    let mut i: usize = 0;
    while i < s.len()
        invariant
            i <= s@.len(),
            forall|j: int| 0 <= j < i ==> s@[j] != c,
        decreases s@.len() - i,
    {
        if s[i] == c {
            proof {
                crate::paths::lemma_index_of_bounds(s@, c);
                if index_of(s@, c) >= 0 && index_of(s@, c) < i {
                    assert(s@[index_of(s@, c)] == c);
                }
            }
            return Some(i);
        }
        i = i + 1;
    }
    proof {
        crate::paths::lemma_index_of_bounds(s@, c);
    }
    None
}

/// Parses a single-range `bytes=start-end` header into an inclusive
/// (start, end) pair clamped to the file size. Multi-range, malformed, and
/// unsatisfiable headers return None so the caller answers with the full
/// 200 body, which the RFC permits in place of 416.
pub fn parse_byte_range(range: &str, size: u64) -> (r: Option<(u64, u64)>)
    ensures
        match r {
            Some((a, b)) => byte_range(range@, size as nat) == Some((a as nat, b as nat)),
            None => byte_range(range@, size as nat) is None,
        },
        r matches Some((a, b)) ==> a <= b < size,
{
    let s = chars_of(range);
    let pre = chars_of("bytes=");
    proof {
        reveal_strlit("bytes=");
    }
    assert(pre@ =~= bytes_prefix());
    if !crate::text::starts_with(s.as_slice(), pre.as_slice()) {
        return None;
    }
    let rest = slice_chars(s.as_slice(), 6, s.len());
    assert(rest@ == range@.skip(6));
    if find(rest.as_slice(), ',').is_some() {
        proof {
            crate::paths::lemma_index_of_bounds(rest@, ',');
        }
        return None;
    }
    proof {
        crate::paths::lemma_index_of_bounds(rest@, ',');
    }
    let k = match find(rest.as_slice(), '-') {
        Some(k) => k,
        None => {
            return None;
        },
    };
    proof {
        crate::paths::lemma_index_of_bounds(rest@, '-');
    }
    let a = slice_chars(rest.as_slice(), 0, k);
    let b = slice_chars(rest.as_slice(), k + 1, rest.len());
    assert(a@ == rest@.take(k as int));
    assert(b@ == rest@.skip(k + 1));
    if a.len() == 0 {
        let last = match parse_u64(b.as_slice()) {
            Some(v) => v,
            None => {
                return None;
            },
        };
        if last == 0 || size == 0 {
            return None;
        }
        let start = if size > last { size - last } else { 0 };
        return Some((start, size - 1));
    }
    let start = match parse_u64(a.as_slice()) {
        Some(v) => v,
        None => {
            return None;
        },
    };
    if start >= size {
        return None;
    }
    let end = if b.len() == 0 {
        size - 1
    } else {
        match parse_u64(b.as_slice()) {
            Some(e) => if e < size - 1 { e } else { size - 1 },
            None => {
                return None;
            },
        }
    };
    if end < start {
        return None;
    }
    Some((start, end))
}

pub open spec fn post_prefix() -> Seq<char> {
    seq!['.', 'p', 'o', 's', 't', '.']
}

pub open spec fn thumbnail_suffix() -> Seq<char> {
    seq!['.', 't', 'h', 'u', 'm', 'b', 'n', 'a', 'i', 'l']
}

/// `.post.<id>.thumbnail` falls back to the post cover `.post.<id>` when the
/// id is a non-empty run of ASCII digits.
pub open spec fn thumbnail_fallback(s: Seq<char>) -> Option<Seq<char>> {
    if has_prefix(s, post_prefix()) && has_suffix(s.skip(6), thumbnail_suffix()) {
        let id = s.subrange(6, s.len() - 10);
        if id.len() > 0 && all_digits(id) {
            Some(post_prefix() + id)
        } else {
            None
        }
    } else {
        None
    }
}

#[verifier::loop_isolation(false)]
pub fn post_thumbnail_fallback_short_name(short_name: &str) -> (r: Option<String>)
    ensures
        match r {
            Some(v) => thumbnail_fallback(short_name@) == Some(v@),
            None => thumbnail_fallback(short_name@) is None,
        },
{
    let s = chars_of(short_name);
    let pre = chars_of(".post.");
    let suf = chars_of(".thumbnail");
    proof {
        reveal_strlit(".post.");
        reveal_strlit(".thumbnail");
    }
    assert(pre@ =~= post_prefix());
    assert(suf@ =~= thumbnail_suffix());
    if !crate::text::starts_with(s.as_slice(), pre.as_slice()) {
        return None;
    }
    let rest = slice_chars(s.as_slice(), 6, s.len());
    assert(rest@ == short_name@.skip(6));
    if !crate::text::ends_with(rest.as_slice(), suf.as_slice()) {
        return None;
    }
    let id = slice_chars(s.as_slice(), 6, s.len() - 10);
    if id.len() == 0 {
        return None;
    }
    let mut i: usize = 0;
    while i < id.len()
        invariant
            i <= id@.len(),
            forall|j: int| 0 <= j < i ==> #[trigger] is_digit(id@[j]),
        decreases id@.len() - i,
    {
        if !('0' <= id[i] && id[i] <= '9') {
            assert(!is_digit(id@[i as int]));
            return None;
        }
        i = i + 1;
    }
    let mut out = pre;
    let mut idc = id;
    out.append(&mut idc);
    Some(string_from(out.as_slice()))
}

/// How a medium is answered: whole, or the single byte range asked for.
pub enum MediaAnswer {
    Full { etag: String },
    Partial { etag: String, start: u64, end: u64, length: u64, content_range: String },
}

/// The entity tag of a medium: its content hash in double quotes.
pub open spec fn etag_of(hash: Seq<char>) -> Seq<char> {
    seq!['"'] + hash + seq!['"']
}

/// A partial answer is given for a satisfiable single range, unless an
/// `If-Range` header names another entity tag.
pub open spec fn media_answer_spec(
    range: Option<Seq<char>>,
    if_range: Option<Seq<char>>,
    hash: Seq<char>,
    size: u64,
) -> Option<(nat, nat)> {
    let matches = match if_range {
        Some(v) => v == etag_of(hash),
        None => true,
    };
    match range {
        Some(r) => if matches {
            byte_range(r, size as nat)
        } else {
            None
        },
        None => None,
    }
}

pub open spec fn content_range_text(start: nat, end: nat, size: nat) -> Seq<char> {
    "bytes "@ + crate::numbers::decimal(start) + "-"@ + crate::numbers::decimal(end) + "/"@
        + crate::numbers::decimal(size)
}

pub fn media_answer(range: Option<&str>, if_range: Option<&str>, content_hash: &str, size: u64) -> (r: MediaAnswer)
    ensures
        match media_answer_spec(
            match range {
                Some(x) => Some(x@),
                None => None,
            },
            match if_range {
                Some(x) => Some(x@),
                None => None,
            },
            content_hash@,
            size,
        ) {
            Some((a, b)) => r matches MediaAnswer::Partial { etag, start, end, length, content_range }
                && etag@ == etag_of(content_hash@) && start == a && end == b && length == b - a + 1
                && content_range@ == content_range_text(a, b, size as nat),
            None => r matches MediaAnswer::Full { etag } && etag@ == etag_of(content_hash@),
        },
        r matches MediaAnswer::Partial { start, end, length, .. } ==> start <= end < size && length
            <= size,
{
    let etag = crate::errors::msg3("\"", content_hash, "\"");
    proof {
        reveal_strlit("\"");
    }
    assert(etag@ =~= etag_of(content_hash@));
    let matches = match if_range {
        Some(v) => crate::text::str_eq(v, etag.as_str()),
        None => true,
    };
    if !matches {
        return MediaAnswer::Full { etag };
    }
    let (start, end) = match range {
        Some(r) => match parse_byte_range(r, size) {
            Some(p) => p,
            None => {
                return MediaAnswer::Full { etag };
            },
        },
        None => {
            return MediaAnswer::Full { etag };
        },
    };
    let length = end - start + 1;
    let mut text = chars_of("bytes ");
    let mut a = crate::numbers::format_u64(start);
    let mut b = crate::numbers::format_u64(end);
    let mut n = crate::numbers::format_u64(size);
    text.append(&mut a);
    text.push('-');
    text.append(&mut b);
    text.push('/');
    text.append(&mut n);
    proof {
        reveal_strlit("bytes ");
        reveal_strlit("-");
        reveal_strlit("/");
    }
    assert(text@ =~= content_range_text(start as nat, end as nat, size as nat));
    MediaAnswer::Partial { etag, start, end, length, content_range: string_from(text.as_slice()) }
}

/// The text of a component, as `Component::as_os_str` gives it.
pub open spec fn comp_text(c: SComp) -> Seq<char> {
    match c {
        SComp::RootDir => seq!['/'],
        SComp::CurDir => seq!['.'],
        SComp::ParentDir => seq!['.', '.'],
        SComp::Normal(p) => p,
    }
}

/// Successive `PathBuf::push` of components onto an empty buffer.
pub open spec fn push_comps(cs: Seq<SComp>) -> Seq<char>
    decreases cs.len(),
{
    if cs.len() == 0 {
        Seq::empty()
    } else {
        join(push_comps(cs.drop_last()), comp_text(cs.last()))
    }
}

/// Position of the first normal component named `name`, or -1.
pub open spec fn index_of_name(cs: Seq<SComp>, name: Seq<char>) -> int
    decreases cs.len(),
{
    if cs.len() == 0 {
        -1
    } else if cs[0] == SComp::Normal(name) {
        0
    } else {
        let r = index_of_name(cs.drop_first(), name);
        if r < 0 {
            -1
        } else {
            r + 1
        }
    }
}

proof fn lemma_index_of_name_exact(cs: Seq<SComp>, name: Seq<char>, k: int)
    requires
        0 <= k <= cs.len(),
        forall|j: int| 0 <= j < k ==> cs[j] != SComp::Normal(name),
        k < cs.len() ==> cs[k] == SComp::Normal(name),
    ensures
        index_of_name(cs, name) == (if k == cs.len() { -1 } else { k }),
    decreases cs.len(),
{
    if cs.len() > 0 && k > 0 {
        assert(cs[0] != SComp::Normal(name));
        assert forall|j: int| 0 <= j < k - 1 implies cs.drop_first()[j] != SComp::Normal(name) by {
            assert(cs.drop_first()[j] == cs[j + 1]);
        }
        if k < cs.len() {
            assert(cs.drop_first()[k - 1] == cs[k]);
        }
        lemma_index_of_name_exact(cs.drop_first(), name, k - 1);
    }
}

/// `stored_url` re-rooted under `media_dir`: everything after the first
/// component named like `media_dir`'s own last component, joined onto `media_dir`.
pub open spec fn rerooted(stored_url: Seq<char>, media_dir: Seq<char>) -> Option<Seq<char>> {
    match file_name(media_dir) {
        None => None,
        Some(dir) => {
            let cs = components(stored_url);
            let k = index_of_name(cs, dir);
            if k < 0 {
                None
            } else {
                Some(join(media_dir, push_comps(cs.skip(k + 1))))
            }
        },
    }
}

fn comp_text_of(c: &Comp) -> (r: Vec<char>)
    ensures
        r@ == comp_text(c.view()),
{
    match c {
        Comp::RootDir => {
            let mut v = Vec::new();
            v.push('/');
            assert(v@ =~= seq!['/']);
            v
        },
        Comp::CurDir => {
            let mut v = Vec::new();
            v.push('.');
            assert(v@ =~= seq!['.']);
            v
        },
        Comp::ParentDir => {
            let mut v = Vec::new();
            v.push('.');
            v.push('.');
            assert(v@ =~= seq!['.', '.']);
            v
        },
        Comp::Normal(p) => slice_chars(p.as_slice(), 0, p.len()),
    }
}

/// Re-root a stored file path under a new media directory.
///
/// The `stored_url` was written at upload time and may contain an old or
/// relative media directory prefix (e.g. `"./media/srs/2/abc.webp"` or
/// `"/old/path/to/media/post/11/abc.png"`). This finds the first path
/// component whose name matches `media_dir`'s own directory name and returns
/// `media_dir` joined with everything that came after it, or `None` if the
/// media directory name is not found in `stored_url`.
pub fn reroot_path(stored_url: &str, media_dir: &str) -> (r: Option<Vec<char>>)
    ensures
        match r {
            Some(v) => rerooted(stored_url@, media_dir@) == Some(v@),
            None => rerooted(stored_url@, media_dir@) is None,
        },
{
    let md = chars_of(media_dir);
    let mcomps = path_components(md.as_slice());
    let ghost mcs = components(media_dir@);
    if mcomps.len() == 0 {
        return None;
    }
    let last = mcomps.len() - 1;
    assert(mcomps@[last as int].view() == mcs.last());
    let dir: Vec<char> = match &mcomps[last] {
        Comp::Normal(n) => {
            let d = slice_chars(n.as_slice(), 0, n.len());
            assert(d@ =~= n@);
            d
        },
        _ => {
            return None;
        },
    };
    assert(file_name(media_dir@) == Some(dir@));
    let su = chars_of(stored_url);
    let comps = path_components(su.as_slice());
    let ghost cs = components(stored_url@);
    let mut after: Vec<char> = Vec::new();
    let mut found = false;
    let mut k: usize = 0;
    let mut i: usize = 0;
    while i < comps.len()
        invariant
            comps@.len() == cs.len(),
            cs == components(stored_url@),
            forall|j: int| 0 <= j < comps@.len() ==> #[trigger] comps@[j].view() == cs[j],
            i <= comps@.len(),
            k <= i,
            found ==> k < i && cs[k as int] == SComp::Normal(dir@) && after@ == push_comps(
                cs.subrange(k + 1, i as int),
            ),
            found ==> forall|j: int| 0 <= j < k ==> cs[j] != SComp::Normal(dir@),
            !found ==> forall|j: int| 0 <= j < i ==> cs[j] != SComp::Normal(dir@),
            !found ==> after@ == Seq::<char>::empty(),
        decreases comps@.len() - i,
    {
        assert(comps@[i as int].view() == cs[i as int]);
        if found {
            let t = comp_text_of(&comps[i]);
            assert(cs.subrange(k + 1, i + 1).drop_last() == cs.subrange(k + 1, i as int));
            assert(cs.subrange(k + 1, i + 1).last() == cs[i as int]);
            let ghost prev = after@;
            after = path_join(after.as_slice(), t.as_slice());
            assert(push_comps(cs.subrange(k + 1, i + 1)) == join(push_comps(cs.subrange(k + 1, i as int)), comp_text(cs[i as int])));
        } else {
            let is_dir = match &comps[i] {
                Comp::Normal(n) => {
                    let e = chars_eq(n.as_slice(), dir.as_slice());
                    assert(e == (cs[i as int] == SComp::Normal(dir@)));
                    e
                },
                _ => false,
            };
            if is_dir {
                found = true;
                k = i;
                assert(cs.subrange(k + 1, i + 1) =~= Seq::<SComp>::empty());
            } else {
                assert(cs[i as int] != SComp::Normal(dir@));
            }
        }
        i = i + 1;
    }
    if found {
        proof {
            lemma_index_of_name_exact(cs, dir@, k as int);
            assert(cs.subrange(k + 1, cs.len() as int) == cs.skip(k + 1));
        }
        Some(path_join(md.as_slice(), after.as_slice()))
    } else {
        proof {
            lemma_index_of_name_exact(cs, dir@, cs.len() as int);
        }
        None
    }
}

/// A stored medium as the media table describes it.
pub struct LinkResult {
    pub short_name: String,
    pub url: String,
    pub hash: String,
    pub uploader_id: i64,
    pub file_type: String,
}

/// Length in bytes of a character's UTF-8 encoding.
pub open spec fn utf8_len(c: char) -> nat {
    let u = c as u32;
    if u < 0x80 {
        1
    } else if u < 0x800 {
        2
    } else if u < 0x10000 {
        3
    } else {
        4
    }
}

/// Length in bytes of a text's UTF-8 encoding.
pub open spec fn utf8_bytes(s: Seq<char>) -> nat
    decreases s.len(),
{
    if s.len() == 0 {
        0
    } else {
        utf8_bytes(s.drop_last()) + utf8_len(s.last())
    }
}

/// How many leading characters of `s` take exactly `n` bytes in UTF-8;
/// `None` when byte `n` is not a character boundary of `s`.
pub open spec fn chars_for_bytes(s: Seq<char>, n: int) -> Option<nat>
    decreases s.len(),
{
    if n == 0 {
        Some(0)
    } else if s.len() == 0 || utf8_len(s[0]) > n {
        None
    } else {
        match chars_for_bytes(s.drop_first(), n - utf8_len(s[0])) {
            Some(k) => Some(k + 1),
            None => None,
        }
    }
}

proof fn lemma_utf8_bytes_prepend(c: char, s: Seq<char>)
    ensures
        utf8_bytes(seq![c] + s) == utf8_len(c) + utf8_bytes(s),
    decreases s.len(),
{
    if s.len() == 0 {
        assert(seq![c] + s == seq![c]);
        assert(seq![c].drop_last() == Seq::<char>::empty());
        assert(utf8_bytes(Seq::<char>::empty()) == 0);
        assert(seq![c].last() == c);
    } else {
        lemma_utf8_bytes_prepend(c, s.drop_last());
        assert((seq![c] + s).drop_last() == seq![c] + s.drop_last());
        assert((seq![c] + s).last() == s.last());
    }
}

/// The characters `chars_for_bytes` counts take exactly that many bytes.
pub proof fn lemma_chars_for_bytes_take(s: Seq<char>, n: int)
    requires
        chars_for_bytes(s, n) is Some,
    ensures
        chars_for_bytes(s, n)->0 <= s.len(),
        utf8_bytes(s.take(chars_for_bytes(s, n)->0 as int)) == n,
    decreases s.len(),
{
    if n == 0 {
        assert(s.take(0) == Seq::<char>::empty());
    } else {
        let t = s.drop_first();
        lemma_chars_for_bytes_take(t, n - utf8_len(s[0]));
        let k = chars_for_bytes(t, n - utf8_len(s[0]))->0;
        assert(s.take(k + 1 as int) == seq![s[0]] + t.take(k as int));
        lemma_utf8_bytes_prepend(s[0], t.take(k as int));
    }
}


pub open spec fn shift(o: Option<nat>, i: nat) -> Option<nat> {
    match o {
        Some(k) => Some(k + i),
        None => None,
    }
}

fn utf8_width(c: char) -> (r: usize)
    ensures
        r == utf8_len(c),
{
    let u = c as u32;
    if u < 0x80 {
        1
    } else if u < 0x800 {
        2
    } else if u < 0x10000 {
        3
    } else {
        4
    }
}

pub(crate) fn count_chars_for_bytes(s: &[char], n: usize) -> (r: Option<usize>)
    ensures
        match r {
            Some(k) => chars_for_bytes(s@, n as int) == Some(k as nat),
            None => chars_for_bytes(s@, n as int) is None,
        },
{
    let mut i: usize = 0;
    let mut b: usize = 0;
    assert(s@.skip(0) == s@);
    while b < n
        invariant
            i <= s@.len(),
            b <= n,
            chars_for_bytes(s@, n as int) == shift(chars_for_bytes(s@.skip(i as int), n - b), i as nat),
        decreases n - b,
    {
        if i == s.len() {
            return None;
        }
        let w = utf8_width(s[i]);
        assert(s@.skip(i as int)[0] == s@[i as int]);
        assert(s@.skip(i as int).drop_first() == s@.skip(i + 1));
        if w > n - b {
            return None;
        }
        b = b + w;
        i = i + 1;
    }
    Some(i)
}

/// Where a medium's file lives under `media_dir`, and its content hash.
///
/// Regular media hash to `<sha256>` and live at
/// `<media_dir>/<hash[0..2]>/<hash[2..4]>/<hash><ext>` (byte ranges of the hash).
/// Post covers, avatars and series covers hash to `.<type>.<id>.<sha256>` and
/// live at `<media_dir>/<type>/<uploader_id>/<sha256><ext>`: the directory is
/// the uploader, not the id in the hash.
pub open spec fn media_location(
    hash: Seq<char>,
    uploader_id: int,
    ext: Seq<char>,
    media_dir: Seq<char>,
) -> Option<(Seq<char>, Seq<char>)> {
    if hash.len() > 0 && hash[0] == '.' {
        let r1 = hash.skip(1);
        let k2 = index_of(r1, '.');
        let r2 = r1.skip(k2 + 1);
        let k3 = index_of(r2, '.');
        if k2 < 0 || k3 < 0 {
            None
        } else {
            let type_dir = r1.take(k2);
            let sha = r2.skip(k3 + 1);
            Some(
                (
                    join(join(join(media_dir, type_dir), signed_decimal(uploader_id)), sha + ext),
                    sha,
                ),
            )
        }
    } else {
        let c2 = chars_for_bytes(hash, 2)->0 as int;
        let c4 = chars_for_bytes(hash, 4)->0 as int;
        Some(
            (
                join(join(join(media_dir, hash.take(c2)), hash.subrange(c2, c4)), hash + ext),
                hash,
            ),
        )
    }
}

/// The file of a stored medium and its content hash; `ext` is the extension
/// of the medium's type (with its dot).
pub fn media_path_from_link(link: &LinkResult, ext: &str, media_dir: &str) -> (r: Result<
    (String, String),
    MediaError,
>)
    requires
        !(link.hash@.len() > 0 && link.hash@[0] == '.') ==> chars_for_bytes(link.hash@, 2) is Some
            && chars_for_bytes(link.hash@, 4) is Some,
    ensures
        match media_location(link.hash@, link.uploader_id as int, ext@, media_dir@) {
            Some((p, h)) => r matches Ok((rp, rh)) && rp@ == p && rh@ == h,
            None => r matches Err(MediaError::FileNotFound),
        },
{
    let h = chars_of(link.hash.as_str());
    let e = chars_of(ext);
    let d = chars_of(media_dir);
    if h.len() > 0 && h[0] == '.' {
        let r1 = slice_chars(h.as_slice(), 1, h.len());
        assert(r1@ == link.hash@.skip(1));
        let k2 = match find(r1.as_slice(), '.') {
            Some(k) => k,
            None => {
                return Err(MediaError::FileNotFound);
            },
        };
        proof {
            crate::paths::lemma_index_of_bounds(r1@, '.');
        }
        let r2 = slice_chars(r1.as_slice(), k2 + 1, r1.len());
        assert(r2@ == r1@.skip(k2 + 1));
        let k3 = match find(r2.as_slice(), '.') {
            Some(k) => k,
            None => {
                return Err(MediaError::FileNotFound);
            },
        };
        proof {
            crate::paths::lemma_index_of_bounds(r2@, '.');
        }
        let type_dir = slice_chars(r1.as_slice(), 0, k2);
        let sha = slice_chars(r2.as_slice(), k3 + 1, r2.len());
        assert(type_dir@ == r1@.take(k2 as int));
        assert(sha@ == r2@.skip(k3 + 1));
        let id = format_i64(link.uploader_id);
        let mut file = slice_chars(sha.as_slice(), 0, sha.len());
        let mut ec = slice_chars(e.as_slice(), 0, e.len());
        file.append(&mut ec);
        assert(file@ =~= sha@ + e@);
        let p1 = path_join(d.as_slice(), type_dir.as_slice());
        let p2 = path_join(p1.as_slice(), id.as_slice());
        let p3 = path_join(p2.as_slice(), file.as_slice());
        Ok((string_from(p3.as_slice()), string_from(sha.as_slice())))
    } else {
        let c2 = match count_chars_for_bytes(h.as_slice(), 2) {
            Some(k) => k,
            None => {
                return Err(MediaError::FileNotFound);
            },
        };
        let c4 = match count_chars_for_bytes(h.as_slice(), 4) {
            Some(k) => k,
            None => {
                return Err(MediaError::FileNotFound);
            },
        };
        proof {
            lemma_chars_for_bytes_bound(link.hash@, 2);
            lemma_chars_for_bytes_bound(link.hash@, 4);
            lemma_chars_for_bytes_mono(link.hash@, 2, 4);
        }
        let a = slice_chars(h.as_slice(), 0, c2);
        let b = slice_chars(h.as_slice(), c2, c4);
        let mut file = slice_chars(h.as_slice(), 0, h.len());
        let mut ec = slice_chars(e.as_slice(), 0, e.len());
        file.append(&mut ec);
        assert(file@ =~= link.hash@ + e@);
        let p1 = path_join(d.as_slice(), a.as_slice());
        let p2 = path_join(p1.as_slice(), b.as_slice());
        let p3 = path_join(p2.as_slice(), file.as_slice());
        Ok((string_from(p3.as_slice()), string_from(h.as_slice())))
    }
}

pub(crate) proof fn lemma_chars_for_bytes_bound(s: Seq<char>, n: int)
    requires
        n >= 0,
    ensures
        chars_for_bytes(s, n) matches Some(k) ==> k <= s.len(),
    decreases s.len(),
{
    if n != 0 && s.len() != 0 && utf8_len(s[0]) <= n {
        lemma_chars_for_bytes_bound(s.drop_first(), n - utf8_len(s[0]));
    }
}

proof fn lemma_chars_for_bytes_mono(s: Seq<char>, m: int, n: int)
    requires
        0 <= m <= n,
        chars_for_bytes(s, m) is Some,
        chars_for_bytes(s, n) is Some,
    ensures
        chars_for_bytes(s, m)->0 <= chars_for_bytes(s, n)->0,
    decreases s.len(),
{
    if m != 0 {
        lemma_chars_for_bytes_mono(s.drop_first(), m - utf8_len(s[0]), n - utf8_len(s[0]));
    }
}

proof fn lemma_index_of_after(p: Seq<char>, q: Seq<char>, c: char)
    requires
        forall|i: int| 0 <= i < p.len() ==> p[i] != c,
    ensures
        index_of(p + q, c) == if index_of(q, c) < 0 {
            -1
        } else {
            p.len() + index_of(q, c)
        },
    decreases p.len(),
{
    if p.len() > 0 {
        assert((p + q).drop_first() == p.drop_first() + q);
        lemma_index_of_after(p.drop_first(), q, c);
    } else {
        assert(p + q == q);
    }
}

proof fn lemma_digits_have_no(d: Seq<char>, c: char)
    requires
        all_digits(d),
        !is_digit(c),
    ensures
        forall|i: int| 0 <= i < d.len() ==> d[i] != c,
{
    assert forall|i: int| 0 <= i < d.len() implies d[i] != c by {
        assert(is_digit(d[i]));
    }
}

/// The three forms of a single byte range, for any numbers: `bytes=a-b`
/// selects bytes `a` to `b`, the end cut at the file's last byte, when `a` is
/// inside the file and not after `b`; `bytes=a-` selects from `a` to the end;
/// `bytes=-n` selects the last `n` bytes (the whole file when it is shorter).
/// Every range selected lies inside the file, start before end.
pub proof fn law_byte_ranges(a: nat, b: nat, size: nat, header: Seq<char>)
    requires
        a <= u64::MAX,
        b <= u64::MAX,
    ensures
        byte_range("bytes="@ + decimal(a) + "-"@ + decimal(b), size) == (if a < size && a <= b {
            Some((a, if b < size - 1 { b } else { (size - 1) as nat }))
        } else {
            None
        }),
        byte_range("bytes="@ + decimal(a) + "-"@, size) == (if a < size {
            Some((a, (size - 1) as nat))
        } else {
            None
        }),
        byte_range("bytes=-"@ + decimal(b), size) == (if b == 0 || size == 0 {
            None
        } else {
            Some((if size > b { (size - b) as nat } else { 0 }, (size - 1) as nat))
        }),
        byte_range(header, size) matches Some((s, e)) ==> s <= e < size,
{
    reveal_strlit("bytes=");
    reveal_strlit("-");
    reveal_strlit("bytes=-");
    crate::numbers::lemma_decimal_digits(a);
    crate::numbers::lemma_decimal_digits(b);
    crate::numbers::law_parse_decimal_roundtrip(a, u64::MAX as nat);
    crate::numbers::law_parse_decimal_roundtrip(b, u64::MAX as nat);
    let da = decimal(a);
    let db = decimal(b);
    lemma_digits_have_no(da, '-');
    lemma_digits_have_no(db, '-');
    lemma_digits_have_no(da, ',');
    lemma_digits_have_no(db, ',');
    assert("bytes="@ =~= bytes_prefix());
    // bytes=a-b
    let r1 = "bytes="@ + da + "-"@ + db;
    let rest1 = r1.skip(6);
    assert(rest1 =~= da + ("-"@ + db));
    assert(r1.subrange(0, 6) =~= bytes_prefix());
    lemma_index_of_after(da, "-"@ + db, '-');
    assert(index_of("-"@ + db, '-') == 0);
    assert(rest1.take(da.len() as int) =~= da);
    assert(rest1.skip(da.len() as int + 1) =~= db);
    assert(!has_char(rest1, ',')) by {
        if has_char(rest1, ',') {
            let i = choose|i: int| 0 <= i < rest1.len() && rest1[i] == ',';
            if i < da.len() {
                assert(rest1[i] == da[i]);
            } else if i > da.len() {
                assert(rest1[i] == db[i - da.len() - 1]);
            }
        }
    }
    // bytes=a-
    let r2 = "bytes="@ + da + "-"@;
    let rest2 = r2.skip(6);
    assert(rest2 =~= da + "-"@);
    assert(r2.subrange(0, 6) =~= bytes_prefix());
    lemma_index_of_after(da, "-"@, '-');
    assert(index_of("-"@, '-') == 0);
    assert(rest2.take(da.len() as int) =~= da);
    assert(rest2.skip(da.len() as int + 1).len() == 0);
    assert(!has_char(rest2, ',')) by {
        if has_char(rest2, ',') {
            let i = choose|i: int| 0 <= i < rest2.len() && rest2[i] == ',';
            if i < da.len() {
                assert(rest2[i] == da[i]);
            }
        }
    }
    // bytes=-n
    let r3 = "bytes=-"@ + db;
    let rest3 = r3.skip(6);
    assert(rest3 =~= "-"@ + db);
    assert(r3.subrange(0, 6) =~= bytes_prefix());
    assert(index_of(rest3, '-') == 0);
    assert(rest3.take(0).len() == 0);
    assert(rest3.skip(1) =~= db);
    assert(!has_char(rest3, ',')) by {
        if has_char(rest3, ',') {
            let i = choose|i: int| 0 <= i < rest3.len() && rest3[i] == ',';
            if i > 0 {
                assert(rest3[i] == db[i - 1]);
            }
        }
    }
}

/// A text shorter than `n` bytes in UTF-8 has no character boundary at byte
/// `n`.
pub proof fn lemma_short_texts_have_no_cut(s: Seq<char>, n: int)
    requires
        utf8_bytes(s) < n,
    ensures
        chars_for_bytes(s, n) is None,
    decreases s.len(),
{
    if s.len() > 0 {
        assert(s == seq![s[0]] + s.drop_first());
        lemma_utf8_bytes_prepend(s[0], s.drop_first());
        if utf8_len(s[0]) <= n {
            lemma_short_texts_have_no_cut(s.drop_first(), n - utf8_len(s[0]));
        }
    }
}

/// The thumbnail of a post falls back to the post's cover: for any post id,
/// `.post.<id>.thumbnail` gives `.post.<id>`; and a fallback is always the
/// name it came from without its `.thumbnail` suffix.
pub proof fn law_thumbnail_falls_back_to_cover(n: nat, s: Seq<char>)
    ensures
        thumbnail_fallback(".post."@ + decimal(n) + ".thumbnail"@) == Some(".post."@ + decimal(n)),
        thumbnail_fallback(s) matches Some(x) ==> s == x + thumbnail_suffix() && has_prefix(x, post_prefix()),
{
    reveal_strlit(".post.");
    reveal_strlit(".thumbnail");
    crate::numbers::lemma_decimal_digits(n);
    let d = decimal(n);
    let t = ".post."@ + d + ".thumbnail"@;
    assert(".post."@ =~= post_prefix());
    assert(".thumbnail"@ =~= thumbnail_suffix());
    assert(t.subrange(0, 6) =~= post_prefix());
    let rest = t.skip(6);
    assert(rest =~= d + thumbnail_suffix());
    assert(rest.subrange(rest.len() - 10, rest.len() as int) =~= thumbnail_suffix());
    assert(t.subrange(6, t.len() - 10) =~= d);
    if thumbnail_fallback(s) is Some {
        let id = s.subrange(6, s.len() - 10);
        assert(s =~= post_prefix() + id + thumbnail_suffix()) by {
            assert(s.subrange(0, 6) == post_prefix());
            let r = s.skip(6);
            assert(r.subrange(r.len() - 10, r.len() as int) == thumbnail_suffix());
            assert forall|i: int| 0 <= i < s.len() implies s[i] == (post_prefix() + id + thumbnail_suffix())[i] by {
                if i < 6 {
                    assert(s[i] == s.subrange(0, 6)[i]);
                } else if i < s.len() - 10 {
                } else {
                    assert(s[i] == r.subrange(r.len() - 10, r.len() as int)[i - (s.len() - 10)]);
                }
            }
        }
        assert((post_prefix() + id).subrange(0, 6) =~= post_prefix());
    }
}

} // verus!
