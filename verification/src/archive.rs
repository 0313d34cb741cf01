//! Demo archives: which entries of an uploaded zip are extracted, and where
//! under the demo's directory each one lands.
use vstd::prelude::*;
use crate::errors::{GameError, msg};
use crate::paths::{
    Comp, SComp, common_root, components, index_html, normalized_zip, normalized_zip_path,
    path_components, path_join, push_normals, strip_common_root,
};
use crate::text::{chars_eq, chars_of, string_from};
use crate::confinement::{
    all_normal, good_name, law_normalized_zip_stays_inside, lemma_components_of_push_normals,
};

verus! {

/// Limits on demo archives.
pub struct DemoLimits {
    pub max_archive_size: u64,
    pub max_files: usize,
    pub max_extracted_size: u64,
}

/// One entry of a demo archive as the zip reader describes it.
pub struct ZipEntry {
    /// The entry's path when it stays inside the archive, else `None`.
    pub enclosed_name: Option<String>,
    pub is_dir: bool,
    pub is_symlink: bool,
    /// Uncompressed size.
    pub size: u64,
}

/// A file to extract: the entry's position in the archive, its path
/// relative to the demo directory, and its uncompressed size.
pub struct ExtractItem {
    pub index: usize,
    pub rel_path: String,
    pub size: u64,
}

pub open spec fn opt_str(o: Option<String>) -> Option<Seq<char>> {
    match o {
        Some(s) => Some(s@),
        None => None,
    }
}

/// The first complaint about the entries from position `i` on; directories are skipped.
pub open spec fn scan_error(es: Seq<ZipEntry>, i: int) -> Option<Seq<char>>
    decreases es.len() - i,
{
    if i < 0 || i >= es.len() {
        None
    } else if es[i].is_dir {
        scan_error(es, i + 1)
    } else if es[i].is_symlink {
        Some("Demo archive cannot contain symlinks."@)
    } else if opt_str(es[i].enclosed_name) is None || normalized_zip(
        opt_str(es[i].enclosed_name)->0,
    ) is None {
        Some("Demo archive contains an unsafe path."@)
    } else {
        scan_error(es, i + 1)
    }
}

/// The files from position `i` on: index, normalized path and size.
pub open spec fn files_from(es: Seq<ZipEntry>, i: int) -> Seq<(int, Seq<char>, nat)>
    decreases es.len() - i,
{
    if i < 0 || i >= es.len() {
        Seq::empty()
    } else if es[i].is_dir {
        files_from(es, i + 1)
    } else {
        seq![
            (
                i,
                normalized_zip(opt_str(es[i].enclosed_name)->0)->0,
                es[i].size as nat,
            ),
        ] + files_from(es, i + 1)
    }
}

/// A file's path with the archive's common top directory taken off.
pub open spec fn rel_of(p: Seq<char>, root: Option<Seq<char>>) -> Seq<char> {
    match root {
        Some(r) => if components(p).len() > 0 && components(p)[0] == SComp::Normal(r) {
            push_normals(components(p).skip(1))
        } else {
            p
        },
        None => p,
    }
}

/// What extracting a demo archive of `size` bytes with these entries does:
/// the files to write with their relative paths and sizes, or the reason it
/// is refused. How much the files expand to is checked file by file as they
/// are written (`add_extracted`).
pub open spec fn demo_plan(size: nat, es: Seq<ZipEntry>, lim: DemoLimits) -> Result<
    Seq<(int, Seq<char>, nat)>,
    Seq<char>,
> {
    if size > lim.max_archive_size {
        Err("Demo archive is too large."@)
    } else if es.len() == 0 {
        Err("Demo archive is empty."@)
    } else if es.len() > lim.max_files {
        Err("Demo archive contains too many files."@)
    } else if scan_error(es, 0) is Some {
        Err(scan_error(es, 0)->0)
    } else {
        let fs = files_from(es, 0);
        let root = common_root(fs.map_values(|f: (int, Seq<char>, nat)| f.1));
        let rels = fs.map_values(|f: (int, Seq<char>, nat)| (f.0, rel_of(f.1, root), f.2));
        if fs.len() == 0 {
            Err("Demo archive does not contain files."@)
        } else if !(exists|k: int| 0 <= k < rels.len() && (#[trigger] rels[k]).1 == index_html()) {
            Err("Demo archive must contain index.html."@)
        } else {
            Ok(rels)
        }
    }
}

fn rel_path(p: &[char], root: &Option<Vec<char>>) -> (r: Vec<char>)
    ensures
        r@ == rel_of(
            p@,
            match root {
                Some(v) => Some(v@),
                None => None,
            },
        ),
{
    match root {
        Some(rt) => {
            let comps = path_components(p);
            let ghost cs = components(p@);
            if comps.len() > 0 {
                assert(comps@[0].view() == cs[0]);
                let matches = match &comps[0] {
                    Comp::Normal(n) => {
                        let e = chars_eq(n.as_slice(), rt.as_slice());
                        assert(e == (cs[0] == SComp::Normal(rt@)));
                        e
                    },
                    _ => false,
                };
                if matches {
                    let mut out: Vec<char> = Vec::new();
                    let mut i: usize = 1;
                    let ghost rest = cs.skip(1);
                    while i < comps.len()
                        invariant
                            1 <= i <= comps@.len(),
                            comps@.len() == cs.len(),
                            rest == cs.skip(1),
                            forall|j: int| 0 <= j < comps@.len() ==> #[trigger] comps@[j].view() == cs[j],
                            out@ == push_normals(rest.take(i - 1)),
                        decreases comps@.len() - i,
                    {
                        assert(rest.take(i as int).drop_last() == rest.take(i - 1));
                        assert(rest.take(i as int).last() == cs[i as int]);
                        assert(comps@[i as int].view() == cs[i as int]);
                        match &comps[i] {
                            Comp::Normal(part) => {
                                out = path_join(out.as_slice(), part.as_slice());
                            },
                            _ => {},
                        }
                        i = i + 1;
                    }
                    assert(rest.take(rest.len() as int) == rest);
                    return out;
                }
            }
            slice_all(p)
        },
        None => slice_all(p),
    }
}

fn slice_all(p: &[char]) -> (r: Vec<char>)
    ensures
        r@ == p@,
{
    let r = crate::text::slice_chars(p, 0, p.len());
    assert(r@ =~= p@);
    r
}

proof fn lemma_files_from_step(es: Seq<ZipEntry>, i: int)
    requires
        0 <= i < es.len(),
    ensures
        files_from(es, i) == (if es[i].is_dir {
            files_from(es, i + 1)
        } else {
            seq![(i, normalized_zip(opt_str(es[i].enclosed_name)->0)->0, es[i].size as nat)]
                + files_from(es, i + 1)
        }),
{
}

proof fn lemma_files_normal(es: Seq<ZipEntry>, i: int)
    requires
        0 <= i,
        scan_error(es, i) is None,
    ensures
        forall|k: int|
            0 <= k < files_from(es, i).len() ==> all_normal(
                components(#[trigger] files_from(es, i)[k].1),
            ),
    decreases es.len() - i,
{
    if i < es.len() {
        lemma_files_normal(es, i + 1);
        lemma_files_from_step(es, i);
        if !es[i].is_dir {
            let name = opt_str(es[i].enclosed_name)->0;
            law_normalized_zip_stays_inside(name);
            let rest = files_from(es, i + 1);
            assert forall|k: int| 0 <= k < files_from(es, i).len() implies all_normal(
                components(#[trigger] files_from(es, i)[k].1),
            ) by {
                if k > 0 {
                    assert(files_from(es, i)[k] == rest[k - 1]);
                } else {
                    assert(files_from(es, i)[0].1 == normalized_zip(name)->0);
                }
            }
        }
    }
}

proof fn lemma_rel_of_normal(p: Seq<char>, root: Option<Seq<char>>)
    requires
        all_normal(components(p)),
    ensures
        all_normal(components(rel_of(p, root))),
{
    let cs = components(p);
    if root is Some && cs.len() > 0 && cs[0] == SComp::Normal(root->0) {
        assert forall|i: int| 0 <= i < cs.skip(1).len() implies (#[trigger] cs.skip(1)[i] matches SComp::Normal(
            q,
        ) && good_name(q)) by {
            assert(cs.skip(1)[i] == cs[i + 1]);
        }
        lemma_components_of_push_normals(cs.skip(1));
    }
}

/// Every file that the extraction of a demo archive plans lands below the
/// demo directory: its relative path is made of normal components only, so
/// it neither climbs out with `..` nor starts at the root.
pub proof fn law_planned_files_stay_inside(size: nat, es: Seq<ZipEntry>, lim: DemoLimits)
    requires
        demo_plan(size, es, lim) is Ok,
    ensures
        forall|k: int|
            0 <= k < demo_plan(size, es, lim)->Ok_0.len() ==> all_normal(
                components(#[trigger] demo_plan(size, es, lim)->Ok_0[k].1),
            ),
{
    let fs = files_from(es, 0);
    let root = common_root(fs.map_values(|f: (int, Seq<char>, nat)| f.1));
    let rels = demo_plan(size, es, lim)->Ok_0;
    lemma_files_normal(es, 0);
    assert forall|k: int| 0 <= k < rels.len() implies all_normal(components(#[trigger] rels[k].1)) by {
        assert(rels[k].1 == rel_of(fs[k].1, root));
        lemma_rel_of_normal(fs[k].1, root);
    }
}


/// Plans the extraction of a demo archive of `archive_size` bytes: every
/// check the extraction makes before writing, in the same order, and for each
/// file its index and its path below the demo directory (the archive's common
/// top directory taken off).
#[verifier::rlimit(40)]
pub fn plan_demo_extraction(archive_size: u64, entries: &[ZipEntry], limits: &DemoLimits) -> (r: Result<
    Vec<ExtractItem>,
    GameError,
>)
    ensures
        match demo_plan(archive_size as nat, entries@, *limits) {
            Ok(items) => r matches Ok(v) && v@.len() == items.len() && forall|k: int|
                0 <= k < v@.len() ==> (#[trigger] v@[k].index as int, v@[k].rel_path@, v@[k].size as nat)
                    == items[k],
            Err(m) => r matches Err(GameError::InvalidDemo(e)) && e@ == m,
        },
{
    if archive_size > limits.max_archive_size {
        return Err(GameError::InvalidDemo(msg("Demo archive is too large.")));
    }
    if entries.len() == 0 {
        return Err(GameError::InvalidDemo(msg("Demo archive is empty.")));
    }
    if entries.len() > limits.max_files {
        return Err(GameError::InvalidDemo(msg("Demo archive contains too many files.")));
    }
    let ghost es = entries@;
    // First pass: every file must be a plain, enclosed, normalizable path.
    let mut paths: Vec<Vec<char>> = Vec::new();
    let mut idxs: Vec<usize> = Vec::new();
    let mut sizes: Vec<u64> = Vec::new();
    let ghost mut seen: Seq<(int, Seq<char>, nat)> = Seq::empty();
    let mut i: usize = 0;
    while i < entries.len()
        invariant
            es == entries@,
            i <= es.len(),
            archive_size <= limits.max_archive_size,
            0 < es.len() <= limits.max_files,
            scan_error(es, 0) == scan_error(es, i as int),
            files_from(es, 0) == seen + files_from(es, i as int),
            paths@.len() == seen.len(),
            idxs@.len() == seen.len(),
            forall|k: int| 0 <= k < seen.len() ==> #[trigger] paths@[k]@ == seen[k].1,
            forall|k: int| 0 <= k < seen.len() ==> #[trigger] idxs@[k] as int == seen[k].0,
            sizes@.len() == seen.len(),
            forall|k: int| 0 <= k < seen.len() ==> #[trigger] sizes@[k] as nat == seen[k].2,
        decreases es.len() - i,
    {
        proof {
            lemma_files_from_step(es, i as int);
        }
        let e = &entries[i];
        if e.is_dir {
            i = i + 1;
            continue;
        }
        if e.is_symlink {
            return Err(GameError::InvalidDemo(msg("Demo archive cannot contain symlinks.")));
        }
        let name = match &e.enclosed_name {
            Some(n) => n,
            None => {
                return Err(GameError::InvalidDemo(msg("Demo archive contains an unsafe path.")));
            },
        };
        let nc = chars_of(name.as_str());
        let normalized = match normalized_zip_path(nc.as_slice()) {
            Some(p) => p,
            None => {
                return Err(GameError::InvalidDemo(msg("Demo archive contains an unsafe path.")));
            },
        };
        let ghost item = (i as int, normalized@, e.size as nat);
        proof {
            assert(seen.push(item).drop_last() == seen);
            assert(seen + (seq![item] + files_from(es, i + 1)) == seen.push(item) + files_from(es, i + 1));
            seen = seen.push(item);
        }
        paths.push(normalized);
        idxs.push(i);
        sizes.push(e.size);
        i = i + 1;
    }
    assert(files_from(es, i as int) == Seq::<(int, Seq<char>, nat)>::empty());
    assert(seen == files_from(es, 0));
    if paths.len() == 0 {
        return Err(GameError::InvalidDemo(msg("Demo archive does not contain files.")));
    }
    let root = strip_common_root(paths.as_slice());
    assert(paths@.map_values(|p: Vec<char>| p@) =~= seen.map_values(|f: (int, Seq<char>, nat)| f.1));
    let ghost root_v = common_root(seen.map_values(|f: (int, Seq<char>, nat)| f.1));
    let ghost rels = seen.map_values(|f: (int, Seq<char>, nat)| (f.0, rel_of(f.1, root_v), f.2));
    let mut items: Vec<ExtractItem> = Vec::new();
    let mut has_index = false;
    let ihtml = chars_of("index.html");
    proof {
        reveal_strlit("index.html");
    }
    assert(ihtml@ =~= index_html());
    let mut k: usize = 0;
    while k < paths.len()
        invariant
            k <= paths@.len(),
            paths@.len() == seen.len(),
            idxs@.len() == seen.len(),
            rels.len() == seen.len(),
            rels == seen.map_values(|f: (int, Seq<char>, nat)| (f.0, rel_of(f.1, root_v), f.2)),
            sizes@.len() == seen.len(),
            forall|j: int| 0 <= j < seen.len() ==> #[trigger] sizes@[j] as nat == seen[j].2,
            ihtml@ == index_html(),
            root_v == match root {
                Some(v) => Some(v@),
                None => None::<Seq<char>>,
            },
            forall|j: int| 0 <= j < seen.len() ==> #[trigger] paths@[j]@ == seen[j].1,
            forall|j: int| 0 <= j < seen.len() ==> #[trigger] idxs@[j] as int == seen[j].0,
            items@.len() == k,
            forall|j: int|
                0 <= j < k ==> (#[trigger] items@[j].index as int, items@[j].rel_path@, items@[j].size as nat)
                    == rels[j],
            has_index == exists|j: int| 0 <= j < k && (#[trigger] rels[j]).1 == index_html(),
        decreases paths@.len() - k,
    {
        let rel = rel_path(paths[k].as_slice(), &root);
        assert(paths@[k as int]@ == seen[k as int].1);
        assert(sizes@[k as int] as nat == seen[k as int].2);
        assert(rels[k as int] == (seen[k as int].0, rel@, seen[k as int].2));
        if chars_eq(rel.as_slice(), ihtml.as_slice()) {
            has_index = true;
        }
        let rs = string_from(rel.as_slice());
        items.push(ExtractItem { index: idxs[k], rel_path: rs, size: sizes[k] });
        k = k + 1;
    }
    if !has_index {
        return Err(GameError::InvalidDemo(msg("Demo archive must contain index.html.")));
    }
    Ok(items)
}

/// How much the files written so far expand to, once one more of `size`
/// bytes is counted (the count stops at the largest `u64`); past `max` the
/// extraction is refused before the file is read.
pub fn add_extracted(total: u64, size: u64, max: u64) -> (r: Result<u64, GameError>)
    ensures
        ({
            let t = if total + size > u64::MAX {
                u64::MAX as int
            } else {
                total + size
            };
            &&& t > max ==> (r matches Err(GameError::InvalidDemo(e)) && e@
                == "Demo archive expands too large."@)
            &&& t <= max ==> r == Ok::<u64, GameError>(t as u64)
        }),
{
    let t = if size > u64::MAX - total {
        u64::MAX
    } else {
        total + size
    };
    if t > max {
        return Err(GameError::InvalidDemo(msg("Demo archive expands too large.")));
    }
    Ok(t)
}

/// The relative paths of an archive's files, the common top directory taken
/// off, in archive order.
pub open spec fn planned_paths(es: Seq<ZipEntry>) -> Seq<Seq<char>> {
    let fs = files_from(es, 0);
    let root = common_root(fs.map_values(|f: (int, Seq<char>, nat)| f.1));
    fs.map_values(|f: (int, Seq<char>, nat)| rel_of(f.1, root))
}

/// `index.html` may stand anywhere in the archive: an archive that passes
/// the size, count and entry checks is planned as soon as any of its files,
/// at whatever position, lands at `index.html`; and every plan has such a
/// file. The plan keeps each file's index and size, in archive order.
pub proof fn law_index_html_anywhere(size: nat, es: Seq<ZipEntry>, lim: DemoLimits, k: int)
    ensures
        size <= lim.max_archive_size && 0 < es.len() <= lim.max_files && scan_error(es, 0) is None
            && 0 <= k < planned_paths(es).len() && planned_paths(es)[k] == index_html()
            ==> demo_plan(size, es, lim) is Ok,
        demo_plan(size, es, lim) is Ok ==> exists|j: int|
            0 <= j < planned_paths(es).len() && #[trigger] planned_paths(es)[j] == index_html(),
        demo_plan(size, es, lim) is Ok ==> ({
            let items = demo_plan(size, es, lim)->Ok_0;
            &&& items.len() == planned_paths(es).len()
            &&& forall|j: int|
                0 <= j < items.len() ==> (#[trigger] items[j]).1 == planned_paths(es)[j]
                    && items[j].0 == files_from(es, 0)[j].0 && items[j].2 == files_from(es, 0)[j].2
        }),
{
    let fs = files_from(es, 0);
    let root = common_root(fs.map_values(|f: (int, Seq<char>, nat)| f.1));
    let rels = fs.map_values(|f: (int, Seq<char>, nat)| (f.0, rel_of(f.1, root), f.2));
    assert(planned_paths(es).len() == rels.len());
    assert forall|j: int| 0 <= j < rels.len() implies #[trigger] rels[j].1 == planned_paths(es)[j] by {}
    if size <= lim.max_archive_size && 0 < es.len() <= lim.max_files && scan_error(es, 0) is None
        && 0 <= k < planned_paths(es).len() && planned_paths(es)[k] == index_html() {
        assert(rels[k].1 == index_html());
    }
    if demo_plan(size, es, lim) is Ok {
        let j = choose|j: int| 0 <= j < rels.len() && (#[trigger] rels[j]).1 == index_html();
        assert(planned_paths(es)[j] == index_html());
    }
}

/// A file entry (not a directory) the extraction cannot take: a symbolic
/// link, or a path that does not stay inside the archive or does not
/// normalize.
pub open spec fn bad_file(e: ZipEntry) -> bool {
    !e.is_dir && (e.is_symlink || opt_str(e.enclosed_name) is None || normalized_zip(
        opt_str(e.enclosed_name)->0,
    ) is None)
}

proof fn lemma_scan_error_from(es: Seq<ZipEntry>, i: int)
    requires
        0 <= i,
    ensures
        scan_error(es, i) is None <==> forall|j: int| i <= j < es.len() ==> !bad_file(#[trigger] es[j]),
    decreases es.len() - i,
{
    if i < es.len() {
        lemma_scan_error_from(es, i + 1);
        if scan_error(es, i + 1) is None && !bad_file(es[i]) {
            assert forall|j: int| i <= j < es.len() implies !bad_file(#[trigger] es[j]) by {
                if j > i {
                }
            }
        }
    }
}

/// The entries' checks look at every file, wherever it stands, and at files
/// only: the archive's files are all checked before anything is planned, one
/// bad file anywhere refuses it, and directories never do.
pub proof fn law_every_file_is_checked(size: nat, es: Seq<ZipEntry>, lim: DemoLimits)
    ensures
        (exists|j: int| 0 <= j < es.len() && bad_file(#[trigger] es[j])) ==> demo_plan(size, es, lim)
            is Err,
        (forall|j: int| 0 <= j < es.len() ==> !bad_file(#[trigger] es[j])) ==> scan_error(es, 0) is None,
        (forall|j: int| 0 <= j < es.len() ==> (#[trigger] es[j]).is_dir) ==> demo_plan(size, es, lim)
            is Err,
        size > lim.max_archive_size ==> demo_plan(size, es, lim) == Err::<Seq<(int, Seq<char>, nat)>, Seq<char>>(
            "Demo archive is too large."@,
        ),
        size <= lim.max_archive_size && es.len() == 0 ==> demo_plan(size, es, lim) == Err::<
            Seq<(int, Seq<char>, nat)>,
            Seq<char>,
        >("Demo archive is empty."@),
        size <= lim.max_archive_size && es.len() > lim.max_files ==> demo_plan(size, es, lim) == Err::<
            Seq<(int, Seq<char>, nat)>,
            Seq<char>,
        >("Demo archive contains too many files."@),
        demo_plan(size, es, lim) is Ok ==> size <= lim.max_archive_size && 0 < es.len()
            <= lim.max_files,
{
    lemma_scan_error_from(es, 0);
    if forall|j: int| 0 <= j < es.len() ==> (#[trigger] es[j]).is_dir {
        lemma_no_files(es, 0);
    }
}

proof fn lemma_no_files(es: Seq<ZipEntry>, i: int)
    requires
        0 <= i,
        forall|j: int| 0 <= j < es.len() ==> (#[trigger] es[j]).is_dir,
    ensures
        files_from(es, i).len() == 0,
    decreases es.len() - i,
{
    if i < es.len() {
        lemma_no_files(es, i + 1);
    }
}

} // verus!
