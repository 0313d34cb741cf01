//! Zip archives held in memory, as the `zip` crate reads them: the listing of
//! their entries, and the bytes of one entry.
use vstd::prelude::*;
use crate::archive::{
    demo_plan, files_from, opt_str, plan_demo_extraction, scan_error, DemoLimits, ExtractItem, ZipEntry,
};
use crate::digest::{hex_lower, sha256_hex, sha256_of};
use crate::paths::{normalized_zip, normalized_zip_path};
use crate::text::chars_of;
use crate::errors::{as_project_error, project_error_from, GameError, ProjectError, msg, msg2};
use crate::jsdos::{bundle_error, check_bundle_entries, entries_error, manifest_name};
use crate::jsdos::BundleEntry;
use std::io::{Cursor, Read};
use zip::ZipArchive;

verus! {

/// One entry of a zip archive as the zip reader lists it.
pub struct RawZipEntry {
    /// The name as stored in the archive.
    pub name: String,
    /// The name when it stays inside the archive, else `None`.
    pub enclosed_name: Option<String>,
    pub is_dir: bool,
    /// The Unix permission and file-type bits, when the archive records them.
    pub unix_mode: Option<u32>,
    /// Uncompressed size.
    pub size: u64,
}

/// What the zip reader lists of an archive: `Err` with the reader's message
/// when the archive cannot be opened, else one entry per position, each the
/// entry or the message of the error reading it.
pub uninterp spec fn zip_listing(bytes: Seq<u8>) -> Result<
    Seq<Result<(Seq<char>, Option<Seq<char>>, bool, Option<u32>, u64), Seq<char>>>,
    Seq<char>,
>;

/// The bytes of entry `index` of an archive, or the reader's message.
pub uninterp spec fn zip_content(bytes: Seq<u8>, index: int) -> Result<Seq<u8>, Seq<char>>;

pub open spec fn raw_view(e: RawZipEntry) -> (Seq<char>, Option<Seq<char>>, bool, Option<u32>, u64) {
    (e.name@, opt_str(e.enclosed_name), e.is_dir, e.unix_mode, e.size)
}

pub open spec fn listing_view(v: Seq<Result<RawZipEntry, String>>) -> Seq<
    Result<(Seq<char>, Option<Seq<char>>, bool, Option<u32>, u64), Seq<char>>,
> {
    v.map_values(
        |x: Result<RawZipEntry, String>|
            match x {
                Ok(e) => Ok(raw_view(e)),
                Err(m) => Err(m@),
            },
    )
}

/// Opens `bytes` with `zip::ZipArchive::new` and lists every entry with
/// `ZipArchive::by_index` (`ZipFile::name`, `enclosed_name`, `is_dir`,
/// `unix_mode`, `size`); errors are kept as their text. Claimed: the result is
/// the named listing, converted entry by entry.
#[verifier::external_body]
fn zip_entries(bytes: &[u8]) -> (r: Result<Vec<Result<RawZipEntry, String>>, String>)
    ensures
        match r {
            Ok(v) => zip_listing(bytes@) == Ok::<_, Seq<char>>(listing_view(v@)),
            Err(m) => zip_listing(bytes@) == Err::<Seq<Result<(Seq<char>, Option<Seq<char>>, bool, Option<u32>, u64), Seq<char>>>, Seq<char>>(m@),
        },
{
    let mut archive = match ZipArchive::new(Cursor::new(bytes)) {
        Ok(a) => a, Err(e) => return Err(e.to_string()),
    };
    let mut out = Vec::new();
    for i in 0..archive.len() {
        out.push(match archive.by_index(i) {
            Ok(f) => Ok(RawZipEntry {
                name: f.name().to_string(),
                enclosed_name: match f.enclosed_name() { Some(p) => Some(p.to_string_lossy().into_owned()), None => None },
                is_dir: f.is_dir(), unix_mode: f.unix_mode(), size: f.size(),
            }),
            Err(e) => Err(e.to_string()),
        });
    }
    Ok(out)
}

/// Reads entry `index` of `bytes` with `ZipArchive::by_index` and
/// `Read::read_to_end`; errors are kept as their text. Claimed: the result is
/// the named content.
#[verifier::external_body]
fn zip_entry_bytes(bytes: &[u8], index: usize) -> (r: Result<Vec<u8>, String>)
    ensures
        match r {
            Ok(v) => zip_content(bytes@, index as int) == Ok::<Seq<u8>, Seq<char>>(v@),
            Err(m) => zip_content(bytes@, index as int) == Err::<Seq<u8>, Seq<char>>(m@),
        },
{
    let mut archive = match ZipArchive::new(Cursor::new(bytes)) {
        Ok(a) => a,
        Err(e) => return Err(e.to_string()),
    };
    let mut file = match archive.by_index(index) {
        Ok(f) => f,
        Err(e) => return Err(e.to_string()),
    };
    let mut out = Vec::new();
    match file.read_to_end(&mut out) {
        Ok(_) => Ok(out),
        Err(e) => Err(e.to_string()),
    }
}

/// The archive's listing, or the message of the error opening it.
pub fn read_zip_listing(bytes: &[u8]) -> (r: Result<Vec<Result<RawZipEntry, String>>, String>)
    ensures
        match r {
            Ok(v) => zip_listing(bytes@) == Ok::<_, Seq<char>>(listing_view(v@)),
            Err(m) => zip_listing(bytes@) == Err::<Seq<Result<(Seq<char>, Option<Seq<char>>, bool, Option<u32>, u64), Seq<char>>>, Seq<char>>(m@),
        },
{
    zip_entries(bytes)
}

/// The bytes of entry `index` of an archive, or the reader's message.
pub fn read_zip_entry(bytes: &[u8], index: usize) -> (r: Result<Vec<u8>, String>)
    ensures
        match r {
            Ok(v) => zip_content(bytes@, index as int) == Ok::<Seq<u8>, Seq<char>>(v@),
            Err(m) => zip_content(bytes@, index as int) == Err::<Seq<u8>, Seq<char>>(m@),
        },
{
    zip_entry_bytes(bytes, index)
}

/// A Unix mode names a symbolic link when its file-type bits are `0o120000`.
pub open spec fn is_symlink_mode(mode: Option<u32>) -> bool {
    match mode {
        Some(m) => m & 0o170000u32 == 0o120000u32,
        None => false,
    }
}

/// The first position whose entry could not be read, if any.
pub open spec fn first_read_error(
    l: Seq<Result<(Seq<char>, Option<Seq<char>>, bool, Option<u32>, u64), Seq<char>>>,
    i: int,
) -> Option<Seq<char>>
    decreases l.len() - i,
{
    if i < 0 || i >= l.len() {
        None
    } else {
        match l[i] {
            Err(m) => Some(m),
            Ok(_) => first_read_error(l, i + 1),
        }
    }
}

/// The first complaint about a demo archive's listed entries from position
/// `i` on, entry by entry: an entry that could not be read, else for a file
/// (directories are skipped) a symbolic link or a path that is not safe.
pub open spec fn demo_listing_error(
    l: Seq<Result<(Seq<char>, Option<Seq<char>>, bool, Option<u32>, u64), Seq<char>>>,
    i: int,
) -> Option<Seq<char>>
    decreases l.len() - i,
{
    if i < 0 || i >= l.len() {
        None
    } else {
        match l[i] {
            Err(m) => Some(m),
            Ok(e) => if e.2 {
                demo_listing_error(l, i + 1)
            } else if is_symlink_mode(e.3) {
                Some("Demo archive cannot contain symlinks."@)
            } else if e.1 is None || normalized_zip(e.1->Some_0) is None {
                Some("Demo archive contains an unsafe path."@)
            } else {
                demo_listing_error(l, i + 1)
            },
        }
    }
}

/// The first complaint about a js-dos bundle's listed entries from position
/// `i` on, entry by entry: an entry that could not be read, a path escaping
/// the archive, a symbolic link.
pub open spec fn bundle_listing_error(
    l: Seq<Result<(Seq<char>, Option<Seq<char>>, bool, Option<u32>, u64), Seq<char>>>,
    i: int,
) -> Option<Seq<char>>
    decreases l.len() - i,
{
    if i < 0 || i >= l.len() {
        None
    } else {
        match l[i] {
            Err(m) => Some(m),
            Ok(e) => if e.1 is None {
                Some("js-dos bundle contains an unsafe path."@)
            } else if is_symlink_mode(e.3) {
                Some("js-dos bundle cannot contain symlinks."@)
            } else {
                bundle_listing_error(l, i + 1)
            },
        }
    }
}

proof fn lemma_listing_errors_cover_reads(
    l: Seq<Result<(Seq<char>, Option<Seq<char>>, bool, Option<u32>, u64), Seq<char>>>,
    i: int,
)
    requires
        0 <= i,
    ensures
        demo_listing_error(l, i) is None ==> first_read_error(l, i) is None,
        bundle_listing_error(l, i) is None ==> first_read_error(l, i) is None,
    decreases l.len() - i,
{
    if i < l.len() {
        lemma_listing_errors_cover_reads(l, i + 1);
    }
}

/// The first complaint `demo_listing_error` finds, as the archive's reader
/// lists it.
fn first_demo_listing_error(listing: &Vec<Result<RawZipEntry, String>>) -> (r: Option<String>)
    ensures
        match demo_listing_error(listing_view(listing@), 0) {
            None => r is None,
            Some(m) => r is Some && r->Some_0@ == m,
        },
{
    let ghost l = listing_view(listing@);
    let mut i: usize = 0;
    while i < listing.len()
        invariant
            i <= listing@.len(),
            l == listing_view(listing@),
            demo_listing_error(l, 0) == demo_listing_error(l, i as int),
        decreases listing@.len() - i,
    {
        assert(l[i as int] == match listing@[i as int] {
            Ok(e) => Ok(raw_view(e)),
            Err(m) => Err(m@),
        });
        match &listing[i] {
            Err(m) => {
                return Some(m.clone());
            },
            Ok(e) => {
                if !e.is_dir {
                    let symlink = match e.unix_mode {
                        Some(mode) => mode & 0o170000u32 == 0o120000u32,
                        None => false,
                    };
                    if symlink {
                        return Some(msg("Demo archive cannot contain symlinks."));
                    }
                    match &e.enclosed_name {
                        None => {
                            return Some(msg("Demo archive contains an unsafe path."));
                        },
                        Some(n) => {
                            let nc = chars_of(n.as_str());
                            if normalized_zip_path(nc.as_slice()).is_none() {
                                return Some(msg("Demo archive contains an unsafe path."));
                            }
                        },
                    }
                }
            },
        }
        i = i + 1;
    }
    None
}

/// The first complaint `bundle_listing_error` finds, as the archive's reader
/// lists it.
fn first_bundle_listing_error(listing: &Vec<Result<RawZipEntry, String>>) -> (r: Option<String>)
    ensures
        match bundle_listing_error(listing_view(listing@), 0) {
            None => r is None,
            Some(m) => r is Some && r->Some_0@ == m,
        },
{
    let ghost l = listing_view(listing@);
    let mut i: usize = 0;
    while i < listing.len()
        invariant
            i <= listing@.len(),
            l == listing_view(listing@),
            bundle_listing_error(l, 0) == bundle_listing_error(l, i as int),
        decreases listing@.len() - i,
    {
        assert(l[i as int] == match listing@[i as int] {
            Ok(e) => Ok(raw_view(e)),
            Err(m) => Err(m@),
        });
        match &listing[i] {
            Err(m) => {
                return Some(m.clone());
            },
            Ok(e) => {
                if e.enclosed_name.is_none() {
                    return Some(msg("js-dos bundle contains an unsafe path."));
                }
                let symlink = match e.unix_mode {
                    Some(mode) => mode & 0o170000u32 == 0o120000u32,
                    None => false,
                };
                if symlink {
                    return Some(msg("js-dos bundle cannot contain symlinks."));
                }
            },
        }
        i = i + 1;
    }
    None
}

/// What the extraction plan reads of an entry: its enclosed name, whether it
/// is a directory, whether it is a symbolic link, and its size.
pub open spec fn zip_entry_view(e: ZipEntry) -> (Option<Seq<char>>, bool, bool, u64) {
    (opt_str(e.enclosed_name), e.is_dir, e.is_symlink, e.size)
}

pub open spec fn zip_entry_views(es: Seq<ZipEntry>) -> Seq<(Option<Seq<char>>, bool, bool, u64)> {
    es.map_values(|e: ZipEntry| zip_entry_view(e))
}

/// The plan's view of a listed entry.
pub open spec fn listed_entry(
    t: Result<(Seq<char>, Option<Seq<char>>, bool, Option<u32>, u64), Seq<char>>,
) -> (Option<Seq<char>>, bool, bool, u64) {
    let e = t->Ok_0;
    (e.1, e.2, is_symlink_mode(e.3), e.4)
}

pub open spec fn listed_entries(
    l: Seq<Result<(Seq<char>, Option<Seq<char>>, bool, Option<u32>, u64), Seq<char>>>,
) -> Seq<(Option<Seq<char>>, bool, bool, u64)> {
    l.map_values(
        |t: Result<(Seq<char>, Option<Seq<char>>, bool, Option<u32>, u64), Seq<char>>|
            listed_entry(t),
    )
}

/// What the bundle check reads of an entry: its stored name, whether it stays
/// inside the archive, whether it is a symbolic link.
pub open spec fn bundle_entry_view(e: BundleEntry) -> (Seq<char>, bool, bool) {
    (e.name@, e.enclosed, e.is_symlink)
}

pub open spec fn bundle_entry_views(es: Seq<BundleEntry>) -> Seq<(Seq<char>, bool, bool)> {
    es.map_values(|e: BundleEntry| bundle_entry_view(e))
}

pub open spec fn listed_bundle_entries(
    l: Seq<Result<(Seq<char>, Option<Seq<char>>, bool, Option<u32>, u64), Seq<char>>>,
) -> Seq<(Seq<char>, bool, bool)> {
    l.map_values(
        |t: Result<(Seq<char>, Option<Seq<char>>, bool, Option<u32>, u64), Seq<char>>|
            (t->Ok_0.0, t->Ok_0.1 is Some, is_symlink_mode(t->Ok_0.3)),
    )
}

/// The first entry that could not be read, or the listed entries as the
/// extraction plan and the bundle check read them.
pub fn listed_zip_entries(listing: &Vec<Result<RawZipEntry, String>>) -> (r: Result<
    (Vec<ZipEntry>, Vec<BundleEntry>),
    String,
>)
    ensures
        match first_read_error(listing_view(listing@), 0) {
            Some(m) => r matches Err(e) && e@ == m,
            None => r matches Ok((es, bs)) && zip_entry_views(es@) == listed_entries(
                listing_view(listing@),
            ) && bundle_entry_views(bs@) == listed_bundle_entries(listing_view(listing@)),
        },
{
    let ghost l = listing_view(listing@);
    let mut es: Vec<ZipEntry> = Vec::new();
    let mut bs: Vec<BundleEntry> = Vec::new();
    let mut i: usize = 0;
    while i < listing.len()
        invariant
            i <= listing@.len(),
            l == listing_view(listing@),
            first_read_error(l, 0) == first_read_error(l, i as int),
            forall|k: int| 0 <= k < i ==> l[k] is Ok,
            zip_entry_views(es@) == listed_entries(l.take(i as int)),
            bundle_entry_views(bs@) == listed_bundle_entries(l.take(i as int)),
        decreases listing@.len() - i,
    {
        assert(l[i as int] == match listing@[i as int] {
            Ok(e) => Ok(raw_view(e)),
            Err(m) => Err(m@),
        });
        match &listing[i] {
            Err(m) => {
                return Err(m.clone());
            },
            Ok(e) => {
                let is_symlink = match e.unix_mode {
                    Some(mode) => mode & 0o170000u32 == 0o120000u32,
                    None => false,
                };
                let ghost es0 = zip_entry_views(es@);
                let ghost bs0 = bundle_entry_views(bs@);
                es.push(
                    ZipEntry {
                        enclosed_name: e.enclosed_name.clone(),
                        is_dir: e.is_dir,
                        is_symlink,
                        size: e.size,
                    },
                );
                bs.push(
                    BundleEntry {
                        name: e.name.clone(),
                        enclosed: e.enclosed_name.is_some(),
                        is_symlink,
                    },
                );
                proof {
                    assert(l.take(i + 1) == l.take(i as int).push(l[i as int]));
                    assert(zip_entry_views(es@) =~= es0.push(listed_entry(l[i as int])));
                    assert(listed_entries(l.take(i + 1)) =~= listed_entries(l.take(i as int)).push(
                        listed_entry(l[i as int]),
                    ));
                    assert(bundle_entry_views(bs@) =~= bs0.push(
                        (l[i as int]->Ok_0.0, l[i as int]->Ok_0.1 is Some, is_symlink_mode(
                            l[i as int]->Ok_0.3,
                        )),
                    ));
                    assert(listed_bundle_entries(l.take(i + 1)) =~= listed_bundle_entries(
                        l.take(i as int),
                    ).push(
                        (l[i as int]->Ok_0.0, l[i as int]->Ok_0.1 is Some, is_symlink_mode(
                            l[i as int]->Ok_0.3,
                        )),
                    ));
                }
            },
        }
        i = i + 1;
    }
    assert(l.take(l.len() as int) == l);
    Ok((es, bs))
}

proof fn lemma_scan_by_views(a: Seq<ZipEntry>, b: Seq<ZipEntry>, i: int)
    requires
        zip_entry_views(a) == zip_entry_views(b),
        0 <= i,
    ensures
        scan_error(a, i) == scan_error(b, i),
        files_from(a, i) == files_from(b, i),
    decreases a.len() - i,
{
    assert(a.len() == zip_entry_views(a).len());
    assert(b.len() == zip_entry_views(b).len());
    if i < a.len() {
        assert(zip_entry_views(a)[i] == zip_entry_views(b)[i]);
        lemma_scan_by_views(a, b, i + 1);
    }
}

/// The extraction plan reads an entry only through its view: entries with
/// equal views are planned alike.
pub proof fn lemma_plan_reads_entry_views(size: nat, a: Seq<ZipEntry>, b: Seq<ZipEntry>, lim: DemoLimits)
    requires
        zip_entry_views(a) == zip_entry_views(b),
    ensures
        demo_plan(size, a, lim) == demo_plan(size, b, lim),
{
    assert(a.len() == zip_entry_views(a).len());
    assert(b.len() == zip_entry_views(b).len());
    lemma_scan_by_views(a, b, 0);
}

/// The plan's answer as an exec result.
pub open spec fn plan_matches(
    r: Result<Vec<ExtractItem>, GameError>,
    p: Result<Seq<(int, Seq<char>, nat)>, Seq<char>>,
) -> bool {
    match p {
        Ok(items) => r matches Ok(v) && v@.len() == items.len() && forall|k: int|
            0 <= k < v@.len() ==> (#[trigger] v@[k].index as int, v@[k].rel_path@, v@[k].size as nat)
                == items[k],
        Err(m) => r matches Err(GameError::InvalidDemo(e)) && e@ == m,
    }
}

/// Why a demo archive's listing is refused before its files are planned: no
/// entry, too many, or the first entry that could not be read or is a
/// symbolic link or an unsafe path.
pub open spec fn listing_failure(
    l: Seq<Result<(Seq<char>, Option<Seq<char>>, bool, Option<u32>, u64), Seq<char>>>,
    lim: DemoLimits,
) -> Option<Seq<char>> {
    if l.len() == 0 {
        Some("Demo archive is empty."@)
    } else if l.len() > lim.max_files {
        Some("Demo archive contains too many files."@)
    } else {
        demo_listing_error(l, 0)
    }
}

/// What planning the extraction of the archive `bytes` gives: too large,
/// unreadable, empty or overfull archives are refused, and otherwise the plan
/// is the one of its listed entries.
pub open spec fn extraction_outcome(r: Result<Vec<ExtractItem>, GameError>, bytes: Seq<u8>, limits: DemoLimits) -> bool {
    &&& bytes.len() > limits.max_archive_size ==> (r matches Err(GameError::InvalidDemo(e)) && e@
        == "Demo archive is too large."@)
    &&& bytes.len() <= limits.max_archive_size ==> match zip_listing(bytes) {
        Err(m) => r matches Err(GameError::InvalidDemo(e)) && e@ == m,
        Ok(l) => match listing_failure(l, limits) {
            Some(m) => r matches Err(GameError::InvalidDemo(e)) && e@ == m,
            None => exists|es: Seq<ZipEntry>|
                #![trigger zip_entry_views(es)]
                zip_entry_views(es) == listed_entries(l) && plan_matches(
                    r,
                    demo_plan(bytes.len(), es, limits),
                ),
        },
    }
}

/// Plans the extraction of an uploaded demo archive from its bytes: too large,
/// unreadable, empty or overfull archives are refused, and otherwise the plan
/// is the one of its listed entries (a symbolic link recognised by its mode).
pub fn demo_extraction_plan(archive: &[u8], limits: &DemoLimits) -> (r: Result<
    Vec<ExtractItem>,
    GameError,
>)
    ensures
        extraction_outcome(r, archive@, *limits),
{
    if archive.len() as u64 > limits.max_archive_size {
        return Err(GameError::InvalidDemo(msg("Demo archive is too large.")));
    }
    let listing = match read_zip_listing(archive) {
        Ok(l) => l,
        Err(m) => {
            return Err(GameError::InvalidDemo(m));
        },
    };
    let ghost l = listing_view(listing@);
    assert(l.len() == listing@.len());
    if listing.len() == 0 {
        return Err(GameError::InvalidDemo(msg("Demo archive is empty.")));
    }
    if listing.len() > limits.max_files {
        return Err(GameError::InvalidDemo(msg("Demo archive contains too many files.")));
    }
    match first_demo_listing_error(&listing) {
        Some(m) => {
            return Err(GameError::InvalidDemo(m));
        },
        None => {},
    }
    proof {
        lemma_listing_errors_cover_reads(l, 0);
    }
    let (entries, _) = match listed_zip_entries(&listing) {
        Ok(p) => p,
        Err(m) => {
            return Err(GameError::InvalidDemo(m));
        },
    };
    let r = plan_demo_extraction(archive.len() as u64, entries.as_slice(), limits);
    assert(zip_entry_views(entries@) == listed_entries(l) && plan_matches(
        r,
        demo_plan(archive@.len(), entries@, *limits),
    ));
    r
}

/// The bytes of entry `index` of a demo archive; a read error refuses the demo.
pub fn demo_entry_bytes(archive: &[u8], index: usize) -> (r: Result<Vec<u8>, GameError>)
    ensures
        match zip_content(archive@, index as int) {
            Ok(b) => r matches Ok(v) && v@ == b,
            Err(m) => r matches Err(GameError::InvalidDemo(e)) && e@ == m,
        },
{
    match read_zip_entry(archive, index) {
        Ok(v) => Ok(v),
        Err(m) => Err(GameError::InvalidDemo(m)),
    }
}

proof fn lemma_entries_error_by_views(a: Seq<BundleEntry>, b: Seq<BundleEntry>)
    requires
        bundle_entry_views(a) == bundle_entry_views(b),
    ensures
        entries_error(a) == entries_error(b),
    decreases a.len(),
{
    assert(a.len() == bundle_entry_views(a).len());
    assert(b.len() == bundle_entry_views(b).len());
    if a.len() > 0 {
        assert(bundle_entry_views(a)[0] == bundle_entry_views(b)[0]);
        assert(bundle_entry_views(a.drop_first()) =~= bundle_entry_views(a).drop_first());
        assert(bundle_entry_views(b.drop_first()) =~= bundle_entry_views(b).drop_first());
        lemma_entries_error_by_views(a.drop_first(), b.drop_first());
    }
}

/// The bundle check reads an entry only through its view.
pub proof fn lemma_bundle_reads_entry_views(a: Seq<BundleEntry>, b: Seq<BundleEntry>, max_files: usize)
    requires
        bundle_entry_views(a) == bundle_entry_views(b),
    ensures
        bundle_error(a, max_files) == bundle_error(b, max_files),
{
    assert(a.len() == bundle_entry_views(a).len());
    assert(b.len() == bundle_entry_views(b).len());
    lemma_entries_error_by_views(a, b);
    assert forall|i: int| 0 <= i < a.len() implies (#[trigger] a[i]).name@ == b[i].name@ by {
        assert(bundle_entry_views(a)[i] == bundle_entry_views(b)[i]);
    }
    if exists|i: int| 0 <= i < b.len() && (#[trigger] b[i]).name@ == manifest_name() {
        let i = choose|i: int| 0 <= i < b.len() && (#[trigger] b[i]).name@ == manifest_name();
        assert(a[i].name@ == manifest_name());
    }
}

/// The outcome of checking a finished js-dos bundle from its bytes.
pub open spec fn bundle_bytes_outcome(r: Result<(u64, String), GameError>, bytes: Seq<u8>, m: Option<Seq<char>>) -> bool {
    match m {
        Some(e) => r matches Err(GameError::InvalidDemo(x)) && x@ == e,
        None => r matches Ok((n, h)) && n == bytes.len() && h@ == hex_lower(sha256_of(bytes)),
    }
}

/// Checks a finished js-dos bundle from its bytes, as a zip archive, and gives
/// its size and lowercase hexadecimal SHA-256.
pub fn check_bundle_bytes(bytes: &[u8], max_files: usize) -> (r: Result<(u64, String), GameError>)
    ensures
        match zip_listing(bytes@) {
            Err(m) => r matches Err(GameError::InvalidDemo(e)) && e@ == "Invalid js-dos bundle: "@ + m,
            Ok(l) => if l.len() == 0 || l.len() > max_files {
                r matches Err(GameError::InvalidDemo(e)) && e@ == "Invalid js-dos bundle file count."@
            } else {
                match bundle_listing_error(l, 0) {
                    Some(m) => r matches Err(GameError::InvalidDemo(e)) && e@ == m,
                    None => exists|bs: Seq<BundleEntry>|
                        #![trigger bundle_entry_views(bs)]
                        bundle_entry_views(bs) == listed_bundle_entries(l) && bundle_bytes_outcome(
                            r,
                            bytes@,
                            bundle_error(bs, max_files),
                        ),
                }
            },
        },
{
    let listing = match read_zip_listing(bytes) {
        Ok(l) => l,
        Err(m) => {
            return Err(GameError::InvalidDemo(msg2("Invalid js-dos bundle: ", m.as_str())));
        },
    };
    let ghost l = listing_view(listing@);
    assert(l.len() == listing@.len());
    if listing.len() == 0 || listing.len() > max_files {
        return Err(GameError::InvalidDemo(msg("Invalid js-dos bundle file count.")));
    }
    match first_bundle_listing_error(&listing) {
        Some(m) => {
            return Err(GameError::InvalidDemo(m));
        },
        None => {},
    }
    proof {
        lemma_listing_errors_cover_reads(l, 0);
    }
    let (_, bundle) = match listed_zip_entries(&listing) {
        Ok(p) => p,
        Err(m) => {
            return Err(GameError::InvalidDemo(m));
        },
    };
    let checked = check_bundle_entries(bundle.as_slice(), max_files);
    let r = match checked {
        Err(e) => Err(e),
        Ok(()) => Ok((bytes.len() as u64, sha256_hex(bytes))),
    };
    assert(bundle_entry_views(bundle@) == listed_bundle_entries(l) && bundle_bytes_outcome(
        r,
        bytes@,
        bundle_error(bundle@, max_files),
    ));
    r
}

/// `demo_extraction_plan` for a project's demo: the same plan, its refusal
/// reported as the project's error.
pub fn project_extraction_plan(archive: &[u8], limits: &DemoLimits) -> (r: Result<
    Vec<ExtractItem>,
    ProjectError,
>)
    ensures
        exists|g: Result<Vec<ExtractItem>, GameError>|
            #![trigger extraction_outcome(g, archive@, *limits)]
            extraction_outcome(g, archive@, *limits) && match g {
                Ok(v) => r matches Ok(w) && w@ == v@,
                Err(e) => r matches Err(x) && x == as_project_error(e),
            },
{
    let g = demo_extraction_plan(archive, limits);
    let ghost gg = g;
    assert(extraction_outcome(gg, archive@, *limits));
    match g {
        Ok(v) => Ok(v),
        Err(e) => Err(project_error_from(e)),
    }
}

/// The bytes of entry `index` of a project's demo archive; a read error
/// refuses the demo.
pub fn project_entry_bytes(archive: &[u8], index: usize) -> (r: Result<Vec<u8>, ProjectError>)
    ensures
        match zip_content(archive@, index as int) {
            Ok(b) => r matches Ok(v) && v@ == b,
            Err(m) => r matches Err(ProjectError::InvalidDemo(e)) && e@ == m,
        },
{
    match demo_entry_bytes(archive, index) {
        Ok(v) => Ok(v),
        Err(e) => Err(project_error_from(e)),
    }
}

/// A listed entry a demo archive cannot have: one that could not be read,
/// or a file (not a directory) that is a symbolic link or whose path is not
/// safe.
pub open spec fn bad_listed_entry(t: Result<(Seq<char>, Option<Seq<char>>, bool, Option<u32>, u64), Seq<char>>) -> bool {
    match t {
        Err(_) => true,
        Ok(e) => !e.2 && (is_symlink_mode(e.3) || e.1 is None || normalized_zip(e.1->Some_0) is None),
    }
}

/// A listed entry a js-dos bundle cannot have: one that could not be read,
/// one whose path leaves the archive, or a symbolic link.
pub open spec fn bad_bundle_entry(t: Result<(Seq<char>, Option<Seq<char>>, bool, Option<u32>, u64), Seq<char>>) -> bool {
    match t {
        Err(_) => true,
        Ok(e) => e.1 is None || is_symlink_mode(e.3),
    }
}

proof fn lemma_listing_errors_from(
    l: Seq<Result<(Seq<char>, Option<Seq<char>>, bool, Option<u32>, u64), Seq<char>>>,
    i: int,
)
    requires
        0 <= i,
    ensures
        demo_listing_error(l, i) is None <==> forall|j: int|
            i <= j < l.len() ==> !bad_listed_entry(#[trigger] l[j]),
        bundle_listing_error(l, i) is None <==> forall|j: int|
            i <= j < l.len() ==> !bad_bundle_entry(#[trigger] l[j]),
    decreases l.len() - i,
{
    if i < l.len() {
        lemma_listing_errors_from(l, i + 1);
    }
}

/// Every entry of an uploaded archive is looked at, wherever it stands: one
/// unreadable entry, or one file that is a symbolic link or has an unsafe
/// path, refuses a demo archive; one unreadable entry, path leaving the
/// archive or symbolic link refuses a js-dos bundle; and an archive with none
/// passes these checks.
pub proof fn law_every_listed_entry_is_checked(
    l: Seq<Result<(Seq<char>, Option<Seq<char>>, bool, Option<u32>, u64), Seq<char>>>,
    lim: DemoLimits,
)
    ensures
        (exists|j: int| 0 <= j < l.len() && bad_listed_entry(#[trigger] l[j])) ==> listing_failure(
            l,
            lim,
        ) is Some,
        0 < l.len() <= lim.max_files && (forall|j: int| 0 <= j < l.len() ==> !bad_listed_entry(
            #[trigger] l[j],
        )) ==> listing_failure(l, lim) is None,
        (exists|j: int| 0 <= j < l.len() && bad_bundle_entry(#[trigger] l[j])) ==> bundle_listing_error(
            l,
            0,
        ) is Some,
        (forall|j: int| 0 <= j < l.len() ==> !bad_bundle_entry(#[trigger] l[j])) ==> bundle_listing_error(
            l,
            0,
        ) is None,
{
    lemma_listing_errors_from(l, 0);
}

} // verus!
