//! Intake of multipart create/update requests: what each field name means,
//! which repetitions are refused, and whether every announced inline file
//! arrived with its short name.
use vstd::prelude::*;
use crate::errors::{GameError, PostError, ProjectError, msg, msg2, msg3};
use crate::numbers::{decimal, format_u64, parse_unsigned, parse_usize};
use crate::text::{chars_of, has_prefix, slice_chars, str_eq, string_from};

verus! {

/// What a multipart field carries, judged by its name.
#[derive(Debug)]
pub enum FieldKind {
    /// The JSON document describing the item.
    Data,
    DemoZip,
    /// `file_<n>`: inline medium number `n`.
    File(usize),
    /// `short_name_<n>`: the short name of inline medium number `n`.
    ShortName(usize),
    BadFileIndex,
    BadShortNameIndex,
    Other,
}

pub open spec fn file_prefix() -> Seq<char> {
    "file_"@
}

pub open spec fn short_name_prefix() -> Seq<char> {
    "short_name_"@
}

pub open spec fn field_kind(name: Seq<char>, data_field: Seq<char>) -> FieldKind {
    if name == data_field {
        FieldKind::Data
    } else if name == "demo_zip"@ {
        FieldKind::DemoZip
    } else if has_prefix(name, file_prefix()) {
        match parse_unsigned(name.skip(5), usize::MAX as nat) {
            Some(n) => FieldKind::File(n as usize),
            None => FieldKind::BadFileIndex,
        }
    } else if has_prefix(name, short_name_prefix()) {
        match parse_unsigned(name.skip(11), usize::MAX as nat) {
            Some(n) => FieldKind::ShortName(n as usize),
            None => FieldKind::BadShortNameIndex,
        }
    } else {
        FieldKind::Other
    }
}

pub fn classify_field(name: &str, data_field: &str) -> (r: FieldKind)
    ensures
        r == field_kind(name@, data_field@),
{
    if str_eq(name, data_field) {
        return FieldKind::Data;
    }
    if str_eq(name, "demo_zip") {
        return FieldKind::DemoZip;
    }
    let n = chars_of(name);
    let fp = chars_of("file_");
    let sp = chars_of("short_name_");
    proof {
        reveal_strlit("file_");
        reveal_strlit("short_name_");
    }
    if crate::text::starts_with(n.as_slice(), fp.as_slice()) {
        let rest = slice_chars(n.as_slice(), 5, n.len());
        assert(rest@ == name@.skip(5));
        return match parse_usize(rest.as_slice()) {
            Some(i) => FieldKind::File(i),
            None => FieldKind::BadFileIndex,
        };
    }
    if crate::text::starts_with(n.as_slice(), sp.as_slice()) {
        let rest = slice_chars(n.as_slice(), 11, n.len());
        assert(rest@ == name@.skip(11));
        return match parse_usize(rest.as_slice()) {
            Some(i) => FieldKind::ShortName(i),
            None => FieldKind::BadShortNameIndex,
        };
    }
    FieldKind::Other
}

/// What the intake of a request has seen so far.
pub struct Intake {
    pub has_data: bool,
    pub has_demo_zip: bool,
    pub file_indices: Vec<usize>,
    pub short_name_indices: Vec<usize>,
}

pub fn new_intake() -> (r: Intake)
    ensures
        !r.has_data,
        !r.has_demo_zip,
        r.file_indices@ == Seq::<usize>::empty(),
        r.short_name_indices@ == Seq::<usize>::empty(),
{
    Intake {
        has_data: false,
        has_demo_zip: false,
        file_indices: Vec::new(),
        short_name_indices: Vec::new(),
    }
}

/// Why a field is refused given what came before, if it is.
pub open spec fn admit_error(it: Intake, k: FieldKind) -> Option<Seq<char>> {
    match k {
        FieldKind::DemoZip => if it.has_demo_zip {
            Some("Only one demo zip is allowed."@)
        } else {
            None
        },
        FieldKind::File(i) => if it.file_indices@.contains(i) {
            Some("Duplicate file index "@ + decimal(i as nat))
        } else {
            None
        },
        FieldKind::BadFileIndex => Some("Invalid file index"@),
        FieldKind::BadShortNameIndex => Some("Invalid short name index"@),
        _ => None,
    }
}

fn contains_index(v: &Vec<usize>, x: usize) -> (r: bool)
    ensures
        r == v@.contains(x),
{
    let mut i: usize = 0;
    while i < v.len()
        invariant
            i <= v@.len(),
            forall|j: int| 0 <= j < i ==> v@[j] != x,
        decreases v@.len() - i,
    {
        if v[i] == x {
            assert(v@[i as int] == x);
            return true;
        }
        i = i + 1;
    }
    false
}

/// Admits one field into the intake, or refuses it: a second demo zip, a
/// repeated file index, or an index that is not a number.
pub fn admit_field(intake: &mut Intake, kind: &FieldKind) -> (r: Result<(), GameError>)
    ensures
        match admit_error(*old(intake), *kind) {
            Some(m) => r matches Err(GameError::UploadFailed(e)) && e@ == m && *final(intake)
                == *old(intake),
            None => r is Ok && final(intake).has_data == (old(intake).has_data || *kind is Data)
                && final(intake).has_demo_zip == (old(intake).has_demo_zip || *kind is DemoZip)
                && final(intake).file_indices@ == (match *kind {
                FieldKind::File(i) => old(intake).file_indices@.push(i),
                _ => old(intake).file_indices@,
            }) && final(intake).short_name_indices@ == (match *kind {
                FieldKind::ShortName(i) => old(intake).short_name_indices@.push(i),
                _ => old(intake).short_name_indices@,
            }),
        },
{
    match kind {
        FieldKind::Data => {
            intake.has_data = true;
            Ok(())
        },
        FieldKind::DemoZip => {
            if intake.has_demo_zip {
                return Err(GameError::UploadFailed(msg("Only one demo zip is allowed.")));
            }
            intake.has_demo_zip = true;
            Ok(())
        },
        FieldKind::File(i) => {
            if contains_index(&intake.file_indices, *i) {
                let d = format_u64(*i as u64);
                let ds = string_from(d.as_slice());
                return Err(GameError::UploadFailed(msg2("Duplicate file index ", ds.as_str())));
            }
            intake.file_indices.push(*i);
            Ok(())
        },
        FieldKind::ShortName(i) => {
            intake.short_name_indices.push(*i);
            Ok(())
        },
        FieldKind::BadFileIndex => Err(GameError::UploadFailed(msg("Invalid file index"))),
        FieldKind::BadShortNameIndex => Err(
            GameError::UploadFailed(msg("Invalid short name index")),
        ),
        FieldKind::Other => Ok(()),
    }
}

/// The first inline medium among `1..=n` whose file or short name is missing:
/// the file is looked for first.
pub open spec fn missing_inline(files: Seq<usize>, names: Seq<usize>, i: int, n: int) -> Option<(int, bool)>
    decreases n + 1 - i,
{
    if i > n || i < 1 {
        None
    } else if !files.contains(i as usize) {
        Some((i, true))
    } else if !names.contains(i as usize) {
        Some((i, false))
    } else {
        missing_inline(files, names, i + 1, n)
    }
}

/// The first inline medium among `1..=number_of_files` whose file (`true`) or
/// short name (`false`) has not arrived.
pub fn first_missing_inline(intake: &Intake, number_of_files: usize) -> (r: Option<(usize, bool)>)
    ensures
        match missing_inline(
            intake.file_indices@,
            intake.short_name_indices@,
            1,
            number_of_files as int,
        ) {
            None => r is None,
            Some((i, f)) => 1 <= i <= number_of_files && r == Some((i as usize, f)),
        },
{
    proof {
        lemma_missing_inline_bounds(intake.file_indices@, intake.short_name_indices@, 1, number_of_files as int);
    }
    let mut i: usize = 1;
    while i <= number_of_files
        invariant
            1 <= i,
            i <= number_of_files + 1,
            missing_inline(intake.file_indices@, intake.short_name_indices@, 1, number_of_files as int)
                == missing_inline(
                intake.file_indices@,
                intake.short_name_indices@,
                i as int,
                number_of_files as int,
            ),
        decreases number_of_files + 1 - i,
    {
        if !contains_index(&intake.file_indices, i) {
            return Some((i, true));
        }
        if !contains_index(&intake.short_name_indices, i) {
            return Some((i, false));
        }
        if i == number_of_files {
            assert(missing_inline(
                intake.file_indices@,
                intake.short_name_indices@,
                i + 1,
                number_of_files as int,
            ) is None);
            return None;
        }
        i = i + 1;
    }
    None
}

proof fn lemma_missing_inline_bounds(files: Seq<usize>, names: Seq<usize>, i: int, n: int)
    ensures
        missing_inline(files, names, i, n) matches Some((k, f)) ==> i <= k <= n,
    decreases n + 1 - i,
{
    if i <= n && i >= 1 && files.contains(i as usize) && names.contains(i as usize) {
        lemma_missing_inline_bounds(files, names, i + 1, n);
    }
}

/// The complaint about a missing inline medium.
fn missing_inline_message(i: usize, file: bool) -> (r: String)
    ensures
        r@ == (if file { "Cannot locate file_"@ } else { "Cannot locate short_name_"@ }) + decimal(
            i as nat,
        ),
{
    let d = format_u64(i as u64);
    let ds = string_from(d.as_slice());
    if file {
        msg2("Cannot locate file_", ds.as_str())
    } else {
        msg2("Cannot locate short_name_", ds.as_str())
    }
}

/// Every inline medium `1..=number_of_files` must have arrived as `file_<i>`
/// with a `short_name_<i>`.
pub fn check_inline_media(intake: &Intake, number_of_files: usize) -> (r: Result<(), GameError>)
    ensures
        match missing_inline(
            intake.file_indices@,
            intake.short_name_indices@,
            1,
            number_of_files as int,
        ) {
            None => r is Ok,
            Some((i, true)) => r matches Err(GameError::UploadFailed(e)) && e@ == "Cannot locate file_"@
                + decimal(i as nat),
            Some((i, false)) => r matches Err(GameError::UploadFailed(e)) && e@
                == "Cannot locate short_name_"@ + decimal(i as nat),
        },
{
    match first_missing_inline(intake, number_of_files) {
        None => Ok(()),
        Some((i, file)) => Err(GameError::UploadFailed(missing_inline_message(i, file))),
    }
}

/// The post flavour of `check_inline_media`.
pub fn check_post_inline_media(intake: &Intake, number_of_files: usize) -> (r: Result<(), PostError>)
    ensures
        match missing_inline(
            intake.file_indices@,
            intake.short_name_indices@,
            1,
            number_of_files as int,
        ) {
            None => r is Ok,
            Some((i, true)) => r matches Err(PostError::UploadFailed(e)) && e@ == "Cannot locate file_"@
                + decimal(i as nat),
            Some((i, false)) => r matches Err(PostError::UploadFailed(e)) && e@
                == "Cannot locate short_name_"@ + decimal(i as nat),
        },
{
    match first_missing_inline(intake, number_of_files) {
        None => Ok(()),
        Some((i, file)) => Err(PostError::UploadFailed(missing_inline_message(i, file))),
    }
}

/// Why a post's multipart field is refused given what came before, if it is.
/// A post takes no demo zip: such a field is ignored like any other.
pub open spec fn post_admit_error(it: Intake, k: FieldKind) -> Option<Seq<char>> {
    match k {
        FieldKind::File(i) => if it.file_indices@.contains(i) {
            Some("Duplicate file index "@ + decimal(i as nat))
        } else {
            None
        },
        FieldKind::ShortName(i) => if it.short_name_indices@.contains(i) {
            Some("Duplicated short name indices found ("@ + decimal(i as nat) + ")."@)
        } else {
            None
        },
        FieldKind::BadFileIndex => Some("Invalid file index"@),
        FieldKind::BadShortNameIndex => Some("Cannot extract file index."@),
        _ => None,
    }
}

/// Admits one field of a post's multipart request, or refuses it: a repeated
/// file or short-name index, or an index that is not a number.
pub fn admit_post_field(intake: &mut Intake, kind: &FieldKind) -> (r: Result<(), PostError>)
    ensures
        match post_admit_error(*old(intake), *kind) {
            Some(m) => r matches Err(PostError::UploadFailed(e)) && e@ == m && *final(intake)
                == *old(intake),
            None => r is Ok && final(intake).has_data == (old(intake).has_data || *kind is Data)
                && final(intake).has_demo_zip == old(intake).has_demo_zip
                && final(intake).file_indices@ == (match *kind {
                FieldKind::File(i) => old(intake).file_indices@.push(i),
                _ => old(intake).file_indices@,
            }) && final(intake).short_name_indices@ == (match *kind {
                FieldKind::ShortName(i) => old(intake).short_name_indices@.push(i),
                _ => old(intake).short_name_indices@,
            }),
        },
{
    match kind {
        FieldKind::Data => {
            intake.has_data = true;
            Ok(())
        },
        FieldKind::File(i) => {
            if contains_index(&intake.file_indices, *i) {
                let d = format_u64(*i as u64);
                let ds = string_from(d.as_slice());
                return Err(PostError::UploadFailed(msg2("Duplicate file index ", ds.as_str())));
            }
            intake.file_indices.push(*i);
            Ok(())
        },
        FieldKind::ShortName(i) => {
            if contains_index(&intake.short_name_indices, *i) {
                let d = format_u64(*i as u64);
                let ds = string_from(d.as_slice());
                return Err(
                    PostError::UploadFailed(
                        crate::errors::msg3("Duplicated short name indices found (", ds.as_str(), ")."),
                    ),
                );
            }
            intake.short_name_indices.push(*i);
            Ok(())
        },
        FieldKind::BadFileIndex => Err(PostError::UploadFailed(msg("Invalid file index"))),
        FieldKind::BadShortNameIndex => Err(PostError::UploadFailed(msg("Cannot extract file index."))),
        _ => Ok(()),
    }
}

/// Without the item's JSON document the request is refused.
pub fn check_data_given(intake: &Intake, message: &str) -> (r: Result<(), GameError>)
    ensures
        intake.has_data ==> r is Ok,
        !intake.has_data ==> (r matches Err(GameError::UploadFailed(e)) && e@ == message@),
{
    if intake.has_data {
        Ok(())
    } else {
        Err(GameError::UploadFailed(msg(message)))
    }
}

/// How the intake changes when it admits a field of kind `k`; `zip_counts`
/// tells whether the request takes a demo zip at all.
pub open spec fn admitted(before: Intake, after: Intake, k: FieldKind, zip_counts: bool) -> bool {
    &&& after.has_data == (before.has_data || k is Data)
    &&& after.has_demo_zip == (before.has_demo_zip || (zip_counts && k is DemoZip))
    &&& after.file_indices@ == match k {
        FieldKind::File(i) => before.file_indices@.push(i),
        _ => before.file_indices@,
    }
    &&& after.short_name_indices@ == match k {
        FieldKind::ShortName(i) => before.short_name_indices@.push(i),
        _ => before.short_name_indices@,
    }
}

/// Why the head of an inline file field is refused, if it is: it must name
/// the file and give its content type.
pub open spec fn file_head_error(
    k: FieldKind,
    file_name: Option<String>,
    content_type: Option<String>,
) -> Option<Seq<char>> {
    if k is File {
        match file_name {
            None => Some("Cannot read file name."@),
            Some(f) => if content_type is None {
                Some("Cannot read content type of "@ + f@ + "."@)
            } else {
                None
            },
        }
    } else {
        None
    }
}

fn file_head_check(kind: &FieldKind, file_name: &Option<String>, content_type: &Option<String>) -> (r:
    Option<String>)
    ensures
        match file_head_error(*kind, *file_name, *content_type) {
            None => r is None,
            Some(m) => r is Some && r->Some_0@ == m,
        },
{
    match kind {
        FieldKind::File(_) => match file_name {
            None => Some(msg("Cannot read file name.")),
            Some(f) => if content_type.is_none() {
                Some(msg3("Cannot read content type of ", f.as_str(), "."))
            } else {
                None
            },
        },
        _ => None,
    }
}

/// Admits the head of one field of a game or project request: its name, and
/// for an inline file its file name and content type. A field without a name,
/// a field `admit_field` refuses, and an inline file without a file name or
/// content type refuse the request, in that order; else the field's kind
/// tells the caller what to read.
pub fn admit_field_head(
    intake: &mut Intake,
    name: &Option<String>,
    file_name: &Option<String>,
    content_type: &Option<String>,
    data_field: &str,
) -> (r: Result<FieldKind, GameError>)
    ensures
        name is None ==> (r matches Err(GameError::UploadFailed(m)) && m@ == "Empty field found."@),
        name is Some ==> ({
            let k = field_kind(name->Some_0@, data_field@);
            &&& admit_error(*old(intake), k) is Some ==> (r matches Err(GameError::UploadFailed(m))
                && m@ == admit_error(*old(intake), k)->Some_0)
            &&& admit_error(*old(intake), k) is None && file_head_error(k, *file_name, *content_type)
                is Some ==> (r matches Err(GameError::UploadFailed(m)) && m@ == file_head_error(
                k,
                *file_name,
                *content_type,
            )->Some_0)
            &&& admit_error(*old(intake), k) is None && file_head_error(k, *file_name, *content_type)
                is None ==> (r matches Ok(x) && x == k && admitted(*old(intake), *final(intake), k, true))
        }),
{
    let n = match name {
        Some(n) => n,
        None => {
            return Err(GameError::UploadFailed(msg("Empty field found.")));
        },
    };
    let kind = classify_field(n.as_str(), data_field);
    admit_field(intake, &kind)?;
    match file_head_check(&kind, file_name, content_type) {
        Some(m) => Err(GameError::UploadFailed(m)),
        None => Ok(kind),
    }
}

/// The post flavour of `admit_field_head`; a post's document is `post_data`.
pub fn admit_post_field_head(
    intake: &mut Intake,
    name: &Option<String>,
    file_name: &Option<String>,
    content_type: &Option<String>,
) -> (r: Result<FieldKind, PostError>)
    ensures
        name is None ==> (r matches Err(PostError::UploadFailed(m)) && m@ == "Empty field found."@),
        name is Some ==> ({
            let k = field_kind(name->Some_0@, "post_data"@);
            &&& post_admit_error(*old(intake), k) is Some ==> (r matches Err(PostError::UploadFailed(m))
                && m@ == post_admit_error(*old(intake), k)->Some_0)
            &&& post_admit_error(*old(intake), k) is None && file_head_error(
                k,
                *file_name,
                *content_type,
            ) is Some ==> (r matches Err(PostError::UploadFailed(m)) && m@ == file_head_error(
                k,
                *file_name,
                *content_type,
            )->Some_0)
            &&& post_admit_error(*old(intake), k) is None && file_head_error(
                k,
                *file_name,
                *content_type,
            ) is None ==> (r matches Ok(x) && x == k && admitted(*old(intake), *final(intake), k, false))
        }),
{
    let n = match name {
        Some(n) => n,
        None => {
            return Err(PostError::UploadFailed(msg("Empty field found.")));
        },
    };
    let kind = classify_field(n.as_str(), "post_data");
    admit_post_field(intake, &kind)?;
    match file_head_check(&kind, file_name, content_type) {
        Some(m) => Err(PostError::UploadFailed(m)),
        None => Ok(kind),
    }
}

/// A game request is refused when its `game_data` never arrived.
pub fn game_data_given(intake: &Intake) -> (r: Result<(), GameError>)
    ensures
        intake.has_data ==> r is Ok,
        !intake.has_data ==> (r matches Err(GameError::UploadFailed(e)) && e@
            == "No game data is given."@),
{
    check_data_given(intake, "No game data is given.")
}

/// A project request is refused when its `project_data` never arrived.
pub fn project_data_given(intake: &Intake) -> (r: Result<(), ProjectError>)
    ensures
        intake.has_data ==> r is Ok,
        !intake.has_data ==> (r matches Err(ProjectError::UploadFailed(e)) && e@
            == "No project data is given."@),
{
    if intake.has_data {
        Ok(())
    } else {
        Err(ProjectError::UploadFailed(msg("No project data is given.")))
    }
}

/// A game or project request takes each inline file index once and one
/// demo zip: the first `file_<i>` and the first zip are admitted, a repeated
/// index or a second zip is refused; the item's document and short names are
/// always admitted. A post's request refuses a repeated short-name index too.
pub proof fn law_repeats_are_refused(it: Intake, i: usize)
    ensures
        !it.file_indices@.contains(i) ==> admit_error(it, FieldKind::File(i)) is None,
        it.file_indices@.contains(i) ==> admit_error(it, FieldKind::File(i)) is Some,
        !it.has_demo_zip ==> admit_error(it, FieldKind::DemoZip) is None,
        it.has_demo_zip ==> admit_error(it, FieldKind::DemoZip) is Some,
        admit_error(it, FieldKind::Data) is None,
        admit_error(it, FieldKind::ShortName(i)) is None,
        admit_error(it, FieldKind::BadFileIndex) is Some,
        it.short_name_indices@.contains(i) ==> post_admit_error(it, FieldKind::ShortName(i)) is Some,
        !it.short_name_indices@.contains(i) ==> post_admit_error(it, FieldKind::ShortName(i)) is None,
        it.file_indices@.contains(i) ==> post_admit_error(it, FieldKind::File(i)) is Some,
{
}

} // verus!
