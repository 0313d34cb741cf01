//! Intake of a medium upload: its three fields, each file field at most once,
//! and no field the upload does not know.
use vstd::prelude::*;
use crate::errors::{MediaError, msg};
use crate::text::str_eq;

verus! {

/// What a field of a medium upload carries, judged by its name.
#[derive(Debug)]
pub enum MediaField {
    ShortName,
    Description,
    File,
    Unknown,
}

pub open spec fn media_field_of(name: Seq<char>) -> MediaField {
    if name == "short_name"@ {
        MediaField::ShortName
    } else if name == "description"@ {
        MediaField::Description
    } else if name == "file"@ {
        MediaField::File
    } else {
        MediaField::Unknown
    }
}

pub fn classify_media_field(name: &str) -> (r: MediaField)
    ensures
        r == media_field_of(name@),
{
    if str_eq(name, "short_name") {
        MediaField::ShortName
    } else if str_eq(name, "description") {
        MediaField::Description
    } else if str_eq(name, "file") {
        MediaField::File
    } else {
        MediaField::Unknown
    }
}

/// Which fields of a medium upload have arrived.
pub struct MediaIntake {
    pub has_short_name: bool,
    pub has_description: bool,
    pub has_file: bool,
}

pub fn new_media_intake() -> (r: MediaIntake)
    ensures
        !r.has_short_name && !r.has_description && !r.has_file,
{
    MediaIntake { has_short_name: false, has_description: false, has_file: false }
}

/// Why a field is refused given what came before, if it is.
pub open spec fn media_admit_error(it: MediaIntake, f: MediaField) -> Option<Seq<char>> {
    match f {
        MediaField::File => if it.has_file {
            Some("Only one media is allowed at a time."@)
        } else {
            None
        },
        MediaField::Unknown => Some("Unknown field detected."@),
        _ => None,
    }
}

/// Admits one field, or refuses a second file or an unknown field; a refused
/// field leaves the intake as it was.
pub fn admit_media_field(intake: &mut MediaIntake, field: &MediaField) -> (r: Result<(), MediaError>)
    ensures
        match media_admit_error(*old(intake), *field) {
            Some(m) => r matches Err(MediaError::UploadFailed(e)) && e@ == m && *final(intake)
                == *old(intake),
            None => r is Ok && final(intake).has_short_name == (old(intake).has_short_name
                || *field is ShortName) && final(intake).has_description == (
            old(intake).has_description || *field is Description) && final(intake).has_file == (
            old(intake).has_file || *field is File),
        },
{
    match field {
        MediaField::ShortName => {
            intake.has_short_name = true;
            Ok(())
        },
        MediaField::Description => {
            intake.has_description = true;
            Ok(())
        },
        MediaField::File => {
            if intake.has_file {
                return Err(MediaError::UploadFailed(msg("Only one media is allowed at a time.")));
            }
            intake.has_file = true;
            Ok(())
        },
        MediaField::Unknown => Err(MediaError::UploadFailed(msg("Unknown field detected."))),
    }
}

/// The first missing field of a finished upload, if any.
pub open spec fn media_missing(it: MediaIntake) -> Option<Seq<char>> {
    if !it.has_short_name {
        Some("Missing short_name"@)
    } else if !it.has_description {
        Some("Missing description"@)
    } else if !it.has_file {
        Some("Missing file"@)
    } else {
        None
    }
}

pub fn check_media_complete(intake: &MediaIntake) -> (r: Result<(), MediaError>)
    ensures
        match media_missing(*intake) {
            None => r is Ok,
            Some(m) => r matches Err(MediaError::UploadFailed(e)) && e@ == m,
        },
{
    if !intake.has_short_name {
        return Err(MediaError::UploadFailed(msg("Missing short_name")));
    }
    if !intake.has_description {
        return Err(MediaError::UploadFailed(msg("Missing description")));
    }
    if !intake.has_file {
        return Err(MediaError::UploadFailed(msg("Missing file")));
    }
    Ok(())
}

/// A medium upload takes its short name, description and file, each file at
/// most once and no unknown field, and is complete exactly when all three
/// have come.
pub proof fn law_media_uploads(it: MediaIntake, name: Seq<char>)
    ensures
        media_missing(it) is None <==> it.has_short_name && it.has_description && it.has_file,
        media_admit_error(it, MediaField::File) is Some <==> it.has_file,
        media_admit_error(it, MediaField::ShortName) is None,
        media_admit_error(it, MediaField::Description) is None,
        media_admit_error(it, MediaField::Unknown) is Some,
        name != "short_name"@ && name != "description"@ && name != "file"@ ==> media_field_of(name)
            is Unknown,
        media_field_of("file"@) is File && media_field_of("short_name"@) is ShortName && media_field_of(
            "description"@,
        ) is Description,
{
    reveal_strlit("file");
    reveal_strlit("short_name");
    reveal_strlit("description");
    assert("file"@[0] != "short_name"@[0]);
    assert("file"@[0] != "description"@[0]);
    assert("short_name"@[0] != "description"@[0]);
}

} // verus!
