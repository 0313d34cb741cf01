//! Audiobook uploads: the multipart fields of a new audiobook or track, and
//! how a track's number and title are read from them.
use vstd::prelude::*;
use crate::errors::{AudiobookError, MediaError, msg};
use crate::numbers::{parse_i64, parse_signed64};
use crate::text::{blank, chars_of, is_blank, str_eq, string_from, trim, trimmed};

verus! {

/// A second file field is refused: one audio file per track, one cover per audiobook.
pub fn check_single_file(already_given: bool, is_track: bool) -> (r: Result<(), AudiobookError>)
    ensures
        !already_given ==> r is Ok,
        already_given ==> (r matches Err(AudiobookError::Media(MediaError::UploadFailed(m))) && m@
            == (if is_track {
            "Only one audio file is allowed at a time."@
        } else {
            "Only one cover is allowed at a time."@
        })),
{
    if !already_given {
        Ok(())
    } else if is_track {
        Err(AudiobookError::Media(MediaError::UploadFailed(msg("Only one audio file is allowed at a time."))))
    } else {
        Err(AudiobookError::Media(MediaError::UploadFailed(msg("Only one cover is allowed at a time."))))
    }
}

/// A required text field of a new audiobook, or the validation error naming it.
pub fn require_field(value: Option<String>, missing: &str) -> (r: Result<String, AudiobookError>)
    ensures
        match value {
            Some(v) => r matches Ok(x) && x == v,
            None => r matches Err(AudiobookError::Validation(m)) && m@ == missing@,
        },
{
    match value {
        Some(v) => Ok(v),
        None => Err(AudiobookError::Validation(msg(missing))),
    }
}

/// A track's number or duration field: the trimmed text as an `i64`, or
/// nothing when it is not one.
pub fn parse_track_number(text: &str) -> (r: Option<i64>)
    ensures
        match r {
            Some(v) => parse_signed64(trimmed(text@)) == Some(v as int),
            None => parse_signed64(trimmed(text@)) is None,
        },
{
    let cs = chars_of(text);
    let t = trim(cs.as_slice());
    parse_i64(t.as_slice())
}

/// A track's title as `track_title` gives it.
pub open spec fn title_of(title: Option<String>, filename: Seq<char>) -> Seq<char> {
    match title {
        Some(t) => if blank(t@) {
            filename
        } else {
            trimmed(t@)
        },
        None => filename,
    }
}

/// A track's title: the given one trimmed, or the uploaded file's name when
/// the title is absent or blank, so that no track is nameless.
pub fn track_title(title: Option<String>, filename: &str) -> (r: String)
    ensures
        r@ == title_of(title, filename@),
        r@ == match title {
            Some(t) => if blank(t@) {
                filename@
            } else {
                trimmed(t@)
            },
            None => filename@,
        },
{
    match title {
        Some(t) => {
            let cs = chars_of(t.as_str());
            if is_blank(cs.as_slice()) {
                msg(filename)
            } else {
                let tr = trim(cs.as_slice());
                string_from(tr.as_slice())
            }
        },
        None => msg(filename),
    }
}

/// The fields of a track upload, by name.
#[derive(Debug, Clone, Copy, PartialEq, Eq)]
pub enum TrackField {
    File,
    Title,
    Number,
    Duration,
    Other,
}

/// What a field of a track upload carries; a field without a name refuses
/// the upload.
pub fn track_field(name: &Option<String>) -> (r: Result<TrackField, AudiobookError>)
    ensures
        match name {
            None => r matches Err(AudiobookError::Media(MediaError::UploadFailed(m))) && m@
                == "Empty field detected."@,
            Some(n) => r matches Ok(k) && k == (if n@ == "file"@ {
                TrackField::File
            } else if n@ == "title"@ {
                TrackField::Title
            } else if n@ == "number"@ {
                TrackField::Number
            } else if n@ == "duration_seconds"@ {
                TrackField::Duration
            } else {
                TrackField::Other
            }),
        },
{
    match name {
        None => Err(AudiobookError::Media(MediaError::UploadFailed(msg("Empty field detected.")))),
        Some(n) => {
            let n = n.as_str();
            if str_eq(n, "file") {
                Ok(TrackField::File)
            } else if str_eq(n, "title") {
                Ok(TrackField::Title)
            } else if str_eq(n, "number") {
                Ok(TrackField::Number)
            } else if str_eq(n, "duration_seconds") {
                Ok(TrackField::Duration)
            } else {
                Ok(TrackField::Other)
            }
        },
    }
}

/// What the audiobook service is asked to store for a new track.
pub struct TrackRequest {
    pub user_id: i64,
    pub is_admin: bool,
    pub title: String,
    pub number: Option<i64>,
    pub duration_seconds: Option<i64>,
}

/// The new track the service is asked to store, once the upload's fields are
/// in: without an audio file the upload is refused; the title falls back to
/// the file's name; the caller's id must be a number.
pub fn add_track_request(
    filename: &Option<String>,
    title: Option<String>,
    number: Option<i64>,
    duration_seconds: Option<i64>,
    user_id: &str,
    role: &str,
) -> (r: Result<TrackRequest, AudiobookError>)
    ensures
        filename is None ==> (r matches Err(AudiobookError::Media(MediaError::UploadFailed(m))) && m@
            == "Missing audio file."@),
        filename is Some && parse_signed64(user_id@) is None ==> (r matches Err(
            AudiobookError::InternalError(m),
        ) && m@ == "Cannot parse id"@),
        filename is Some && parse_signed64(user_id@) is Some ==> (r matches Ok(t) && parse_signed64(
            user_id@,
        ) == Some(t.user_id as int) && t.is_admin == (role@ == "admin"@) && t.number == number
            && t.duration_seconds == duration_seconds && t.title@ == match title {
            Some(x) => if blank(x@) {
                filename->Some_0@
            } else {
                trimmed(x@)
            },
            None => filename->Some_0@,
        }),
{
    let f = match filename {
        Some(f) => f,
        None => {
            return Err(AudiobookError::Media(MediaError::UploadFailed(msg("Missing audio file."))));
        },
    };
    let t = track_title(title, f.as_str());
    let u = chars_of(user_id);
    let uid = match parse_i64(u.as_slice()) {
        Some(v) => v,
        None => {
            return Err(AudiobookError::InternalError(msg("Cannot parse id")));
        },
    };
    Ok(
        TrackRequest {
            user_id: uid,
            is_admin: str_eq(role, "admin"),
            title: t,
            number,
            duration_seconds,
        },
    )
}

/// No track is nameless: a title with any non-blank character is used,
/// trimmed (so it is not blank either), and in every other case the uploaded
/// file's name stands in, so a track with a named file always has a name.
pub proof fn law_tracks_are_named(title: Option<String>, filename: Seq<char>)
    ensures
        title is Some && !blank(title->Some_0@) ==> title_of(title, filename) == trimmed(
            title->Some_0@,
        ) && !blank(title_of(title, filename)),
        title is None || blank(title->Some_0@) ==> title_of(title, filename) == filename,
        filename.len() > 0 ==> title_of(title, filename).len() > 0,
{
    if title is Some && !blank(title->Some_0@) {
        crate::text::lemma_trimmed_empty_iff_blank(title->Some_0@);
        crate::text::law_trim_idempotent(title->Some_0@);
        crate::text::lemma_trimmed_empty_iff_blank(trimmed(title->Some_0@));
    }
}

} // verus!
