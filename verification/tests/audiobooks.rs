use blog_handlers::audiobooks::{check_single_file, parse_track_number, require_field, track_title};
use blog_handlers::errors::{AudiobookError, MediaError};

#[test]
fn blank_titles_fall_back_to_the_file_name() {
    assert_eq!(track_title(Some("  Chapter 1 ".to_string()), "ch1.mp3"), "Chapter 1");
    assert_eq!(track_title(Some(" \t".to_string()), "ch1.mp3"), "ch1.mp3");
    assert_eq!(track_title(None, "ch1.mp3"), "ch1.mp3");
}

#[test]
fn track_numbers_are_trimmed_integers() {
    assert_eq!(parse_track_number(" 12 "), Some(12));
    assert_eq!(parse_track_number("-3"), Some(-3));
    assert_eq!(parse_track_number("twelve"), None);
    assert_eq!(parse_track_number(""), None);
}

#[test]
fn one_file_per_upload() {
    assert!(check_single_file(false, true).is_ok());
    match check_single_file(true, true) {
        Err(AudiobookError::Media(MediaError::UploadFailed(m))) => assert_eq!(m, "Only one audio file is allowed at a time."),
        other => panic!("{other:?}"),
    }
    match check_single_file(true, false) {
        Err(AudiobookError::Media(MediaError::UploadFailed(m))) => assert_eq!(m, "Only one cover is allowed at a time."),
        other => panic!("{other:?}"),
    }
}

#[test]
fn required_fields() {
    assert_eq!(require_field(Some("t".to_string()), "Missing title.").unwrap(), "t");
    match require_field(None, "Missing slug.") {
        Err(AudiobookError::Validation(m)) => assert_eq!(m, "Missing slug."),
        other => panic!("{other:?}"),
    }
}
