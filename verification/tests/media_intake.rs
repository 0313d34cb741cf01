use blog_handlers::errors::MediaError;
use blog_handlers::media_intake::{
    admit_media_field, check_media_complete, classify_media_field, new_media_intake, MediaField,
};

fn failed(r: Result<(), MediaError>) -> String {
    match r {
        Err(MediaError::UploadFailed(m)) => m,
        other => panic!("{other:?}"),
    }
}

#[test]
fn media_fields_are_named() {
    assert!(matches!(classify_media_field("short_name"), MediaField::ShortName));
    assert!(matches!(classify_media_field("description"), MediaField::Description));
    assert!(matches!(classify_media_field("file"), MediaField::File));
    assert!(matches!(classify_media_field("cover"), MediaField::Unknown));
}

#[test]
fn a_medium_upload_needs_its_three_fields_once() {
    let mut intake = new_media_intake();
    assert_eq!(failed(check_media_complete(&intake)), "Missing short_name");
    admit_media_field(&mut intake, &MediaField::ShortName).unwrap();
    assert_eq!(failed(check_media_complete(&intake)), "Missing description");
    admit_media_field(&mut intake, &MediaField::Description).unwrap();
    assert_eq!(failed(check_media_complete(&intake)), "Missing file");
    admit_media_field(&mut intake, &MediaField::File).unwrap();
    assert!(check_media_complete(&intake).is_ok());
    assert_eq!(failed(admit_media_field(&mut intake, &MediaField::File)), "Only one media is allowed at a time.");
    assert_eq!(failed(admit_media_field(&mut intake, &MediaField::Unknown)), "Unknown field detected.");
}
