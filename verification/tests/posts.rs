use blog_handlers::errors::PostError;
use blog_handlers::multipart::{admit_post_field, check_post_inline_media, new_intake, FieldKind};
use blog_handlers::posts::post_update_texts;

fn upload_failed<T: std::fmt::Debug>(r: Result<T, PostError>) -> String {
    match r {
        Err(PostError::UploadFailed(m)) => m,
        other => panic!("{other:?}"),
    }
}

#[test]
fn content_and_draft_share_one_usage_list() {
    let (content, draft, usage) = post_update_texts(
        Some("see @[image:map.png]".to_string()),
        Some("@[image:intro.png] see @[image:map.png]".to_string()),
    )
    .unwrap()
    .unwrap();
    assert_eq!(content, "see @[image:0]");
    assert_eq!(draft, "@[image:1] see @[image:0]");
    assert_eq!(usage, vec!["map.png".to_string(), "intro.png".to_string()]);
}

#[test]
fn content_and_draft_come_together_or_not_at_all() {
    assert!(post_update_texts(None, None).unwrap().is_none());
    assert_eq!(
        upload_failed(post_update_texts(Some("x".to_string()), None)),
        "Content and Draft must both present or both absent."
    );
    assert_eq!(
        upload_failed(post_update_texts(None, Some("x".to_string()))),
        "Content and Draft must both present or both absent."
    );
}

#[test]
fn post_fields_refuse_repeated_indices() {
    let mut intake = new_intake();
    assert!(admit_post_field(&mut intake, &FieldKind::Data).is_ok());
    assert!(admit_post_field(&mut intake, &FieldKind::DemoZip).is_ok());
    assert!(!intake.has_demo_zip);
    assert!(admit_post_field(&mut intake, &FieldKind::File(1)).is_ok());
    assert_eq!(upload_failed(admit_post_field(&mut intake, &FieldKind::File(1))), "Duplicate file index 1");
    assert!(admit_post_field(&mut intake, &FieldKind::ShortName(1)).is_ok());
    assert_eq!(
        upload_failed(admit_post_field(&mut intake, &FieldKind::ShortName(1))),
        "Duplicated short name indices found (1)."
    );
    assert_eq!(upload_failed(admit_post_field(&mut intake, &FieldKind::BadFileIndex)), "Invalid file index");
    assert_eq!(
        upload_failed(admit_post_field(&mut intake, &FieldKind::BadShortNameIndex)),
        "Cannot extract file index."
    );
    assert!(check_post_inline_media(&intake, 1).is_ok());
    assert_eq!(upload_failed(check_post_inline_media(&intake, 2)), "Cannot locate file_2");
}
