use blog_handlers::audiobooks::{add_track_request, track_field, TrackField};
use blog_handlers::errors::{AudiobookError, GameError, MediaError, PostError, ProjectError};
use blog_handlers::multipart::{
    admit_field_head, admit_post_field_head, game_data_given, new_intake, project_data_given, FieldKind,
};
use blog_handlers::syncing::sync_key_expiry;

fn s(x: &str) -> Option<String> {
    Some(x.to_string())
}

fn upload_failed<T: std::fmt::Debug>(r: Result<T, GameError>) -> String {
    match r {
        Err(GameError::UploadFailed(m)) => m,
        other => panic!("{other:?}"),
    }
}

#[test]
fn field_heads_of_a_game_request() {
    let mut it = new_intake();
    assert_eq!(upload_failed(admit_field_head(&mut it, &None, &None, &None, "game_data")), "Empty field found.");
    let k = admit_field_head(&mut it, &s("file_1"), &s("a.png"), &s("image/png"), "game_data").unwrap();
    assert!(matches!(k, FieldKind::File(1)));
    assert_eq!(
        upload_failed(admit_field_head(&mut it, &s("file_1"), &s("b.png"), &s("image/png"), "game_data")),
        "Duplicate file index 1"
    );
    assert_eq!(
        upload_failed(admit_field_head(&mut it, &s("file_2"), &None, &s("image/png"), "game_data")),
        "Cannot read file name."
    );
    assert_eq!(
        upload_failed(admit_field_head(&mut it, &s("file_3"), &s("c.png"), &None, "game_data")),
        "Cannot read content type of c.png."
    );
    assert_eq!(upload_failed(game_data_given(&new_intake())), "No game data is given.");
    let k = admit_field_head(&mut it, &s("game_data"), &None, &None, "game_data").unwrap();
    assert!(matches!(k, FieldKind::Data));
    assert!(game_data_given(&it).is_ok());
    let k = admit_field_head(&mut it, &s("demo_zip"), &None, &None, "game_data").unwrap();
    assert!(matches!(k, FieldKind::DemoZip));
    assert_eq!(
        upload_failed(admit_field_head(&mut it, &s("demo_zip"), &None, &None, "game_data")),
        "Only one demo zip is allowed."
    );
    match project_data_given(&new_intake()) {
        Err(ProjectError::UploadFailed(m)) => assert_eq!(m, "No project data is given."),
        other => panic!("{other:?}"),
    }
}

#[test]
fn field_heads_of_a_post_request() {
    let mut it = new_intake();
    match admit_post_field_head(&mut it, &None, &None, &None) {
        Err(PostError::UploadFailed(m)) => assert_eq!(m, "Empty field found."),
        other => panic!("{other:?}"),
    }
    match admit_post_field_head(&mut it, &s("file_1"), &s("a.png"), &None) {
        Err(PostError::UploadFailed(m)) => assert_eq!(m, "Cannot read content type of a.png."),
        other => panic!("{other:?}"),
    }
    assert!(matches!(admit_post_field_head(&mut it, &s("post_data"), &None, &None), Ok(FieldKind::Data)));
}

#[test]
fn a_sync_key_expires_its_ttl_later() {
    assert_eq!(sync_key_expiry(0, 0, None), s("1970-01-02T00:00:00+00:00"));
    assert_eq!(sync_key_expiry(0, 0, Some(0)), s("1970-01-01T01:00:00+00:00"));
    assert_eq!(sync_key_expiry(0, 0, Some(1000)), s("1970-01-08T00:00:00+00:00"));
    assert_eq!(sync_key_expiry(0, 500_000_000, Some(1)), s("1970-01-01T01:00:00.500+00:00"));
}

#[test]
fn track_uploads() {
    assert_eq!(track_field(&s("file")).ok(), Some(TrackField::File));
    assert_eq!(track_field(&s("duration_seconds")).ok(), Some(TrackField::Duration));
    assert_eq!(track_field(&s("misc")).ok(), Some(TrackField::Other));
    match track_field(&None) {
        Err(AudiobookError::Media(MediaError::UploadFailed(m))) => assert_eq!(m, "Empty field detected."),
        other => panic!("{other:?}"),
    }
    match add_track_request(&None, s("t"), None, None, "1", "user") {
        Err(AudiobookError::Media(MediaError::UploadFailed(m))) => assert_eq!(m, "Missing audio file."),
        Err(other) => panic!("{other:?}"),
        Ok(_) => panic!("accepted"),
    }
    let t = add_track_request(&s("ch1.mp3"), s("  "), Some(2), Some(61), "7", "admin").unwrap();
    assert_eq!((t.title.as_str(), t.number, t.duration_seconds, t.user_id, t.is_admin), ("ch1.mp3", Some(2), Some(61), 7, true));
    let t = add_track_request(&s("ch1.mp3"), s(" Intro "), None, None, "7", "user").unwrap();
    assert_eq!((t.title.as_str(), t.is_admin), ("Intro", false));
    match add_track_request(&s("ch1.mp3"), None, None, None, "x", "user") {
        Err(AudiobookError::InternalError(m)) => assert_eq!(m, "Cannot parse id"),
        Err(other) => panic!("{other:?}"),
        Ok(_) => panic!("accepted"),
    }
}
