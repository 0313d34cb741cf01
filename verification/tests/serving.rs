use blog_handlers::errors::MediaError;
use blog_handlers::serving::{
    media_path_from_link, parse_byte_range, post_thumbnail_fallback_short_name, reroot_path,
    LinkResult,
};
use blog_handlers::serving::{media_answer, MediaAnswer};

#[test]
fn byte_range_with_both_ends() {
    assert_eq!(parse_byte_range("bytes=0-99", 1000), Some((0, 99)));
    assert_eq!(parse_byte_range("bytes=10-10", 1000), Some((10, 10)));
}

#[test]
fn byte_range_open_ended_runs_to_the_last_byte() {
    assert_eq!(parse_byte_range("bytes=500-", 1000), Some((500, 999)));
}

#[test]
fn byte_range_suffix_takes_the_last_bytes() {
    assert_eq!(parse_byte_range("bytes=-200", 1000), Some((800, 999)));
    assert_eq!(parse_byte_range("bytes=-2000", 1000), Some((0, 999)));
}

#[test]
fn byte_range_end_is_clamped_to_the_file() {
    assert_eq!(parse_byte_range("bytes=0-5000", 1000), Some((0, 999)));
}

#[test]
fn byte_range_refuses_unsatisfiable_and_malformed_headers() {
    assert_eq!(parse_byte_range("bytes=1000-", 1000), None);
    assert_eq!(parse_byte_range("bytes=5-3", 1000), None);
    assert_eq!(parse_byte_range("bytes=0-1,5-6", 1000), None);
    assert_eq!(parse_byte_range("items=0-1", 1000), None);
    assert_eq!(parse_byte_range("bytes=abc-", 1000), None);
    assert_eq!(parse_byte_range("bytes=-0", 1000), None);
    assert_eq!(parse_byte_range("bytes=-5", 0), None);
    assert_eq!(parse_byte_range("bytes=", 1000), None);
    assert_eq!(parse_byte_range("bytes=-", 1000), None);
}

#[test]
fn byte_range_lies_within_the_file() {
    for header in ["bytes=0-", "bytes=3-7", "bytes=-4", "bytes=9-100", "bytes=-100"] {
        if let Some((a, b)) = parse_byte_range(header, 10) {
            assert!(a <= b && b < 10, "{header}");
        }
    }
}

#[test]
fn thumbnail_falls_back_to_the_post_cover() {
    assert_eq!(post_thumbnail_fallback_short_name(".post.12.thumbnail"), Some(".post.12".to_string()));
}

#[test]
fn thumbnail_fallback_needs_a_numeric_post_id() {
    assert_eq!(post_thumbnail_fallback_short_name(".post.x1.thumbnail"), None);
    assert_eq!(post_thumbnail_fallback_short_name(".post..thumbnail"), None);
    assert_eq!(post_thumbnail_fallback_short_name(".post.12"), None);
    assert_eq!(post_thumbnail_fallback_short_name("cover.thumbnail"), None);
}

#[test]
fn reroot_keeps_what_follows_the_media_directory() {
    assert_eq!(
        reroot_path("./media/srs/2/abc.webp", "/srv/media").map(|v| v.into_iter().collect::<String>()),
        Some("/srv/media/srs/2/abc.webp".to_string())
    );
    assert_eq!(
        reroot_path("/old/path/to/media/post/11/abc.png", "/data/media")
            .map(|v| v.into_iter().collect::<String>()),
        Some("/data/media/post/11/abc.png".to_string())
    );
}

#[test]
fn reroot_without_the_media_directory_name_fails() {
    assert_eq!(reroot_path("uploads/2/abc.webp", "/srv/media"), None);
    assert_eq!(reroot_path("media/abc.webp", "/"), None);
}

fn link(hash: &str) -> LinkResult {
    LinkResult {
        short_name: "cover".to_string(),
        url: "/media/cover".to_string(),
        hash: hash.to_string(),
        uploader_id: 7,
        file_type: "image".to_string(),
    }
}

#[test]
fn plain_hashes_are_sharded_by_their_first_bytes() {
    match media_path_from_link(&link("abcdef"), ".png", "/m") {
        Ok((path, hash)) => {
            assert_eq!(path, "/m/ab/cd/abcdef.png");
            assert_eq!(hash, "abcdef");
        }
        Err(e) => panic!("{e:?}"),
    }
}

#[test]
fn typed_hashes_live_under_the_uploader() {
    match media_path_from_link(&link(".post.11.deadbeef"), ".webp", "/m") {
        Ok((path, hash)) => {
            assert_eq!(path, "/m/post/7/deadbeef.webp");
            assert_eq!(hash, "deadbeef");
        }
        Err(e) => panic!("{e:?}"),
    }
}

#[test]
fn malformed_typed_hash_is_not_found() {
    assert!(matches!(media_path_from_link(&link(".avatar"), ".png", "/m"), Err(MediaError::FileNotFound)));
    assert!(matches!(media_path_from_link(&link(".avatar.3"), ".png", "/m"), Err(MediaError::FileNotFound)));
}

#[test]
fn satisfiable_ranges_get_a_partial_answer() {
    match media_answer(Some("bytes=10-19"), None, "abc", 100) {
        MediaAnswer::Partial { etag, start, end, length, content_range } => {
            assert_eq!(etag, "\"abc\"");
            assert_eq!((start, end, length), (10, 19, 10));
            assert_eq!(content_range, "bytes 10-19/100");
        }
        MediaAnswer::Full { .. } => panic!("expected a partial answer"),
    }
    assert!(matches!(media_answer(Some("bytes=-5"), Some("\"abc\""), "abc", 100), MediaAnswer::Partial { start: 95, end: 99, length: 5, .. }));
}

#[test]
fn other_requests_get_the_whole_medium() {
    assert!(matches!(media_answer(None, None, "abc", 100), MediaAnswer::Full { etag } if etag == "\"abc\""));
    assert!(matches!(media_answer(Some("bytes=10-19"), Some("\"old\""), "abc", 100), MediaAnswer::Full { .. }));
    assert!(matches!(media_answer(Some("bytes=200-"), None, "abc", 100), MediaAnswer::Full { .. }));
}
