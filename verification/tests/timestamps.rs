use blog_handlers::handlers::game::game_response;
use blog_handlers::domain::{Game, GameDemo};
use blog_handlers::timestamps::{normalize_optional_utc_timestamp, normalize_utc_timestamp};

#[test]
fn store_timestamps_become_rfc3339_utc() {
    assert_eq!(normalize_utc_timestamp("2024-03-05 10:20:30".to_string()), "2024-03-05T10:20:30Z");
    assert_eq!(normalize_utc_timestamp("2024-03-05T10:20:30Z".to_string()), "2024-03-05T10:20:30Z");
    assert_eq!(normalize_utc_timestamp("2024-03-05 10:20".to_string()), "2024-03-05 10:20");
    assert_eq!(normalize_utc_timestamp("2024/03/05 10:20:30".to_string()), "2024/03/05 10:20:30");
    assert_eq!(normalize_optional_utc_timestamp(None), None);
}

#[test]
fn game_pages_carry_utc_timestamps() {
    let game = Game {
        id: 1, post_id: 2, title: "t".to_string(), slug: "s".to_string(), tags: vec![],
        author_name: "a".to_string(), author_slug: "a".to_string(), author_avatar_url: None,
        excerpt: String::new(), content: String::new(), medium_urls: vec![], medium_short_names: vec![],
        cover_url: None, cover_media_type: None, og_image_url: None, cover_video_url: None,
        cover_video_type: None, og_image_seconds: 0,
        published_at: Some("2024-03-05 10:20:30".to_string()), updated_at: None,
        demo: GameDemo { launcher_type: "html5".to_string(), demo_url: None, width: None, height: None, jsdos_bundle: None },
        instruction: String::new(), cheatcode: String::new(), story: String::new(), related_games: vec![], is_owner: false,
    };
    let r = game_response(game);
    assert_eq!(r.published_at.as_deref(), Some("2024-03-05T10:20:30Z"));
    assert_eq!(r.updated_at, None);
}
