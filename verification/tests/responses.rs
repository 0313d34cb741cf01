use blog_handlers::digest::sha256_hex;
use blog_handlers::domain::{DelegatedGame, Game, GameDemo, JsDosBundle, Project, ProjectDemo};
use blog_handlers::handlers::auth::LoginResponse;
use blog_handlers::handlers::game::game_response;
use blog_handlers::handlers::project::project_response;
use blog_handlers::domain::{ContentStats, GameSnapshot, PostSnapshot};
use blog_handlers::handlers::game::GameCard;
use blog_handlers::handlers::post::Post;

fn game(launcher: &str, demo_url: Option<&str>, bundle: bool) -> Game {
    Game {
        id: 3,
        post_id: 30,
        title: "Doom".to_string(),
        slug: "doom".to_string(),
        tags: vec!["fps".to_string()],
        author_name: "Ann".to_string(),
        author_slug: "ann".to_string(),
        author_avatar_url: None,
        excerpt: "e".to_string(),
        content: "c".to_string(),
        medium_urls: vec![],
        medium_short_names: vec![],
        cover_url: Some("/c.png".to_string()),
        cover_media_type: Some("image".to_string()),
        og_image_url: None,
        cover_video_url: None,
        cover_video_type: None,
        og_image_seconds: 0,
        published_at: Some("2024-01-01T00:00:00Z".to_string()),
        updated_at: None,
        demo: GameDemo {
            launcher_type: launcher.to_string(),
            demo_url: demo_url.map(|s| s.to_string()),
            width: Some("640".to_string()),
            height: None,
            jsdos_bundle: if bundle {
                Some(JsDosBundle { original_file_name: "doom.jsdos".to_string(), size_bytes: 99 })
            } else {
                None
            },
        },
        instruction: "i".to_string(),
        cheatcode: "iddqd".to_string(),
        story: "s".to_string(),
        related_games: vec![],
        is_owner: true,
    }
}

#[test]
fn external_demo_urls_are_echoed_raw() {
    let r = game_response(game("embed", Some("https://itch.io/x"), false));
    assert_eq!(r.demo_url, "https://itch.io/x");
    assert_eq!(r.raw_demo_url.as_deref(), Some("https://itch.io/x"));
    assert_eq!(r.jsdos_bundle_url, None);
    assert_eq!(r.launcher_type, "embed");
    assert_eq!(r.demo_width.as_deref(), Some("640"));
    assert_eq!(r.cheatcode, "iddqd");
    assert_eq!(r.id, 3);
}

#[test]
fn local_demo_urls_have_no_raw_echo() {
    let r = game_response(game("html5", Some("/demos/game-3/index.html"), false));
    assert_eq!(r.demo_url, "/demos/game-3/index.html");
    assert_eq!(r.raw_demo_url, None);
    let r = game_response(game("html5", None, false));
    assert_eq!(r.demo_url, "");
}

#[test]
fn jsdos_games_play_their_bundle() {
    let r = game_response(game("jsdos", None, true));
    assert_eq!(r.demo_url, "games/s/doom/jsdos");
    assert_eq!(r.jsdos_bundle_url.as_deref(), Some("games/s/doom/jsdos"));
    assert_eq!(r.jsdos_bundle_file_name.as_deref(), Some("doom.jsdos"));
    assert_eq!(r.jsdos_bundle_size_bytes, Some(99));
    let r = game_response(game("html5", Some("/x"), true));
    assert_eq!(r.demo_url, "/x");
    assert_eq!(r.jsdos_bundle_url.as_deref(), Some("games/s/doom/jsdos"));
}

fn project(delegated: Option<DelegatedGame>, demo_url: Option<&str>) -> Project {
    Project {
        id: 8,
        post_id: 80,
        title: "Tool".to_string(),
        slug: "tool".to_string(),
        tags: vec![],
        author_name: "Bo".to_string(),
        author_slug: "bo".to_string(),
        author_avatar_url: None,
        excerpt: "e".to_string(),
        content: "c".to_string(),
        medium_urls: vec![],
        medium_short_names: vec![],
        cover_url: None,
        cover_media_type: None,
        og_image_url: None,
        cover_video_url: None,
        cover_video_type: None,
        og_image_seconds: 4,
        published_at: None,
        updated_at: None,
        demo: ProjectDemo {
            demo_type: "game".to_string(),
            demo_url: demo_url.map(|s| s.to_string()),
            width: None,
            height: None,
            config: Some("{}".to_string()),
        },
        delegate_game_id: Some(3),
        inherit_thumbnail: true,
        inherit_tags: false,
        delegated_game: delegated,
        links: vec![],
        is_owner: false,
    }
}

fn delegated(bundle: bool) -> DelegatedGame {
    DelegatedGame {
        id: 3,
        title: "Doom".to_string(),
        slug: "doom".to_string(),
        launcher_type: "jsdos".to_string(),
        demo_url: Some("/old".to_string()),
        width: None,
        height: None,
        jsdos_bundle: if bundle {
            Some(JsDosBundle { original_file_name: "d.jsdos".to_string(), size_bytes: 1 })
        } else {
            None
        },
    }
}

#[test]
fn projects_show_their_delegated_game() {
    let r = project_response(project(Some(delegated(true)), Some("ftp://x")));
    assert_eq!(r.demo_url, "ftp://x");
    assert_eq!(r.raw_demo_url.as_deref(), Some("ftp://x"));
    let g = r.delegated_game.unwrap();
    assert_eq!(g.demo_url, "games/s/doom/jsdos");
    assert_eq!(g.jsdos_bundle_url.as_deref(), Some("games/s/doom/jsdos"));
    assert_eq!(g.id, 3);
    let r = project_response(project(Some(delegated(false)), None));
    assert_eq!(r.demo_url, "");
    assert_eq!(r.raw_demo_url, None);
    assert_eq!(r.delegated_game.unwrap().demo_url, "/old");
    let r = project_response(project(None, None));
    assert!(r.delegated_game.is_none());
    assert_eq!(r.delegate_game_id, Some(3));
    assert_eq!(r.demo_config.as_deref(), Some("{}"));
}

#[test]
fn login_answers_with_a_bearer_token() {
    let r = LoginResponse::new("tok".to_string());
    assert_eq!(r.token, "tok");
    assert_eq!(r.token_type, "Bearer");
}

#[test]
fn bundle_hashes_are_lowercase_sha256() {
    assert_eq!(sha256_hex(b"abc"), "ba7816bf8f01cfea414140de5dae2223b00361a396177a9cb410ff61f20015ad");
    assert_eq!(sha256_hex(b""), "e3b0c44298fc1c149afbf4c8996fb92427ae41e4649b934ca495991b7852b855");
}

#[test]
fn cards_move_the_snapshot_fields() {
    let snap = GameSnapshot {
        id: 1,
        post_id: 10,
        title: "T".to_string(),
        slug: "t".to_string(),
        tag_names: vec!["A".to_string()],
        tag_slugs: vec!["a".to_string()],
        excerpt: "e".to_string(),
        author_name: "N".to_string(),
        author_slug: "n".to_string(),
        launcher_type: "html5".to_string(),
        url: None,
        cover_media_type: Some("image".to_string()),
        stats: ContentStats { views: 5, likes: 2, comments: 1 },
        reading_time_minutes: 3,
    };
    let card = GameCard::from(snap);
    assert_eq!((card.id, card.post_id, card.launcher_type.as_str()), (1, 10, "html5"));
    assert_eq!((card.stats.views, card.stats.likes, card.stats.comments), (5, 2, 1));
    assert_eq!(card.tag_slugs, vec!["a".to_string()]);
    let post: Post = PostSnapshot {
        id: 2,
        title: "P".to_string(),
        slug: "p".to_string(),
        tag_names: vec![],
        tag_slugs: vec![],
        excerpt: "x".to_string(),
        author_name: "N".to_string(),
        author_slug: "n".to_string(),
        url: Some("/c.png".to_string()),
        cover_media_type: None,
        stats: ContentStats { views: 0, likes: 0, comments: 7 },
        reading_time_minutes: 1,
    }
    .into();
    assert_eq!((post.id, post.stats.comments, post.url.as_deref()), (2, 7, Some("/c.png")));
}
