use blog_handlers::errors::SyncError;
use blog_handlers::syncing::{demo_file_path, escape_sql_literal, sync_key_label, sync_key_ttl};

#[test]
fn ttl_defaults_to_a_day_and_stays_within_a_week() {
    assert_eq!(sync_key_ttl(None), 24);
    assert_eq!(sync_key_ttl(Some(0)), 1);
    assert_eq!(sync_key_ttl(Some(48)), 48);
    assert_eq!(sync_key_ttl(Some(1000)), 168);
}

#[test]
fn labels_are_trimmed_and_cut_to_a_hundred_bytes() {
    assert_eq!(sync_key_label(None), "");
    assert_eq!(sync_key_label(Some("  laptop  ".to_string())), "laptop");
    let long = "x".repeat(150);
    assert_eq!(sync_key_label(Some(long)), "x".repeat(100));
    let exact = "y".repeat(100);
    assert_eq!(sync_key_label(Some(exact.clone())), exact);
    let wide = "é".repeat(60);
    assert_eq!(sync_key_label(Some(wide)), "é".repeat(50));
}

#[test]
fn demo_files_resolve_below_the_item_directory() {
    assert_eq!(demo_file_path("/srv/demos", "project", 4, true, "assets/a.png").unwrap(), "/srv/demos/4/assets/a.png");
    assert_eq!(demo_file_path("/srv/demos", "game", 9, true, "index.html").unwrap(), "/srv/demos/game-9/index.html");
    assert!(matches!(demo_file_path("/srv/demos", "game", 9, false, "index.html"), Err(SyncError::NotFound)));
    assert!(matches!(demo_file_path("/srv/demos", "game", 9, true, "../x"), Err(SyncError::NotFound)));
    match demo_file_path("/srv/demos", "post", 9, true, "index.html") {
        Err(SyncError::InvalidData(m)) => assert_eq!(m, "kind must be project or game"),
        other => panic!("{other:?}"),
    }
}

#[test]
fn quotes_are_doubled() {
    assert_eq!(escape_sql_literal("/tmp/it's.db"), "/tmp/it''s.db");
    assert_eq!(escape_sql_literal("plain"), "plain");
    assert_eq!(escape_sql_literal("''"), "''''");
}
