use blog_handlers::posts::{campaign_cover_url, campaign_post_url};
use blog_handlers::v86_storage::{v86_object_removals, ObjectRemoval};

fn key(k: &str, n: i64) -> Option<(String, i64)> {
    Some((k.to_string(), n))
}

#[test]
fn only_unreferenced_v86_objects_go() {
    let r = v86_object_removals(
        key("z.zip", 0),
        key("disk/", 1),
        Some(("iso/a".to_string(), 0, 0)),
        vec![("iso/b".to_string(), 0, 1), ("iso/c".to_string(), 0, 0)],
    );
    assert_eq!(
        r,
        vec![
            ObjectRemoval::Object("z.zip".to_string()),
            ObjectRemoval::Prefix("iso/a".to_string()),
            ObjectRemoval::Prefix("iso/c".to_string()),
        ]
    );
    let kept = v86_object_removals(key("z.zip", 2), None, None, vec![]);
    assert!(kept.is_empty());
    let disk = v86_object_removals(None, key("disk/", 0), None, vec![]);
    assert_eq!(disk, vec![ObjectRemoval::Prefix("disk/".to_string())]);
}

#[test]
fn campaign_links_drop_trailing_slashes_of_the_base() {
    assert_eq!(campaign_post_url("https://blog.example//", "hello"), "https://blog.example/posts/hello");
    assert_eq!(campaign_post_url("https://blog.example", "hello"), "https://blog.example/posts/hello");
    assert_eq!(campaign_cover_url("https://blog.example/", "cover1"), "https://blog.example/api/media/i/cover1");
    assert_eq!(campaign_post_url("", "x"), "/posts/x");
}
