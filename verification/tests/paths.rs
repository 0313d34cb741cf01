use blog_handlers::paths::{
    has_invalid_component, is_safe_relative_path, jsdos_storage_key, jsdos_temp_path,
    normalized_zip_path, path_components, path_join, split, strip_common_root, Comp,
};

fn cs(s: &str) -> Vec<char> {
    s.chars().collect()
}

fn st(v: Vec<char>) -> String {
    v.into_iter().collect()
}

#[test]
fn split_keeps_empty_pieces() {
    let pieces: Vec<String> = split(&cs("a//b/"), '/').into_iter().map(st).collect();
    assert_eq!(pieces, vec!["a", "", "b", ""]);
    let pieces: Vec<String> = split(&cs(""), '/').into_iter().map(st).collect();
    assert_eq!(pieces, vec![""]);
}

#[test]
fn components_follow_unix_paths() {
    let comps = path_components(&cs("/a/./b/../c/"));
    assert_eq!(comps.len(), 5);
    assert!(matches!(comps[0], Comp::RootDir));
    assert!(matches!(&comps[1], Comp::Normal(n) if st(n.clone()) == "a"));
    assert!(matches!(&comps[2], Comp::Normal(n) if st(n.clone()) == "b"));
    assert!(matches!(comps[3], Comp::ParentDir));
    assert!(matches!(&comps[4], Comp::Normal(n) if st(n.clone()) == "c"));
    let comps = path_components(&cs("./x"));
    assert!(matches!(comps[0], Comp::CurDir));
    assert_eq!(comps.len(), 2);
}

#[test]
fn join_appends_relative_and_replaces_with_absolute() {
    assert_eq!(st(path_join(&cs("/srv"), &cs("a/b"))), "/srv/a/b");
    assert_eq!(st(path_join(&cs("/srv/"), &cs("a"))), "/srv/a");
    assert_eq!(st(path_join(&cs(""), &cs("a"))), "a");
    assert_eq!(st(path_join(&cs("/srv"), &cs("/etc"))), "/etc");
}

#[test]
fn invalid_components_are_parent_and_root() {
    assert!(has_invalid_component(&cs("../x")));
    assert!(has_invalid_component(&cs("a/../../x")));
    assert!(has_invalid_component(&cs("/abs")));
    assert!(!has_invalid_component(&cs("a/./b")));
    assert!(!has_invalid_component(&cs("a..b/c")));
}

#[test]
fn zip_paths_reduce_to_normal_components() {
    assert_eq!(normalized_zip_path(&cs("game/./data//file.bin")).map(st), Some("game/data/file.bin".to_string()));
    assert_eq!(normalized_zip_path(&cs("../evil")), None);
    assert_eq!(normalized_zip_path(&cs("/etc/passwd")), None);
    assert_eq!(normalized_zip_path(&cs("./")), None);
}

#[test]
fn common_root_is_the_shared_top_directory() {
    let paths = vec![cs("demo/index.html"), cs("demo/js/app.js")];
    assert_eq!(strip_common_root(&paths).map(st), Some("demo".to_string()));
}

#[test]
fn no_common_root_when_entries_diverge_or_sit_at_the_top() {
    assert_eq!(strip_common_root(&[cs("a/index.html"), cs("b/app.js")]), None);
    assert_eq!(strip_common_root(&[cs("index.html"), cs("index.html")]), None);
    assert_eq!(strip_common_root(&[cs("readme.txt")]), None);
    assert_eq!(strip_common_root(&[]), None);
}

#[test]
fn safe_relative_paths() {
    assert!(is_safe_relative_path(&cs("saves/slot1.sav")));
    assert!(!is_safe_relative_path(&cs("")));
    assert!(!is_safe_relative_path(&cs("/abs")));
    assert!(!is_safe_relative_path(&cs("a\\b")));
    assert!(!is_safe_relative_path(&cs("a/../b")));
    assert!(!is_safe_relative_path(&cs("a/./b")));
    assert!(!is_safe_relative_path(&cs("a//b")));
    assert!(!is_safe_relative_path(&cs(".hidden")));
    assert!(!is_safe_relative_path(&cs("dir/")));
}

#[test]
fn jsdos_storage_key_is_owner_and_hash() {
    assert_eq!(jsdos_storage_key(42, &cs("abc123")), "jsdos/42/abc123.jsdos");
    assert_eq!(jsdos_storage_key(-1, &cs("x")), "jsdos/-1/x.jsdos");
}

#[test]
fn jsdos_temp_path_is_under_the_uploads_directory() {
    assert_eq!(st(jsdos_temp_path(&cs("/srv/demos"), &cs("u-1"))), "/srv/demos/.uploads/jsdos/u-1.part");
}
