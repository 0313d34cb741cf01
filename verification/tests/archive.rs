use blog_handlers::archive::{add_extracted, plan_demo_extraction, DemoLimits, ExtractItem, ZipEntry};
use blog_handlers::errors::GameError;

fn file(name: &str, size: u64) -> ZipEntry {
    ZipEntry { enclosed_name: Some(name.to_string()), is_dir: false, is_symlink: false, size }
}

fn dir(name: &str) -> ZipEntry {
    ZipEntry { enclosed_name: Some(name.to_string()), is_dir: true, is_symlink: false, size: 0 }
}

fn limits() -> DemoLimits {
    DemoLimits { max_archive_size: 1000, max_files: 10, max_extracted_size: 1000 }
}

fn plan(size: u64, entries: &[ZipEntry], lim: &DemoLimits) -> Result<Vec<(usize, String)>, String> {
    match plan_demo_extraction(size, entries, lim) {
        Ok(items) => Ok(items.into_iter().map(|ExtractItem { index, rel_path, .. }| (index, rel_path)).collect()),
        Err(GameError::InvalidDemo(m)) => Err(m),
        Err(other) => panic!("{other:?}"),
    }
}

#[test]
fn the_common_top_directory_is_taken_off() {
    let entries = vec![dir("demo/"), file("demo/index.html", 10), file("demo/js/app.js", 20)];
    assert_eq!(
        plan(100, &entries, &limits()),
        Ok(vec![(1, "index.html".to_string()), (2, "js/app.js".to_string())])
    );
}

#[test]
fn flat_archives_keep_their_paths() {
    let entries = vec![file("index.html", 10), file("./assets//a.png", 20)];
    assert_eq!(
        plan(100, &entries, &limits()),
        Ok(vec![(0, "index.html".to_string()), (1, "assets/a.png".to_string())])
    );
}

#[test]
fn archive_limits() {
    let entries = vec![file("index.html", 10)];
    assert_eq!(plan(1001, &entries, &limits()), Err("Demo archive is too large.".to_string()));
    assert_eq!(plan(10, &[], &limits()), Err("Demo archive is empty.".to_string()));
    let many: Vec<ZipEntry> = (0..11).map(|i| file(&format!("f{i}"), 1)).collect();
    assert_eq!(plan(10, &many, &limits()), Err("Demo archive contains too many files.".to_string()));
    let big = vec![file("index.html", 600), file("b.bin", 600)];
    assert!(plan(10, &big, &limits()).is_ok());
}

#[test]
fn planned_files_carry_their_sizes() {
    let entries = vec![dir("d/"), file("d/index.html", 10), file("d/a.js", 20)];
    let items = plan_demo_extraction(100, &entries, &limits()).unwrap();
    let sizes: Vec<u64> = items.iter().map(|i| i.size).collect();
    assert_eq!(sizes, vec![10, 20]);
}

#[test]
fn the_expanded_size_is_counted_file_by_file() {
    assert_eq!(add_extracted(0, 600, 1000).ok(), Some(600));
    match add_extracted(600, 600, 1000) {
        Err(GameError::InvalidDemo(m)) => assert_eq!(m, "Demo archive expands too large."),
        other => panic!("{other:?}"),
    }
    assert_eq!(add_extracted(600, 400, 1000).ok(), Some(1000));
    assert_eq!(add_extracted(u64::MAX - 1, 5, u64::MAX).ok(), Some(u64::MAX));
}

#[test]
fn unsafe_entries_are_refused() {
    let link = vec![ZipEntry { enclosed_name: Some("l".to_string()), is_dir: false, is_symlink: true, size: 0 }];
    assert_eq!(plan(10, &link, &limits()), Err("Demo archive cannot contain symlinks.".to_string()));
    let outside = vec![ZipEntry { enclosed_name: None, is_dir: false, is_symlink: false, size: 1 }];
    assert_eq!(plan(10, &outside, &limits()), Err("Demo archive contains an unsafe path.".to_string()));
    let climbing = vec![file("index.html", 1), file("a/../../b", 1)];
    assert_eq!(plan(10, &climbing, &limits()), Err("Demo archive contains an unsafe path.".to_string()));
}

#[test]
fn archives_need_files_and_an_index() {
    let dirs = vec![dir("a/"), dir("b/")];
    assert_eq!(plan(10, &dirs, &limits()), Err("Demo archive does not contain files.".to_string()));
    let no_index = vec![file("a/main.html", 1), file("a/app.js", 1)];
    assert_eq!(plan(10, &no_index, &limits()), Err("Demo archive must contain index.html.".to_string()));
}
