use std::io::{Cursor, Write};

use blog_handlers::archive::DemoLimits;
use blog_handlers::errors::GameError;
use blog_handlers::zipread::{check_bundle_bytes, demo_entry_bytes, demo_extraction_plan, read_zip_listing};
use zip::write::SimpleFileOptions;
use zip::ZipWriter;

fn archive(files: &[(&str, &str)], dirs: &[&str], links: &[&str]) -> Vec<u8> {
    let mut w = ZipWriter::new(Cursor::new(Vec::new()));
    for d in dirs {
        w.add_directory(*d, SimpleFileOptions::default()).unwrap();
    }
    for (name, body) in files {
        w.start_file(*name, SimpleFileOptions::default()).unwrap();
        w.write_all(body.as_bytes()).unwrap();
    }
    for l in links {
        w.add_symlink(*l, "target", SimpleFileOptions::default()).unwrap();
    }
    w.finish().unwrap().into_inner()
}

fn limits() -> DemoLimits {
    DemoLimits { max_archive_size: 1 << 20, max_files: 10, max_extracted_size: 1 << 20 }
}

fn invalid<T>(r: Result<T, GameError>) -> String {
    match r {
        Err(GameError::InvalidDemo(m)) => m,
        Err(other) => panic!("{other:?}"),
        Ok(_) => panic!("accepted"),
    }
}

#[test]
fn an_uploaded_archive_is_planned_from_its_bytes() {
    let bytes = archive(&[("demo/index.html", "<html>"), ("demo/js/app.js", "x")], &["demo/"], &[]);
    let plan = demo_extraction_plan(&bytes, &limits()).unwrap();
    let rels: Vec<(usize, String)> = plan.iter().map(|i| (i.index, i.rel_path.clone())).collect();
    assert_eq!(rels, vec![(1, "index.html".to_string()), (2, "js/app.js".to_string())]);
    assert_eq!(demo_entry_bytes(&bytes, 1).unwrap(), b"<html>".to_vec());
    assert!(demo_entry_bytes(&bytes, 9).is_err());
}

#[test]
fn archive_level_refusals() {
    assert!(read_zip_listing(b"not a zip").is_err());
    assert!(invalid(demo_extraction_plan(b"not a zip", &limits())).len() > 0);
    let small = DemoLimits { max_archive_size: 10, max_files: 10, max_extracted_size: 10 };
    let bytes = archive(&[("index.html", "x")], &[], &[]);
    assert_eq!(invalid(demo_extraction_plan(&bytes, &small)), "Demo archive is too large.");
    let empty = archive(&[], &[], &[]);
    assert_eq!(invalid(demo_extraction_plan(&empty, &limits())), "Demo archive is empty.");
}

#[test]
fn symbolic_links_are_recognised_by_their_mode() {
    let bytes = archive(&[("index.html", "x")], &[], &["evil"]);
    assert_eq!(invalid(demo_extraction_plan(&bytes, &limits())), "Demo archive cannot contain symlinks.");
    let bundle = archive(&[(".jsdos/jsdos.json", "{}")], &[], &["evil"]);
    assert_eq!(invalid(check_bundle_bytes(&bundle, 10)), "js-dos bundle cannot contain symlinks.");
}

#[test]
fn bundles_are_checked_and_hashed_from_their_bytes() {
    let bundle = archive(&[(".jsdos/jsdos.json", "{}"), ("game.exe", "mz")], &[], &[]);
    let (size, hash) = check_bundle_bytes(&bundle, 10).unwrap();
    assert_eq!(size, bundle.len() as u64);
    assert_eq!(hash, blog_handlers::digest::sha256_hex(&bundle));
    assert_eq!(invalid(check_bundle_bytes(&bundle, 1)), "Invalid js-dos bundle file count.");
    let no_manifest = archive(&[("game.exe", "mz")], &[], &[]);
    assert_eq!(invalid(check_bundle_bytes(&no_manifest, 10)), "js-dos bundle must contain .jsdos/jsdos.json.");
    assert!(invalid(check_bundle_bytes(b"garbage", 10)).starts_with("Invalid js-dos bundle: "));
}

#[test]
fn entries_are_checked_in_archive_order() {
    let mut w = ZipWriter::new(Cursor::new(Vec::new()));
    w.start_file("../evil.html", SimpleFileOptions::default()).unwrap();
    w.write_all(b"x").unwrap();
    w.add_symlink("link", "target", SimpleFileOptions::default()).unwrap();
    let bytes = w.finish().unwrap().into_inner();
    assert_eq!(invalid(demo_extraction_plan(&bytes, &limits())), "Demo archive contains an unsafe path.");
    let mut w = ZipWriter::new(Cursor::new(Vec::new()));
    w.add_symlink("link", "target", SimpleFileOptions::default()).unwrap();
    w.start_file("../evil.html", SimpleFileOptions::default()).unwrap();
    w.write_all(b"x").unwrap();
    let bytes = w.finish().unwrap().into_inner();
    assert_eq!(invalid(demo_extraction_plan(&bytes, &limits())), "Demo archive cannot contain symlinks.");
}

#[test]
fn a_project_demo_is_refused_as_the_project_error() {
    let empty = archive(&[], &[], &[]);
    match blog_handlers::zipread::project_extraction_plan(&empty, &limits()) {
        Err(blog_handlers::errors::ProjectError::InvalidDemo(m)) => assert_eq!(m, "Demo archive is empty."),
        other => panic!("{:?}", other.map(|v| v.len())),
    }
    let bytes = archive(&[("index.html", "<p>")], &[], &[]);
    let plan = blog_handlers::zipread::project_extraction_plan(&bytes, &limits()).unwrap();
    assert_eq!(plan[0].size, 3);
    assert_eq!(blog_handlers::zipread::project_entry_bytes(&bytes, 0).unwrap(), b"<p>".to_vec());
}
