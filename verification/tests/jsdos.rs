use blog_handlers::errors::GameError;
use blog_handlers::jsdos::{
    accept_chunk, check_bundle_entries, check_complete, check_start_upload, close_session,
    new_session, record_chunk, BundleEntry,
};

fn invalid(r: Result<(), GameError>) -> String {
    match r {
        Err(GameError::InvalidDemo(m)) => m,
        other => panic!("{other:?}"),
    }
}

#[test]
fn start_needs_a_jsdos_name_and_a_size_within_bounds() {
    assert!(check_start_upload("doom.jsdos", 10, 100).is_ok());
    assert!(check_start_upload("DOOM.JSDOS", 100, 100).is_ok());
    assert_eq!(invalid(check_start_upload("doom.zip", 10, 100)), "Only .jsdos bundles are accepted.");
    assert_eq!(invalid(check_start_upload("jsdos", 10, 100)), "Only .jsdos bundles are accepted.");
    assert_eq!(invalid(check_start_upload("a.jsdos", 0, 100)), "js-dos bundles must be between 1 byte and 100 bytes.");
    assert_eq!(invalid(check_start_upload("a.jsdos", 101, 100)), "js-dos bundles must be between 1 byte and 100 bytes.");
}

#[test]
fn chunks_arrive_in_order_until_the_upload_completes() {
    let mut s = new_session(5, 9, 10);
    assert_eq!(s.status, "active");
    assert!(invalid(check_complete(&s)).contains("incomplete"));
    let (received, next) = accept_chunk(&s, 9, 5, 0, 6, 8).unwrap();
    assert_eq!((received, next), (6, 1));
    record_chunk(&mut s, received, next);
    let (received, next) = accept_chunk(&s, 9, 5, 1, 4, 8).unwrap();
    assert_eq!((received, next), (10, 2));
    record_chunk(&mut s, received, next);
    assert!(check_complete(&s).is_ok());
    close_session(&mut s, true);
    assert_eq!(s.status, "completed");
    assert!(check_complete(&s).is_err());
}

#[test]
fn chunks_are_refused_for_strangers_out_of_order_or_oversized() {
    let s = new_session(5, 9, 10);
    assert!(matches!(accept_chunk(&s, 8, 5, 0, 1, 8), Err(GameError::Forbidden)));
    assert!(matches!(accept_chunk(&s, 9, 6, 0, 1, 8), Err(GameError::Forbidden)));
    match accept_chunk(&s, 9, 5, 1, 1, 8) {
        Err(GameError::InvalidDemo(m)) => assert_eq!(m, "Invalid or out-of-order js-dos upload chunk."),
        other => panic!("{other:?}"),
    }
    for (len, size) in [(0usize, 8u64), (9, 8), (11, 16)] {
        match accept_chunk(&s, 9, 5, 0, len, size) {
            Err(GameError::InvalidDemo(m)) => assert_eq!(m, "Invalid js-dos upload chunk size."),
            other => panic!("{other:?}"),
        }
    }
}

#[test]
fn a_closed_session_refuses_chunks() {
    let mut s = new_session(5, 9, 10);
    close_session(&mut s, false);
    assert_eq!(s.status, "aborted");
    match accept_chunk(&s, 9, 5, 0, 1, 8) {
        Err(GameError::InvalidDemo(m)) => assert_eq!(m, "Invalid or out-of-order js-dos upload chunk."),
        other => panic!("{other:?}"),
    }
}

fn entry(name: &str, enclosed: bool, is_symlink: bool) -> BundleEntry {
    BundleEntry { name: name.to_string(), enclosed, is_symlink }
}

#[test]
fn bundles_need_the_manifest_and_safe_entries() {
    let good = vec![entry(".jsdos/jsdos.json", true, false), entry("game.exe", true, false)];
    assert!(check_bundle_entries(&good, 10).is_ok());
    assert_eq!(invalid(check_bundle_entries(&good, 1)), "Invalid js-dos bundle file count.");
    assert_eq!(invalid(check_bundle_entries(&[], 10)), "Invalid js-dos bundle file count.");
    let no_manifest = vec![entry("game.exe", true, false)];
    assert_eq!(invalid(check_bundle_entries(&no_manifest, 10)), "js-dos bundle must contain .jsdos/jsdos.json.");
    let unsafe_path = vec![entry(".jsdos/jsdos.json", true, false), entry("../x", false, false)];
    assert_eq!(invalid(check_bundle_entries(&unsafe_path, 10)), "js-dos bundle contains an unsafe path.");
    let link = vec![entry("l", true, true), entry(".jsdos/jsdos.json", true, false)];
    assert_eq!(invalid(check_bundle_entries(&link, 10)), "js-dos bundle cannot contain symlinks.");
}
