use blog_handlers::archive::{plan_demo_extraction, DemoLimits, ZipEntry};
use blog_handlers::digest::sha256_hex;
use blog_handlers::paths::{has_invalid_component, jsdos_storage_key, path_components, strip_common_root, Comp};
use blog_handlers::links::{normalize_links as normalize_game, GameLink};
use blog_handlers::project_links::{normalize_links as normalize_project, ProjectLink};
use blog_handlers::syncing::{escape_sql_literal, sync_key_label};

fn cs(s: &str) -> Vec<char> {
    s.chars().collect()
}

#[test]
fn planned_files_never_leave_the_demo_directory() {
    let names = ["site/./index.html", "site/js//app.js", "site/a/b/../../c.txt", "site/deep/x/y.png"];
    let entries: Vec<ZipEntry> = names
        .iter()
        .map(|n| ZipEntry { enclosed_name: Some(n.to_string()), is_dir: false, is_symlink: false, size: 1 })
        .collect();
    let limits = DemoLimits { max_archive_size: 100, max_files: 10, max_extracted_size: 100 };
    match plan_demo_extraction(10, &entries, &limits) {
        Ok(items) => {
            for item in items {
                let comps = path_components(&cs(&item.rel_path));
                assert!(!comps.is_empty());
                assert!(comps.iter().all(|c| matches!(c, Comp::Normal(_))), "{}", item.rel_path);
            }
        }
        Err(e) => assert!(matches!(e, blog_handlers::errors::GameError::InvalidDemo(_))),
    }
}

#[test]
fn bundle_storage_keys_stay_inside_the_store() {
    let hash = sha256_hex(b"bundle");
    let key = jsdos_storage_key(7, &cs(&hash));
    assert!(!has_invalid_component(&cs(&key)));
    assert_eq!(path_components(&cs(&key)).len(), 3);
}

#[test]
fn the_common_root_heads_every_entry() {
    let paths = vec![cs("root/a.txt"), cs("root/b/c.txt")];
    let root: String = strip_common_root(&paths).unwrap().into_iter().collect();
    for p in &paths {
        assert!(matches!(&path_components(p)[0], Comp::Normal(n) if n.iter().collect::<String>() == root));
    }
}

#[test]
fn escaped_sql_reads_back_as_the_original() {
    for s in ["it's", "''", "none", "'a'b'"] {
        assert_eq!(escape_sql_literal(s).replace("''", "'"), s);
    }
}

#[test]
fn key_labels_fit_in_a_hundred_bytes() {
    for label in ["x".repeat(300), "é".repeat(80), "aé".repeat(40)] {
        let out = sync_key_label(Some(label.clone()));
        assert!(out.len() <= 100, "{label}");
        assert!(label.starts_with(&out));
    }
}

#[test]
fn normalized_links_are_stable() {
    let games = vec![
        GameLink { title: " Doom ".to_string(), slug: "doom".to_string() },
        GameLink { title: "".to_string(), slug: "x".to_string() },
    ];
    let once: Vec<(String, String)> = normalize_game(games).unwrap().into_iter().map(|l| (l.title, l.slug)).collect();
    let again_in: Vec<GameLink> = once.iter().map(|(t, s)| GameLink { title: t.clone(), slug: s.clone() }).collect();
    let twice: Vec<(String, String)> = normalize_game(again_in).unwrap().into_iter().map(|l| (l.title, l.slug)).collect();
    assert_eq!(once, twice);
    let projects = vec![
        ProjectLink { label: "  Src\t".to_string(), url: " https://x ".to_string() },
        ProjectLink { label: " ".to_string(), url: "https://y".to_string() },
    ];
    let once: Vec<(String, String)> = normalize_project(projects).unwrap().into_iter().map(|l| (l.label, l.url)).collect();
    let again_in: Vec<ProjectLink> = once.iter().map(|(l, u)| ProjectLink { label: l.clone(), url: u.clone() }).collect();
    let twice: Vec<(String, String)> = normalize_project(again_in).unwrap().into_iter().map(|l| (l.label, l.url)).collect();
    assert_eq!(once, twice);
    assert_eq!(once, vec![("Src".to_string(), "https://x".to_string())]);
}
