use blog_handlers::errors::{GameError, ProjectError};
use blog_handlers::links::{normalize_links as normalize_game_links, GameLink, MAX_GAME_LINKS};
use blog_handlers::multipart::{
    admit_field, check_data_given, check_inline_media, classify_field, new_intake, FieldKind,
};
use blog_handlers::project_links::{normalize_links as normalize_project_links, ProjectLink};

fn upload_failed(r: Result<(), GameError>) -> String {
    match r {
        Err(GameError::UploadFailed(m)) => m,
        other => panic!("{other:?}"),
    }
}

#[test]
fn field_names_are_classified() {
    assert!(matches!(classify_field("data", "data"), FieldKind::Data));
    assert!(matches!(classify_field("game", "game"), FieldKind::Data));
    assert!(matches!(classify_field("demo_zip", "data"), FieldKind::DemoZip));
    assert!(matches!(classify_field("file_3", "data"), FieldKind::File(3)));
    assert!(matches!(classify_field("file_+3", "data"), FieldKind::File(3)));
    assert!(matches!(classify_field("file_x", "data"), FieldKind::BadFileIndex));
    assert!(matches!(classify_field("file_", "data"), FieldKind::BadFileIndex));
    assert!(matches!(classify_field("short_name_12", "data"), FieldKind::ShortName(12)));
    assert!(matches!(classify_field("short_name_-1", "data"), FieldKind::BadShortNameIndex));
    assert!(matches!(classify_field("cover", "data"), FieldKind::Other));
}

#[test]
fn repeated_fields_are_refused() {
    let mut intake = new_intake();
    assert!(admit_field(&mut intake, &FieldKind::Data).is_ok());
    assert!(admit_field(&mut intake, &FieldKind::DemoZip).is_ok());
    assert_eq!(upload_failed(admit_field(&mut intake, &FieldKind::DemoZip)), "Only one demo zip is allowed.");
    assert!(admit_field(&mut intake, &FieldKind::File(1)).is_ok());
    assert_eq!(upload_failed(admit_field(&mut intake, &FieldKind::File(1))), "Duplicate file index 1");
    assert_eq!(upload_failed(admit_field(&mut intake, &FieldKind::BadFileIndex)), "Invalid file index");
    assert_eq!(upload_failed(admit_field(&mut intake, &FieldKind::BadShortNameIndex)), "Invalid short name index");
    assert!(intake.has_data && intake.has_demo_zip);
    assert_eq!(intake.file_indices, vec![1]);
}

#[test]
fn every_announced_inline_file_must_arrive_with_its_name() {
    let mut intake = new_intake();
    assert_eq!(upload_failed(check_data_given(&intake, "Missing game data")), "Missing game data");
    assert!(check_inline_media(&intake, 0).is_ok());
    assert_eq!(upload_failed(check_inline_media(&intake, 1)), "Cannot locate file_1");
    admit_field(&mut intake, &FieldKind::File(1)).unwrap();
    assert_eq!(upload_failed(check_inline_media(&intake, 1)), "Cannot locate short_name_1");
    admit_field(&mut intake, &FieldKind::ShortName(1)).unwrap();
    assert!(check_inline_media(&intake, 1).is_ok());
    assert_eq!(upload_failed(check_inline_media(&intake, 2)), "Cannot locate file_2");
    admit_field(&mut intake, &FieldKind::Data).unwrap();
    assert!(check_data_given(&intake, "Missing game data").is_ok());
}

fn game_link(title: &str, slug: &str) -> GameLink {
    GameLink { title: title.to_string(), slug: slug.to_string() }
}

#[test]
fn blank_game_links_are_dropped() {
    let kept = normalize_game_links(vec![game_link("Doom", "doom"), game_link(" ", "x"), game_link("Quake", "")]).unwrap();
    assert_eq!(kept.len(), 1);
    assert_eq!((kept[0].title.as_str(), kept[0].slug.as_str()), ("Doom", "doom"));
}

#[test]
fn at_most_twenty_related_games() {
    let twenty: Vec<GameLink> = (0..MAX_GAME_LINKS).map(|i| game_link("g", &format!("g{i}"))).collect();
    assert_eq!(normalize_game_links(twenty).unwrap().len(), 20);
    let mut many: Vec<GameLink> = (0..21).map(|i| game_link("g", &format!("g{i}"))).collect();
    many.push(game_link("", ""));
    match normalize_game_links(many) {
        Err(GameError::InvalidDemo(m)) => assert_eq!(m, "A game may have at most 20 related games."),
        other => panic!("{}", other.is_ok()),
    }
}

#[test]
fn project_links_are_trimmed_and_blank_ones_dropped() {
    let links = vec![
        ProjectLink { label: "  Source ".to_string(), url: " https://example.org/src ".to_string() },
        ProjectLink { label: "".to_string(), url: "https://x".to_string() },
        ProjectLink { label: "Docs".to_string(), url: "\t".to_string() },
    ];
    let kept = normalize_project_links(links).unwrap();
    assert_eq!(kept.len(), 1);
    assert_eq!(kept[0].label, "Source");
    assert_eq!(kept[0].url, "https://example.org/src");
}

#[test]
fn project_links_must_be_http_and_at_most_twenty() {
    let bad = vec![ProjectLink { label: "x".to_string(), url: "javascript:alert(1)".to_string() }];
    match normalize_project_links(bad) {
        Err(ProjectError::InvalidDemo(m)) => assert_eq!(m, "Link URL must be an http:// or https:// URL."),
        other => panic!("{}", other.is_ok()),
    }
    let data = vec![ProjectLink { label: "x".to_string(), url: "data:text/html,hi".to_string() }];
    assert!(normalize_project_links(data).is_err());
    let upper = vec![ProjectLink { label: "x".to_string(), url: " HTTPS://Example.org ".to_string() }];
    assert_eq!(normalize_project_links(upper).unwrap()[0].url, "HTTPS://Example.org");
    let bare = vec![ProjectLink { label: "x".to_string(), url: "https://".to_string() }];
    assert!(normalize_project_links(bare).is_err());
    let many: Vec<ProjectLink> = (0..21)
        .map(|i| ProjectLink { label: format!("l{i}"), url: format!("https://e.org/{i}") })
        .collect();
    match normalize_project_links(many) {
        Err(ProjectError::InvalidDemo(m)) => assert_eq!(m, "A project may have at most 20 links."),
        other => panic!("{}", other.is_ok()),
    }
    let twenty: Vec<ProjectLink> = (0..20)
        .map(|i| ProjectLink { label: format!("l{i}"), url: format!("https://e.org/{i}") })
        .collect();
    assert_eq!(normalize_project_links(twenty).unwrap().len(), 20);
}
