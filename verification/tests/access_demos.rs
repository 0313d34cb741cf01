use blog_handlers::access::{
    visitor_days,
    caller_id, clamp_offset, clamp_page_size, is_admin, is_admin_or_mod_game, page_window,
    require_can_delete, require_owner, Claims,
};
use blog_handlers::demos::{
    check_game_update_demo, check_new_game_demo, check_new_project_demo, check_project_update_demo,
    check_v86_request, effective_launcher_type, game_demo_dir_name, has_demo_url, local_demo_url,
    missing_delegate_game, DemoFollowUp,
};
use blog_handlers::errors::{AudiobookError, GameError, ProjectError};
use blog_handlers::demos::{check_game_publishable, check_game_slug_free, check_project_slug_free, validate_demo_url};

fn claims(user_id: &str, role: &str) -> Claims {
    Claims { user_id: user_id.to_string(), role: role.to_string() }
}

fn game_err(r: Result<(), GameError>) -> String {
    match r {
        Err(GameError::InvalidDemo(m)) => m,
        other => panic!("{other:?}"),
    }
}

fn project_err<T: std::fmt::Debug>(r: Result<T, ProjectError>) -> String {
    match r {
        Err(ProjectError::InvalidDemo(m)) => m,
        other => panic!("{other:?}"),
    }
}

#[test]
fn caller_id_parses_the_token_id() {
    assert!(matches!(caller_id(&claims("42", "user")), Ok(42)));
    assert!(matches!(caller_id(&claims("-3", "user")), Ok(-3)));
    match caller_id(&claims("abc", "user")) {
        Err(AudiobookError::InternalError(m)) => assert_eq!(m, "Cannot parse id"),
        other => panic!("{other:?}"),
    }
}

#[test]
fn roles() {
    assert!(is_admin(&claims("1", "admin")));
    assert!(!is_admin(&claims("1", "moderator")));
    assert!(is_admin_or_mod_game("admin"));
    assert!(is_admin_or_mod_game("moderator"));
    assert!(!is_admin_or_mod_game("Admin"));
    assert!(!is_admin_or_mod_game("user"));
}

#[test]
fn paging_is_clamped() {
    assert_eq!(clamp_page_size(None, 24, 100), 24);
    assert_eq!(clamp_page_size(Some(0), 24, 100), 1);
    assert_eq!(clamp_page_size(Some(-5), 24, 100), 1);
    assert_eq!(clamp_page_size(Some(500), 24, 100), 100);
    assert_eq!(clamp_page_size(Some(37), 24, 100), 37);
    assert_eq!(clamp_offset(None), 0);
    assert_eq!(clamp_offset(Some(-1)), 0);
    assert_eq!(clamp_offset(Some(30)), 30);
    assert_eq!(page_window(None, None, 20), (20, 0));
    assert_eq!(page_window(Some(1000), Some(-10), 20), (100, 0));
    assert_eq!(page_window(Some(5), Some(15), 20), (5, 15));
}

#[test]
fn ownership_checks() {
    assert!(require_owner(Some(3), 3).is_ok());
    assert!(matches!(require_owner(Some(3), 4), Err(ProjectError::Forbidden)));
    assert!(matches!(require_owner(None, 4), Err(ProjectError::ProjectNotFound)));
    assert!(require_can_delete(Some(3), 3, "user").is_ok());
    assert!(require_can_delete(Some(3), 4, "moderator").is_ok());
    assert!(require_can_delete(Some(3), 4, "admin").is_ok());
    assert!(matches!(require_can_delete(Some(3), 4, "user"), Err(GameError::Forbidden)));
    assert!(matches!(require_can_delete(None, 4, "admin"), Err(GameError::GameNotFound)));
}

#[test]
fn demo_url_counts_when_not_blank() {
    assert!(has_demo_url(&Some("https://x".to_string())));
    assert!(!has_demo_url(&Some("   ".to_string())));
    assert!(!has_demo_url(&None));
}

#[test]
fn new_game_demo_rules() {
    assert!(check_new_game_demo("html5", false, true, false).is_ok());
    assert_eq!(game_err(check_new_game_demo("html5", true, true, false)), "Demo URL is not accepted for html5 games.");
    assert_eq!(game_err(check_new_game_demo("webgl", false, false, false)), "Demo zip is required for webgl games.");
    assert!(check_new_game_demo("embed", true, false, false).is_ok());
    assert_eq!(game_err(check_new_game_demo("video", false, false, false)), "Demo URL is required for video games.");
    assert!(check_new_game_demo("jsdos", false, false, false).is_ok());
    assert_eq!(
        game_err(check_new_game_demo("jsdos", false, true, false)),
        "js-dos bundles must be uploaded through the js-dos upload endpoint."
    );
    assert_eq!(
        game_err(check_new_game_demo("v86", true, false, true)),
        "v86 games must be uploaded through the v86 package endpoint."
    );
    assert_eq!(game_err(check_new_game_demo("v86", false, false, false)), "A completed v86 game package is required.");
    assert!(check_new_game_demo("v86", false, false, true).is_ok());
    assert_eq!(game_err(check_new_game_demo("flash", false, false, false)), "Unsupported launcher type: flash");
}

#[test]
fn game_update_demo_rules() {
    let some = |s: &str| Some(s.to_string());
    assert!(check_game_update_demo(&None, &None, false).is_ok());
    assert!(check_game_update_demo(&some("html5"), &None, false).is_ok());
    assert_eq!(
        game_err(check_game_update_demo(&None, &some("https://x"), false)),
        "Launcher type is required when providing demo attachments."
    );
    assert_eq!(
        game_err(check_game_update_demo(&some("html5"), &some(" "), true)),
        "Demo URL is not accepted for html5 games."
    );
    assert!(check_game_update_demo(&some("html5"), &None, true).is_ok());
    assert!(check_game_update_demo(&some("embed"), &some("https://x"), false).is_ok());
    assert_eq!(
        game_err(check_game_update_demo(&some("embed"), &None, true)),
        "Demo URL is required for embed games."
    );
}

#[test]
fn new_project_demo_rules() {
    assert!(matches!(check_new_project_demo("none", false, false, None), Ok(DemoFollowUp::Done)));
    assert_eq!(
        project_err(check_new_project_demo("none", true, false, None)),
        "Demo attachments are not accepted for projects without demos."
    );
    assert!(matches!(check_new_project_demo("html5", false, true, None), Ok(DemoFollowUp::Done)));
    assert_eq!(project_err(check_new_project_demo("html5", false, false, None)), "Demo zip is required for html5 projects.");
    assert!(matches!(check_new_project_demo("game", false, false, Some(9)), Ok(DemoFollowUp::ConfirmGame(9))));
    assert_eq!(project_err(check_new_project_demo("game", false, false, None)), "A delegated project must select a game.");
    assert_eq!(
        project_err(check_new_project_demo("game", true, false, Some(9))),
        "Delegated projects play their game's launcher; demo attachments are not accepted."
    );
    assert_eq!(project_err(check_new_project_demo("applet", false, false, None)), "Unsupported demo type: applet");
}

#[test]
fn project_update_demo_rules() {
    let some = |s: &str| Some(s.to_string());
    assert!(check_project_update_demo(&None, &None, false, None).is_ok());
    assert_eq!(
        project_err(check_project_update_demo(&None, &None, true, None)),
        "Demo type is required when providing demo attachments."
    );
    assert_eq!(
        project_err(check_project_update_demo(&some("download"), &None, true, None)),
        "Demo URL is required for download projects."
    );
    assert!(check_project_update_demo(&some("download"), &some("https://x"), false, None).is_ok());
}

#[test]
fn v86_requests_and_names() {
    assert!(check_v86_request(true, false, true).is_ok());
    assert!(check_v86_request(false, true, true).is_ok());
    assert_eq!(
        game_err(check_v86_request(true, true, true)),
        "Send either a v86 package upload or a system switch, not both."
    );
    assert_eq!(game_err(check_v86_request(true, false, false)), "A v86 package cannot be attached to a non-v86 game.");
    match missing_delegate_game(17) {
        ProjectError::InvalidDemo(m) => assert_eq!(m, "The selected game (17) does not exist."),
        other => panic!("{other:?}"),
    }
    assert_eq!(effective_launcher_type(&Some("webgl".to_string()), "html5"), "webgl");
    assert_eq!(effective_launcher_type(&None, "html5"), "html5");
    assert_eq!(local_demo_url("/srv/demos", "game-3"), "/srv/demos/game-3/index.html");
    assert_eq!(game_demo_dir_name(3), "game-3");
}

#[test]
fn games_publish_once_their_bundle_or_artifact_is_ready() {
    assert!(check_game_publishable("html5", false, false).is_ok());
    assert!(check_game_publishable("jsdos", true, false).is_ok());
    assert!(check_game_publishable("v86", false, true).is_ok());
    assert_eq!(game_err(check_game_publishable("jsdos", false, true)), "A completed js-dos bundle is required before publishing.");
    assert_eq!(game_err(check_game_publishable("v86", true, false)), "A completed v86 game artifact is required before publishing.");
}

#[test]
fn visitor_statistics_cover_one_day_to_a_year() {
    assert_eq!(visitor_days(None), 30);
    assert_eq!(visitor_days(Some(0)), 1);
    assert_eq!(visitor_days(Some(90)), 90);
    assert_eq!(visitor_days(Some(1000)), 365);
}

#[test]
fn new_items_need_a_free_slug() {
    assert!(check_game_slug_free("doom", false).is_ok());
    assert_eq!(game_err(check_game_slug_free("doom", true)), "The game slug 'doom' is already in use.");
    assert!(check_project_slug_free("tool", false).is_ok());
    assert_eq!(project_err(check_project_slug_free("tool", true)), "The project slug 'tool' is already in use.");
}

#[test]
fn demo_urls_are_http_or_cleared() {
    assert!(matches!(validate_demo_url(None), Ok(None)));
    assert_eq!(validate_demo_url(Some("  ".to_string())).unwrap(), Some(String::new()));
    assert_eq!(validate_demo_url(Some(" https://itch.io/g ".to_string())).unwrap(), Some("https://itch.io/g".to_string()));
    match validate_demo_url(Some("javascript:alert(1)".to_string())) {
        Err(GameError::InvalidDemo(m)) => assert_eq!(m, "Demo URL must be an http:// or https:// URL."),
        other => panic!("{other:?}"),
    }
}
