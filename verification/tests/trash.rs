use blog_handlers::errors::{GameError, PostError, ProjectError};
use blog_handlers::trash::{
    check_delegations, check_game_restore, check_post_delete, check_post_restore, check_purge,
    deleted_by, deletion_reason, is_allowed_reason, move_to_trash, plan_game_deletion,
    plan_project_deletion, restore_from_trash, GameDeletion, ProjectDeletion, TrashState,
};

fn live(status: &str) -> TrashState {
    TrashState {
        status: status.to_string(),
        in_trash: false,
        deletion_reason: None,
        deletion_detail: None,
        deleted_by: None,
        prev_status: None,
    }
}

#[test]
fn reasons() {
    assert_eq!(deletion_reason(None), "user_request");
    assert_eq!(deletion_reason(Some("dmca".to_string())), "dmca");
    for r in ["user_request", "dmca", "moderation", "replaced", "other"] {
        assert!(is_allowed_reason(r));
    }
    assert!(!is_allowed_reason("spam"));
    assert_eq!(deleted_by("12"), 12);
    assert_eq!(deleted_by("x"), 0);
}

#[test]
fn restoring_a_trashed_post_gives_the_live_post_back() {
    let post = live("published");
    let trashed = move_to_trash(live("published"), "dmca".to_string(), Some("notice".to_string()), 4);
    assert!(trashed.in_trash);
    assert_eq!(trashed.deletion_reason.as_deref(), Some("dmca"));
    assert_eq!(trashed.deletion_detail.as_deref(), Some("notice"));
    assert_eq!(trashed.deleted_by, Some(4));
    assert_eq!(trashed.prev_status.as_deref(), Some("published"));
    let restored = restore_from_trash(trashed);
    assert_eq!(restored.status, post.status);
    assert_eq!(restored.in_trash, post.in_trash);
    assert_eq!(restored.deletion_reason, post.deletion_reason);
    assert_eq!(restored.deletion_detail, post.deletion_detail);
    assert_eq!(restored.deleted_by, post.deleted_by);
    assert_eq!(restored.prev_status, post.prev_status);
}

#[test]
fn post_deletion_rules() {
    assert_eq!(check_post_delete(1, 1, "user", "post", false, None).unwrap(), "user_request");
    assert_eq!(check_post_delete(1, 2, "moderator", "post", false, Some("moderation".to_string())).unwrap(), "moderation");
    match check_post_delete(1, 1, "user", "game", false, None) {
        Err(PostError::Validation(m)) => assert_eq!(m, "Use the typed delete endpoint for projects/games."),
        other => panic!("{other:?}"),
    }
    match check_post_delete(1, 1, "user", "post", true, None) {
        Err(PostError::Conflict(m)) => assert_eq!(m, "Post already in trash."),
        other => panic!("{other:?}"),
    }
    assert!(matches!(check_post_delete(1, 2, "user", "post", false, None), Err(PostError::Forbidden)));
    match check_post_delete(1, 1, "user", "post", false, Some("spam".to_string())) {
        Err(PostError::Validation(m)) => assert_eq!(m, "Invalid deletion reason."),
        other => panic!("{other:?}"),
    }
}

#[test]
fn post_restore_and_purge_rules() {
    assert!(check_post_restore(1, 1, "user", true).is_ok());
    assert!(check_post_restore(1, 2, "admin", true).is_ok());
    assert!(matches!(check_post_restore(1, 2, "user", true), Err(PostError::Forbidden)));
    match check_post_restore(1, 1, "user", false) {
        Err(PostError::Conflict(m)) => assert_eq!(m, "Post is not in trash."),
        other => panic!("{other:?}"),
    }
    assert!(check_purge("admin"));
    assert!(!check_purge("moderator"));
}

#[test]
fn game_deletion_rules() {
    assert!(matches!(plan_game_deletion("game", false, false, None), Ok(GameDeletion::SoftDelete(r)) if r == "user_request"));
    assert!(matches!(plan_game_deletion("project", true, true, Some("x".to_string())), Ok(GameDeletion::DropGameRow(r)) if r == "x"));
    assert!(matches!(plan_game_deletion("post", false, false, None), Err(GameError::InvalidDemo(m)) if m == "Use the typed delete endpoint for this content kind."));
    assert!(matches!(plan_game_deletion("game", true, false, None), Err(GameError::Conflict(m)) if m == "Game already in trash."));
    assert!(matches!(plan_game_deletion("game", false, false, Some("spam".to_string())), Err(GameError::InvalidDemo(m)) if m == "Invalid deletion reason."));
    assert!(check_delegations(0, None).is_ok());
    assert!(check_delegations(2, Some(true)).is_ok());
    assert!(matches!(check_delegations(2, Some(false)), Err(GameError::Conflict(m)) if m == "Game is delegated by 2 published project(s); use ?force=true to confirm."));
    assert!(check_game_restore(true).is_ok());
    assert!(matches!(check_game_restore(false), Err(GameError::Conflict(m)) if m == "Game is not in trash."));
}

#[test]
fn project_deletion_rules() {
    assert!(matches!(plan_project_deletion(true, "game", true, None), Ok(ProjectDeletion::DropProjectRow)));
    assert!(matches!(plan_project_deletion(false, "project", false, None), Ok(ProjectDeletion::SoftDelete(r)) if r == "user_request"));
    assert!(matches!(plan_project_deletion(false, "post", false, None), Err(ProjectError::InvalidDemo(m)) if m == "Use the typed delete endpoint for this content kind."));
    assert!(matches!(plan_project_deletion(false, "project", true, None), Err(ProjectError::Conflict(m)) if m == "Project already in trash."));
    assert!(matches!(plan_project_deletion(false, "project", false, Some("spam".to_string())), Err(ProjectError::InvalidDemo(m)) if m == "Invalid deletion reason."));
}
