use blog_handlers::errors::{GameError, PostError, ProjectError};
use blog_handlers::flows::{flow_next, flow_start, Cursor, Next, Outcome, Step, Work};
use blog_handlers::links::GameLink;
use blog_handlers::multipart::{admit_field, classify_field, new_intake, Intake};
use blog_handlers::plans::{
    game_deletion_plan, new_game_plan, new_project_plan, update_game_plan, update_post_ids,
    update_post_plan, update_project_plan,
};
use blog_handlers::project_links::ProjectLink;

fn intake_with(files: &[usize], names: &[usize], data: bool) -> Intake {
    let mut it = new_intake();
    for i in files {
        admit_field(&mut it, &classify_field(&format!("file_{i}"), "game_data")).unwrap();
    }
    for i in names {
        admit_field(&mut it, &classify_field(&format!("short_name_{i}"), "game_data")).unwrap();
    }
    if data {
        admit_field(&mut it, &classify_field("game_data", "game_data")).unwrap();
    }
    it
}

fn invalid_demo(r: Result<impl std::fmt::Debug, GameError>) -> String {
    match r {
        Err(GameError::InvalidDemo(m)) => m,
        other => panic!("{other:?}"),
    }
}

/// Runs a plan, failing the work at position `fail_at` (if any), and gives
/// the work performed and the final answer.
fn run(plan: &Vec<Step>, fail_at: Option<usize>) -> (Vec<Work>, Next) {
    let mut done = Vec::new();
    let (mut next, mut cursor): (Next, Cursor) = flow_start(plan);
    loop {
        match next {
            Next::Run(w) => {
                done.push(w);
                let outcome = if fail_at == Some(cursor.at) && !cursor.undoing {
                    Outcome::Failed
                } else {
                    Outcome::Done
                };
                let (n, c) = flow_next(plan, cursor, outcome);
                next = n;
                cursor = c;
            }
            other => return (done, other),
        }
    }
}

#[test]
fn a_taken_slug_is_refused_before_anything_else() {
    let it = intake_with(&[], &[], true);
    let r = new_game_plan("pong", true, "nonsense", None, false, false, &it, 3, vec![]);
    assert_eq!(invalid_demo(r.map(|p| p.steps)), "The game slug 'pong' is already in use.");
}

#[test]
fn a_v86_game_without_a_package_is_refused_before_any_upload() {
    let it = intake_with(&[1], &[1], true);
    let r = new_game_plan("pong", false, "v86", None, false, false, &it, 1, vec![]);
    assert_eq!(invalid_demo(r.map(|p| p.steps)), "A completed v86 game package is required.");
}

#[test]
fn missing_inline_media_refuse_a_new_game() {
    let it = intake_with(&[1], &[], true);
    match new_game_plan("pong", false, "html5", None, true, false, &it, 1, vec![]) {
        Err(GameError::UploadFailed(m)) => assert_eq!(m, "Cannot locate short_name_1"),
        other => panic!("{:?}", other.map(|p| p.steps)),
    }
}

#[test]
fn a_failed_game_row_deletes_the_new_post() {
    let it = intake_with(&[1], &[1], true);
    let p = new_game_plan("pong", false, "html5", None, true, false, &it, 1, vec![]).unwrap();
    assert!(p.refusal.is_none());
    assert_eq!(
        p.steps,
        vec![
            Step::Run(Work::UploadInlineMedia),
            Step::Run(Work::NewPost),
            Step::Guarded(Work::InsertGame, Work::DeletePost),
            Step::Run(Work::ExtractDemo),
            Step::Run(Work::ApplyCreatedCover),
        ]
    );
    let (done, answer) = run(&p.steps, Some(2));
    assert_eq!(
        done,
        vec![Work::UploadInlineMedia, Work::NewPost, Work::InsertGame, Work::DeletePost]
    );
    assert_eq!(answer, Next::Fail);
    let (done, answer) = run(&p.steps, None);
    assert_eq!(done.len(), 5);
    assert_eq!(answer, Next::Respond);
}

#[test]
fn a_bad_demo_url_refuses_a_new_game_after_its_post() {
    let it = intake_with(&[], &[], true);
    let p = new_game_plan("pong", false, "embed", Some("ftp://x".to_string()), false, false, &it, 0, vec![])
        .unwrap();
    assert_eq!(p.steps, vec![Step::Run(Work::NewPost), Step::Refuse]);
    assert_eq!(invalid_demo(Err::<(), _>(p.refusal.unwrap())), "Demo URL must be an http:// or https:// URL.");
    let (done, answer) = run(&p.steps, None);
    assert_eq!(done, vec![Work::NewPost]);
    assert_eq!(answer, Next::Refuse);
}

#[test]
fn a_new_game_hands_the_cleaned_values_to_its_row() {
    let it = intake_with(&[], &[], true);
    let links = vec![
        GameLink { title: "A".to_string(), slug: "a".to_string() },
        GameLink { title: " ".to_string(), slug: "b".to_string() },
    ];
    let p = new_game_plan("pong", false, "v86", None, false, true, &it, 0, links).unwrap();
    assert_eq!(p.demo_url, None);
    assert_eq!(p.related_games.unwrap().len(), 1);
    assert_eq!(
        p.steps,
        vec![
            Step::Run(Work::NewPost),
            Step::Guarded(Work::InsertGame, Work::DeletePost),
            Step::Guarded(Work::AttachV86, Work::DeletePost),
            Step::Run(Work::ApplyCreatedCover),
        ]
    );
    let (done, answer) = run(&p.steps, Some(2));
    assert_eq!(done, vec![Work::NewPost, Work::InsertGame, Work::AttachV86, Work::DeletePost]);
    assert_eq!(answer, Next::Fail);
}

#[test]
fn an_update_with_attachments_but_no_launcher_writes_nothing() {
    let it = intake_with(&[], &[], true);
    let r = update_game_plan(
        Some("html5".to_string()),
        None,
        Some("https://x.io".to_string()),
        false,
        &it,
        0,
        None,
        false,
        None,
        false,
        "/d/game-1/index.html".to_string(),
    );
    assert_eq!(invalid_demo(r.map(|p| p.steps)), "Launcher type is required when providing demo attachments.");
    let gone = update_game_plan(None, None, None, false, &it, 0, None, false, None, false, String::new());
    assert!(matches!(gone.map(|p| p.steps), Err(GameError::GameNotFound)));
}

#[test]
fn an_update_runs_its_tail_in_order() {
    let it = intake_with(&[], &[], true);
    let p = update_game_plan(
        Some("jsdos".to_string()),
        Some("v86".to_string()),
        None,
        false,
        &it,
        0,
        None,
        false,
        Some(7),
        true,
        String::new(),
    )
    .unwrap();
    assert!(p.refusal.is_none());
    assert_eq!(
        p.steps,
        vec![
            Step::Run(Work::UpdatePost),
            Step::Run(Work::UpdateGame),
            Step::Run(Work::Repoint(7)),
            Step::Run(Work::ClearBundle),
            Step::Run(Work::UpdateCover),
        ]
    );
}

#[test]
fn a_v86_conflict_is_refused_after_the_game_row() {
    let it = intake_with(&[], &[], true);
    let p = update_game_plan(
        Some("v86".to_string()),
        None,
        None,
        false,
        &it,
        0,
        None,
        true,
        Some(3),
        false,
        String::new(),
    )
    .unwrap();
    assert_eq!(p.steps, vec![Step::Run(Work::UpdatePost), Step::Run(Work::UpdateGame), Step::Refuse]);
    assert_eq!(
        invalid_demo(Err::<(), _>(p.refusal.unwrap())),
        "Send either a v86 package upload or a system switch, not both."
    );
}

#[test]
fn an_update_with_a_zip_stores_the_local_demo() {
    let it = intake_with(&[], &[], true);
    let p = update_game_plan(
        Some("embed".to_string()),
        Some("html5".to_string()),
        None,
        true,
        &it,
        0,
        None,
        false,
        None,
        false,
        "/d/game-1/index.html".to_string(),
    )
    .unwrap();
    assert_eq!(p.demo_url, Some("/d/game-1/index.html".to_string()));
    assert_eq!(
        p.steps,
        vec![
            Step::Run(Work::UpdatePost),
            Step::Run(Work::UpdateGame),
            Step::Run(Work::ClearBundle),
            Step::Run(Work::ClearV86),
            Step::Run(Work::ExtractDemo),
        ]
    );
}

#[test]
fn a_project_without_a_demo_refuses_attachments_before_any_upload() {
    let it = intake_with(&[], &[], true);
    match new_project_plan("p", false, "none", None, true, None, false, &it, 0, vec![]) {
        Err(ProjectError::InvalidDemo(m)) => {
            assert_eq!(m, "Demo attachments are not accepted for projects without demos.")
        }
        other => panic!("{:?}", other.map(|p| p.steps)),
    }
    match new_project_plan("p", false, "game", None, false, Some(4), false, &it, 0, vec![]) {
        Err(ProjectError::InvalidDemo(m)) => assert_eq!(m, "The selected game (4) does not exist."),
        other => panic!("{:?}", other.map(|p| p.steps)),
    }
}

#[test]
fn a_failed_project_row_deletes_the_new_post() {
    let it = intake_with(&[], &[], true);
    let links = vec![ProjectLink { label: "Site".to_string(), url: " https://x.io ".to_string() }];
    let p = new_project_plan("p", false, "game", None, false, Some(4), true, &it, 0, links).unwrap();
    assert_eq!(p.links.unwrap()[0].url, "https://x.io");
    assert_eq!(
        p.steps,
        vec![
            Step::Run(Work::NewPost),
            Step::Guarded(Work::NewProject, Work::DeletePost),
            Step::Run(Work::ApplyCreatedCover),
        ]
    );
    let (done, answer) = run(&p.steps, Some(1));
    assert_eq!(done, vec![Work::NewPost, Work::NewProject, Work::DeletePost]);
    assert_eq!(answer, Next::Fail);
}

#[test]
fn texts_sent_apart_refuse_a_post_update_after_its_upload() {
    let mut it = new_intake();
    admit_field(&mut it, &classify_field("post_data", "post_data")).unwrap();
    let p = update_post_plan(&it, 0, true, false, true).unwrap();
    assert_eq!(p.steps, vec![Step::Run(Work::UploadInlineMedia), Step::Refuse]);
    match p.refusal {
        Some(PostError::UploadFailed(m)) => {
            assert_eq!(m, "Content and Draft must both present or both absent.")
        }
        other => panic!("{other:?}"),
    }
    let (done, answer) = run(&p.steps, None);
    assert_eq!(done, vec![Work::UploadInlineMedia]);
    assert_eq!(answer, Next::Refuse);
    let p = update_post_plan(&it, 0, true, true, true).unwrap();
    assert_eq!(
        p.steps,
        vec![Step::Run(Work::UploadInlineMedia), Step::Run(Work::UpdatePost), Step::Run(Work::UpdateCover)]
    );
    match update_post_plan(&new_intake(), 0, true, true, false) {
        Err(PostError::UploadFailed(m)) => assert_eq!(m, "No post data is given."),
        other => panic!("{:?}", other.map(|p| p.steps)),
    }
}

#[test]
fn post_update_ids_come_from_their_texts() {
    assert_eq!(update_post_ids("5", "9").ok(), Some((5, 9)));
    match update_post_ids("x", "9") {
        Err(PostError::InternalError(m)) => assert_eq!(m, "Cannot parse id."),
        other => panic!("{other:?}"),
    }
    match update_post_ids("5", "nine") {
        Err(PostError::InternalError(m)) => assert_eq!(m, "Cannot parse post_id."),
        other => panic!("{other:?}"),
    }
}

#[test]
fn a_game_goes_to_the_trash_only_after_both_checks() {
    let r = game_deletion_plan("game", false, false, Some("boredom".to_string()), 0, None);
    assert_eq!(invalid_demo(r.map(|p| p.steps)), "Invalid deletion reason.");
    match game_deletion_plan("game", false, false, None, 2, Some(false)) {
        Err(GameError::Conflict(m)) => {
            assert_eq!(m, "Game is delegated by 2 published project(s); use ?force=true to confirm.")
        }
        other => panic!("{:?}", other.map(|p| p.steps)),
    }
    let p = game_deletion_plan("game", false, false, None, 2, Some(true)).unwrap();
    assert_eq!(p.reason, "user_request");
    assert_eq!(p.steps, vec![Step::Tolerant(Work::LogDeletion), Step::Run(Work::SoftDeletePost)]);
    let (done, answer) = run(&p.steps, Some(0));
    assert_eq!(done, vec![Work::LogDeletion, Work::SoftDeletePost]);
    assert_eq!(answer, Next::Respond);
    let shared = game_deletion_plan("project", true, true, Some("dmca".to_string()), 0, None).unwrap();
    assert_eq!(
        shared.steps,
        vec![
            Step::Tolerant(Work::LogDeletion),
            Step::Run(Work::DeleteGameRow),
            Step::Tolerant(Work::RemoveDemoDir),
        ]
    );
}

#[test]
fn a_project_update_refuses_attachments_without_a_demo_type() {
    let it = intake_with(&[], &[], true);
    match update_project_plan(None, None, true, None, &it, 0, None, false, String::new()) {
        Err(ProjectError::InvalidDemo(m)) => {
            assert_eq!(m, "Demo type is required when providing demo attachments.")
        }
        other => panic!("{:?}", other.map(|p| p.steps)),
    }
    let p = update_project_plan(
        Some("html5".to_string()),
        None,
        true,
        None,
        &it,
        0,
        Some(vec![ProjectLink { label: "x".to_string(), url: "javascript:alert(1)".to_string() }]),
        true,
        "/d/4/index.html".to_string(),
    )
    .unwrap();
    assert_eq!(p.steps, vec![Step::Run(Work::UpdatePost), Step::Refuse]);
    match p.refusal {
        Some(ProjectError::InvalidDemo(m)) => assert_eq!(m, "Link URL must be an http:// or https:// URL."),
        other => panic!("{other:?}"),
    }
    let p = update_project_plan(Some("html5".to_string()), None, true, None, &it, 0, None, true, "/d/4/index.html".to_string())
        .unwrap();
    assert_eq!(p.demo_url, Some("/d/4/index.html".to_string()));
    assert_eq!(
        p.steps,
        vec![
            Step::Run(Work::UpdatePost),
            Step::Run(Work::UpdateProject),
            Step::Run(Work::ExtractDemo),
            Step::Run(Work::UpdateCover),
        ]
    );
}

#[test]
fn a_refusal_is_always_the_last_step() {
    let it = intake_with(&[], &[], true);
    let plans = vec![
        new_game_plan("g", false, "embed", Some("ftp://x".to_string()), false, false, &it, 0, vec![]).unwrap().steps,
        update_game_plan(Some("v86".to_string()), None, None, false, &it, 0, None, true, Some(1), true, String::new())
            .unwrap()
            .steps,
        update_post_plan(&it, 0, false, true, true).unwrap().steps,
    ];
    for steps in plans {
        let at = steps.iter().position(|s| *s == Step::Refuse).expect("a refusal");
        assert_eq!(at, steps.len() - 1);
    }
}

#[test]
fn a_new_post_uploads_then_creates() {
    let mut it = new_intake();
    admit_field(&mut it, &classify_field("post_data", "post_data")).unwrap();
    let p = blog_handlers::plans::new_post_plan(&it, 0).unwrap();
    assert_eq!(
        p.steps,
        vec![Step::Run(Work::UploadInlineMedia), Step::Run(Work::NewPost), Step::Run(Work::ApplyCreatedCover)]
    );
    match blog_handlers::plans::new_post_plan(&it, 1) {
        Err(PostError::UploadFailed(m)) => assert_eq!(m, "Cannot locate file_1"),
        other => panic!("{:?}", other.map(|p| p.steps)),
    }
}
