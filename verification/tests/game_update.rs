use blog_handlers::errors::GameError;
use blog_handlers::flows::Step;
use blog_handlers::game_update::{game_update_flags, updated_demo_url};
use blog_handlers::plans::game_tail_plan;

fn run(launcher: &str, upload: bool, switch: Option<i64>, zip: bool, og: bool) -> Vec<String> {
    let flags = game_update_flags(launcher, upload, switch, zip, og);
    let (refusal, steps) = game_tail_plan(&flags);
    let mut seen = Vec::new();
    for step in steps {
        match step {
            Step::Run(w) => seen.push(format!("{w:?}")),
            Step::Refuse => match &refusal {
                Some(GameError::InvalidDemo(m)) => {
                    seen.push(m.clone());
                    return seen;
                }
                other => panic!("{other:?}"),
            },
            other => panic!("{other:?}"),
        }
    }
    seen.push("respond".to_string());
    seen
}

#[test]
fn the_tail_follows_the_original_order() {
    assert_eq!(run("v86", true, None, false, true), vec!["AttachV86", "ClearBundle", "UpdateCover", "respond"]);
    assert_eq!(run("v86", false, Some(12), false, false), vec!["Repoint(12)", "ClearBundle", "respond"]);
    assert_eq!(run("jsdos", false, Some(12), true, false), vec!["ClearV86", "ExtractDemo", "respond"]);
    assert_eq!(run("html5", false, None, true, false), vec!["ClearBundle", "ClearV86", "ExtractDemo", "respond"]);
}

#[test]
fn the_tail_refuses_conflicting_v86_requests() {
    assert_eq!(run("v86", true, Some(3), false, false), vec!["Send either a v86 package upload or a system switch, not both."]);
    assert_eq!(run("html5", true, None, false, false), vec!["A v86 package cannot be attached to a non-v86 game."]);
}

#[test]
fn the_stored_demo_url() {
    let local = "/srv/demos/game-3/index.html".to_string();
    assert_eq!(updated_demo_url(None, true, local.clone()).unwrap(), Some(local.clone()));
    assert_eq!(updated_demo_url(Some(" ".to_string()), false, local.clone()).unwrap(), None);
    assert_eq!(updated_demo_url(Some(" https://x.io ".to_string()), false, local.clone()).unwrap(), Some("https://x.io".to_string()));
    assert!(updated_demo_url(Some("ftp://x".to_string()), true, local).is_err());
}
