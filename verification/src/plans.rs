//! The plans of the handlers that create, update and delete games, projects
//! and posts. Each function takes what the handler has parsed and read, and
//! either refuses the request, before any outside work is done, or gives the
//! plan that `flows` runs: the work in order, where a later refusal stands,
//! and the values the handler hands to its service calls.
use vstd::prelude::*;
use crate::demos::{
    check_game_slug_free, check_game_update_demo, check_new_game_demo, check_new_project_demo,
    check_project_slug_free, check_project_update_demo, project_update_demo_error, game_update_demo_error, given, has_demo_url, missing_delegate_game,
    new_game_demo_error, new_project_demo_error, opt_view, validate_demo_url, DemoFollowUp,
};
use crate::errors::{project_error_from, GameError, PostError, ProjectError, msg};
use crate::flows::{refuses_last, step_if, Step, Work};
use crate::game_update::{game_update_flags, tail_refusal, updated_demo_url, GameUpdateFlags};
use crate::demos::{check_v86_request, effective_launcher_type, v86_request_error};
use crate::links::{kept_game_links, normalize_links, GameLink, MAX_GAME_LINKS};
use crate::multipart::{check_inline_media, check_post_inline_media, missing_inline, Intake};
use crate::numbers::{decimal, parse_i64, parse_signed64};
use crate::project_links::{link_pairs, normalize_links as normalize_project_links, project_links_outcome, ProjectLink};
use crate::trash::{check_delegations, game_delete_outcome, plan_game_deletion, GameDeletion};
use crate::text::chars_of;
use crate::text::{blank, trimmed};
use crate::urls::is_http_url;

verus! {

/// The complaint about the first inline medium that has not arrived, if any.
pub open spec fn inline_complaint(it: Intake, n: usize) -> Option<Seq<char>> {
    match missing_inline(it.file_indices@, it.short_name_indices@, 1, n as int) {
        None => None,
        Some((i, true)) => Some("Cannot locate file_"@ + decimal(i as nat)),
        Some((i, false)) => Some("Cannot locate short_name_"@ + decimal(i as nat)),
    }
}

/// A demo URL that is given but is no http(s) URL.
pub open spec fn url_refused(u: Option<String>) -> bool {
    u is Some && !blank(u->Some_0@) && !is_http_url(trimmed(u->Some_0@))
}

pub open spec fn url_complaint() -> Seq<char> {
    "Demo URL"@ + " must be an http:// or https:// URL."@
}

/// The demo URL as stored: absent, the empty text for a blank one, else trimmed.
pub open spec fn stored_demo_url(u: Option<String>) -> Option<Seq<char>> {
    match u {
        None => None,
        Some(x) => Some(
            if blank(x@) {
                Seq::empty()
            } else {
                trimmed(x@)
            },
        ),
    }
}

/// More related games than a game may have, once blank ones are dropped.
pub open spec fn too_many_game_links(links: Seq<GameLink>) -> bool {
    kept_game_links(links).len() > MAX_GAME_LINKS
}

/// The plan of a new game that passed its checks.
pub open spec fn new_game_steps(upload: bool, refused: bool, v86: bool, zip: bool) -> Seq<Step> {
    step_if(upload, Step::Run(Work::UploadInlineMedia)) + seq![Step::Run(Work::NewPost)] + if refused {
        seq![Step::Refuse]
    } else {
        seq![Step::Guarded(Work::InsertGame, Work::DeletePost)] + step_if(
            v86,
            Step::Guarded(Work::AttachV86, Work::DeletePost),
        ) + step_if(zip, Step::Run(Work::ExtractDemo)) + seq![Step::Run(Work::ApplyCreatedCover)]
    }
}

/// A plan with the values its service calls take.
pub struct GamePlan {
    pub steps: Vec<Step>,
    /// The error of the plan's refusal step, if it has one.
    pub refusal: Option<GameError>,
    /// The demo URL the game row takes.
    pub demo_url: Option<String>,
    /// The related games the game row takes.
    pub related_games: Option<Vec<GameLink>>,
}

/// The demo URL and related games a game row takes, or the refusal that
/// comes in their place once the post is written.
fn game_row_values(demo_url: Option<String>, related_games: Option<Vec<GameLink>>) -> (r: (
    Option<GameError>,
    Option<String>,
    Option<Vec<GameLink>>,
))
    ensures
        url_refused(demo_url) ==> (r.0 matches Some(GameError::InvalidDemo(m)) && m@
            == url_complaint()),
        !url_refused(demo_url) && related_games is Some && too_many_game_links(
            related_games->Some_0@,
        ) ==> (r.0 matches Some(GameError::InvalidDemo(m)) && m@
            == "A game may have at most 20 related games."@),
        !url_refused(demo_url) && !(related_games is Some && too_many_game_links(
            related_games->Some_0@,
        )) ==> (
        r.0 is None && opt_view(r.1) == stored_demo_url(demo_url) && match related_games {
            None => r.2 is None,
            Some(l) => r.2 matches Some(k) && k@ == kept_game_links(l@),
        }),
{
    let url = match validate_demo_url(demo_url) {
        Ok(u) => u,
        Err(e) => {
            return (Some(e), None, None);
        },
    };
    proof {
        if demo_url is Some && !blank(demo_url->Some_0@) && is_http_url(
            trimmed(demo_url->Some_0@),
        ) {
        }
    }
    match related_games {
        None => (None, url, None),
        Some(l) => match normalize_links(l) {
            Ok(k) => (None, url, Some(k)),
            Err(e) => (Some(e), None, None),
        },
    }
}

/// Plans a new game. The slug, the demo attachments and the inline media are
/// checked, in that order, before anything is uploaded or written. Then the
/// inline media go up (when there are any) and the post is created; a demo
/// URL or related games that the game row cannot take refuse the request
/// there, with the post kept. A game row or v86 package that fails deletes
/// the post again; the demo is extracted and the cover stored last.
pub fn new_game_plan(
    slug: &str,
    slug_taken: bool,
    launcher_type: &str,
    demo_url: Option<String>,
    has_demo_zip: bool,
    has_v86_upload: bool,
    intake: &Intake,
    number_of_files: usize,
    related_games: Vec<GameLink>,
) -> (r: Result<GamePlan, GameError>)
    ensures
        slug_taken ==> (r matches Err(GameError::InvalidDemo(m)) && m@ == "The game slug '"@ + slug@
            + "' is already in use."@),
        !slug_taken && new_game_demo_error(
            launcher_type@,
            given(demo_url),
            has_demo_zip,
            has_v86_upload,
        ) is Some ==> (r matches Err(GameError::InvalidDemo(m)) && m@ == new_game_demo_error(
            launcher_type@,
            given(demo_url),
            has_demo_zip,
            has_v86_upload,
        )->Some_0),
        !slug_taken && new_game_demo_error(
            launcher_type@,
            given(demo_url),
            has_demo_zip,
            has_v86_upload,
        ) is None && inline_complaint(*intake, number_of_files) is Some ==> (
        r matches Err(GameError::UploadFailed(m)) && m@ == inline_complaint(
            *intake,
            number_of_files,
        )->Some_0),
        !slug_taken && new_game_demo_error(
            launcher_type@,
            given(demo_url),
            has_demo_zip,
            has_v86_upload,
        ) is None && inline_complaint(*intake, number_of_files) is None ==> (r matches Ok(p)
            && p.steps@ == new_game_steps(
            number_of_files > 0,
            url_refused(demo_url) || too_many_game_links(related_games@),
            has_v86_upload,
            has_demo_zip,
        ) && (url_refused(demo_url) ==> (p.refusal matches Some(GameError::InvalidDemo(m)) && m@
            == url_complaint())) && (!url_refused(demo_url) && too_many_game_links(related_games@)
            ==> (p.refusal matches Some(GameError::InvalidDemo(m)) && m@
            == "A game may have at most 20 related games."@)) && (!url_refused(demo_url)
            && !too_many_game_links(related_games@) ==> (p.refusal is None && opt_view(p.demo_url)
            == stored_demo_url(demo_url) && p.related_games is Some && p.related_games->Some_0@
            == kept_game_links(related_games@)))),
{
    check_game_slug_free(slug, slug_taken)?;
    let url_given = has_demo_url(&demo_url);
    check_new_game_demo(launcher_type, url_given, has_demo_zip, has_v86_upload)?;
    check_inline_media(intake, number_of_files)?;
    let ghost refused = url_refused(demo_url) || too_many_game_links(related_games@);
    let (refusal, url, links) = game_row_values(demo_url, Some(related_games));
    let mut steps: Vec<Step> = Vec::new();
    if number_of_files > 0 {
        steps.push(Step::Run(Work::UploadInlineMedia));
    }
    steps.push(Step::Run(Work::NewPost));
    let ghost head = steps@;
    if refusal.is_some() {
        steps.push(Step::Refuse);
    } else {
        steps.push(Step::Guarded(Work::InsertGame, Work::DeletePost));
        if has_v86_upload {
            steps.push(Step::Guarded(Work::AttachV86, Work::DeletePost));
        }
        if has_demo_zip {
            steps.push(Step::Run(Work::ExtractDemo));
        }
        steps.push(Step::Run(Work::ApplyCreatedCover));
    }
    assert(head =~= step_if(number_of_files > 0, Step::Run(Work::UploadInlineMedia)) + seq![
        Step::Run(Work::NewPost),
    ]);
    assert(steps@ =~= new_game_steps(number_of_files > 0, refused, has_v86_upload, has_demo_zip));
    Ok(GamePlan { steps, refusal, demo_url: url, related_games: links })
}

/// The launcher an update leaves a game with.
pub open spec fn effective(requested: Option<String>, current: Seq<char>) -> Seq<char> {
    match requested {
        Some(t) => t@,
        None => current,
    }
}

/// The flags of an update, as `game_update_flags` gives them.
pub open spec fn update_flags(
    eff: Seq<char>,
    v86_upload: bool,
    v86_switch: Option<i64>,
    zip: bool,
    og: bool,
) -> GameUpdateFlags {
    GameUpdateFlags {
        keeps_jsdos: eff == "jsdos"@,
        keeps_v86: eff == "v86"@,
        v86_upload,
        v86_switch,
        has_demo_zip: zip,
        has_og_image_seconds: og,
    }
}

/// What an update does once the game row is written: refuse a v86 request
/// that does not fit, else attach or re-point the v86 artifact, clear what
/// the launcher no longer uses, extract the demo and store the cover.
pub open spec fn game_tail_steps(f: GameUpdateFlags) -> Seq<Step> {
    if tail_refusal(f) is Some {
        seq![Step::Refuse]
    } else {
        step_if(f.v86_upload, Step::Run(Work::AttachV86)) + match f.v86_switch {
            Some(id) => step_if(f.keeps_v86, Step::Run(Work::Repoint(id))),
            None => Seq::empty(),
        } + step_if(!f.keeps_jsdos, Step::Run(Work::ClearBundle)) + step_if(
            !f.keeps_v86,
            Step::Run(Work::ClearV86),
        ) + step_if(f.has_demo_zip, Step::Run(Work::ExtractDemo)) + step_if(
            f.has_og_image_seconds,
            Step::Run(Work::UpdateCover),
        )
    }
}

/// The plan of a game update that passed its checks.
pub open spec fn update_game_steps(upload: bool, refused: bool, f: GameUpdateFlags) -> Seq<Step> {
    step_if(upload, Step::Run(Work::UploadInlineMedia)) + seq![Step::Run(Work::UpdatePost)] + if refused {
        seq![Step::Refuse]
    } else {
        seq![Step::Run(Work::UpdateGame)] + game_tail_steps(f)
    }
}

/// The demo URL an update stores in the game row.
pub open spec fn updated_url(u: Option<String>, zip: bool, local: Seq<char>) -> Option<Seq<char>> {
    if zip {
        Some(local)
    } else if u is None || blank(u->Some_0@) {
        None
    } else {
        Some(trimmed(u->Some_0@))
    }
}

/// Plans a game update. A game that is gone, demo attachments its launcher
/// does not take and missing inline media refuse the request before anything
/// is uploaded or written. Then the inline media go up (when there are any)
/// and the post is updated; a demo URL or related games that the game row
/// cannot take refuse the request there. After the game row, a v86 request
/// that does not fit refuses it; else the tail of `game_tail_steps` follows.
pub fn update_game_plan(
    current_launcher_type: Option<String>,
    launcher_type: Option<String>,
    demo_url: Option<String>,
    has_demo_zip: bool,
    intake: &Intake,
    number_of_files: usize,
    related_games: Option<Vec<GameLink>>,
    v86_upload: bool,
    v86_switch: Option<i64>,
    has_og_image_seconds: bool,
    local_demo_url: String,
) -> (r: Result<GamePlan, GameError>)
    ensures
        current_launcher_type is None ==> r matches Err(GameError::GameNotFound),
        current_launcher_type is Some && game_update_demo_error(
            opt_view(launcher_type),
            demo_url is Some,
            given(demo_url),
            has_demo_zip,
        ) is Some ==> (r matches Err(GameError::InvalidDemo(m)) && m@ == game_update_demo_error(
            opt_view(launcher_type),
            demo_url is Some,
            given(demo_url),
            has_demo_zip,
        )->Some_0),
        current_launcher_type is Some && game_update_demo_error(
            opt_view(launcher_type),
            demo_url is Some,
            given(demo_url),
            has_demo_zip,
        ) is None && inline_complaint(*intake, number_of_files) is Some ==> (
        r matches Err(GameError::UploadFailed(m)) && m@ == inline_complaint(
            *intake,
            number_of_files,
        )->Some_0),
        current_launcher_type is Some && game_update_demo_error(
            opt_view(launcher_type),
            demo_url is Some,
            given(demo_url),
            has_demo_zip,
        ) is None && inline_complaint(*intake, number_of_files) is None ==> ({
            let f = update_flags(
                effective(launcher_type, current_launcher_type->Some_0@),
                v86_upload,
                v86_switch,
                has_demo_zip,
                has_og_image_seconds,
            );
            let links_refused = related_games is Some && too_many_game_links(
                related_games->Some_0@,
            );
            &&& r matches Ok(p)
            &&& p.steps@ == update_game_steps(
                number_of_files > 0,
                url_refused(demo_url) || links_refused,
                f,
            )
            &&& url_refused(demo_url) ==> (p.refusal matches Some(GameError::InvalidDemo(m)) && m@
                == url_complaint())
            &&& !url_refused(demo_url) && links_refused ==> (p.refusal matches Some(
                GameError::InvalidDemo(m),
            ) && m@ == "A game may have at most 20 related games."@)
            &&& !url_refused(demo_url) && !links_refused ==> {
                &&& opt_view(p.demo_url) == updated_url(demo_url, has_demo_zip, local_demo_url@)
                &&& match related_games {
                    None => p.related_games is None,
                    Some(l) => p.related_games is Some && p.related_games->Some_0@
                        == kept_game_links(l@),
                }
                &&& tail_refusal(f) is None ==> p.refusal is None
                &&& tail_refusal(f) is Some ==> (p.refusal matches Some(GameError::InvalidDemo(m))
                    && m@ == tail_refusal(f)->Some_0)
            }
        }),
{
    let current = match current_launcher_type {
        Some(c) => c,
        None => {
            return Err(GameError::GameNotFound);
        },
    };
    check_game_update_demo(&launcher_type, &demo_url, has_demo_zip)?;
    check_inline_media(intake, number_of_files)?;
    let eff = effective_launcher_type(&launcher_type, current.as_str());
    let flags = game_update_flags(
        eff.as_str(),
        v86_upload,
        v86_switch,
        has_demo_zip,
        has_og_image_seconds,
    );
    let ghost f = update_flags(
        effective(launcher_type, current@),
        v86_upload,
        v86_switch,
        has_demo_zip,
        has_og_image_seconds,
    );
    assert(flags == f);
    let ghost links_refused = related_games is Some && too_many_game_links(related_games->Some_0@);
    let ghost refused = url_refused(demo_url) || links_refused;
    let (refusal, url, links) = update_row_values(
        demo_url,
        has_demo_zip,
        local_demo_url,
        related_games,
    );
    let mut steps: Vec<Step> = Vec::new();
    if number_of_files > 0 {
        steps.push(Step::Run(Work::UploadInlineMedia));
    }
    steps.push(Step::Run(Work::UpdatePost));
    let ghost head = steps@;
    assert(head =~= step_if(number_of_files > 0, Step::Run(Work::UploadInlineMedia)) + seq![
        Step::Run(Work::UpdatePost),
    ]);
    if refusal.is_some() {
        steps.push(Step::Refuse);
        assert(steps@ =~= update_game_steps(number_of_files > 0, refused, f));
        return Ok(GamePlan { steps, refusal, demo_url: url, related_games: links });
    }
    steps.push(Step::Run(Work::UpdateGame));
    let ghost mid = steps@;
    let (tail_error, mut tail) = game_tail_plan(&flags);
    steps.append(&mut tail);
    assert(steps@ =~= mid + game_tail_steps(f));
    assert(steps@ =~= update_game_steps(number_of_files > 0, refused, f));
    Ok(GamePlan { steps, refusal: tail_error, demo_url: url, related_games: links })
}

/// The demo URL and related games an update hands to the game row, or the
/// refusal that comes in their place once the post is written.
fn update_row_values(
    demo_url: Option<String>,
    has_demo_zip: bool,
    local_demo_url: String,
    related_games: Option<Vec<GameLink>>,
) -> (r: (Option<GameError>, Option<String>, Option<Vec<GameLink>>))
    ensures
        url_refused(demo_url) ==> (r.0 matches Some(GameError::InvalidDemo(m)) && m@
            == url_complaint()),
        !url_refused(demo_url) && related_games is Some && too_many_game_links(
            related_games->Some_0@,
        ) ==> (r.0 matches Some(GameError::InvalidDemo(m)) && m@
            == "A game may have at most 20 related games."@),
        !url_refused(demo_url) && !(related_games is Some && too_many_game_links(
            related_games->Some_0@,
        )) ==> (r.0 is None && opt_view(r.1) == updated_url(demo_url, has_demo_zip, local_demo_url@)
            && match related_games {
            None => r.2 is None,
            Some(l) => r.2 is Some && r.2->Some_0@ == kept_game_links(l@),
        }),
{
    match updated_demo_url(demo_url, has_demo_zip, local_demo_url) {
        Err(e) => (Some(e), None, None),
        Ok(u) => match related_games {
            None => (None, u, None),
            Some(l) => match normalize_links(l) {
                Ok(k) => (None, u, Some(k)),
                Err(e) => (Some(e), None, None),
            },
        },
    }
}

/// The steps after the game row, with the refusal among them if there is one.
pub fn game_tail_plan(flags: &GameUpdateFlags) -> (r: (Option<GameError>, Vec<Step>))
    ensures
        r.1@ == game_tail_steps(*flags),
        tail_refusal(*flags) is None ==> r.0 is None,
        tail_refusal(*flags) is Some ==> (r.0 matches Some(GameError::InvalidDemo(m)) && m@
            == tail_refusal(*flags)->Some_0),
{
    let mut steps: Vec<Step> = Vec::new();
    assert(tail_refusal(*flags) == v86_request_error(
        flags.v86_upload,
        flags.v86_switch is Some,
        flags.keeps_v86,
    ));
    match check_v86_request(flags.v86_upload, flags.v86_switch.is_some(), flags.keeps_v86) {
        Err(e) => {
            steps.push(Step::Refuse);
            assert(steps@ =~= game_tail_steps(*flags));
            return (Some(e), steps);
        },
        Ok(()) => {},
    }
    if flags.v86_upload {
        steps.push(Step::Run(Work::AttachV86));
    }
    let ghost s1 = steps@;
    match flags.v86_switch {
        Some(id) => {
            if flags.keeps_v86 {
                steps.push(Step::Run(Work::Repoint(id)));
            }
        },
        None => {},
    }
    let ghost s2 = steps@;
    if !flags.keeps_jsdos {
        steps.push(Step::Run(Work::ClearBundle));
    }
    let ghost s3 = steps@;
    if !flags.keeps_v86 {
        steps.push(Step::Run(Work::ClearV86));
    }
    let ghost s4 = steps@;
    if flags.has_demo_zip {
        steps.push(Step::Run(Work::ExtractDemo));
    }
    let ghost s5 = steps@;
    if flags.has_og_image_seconds {
        steps.push(Step::Run(Work::UpdateCover));
    }
    assert(s1 =~= step_if(flags.v86_upload, Step::Run(Work::AttachV86)));
    assert(s2 =~= s1 + match flags.v86_switch {
        Some(id) => step_if(flags.keeps_v86, Step::Run(Work::Repoint(id))),
        None => Seq::empty(),
    });
    assert(s3 =~= s2 + step_if(!flags.keeps_jsdos, Step::Run(Work::ClearBundle)));
    assert(s4 =~= s3 + step_if(!flags.keeps_v86, Step::Run(Work::ClearV86)));
    assert(s5 =~= s4 + step_if(flags.has_demo_zip, Step::Run(Work::ExtractDemo)));
    assert(steps@ =~= s5 + step_if(flags.has_og_image_seconds, Step::Run(Work::UpdateCover)));
    assert(steps@ =~= game_tail_steps(*flags));
    (None, steps)
}

/// The plan of a new project that passed its checks.
pub open spec fn new_project_steps(upload: bool, refused: bool, zip: bool) -> Seq<Step> {
    step_if(upload, Step::Run(Work::UploadInlineMedia)) + seq![Step::Run(Work::NewPost)] + if refused {
        seq![Step::Refuse]
    } else {
        seq![Step::Guarded(Work::NewProject, Work::DeletePost)] + step_if(
            zip,
            Step::Run(Work::ExtractDemo),
        ) + seq![Step::Run(Work::ApplyCreatedCover)]
    }
}

/// Why a new project is refused before any outside work, if it is.
pub open spec fn new_project_refusal(
    demo_type: Seq<char>,
    url: bool,
    zip: bool,
    delegate: Option<i64>,
    game_found: bool,
    it: Intake,
    n: usize,
) -> Option<Seq<char>> {
    match new_project_demo_error(demo_type, url, zip, delegate) {
        Some(m) => Some(m),
        None => if demo_type == "game"@ && !game_found {
            Some("The selected game ("@ + crate::numbers::signed_decimal(delegate->Some_0 as int)
                + ") does not exist."@)
        } else {
            inline_complaint(it, n)
        },
    }
}

/// A project plan with the values the project row takes.
pub struct ProjectPlan {
    pub steps: Vec<Step>,
    pub refusal: Option<ProjectError>,
    pub demo_url: Option<String>,
    pub links: Option<Vec<ProjectLink>>,
}

/// The demo URL and links a project row takes, or the refusal in their place.
fn project_row_values(demo_url: Option<String>, links: Vec<ProjectLink>) -> (r: (
    Option<ProjectError>,
    Option<String>,
    Option<Vec<ProjectLink>>,
))
    ensures
        url_refused(demo_url) ==> (r.0 matches Some(ProjectError::InvalidDemo(m)) && m@
            == url_complaint()),
        !url_refused(demo_url) && project_links_outcome(links@) is Err ==> (r.0 matches Some(
            ProjectError::InvalidDemo(m),
        ) && m@ == project_links_outcome(links@)->Err_0),
        !url_refused(demo_url) && project_links_outcome(links@) is Ok ==> (r.0 is None && opt_view(
            r.1,
        ) == stored_demo_url(demo_url) && r.2 is Some && link_pairs(r.2->Some_0@)
            == project_links_outcome(links@)->Ok_0),
{
    let url = match validate_demo_url(demo_url) {
        Ok(u) => u,
        Err(GameError::InvalidDemo(m)) => {
            return (Some(ProjectError::InvalidDemo(m)), None, None);
        },
        Err(e) => {
            proof {
                assert(false);
            }
            return (Some(project_error_from(e)), None, None);
        },
    };
    match normalize_project_links(links) {
        Ok(k) => (None, url, Some(k)),
        Err(e) => (Some(e), None, None),
    }
}

/// Plans a new project. The slug, the demo attachments, the delegated game
/// (which the caller has looked up when the demo type is `game`) and the
/// inline media are checked, in that order, before anything is uploaded or
/// written. Then the inline media go up and the post is created; a demo URL
/// or links that the project row cannot take refuse the request there, with
/// the post kept. A project row that fails deletes the post again; the demo
/// is extracted and the cover stored last.
pub fn new_project_plan(
    slug: &str,
    slug_taken: bool,
    demo_type: &str,
    demo_url: Option<String>,
    has_demo_zip: bool,
    delegate_game_id: Option<i64>,
    delegate_game_found: bool,
    intake: &Intake,
    number_of_files: usize,
    links: Vec<ProjectLink>,
) -> (r: Result<ProjectPlan, ProjectError>)
    ensures
        slug_taken ==> (r matches Err(ProjectError::InvalidDemo(m)) && m@ == "The project slug '"@
            + slug@ + "' is already in use."@),
        !slug_taken && new_project_demo_error(demo_type@, given(demo_url), has_demo_zip, delegate_game_id)
            is Some ==> (r matches Err(ProjectError::InvalidDemo(m)) && m@ == new_project_demo_error(
            demo_type@,
            given(demo_url),
            has_demo_zip,
            delegate_game_id,
        )->Some_0),
        !slug_taken && new_project_demo_error(demo_type@, given(demo_url), has_demo_zip, delegate_game_id)
            is None && demo_type@ == "game"@ && !delegate_game_found ==> (r matches Err(
            ProjectError::InvalidDemo(m),
        ) && m@ == new_project_refusal(
            demo_type@,
            given(demo_url),
            has_demo_zip,
            delegate_game_id,
            delegate_game_found,
            *intake,
            number_of_files,
        )->Some_0),
        !slug_taken && new_project_demo_error(demo_type@, given(demo_url), has_demo_zip, delegate_game_id)
            is None && !(demo_type@ == "game"@ && !delegate_game_found) && inline_complaint(
            *intake,
            number_of_files,
        ) is Some ==> (r matches Err(ProjectError::UploadFailed(m)) && m@ == inline_complaint(
            *intake,
            number_of_files,
        )->Some_0),
        !slug_taken && new_project_refusal(
            demo_type@,
            given(demo_url),
            has_demo_zip,
            delegate_game_id,
            delegate_game_found,
            *intake,
            number_of_files,
        ) is None ==> ({
            let links_refused = project_links_outcome(links@) is Err;
            &&& r matches Ok(p)
            &&& p.steps@ == new_project_steps(
                number_of_files > 0,
                url_refused(demo_url) || links_refused,
                has_demo_zip,
            )
            &&& url_refused(demo_url) ==> (p.refusal matches Some(ProjectError::InvalidDemo(m)) && m@
                == url_complaint())
            &&& !url_refused(demo_url) && links_refused ==> (p.refusal matches Some(
                ProjectError::InvalidDemo(m),
            ) && m@ == project_links_outcome(links@)->Err_0)
            &&& !url_refused(demo_url) && !links_refused ==> (p.refusal is None && opt_view(
                p.demo_url,
            ) == stored_demo_url(demo_url) && p.links is Some && link_pairs(p.links->Some_0@)
                == project_links_outcome(links@)->Ok_0)
        }),
{
    check_project_slug_free(slug, slug_taken)?;
    let url_given = has_demo_url(&demo_url);
    match check_new_project_demo(demo_type, url_given, has_demo_zip, delegate_game_id)? {
        DemoFollowUp::ConfirmGame(g) => {
            if !delegate_game_found {
                return Err(missing_delegate_game(g));
            }
        },
        DemoFollowUp::Done => {},
    }
    match check_inline_media(intake, number_of_files) {
        Ok(()) => {},
        Err(GameError::UploadFailed(m)) => {
            return Err(ProjectError::UploadFailed(m));
        },
        Err(e) => {
            proof {
                assert(false);
            }
            return Err(project_error_from(e));
        },
    }
    let ghost refused = url_refused(demo_url) || project_links_outcome(links@) is Err;
    let (refusal, url, kept) = project_row_values(demo_url, links);
    let mut steps: Vec<Step> = Vec::new();
    if number_of_files > 0 {
        steps.push(Step::Run(Work::UploadInlineMedia));
    }
    steps.push(Step::Run(Work::NewPost));
    let ghost head = steps@;
    if refusal.is_some() {
        steps.push(Step::Refuse);
    } else {
        steps.push(Step::Guarded(Work::NewProject, Work::DeletePost));
        if has_demo_zip {
            steps.push(Step::Run(Work::ExtractDemo));
        }
        steps.push(Step::Run(Work::ApplyCreatedCover));
    }
    assert(head =~= step_if(number_of_files > 0, Step::Run(Work::UploadInlineMedia)) + seq![
        Step::Run(Work::NewPost),
    ]);
    assert(steps@ =~= new_project_steps(number_of_files > 0, refused, has_demo_zip));
    Ok(ProjectPlan { steps, refusal, demo_url: url, links: kept })
}

/// The plan of a post update that passed its checks: the inline media go up
/// first, then content and draft sent apart refuse the request, else the
/// post and, when asked for, its cover are updated.
pub open spec fn update_post_steps(texts_apart: bool, cover: bool) -> Seq<Step> {
    seq![Step::Run(Work::UploadInlineMedia)] + if texts_apart {
        seq![Step::Refuse]
    } else {
        seq![Step::Run(Work::UpdatePost)] + step_if(cover, Step::Run(Work::UpdateCover))
    }
}

/// A post plan.
pub struct PostPlan {
    pub steps: Vec<Step>,
    pub refusal: Option<PostError>,
}

/// The caller's and the post's ids of a post update, from their texts.
pub fn update_post_ids(user_id: &str, post_id: &str) -> (r: Result<(i64, i64), PostError>)
    ensures
        parse_signed64(user_id@) is None ==> (r matches Err(PostError::InternalError(m)) && m@
            == "Cannot parse id."@),
        parse_signed64(user_id@) is Some && parse_signed64(post_id@) is None ==> (r matches Err(
            PostError::InternalError(m),
        ) && m@ == "Cannot parse post_id."@),
        parse_signed64(user_id@) is Some && parse_signed64(post_id@) is Some ==> (r matches Ok(
            (u, p),
        ) && parse_signed64(user_id@) == Some(u as int) && parse_signed64(post_id@) == Some(
            p as int,
        )),
{
    let u = chars_of(user_id);
    let uid = match parse_i64(u.as_slice()) {
        Some(v) => v,
        None => {
            return Err(PostError::InternalError(msg("Cannot parse id.")));
        },
    };
    let p = chars_of(post_id);
    match parse_i64(p.as_slice()) {
        Some(v) => Ok((uid, v)),
        None => Err(PostError::InternalError(msg("Cannot parse post_id."))),
    }
}

/// Plans a post update once its fields are in. Without the post's document,
/// or with inline media missing, the request is refused before anything is
/// uploaded; content and draft sent apart refuse it after the upload.
pub fn update_post_plan(
    intake: &Intake,
    number_of_files: usize,
    has_content: bool,
    has_draft: bool,
    updates_cover: bool,
) -> (r: Result<PostPlan, PostError>)
    ensures
        !intake.has_data ==> (r matches Err(PostError::UploadFailed(m)) && m@
            == "No post data is given."@),
        intake.has_data && inline_complaint(*intake, number_of_files) is Some ==> (r matches Err(
            PostError::UploadFailed(m),
        ) && m@ == inline_complaint(*intake, number_of_files)->Some_0),
        intake.has_data && inline_complaint(*intake, number_of_files) is None ==> (r matches Ok(p)
            && p.steps@ == update_post_steps(has_content != has_draft, updates_cover) && (has_content
            != has_draft ==> (p.refusal matches Some(PostError::UploadFailed(m)) && m@
            == "Content and Draft must both present or both absent."@)) && (has_content == has_draft
            ==> p.refusal is None)),
{
    if !intake.has_data {
        return Err(PostError::UploadFailed(msg("No post data is given.")));
    }
    check_post_inline_media(intake, number_of_files)?;
    let mut steps: Vec<Step> = Vec::new();
    steps.push(Step::Run(Work::UploadInlineMedia));
    if has_content != has_draft {
        steps.push(Step::Refuse);
        assert(steps@ =~= update_post_steps(true, updates_cover));
        return Ok(
            PostPlan {
                steps,
                refusal: Some(
                    PostError::UploadFailed(msg("Content and Draft must both present or both absent.")),
                ),
            },
        );
    }
    steps.push(Step::Run(Work::UpdatePost));
    if updates_cover {
        steps.push(Step::Run(Work::UpdateCover));
    }
    assert(steps@ =~= update_post_steps(false, updates_cover));
    Ok(PostPlan { steps, refusal: None })
}

/// Plans a new post once its fields are in. Without the post's document, or
/// with inline media missing, the request is refused before anything is
/// uploaded; else the inline media go up, the post is created and the cover
/// uploaded with it is stored.
pub fn new_post_plan(intake: &Intake, number_of_files: usize) -> (r: Result<PostPlan, PostError>)
    ensures
        !intake.has_data ==> (r matches Err(PostError::UploadFailed(m)) && m@
            == "No post data is given."@),
        intake.has_data && inline_complaint(*intake, number_of_files) is Some ==> (r matches Err(
            PostError::UploadFailed(m),
        ) && m@ == inline_complaint(*intake, number_of_files)->Some_0),
        intake.has_data && inline_complaint(*intake, number_of_files) is None ==> (r matches Ok(p)
            && p.refusal is None && p.steps@ == seq![
            Step::Run(Work::UploadInlineMedia),
            Step::Run(Work::NewPost),
            Step::Run(Work::ApplyCreatedCover),
        ]),
{
    if !intake.has_data {
        return Err(PostError::UploadFailed(msg("No post data is given.")));
    }
    check_post_inline_media(intake, number_of_files)?;
    let mut steps: Vec<Step> = Vec::new();
    steps.push(Step::Run(Work::UploadInlineMedia));
    steps.push(Step::Run(Work::NewPost));
    steps.push(Step::Run(Work::ApplyCreatedCover));
    assert(steps@ =~= seq![
        Step::Run(Work::UploadInlineMedia),
        Step::Run(Work::NewPost),
        Step::Run(Work::ApplyCreatedCover),
    ]);
    Ok(PostPlan { steps, refusal: None })
}

/// The plan of a game deletion that passed both its checks: a game sharing
/// its post loses its row and demo directory, any other goes to the trash;
/// the log entry comes first and may fail unnoticed.
pub open spec fn game_deletion_steps(drop_row: bool) -> Seq<Step> {
    if drop_row {
        seq![
            Step::Tolerant(Work::LogDeletion),
            Step::Run(Work::DeleteGameRow),
            Step::Tolerant(Work::RemoveDemoDir),
        ]
    } else {
        seq![Step::Tolerant(Work::LogDeletion), Step::Run(Work::SoftDeletePost)]
    }
}

/// A deletion plan with the reason the log and the trash record.
pub struct DeletionPlan {
    pub steps: Vec<Step>,
    pub reason: String,
}

/// Plans the deletion of a game once the caller has read the post's kind,
/// whether it is in the trash, whether a project shares it, and how many
/// published projects delegate to the game. Nothing is written unless both
/// the deletion's own check (`plan_game_deletion`) and the delegation check
/// (`check_delegations`) pass; the caller makes the first of them before it
/// counts the delegating projects.
pub fn game_deletion_plan(
    content_kind: &str,
    in_trash: bool,
    shared: bool,
    reason: Option<String>,
    delegating: usize,
    force: Option<bool>,
) -> (r: Result<DeletionPlan, GameError>)
    ensures
        ({
            let rs = match reason {
                Some(x) => x@,
                None => "user_request"@,
            };
            let blocked = delegating > 0 && force != Some(true);
            match game_delete_outcome(content_kind@, in_trash, shared, rs) {
                Err((true, m)) => r matches Err(GameError::Conflict(x)) && x@ == m,
                Err((false, m)) => r matches Err(GameError::InvalidDemo(x)) && x@ == m,
                Ok((drop_row, v)) => if blocked {
                    r matches Err(GameError::Conflict(x)) && x@ == "Game is delegated by "@
                        + decimal(delegating as nat)
                        + " published project(s); use ?force=true to confirm."@
                } else {
                    r matches Ok(p) && p.steps@ == game_deletion_steps(drop_row) && p.reason@ == v
                },
            }
        }),
{
    let deletion = plan_game_deletion(content_kind, in_trash, shared, reason)?;
    check_delegations(delegating, force)?;
    let mut steps: Vec<Step> = Vec::new();
    steps.push(Step::Tolerant(Work::LogDeletion));
    match deletion {
        GameDeletion::DropGameRow(r) => {
            steps.push(Step::Run(Work::DeleteGameRow));
            steps.push(Step::Tolerant(Work::RemoveDemoDir));
            assert(steps@ =~= game_deletion_steps(true));
            Ok(DeletionPlan { steps, reason: r })
        },
        GameDeletion::SoftDelete(r) => {
            steps.push(Step::Run(Work::SoftDeletePost));
            assert(steps@ =~= game_deletion_steps(false));
            Ok(DeletionPlan { steps, reason: r })
        },
    }
}

/// The plan of a project update that passed its checks.
pub open spec fn update_project_steps(upload: bool, refused: bool, zip: bool, cover: bool) -> Seq<Step> {
    step_if(upload, Step::Run(Work::UploadInlineMedia)) + seq![Step::Run(Work::UpdatePost)] + if refused {
        seq![Step::Refuse]
    } else {
        seq![Step::Run(Work::UpdateProject)] + step_if(zip, Step::Run(Work::ExtractDemo)) + step_if(
            cover,
            Step::Run(Work::UpdateCover),
        )
    }
}

/// The demo URL and links a project update hands to the project row, or the
/// refusal in their place.
fn project_update_values(
    demo_url: Option<String>,
    has_demo_zip: bool,
    local_demo_url: String,
    links: Option<Vec<ProjectLink>>,
) -> (r: (Option<ProjectError>, Option<String>, Option<Vec<ProjectLink>>))
    ensures
        url_refused(demo_url) ==> (r.0 matches Some(ProjectError::InvalidDemo(m)) && m@
            == url_complaint()),
        !url_refused(demo_url) && links is Some && project_links_outcome(links->Some_0@) is Err ==> (
        r.0 matches Some(ProjectError::InvalidDemo(m)) && m@ == project_links_outcome(
            links->Some_0@,
        )->Err_0),
        !url_refused(demo_url) && !(links is Some && project_links_outcome(links->Some_0@) is Err)
            ==> (r.0 is None && opt_view(r.1) == updated_url(demo_url, has_demo_zip, local_demo_url@)
            && match links {
            None => r.2 is None,
            Some(l) => r.2 is Some && link_pairs(r.2->Some_0@) == project_links_outcome(l@)->Ok_0,
        }),
{
    let url = match updated_demo_url(demo_url, has_demo_zip, local_demo_url) {
        Ok(u) => u,
        Err(GameError::InvalidDemo(m)) => {
            return (Some(ProjectError::InvalidDemo(m)), None, None);
        },
        Err(e) => {
            proof {
                assert(false);
            }
            return (Some(project_error_from(e)), None, None);
        },
    };
    match links {
        None => (None, url, None),
        Some(l) => match normalize_project_links(l) {
            Ok(k) => (None, url, Some(k)),
            Err(e) => (Some(e), None, None),
        },
    }
}

/// Plans a project update. Demo attachments its demo type does not take and
/// missing inline media refuse the request before anything is uploaded or
/// written. Then the inline media go up (when there are any) and the post is
/// updated; a demo URL or links that the project row cannot take refuse the
/// request there. The project row follows, then the demo is extracted and
/// the cover updated when asked for.
pub fn update_project_plan(
    demo_type: Option<String>,
    demo_url: Option<String>,
    has_demo_zip: bool,
    delegate_game_id: Option<i64>,
    intake: &Intake,
    number_of_files: usize,
    links: Option<Vec<ProjectLink>>,
    has_og_image_seconds: bool,
    local_demo_url: String,
) -> (r: Result<ProjectPlan, ProjectError>)
    ensures
        project_update_demo_error(
            opt_view(demo_type),
            demo_url is Some,
            given(demo_url),
            has_demo_zip,
            delegate_game_id,
        ) is Some ==> (r matches Err(ProjectError::InvalidDemo(m)) && m@ == project_update_demo_error(
            opt_view(demo_type),
            demo_url is Some,
            given(demo_url),
            has_demo_zip,
            delegate_game_id,
        )->Some_0),
        project_update_demo_error(
            opt_view(demo_type),
            demo_url is Some,
            given(demo_url),
            has_demo_zip,
            delegate_game_id,
        ) is None && inline_complaint(*intake, number_of_files) is Some ==> (r matches Err(
            ProjectError::UploadFailed(m),
        ) && m@ == inline_complaint(*intake, number_of_files)->Some_0),
        project_update_demo_error(
            opt_view(demo_type),
            demo_url is Some,
            given(demo_url),
            has_demo_zip,
            delegate_game_id,
        ) is None && inline_complaint(*intake, number_of_files) is None ==> ({
            let links_refused = links is Some && project_links_outcome(links->Some_0@) is Err;
            &&& r matches Ok(p)
            &&& p.steps@ == update_project_steps(
                number_of_files > 0,
                url_refused(demo_url) || links_refused,
                has_demo_zip,
                has_og_image_seconds,
            )
            &&& url_refused(demo_url) ==> (p.refusal matches Some(ProjectError::InvalidDemo(m)) && m@
                == url_complaint())
            &&& !url_refused(demo_url) && links_refused ==> (p.refusal matches Some(
                ProjectError::InvalidDemo(m),
            ) && m@ == project_links_outcome(links->Some_0@)->Err_0)
            &&& !url_refused(demo_url) && !links_refused ==> (p.refusal is None && opt_view(
                p.demo_url,
            ) == updated_url(demo_url, has_demo_zip, local_demo_url@) && match links {
                None => p.links is None,
                Some(l) => p.links is Some && link_pairs(p.links->Some_0@) == project_links_outcome(
                    l@,
                )->Ok_0,
            })
        }),
{
    check_project_update_demo(&demo_type, &demo_url, has_demo_zip, delegate_game_id)?;
    match check_inline_media(intake, number_of_files) {
        Ok(()) => {},
        Err(GameError::UploadFailed(m)) => {
            return Err(ProjectError::UploadFailed(m));
        },
        Err(e) => {
            proof {
                assert(false);
            }
            return Err(project_error_from(e));
        },
    }
    let ghost refused = url_refused(demo_url) || (links is Some && project_links_outcome(
        links->Some_0@,
    ) is Err);
    let (refusal, url, kept) = project_update_values(demo_url, has_demo_zip, local_demo_url, links);
    let mut steps: Vec<Step> = Vec::new();
    if number_of_files > 0 {
        steps.push(Step::Run(Work::UploadInlineMedia));
    }
    steps.push(Step::Run(Work::UpdatePost));
    let ghost head = steps@;
    if refusal.is_some() {
        steps.push(Step::Refuse);
    } else {
        steps.push(Step::Run(Work::UpdateProject));
        if has_demo_zip {
            steps.push(Step::Run(Work::ExtractDemo));
        }
        let ghost s1 = steps@;
        if has_og_image_seconds {
            steps.push(Step::Run(Work::UpdateCover));
        }
        assert(steps@ =~= s1 + step_if(has_og_image_seconds, Step::Run(Work::UpdateCover)));
    }
    assert(head =~= step_if(number_of_files > 0, Step::Run(Work::UploadInlineMedia)) + seq![
        Step::Run(Work::UpdatePost),
    ]);
    assert(steps@ =~= update_project_steps(
        number_of_files > 0,
        refused,
        has_demo_zip,
        has_og_image_seconds,
    ));
    Ok(ProjectPlan { steps, refusal, demo_url: url, links: kept })
}

proof fn lemma_refuses_last_concat(a: Seq<Step>, b: Seq<Step>)
    requires
        forall|i: int| 0 <= i < a.len() ==> !((#[trigger] a[i]) is Refuse),
        refuses_last(b),
    ensures
        refuses_last(a + b),
{
    assert forall|i: int| 0 <= i < (a + b).len() && (#[trigger] (a + b)[i]) is Refuse implies i == (a
        + b).len() - 1 by {
        if i < a.len() {
            assert((a + b)[i] == a[i]);
        } else {
            assert((a + b)[i] == b[i - a.len()]);
        }
    }
}

proof fn lemma_no_refusal_concat(a: Seq<Step>, b: Seq<Step>)
    requires
        forall|i: int| 0 <= i < a.len() ==> !((#[trigger] a[i]) is Refuse),
        forall|i: int| 0 <= i < b.len() ==> !((#[trigger] b[i]) is Refuse),
    ensures
        forall|i: int| 0 <= i < (a + b).len() ==> !((#[trigger] (a + b)[i]) is Refuse),
{
    assert forall|i: int| 0 <= i < (a + b).len() implies !((#[trigger] (a + b)[i]) is Refuse) by {
        if i < a.len() {
            assert((a + b)[i] == a[i]);
        } else {
            assert((a + b)[i] == b[i - a.len()]);
        }
    }
}

proof fn lemma_refusal_free(a: Seq<Step>)
    requires
        forall|i: int| 0 <= i < a.len() ==> !((#[trigger] a[i]) is Refuse),
    ensures
        refuses_last(a),
{
}

proof fn lemma_heads(upload: bool)
    ensures
        forall|i: int|
            0 <= i < (step_if(upload, Step::Run(Work::UploadInlineMedia)) + seq![
                Step::Run(Work::NewPost),
            ]).len() ==> !((#[trigger] (step_if(upload, Step::Run(Work::UploadInlineMedia)) + seq![
                Step::Run(Work::NewPost),
            ])[i]) is Refuse),
        forall|i: int|
            0 <= i < (step_if(upload, Step::Run(Work::UploadInlineMedia)) + seq![
                Step::Run(Work::UpdatePost),
            ]).len() ==> !((#[trigger] (step_if(upload, Step::Run(Work::UploadInlineMedia)) + seq![
                Step::Run(Work::UpdatePost),
            ])[i]) is Refuse),
{
    lemma_no_refusal_concat(step_if(upload, Step::Run(Work::UploadInlineMedia)), seq![Step::Run(Work::NewPost)]);
    lemma_no_refusal_concat(step_if(upload, Step::Run(Work::UploadInlineMedia)), seq![Step::Run(Work::UpdatePost)]);
}

proof fn lemma_new_game_refuses_last(upload: bool, refused: bool, v86: bool, zip: bool)
    ensures
        refuses_last(new_game_steps(upload, refused, v86, zip)),
{
    let head = step_if(upload, Step::Run(Work::UploadInlineMedia)) + seq![Step::Run(Work::NewPost)];
    lemma_heads(upload);
    let g1 = seq![Step::Guarded(Work::InsertGame, Work::DeletePost)] + step_if(
        v86,
        Step::Guarded(Work::AttachV86, Work::DeletePost),
    );
    lemma_no_refusal_concat(seq![Step::Guarded(Work::InsertGame, Work::DeletePost)], step_if(
        v86,
        Step::Guarded(Work::AttachV86, Work::DeletePost),
    ));
    let g2 = g1 + step_if(zip, Step::Run(Work::ExtractDemo));
    lemma_no_refusal_concat(g1, step_if(zip, Step::Run(Work::ExtractDemo)));
    lemma_no_refusal_concat(g2, seq![Step::Run(Work::ApplyCreatedCover)]);
    let tail = if refused {
        seq![Step::Refuse]
    } else {
        g2 + seq![Step::Run(Work::ApplyCreatedCover)]
    };
    lemma_refuses_last_concat(head, tail);
    assert(new_game_steps(upload, refused, v86, zip) == head + tail);
}

proof fn lemma_game_tail_refuses_last(f: GameUpdateFlags)
    ensures
        refuses_last(game_tail_steps(f)),
{
    let t0 = step_if(f.v86_upload, Step::Run(Work::AttachV86));
    let t1 = match f.v86_switch {
        Some(id) => step_if(f.keeps_v86, Step::Run(Work::Repoint(id))),
        None => Seq::empty(),
    };
    let t2 = step_if(!f.keeps_jsdos, Step::Run(Work::ClearBundle));
    let t3 = step_if(!f.keeps_v86, Step::Run(Work::ClearV86));
    let t4 = step_if(f.has_demo_zip, Step::Run(Work::ExtractDemo));
    let t5 = step_if(f.has_og_image_seconds, Step::Run(Work::UpdateCover));
    lemma_no_refusal_concat(t0, t1);
    lemma_no_refusal_concat(t0 + t1, t2);
    lemma_no_refusal_concat(t0 + t1 + t2, t3);
    lemma_no_refusal_concat(t0 + t1 + t2 + t3, t4);
    lemma_no_refusal_concat(t0 + t1 + t2 + t3 + t4, t5);
    if tail_refusal(f) is None {
        assert(game_tail_steps(f) == t0 + t1 + t2 + t3 + t4 + t5);
        lemma_refusal_free(t0 + t1 + t2 + t3 + t4 + t5);
    }
}

proof fn lemma_update_game_refuses_last(upload: bool, refused: bool, f: GameUpdateFlags)
    ensures
        refuses_last(update_game_steps(upload, refused, f)),
{
    let head = step_if(upload, Step::Run(Work::UploadInlineMedia)) + seq![Step::Run(Work::UpdatePost)];
    lemma_heads(upload);
    lemma_game_tail_refuses_last(f);
    lemma_refuses_last_concat(seq![Step::Run(Work::UpdateGame)], game_tail_steps(f));
    let tail = if refused {
        seq![Step::Refuse]
    } else {
        seq![Step::Run(Work::UpdateGame)] + game_tail_steps(f)
    };
    lemma_refuses_last_concat(head, tail);
    assert(update_game_steps(upload, refused, f) == head + tail);
}

proof fn lemma_new_project_refuses_last(upload: bool, refused: bool, zip: bool)
    ensures
        refuses_last(new_project_steps(upload, refused, zip)),
{
    let head = step_if(upload, Step::Run(Work::UploadInlineMedia)) + seq![Step::Run(Work::NewPost)];
    lemma_heads(upload);
    let p1 = seq![Step::Guarded(Work::NewProject, Work::DeletePost)] + step_if(
        zip,
        Step::Run(Work::ExtractDemo),
    );
    lemma_no_refusal_concat(seq![Step::Guarded(Work::NewProject, Work::DeletePost)], step_if(
        zip,
        Step::Run(Work::ExtractDemo),
    ));
    lemma_no_refusal_concat(p1, seq![Step::Run(Work::ApplyCreatedCover)]);
    let tail = if refused {
        seq![Step::Refuse]
    } else {
        p1 + seq![Step::Run(Work::ApplyCreatedCover)]
    };
    lemma_refuses_last_concat(head, tail);
    assert(new_project_steps(upload, refused, zip) == head + tail);
}

proof fn lemma_update_project_refuses_last(upload: bool, refused: bool, zip: bool, cover: bool)
    ensures
        refuses_last(update_project_steps(upload, refused, zip, cover)),
{
    let head = step_if(upload, Step::Run(Work::UploadInlineMedia)) + seq![Step::Run(Work::UpdatePost)];
    lemma_heads(upload);
    let q1 = seq![Step::Run(Work::UpdateProject)] + step_if(zip, Step::Run(Work::ExtractDemo));
    lemma_no_refusal_concat(seq![Step::Run(Work::UpdateProject)], step_if(zip, Step::Run(Work::ExtractDemo)));
    lemma_no_refusal_concat(q1, step_if(cover, Step::Run(Work::UpdateCover)));
    let tail = if refused {
        seq![Step::Refuse]
    } else {
        q1 + step_if(cover, Step::Run(Work::UpdateCover))
    };
    lemma_refuses_last_concat(head, tail);
    assert(update_project_steps(upload, refused, zip, cover) == head + tail);
}

proof fn lemma_update_post_refuses_last(refused: bool, cover: bool)
    ensures
        refuses_last(update_post_steps(refused, cover)),
{
    lemma_no_refusal_concat(seq![Step::Run(Work::UpdatePost)], step_if(cover, Step::Run(Work::UpdateCover)));
    let tail = if refused {
        seq![Step::Refuse]
    } else {
        seq![Step::Run(Work::UpdatePost)] + step_if(cover, Step::Run(Work::UpdateCover))
    };
    lemma_refuses_last_concat(seq![Step::Run(Work::UploadInlineMedia)], tail);
    assert(update_post_steps(refused, cover) == seq![Step::Run(Work::UploadInlineMedia)] + tail);
}

/// In every plan the handlers get, a refusal is the last step: no upload,
/// service call or row write follows it.
pub proof fn law_refusal_ends_every_plan(
    upload: bool,
    refused: bool,
    v86: bool,
    zip: bool,
    cover: bool,
    f: GameUpdateFlags,
    drop_row: bool,
)
    ensures
        refuses_last(new_game_steps(upload, refused, v86, zip)),
        refuses_last(update_game_steps(upload, refused, f)),
        refuses_last(new_project_steps(upload, refused, zip)),
        refuses_last(update_project_steps(upload, refused, zip, cover)),
        refuses_last(update_post_steps(refused, cover)),
        refuses_last(game_deletion_steps(drop_row)),
{
    lemma_new_game_refuses_last(upload, refused, v86, zip);
    lemma_update_game_refuses_last(upload, refused, f);
    lemma_new_project_refuses_last(upload, refused, zip);
    lemma_update_project_refuses_last(upload, refused, zip, cover);
    lemma_update_post_refuses_last(refused, cover);
}

} // verus!
