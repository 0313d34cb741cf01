//! Which demo attachments a game's launcher or a project's demo type accepts,
//! on creation and on update.
use vstd::prelude::*;
use crate::errors::{GameError, ProjectError, msg, msg2, msg3};
use crate::numbers::signed_decimal;
use crate::paths::join;
use crate::text::{blank, chars_of, is_blank, str_eq};

verus! {

/// A demo URL counts as given when it is present and not blank.
pub open spec fn given(url: Option<String>) -> bool {
    match url {
        Some(u) => !blank(u@),
        None => false,
    }
}

pub fn has_demo_url(url: &Option<String>) -> (r: bool)
    ensures
        r == given(*url),
{
    match url {
        Some(u) => {
            let cs = chars_of(u.as_str());
            !is_blank(cs.as_slice())
        },
        None => false,
    }
}

pub open spec fn is_one_of2(s: Seq<char>, a: Seq<char>, b: Seq<char>) -> bool {
    s == a || s == b
}

pub open spec fn packaged_kind(t: Seq<char>) -> bool {
    t == "html5"@ || t == "webgl"@
}

pub open spec fn linked_kind(t: Seq<char>) -> bool {
    t == "embed"@ || t == "download"@ || t == "video"@
}

/// The complaint about a new game's demo attachments, if any.
pub open spec fn new_game_demo_error(lt: Seq<char>, url: bool, zip: bool, v86: bool) -> Option<Seq<char>> {
    if packaged_kind(lt) {
        if url {
            Some("Demo URL is not accepted for "@ + lt + " games."@)
        } else if !zip {
            Some("Demo zip is required for "@ + lt + " games."@)
        } else {
            None
        }
    } else if linked_kind(lt) {
        if !url {
            Some("Demo URL is required for "@ + lt + " games."@)
        } else {
            None
        }
    } else if lt == "jsdos"@ {
        if url || zip {
            Some("js-dos bundles must be uploaded through the js-dos upload endpoint."@)
        } else {
            None
        }
    } else if lt == "v86"@ {
        if url || zip {
            Some("v86 games must be uploaded through the v86 package endpoint."@)
        } else if !v86 {
            Some("A completed v86 game package is required."@)
        } else {
            None
        }
    } else {
        Some("Unsupported launcher type: "@ + lt)
    }
}

/// Whether a new game's launcher type fits what was attached: packaged
/// launchers need a zip and no URL, linked ones a URL, js-dos and v86 take
/// their bundles through their own endpoints (v86 needing a finished package).
pub fn check_new_game_demo(
    launcher_type: &str,
    has_demo_url: bool,
    has_demo_zip: bool,
    has_v86_upload: bool,
) -> (r: Result<(), GameError>)
    ensures
        match new_game_demo_error(launcher_type@, has_demo_url, has_demo_zip, has_v86_upload) {
            None => r is Ok,
            Some(m) => r matches Err(GameError::InvalidDemo(e)) && e@ == m,
        },
{
    proof {
        reveal_strlit("none");
        reveal_strlit("html5");
        reveal_strlit("webgl");
        reveal_strlit("embed");
        reveal_strlit("download");
        reveal_strlit("video");
        reveal_strlit("game");
        reveal_strlit("jsdos");
        reveal_strlit("v86");
        assert("none"@[0] != "game"@[0]);
    }
    let lt = launcher_type;
    if str_eq(lt, "html5") || str_eq(lt, "webgl") {
        if has_demo_url {
            return Err(GameError::InvalidDemo(msg3("Demo URL is not accepted for ", lt, " games.")));
        }
        if !has_demo_zip {
            return Err(GameError::InvalidDemo(msg3("Demo zip is required for ", lt, " games.")));
        }
        Ok(())
    } else if str_eq(lt, "embed") || str_eq(lt, "download") || str_eq(lt, "video") {
        if !has_demo_url {
            return Err(GameError::InvalidDemo(msg3("Demo URL is required for ", lt, " games.")));
        }
        Ok(())
    } else if str_eq(lt, "jsdos") {
        if has_demo_url || has_demo_zip {
            return Err(
                GameError::InvalidDemo(
                    msg("js-dos bundles must be uploaded through the js-dos upload endpoint."),
                ),
            );
        }
        Ok(())
    } else if str_eq(lt, "v86") {
        if has_demo_url || has_demo_zip {
            return Err(
                GameError::InvalidDemo(msg("v86 games must be uploaded through the v86 package endpoint.")),
            );
        }
        if !has_v86_upload {
            return Err(GameError::InvalidDemo(msg("A completed v86 game package is required.")));
        }
        Ok(())
    } else {
        Err(GameError::InvalidDemo(msg2("Unsupported launcher type: ", lt)))
    }
}

/// The complaint about a game update's demo attachments, if any. Only a
/// request that attaches a zip or a non-blank URL is checked; a packaged
/// launcher refuses any URL field, even a blank one.
pub open spec fn game_update_demo_error(
    lt: Option<Seq<char>>,
    url_field: bool,
    url: bool,
    zip: bool,
) -> Option<Seq<char>> {
    let attached = zip || url;
    match lt {
        Some(t) => if !attached {
            None
        } else if packaged_kind(t) {
            if url_field {
                Some("Demo URL is not accepted for "@ + t + " games."@)
            } else if !zip {
                Some("Demo zip is required for "@ + t + " games."@)
            } else {
                None
            }
        } else if linked_kind(t) {
            if !url {
                Some("Demo URL is required for "@ + t + " games."@)
            } else {
                None
            }
        } else if t == "jsdos"@ {
            Some("js-dos bundles must be uploaded through the js-dos upload endpoint."@)
        } else if t == "v86"@ {
            Some("v86 games must be uploaded through the v86 package endpoint."@)
        } else {
            Some("Unsupported launcher type: "@ + t)
        },
        None => if attached {
            Some("Launcher type is required when providing demo attachments."@)
        } else {
            None
        },
    }
}

pub open spec fn opt_view(o: Option<String>) -> Option<Seq<char>> {
    match o {
        Some(s) => Some(s@),
        None => None,
    }
}

pub fn check_game_update_demo(
    launcher_type: &Option<String>,
    demo_url: &Option<String>,
    has_demo_zip: bool,
) -> (r: Result<(), GameError>)
    ensures
        match game_update_demo_error(
            opt_view(*launcher_type),
            demo_url.is_some(),
            given(*demo_url),
            has_demo_zip,
        ) {
            None => r is Ok,
            Some(m) => r matches Err(GameError::InvalidDemo(e)) && e@ == m,
        },
{
    proof {
        reveal_strlit("none");
        reveal_strlit("html5");
        reveal_strlit("webgl");
        reveal_strlit("embed");
        reveal_strlit("download");
        reveal_strlit("video");
        reveal_strlit("game");
        reveal_strlit("jsdos");
        reveal_strlit("v86");
        assert("none"@[0] != "game"@[0]);
    }
    let url = has_demo_url(demo_url);
    let attached = has_demo_zip || url;
    match launcher_type {
        Some(t) => {
            if !attached {
                return Ok(());
            }
            let lt = t.as_str();
            if str_eq(lt, "html5") || str_eq(lt, "webgl") {
                if demo_url.is_some() {
                    return Err(
                        GameError::InvalidDemo(msg3("Demo URL is not accepted for ", lt, " games.")),
                    );
                }
                if !has_demo_zip {
                    return Err(
                        GameError::InvalidDemo(msg3("Demo zip is required for ", lt, " games.")),
                    );
                }
                Ok(())
            } else if str_eq(lt, "embed") || str_eq(lt, "download") || str_eq(lt, "video") {
                if !url {
                    return Err(
                        GameError::InvalidDemo(msg3("Demo URL is required for ", lt, " games.")),
                    );
                }
                Ok(())
            } else if str_eq(lt, "jsdos") {
                Err(
                    GameError::InvalidDemo(
                        msg("js-dos bundles must be uploaded through the js-dos upload endpoint."),
                    ),
                )
            } else if str_eq(lt, "v86") {
                Err(
                    GameError::InvalidDemo(
                        msg("v86 games must be uploaded through the v86 package endpoint."),
                    ),
                )
            } else {
                Err(GameError::InvalidDemo(msg2("Unsupported launcher type: ", lt)))
            }
        },
        None => {
            if attached {
                Err(
                    GameError::InvalidDemo(
                        msg("Launcher type is required when providing demo attachments."),
                    ),
                )
            } else {
                Ok(())
            }
        },
    }
}

/// What a project's demo check leaves to be looked up: the delegated game
/// whose existence the store must confirm.
#[derive(Debug)]
pub enum DemoFollowUp {
    Done,
    ConfirmGame(i64),
}

/// The complaint about a new project's demo attachments, if any; a delegated
/// project with a selected game is accepted subject to the game existing.
pub open spec fn new_project_demo_error(
    dt: Seq<char>,
    url: bool,
    zip: bool,
    delegate: Option<i64>,
) -> Option<Seq<char>> {
    if dt == "none"@ {
        if url || zip {
            Some("Demo attachments are not accepted for projects without demos."@)
        } else {
            None
        }
    } else if packaged_kind(dt) {
        if url {
            Some("Demo URL is not accepted for "@ + dt + " projects."@)
        } else if !zip {
            Some("Demo zip is required for "@ + dt + " projects."@)
        } else {
            None
        }
    } else if linked_kind(dt) {
        if !url {
            Some("Demo URL is required for "@ + dt + " projects."@)
        } else {
            None
        }
    } else if dt == "game"@ {
        if url || zip {
            Some(
                "Delegated projects play their game's launcher; demo attachments are not accepted."@,
            )
        } else if delegate is None {
            Some("A delegated project must select a game."@)
        } else {
            None
        }
    } else {
        Some("Unsupported demo type: "@ + dt)
    }
}

pub fn check_new_project_demo(
    demo_type: &str,
    has_demo_url: bool,
    has_demo_zip: bool,
    delegate_game_id: Option<i64>,
) -> (r: Result<DemoFollowUp, ProjectError>)
    ensures
        match new_project_demo_error(demo_type@, has_demo_url, has_demo_zip, delegate_game_id) {
            None => if demo_type@ == "game"@ {
                r matches Ok(DemoFollowUp::ConfirmGame(g)) && delegate_game_id == Some(g)
            } else {
                r matches Ok(DemoFollowUp::Done)
            },
            Some(m) => r matches Err(ProjectError::InvalidDemo(e)) && e@ == m,
        },
{
    proof {
        reveal_strlit("none");
        reveal_strlit("html5");
        reveal_strlit("webgl");
        reveal_strlit("embed");
        reveal_strlit("download");
        reveal_strlit("video");
        reveal_strlit("game");
        reveal_strlit("jsdos");
        reveal_strlit("v86");
        assert("none"@[0] != "game"@[0]);
    }
    let dt = demo_type;
    if str_eq(dt, "none") {
        if has_demo_url || has_demo_zip {
            return Err(
                ProjectError::InvalidDemo(
                    msg("Demo attachments are not accepted for projects without demos."),
                ),
            );
        }
        Ok(DemoFollowUp::Done)
    } else if str_eq(dt, "html5") || str_eq(dt, "webgl") {
        if has_demo_url {
            return Err(
                ProjectError::InvalidDemo(msg3("Demo URL is not accepted for ", dt, " projects.")),
            );
        }
        if !has_demo_zip {
            return Err(
                ProjectError::InvalidDemo(msg3("Demo zip is required for ", dt, " projects.")),
            );
        }
        Ok(DemoFollowUp::Done)
    } else if str_eq(dt, "embed") || str_eq(dt, "download") || str_eq(dt, "video") {
        if !has_demo_url {
            return Err(
                ProjectError::InvalidDemo(msg3("Demo URL is required for ", dt, " projects.")),
            );
        }
        Ok(DemoFollowUp::Done)
    } else if str_eq(dt, "game") {
        if has_demo_url || has_demo_zip {
            return Err(
                ProjectError::InvalidDemo(
                    msg(
                        "Delegated projects play their game's launcher; demo attachments are not accepted.",
                    ),
                ),
            );
        }
        match delegate_game_id {
            Some(g) => Ok(DemoFollowUp::ConfirmGame(g)),
            None => Err(ProjectError::InvalidDemo(msg("A delegated project must select a game."))),
        }
    } else {
        Err(ProjectError::InvalidDemo(msg2("Unsupported demo type: ", dt)))
    }
}

/// The complaint about a project update's demo attachments, if any. Only a
/// request that attaches a zip or a non-blank URL is checked.
pub open spec fn project_update_demo_error(
    dt: Option<Seq<char>>,
    url_field: bool,
    url: bool,
    zip: bool,
    delegate: Option<i64>,
) -> Option<Seq<char>> {
    let attached = zip || url;
    match dt {
        Some(t) => if !attached {
            None
        } else if t == "none"@ {
            Some("Demo attachments are not accepted for projects without demos."@)
        } else if packaged_kind(t) {
            if url_field {
                Some("Demo URL is not accepted for "@ + t + " projects."@)
            } else if !zip {
                Some("Demo zip is required for "@ + t + " projects."@)
            } else {
                None
            }
        } else if linked_kind(t) {
            if !url {
                Some("Demo URL is required for "@ + t + " projects."@)
            } else {
                None
            }
        } else if t == "game"@ {
            Some(
                "Delegated projects play their game's launcher; demo attachments are not accepted."@,
            )
        } else {
            Some("Unsupported demo type: "@ + t)
        },
        None => if attached {
            Some("Demo type is required when providing demo attachments."@)
        } else {
            None
        },
    }
}

pub fn check_project_update_demo(
    demo_type: &Option<String>,
    demo_url: &Option<String>,
    has_demo_zip: bool,
    delegate_game_id: Option<i64>,
) -> (r: Result<(), ProjectError>)
    ensures
        match project_update_demo_error(
            opt_view(*demo_type),
            demo_url.is_some(),
            given(*demo_url),
            has_demo_zip,
            delegate_game_id,
        ) {
            None => r is Ok,
            Some(m) => r matches Err(ProjectError::InvalidDemo(e)) && e@ == m,
        },
{
    proof {
        reveal_strlit("none");
        reveal_strlit("html5");
        reveal_strlit("webgl");
        reveal_strlit("embed");
        reveal_strlit("download");
        reveal_strlit("video");
        reveal_strlit("game");
        reveal_strlit("jsdos");
        reveal_strlit("v86");
        assert("none"@[0] != "game"@[0]);
    }
    let url = has_demo_url(demo_url);
    let attached = has_demo_zip || url;
    match demo_type {
        Some(t) => {
            if !attached {
                return Ok(());
            }
            let dt = t.as_str();
            if str_eq(dt, "none") {
                Err(
                    ProjectError::InvalidDemo(
                        msg("Demo attachments are not accepted for projects without demos."),
                    ),
                )
            } else if str_eq(dt, "html5") || str_eq(dt, "webgl") {
                if demo_url.is_some() {
                    return Err(
                        ProjectError::InvalidDemo(
                            msg3("Demo URL is not accepted for ", dt, " projects."),
                        ),
                    );
                }
                if !has_demo_zip {
                    return Err(
                        ProjectError::InvalidDemo(msg3("Demo zip is required for ", dt, " projects.")),
                    );
                }
                Ok(())
            } else if str_eq(dt, "embed") || str_eq(dt, "download") || str_eq(dt, "video") {
                if !url {
                    return Err(
                        ProjectError::InvalidDemo(msg3("Demo URL is required for ", dt, " projects.")),
                    );
                }
                Ok(())
            } else if str_eq(dt, "game") {
                Err(
                    ProjectError::InvalidDemo(
                        msg(
                            "Delegated projects play their game's launcher; demo attachments are not accepted.",
                        ),
                    ),
                )
            } else {
                Err(ProjectError::InvalidDemo(msg2("Unsupported demo type: ", dt)))
            }
        },
        None => {
            if attached {
                Err(
                    ProjectError::InvalidDemo(
                        msg("Demo type is required when providing demo attachments."),
                    ),
                )
            } else {
                Ok(())
            }
        },
    }
}

/// The store did not find the game a delegated project selected.
pub fn missing_delegate_game(game_id: i64) -> (r: ProjectError)
    ensures
        r matches ProjectError::InvalidDemo(e) && e@ == "The selected game ("@ + signed_decimal(
            game_id as int,
        ) + ") does not exist."@,
{
    let id = crate::numbers::format_i64(game_id);
    let ids = crate::text::string_from(id.as_slice());
    ProjectError::InvalidDemo(msg3("The selected game (", ids.as_str(), ") does not exist."))
}

/// The launcher a game ends up with: the requested one, else its current one.
pub fn effective_launcher_type(requested: &Option<String>, current: &str) -> (r: String)
    ensures
        r@ == match requested {
            Some(t) => t@,
            None => current@,
        },
{
    match requested {
        Some(t) => t.clone(),
        None => msg(current),
    }
}

/// What an update asks of a game's v86 artifact: a new package and a system
/// switch exclude each other, and a package only fits a v86 game.
pub open spec fn v86_request_error(upload: bool, switch: bool, keeps_v86: bool) -> Option<Seq<char>> {
    if upload && switch {
        Some("Send either a v86 package upload or a system switch, not both."@)
    } else if upload && !keeps_v86 {
        Some("A v86 package cannot be attached to a non-v86 game."@)
    } else {
        None
    }
}

pub fn check_v86_request(has_upload: bool, has_switch: bool, keeps_v86: bool) -> (r: Result<(), GameError>)
    ensures
        match v86_request_error(has_upload, has_switch, keeps_v86) {
            None => r is Ok,
            Some(m) => r matches Err(GameError::InvalidDemo(e)) && e@ == m,
        },
{
    if has_upload && has_switch {
        return Err(
            GameError::InvalidDemo(
                msg("Send either a v86 package upload or a system switch, not both."),
            ),
        );
    }
    if has_upload && !keeps_v86 {
        return Err(GameError::InvalidDemo(msg("A v86 package cannot be attached to a non-v86 game.")));
    }
    Ok(())
}

/// Where an uploaded demo zip is served from once extracted:
/// `<demo_dir>/<dir_name>/index.html`.
pub fn local_demo_url(demo_dir: &str, dir_name: &str) -> (r: String)
    ensures
        r@ == join(join(demo_dir@, dir_name@), "index.html"@),
{
    let d = chars_of(demo_dir);
    let n = chars_of(dir_name);
    let i = chars_of("index.html");
    let a = crate::paths::path_join(d.as_slice(), n.as_slice());
    let b = crate::paths::path_join(a.as_slice(), i.as_slice());
    crate::text::string_from(b.as_slice())
}

/// The directory a game's extracted demo lives in: `game-<id>`.
pub fn game_demo_dir_name(game_id: i64) -> (r: String)
    ensures
        r@ == "game-"@ + signed_decimal(game_id as int),
{
    let id = crate::numbers::format_i64(game_id);
    let ids = crate::text::string_from(id.as_slice());
    msg2("game-", ids.as_str())
}

/// Why a game cannot be published yet, if it cannot: a js-dos game needs its
/// finished bundle, a v86 game its finished artifact.
pub open spec fn publish_error(launcher_type: Seq<char>, has_bundle: bool, has_v86_game: bool) -> Option<
    Seq<char>,
> {
    if launcher_type == "jsdos"@ && !has_bundle {
        Some("A completed js-dos bundle is required before publishing."@)
    } else if launcher_type == "v86"@ && !has_v86_game {
        Some("A completed v86 game artifact is required before publishing."@)
    } else {
        None
    }
}

pub fn check_game_publishable(launcher_type: &str, has_bundle: bool, has_v86_game: bool) -> (r: Result<
    (),
    GameError,
>)
    ensures
        match publish_error(launcher_type@, has_bundle, has_v86_game) {
            None => r is Ok,
            Some(m) => r matches Err(GameError::InvalidDemo(e)) && e@ == m,
        },
{
    proof {
        reveal_strlit("jsdos");
        reveal_strlit("v86");
    }
    if str_eq(launcher_type, "jsdos") && !has_bundle {
        return Err(
            GameError::InvalidDemo(msg("A completed js-dos bundle is required before publishing.")),
        );
    }
    if str_eq(launcher_type, "v86") && !has_v86_game {
        return Err(
            GameError::InvalidDemo(
                msg("A completed v86 game artifact is required before publishing."),
            ),
        );
    }
    Ok(())
}

/// A new game must take a slug no post uses yet.
pub fn check_game_slug_free(slug: &str, taken: bool) -> (r: Result<(), GameError>)
    ensures
        !taken ==> r is Ok,
        taken ==> (r matches Err(GameError::InvalidDemo(m)) && m@ == "The game slug '"@ + slug@
            + "' is already in use."@),
{
    if taken {
        return Err(GameError::InvalidDemo(msg3("The game slug '", slug, "' is already in use.")));
    }
    Ok(())
}

/// A new project must take a slug no post uses yet.
pub fn check_project_slug_free(slug: &str, taken: bool) -> (r: Result<(), ProjectError>)
    ensures
        !taken ==> r is Ok,
        taken ==> (r matches Err(ProjectError::InvalidDemo(m)) && m@ == "The project slug '"@ + slug@
            + "' is already in use."@),
{
    if taken {
        return Err(
            ProjectError::InvalidDemo(msg3("The project slug '", slug, "' is already in use.")),
        );
    }
    Ok(())
}

/// A demo URL as stored: a blank one clears the field (the empty text), any
/// other must be an http(s) URL and is stored trimmed.
pub fn validate_demo_url(url: Option<String>) -> (r: Result<Option<String>, GameError>)
    ensures
        url is None ==> r == Ok::<Option<String>, GameError>(None),
        url is Some && blank(url->Some_0@) ==> (r matches Ok(Some(v)) && v@ == Seq::<
            char,
        >::empty()),
        url is Some && !blank(url->Some_0@) && crate::urls::is_http_url(
            crate::text::trimmed(url->Some_0@),
        ) ==> (r matches Ok(Some(v)) && v@ == crate::text::trimmed(url->Some_0@)),
        url is Some && !blank(url->Some_0@) && !crate::urls::is_http_url(
            crate::text::trimmed(url->Some_0@),
        ) ==> (r matches Err(GameError::InvalidDemo(m)) && m@ == "Demo URL"@
            + " must be an http:// or https:// URL."@),
{
    match url {
        None => Ok(None),
        Some(u) => {
            let cs = chars_of(u.as_str());
            if is_blank(cs.as_slice()) {
                return Ok(Some(String::new()));
            }
            match crate::urls::validate_http_url(u.as_str(), "Demo URL") {
                Ok(v) => Ok(Some(v)),
                Err(m) => Err(GameError::InvalidDemo(m)),
            }
        },
    }
}

proof fn lemma_kind_names_differ()
    ensures
        "html5"@ != "embed"@,
        "html5"@ != "download"@,
        "html5"@ != "video"@,
        "webgl"@ != "embed"@,
        "webgl"@ != "download"@,
        "webgl"@ != "video"@,
        "jsdos"@ != "embed"@,
        "jsdos"@ != "download"@,
        "jsdos"@ != "video"@,
        "v86"@ != "embed"@,
        "v86"@ != "download"@,
        "v86"@ != "video"@,
        "none"@ != "embed"@,
        "none"@ != "download"@,
        "none"@ != "video"@,
        "game"@ != "embed"@,
        "game"@ != "download"@,
        "game"@ != "video"@,
        "html5"@ != "webgl"@,
        "html5"@ != "none"@,
        "webgl"@ != "none"@,
        "html5"@ != "game"@,
        "webgl"@ != "game"@,
        "jsdos"@ != "html5"@,
        "jsdos"@ != "webgl"@,
        "v86"@ != "html5"@,
        "v86"@ != "webgl"@,
        "jsdos"@ != "v86"@,
        "none"@ != "game"@,
{
    reveal_strlit("html5");
    reveal_strlit("webgl");
    reveal_strlit("embed");
    reveal_strlit("download");
    reveal_strlit("video");
    reveal_strlit("jsdos");
    reveal_strlit("v86");
    reveal_strlit("none");
    reveal_strlit("game");
    assert("html5"@[0] != "embed"@[0]);
    assert("html5"@[0] != "download"@[0]);
    assert("html5"@[0] != "video"@[0]);
    assert("webgl"@[0] != "embed"@[0]);
    assert("webgl"@[0] != "download"@[0]);
    assert("webgl"@[0] != "video"@[0]);
    assert("jsdos"@[0] != "embed"@[0]);
    assert("jsdos"@[0] != "download"@[0]);
    assert("jsdos"@[0] != "video"@[0]);
    assert("v86"@[0] != "embed"@[0]);
    assert("v86"@[0] != "download"@[0]);
    assert("v86"@.len() != "video"@.len());
    assert("none"@[0] != "embed"@[0]);
    assert("none"@[0] != "download"@[0]);
    assert("none"@[0] != "video"@[0]);
    assert("game"@[0] != "embed"@[0]);
    assert("game"@[0] != "download"@[0]);
    assert("game"@[0] != "video"@[0]);
    assert("html5"@[0] != "webgl"@[0]);
    assert("html5"@[0] != "none"@[0]);
    assert("webgl"@[0] != "none"@[0]);
    assert("html5"@[0] != "game"@[0]);
    assert("webgl"@[0] != "game"@[0]);
    assert("jsdos"@[0] != "html5"@[0]);
    assert("jsdos"@[0] != "webgl"@[0]);
    assert("v86"@.len() != "html5"@.len());
    assert("v86"@.len() != "webgl"@.len());
    assert("jsdos"@.len() != "v86"@.len());
    assert("none"@[0] != "game"@[0]);
}

/// Linked launchers (embed, download, video) need a demo URL and nothing
/// else: with one a new game is accepted whatever else came along, without
/// one it is refused asking for it. Packaged launchers (html5, webgl) are the
/// ones that refuse a URL, and want a zip.
pub proof fn law_new_game_linked_launchers_take_a_url(lt: Seq<char>, url: bool, zip: bool, v86: bool)
    ensures
        (lt == "embed"@ || lt == "download"@ || lt == "video"@) && url ==> new_game_demo_error(
            lt,
            url,
            zip,
            v86,
        ) is None,
        (lt == "embed"@ || lt == "download"@ || lt == "video"@) && !url ==> new_game_demo_error(
            lt,
            url,
            zip,
            v86,
        ) == Some("Demo URL is required for "@ + lt + " games."@),
        (lt == "html5"@ || lt == "webgl"@) && url ==> new_game_demo_error(lt, url, zip, v86) == Some(
            "Demo URL is not accepted for "@ + lt + " games."@,
        ),
        (lt == "html5"@ || lt == "webgl"@) && !url && zip ==> new_game_demo_error(lt, url, zip, v86)
            is None,
{
    lemma_kind_names_differ();
}

/// The same for a game update that attaches a demo: a linked launcher takes
/// a non-blank URL and refuses the update without one.
pub proof fn law_game_update_linked_launchers_take_a_url(
    lt: Seq<char>,
    url_field: bool,
    url: bool,
    zip: bool,
)
    ensures
        (lt == "embed"@ || lt == "download"@ || lt == "video"@) && url ==> game_update_demo_error(
            Some(lt),
            url_field,
            url,
            zip,
        ) is None,
        (lt == "embed"@ || lt == "download"@ || lt == "video"@) && !url && zip
            ==> game_update_demo_error(Some(lt), url_field, url, zip) == Some(
            "Demo URL is required for "@ + lt + " games."@,
        ),
        (lt == "html5"@ || lt == "webgl"@) && url_field && (url || zip) ==> game_update_demo_error(
            Some(lt),
            url_field,
            url,
            zip,
        ) == Some("Demo URL is not accepted for "@ + lt + " games."@),
{
    lemma_kind_names_differ();
}

/// Linked demo types of a new project need a URL and nothing else.
pub proof fn law_new_project_linked_demos_take_a_url(
    dt: Seq<char>,
    url: bool,
    zip: bool,
    delegate: Option<i64>,
)
    ensures
        (dt == "embed"@ || dt == "download"@ || dt == "video"@) && url ==> new_project_demo_error(
            dt,
            url,
            zip,
            delegate,
        ) is None,
        (dt == "embed"@ || dt == "download"@ || dt == "video"@) && !url ==> new_project_demo_error(
            dt,
            url,
            zip,
            delegate,
        ) == Some("Demo URL is required for "@ + dt + " projects."@),
        (dt == "html5"@ || dt == "webgl"@) && url ==> new_project_demo_error(dt, url, zip, delegate)
            == Some("Demo URL is not accepted for "@ + dt + " projects."@),
{
    lemma_kind_names_differ();
}

/// Linked demo types of a project update take a non-blank URL.
pub proof fn law_project_update_linked_demos_take_a_url(
    dt: Seq<char>,
    url_field: bool,
    url: bool,
    zip: bool,
    delegate: Option<i64>,
)
    ensures
        (dt == "embed"@ || dt == "download"@ || dt == "video"@) && url ==> project_update_demo_error(
            Some(dt),
            url_field,
            url,
            zip,
            delegate,
        ) is None,
        (dt == "embed"@ || dt == "download"@ || dt == "video"@) && !url && zip
            ==> project_update_demo_error(Some(dt), url_field, url, zip, delegate) == Some(
            "Demo URL is required for "@ + dt + " projects."@,
        ),
{
    lemma_kind_names_differ();
}

/// What each other launcher of a new game asks: a packaged one (html5,
/// webgl) a zip and no URL; js-dos and v86 games take no attachment here, and
/// a v86 game needs its finished package; an unknown launcher is refused by
/// name. Every accepted new game fits its launcher this way.
pub proof fn law_new_game_launchers(lt: Seq<char>, url: bool, zip: bool, v86: bool)
    ensures
        (lt == "html5"@ || lt == "webgl"@) && !url && !zip ==> new_game_demo_error(lt, url, zip, v86)
            == Some("Demo zip is required for "@ + lt + " games."@),
        lt == "jsdos"@ && (url || zip) ==> new_game_demo_error(lt, url, zip, v86) is Some,
        lt == "jsdos"@ && !url && !zip ==> new_game_demo_error(lt, url, zip, v86) is None,
        lt == "v86"@ && (url || zip) ==> new_game_demo_error(lt, url, zip, v86) is Some,
        lt == "v86"@ && !url && !zip && v86 ==> new_game_demo_error(lt, url, zip, v86) is None,
        lt == "v86"@ && !url && !zip && !v86 ==> new_game_demo_error(lt, url, zip, v86) == Some(
            "A completed v86 game package is required."@,
        ),
        lt != "html5"@ && lt != "webgl"@ && lt != "embed"@ && lt != "download"@ && lt != "video"@
            && lt != "jsdos"@ && lt != "v86"@ ==> new_game_demo_error(lt, url, zip, v86) == Some(
            "Unsupported launcher type: "@ + lt,
        ),
        new_game_demo_error(lt, url, zip, v86) is None ==> ((lt == "html5"@ || lt == "webgl"@) && zip
            && !url) || ((lt == "embed"@ || lt == "download"@ || lt == "video"@) && url) || (lt
            == "jsdos"@ && !url && !zip) || (lt == "v86"@ && !url && !zip && v86),
{
    lemma_kind_names_differ();
    reveal_strlit("jsdos");
    reveal_strlit("v86");
    reveal_strlit("html5");
    reveal_strlit("webgl");
    assert("jsdos"@.len() != "v86"@.len());
    assert("jsdos"@[0] != "html5"@[0]);
    assert("jsdos"@[0] != "webgl"@[0]);
    assert("v86"@.len() != "html5"@.len());
    assert("v86"@.len() != "webgl"@.len());
}

/// An update without attachments passes whatever its launcher; with one it
/// needs a launcher type; js-dos and v86 games never take attachments here.
pub proof fn law_game_update_attachments(lt: Option<Seq<char>>, url_field: bool, url: bool, zip: bool)
    ensures
        !url && !zip ==> game_update_demo_error(lt, url_field, url, zip) is None,
        lt is None && (url || zip) ==> game_update_demo_error(lt, url_field, url, zip) == Some(
            "Launcher type is required when providing demo attachments."@,
        ),
        lt == Some("jsdos"@) && (url || zip) ==> game_update_demo_error(lt, url_field, url, zip) is Some,
        lt == Some("v86"@) && (url || zip) ==> game_update_demo_error(lt, url_field, url, zip) is Some,
{
    lemma_kind_names_differ();
}

/// A project without a demo takes no attachment; a delegated project takes
/// none either and must name its game; packaged demos need their zip.
pub proof fn law_new_project_demo_types(dt: Seq<char>, url: bool, zip: bool, delegate: Option<i64>)
    ensures
        dt == "none"@ && (url || zip) ==> new_project_demo_error(dt, url, zip, delegate) == Some(
            "Demo attachments are not accepted for projects without demos."@,
        ),
        dt == "none"@ && !url && !zip ==> new_project_demo_error(dt, url, zip, delegate) is None,
        dt == "game"@ && (url || zip) ==> new_project_demo_error(dt, url, zip, delegate) is Some,
        dt == "game"@ && !url && !zip && delegate is None ==> new_project_demo_error(
            dt,
            url,
            zip,
            delegate,
        ) == Some("A delegated project must select a game."@),
        dt == "game"@ && !url && !zip && delegate is Some ==> new_project_demo_error(
            dt,
            url,
            zip,
            delegate,
        ) is None,
        (dt == "html5"@ || dt == "webgl"@) && !url && !zip ==> new_project_demo_error(
            dt,
            url,
            zip,
            delegate,
        ) == Some("Demo zip is required for "@ + dt + " projects."@),
        (dt == "html5"@ || dt == "webgl"@) && !url && zip ==> new_project_demo_error(
            dt,
            url,
            zip,
            delegate,
        ) is None,
{
    lemma_kind_names_differ();
}

/// A v86 request: a package and a system switch exclude each other, a
/// package is only attached to a game that stays v86, and a switch alone, or
/// a package for a v86 game, passes.
pub proof fn law_v86_requests(upload: bool, switch: bool, keeps_v86: bool)
    ensures
        upload && switch ==> v86_request_error(upload, switch, keeps_v86) is Some,
        upload && !keeps_v86 ==> v86_request_error(upload, switch, keeps_v86) is Some,
        !upload ==> v86_request_error(upload, switch, keeps_v86) is None,
        upload && !switch && keeps_v86 ==> v86_request_error(upload, switch, keeps_v86) is None,
{
}

/// Only js-dos and v86 games wait for something before publishing: their
/// finished bundle or artifact; every other game can be published.
pub proof fn law_publishing_waits_for_finished_uploads(lt: Seq<char>, has_bundle: bool, has_v86_game: bool)
    ensures
        lt != "jsdos"@ && lt != "v86"@ ==> publish_error(lt, has_bundle, has_v86_game) is None,
        lt == "jsdos"@ ==> (publish_error(lt, has_bundle, has_v86_game) is None <==> has_bundle),
        lt == "v86"@ ==> (publish_error(lt, has_bundle, has_v86_game) is None <==> has_v86_game),
{
    reveal_strlit("jsdos");
    reveal_strlit("v86");
    assert("jsdos"@.len() != "v86"@.len());
}

} // verus!
