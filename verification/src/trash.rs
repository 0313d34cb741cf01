//! The trash lifecycle of posts, games and projects: who may move an item to
//! the trash, with which reason, what a restore undoes, and when a game that
//! projects delegate to may go.
use vstd::prelude::*;
use crate::errors::{GameError, PostError, ProjectError, msg, msg3};
use crate::numbers::{decimal, format_u64, parse_i64, parse_signed64};
use crate::text::{chars_of, str_eq, string_from};

verus! {

pub open spec fn allowed_reason(r: Seq<char>) -> bool {
    r == "user_request"@ || r == "dmca"@ || r == "moderation"@ || r == "replaced"@ || r == "other"@
}

/// The reason recorded for a deletion: the given one or `user_request`.
pub fn deletion_reason(reason: Option<String>) -> (r: String)
    ensures
        r@ == match reason {
            Some(x) => x@,
            None => "user_request"@,
        },
{
    match reason {
        Some(x) => x,
        None => msg("user_request"),
    }
}

pub fn is_allowed_reason(reason: &str) -> (r: bool)
    ensures
        r == allowed_reason(reason@),
{
    str_eq(reason, "user_request") || str_eq(reason, "dmca") || str_eq(reason, "moderation")
        || str_eq(reason, "replaced") || str_eq(reason, "other")
}

/// Who a deletion is recorded against: the caller's id, or 0 when the token's
/// id is not a number.
pub fn deleted_by(user_id: &str) -> (r: i64)
    ensures
        r == match parse_signed64(user_id@) {
            Some(v) => v,
            None => 0,
        },
{
    let cs = chars_of(user_id);
    match parse_i64(cs.as_slice()) {
        Some(v) => v,
        None => 0,
    }
}

/// The trash-related columns of a post.
pub struct TrashState {
    pub status: String,
    pub in_trash: bool,
    pub deletion_reason: Option<String>,
    pub deletion_detail: Option<String>,
    pub deleted_by: Option<i64>,
    pub prev_status: Option<String>,
}

impl TrashState {
    /// A live post carries no trash bookkeeping.
    pub open spec fn live(&self) -> bool {
        &&& !self.in_trash
        &&& self.deletion_reason is None
        &&& self.deletion_detail is None
        &&& self.deleted_by is None
        &&& self.prev_status is None
    }
}

/// Soft delete: flag the post, remember why, by whom and its status.
pub fn move_to_trash(post: TrashState, reason: String, detail: Option<String>, by: i64) -> (r: TrashState)
    ensures
        r.in_trash,
        r.status == post.status,
        r.deletion_reason == Some(reason),
        r.deletion_detail == detail,
        r.deleted_by == Some(by),
        r.prev_status == Some(post.status),
{
    let prev = post.status.clone();
    TrashState {
        status: post.status,
        in_trash: true,
        deletion_reason: Some(reason),
        deletion_detail: detail,
        deleted_by: Some(by),
        prev_status: Some(prev),
    }
}

/// Restore: clear every trace of the deletion.
pub fn restore_from_trash(post: TrashState) -> (r: TrashState)
    ensures
        r.live(),
        r.status == post.status,
{
    TrashState {
        status: post.status,
        in_trash: false,
        deletion_reason: None,
        deletion_detail: None,
        deleted_by: None,
        prev_status: None,
    }
}

/// Restoring a post that was moved to the trash gives back the live post.
pub proof fn law_restore_undoes_trash(post: TrashState, trashed: TrashState, restored: TrashState)
    requires
        post.live(),
        trashed.in_trash && trashed.status == post.status,
        restored.live() && restored.status == trashed.status,
    ensures
        restored == post,
{
}

/// Deleting a post: only a plain post, not already in the trash, by its
/// author, an administrator or a moderator, for an accepted reason. Gives the
/// reason to record.
pub open spec fn post_delete_outcome(
    owner: i64,
    user_id: i64,
    role: Seq<char>,
    kind: Seq<char>,
    in_trash: bool,
    reason: Seq<char>,
) -> Result<Seq<char>, (int, Seq<char>)> {
    if kind != "post"@ {
        Err((0, "Use the typed delete endpoint for projects/games."@))
    } else if in_trash {
        Err((1, "Post already in trash."@))
    } else if owner != user_id && !(role == "admin"@ || role == "moderator"@) {
        Err((2, Seq::empty()))
    } else if !allowed_reason(reason) {
        Err((0, "Invalid deletion reason."@))
    } else {
        Ok(reason)
    }
}

pub open spec fn post_error_is(e: PostError, code: int, m: Seq<char>) -> bool {
    if code == 0 {
        e matches PostError::Validation(x) && x@ == m
    } else if code == 1 {
        e matches PostError::Conflict(x) && x@ == m
    } else {
        e is Forbidden
    }
}

pub fn check_post_delete(
    owner: i64,
    user_id: i64,
    role: &str,
    content_kind: &str,
    in_trash: bool,
    reason: Option<String>,
) -> (r: Result<String, PostError>)
    ensures
        ({
            let rs = match reason {
                Some(x) => x@,
                None => "user_request"@,
            };
            match post_delete_outcome(owner, user_id, role@, content_kind@, in_trash, rs) {
                Ok(v) => r matches Ok(x) && x@ == v,
                Err((c, m)) => r matches Err(e) && post_error_is(e, c, m),
            }
        }),
{
    if !str_eq(content_kind, "post") {
        return Err(PostError::Validation(msg("Use the typed delete endpoint for projects/games.")));
    }
    if in_trash {
        return Err(PostError::Conflict(msg("Post already in trash.")));
    }
    if owner != user_id && !crate::access::is_admin_or_mod_game(role) {
        return Err(PostError::Forbidden);
    }
    let reason = deletion_reason(reason);
    if !is_allowed_reason(reason.as_str()) {
        return Err(PostError::Validation(msg("Invalid deletion reason.")));
    }
    Ok(reason)
}

/// Why restoring a post is refused, if it is: it must be in the trash (else
/// the conflict's message), and the caller its author, an administrator or a
/// moderator (else the empty text, for forbidden).
pub open spec fn post_restore_outcome(owner: i64, user_id: i64, role: Seq<char>, in_trash: bool) -> Option<
    Seq<char>,
> {
    if !in_trash {
        Some("Post is not in trash."@)
    } else if owner != user_id && !(role == "admin"@ || role == "moderator"@) {
        Some(Seq::empty())
    } else {
        None
    }
}

/// Restoring a post: it must be in the trash, and the caller its author, an
/// administrator or a moderator.
pub fn check_post_restore(owner: i64, user_id: i64, role: &str, in_trash: bool) -> (r: Result<(), PostError>)
    ensures
        match post_restore_outcome(owner, user_id, role@, in_trash) {
            None => r is Ok,
            Some(m) => if m.len() == 0 {
                r matches Err(PostError::Forbidden)
            } else {
                r matches Err(PostError::Conflict(x)) && x@ == m
            },
        },
{
    proof {
        reveal_strlit("Post is not in trash.");
    }
    if !in_trash {
        return Err(PostError::Conflict(msg("Post is not in trash.")));
    }
    if owner != user_id && !crate::access::is_admin_or_mod_game(role) {
        return Err(PostError::Forbidden);
    }
    Ok(())
}

/// Only administrators purge immediately.
pub fn check_purge(role: &str) -> (r: bool)
    ensures
        r == (role@ == "admin"@),
{
    str_eq(role, "admin")
}

/// How a game leaves: a game sharing its post with a project loses only its
/// own row; any other game goes to the trash with an accepted reason.
pub enum GameDeletion {
    DropGameRow(String),
    SoftDelete(String),
}

pub open spec fn game_delete_outcome(
    kind: Seq<char>,
    in_trash: bool,
    shared: bool,
    reason: Seq<char>,
) -> Result<(bool, Seq<char>), (bool, Seq<char>)> {
    if kind != "game"@ && !(shared && kind == "project"@) {
        Err((false, "Use the typed delete endpoint for this content kind."@))
    } else if in_trash && !shared {
        Err((true, "Game already in trash."@))
    } else if shared {
        Ok((true, reason))
    } else if !allowed_reason(reason) {
        Err((false, "Invalid deletion reason."@))
    } else {
        Ok((false, reason))
    }
}

pub fn plan_game_deletion(content_kind: &str, in_trash: bool, shared: bool, reason: Option<String>) -> (r: Result<
    GameDeletion,
    GameError,
>)
    ensures
        ({
            let rs = match reason {
                Some(x) => x@,
                None => "user_request"@,
            };
            match game_delete_outcome(content_kind@, in_trash, shared, rs) {
                Ok((true, v)) => r matches Ok(GameDeletion::DropGameRow(x)) && x@ == v,
                Ok((false, v)) => r matches Ok(GameDeletion::SoftDelete(x)) && x@ == v,
                Err((true, m)) => r matches Err(GameError::Conflict(x)) && x@ == m,
                Err((false, m)) => r matches Err(GameError::InvalidDemo(x)) && x@ == m,
            }
        }),
{
    if !str_eq(content_kind, "game") && !(shared && str_eq(content_kind, "project")) {
        return Err(
            GameError::InvalidDemo(msg("Use the typed delete endpoint for this content kind.")),
        );
    }
    if in_trash && !shared {
        return Err(GameError::Conflict(msg("Game already in trash.")));
    }
    let reason = deletion_reason(reason);
    if shared {
        return Ok(GameDeletion::DropGameRow(reason));
    }
    if !is_allowed_reason(reason.as_str()) {
        return Err(GameError::InvalidDemo(msg("Invalid deletion reason.")));
    }
    Ok(GameDeletion::SoftDelete(reason))
}

/// A game that published projects delegate to goes only when forced.
pub fn check_delegations(delegating: usize, force: Option<bool>) -> (r: Result<(), GameError>)
    ensures
        delegating > 0 && force != Some(true) ==> (r matches Err(GameError::Conflict(m)) && m@
            == "Game is delegated by "@ + decimal(delegating as nat)
            + " published project(s); use ?force=true to confirm."@),
        !(delegating > 0 && force != Some(true)) ==> r is Ok,
{
    if delegating > 0 && force != Some(true) {
        let d = format_u64(delegating as u64);
        let ds = string_from(d.as_slice());
        return Err(
            GameError::Conflict(
                msg3(
                    "Game is delegated by ",
                    ds.as_str(),
                    " published project(s); use ?force=true to confirm.",
                ),
            ),
        );
    }
    Ok(())
}

/// Restoring a game needs it to be in the trash.
pub fn check_game_restore(in_trash: bool) -> (r: Result<(), GameError>)
    ensures
        in_trash ==> r is Ok,
        !in_trash ==> (r matches Err(GameError::Conflict(m)) && m@ == "Game is not in trash."@),
{
    if !in_trash {
        return Err(GameError::Conflict(msg("Game is not in trash.")));
    }
    Ok(())
}

/// How a project leaves: a project sharing its post with its game loses only
/// its own row; any other project goes to the trash with an accepted reason.
pub enum ProjectDeletion {
    DropProjectRow,
    SoftDelete(String),
}

/// How a project deletion goes: `Ok(None)` drops only the project's row (a
/// project sharing its post with its game), `Ok(Some(reason))` moves it to
/// the trash with that reason, `Err((conflict, message))` refuses it.
pub open spec fn project_delete_outcome(
    shared: bool,
    kind: Seq<char>,
    in_trash: bool,
    reason: Seq<char>,
) -> Result<Option<Seq<char>>, (bool, Seq<char>)> {
    if shared {
        Ok(None)
    } else if kind != "project"@ {
        Err((false, "Use the typed delete endpoint for this content kind."@))
    } else if in_trash {
        Err((true, "Project already in trash."@))
    } else if !allowed_reason(reason) {
        Err((false, "Invalid deletion reason."@))
    } else {
        Ok(Some(reason))
    }
}

pub fn plan_project_deletion(
    shared_with_game: bool,
    content_kind: &str,
    in_trash: bool,
    reason: Option<String>,
) -> (r: Result<ProjectDeletion, ProjectError>)
    ensures
        ({
            let rs = match reason {
                Some(x) => x@,
                None => "user_request"@,
            };
            match project_delete_outcome(shared_with_game, content_kind@, in_trash, rs) {
                Ok(None) => r matches Ok(ProjectDeletion::DropProjectRow),
                Ok(Some(v)) => r matches Ok(ProjectDeletion::SoftDelete(x)) && x@ == v,
                Err((true, m)) => r matches Err(ProjectError::Conflict(x)) && x@ == m,
                Err((false, m)) => r matches Err(ProjectError::InvalidDemo(x)) && x@ == m,
            }
        }),
{
    if shared_with_game {
        return Ok(ProjectDeletion::DropProjectRow);
    }
    if !str_eq(content_kind, "project") {
        return Err(
            ProjectError::InvalidDemo(msg("Use the typed delete endpoint for this content kind.")),
        );
    }
    if in_trash {
        return Err(ProjectError::Conflict(msg("Project already in trash.")));
    }
    let reason = deletion_reason(reason);
    if !is_allowed_reason(reason.as_str()) {
        return Err(ProjectError::InvalidDemo(msg("Invalid deletion reason.")));
    }
    Ok(ProjectDeletion::SoftDelete(reason))
}

/// Who may move a live post to the trash: its author, and any administrator
/// or moderator, whoever wrote it; for anyone else the deletion is forbidden.
/// With an accepted reason an allowed deletion succeeds and records it.
pub proof fn law_post_deletion_by_author_or_staff(
    owner: i64,
    user_id: i64,
    role: Seq<char>,
    reason: Seq<char>,
)
    ensures
        (owner == user_id || role == "admin"@ || role == "moderator"@) && allowed_reason(reason)
            ==> post_delete_outcome(owner, user_id, role, "post"@, false, reason) == Ok::<
            Seq<char>,
            (int, Seq<char>),
        >(reason),
        role == "admin"@ && allowed_reason(reason) ==> post_delete_outcome(
            owner,
            user_id,
            role,
            "post"@,
            false,
            reason,
        ) is Ok,
        owner != user_id && role != "admin"@ && role != "moderator"@ ==> post_delete_outcome(
            owner,
            user_id,
            role,
            "post"@,
            false,
            reason,
        ) == Err::<Seq<char>, (int, Seq<char>)>((2, Seq::empty())),
{
}

/// Which path a game deletion takes: a game sharing its post with a project
/// loses only its row, whatever the reason and even if the post is in the
/// trash; any other plain game goes to the trash for an accepted reason and is
/// refused with any other; a game already in the trash is refused unless
/// shared, and a post of another kind is refused.
pub proof fn law_game_deletion_paths(kind: Seq<char>, in_trash: bool, shared: bool, reason: Seq<char>)
    ensures
        shared && (kind == "game"@ || kind == "project"@) ==> game_delete_outcome(
            kind,
            in_trash,
            shared,
            reason,
        ) == Ok::<(bool, Seq<char>), (bool, Seq<char>)>((true, reason)),
        !shared && kind == "game"@ && !in_trash && allowed_reason(reason) ==> game_delete_outcome(
            kind,
            in_trash,
            shared,
            reason,
        ) == Ok::<(bool, Seq<char>), (bool, Seq<char>)>((false, reason)),
        !shared && kind == "game"@ && !in_trash && !allowed_reason(reason) ==> game_delete_outcome(
            kind,
            in_trash,
            shared,
            reason,
        ) == Err::<(bool, Seq<char>), (bool, Seq<char>)>((false, "Invalid deletion reason."@)),
        !shared && kind == "game"@ && in_trash ==> game_delete_outcome(kind, in_trash, shared, reason)
            == Err::<(bool, Seq<char>), (bool, Seq<char>)>((true, "Game already in trash."@)),
        kind != "game"@ && kind != "project"@ ==> game_delete_outcome(kind, in_trash, shared, reason)
            is Err,
        game_delete_outcome(kind, in_trash, shared, reason) matches Ok((false, v)) ==> allowed_reason(
            v,
        ) && v == reason,
{
}

/// Every reason the trash accepts, and nothing else: the five of the API.
pub proof fn law_accepted_reasons(reason: Seq<char>)
    ensures
        allowed_reason("user_request"@) && allowed_reason("dmca"@) && allowed_reason("moderation"@)
            && allowed_reason("replaced"@) && allowed_reason("other"@),
        reason != "user_request"@ && reason != "dmca"@ && reason != "moderation"@ && reason
            != "replaced"@ && reason != "other"@ ==> !allowed_reason(reason),
{
}

/// A post deletion is refused for another kind of post or one already in
/// the trash, whoever asks; and an allowed caller with a reason outside the
/// accepted five is refused.
pub proof fn law_post_deletion_refusals(
    owner: i64,
    user_id: i64,
    role: Seq<char>,
    kind: Seq<char>,
    in_trash: bool,
    reason: Seq<char>,
)
    ensures
        kind != "post"@ ==> post_delete_outcome(owner, user_id, role, kind, in_trash, reason) is Err,
        kind == "post"@ && in_trash ==> post_delete_outcome(owner, user_id, role, kind, in_trash, reason)
            == Err::<Seq<char>, (int, Seq<char>)>((1, "Post already in trash."@)),
        kind == "post"@ && !in_trash && owner == user_id && !allowed_reason(reason)
            ==> post_delete_outcome(owner, user_id, role, kind, in_trash, reason) == Err::<
            Seq<char>,
            (int, Seq<char>),
        >((0, "Invalid deletion reason."@)),
        post_delete_outcome(owner, user_id, role, kind, in_trash, reason) is Ok ==> kind == "post"@
            && !in_trash && allowed_reason(reason) && (owner == user_id || role == "admin"@ || role
            == "moderator"@),
{
}

/// Who may restore a post from the trash: its author, and any administrator
/// or moderator; a post that is not in the trash cannot be restored by anyone.
pub proof fn law_post_restore_by_author_or_staff(owner: i64, user_id: i64, role: Seq<char>, in_trash: bool)
    ensures
        in_trash && (owner == user_id || role == "admin"@ || role == "moderator"@)
            ==> post_restore_outcome(owner, user_id, role, in_trash) is None,
        in_trash && owner != user_id && role != "admin"@ && role != "moderator"@
            ==> post_restore_outcome(owner, user_id, role, in_trash) == Some(Seq::<char>::empty()),
        !in_trash ==> post_restore_outcome(owner, user_id, role, in_trash) == Some(
            "Post is not in trash."@,
        ),
{
    reveal_strlit("Post is not in trash.");
}

/// How a project leaves: one sharing its post with its game loses only its
/// row, whatever else holds; any other project must be a live project and
/// goes to the trash with an accepted reason, recorded as given.
pub proof fn law_project_deletion_paths(shared: bool, kind: Seq<char>, in_trash: bool, reason: Seq<char>)
    ensures
        shared ==> project_delete_outcome(shared, kind, in_trash, reason) == Ok::<
            Option<Seq<char>>,
            (bool, Seq<char>),
        >(None),
        !shared && kind == "project"@ && !in_trash && allowed_reason(reason) ==> project_delete_outcome(
            shared,
            kind,
            in_trash,
            reason,
        ) == Ok::<Option<Seq<char>>, (bool, Seq<char>)>(Some(reason)),
        !shared && kind == "project"@ && in_trash ==> project_delete_outcome(shared, kind, in_trash, reason)
            == Err::<Option<Seq<char>>, (bool, Seq<char>)>((true, "Project already in trash."@)),
        !shared && kind == "project"@ && !in_trash && !allowed_reason(reason) ==> project_delete_outcome(
            shared,
            kind,
            in_trash,
            reason,
        ) is Err,
        !shared && kind != "project"@ ==> project_delete_outcome(shared, kind, in_trash, reason) is Err,
{
}

} // verus!
