//! Caller identity, roles and paging bounds shared by the handlers.
use vstd::prelude::*;
use crate::errors::{AudiobookError, GameError, ProjectError, msg};
use crate::numbers::{parse_i64, parse_signed64};
use crate::text::{chars_of, str_eq};

verus! {

/// The authenticated caller as the token carries it.
pub struct Claims {
    pub user_id: String,
    pub role: String,
}

/// The caller's numeric id, parsed from the token.
pub fn caller_id(claims: &Claims) -> (r: Result<i64, AudiobookError>)
    ensures
        match parse_signed64(claims.user_id@) {
            Some(v) => r == Ok::<i64, AudiobookError>(v as i64),
            None => r matches Err(AudiobookError::InternalError(m)) && m@ == "Cannot parse id"@,
        },
{
    let cs = chars_of(claims.user_id.as_str());
    match parse_i64(cs.as_slice()) {
        Some(v) => Ok(v),
        None => Err(AudiobookError::InternalError(msg("Cannot parse id"))),
    }
}

/// Whether the caller is an administrator.
pub fn is_admin(claims: &Claims) -> (r: bool)
    ensures
        r == (claims.role@ == "admin"@),
{
    str_eq(claims.role.as_str(), "admin")
}

/// Administrators and moderators may act on any game.
pub fn is_admin_or_mod_game(role: &str) -> (r: bool)
    ensures
        r == (role@ == "admin"@ || role@ == "moderator"@),
{
    str_eq(role, "admin") || str_eq(role, "moderator")
}

pub open spec fn clamped_page_size(limit: Option<i64>, default: i64, max: i64) -> i64 {
    let v = match limit {
        Some(l) => l,
        None => default,
    };
    if v < 1 {
        1
    } else if v > max {
        max
    } else {
        v
    }
}

pub open spec fn clamped_offset(offset: Option<i64>) -> i64 {
    match offset {
        Some(o) => if o < 0 { 0 } else { o },
        None => 0,
    }
}

/// A page size: the requested one, or `default` when absent, kept within `1..=max`.
pub fn clamp_page_size(limit: Option<i64>, default: i64, max: i64) -> (r: i64)
    requires
        1 <= max,
    ensures
        r == clamped_page_size(limit, default, max),
        1 <= r <= max,
{
    let v = match limit {
        Some(l) => l,
        None => default,
    };
    if v < 1 {
        1
    } else if v > max {
        max
    } else {
        v
    }
}

/// A row offset: the requested one, or 0 when absent, never negative.
pub fn clamp_offset(offset: Option<i64>) -> (r: i64)
    ensures
        r == clamped_offset(offset),
        r >= 0,
{
    match offset {
        Some(o) => if o < 0 { 0 } else { o },
        None => 0,
    }
}

/// Clamp a caller-supplied page window so a request cannot pull the whole table.
pub fn page_window(limit: Option<i64>, offset: Option<i64>, default: i64) -> (r: (i64, i64))
    ensures
        r == (clamped_page_size(limit, default, 100), clamped_offset(offset)),
        1 <= r.0 <= 100,
        r.1 >= 0,
{
    (clamp_page_size(limit, default, 100), clamp_offset(offset))
}

/// Ownership check of a game or project: `owner` is the author of the item,
/// or `None` when the item does not exist.
pub fn require_owner(owner: Option<i64>, user_id: i64) -> (r: Result<(), ProjectError>)
    ensures
        match owner {
            Some(id) => if id == user_id {
                r is Ok
            } else {
                r matches Err(ProjectError::Forbidden)
            },
            None => r matches Err(ProjectError::ProjectNotFound),
        },
{
    match owner {
        Some(id) => if id == user_id {
            Ok(())
        } else {
            Err(ProjectError::Forbidden)
        },
        None => Err(ProjectError::ProjectNotFound),
    }
}

/// Who may move a game to the trash, restore or delete it: its author, an
/// administrator or a moderator. `owner` is `None` when the game does not exist.
pub fn require_can_delete(owner: Option<i64>, user_id: i64, role: &str) -> (r: Result<(), GameError>)
    ensures
        match owner {
            Some(id) => if id == user_id || role@ == "admin"@ || role@ == "moderator"@ {
                r is Ok
            } else {
                r matches Err(GameError::Forbidden)
            },
            None => r matches Err(GameError::GameNotFound),
        },
        match delete_refusal(owner, user_id, role@) {
            None => r is Ok,
            Some(true) => r matches Err(GameError::GameNotFound),
            Some(false) => r matches Err(GameError::Forbidden),
        },
{
    match owner {
        Some(id) => if id == user_id || is_admin_or_mod_game(role) {
            Ok(())
        } else {
            Err(GameError::Forbidden)
        },
        None => Err(GameError::GameNotFound),
    }
}

/// The window of the visitor-country statistics, in days, as `visitor_days`
/// gives it.
pub open spec fn visitor_window(days: Option<i64>) -> i64 {
    let d = match days {
        Some(d) => d,
        None => 30,
    };
    if d < 1 {
        1
    } else if d > 365 {
        365
    } else {
        d
    }
}

/// Who may delete, restore or purge a game: `None` when allowed, else
/// whether the game is missing (`true`) or the caller forbidden (`false`).
pub open spec fn delete_refusal(owner: Option<i64>, user_id: i64, role: Seq<char>) -> Option<bool> {
    match owner {
        None => Some(true),
        Some(id) => if id == user_id || role == "admin"@ || role == "moderator"@ {
            None
        } else {
            Some(false)
        },
    }
}

/// The window of the visitor-country statistics, in days: the requested one,
/// 30 when absent, kept within `1..=365`.
pub fn visitor_days(days: Option<i64>) -> (r: i64)
    ensures
        r == visitor_window(days),
        r == ({
            let d = match days {
                Some(d) => d,
                None => 30,
            };
            if d < 1 {
                1
            } else if d > 365 {
                365
            } else {
                d
            }
        }),
{
    let d = match days {
        Some(d) => d,
        None => 30,
    };
    if d < 1 {
        1
    } else if d > 365 {
        365
    } else {
        d
    }
}

/// A page holds between one row and `max`: a requested size in that range is
/// kept, a smaller one gives one row, a larger one `max`, none the default
/// (kept in range too); asking for more never gives fewer. An offset is never
/// negative and a non-negative one is kept.
pub proof fn law_page_windows(limit: Option<i64>, other: Option<i64>, default: i64, max: i64, offset: Option<i64>)
    requires
        1 <= max,
    ensures
        1 <= clamped_page_size(limit, default, max) <= max,
        limit is Some && 1 <= limit->Some_0 <= max ==> clamped_page_size(limit, default, max)
            == limit->Some_0,
        limit is None && 1 <= default <= max ==> clamped_page_size(limit, default, max) == default,
        limit matches Some(l) && l > max ==> clamped_page_size(limit, default, max) == max,
        limit matches Some(l) && l < 1 ==> clamped_page_size(limit, default, max) == 1,
        limit matches Some(l) && other matches Some(o) && l <= o ==> clamped_page_size(limit, default, max)
            <= clamped_page_size(other, default, max),
        clamped_offset(offset) >= 0,
        offset is Some && offset->Some_0 >= 0 ==> clamped_offset(offset) == offset->Some_0,
        offset is None ==> clamped_offset(offset) == 0,
{
}

/// The visitor statistics cover one day to a year: a requested window in
/// that range is kept, a shorter one becomes a day, a longer one a year, and
/// none gives thirty days; a longer request never gives a shorter window.
pub proof fn law_visitor_windows(days: Option<i64>, other: Option<i64>)
    ensures
        1 <= visitor_window(days) <= 365,
        days is None ==> visitor_window(days) == 30,
        days is Some && 1 <= days->Some_0 <= 365 ==> visitor_window(days) == days->Some_0,
        days is Some && other is Some && days->Some_0 <= other->Some_0 ==> visitor_window(days)
            <= visitor_window(other),
{
}

/// A game's author, and any administrator or moderator, may delete, restore
/// or purge it; anyone else is forbidden; a missing game is not found,
/// whoever asks.
pub proof fn law_game_deleters(owner: Option<i64>, user_id: i64, role: Seq<char>)
    ensures
        owner == Some(user_id) ==> delete_refusal(owner, user_id, role) is None,
        owner is Some && (role == "admin"@ || role == "moderator"@) ==> delete_refusal(
            owner,
            user_id,
            role,
        ) is None,
        owner is Some && owner != Some(user_id) && role != "admin"@ && role != "moderator"@
            ==> delete_refusal(owner, user_id, role) == Some(false),
        owner is None ==> delete_refusal(owner, user_id, role) == Some(true),
{
}

} // verus!
