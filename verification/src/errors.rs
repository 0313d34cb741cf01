//! Error values of the library's features, each carrying the message that the
//! HTTP layer shows to the caller.
use vstd::prelude::*;

verus! {

#[derive(Debug, Clone)]
pub enum GameError {
    InternalError(String),
    UploadFailed(String),
    InvalidDemo(String),
    Conflict(String),
    GameNotFound,
    Forbidden,
}

#[derive(Debug, Clone)]
pub enum ProjectError {
    InternalError(String),
    UploadFailed(String),
    InvalidDemo(String),
    Conflict(String),
    ProjectNotFound,
    Forbidden,
}

#[derive(Debug, Clone)]
pub enum PostError {
    InternalError(String),
    UploadFailed(String),
    Validation(String),
    Conflict(String),
    PostNotFound,
    Forbidden,
}

#[derive(Debug, Clone)]
pub enum AudiobookError {
    InternalError(String),
    Validation(String),
    Media(MediaError),
}

#[derive(Debug, Clone)]
pub enum MediaError {
    FileNotFound,
    UploadFailed(String),
    InternalError(String),
}

#[derive(Debug, Clone)]
pub enum SyncError {
    InternalError(String),
    InvalidData(String),
    NotFound,
}

/// An owned copy of a message text.
pub fn msg(s: &str) -> (r: String)
    ensures
        r@ == s@,
{
    String::from_str(s)
}

/// The concatenation `a + b` as an owned string.
pub fn msg2(a: &str, b: &str) -> (r: String)
    ensures
        r@ == a@ + b@,
{
    let r = String::from_str(a);
    r.concat(b)
}

/// The concatenation `a + b + c` as an owned string.
pub fn msg3(a: &str, b: &str, c: &str) -> (r: String)
    ensures
        r@ == a@ + b@ + c@,
{
    let r = String::from_str(a);
    let r = r.concat(b);
    r.concat(c)
}

/// A game error as the project handlers report it: the shared helpers of
/// both features fail with the same kind and message.
pub open spec fn as_project_error(e: GameError) -> ProjectError {
    match e {
        GameError::InternalError(m) => ProjectError::InternalError(m),
        GameError::UploadFailed(m) => ProjectError::UploadFailed(m),
        GameError::InvalidDemo(m) => ProjectError::InvalidDemo(m),
        GameError::Conflict(m) => ProjectError::Conflict(m),
        GameError::GameNotFound => ProjectError::ProjectNotFound,
        GameError::Forbidden => ProjectError::Forbidden,
    }
}

pub fn project_error_from(e: GameError) -> (r: ProjectError)
    ensures
        r == as_project_error(e),
{
    match e {
        GameError::InternalError(m) => ProjectError::InternalError(m),
        GameError::UploadFailed(m) => ProjectError::UploadFailed(m),
        GameError::InvalidDemo(m) => ProjectError::InvalidDemo(m),
        GameError::Conflict(m) => ProjectError::Conflict(m),
        GameError::GameNotFound => ProjectError::ProjectNotFound,
        GameError::Forbidden => ProjectError::Forbidden,
    }
}

} // verus!
