//! Request and response shapes of the user endpoints.
use vstd::prelude::*;

verus! {

pub struct ChangeDetailsBody {
    pub display_name: Option<String>,
    pub bio: Option<String>,
}

pub struct CheckModResponse {
    pub is_authorized: bool,
}

pub struct GetLatestCommentsQuery {
    pub limit: Option<i64>,
    pub offset: Option<i64>,
}

pub struct GetLatestCommentsResponse {
    pub comments: Vec<LatestComment>,
}

pub struct GetPostsQuery {
    pub limit: Option<i64>,
    pub offset: Option<i64>,
}

pub struct GetPostsResponse {
    pub posts: Vec<Post>,
}

pub struct GetUserResponse {
    pub username: String,
    pub display_name: String,
    pub avatar_url: Option<String>,
    pub bio: String,
    pub role: String,
}

pub struct LatestComment {
    pub id: i64,
    pub parent_id: Option<i64>,
    pub content: String,
    pub created_at: String,
    pub post_title: String,
    pub post_slug: String,
    pub avatar_url: Option<String>,
    pub display_name: Option<String>,
    pub username: Option<String>,
}

pub struct MeResponse {
    pub username: String,
    pub display_name: String,
    pub role: String,
    pub avatar_url: Option<String>,
}

pub struct Post {
    pub id: i64,
    pub title: String,
    pub slug: String,
    pub tag_names: Vec<String>,
    pub tag_slugs: Vec<String>,
    pub excerpt: String,
    pub author_name: String,
    pub author_slug: String,
    pub status: String,
    pub url: Option<String>,
    pub cover_media_type: Option<String>,
    pub reading_time_minutes: i64,
}

pub struct SearchUserQuery {
    pub term: String,
    pub size: Option<i64>,
    pub offset: Option<i64>,
}

pub struct SearchUserResponse {
    pub users: Vec<SearchUserResult>,
}

pub struct SearchUserResult {
    pub username: String,
    pub display_name: String,
    pub role: String,
    pub avatar_url: Option<String>,
}

} // verus!
