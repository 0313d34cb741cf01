//! Request and response shapes of the post endpoints.
use vstd::prelude::*;
use crate::domain::PostSnapshot;

verus! {

pub struct CategoryResponse {
    pub name: String,
    pub slug: String,
}

pub struct CheckQuery {
    pub slug: Option<String>,
}

pub struct CheckResponse {
    pub exists: bool,
}

pub struct Comment {
    pub id: i64,
    pub parent_id: Option<i64>,
    pub direct_reply_count: Option<i64>,
    pub content: String,
    pub created_at: String,
    pub display_name: Option<String>,
    pub username: Option<String>,
    pub avatar_url: Option<String>,
    pub user_role: Option<String>,
}

pub struct CommentsQuery {
    pub before: Option<i64>,
    pub limit: Option<i64>,
    pub parent_id: Option<i64>,
}

pub struct CommentsResponse {
    pub comments: Vec<Comment>,
    pub has_more: bool,
}

pub struct DeletePostQuery {
    pub reason: Option<String>,
    pub detail: Option<String>,
}

pub struct GetCategoriesResponse {
    pub categories: Vec<CategoryResponse>,
}

pub struct GetFeaturedPostsBody {
    pub limit: i64,
}

pub struct GetFeaturedPostsQuery {
    pub limit: Option<i64>,
    pub offset: Option<i64>,
    pub sorted_by_updated: Option<bool>,
    pub sorted_by_created: Option<bool>,
}

pub struct GetFeaturedPostsResponse {
    pub featured_posts: Vec<Post>,
    pub has_more: bool,
}

pub struct GetPostDetailsResponse {
    pub id: i64,
    pub title: String,
    pub slug: String,
    pub tags: Vec<String>,
    pub excerpt: String,
    pub series_slug: Option<String>,
    pub series_cover_url: Option<String>,
    pub content: String,
    pub is_featured: i64,
    pub medium_urls: Vec<String>,
    pub medium_short_names: Vec<String>,
    pub cover_url: Option<String>,
    pub cover_media_type: Option<String>,
    pub og_image_url: Option<String>,
    pub og_image_seconds: i64,
    pub is_owner: bool,
    /// Optimistic-lock token the editor echoes back as `expected_updated_at`.
    pub updated_at: Option<String>,
}

pub struct GetPostQuery {
    pub with_draft: Option<bool>,
}

pub struct GetRelatedPostsResponse {
    pub posts: Vec<SearchPostResult>,
}

pub struct GetTagPostsQuery {
    pub limit: Option<i64>,
    pub offset: Option<i64>,
}

pub struct NewCommentBody {
    pub content: String,
    pub parent_id: Option<i64>,
    pub guest_identity: Option<String>,
}

pub struct NewCommentResponse {
    pub comment_id: i64,
}

pub struct Post {
    pub id: i64,
    pub title: String,
    pub slug: String,
    pub tag_names: Vec<String>,
    pub tag_slugs: Vec<String>,
    pub excerpt: String,
    pub author_name: String,
    pub author_slug: String,
    pub url: Option<String>,
    pub cover_media_type: Option<String>,
    pub stats: PostStats,
    pub reading_time_minutes: i64,
}

pub struct PostData {
    pub title: String,
    pub slug: String,
    pub excerpt: String,
    pub content: String,
    pub tags: Vec<String>,
    pub number_of_files: usize,
}

pub struct PostPatchData {
    pub title: Option<String>,
    pub slug: Option<String>,
    pub excerpt: Option<String>,
    pub content: Option<String>,
    pub tags: Option<Vec<String>>,
    pub number_of_files: usize,
    pub og_image_seconds: Option<i64>,
    /// Optional optimistic-lock token: the `updated_at` the editor last saw.
    pub expected_updated_at: Option<String>,
}

pub struct PostResponse {
    pub id: i64,
    pub title: String,
    pub tags: Vec<String>,
    pub author_name: String,
    pub author_slug: String,
    pub excerpt: String,
    pub content: String,
    pub medium_urls: Vec<String>,
    pub published_at: Option<String>,
    pub updated_at: Option<String>,
    pub cover_url: Option<String>,
    pub cover_media_type: Option<String>,
    pub cover_video_url: Option<String>,
    pub cover_video_type: Option<String>,
    pub og_image_seconds: i64,
    pub reading_time_minutes: i64,
    pub author_avatar_url: Option<String>,
    pub series: Option<PostSeriesResponse>,
    pub related_posts: Vec<SearchPostResult>,
}

pub struct PostSeriesResponse {
    pub title: String,
    pub slug: String,
    pub cover_url: String,
    pub previous_post: Option<SearchPostResult>,
    pub next_post: Option<SearchPostResult>,
}

pub struct PostStats {
    pub views: i64,
    pub likes: i64,
    pub comments: i64,
}

pub struct SearchPostQuery {
    pub term: String,
    pub size: Option<i64>,
    pub offset: Option<i64>,
}

pub struct SearchPostResponse {
    pub posts: Vec<SearchPostResult>,
}

pub struct SearchPostResult {
    pub title: String,
    pub slug: String,
    pub cover_url: Option<String>,
}

pub struct SearchTagResult {
    pub name: String,
    pub slug: String,
    pub description: Option<String>,
    pub post_count: i64,
}

pub struct SearchTagsQuery {
    pub term: Option<String>,
    pub size: Option<i64>,
    pub offset: Option<i64>,
}

pub struct SearchTagsResponse {
    pub tags: Vec<SearchTagResult>,
}

pub struct SetPostFeaturedBody {
    pub is_featured: bool,
}

pub struct SetRelatedPostsBody {
    pub related_post_slugs: Vec<String>,
}

pub struct TagPostsResponse {
    pub tag: SearchTagResult,
    pub posts: Vec<Post>,
    pub projects: Vec<crate::handlers::project::ProjectCard>,
}

pub struct UpdatePostResponse {
    pub updated_at: String,
}

/// The card of a post in listings: the snapshot's fields, moved.
impl From<PostSnapshot> for Post {
    fn from(value: PostSnapshot) -> (r: Post) {
        Post {
            id: value.id,
            title: value.title,
            slug: value.slug,
            tag_names: value.tag_names,
            tag_slugs: value.tag_slugs,
            excerpt: value.excerpt,
            author_name: value.author_name,
            author_slug: value.author_slug,
            url: value.url,
            cover_media_type: value.cover_media_type,
            reading_time_minutes: value.reading_time_minutes,
            stats: PostStats { views: value.stats.views, likes: value.stats.likes, comments: value.stats.comments },
        }
    }
}

impl vstd::std_specs::convert::FromSpecImpl<PostSnapshot> for Post {
    open spec fn obeys_from_spec() -> bool {
        true
    }

    open spec fn from_spec(value: PostSnapshot) -> Post {
        Post {
            id: value.id,
            title: value.title,
            slug: value.slug,
            tag_names: value.tag_names,
            tag_slugs: value.tag_slugs,
            excerpt: value.excerpt,
            author_name: value.author_name,
            author_slug: value.author_slug,
            url: value.url,
            cover_media_type: value.cover_media_type,
            reading_time_minutes: value.reading_time_minutes,
            stats: PostStats { views: value.stats.views, likes: value.stats.likes, comments: value.stats.comments },
        }
    }
}

} // verus!
