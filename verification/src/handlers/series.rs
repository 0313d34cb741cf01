//! Request and response shapes of the series endpoints.
use vstd::prelude::*;

verus! {

pub struct AddPostToSeriesQuery {
    pub post_id: i64,
    pub index: Option<i64>,
}

pub struct GetAllSeriesQuery {
    pub limit: Option<i64>,
    pub offset: Option<i64>,
}

pub struct GetSeriesPostsResponse {
    pub posts: Vec<SeriesPostItem>,
}

pub struct GetSeriesResponse {
    pub series: Vec<SeriesResponse>,
}

pub struct SeriesPostItem {
    pub post_id: i64,
    pub title: String,
    pub slug: String,
    pub status: String,
    pub number: i64,
    pub cover_url: Option<String>,
}

pub struct SeriesResponse {
    pub id: i64,
    pub title: String,
    pub slug: String,
    pub description: String,
    pub url: Option<String>,
    pub post_count: i64,
    pub owner_username: Option<String>,
}

} // verus!
