//! Request and response shapes of the dashboard endpoints.
use vstd::prelude::*;

verus! {

pub struct DashboardPostsQuery {
    pub limit: Option<i64>,
    pub offset: Option<i64>,
    pub search: Option<String>,
}

pub struct DashboardProjectsQuery {
    pub limit: Option<i64>,
    pub offset: Option<i64>,
    pub search: Option<String>,
}

pub struct DashboardUsersQuery {
    pub limit: Option<i64>,
    pub offset: Option<i64>,
    pub search: Option<String>,
    pub role: Option<String>,
}

pub struct TrackVisitBody {
    pub path: Option<String>,
}

pub struct UpdateTagBody {
    pub name: String,
    pub slug: String,
    pub description: Option<String>,
}

pub struct VisitorCountriesQuery {
    pub days: Option<i64>,
}

pub struct VisitorCountriesResponse {
    pub countries: Vec<crate::domain::VisitorCountryStat>,
}

} // verus!
