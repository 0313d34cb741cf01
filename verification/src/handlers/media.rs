//! Request and response shapes of the media endpoints.
use vstd::prelude::*;

verus! {

pub struct AddAliasPayload {
    pub alias: String,
}

pub struct ChangeAliasPayload {
    pub new_alias: String,
}

pub struct ChangeDetailsPayload {
    pub new_short_name: Option<String>,
    pub description: Option<String>,
}

pub struct GetAliasesResponse {
    pub aliases: Vec<String>,
}

pub struct GetLinkResponse {
    pub short_name: Option<String>,
    pub url: String,
    pub file_type: String,
}

pub struct GetMediaDetailsResponse {
    pub short_name: String,
    pub file_type: String,
    pub description: String,
    pub aliases: Vec<String>,
}

pub struct MediaQuery {
    pub term: Option<String>,
    pub size: Option<u32>,
    pub skip: Option<u32>,
}

pub struct SearchResponse {
    pub results: Vec<GetLinkResponse>,
}

} // verus!
