//! Request and response shapes of the newsletter endpoints.
use vstd::prelude::*;

verus! {

pub struct SendCampaignPayload {
    pub subject: String,
    pub body_html: String,
    pub body_text: String,
    pub post_id: Option<i64>,
}

pub struct SubscribePayload {
    pub email: String,
}

pub struct TokenQuery {
    pub token: String,
}

pub struct UnsubscribeByEmailPayload {
    pub email: String,
}

} // verus!
