//! Request and response shapes of the audiobook endpoints.
use vstd::prelude::*;
use crate::domain::AudiobookSnapshot;

verus! {

pub struct AudiobookCreatedResponse {
    pub audiobook_id: i64,
}

pub struct AudiobookDetailsResponse {
    pub audiobook: crate::domain::AudiobookDetails,
}

pub struct AudiobookListResponse {
    pub audiobooks: Vec<AudiobookSummaryResponse>,
}

pub struct AudiobookSummaryResponse {
    pub id: i64,
    pub title: String,
    pub slug: String,
    pub description: String,
    pub translator: Option<String>,
    pub status: String,
    pub url: Option<String>,
    pub track_count: i64,
    pub total_duration_seconds: i64,
    pub tags: Vec<String>,
    pub tag_slugs: Vec<String>,
    pub owner_username: Option<String>,
    pub owner_display_name: Option<String>,
    pub created_at: String,
    pub published_at: Option<String>,
}

pub struct AudiobookTagsResponse {
    pub tags: Vec<crate::domain::AudiobookTag>,
}

pub struct ChangeStatusPayload {
    pub status: String,
}

pub struct ListQuery {
    pub term: Option<String>,
    pub tag: Option<String>,
    pub limit: Option<i64>,
    pub offset: Option<i64>,
}

pub struct ReorderTracksPayload {
    pub order: Vec<i64>,
}

pub struct SlugAvailabilityResponse {
    /// `true` when the slug is free to use.
    pub available: bool,
}

pub struct SlugQuery {
    pub slug: String,
}

pub struct TrackCreatedResponse {
    pub track_id: i64,
}

pub struct UpdateAudiobookPayload {
    pub title: Option<String>,
    pub slug: Option<String>,
    pub description: Option<String>,
    /// Sent as `null` to clear the translator; omit to leave it unchanged.
    pub translator: Option<Option<String>>,
    pub tags: Option<Vec<String>>,
}

pub struct UpdateTrackPayload {
    pub title: Option<String>,
    pub number: Option<i64>,
    pub duration_seconds: Option<i64>,
}

/// The summary of an audiobook in listings: the snapshot's fields, moved.
impl From<AudiobookSnapshot> for AudiobookSummaryResponse {
    fn from(value: AudiobookSnapshot) -> (r: AudiobookSummaryResponse) {
        AudiobookSummaryResponse {
            id: value.id,
            title: value.title,
            slug: value.slug,
            description: value.description,
            translator: value.translator,
            status: value.status,
            url: value.url,
            track_count: value.track_count,
            total_duration_seconds: value.total_duration_seconds,
            tags: value.tags,
            tag_slugs: value.tag_slugs,
            owner_username: value.owner_username,
            owner_display_name: value.owner_display_name,
            created_at: value.created_at,
            published_at: value.published_at,
        }
    }
}

impl vstd::std_specs::convert::FromSpecImpl<AudiobookSnapshot> for AudiobookSummaryResponse {
    open spec fn obeys_from_spec() -> bool {
        true
    }

    open spec fn from_spec(value: AudiobookSnapshot) -> AudiobookSummaryResponse {
        AudiobookSummaryResponse {
            id: value.id,
            title: value.title,
            slug: value.slug,
            description: value.description,
            translator: value.translator,
            status: value.status,
            url: value.url,
            track_count: value.track_count,
            total_duration_seconds: value.total_duration_seconds,
            tags: value.tags,
            tag_slugs: value.tag_slugs,
            owner_username: value.owner_username,
            owner_display_name: value.owner_display_name,
            created_at: value.created_at,
            published_at: value.published_at,
        }
    }
}

} // verus!
