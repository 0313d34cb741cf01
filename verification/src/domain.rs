//! Entities that the service layer hands to the endpoints.
use vstd::prelude::*;
use crate::links::GameLink;
use crate::project_links::ProjectLink;

verus! {

/// An audiobook with its tracks, as the audiobook service renders it; the
/// library passes the document through.
pub struct AudiobookDetails {
    pub document: String,
}

/// An audiobook tag with its usage, as the audiobook service renders it.
pub struct AudiobookTag {
    pub document: String,
}

/// How the v86 launcher boots a game, as the v86 service renders it.
pub struct V86RuntimeDescriptor {
    pub document: String,
}

/// Visits from one country, as the analytics store counts them.
pub struct VisitorCountryStat {
    pub document: String,
}

/// A finished js-dos bundle of a game.
pub struct JsDosBundle {
    pub original_file_name: String,
    pub size_bytes: i64,
}

/// How a game is launched.
pub struct GameDemo {
    pub launcher_type: String,
    pub demo_url: Option<String>,
    pub width: Option<String>,
    pub height: Option<String>,
    pub jsdos_bundle: Option<JsDosBundle>,
}

/// A game page with its post.
pub struct Game {
    pub id: i64,
    pub post_id: i64,
    pub title: String,
    pub slug: String,
    pub tags: Vec<String>,
    pub author_name: String,
    pub author_slug: String,
    pub author_avatar_url: Option<String>,
    pub excerpt: String,
    pub content: String,
    pub medium_urls: Vec<String>,
    pub medium_short_names: Vec<String>,
    pub cover_url: Option<String>,
    pub cover_media_type: Option<String>,
    pub og_image_url: Option<String>,
    pub cover_video_url: Option<String>,
    pub cover_video_type: Option<String>,
    pub og_image_seconds: i64,
    pub published_at: Option<String>,
    pub updated_at: Option<String>,
    pub demo: GameDemo,
    pub instruction: String,
    pub cheatcode: String,
    pub story: String,
    pub related_games: Vec<GameLink>,
    pub is_owner: bool,
}

/// How a project's demo is shown.
pub struct ProjectDemo {
    pub demo_type: String,
    pub demo_url: Option<String>,
    pub width: Option<String>,
    pub height: Option<String>,
    pub config: Option<String>,
}

/// The game a delegated project plays.
pub struct DelegatedGame {
    pub id: i64,
    pub title: String,
    pub slug: String,
    pub launcher_type: String,
    pub demo_url: Option<String>,
    pub width: Option<String>,
    pub height: Option<String>,
    pub jsdos_bundle: Option<JsDosBundle>,
}

/// A project page with its post.
pub struct Project {
    pub id: i64,
    pub post_id: i64,
    pub title: String,
    pub slug: String,
    pub tags: Vec<String>,
    pub author_name: String,
    pub author_slug: String,
    pub author_avatar_url: Option<String>,
    pub excerpt: String,
    pub content: String,
    pub medium_urls: Vec<String>,
    pub medium_short_names: Vec<String>,
    pub cover_url: Option<String>,
    pub cover_media_type: Option<String>,
    pub og_image_url: Option<String>,
    pub cover_video_url: Option<String>,
    pub cover_video_type: Option<String>,
    pub og_image_seconds: i64,
    pub published_at: Option<String>,
    pub updated_at: Option<String>,
    pub demo: ProjectDemo,
    pub delegate_game_id: Option<i64>,
    pub inherit_thumbnail: bool,
    pub inherit_tags: bool,
    pub delegated_game: Option<DelegatedGame>,
    pub links: Vec<ProjectLink>,
    pub is_owner: bool,
}

/// Reader-facing counters of a post, game or project.
pub struct ContentStats {
    pub views: i64,
    pub likes: i64,
    pub comments: i64,
}

/// A post as listings read it.
pub struct PostSnapshot {
    pub id: i64,
    pub title: String,
    pub slug: String,
    pub tag_names: Vec<String>,
    pub tag_slugs: Vec<String>,
    pub excerpt: String,
    pub author_name: String,
    pub author_slug: String,
    pub url: Option<String>,
    pub cover_media_type: Option<String>,
    pub stats: ContentStats,
    pub reading_time_minutes: i64,
}

/// A game as listings read it.
pub struct GameSnapshot {
    pub id: i64,
    pub post_id: i64,
    pub title: String,
    pub slug: String,
    pub tag_names: Vec<String>,
    pub tag_slugs: Vec<String>,
    pub excerpt: String,
    pub author_name: String,
    pub author_slug: String,
    pub launcher_type: String,
    pub url: Option<String>,
    pub cover_media_type: Option<String>,
    pub stats: ContentStats,
    pub reading_time_minutes: i64,
}

/// A project as listings read it.
pub struct ProjectSnapshot {
    pub id: i64,
    pub post_id: i64,
    pub title: String,
    pub slug: String,
    pub tag_names: Vec<String>,
    pub tag_slugs: Vec<String>,
    pub excerpt: String,
    pub author_name: String,
    pub author_slug: String,
    pub demo_type: String,
    pub url: Option<String>,
    pub cover_media_type: Option<String>,
    pub stats: ContentStats,
    pub reading_time_minutes: i64,
}

/// An audiobook as listings read it.
pub struct AudiobookSnapshot {
    pub id: i64,
    pub title: String,
    pub slug: String,
    pub description: String,
    pub translator: Option<String>,
    pub status: String,
    pub url: Option<String>,
    pub track_count: i64,
    pub total_duration_seconds: i64,
    pub tags: Vec<String>,
    pub tag_slugs: Vec<String>,
    pub owner_username: Option<String>,
    pub owner_display_name: Option<String>,
    pub created_at: String,
    pub published_at: Option<String>,
}

} // verus!
