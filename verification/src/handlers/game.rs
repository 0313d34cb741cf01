//! Request and response shapes of the game endpoints.
use vstd::prelude::*;
use crate::domain::{Game, GameSnapshot};
use crate::errors::msg3;
use crate::timestamps::{normalize_optional_utc_timestamp, opt_text, utc_timestamp_opt};
use crate::text::{chars_of, contains, contains_seq};

verus! {

pub struct CheckQuery {
    pub slug: Option<String>,
}

pub struct CheckResponse {
    pub exists: bool,
}

pub struct CompleteJsDosUploadResponse {
    pub game_id: i64,
    pub file_name: String,
    pub size_bytes: u64,
    pub sha256: String,
    pub bundle_url: String,
}

pub struct DeleteGameQuery {
    pub reason: Option<String>,
    pub detail: Option<String>,
    pub force: Option<bool>,
}

pub struct FeaturedGamesQuery {
    pub limit: Option<i64>,
}

pub struct FeaturedGamesResponse {
    pub featured_games: Vec<GameCard>,
    pub has_more: bool,
}

pub struct GameCard {
    pub id: i64,
    pub post_id: i64,
    pub title: String,
    pub slug: String,
    pub tag_names: Vec<String>,
    pub tag_slugs: Vec<String>,
    pub excerpt: String,
    pub author_name: String,
    pub author_slug: String,
    pub launcher_type: String,
    pub url: Option<String>,
    pub cover_media_type: Option<String>,
    pub stats: GameStats,
    pub reading_time_minutes: i64,
}

pub struct GameResponse {
    pub id: i64,
    pub post_id: i64,
    pub title: String,
    pub slug: String,
    pub tags: Vec<String>,
    pub author_name: String,
    pub author_slug: String,
    pub author_avatar_url: Option<String>,
    pub excerpt: String,
    pub content: String,
    pub medium_urls: Vec<String>,
    pub medium_short_names: Vec<String>,
    pub cover_url: Option<String>,
    pub cover_media_type: Option<String>,
    pub og_image_url: Option<String>,
    pub cover_video_url: Option<String>,
    pub cover_video_type: Option<String>,
    pub og_image_seconds: i64,
    pub published_at: Option<String>,
    pub updated_at: Option<String>,
    pub launcher_type: String,
    pub demo_url: String,
    pub raw_demo_url: Option<String>,
    pub demo_width: Option<String>,
    pub demo_height: Option<String>,
    pub jsdos_bundle_url: Option<String>,
    pub jsdos_bundle_file_name: Option<String>,
    pub jsdos_bundle_size_bytes: Option<i64>,
    pub v86_runtime: Option<crate::domain::V86RuntimeDescriptor>,
    pub v86_system_version_id: Option<i64>,
    pub v86_manifest: Option<String>,
    pub v86_artifact_revision: Option<i64>,
    pub v86_game_file_name: Option<String>,
    pub instruction: String,
    pub cheatcode: String,
    pub story: String,
    pub related_games: Vec<crate::links::GameLink>,
    pub is_owner: bool,
}

pub struct GameStats {
    pub views: i64,
    pub likes: i64,
    pub comments: i64,
}

pub struct GetGameQuery {
    pub with_draft: Option<bool>,
}

pub struct JsDosUploadResponse {
    pub received_size_bytes: u64,
    pub next_chunk_index: u64,
}

pub struct LatestGamesQuery {
    pub limit: Option<i64>,
    pub offset: Option<i64>,
}

pub struct LatestGamesResponse {
    pub games: Vec<GameCard>,
    pub has_more: bool,
}

pub struct SetGameFeaturedBody {
    pub is_featured: bool,
}

pub struct StartJsDosUploadRequest {
    pub file_name: String,
    pub size_bytes: u64,
}

pub struct StartJsDosUploadResponse {
    pub upload_id: String,
    pub chunk_size_bytes: u64,
    pub next_chunk_index: u64,
    pub expected_size_bytes: u64,
}

pub struct UpdateGameResponse {
    pub updated_at: String,
}

/// Where a game's js-dos bundle is served: `games/s/<slug>/jsdos`.
pub open spec fn jsdos_bundle_url(slug: Seq<char>) -> Seq<char> {
    "games/s/"@ + slug + "/jsdos"@
}

/// The wire form of a game page. The demo URL is the stored one (or empty);
/// a URL with a scheme is also echoed as `raw_demo_url`; a game with a js-dos
/// bundle gets the bundle's URL, which also becomes the demo URL of a js-dos
/// launcher. The v86 details are left for the caller to fill in.
pub fn game_response(game: Game) -> (r: GameResponse)
    ensures
        ({
            let stored = match game.demo.demo_url {
                Some(u) => u@,
                None => Seq::<char>::empty(),
            };
            let bundle_url = jsdos_bundle_url(game.slug@);
            &&& (match r.raw_demo_url {
                Some(x) => contains_seq(stored, "://"@) && x@ == stored,
                None => !contains_seq(stored, "://"@),
            })
            &&& r.demo_url@ == (if game.demo.launcher_type@ == "jsdos"@ && game.demo.jsdos_bundle is Some {
                bundle_url
            } else {
                stored
            })
            &&& (match r.jsdos_bundle_url {
                Some(x) => game.demo.jsdos_bundle is Some && x@ == bundle_url,
                None => game.demo.jsdos_bundle is None,
            })
            &&& r.jsdos_bundle_file_name == match game.demo.jsdos_bundle {
                Some(b) => Some(b.original_file_name),
                None => None,
            }
            &&& r.jsdos_bundle_size_bytes == match game.demo.jsdos_bundle {
                Some(b) => Some(b.size_bytes),
                None => None,
            }
            &&& r.launcher_type == game.demo.launcher_type
            &&& r.demo_width == game.demo.width
            &&& r.demo_height == game.demo.height
            &&& r.v86_runtime is None && r.v86_system_version_id is None && r.v86_manifest is None
            &&& r.v86_artifact_revision is None && r.v86_game_file_name is None
            &&& r.id == game.id && r.post_id == game.post_id && r.title == game.title
            &&& r.slug == game.slug && r.tags == game.tags && r.author_name == game.author_name
            &&& r.author_slug == game.author_slug && r.author_avatar_url == game.author_avatar_url
            &&& r.excerpt == game.excerpt && r.content == game.content
            &&& r.medium_urls == game.medium_urls && r.medium_short_names == game.medium_short_names
            &&& r.cover_url == game.cover_url && r.cover_media_type == game.cover_media_type
            &&& r.og_image_url == game.og_image_url && r.cover_video_url == game.cover_video_url
            &&& r.cover_video_type == game.cover_video_type
            &&& r.og_image_seconds == game.og_image_seconds
            &&& opt_text(r.published_at) == utc_timestamp_opt(game.published_at)
            &&& opt_text(r.updated_at) == utc_timestamp_opt(game.updated_at)
            &&& r.instruction == game.instruction && r.cheatcode == game.cheatcode
            &&& r.story == game.story && r.related_games == game.related_games
            &&& r.is_owner == game.is_owner
        }),
{
    let stored = match &game.demo.demo_url {
        Some(u) => u.clone(),
        None => String::new(),
    };
    let sc = chars_of(stored.as_str());
    let scheme = chars_of("://");
    let raw_demo_url = if contains(sc.as_slice(), scheme.as_slice()) {
        Some(stored.clone())
    } else {
        None
    };
    let has_bundle = game.demo.jsdos_bundle.is_some();
    let jsdos_bundle_url = if has_bundle {
        Some(msg3("games/s/", game.slug.as_str(), "/jsdos"))
    } else {
        None
    };
    let (jsdos_bundle_file_name, jsdos_bundle_size_bytes) = match game.demo.jsdos_bundle {
        Some(b) => (Some(b.original_file_name), Some(b.size_bytes)),
        None => (None, None),
    };
    let demo_url = if crate::text::str_eq(game.demo.launcher_type.as_str(), "jsdos") && has_bundle {
        msg3("games/s/", game.slug.as_str(), "/jsdos")
    } else {
        stored
    };
    GameResponse {
        demo_url,
        id: game.id,
        post_id: game.post_id,
        title: game.title,
        slug: game.slug,
        tags: game.tags,
        author_name: game.author_name,
        author_slug: game.author_slug,
        author_avatar_url: game.author_avatar_url,
        excerpt: game.excerpt,
        content: game.content,
        medium_urls: game.medium_urls,
        medium_short_names: game.medium_short_names,
        cover_url: game.cover_url,
        cover_media_type: game.cover_media_type,
        og_image_url: game.og_image_url,
        cover_video_url: game.cover_video_url,
        cover_video_type: game.cover_video_type,
        og_image_seconds: game.og_image_seconds,
        published_at: normalize_optional_utc_timestamp(game.published_at),
        updated_at: normalize_optional_utc_timestamp(game.updated_at),
        launcher_type: game.demo.launcher_type,
        raw_demo_url,
        demo_width: game.demo.width,
        demo_height: game.demo.height,
        jsdos_bundle_url,
        jsdos_bundle_file_name,
        jsdos_bundle_size_bytes,
        v86_runtime: None,
        v86_system_version_id: None,
        v86_manifest: None,
        v86_artifact_revision: None,
        v86_game_file_name: None,
        instruction: game.instruction,
        cheatcode: game.cheatcode,
        story: game.story,
        related_games: game.related_games,
        is_owner: game.is_owner,
    }
}

/// The card of a game in listings: the snapshot's fields, moved.
impl From<GameSnapshot> for GameCard {
    fn from(value: GameSnapshot) -> (r: GameCard) {
        GameCard {
            id: value.id,
            post_id: value.post_id,
            title: value.title,
            slug: value.slug,
            tag_names: value.tag_names,
            tag_slugs: value.tag_slugs,
            excerpt: value.excerpt,
            author_name: value.author_name,
            author_slug: value.author_slug,
            launcher_type: value.launcher_type,
            url: value.url,
            cover_media_type: value.cover_media_type,
            reading_time_minutes: value.reading_time_minutes,
            stats: GameStats { views: value.stats.views, likes: value.stats.likes, comments: value.stats.comments },
        }
    }
}

impl vstd::std_specs::convert::FromSpecImpl<GameSnapshot> for GameCard {
    open spec fn obeys_from_spec() -> bool {
        true
    }

    open spec fn from_spec(value: GameSnapshot) -> GameCard {
        GameCard {
            id: value.id,
            post_id: value.post_id,
            title: value.title,
            slug: value.slug,
            tag_names: value.tag_names,
            tag_slugs: value.tag_slugs,
            excerpt: value.excerpt,
            author_name: value.author_name,
            author_slug: value.author_slug,
            launcher_type: value.launcher_type,
            url: value.url,
            cover_media_type: value.cover_media_type,
            reading_time_minutes: value.reading_time_minutes,
            stats: GameStats { views: value.stats.views, likes: value.stats.likes, comments: value.stats.comments },
        }
    }
}

} // verus!
