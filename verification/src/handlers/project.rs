//! Request and response shapes of the project endpoints.
use vstd::prelude::*;
use crate::domain::{DelegatedGame, Project, ProjectSnapshot};
use crate::errors::msg3;
use crate::timestamps::{normalize_optional_utc_timestamp, opt_text, utc_timestamp_opt};
use crate::handlers::game::jsdos_bundle_url;
use crate::text::{chars_of, contains, contains_seq};

verus! {

pub struct CheckQuery {
    pub slug: Option<String>,
}

pub struct CheckResponse {
    pub exists: bool,
}

pub struct CompleteJsDosUploadResponse {
    pub project_id: i64,
    pub file_name: String,
    pub size_bytes: u64,
    pub sha256: String,
    pub bundle_url: String,
}

pub struct DelegatedGameResponse {
    pub id: i64,
    pub title: String,
    pub slug: String,
    pub launcher_type: String,
    pub demo_url: String,
    pub demo_width: Option<String>,
    pub demo_height: Option<String>,
    pub jsdos_bundle_url: Option<String>,
    pub v86_runtime: Option<crate::domain::V86RuntimeDescriptor>,
}

pub struct DeleteProjectQuery {
    pub reason: Option<String>,
    pub detail: Option<String>,
    pub force: Option<bool>,
}

pub struct FeaturedProjectsQuery {
    pub limit: Option<i64>,
}

pub struct FeaturedProjectsResponse {
    pub featured_projects: Vec<ProjectCard>,
    pub has_more: bool,
}

pub struct GetProjectQuery {
    pub with_draft: Option<bool>,
}

pub struct JsDosUploadResponse {
    pub received_size_bytes: u64,
    pub next_chunk_index: u64,
}

pub struct LatestProjectsQuery {
    pub limit: Option<i64>,
    pub offset: Option<i64>,
}

pub struct LatestProjectsResponse {
    pub projects: Vec<ProjectCard>,
    pub has_more: bool,
}

pub struct ProjectCard {
    pub id: i64,
    pub post_id: i64,
    pub title: String,
    pub slug: String,
    pub tag_names: Vec<String>,
    pub tag_slugs: Vec<String>,
    pub excerpt: String,
    pub author_name: String,
    pub author_slug: String,
    pub demo_type: String,
    pub url: Option<String>,
    pub cover_media_type: Option<String>,
    pub stats: ProjectStats,
    pub reading_time_minutes: i64,
}

pub struct ProjectData {
    pub title: String,
    pub slug: String,
    pub excerpt: String,
    pub content: String,
    pub tags: Vec<String>,
    pub links: Vec<crate::project_links::ProjectLink>,
    pub number_of_files: usize,
    pub demo_type: String,
    pub demo_width: Option<String>,
    pub demo_height: Option<String>,
    pub demo_config: Option<String>,
    pub demo_url: Option<String>,
    pub delegate_game_id: Option<i64>,
    pub inherit_thumbnail: Option<bool>,
    pub inherit_tags: Option<bool>,
}

pub struct ProjectPatchData {
    pub title: Option<String>,
    pub slug: Option<String>,
    pub excerpt: Option<String>,
    pub content: Option<String>,
    pub tags: Option<Vec<String>>,
    pub links: Option<Vec<crate::project_links::ProjectLink>>,
    pub number_of_files: usize,
    pub demo_type: Option<String>,
    pub demo_width: Option<String>,
    pub demo_height: Option<String>,
    pub demo_config: Option<String>,
    pub demo_url: Option<String>,
    pub delegate_game_id: Option<i64>,
    pub inherit_thumbnail: Option<bool>,
    pub inherit_tags: Option<bool>,
    pub og_image_seconds: Option<i64>,
    /// Optional optimistic-lock token: the `updated_at` the editor last saw.
    pub expected_updated_at: Option<String>,
}

pub struct ProjectResponse {
    pub id: i64,
    pub post_id: i64,
    pub title: String,
    pub slug: String,
    pub tags: Vec<String>,
    pub author_name: String,
    pub author_slug: String,
    pub author_avatar_url: Option<String>,
    pub excerpt: String,
    pub content: String,
    pub medium_urls: Vec<String>,
    pub medium_short_names: Vec<String>,
    pub cover_url: Option<String>,
    pub cover_media_type: Option<String>,
    pub og_image_url: Option<String>,
    pub cover_video_url: Option<String>,
    pub cover_video_type: Option<String>,
    pub og_image_seconds: i64,
    pub published_at: Option<String>,
    pub updated_at: Option<String>,
    pub demo_type: String,
    pub demo_url: String,
    pub raw_demo_url: Option<String>,
    pub demo_width: Option<String>,
    pub demo_height: Option<String>,
    pub demo_config: Option<String>,
    pub delegate_game_id: Option<i64>,
    pub inherit_thumbnail: bool,
    pub inherit_tags: bool,
    pub delegated_game: Option<DelegatedGameResponse>,
    pub links: Vec<crate::project_links::ProjectLink>,
    pub is_owner: bool,
}

pub struct ProjectStats {
    pub views: i64,
    pub likes: i64,
    pub comments: i64,
}

pub struct SetProjectFeaturedBody {
    pub is_featured: bool,
}

pub struct StartJsDosUploadRequest {
    pub file_name: String,
    pub size_bytes: u64,
}

pub struct StartJsDosUploadResponse {
    pub upload_id: String,
    pub chunk_size_bytes: u64,
    pub next_chunk_index: u64,
    pub expected_size_bytes: u64,
}

pub struct UpdateProjectResponse {
    pub updated_at: String,
}

pub open spec fn stored_or_empty(u: Option<String>) -> Seq<char> {
    match u {
        Some(x) => x@,
        None => Seq::<char>::empty(),
    }
}

/// The wire form of the game a delegated project plays: a game with a js-dos
/// bundle is played from the bundle's URL, any other from its stored demo URL.
pub open spec fn delegated_game_view(g: DelegatedGame, r: DelegatedGameResponse) -> bool {
    &&& r.id == g.id && r.title == g.title && r.slug == g.slug
    &&& r.launcher_type == g.launcher_type && r.demo_width == g.width && r.demo_height == g.height
    &&& r.v86_runtime is None
    &&& (match r.jsdos_bundle_url {
        Some(x) => g.jsdos_bundle is Some && x@ == jsdos_bundle_url(g.slug@),
        None => g.jsdos_bundle is None,
    })
    &&& r.demo_url@ == (if g.jsdos_bundle is Some {
        jsdos_bundle_url(g.slug@)
    } else {
        stored_or_empty(g.demo_url)
    })
}

fn delegated_game_response(g: DelegatedGame) -> (r: DelegatedGameResponse)
    ensures
        delegated_game_view(g, r),
{
    let has_bundle = g.jsdos_bundle.is_some();
    let jsdos_bundle_url = if has_bundle {
        Some(msg3("games/s/", g.slug.as_str(), "/jsdos"))
    } else {
        None
    };
    let demo_url = if has_bundle {
        msg3("games/s/", g.slug.as_str(), "/jsdos")
    } else {
        match g.demo_url {
            Some(u) => u,
            None => String::new(),
        }
    };
    DelegatedGameResponse {
        jsdos_bundle_url,
        demo_url,
        id: g.id,
        title: g.title,
        slug: g.slug,
        launcher_type: g.launcher_type,
        demo_width: g.width,
        demo_height: g.height,
        v86_runtime: None,
    }
}

/// The wire form of a project page. The demo URL is the stored one (or
/// empty), also echoed as `raw_demo_url` when it has a scheme.
pub fn project_response(project: Project) -> (r: ProjectResponse)
    ensures
        ({
            let stored = stored_or_empty(project.demo.demo_url);
            &&& r.demo_url@ == stored
            &&& (match r.raw_demo_url {
                Some(x) => contains_seq(stored, "://"@) && x@ == stored,
                None => !contains_seq(stored, "://"@),
            })
            &&& (match project.delegated_game {
                Some(g) => r.delegated_game matches Some(d) && delegated_game_view(g, d),
                None => r.delegated_game is None,
            })
            &&& r.demo_type == project.demo.demo_type && r.demo_width == project.demo.width
            &&& r.demo_height == project.demo.height && r.demo_config == project.demo.config
            &&& r.id == project.id && r.post_id == project.post_id && r.title == project.title
            &&& r.slug == project.slug && r.tags == project.tags
            &&& r.author_name == project.author_name && r.author_slug == project.author_slug
            &&& r.author_avatar_url == project.author_avatar_url
            &&& r.excerpt == project.excerpt && r.content == project.content
            &&& r.medium_urls == project.medium_urls
            &&& r.medium_short_names == project.medium_short_names
            &&& r.cover_url == project.cover_url && r.cover_media_type == project.cover_media_type
            &&& r.og_image_url == project.og_image_url
            &&& r.cover_video_url == project.cover_video_url
            &&& r.cover_video_type == project.cover_video_type
            &&& r.og_image_seconds == project.og_image_seconds
            &&& opt_text(r.published_at) == utc_timestamp_opt(project.published_at)
            &&& opt_text(r.updated_at) == utc_timestamp_opt(project.updated_at)
            &&& r.delegate_game_id == project.delegate_game_id
            &&& r.inherit_thumbnail == project.inherit_thumbnail
            &&& r.inherit_tags == project.inherit_tags
            &&& r.links == project.links && r.is_owner == project.is_owner
        }),
{
    let stored = match &project.demo.demo_url {
        Some(u) => u.clone(),
        None => String::new(),
    };
    let sc = chars_of(stored.as_str());
    let scheme = chars_of("://");
    let raw_demo_url = if contains(sc.as_slice(), scheme.as_slice()) {
        Some(stored.clone())
    } else {
        None
    };
    let delegated_game = match project.delegated_game {
        Some(g) => Some(delegated_game_response(g)),
        None => None,
    };
    ProjectResponse {
        demo_url: stored,
        id: project.id,
        post_id: project.post_id,
        title: project.title,
        slug: project.slug,
        tags: project.tags,
        author_name: project.author_name,
        author_slug: project.author_slug,
        author_avatar_url: project.author_avatar_url,
        excerpt: project.excerpt,
        content: project.content,
        medium_urls: project.medium_urls,
        medium_short_names: project.medium_short_names,
        cover_url: project.cover_url,
        cover_media_type: project.cover_media_type,
        og_image_url: project.og_image_url,
        cover_video_url: project.cover_video_url,
        cover_video_type: project.cover_video_type,
        og_image_seconds: project.og_image_seconds,
        published_at: normalize_optional_utc_timestamp(project.published_at),
        updated_at: normalize_optional_utc_timestamp(project.updated_at),
        demo_type: project.demo.demo_type,
        raw_demo_url,
        demo_width: project.demo.width,
        demo_height: project.demo.height,
        demo_config: project.demo.config,
        delegate_game_id: project.delegate_game_id,
        inherit_thumbnail: project.inherit_thumbnail,
        inherit_tags: project.inherit_tags,
        delegated_game,
        links: project.links,
        is_owner: project.is_owner,
    }
}

/// The card of a project in listings: the snapshot's fields, moved.
impl From<ProjectSnapshot> for ProjectCard {
    fn from(value: ProjectSnapshot) -> (r: ProjectCard) {
        ProjectCard {
            id: value.id,
            post_id: value.post_id,
            title: value.title,
            slug: value.slug,
            tag_names: value.tag_names,
            tag_slugs: value.tag_slugs,
            excerpt: value.excerpt,
            author_name: value.author_name,
            author_slug: value.author_slug,
            demo_type: value.demo_type,
            url: value.url,
            cover_media_type: value.cover_media_type,
            reading_time_minutes: value.reading_time_minutes,
            stats: ProjectStats { views: value.stats.views, likes: value.stats.likes, comments: value.stats.comments },
        }
    }
}

impl vstd::std_specs::convert::FromSpecImpl<ProjectSnapshot> for ProjectCard {
    open spec fn obeys_from_spec() -> bool {
        true
    }

    open spec fn from_spec(value: ProjectSnapshot) -> ProjectCard {
        ProjectCard {
            id: value.id,
            post_id: value.post_id,
            title: value.title,
            slug: value.slug,
            tag_names: value.tag_names,
            tag_slugs: value.tag_slugs,
            excerpt: value.excerpt,
            author_name: value.author_name,
            author_slug: value.author_slug,
            demo_type: value.demo_type,
            url: value.url,
            cover_media_type: value.cover_media_type,
            reading_time_minutes: value.reading_time_minutes,
            stats: ProjectStats { views: value.stats.views, likes: value.stats.likes, comments: value.stats.comments },
        }
    }
}

} // verus!
