//! Response and request bodies of the Loon HTTP API.

use vstd::prelude::*;

verus! {

/// Health check payload.
#[derive(Debug, Clone, PartialEq, Eq)]
pub struct HealthResponse {
    /// Service status.
    pub status: &'static str,
    /// Service name.
    pub service: &'static str,
    /// Server version.
    pub version: &'static str,
    /// Number of movies in the catalog.
    pub movies_count: usize,
    /// Unix timestamp of the last library scan.
    pub library_scanned_at: u64,
}

/// Movie list response.
#[derive(Debug, Clone, PartialEq, Eq)]
pub struct MovieListResponse {
    /// Movies in this page.
    pub movies: Vec<MovieSummary>,
    /// Total movies matching the query.
    pub total: usize,
    /// Current page when paginated.
    pub page: Option<u32>,
    /// Page size when paginated.
    pub limit: Option<u32>,
    /// Total number of pages when paginated.
    pub pages: Option<u32>,
}

/// Movie card shown in browse grids.
#[derive(Debug, Clone, PartialEq, Eq)]
pub struct MovieSummary {
    /// URL-safe movie identifier.
    pub slug: String,
    /// Display title.
    pub title: String,
    /// Release year when known.
    pub year: Option<u16>,
    /// Runtime in minutes.
    pub runtime_minutes: u16,
    /// Poster image URL (HTTPS), if available.
    pub poster_url: Option<String>,
    /// Backdrop image URL (HTTPS), if available.
    pub backdrop_url: Option<String>,
    /// Short plot summary.
    pub summary: String,
}

/// Full movie detail for the webOS detail screen.
#[derive(Debug, Clone, PartialEq, Eq)]
pub struct MovieDetail {
    /// URL-safe movie identifier.
    pub slug: String,
    /// Display title.
    pub title: String,
    /// Original title when different from the display title.
    pub original_title: Option<String>,
    /// Release year.
    pub year: Option<u16>,
    /// Runtime in minutes.
    pub runtime_minutes: Option<u16>,
    /// Plot summary.
    pub summary: Option<String>,
    /// Genre names.
    pub genres: Vec<String>,
    /// Poster image URL.
    pub poster_url: Option<String>,
    /// Backdrop image URL.
    pub backdrop_url: Option<String>,
    /// Cast members.
    pub cast: Vec<CastMemberDto>,
    /// Crew members.
    pub crew: Vec<CrewMemberDto>,
    /// Whether the movie is marked as a favorite.
    pub is_favorite: bool,
    /// Last known watch position in seconds.
    pub watch_progress_seconds: Option<u32>,
    /// Relative stream URL for playback.
    pub stream_url: String,
}

/// Cast member in a movie detail response.
#[derive(Debug, Clone, PartialEq, Eq)]
pub struct CastMemberDto {
    /// Person name.
    pub name: String,
    /// Character name.
    pub character: Option<String>,
}

/// Crew member in a movie detail response.
#[derive(Debug, Clone, PartialEq, Eq)]
pub struct CrewMemberDto {
    /// Person name.
    pub name: String,
    /// Job title.
    pub job: Option<String>,
}

/// Netflix-style home feed.
#[derive(Debug, Clone, PartialEq, Eq)]
pub struct BrowseResponse {
    /// Featured hero movie when available.
    pub hero: Option<MovieSummary>,
    /// Ordered browse rows.
    pub rows: Vec<BrowseRow>,
}

/// One horizontal browse row.
#[derive(Debug, Clone, PartialEq, Eq)]
pub struct BrowseRow {
    /// Stable row identifier.
    pub slug: String,
    /// Display title.
    pub title: String,
    /// Row kind for client layout.
    pub row_type: String,
    /// Movies in this row.
    pub movies: Vec<MovieSummary>,
}

/// `POST /api/library/scan` request body.
#[derive(Debug, Clone, Default, PartialEq, Eq)]
pub struct ScanStartRequest {
    /// When true, re-fetch TMDB metadata for every movie.
    pub full: bool,
}

/// `GET /api/library/status` response.
#[derive(Debug, Clone, PartialEq, Eq)]
pub struct LibraryStatusResponse {
    /// High-level state (`idle` or `scanning`).
    pub state: String,
    /// Timestamp of the last completed scan (ISO-8601, UTC).
    pub last_scan_at: Option<String>,
    /// Duration of the last completed scan in seconds.
    pub last_scan_duration_secs: u64,
    /// Number of movies in the library.
    pub movies_count: usize,
    /// Whether a scan is currently running.
    pub scan_in_progress: bool,
}

/// `GET /api/search` response.
#[derive(Debug, Clone, PartialEq, Eq)]
pub struct SearchResponse {
    /// The query string as the request gave it.
    pub query: String,
    /// Matching movies.
    pub movies: Vec<MovieSummary>,
    /// Number of matches returned.
    pub total: usize,
}

/// `GET /api/genres` response.
#[derive(Debug, Clone, PartialEq, Eq)]
pub struct GenresResponse {
    /// Genres with movie counts.
    pub genres: Vec<GenreEntry>,
}

/// One genre row in the genres list.
#[derive(Debug, Clone, PartialEq, Eq)]
pub struct GenreEntry {
    /// Genre name.
    pub name: String,
    /// Number of movies tagged with this genre.
    pub count: u32,
}

/// `PUT /api/movies/:slug/favorite` request.
#[derive(Debug, Clone, Default, PartialEq, Eq)]
pub struct FavoriteRequest {
    /// Desired favorite state. Omit to toggle.
    pub favorite: Option<bool>,
}

/// `PUT /api/movies/:slug/favorite` response.
#[derive(Debug, Clone, PartialEq, Eq)]
pub struct FavoriteResponse {
    /// Movie slug.
    pub slug: String,
    /// Current favorite state.
    pub favorite: bool,
}

/// `PUT /api/movies/:slug/progress` request.
#[derive(Debug, Clone, PartialEq, Eq)]
pub struct ProgressRequest {
    /// Playback position in seconds.
    pub position_seconds: u32,
    /// Total duration in seconds when known.
    pub duration_seconds: Option<u32>,
}

/// `PUT /api/movies/:slug/progress` response.
#[derive(Debug, Clone, PartialEq, Eq)]
pub struct ProgressResponse {
    /// Movie slug.
    pub slug: String,
    /// Saved position in seconds.
    pub position_seconds: u32,
    /// Duration associated with this update.
    pub duration_seconds: Option<u32>,
    /// Update timestamp (ISO-8601, UTC).
    pub updated_at: String,
}

/// One library movie featuring a person.
#[derive(Debug, Clone, PartialEq, Eq)]
pub struct KnownForMovie {
    /// URL-safe movie identifier.
    pub slug: String,
    /// Display title.
    pub title: String,
    /// Release year when known.
    pub year: Option<u16>,
    /// Poster proxy URL when available.
    pub poster_url: Option<String>,
    /// Character played in this movie.
    pub character: Option<String>,
}

/// Full person detail for the webOS actor screen.
#[derive(Debug, Clone, PartialEq, Eq)]
pub struct PersonDetail {
    /// TMDB person id.
    pub tmdb_person_id: u32,
    /// Display name.
    pub name: String,
    /// Biography text.
    pub biography: Option<String>,
    /// ISO date string when known.
    pub birthday: Option<String>,
    /// ISO date string when known.
    pub deathday: Option<String>,
    /// Birth place label.
    pub place_of_birth: Option<String>,
    /// Profile image URL when known.
    pub profile_url: Option<String>,
    /// Primary department (e.g. Acting).
    pub known_for_department: Option<String>,
    /// TMDB gender code when known.
    pub gender: Option<i32>,
    /// Alternate names.
    pub also_known_as: Vec<String>,
    /// Movies in the local library featuring this person.
    pub known_for: Vec<KnownForMovie>,
}

impl KnownForMovie {
    /// Builds from a browse summary plus optional character name.
    pub fn from_summary(summary: MovieSummary, character: Option<String>) -> (r: Self)
        ensures
            r.slug == summary.slug,
            r.title == summary.title,
            r.year == summary.year,
            r.poster_url == summary.poster_url,
            r.character == character,
    {
        KnownForMovie {
            slug: summary.slug,
            title: summary.title,
            year: summary.year,
            poster_url: summary.poster_url,
            character,
        }
    }
}

/// Service index returned at `GET /`.
#[derive(Debug, Clone, PartialEq, Eq)]
pub struct RootResponse {
    /// Service name.
    pub service: &'static str,
    /// Human-readable hint for browser visits.
    pub message: &'static str,
    /// JSON API entry points.
    pub endpoints: RootEndpoints,
}

/// Links to primary API routes.
#[derive(Debug, Clone, Default, PartialEq, Eq)]
pub struct RootEndpoints {
    /// Health check.
    pub health: &'static str,
    /// Movie list.
    pub movies: &'static str,
}

impl Default for RootResponse {
    fn default() -> (r: Self)
        ensures
            r.service@ == "loon-server"@,
            r.message@ == "Loon API — use the endpoints below (no web UI at / yet)"@,
            r.endpoints.health@ == "/api/health"@,
            r.endpoints.movies@ == "/api/movies"@,
    {
        RootResponse {
            service: "loon-server",
            message: "Loon API — use the endpoints below (no web UI at / yet)",
            endpoints: RootEndpoints { health: "/api/health", movies: "/api/movies" },
        }
    }
}

} // verus!
