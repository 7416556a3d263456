//! What the HTTP handlers decide: how query strings and bodies are read,
//! which error a request gets, and how responses are assembled.

use vstd::prelude::*;

use crate::db::{
    favorite_rows, finished_spec, is_finished, low_u32, offset_spec, progress_columns,
    progress_write_spec, GenreCount, MovieListQuery,
    MovieSort, ProgressWrite,
};
use crate::models::{
    ScanStartRequest, FavoriteRequest, FavoriteResponse, GenreEntry, GenresResponse, HealthResponse,
    LibraryStatusResponse, MovieSummary, ProgressRequest, ProgressResponse, SearchResponse,
};
use crate::number::{decimal, decimal_chars, parse_u32_spec, parse_u32_text};
use crate::time::{iso_utc, iso_utc_chars};
use crate::text::{
    chars_equal, chars_of, has_prefix, starts_with_chars, string_from_chars, suffix_chars, trim,
    trim_chars,
};

verus! {

/// Kind of artwork served for a movie.
#[derive(Debug, Clone, Copy, PartialEq, Eq, Structural)]
pub enum ArtworkKind {
    /// Poster image.
    Poster,
    /// Backdrop image.
    Backdrop,
}

/// The path segment naming each kind of artwork.
pub open spec fn artwork_kind_name(kind: ArtworkKind) -> Seq<char> {
    match kind {
        ArtworkKind::Poster => "poster"@,
        ArtworkKind::Backdrop => "backdrop"@,
    }
}

/// The kind a path segment names, if any.
pub open spec fn artwork_kind_named(raw: Seq<char>) -> Option<ArtworkKind> {
    if raw == "poster"@ {
        Some(ArtworkKind::Poster)
    } else if raw == "backdrop"@ {
        Some(ArtworkKind::Backdrop)
    } else {
        None
    }
}

/// Reading the name of a kind gives that kind back.
pub proof fn law_artwork_kind_round_trip(kind: ArtworkKind)
    ensures
        artwork_kind_named(artwork_kind_name(kind)) == Some(kind),
{
    reveal_strlit("poster");
    reveal_strlit("backdrop");
    assert("poster"@[0] != "backdrop"@[0]);
}

impl ArtworkKind {
    /// Reads `poster` or `backdrop`; anything else names no kind.
    pub fn parse(raw: &str) -> (r: Option<ArtworkKind>)
        ensures
            r == artwork_kind_named(raw@),
    {
        let v = chars_of(raw);
        let poster = chars_of("poster");
        let backdrop = chars_of("backdrop");
        if chars_equal(v.as_slice(), poster.as_slice()) {
            Some(ArtworkKind::Poster)
        } else if chars_equal(v.as_slice(), backdrop.as_slice()) {
            Some(ArtworkKind::Backdrop)
        } else {
            None
        }
    }

    /// The name of the kind.
    pub fn as_str(&self) -> (r: &'static str)
        ensures
            r@ == artwork_kind_name(*self),
    {
        match self {
            ArtworkKind::Poster => "poster",
            ArtworkKind::Backdrop => "backdrop",
        }
    }
}

/// An error answer of the API: an HTTP status, a stable code and a message.
#[derive(Debug, Clone, PartialEq, Eq)]
pub enum ApiError {
    /// 404: no movie has the slug.
    MovieNotFound { slug: String },
    /// 400: the request is malformed.
    InvalidRequest { message: String },
    /// 409: a library scan is already running.
    ScanAlreadyRunning,
    /// 503: the library is being scanned.
    LibraryScanning,
    /// 404: the movie has no artwork of the kind.
    ArtworkNotFound { slug: String, kind: ArtworkKind },
}

/// The HTTP status of each error.
pub open spec fn status_spec(e: ApiError) -> u16 {
    match e {
        ApiError::MovieNotFound { .. } => 404,
        ApiError::InvalidRequest { .. } => 400,
        ApiError::ScanAlreadyRunning => 409,
        ApiError::LibraryScanning => 503,
        ApiError::ArtworkNotFound { .. } => 404,
    }
}

/// The stable code of each error.
pub open spec fn code_spec(e: ApiError) -> Seq<char> {
    match e {
        ApiError::MovieNotFound { .. } => "movie_not_found"@,
        ApiError::InvalidRequest { .. } => "invalid_request"@,
        ApiError::ScanAlreadyRunning => "scan_already_running"@,
        ApiError::LibraryScanning => "library_scanning"@,
        ApiError::ArtworkNotFound { .. } => "artwork_not_found"@,
    }
}

/// The message of each error.
pub open spec fn message_spec(e: ApiError) -> Seq<char> {
    match e {
        ApiError::MovieNotFound { slug } => "No movie with slug '"@ + slug@ + "'"@,
        ApiError::InvalidRequest { message } => message@,
        ApiError::ScanAlreadyRunning => "A library scan is already in progress"@,
        ApiError::LibraryScanning => "Library scan in progress"@,
        ApiError::ArtworkNotFound { slug, kind } => "No "@ + artwork_kind_name(kind)
            + " artwork for movie '"@ + slug@ + "'"@,
    }
}

impl ApiError {
    /// HTTP status code of the answer.
    pub fn status(&self) -> (r: u16)
        ensures
            r == status_spec(*self),
    {
        match self {
            ApiError::MovieNotFound { .. } => 404,
            ApiError::InvalidRequest { .. } => 400,
            ApiError::ScanAlreadyRunning => 409,
            ApiError::LibraryScanning => 503,
            ApiError::ArtworkNotFound { .. } => 404,
        }
    }

    /// Stable machine-readable code of the answer.
    pub fn code(&self) -> (r: &'static str)
        ensures
            r@ == code_spec(*self),
    {
        match self {
            ApiError::MovieNotFound { .. } => "movie_not_found",
            ApiError::InvalidRequest { .. } => "invalid_request",
            ApiError::ScanAlreadyRunning => "scan_already_running",
            ApiError::LibraryScanning => "library_scanning",
            ApiError::ArtworkNotFound { .. } => "artwork_not_found",
        }
    }

    /// Human-readable message of the answer.
    pub fn message(&self) -> (r: String)
        ensures
            r@ == message_spec(*self),
    {
        match self {
            ApiError::MovieNotFound { slug } => {
                let mut m = String::from_str("No movie with slug '");
                m.append(slug.as_str());
                m.append("'");
                m
            },
            ApiError::InvalidRequest { message } => message.clone(),
            ApiError::ScanAlreadyRunning => String::from_str("A library scan is already in progress"),
            ApiError::LibraryScanning => String::from_str("Library scan in progress"),
            ApiError::ArtworkNotFound { slug, kind } => {
                let mut m = String::from_str("No ");
                m.append(kind.as_str());
                m.append(" artwork for movie '");
                m.append(slug.as_str());
                m.append("'");
                m
            },
        }
    }
}

/// 404 for an unknown movie slug.
pub fn movie_not_found(slug: &str) -> (e: ApiError)
    ensures
        e matches ApiError::MovieNotFound { slug: s } && s@ == slug@,
{
    ApiError::MovieNotFound { slug: slug.to_owned() }
}

/// 400 for invalid client input.
pub fn invalid_request(message: String) -> (e: ApiError)
    ensures
        e == (ApiError::InvalidRequest { message }),
{
    ApiError::InvalidRequest { message }
}

/// 409 when a scan is already running.
pub fn scan_already_running() -> (e: ApiError)
    ensures
        e == ApiError::ScanAlreadyRunning,
{
    ApiError::ScanAlreadyRunning
}

/// 503 while the library is scanning.
pub fn library_scanning() -> (e: ApiError)
    ensures
        e == ApiError::LibraryScanning,
{
    ApiError::LibraryScanning
}

/// 404 when a movie has no artwork of the kind.
pub fn artwork_not_found(slug: &str, kind: ArtworkKind) -> (e: ApiError)
    ensures
        e matches ApiError::ArtworkNotFound { slug: s, kind: k } && s@ == slug@ && k == kind,
{
    ApiError::ArtworkNotFound { slug: slug.to_owned(), kind }
}

/// `e` is a 400 error with message `m`.
pub open spec fn is_invalid_request(e: ApiError, m: Seq<char>) -> bool {
    e matches ApiError::InvalidRequest { message } && message@ == m
}

/// `r` is a 400 error with message `m`.
pub open spec fn fails_invalid<T>(r: Result<T, ApiError>, m: Seq<char>) -> bool {
    match r {
        Err(e) => is_invalid_request(e, m),
        Ok(_) => false,
    }
}

/// A 400 error whose message is `prefix` followed by `value`.
fn invalid_with_value(prefix: &str, value: &str) -> (e: ApiError)
    ensures
        is_invalid_request(e, prefix@ + value@),
{
    let mut m = String::from_str(prefix);
    m.append(value);
    ApiError::InvalidRequest { message: m }
}

/// A 400 error with a fixed message.
fn invalid_fixed(message: &str) -> (e: ApiError)
    ensures
        is_invalid_request(e, message@),
{
    ApiError::InvalidRequest { message: String::from_str(message) }
}

/// Reads an optional integer query parameter: a missing parameter gives
/// `default`; one that `u32::from_str` rejects is a 400 error naming it.
pub fn parse_u32(raw: Option<&str>, default: u32) -> (r: Result<u32, ApiError>)
    ensures
        raw is None ==> r == Ok::<u32, ApiError>(default),
        raw is Some && parse_u32_spec(raw->0@) is Some ==> r == Ok::<u32, ApiError>(
            parse_u32_spec(raw->0@)->0,
        ),
        raw is Some && parse_u32_spec(raw->0@) is None ==> fails_invalid(
            r,
            "invalid integer: "@ + raw->0@,
        ),
{
    match raw {
        Some(value) => {
            let v = chars_of(value);
            match parse_u32_text(v.as_slice()) {
                Some(n) => Ok(n),
                None => Err(invalid_with_value("invalid integer: ", value)),
            }
        },
        None => Ok(default),
    }
}

/// `v` restricted to `lo..=hi` (what `Ord::clamp` returns).
pub open spec fn clamp_spec(v: u32, lo: u32, hi: u32) -> u32 {
    if v < lo {
        lo
    } else if v > hi {
        hi
    } else {
        v
    }
}

/// Reads a limit parameter leniently: an unreadable or missing value gives
/// `default`, and the result is kept within `1..=max`.
pub fn parse_limit(raw: Option<&str>, default: u32, max: u32) -> (r: u32)
    requires
        max >= 1,
    ensures
        r == clamp_spec(
            match raw {
                Some(v) => match parse_u32_spec(v@) {
                    Some(n) => n,
                    None => default,
                },
                None => default,
            },
            1,
            max,
        ),
{
    let value = match raw {
        Some(v) => {
            let chars = chars_of(v);
            match parse_u32_text(chars.as_slice()) {
                Some(n) => n,
                None => default,
            }
        },
        None => default,
    };
    if value < 1 {
        1
    } else if value > max {
        max
    } else {
        value
    }
}

/// The digits of a person id: trimmed, one optional `tmdb:` prefix
/// removed, trimmed again.
pub open spec fn person_id_digits(raw: Seq<char>) -> Seq<char> {
    let t = trim(raw);
    if has_prefix(t, "tmdb:"@) {
        trim(t.subrange(5, t.len() as int))
    } else {
        trim(t)
    }
}

/// Reads a TMDB person id from a path segment such as `85` or `tmdb:85`.
pub fn parse_person_id(raw: &str) -> (r: Result<u32, ApiError>)
    ensures
        parse_u32_spec(person_id_digits(raw@)) matches Some(n) ==> r == Ok::<u32, ApiError>(n),
        parse_u32_spec(person_id_digits(raw@)) is None ==> fails_invalid(
            r,
            "tmdb_id must be a numeric TMDB person id"@,
        ),
{
    let v = chars_of(raw);
    let t = trim_chars(v.as_slice());
    let prefix = chars_of("tmdb:");
    proof {
        reveal_strlit("tmdb:");
    }
    let rest = if starts_with_chars(t.as_slice(), prefix.as_slice()) {
        suffix_chars(t.as_slice(), 5)
    } else {
        t
    };
    let digits = trim_chars(rest.as_slice());
    match parse_u32_text(digits.as_slice()) {
        Some(n) => Ok(n),
        None => Err(invalid_fixed("tmdb_id must be a numeric TMDB person id")),
    }
}

/// The sort order named by a `sort` parameter.
pub open spec fn sort_named(s: Seq<char>) -> Option<MovieSort> {
    if s == "year"@ {
        Some(MovieSort::Year)
    } else if s == "recently_added"@ {
        Some(MovieSort::RecentlyAdded)
    } else if s == "title"@ {
        Some(MovieSort::Title)
    } else {
        None
    }
}

/// Reads a `sort` parameter; a missing one means title order.
pub fn parse_sort(raw: Option<&str>) -> (r: Result<MovieSort, ApiError>)
    ensures
        raw is None ==> r == Ok::<MovieSort, ApiError>(MovieSort::Title),
        raw is Some && sort_named(raw->0@) is Some ==> r == Ok::<MovieSort, ApiError>(
            sort_named(raw->0@)->0,
        ),
        raw is Some && sort_named(raw->0@) is None ==> fails_invalid(
            r,
            "invalid sort value: "@ + raw->0@,
        ),
{
    match raw {
        None => {
            proof {
                reveal_strlit("title");
                reveal_strlit("year");
                reveal_strlit("recently_added");
            }
            Ok(MovieSort::Title)
        },
        Some(value) => {
            let v = chars_of(value);
            let year = chars_of("year");
            let recent = chars_of("recently_added");
            let title = chars_of("title");
            if chars_equal(v.as_slice(), year.as_slice()) {
                Ok(MovieSort::Year)
            } else if chars_equal(v.as_slice(), recent.as_slice()) {
                Ok(MovieSort::RecentlyAdded)
            } else if chars_equal(v.as_slice(), title.as_slice()) {
                Ok(MovieSort::Title)
            } else {
                Err(invalid_with_value("invalid sort value: ", value))
            }
        },
    }
}

/// The query parameters of `GET /api/movies`.
pub struct MovieListParams<'a> {
    pub page: Option<&'a str>,
    pub limit: Option<&'a str>,
    pub sort: Option<&'a str>,
    pub genre: Option<&'a str>,
}

/// `r` is a list query with these fields.
pub open spec fn list_plan_is(
    r: Result<Option<MovieListQuery>, ApiError>,
    page: u32,
    limit: u32,
    sort: MovieSort,
    genre: Option<&str>,
) -> bool {
    match r {
        Ok(Some(q)) => {
            &&& q.page == page
            &&& q.limit == limit
            &&& q.sort == sort
            &&& match genre {
                Some(g) => q.genre is Some && q.genre->0@ == g@,
                None => q.genre is None,
            }
        },
        _ => false,
    }
}

/// The value an optional integer parameter has when it is readable.
pub open spec fn param_value(raw: Option<&str>, default: u32) -> Option<u32> {
    match raw {
        Some(v) => parse_u32_spec(v@),
        None => Some(default),
    }
}

/// Reads the parameters of `GET /api/movies`. Without `page` and `limit`
/// the whole catalogue is listed (`Ok(None)`). Otherwise `page` defaults to
/// 1 and is at least 1, `limit` defaults to 50 and is kept in `1..=100`, and
/// `sort` defaults to title order; the first unreadable parameter, in the
/// order page, limit, sort, is a 400 error.
pub fn plan_movie_list(params: &MovieListParams) -> (r: Result<Option<MovieListQuery>, ApiError>)
    ensures
        params.page is None && params.limit is None ==> r == Ok::<
            Option<MovieListQuery>,
            ApiError,
        >(None),
        (params.page is Some || params.limit is Some) ==> {
            let page = param_value(params.page, 1);
            let limit = param_value(params.limit, 50);
            &&& page is None ==> fails_invalid(r, "invalid integer: "@ + params.page->0@)
            &&& page is Some && limit is None ==> fails_invalid(
                r,
                "invalid integer: "@ + params.limit->0@,
            )
            &&& page is Some && limit is Some && params.sort is Some && sort_named(
                params.sort->0@,
            ) is None ==> fails_invalid(r, "invalid sort value: "@ + params.sort->0@)
            &&& page is Some && limit is Some && (params.sort is None || sort_named(
                params.sort->0@,
            ) is Some) ==> list_plan_is(
                r,
                if page->0 < 1 {
                    1
                } else {
                    page->0
                },
                clamp_spec(limit->0, 1, 100),
                match params.sort {
                    Some(s) => sort_named(s@)->0,
                    None => MovieSort::Title,
                },
                params.genre,
            )
        },
{
    if params.page.is_none() && params.limit.is_none() {
        return Ok(None);
    }
    let page = parse_u32(params.page, 1)?;
    let page = if page < 1 {
        1
    } else {
        page
    };
    let limit = parse_u32(params.limit, 50)?;
    let limit = if limit < 1 {
        1
    } else if limit > 100 {
        100
    } else {
        limit
    };
    let sort = parse_sort(params.sort)?;
    let genre = match params.genre {
        Some(g) => Some(g.to_owned()),
        None => None,
    };
    Ok(Some(MovieListQuery { page, limit, sort, genre }))
}

/// `total / limit` rounded up.
pub open spec fn ceil_div(total: int, limit: int) -> int {
    (total + limit - 1) / limit
}

/// The number of pages of `total` movies at `limit` per page, reported in
/// 32 bits (its low 32 bits when larger).
pub fn page_count(total: usize, limit: u32) -> (r: u32)
    requires
        limit >= 1,
    ensures
        r == #[verifier::truncate] (ceil_div(total as int, limit as int) as u32),
{
    let l = limit as usize;
    let q = total / l;
    assert(total % l != 0 ==> q + 1 <= usize::MAX) by (nonlinear_arith)
        requires
            q == total / l,
            l >= 1,
            total <= usize::MAX,
    ;
    let pages = if total % l != 0 {
        q + 1
    } else {
        q
    };
    assert(pages == ceil_div(total as int, limit as int)) by (nonlinear_arith)
        requires
            q == total / l,
            l >= 1,
            pages == (if total % l != 0 {
                q + 1
            } else {
                q as int
            }),
            l == limit,
    ;
    #[verifier::truncate]
    (pages as u32)
}

/// A text is shorter than two bytes in UTF-8 exactly when it is empty or is
/// one ASCII character.
proof fn lemma_short_utf8(s: Seq<char>)
    ensures
        (vstd::utf8::encode_utf8(s).len() < 2) == (s.len() == 0 || (s.len() == 1 && (s[0] as u32)
            < 0x80)),
{
    if s.len() > 0 {
        let first = vstd::utf8::encode_scalar(s[0] as u32);
        let rest = s.drop_first();
        assert(first.len() >= 1);
        if s.len() > 1 {
            assert(vstd::utf8::encode_scalar(rest[0] as u32).len() >= 1);
            assert(vstd::utf8::encode_utf8(rest).len() >= 1);
        } else {
            assert(rest.len() == 0);
            assert(vstd::utf8::encode_utf8(rest).len() == 0);
        }
    }
}

/// A validated search request.
#[derive(Debug, Clone, PartialEq, Eq)]
pub struct SearchPlan {
    /// The trimmed query, which titles are searched for.
    pub query: String,
    /// The query string as the request gave it, which the answer echoes.
    pub requested: String,
    /// The number of movies to return at most.
    pub limit: u32,
}

/// Reads the parameters of `GET /api/search`: `q` is required and, trimmed,
/// must be at least two bytes long in UTF-8; `limit` defaults to 20 and is
/// kept in `1..=50`. The answer echoes the query string as given.
pub fn plan_search(q: Option<&str>, limit: Option<&str>) -> (r: Result<SearchPlan, ApiError>)
    ensures
        q is None ==> fails_invalid(r, "query parameter `q` is required"@),
        q is Some && vstd::utf8::encode_utf8(trim(q->0@)).len() < 2 ==> fails_invalid(
            r,
            "query parameter `q` must be at least 2 characters"@,
        ),
        q is Some && vstd::utf8::encode_utf8(trim(q->0@)).len() >= 2 ==> r is Ok
            && r->Ok_0.query@ == trim(q->0@) && r->Ok_0.requested@ == q->0@ && r->Ok_0.limit
            == clamp_spec(
            match limit {
                Some(v) => match parse_u32_spec(v@) {
                    Some(n) => n,
                    None => 20,
                },
                None => 20,
            },
            1,
            50,
        ),
{
    let raw = match q {
        Some(raw) => raw,
        None => {
            return Err(invalid_fixed("query parameter `q` is required"));
        },
    };
    let v = chars_of(raw);
    let t = trim_chars(v.as_slice());
    proof {
        lemma_short_utf8(t@);
    }
    if t.len() == 0 || (t.len() == 1 && (t[0] as u32) < 0x80) {
        return Err(invalid_fixed("query parameter `q` must be at least 2 characters"));
    }
    let query = string_from_chars(t.as_slice());
    Ok(SearchPlan { query, requested: String::from_str(raw), limit: parse_limit(limit, 20, 50) })
}

/// The search answer: the query string as the request gave it, and the
/// movies found, with their number.
pub fn search_response(query: String, movies: Vec<MovieSummary>) -> (r: SearchResponse)
    ensures
        r.query == query,
        r.movies == movies,
        r.total == movies@.len(),
{
    let total = movies.len();
    SearchResponse { query, movies, total }
}

/// The body of a favorite request as received.
#[derive(Debug, Clone, PartialEq, Eq)]
pub enum FavoriteBody {
    /// No body: the favorite state is toggled.
    Empty,
    /// A body that is not a JSON favorite request.
    Malformed,
    /// A decoded JSON favorite request.
    Decoded(FavoriteRequest),
}

/// How a favorite request changes the favorite state.
#[derive(Debug, Clone, Copy, PartialEq, Eq, Structural)]
pub enum FavoriteChange {
    /// Flip the current state.
    Toggle,
    /// Set this state.
    SetTo(bool),
}

/// Reads a favorite request body: an empty body toggles, a decoded body
/// sets its `favorite`; a malformed body, or one without `favorite`, is a
/// 400 error.
pub fn favorite_change(body: &FavoriteBody) -> (r: Result<FavoriteChange, ApiError>)
    ensures
        *body == FavoriteBody::Empty ==> r == Ok::<FavoriteChange, ApiError>(
            FavoriteChange::Toggle,
        ),
        *body == FavoriteBody::Malformed ==> fails_invalid(r, "invalid JSON body"@),
        body is Decoded && body->Decoded_0.favorite is Some ==> r == Ok::<FavoriteChange, ApiError>(
            FavoriteChange::SetTo(body->Decoded_0.favorite->0),
        ),
        body is Decoded && body->Decoded_0.favorite is None ==> fails_invalid(
            r,
            "request body must include `favorite` or be omitted to toggle"@,
        ),
{
    match body {
        FavoriteBody::Empty => Ok(FavoriteChange::Toggle),
        FavoriteBody::Malformed => Err(invalid_fixed("invalid JSON body")),
        FavoriteBody::Decoded(req) => match req.favorite {
            Some(f) => Ok(FavoriteChange::SetTo(f)),
            None => Err(
                invalid_fixed("request body must include `favorite` or be omitted to toggle"),
            ),
        },
    }
}

/// The favorite state after a change, from the current state.
pub open spec fn favorite_after(change: FavoriteChange, current: bool) -> bool {
    match change {
        FavoriteChange::Toggle => !current,
        FavoriteChange::SetTo(f) => f,
    }
}

/// The favorite state that a change leads to.
pub fn apply_favorite_change(change: FavoriteChange, current: bool) -> (r: bool)
    ensures
        r == favorite_after(change, current),
{
    match change {
        FavoriteChange::Toggle => !current,
        FavoriteChange::SetTo(f) => f,
    }
}

/// The favorite answer.
pub fn favorite_response(slug: String, favorite: bool) -> (r: FavoriteResponse)
    ensures
        r.slug == slug,
        r.favorite == favorite,
{
    FavoriteResponse { slug, favorite }
}

/// The watch position and duration that the in-memory catalogue keeps after
/// a progress update: none once the movie is finished, the reported ones
/// otherwise.
pub open spec fn catalog_progress_spec(position: u32, duration: Option<u32>) -> (
    Option<u32>,
    Option<u32>,
) {
    if finished_spec(position, duration) {
        (None, None)
    } else {
        (Some(position), duration)
    }
}

/// The watch position and duration the catalogue keeps after an update.
pub fn catalog_progress(req: &ProgressRequest) -> (r: (Option<u32>, Option<u32>))
    ensures
        r == catalog_progress_spec(req.position_seconds, req.duration_seconds),
{
    if is_finished(req.position_seconds, req.duration_seconds) {
        (None, None)
    } else {
        (Some(req.position_seconds), req.duration_seconds)
    }
}

/// A timestamp in the form the API reports: the ISO-8601 UTC date-time of
/// Unix second `secs`, such as `1970-01-01T00:00:00Z` for 0.
pub fn iso_timestamp(secs: u64) -> (r: String)
    ensures
        r@ == iso_utc(secs as nat),
{
    let v = iso_utc_chars(secs);
    string_from_chars(v.as_slice())
}

/// The progress answer, stamped with the time `now`.
pub fn progress_response(slug: String, req: &ProgressRequest, now: u64) -> (r: ProgressResponse)
    ensures
        r.slug == slug,
        r.position_seconds == req.position_seconds,
        r.duration_seconds == req.duration_seconds,
        r.updated_at@ == iso_utc(now as nat),
{
    ProgressResponse {
        slug,
        position_seconds: req.position_seconds,
        duration_seconds: req.duration_seconds,
        updated_at: iso_timestamp(now),
    }
}

/// The library status answer: `scanning` while a scan runs, `idle`
/// otherwise; the last scan time is reported only when one has completed
/// (a time of 0 means none has).
pub fn library_status_response(
    movies_count: usize,
    scan_in_progress: bool,
    last_scan_at: u64,
    last_scan_duration_secs: u64,
) -> (r: LibraryStatusResponse)
    ensures
        r.state@ == (if scan_in_progress {
            "scanning"@
        } else {
            "idle"@
        }),
        last_scan_at > 0 ==> r.last_scan_at is Some && r.last_scan_at->0@ == iso_utc(
            last_scan_at as nat,
        ),
        last_scan_at == 0 ==> r.last_scan_at is None,
        r.last_scan_duration_secs == last_scan_duration_secs,
        r.movies_count == movies_count,
        r.scan_in_progress == scan_in_progress,
{
    LibraryStatusResponse {
        state: if scan_in_progress {
            String::from_str("scanning")
        } else {
            String::from_str("idle")
        },
        last_scan_at: if last_scan_at > 0 {
            Some(iso_timestamp(last_scan_at))
        } else {
            None
        },
        last_scan_duration_secs,
        movies_count,
        scan_in_progress,
    }
}

/// The health answer. The movie count comes from the database when it
/// could be read, else from the in-memory catalogue.
pub fn health_response(
    version: &'static str,
    stored_count: Option<usize>,
    catalog_len: usize,
    library_scanned_at: u64,
) -> (r: HealthResponse)
    ensures
        r.status@ == "ok"@,
        r.service@ == "loon-server"@,
        r.version == version,
        r.movies_count == (match stored_count {
            Some(n) => n,
            None => catalog_len,
        }),
        r.library_scanned_at == library_scanned_at,
{
    let movies_count = match stored_count {
        Some(n) => n,
        None => catalog_len,
    };
    HealthResponse {
        status: "ok",
        service: "loon-server",
        version,
        movies_count,
        library_scanned_at,
    }
}

/// The genres answer: one entry per counted genre, in the same order.
pub fn genres_response(counts: Vec<GenreCount>) -> (r: GenresResponse)
    ensures
        r.genres@.len() == counts@.len(),
        forall|i: int|
            0 <= i < counts@.len() ==> (#[trigger] r.genres@[i]).name == counts@[i].name
                && r.genres@[i].count == counts@[i].count,
{
    let mut genres: Vec<GenreEntry> = Vec::new();
    let n = counts.len();
    let mut k: usize = 0;
    while k < n
        invariant
            k <= n,
            n == counts@.len(),
            genres@.len() == k,
            forall|i: int|
                0 <= i < k ==> (#[trigger] genres@[i]).name == counts@[i].name && genres@[i].count
                    == counts@[i].count,
        decreases n - k,
    {
        let g = &counts[k];
        genres.push(GenreEntry { name: g.name.clone(), count: g.count });
        k = k + 1;
    }
    GenresResponse { genres }
}

/// Where artwork comes from: the poster or backdrop URL of the movie, or a
/// 404 when it has none of that kind.
pub fn artwork_source(
    slug: &str,
    kind: ArtworkKind,
    poster_url: &Option<String>,
    backdrop_url: &Option<String>,
) -> (r: Result<String, ApiError>)
    ensures
        ({
            let url = match kind {
                ArtworkKind::Poster => *poster_url,
                ArtworkKind::Backdrop => *backdrop_url,
            };
            &&& url matches Some(u) ==> r == Ok::<String, ApiError>(u)
            &&& url is None ==> r is Err && r->Err_0 is ArtworkNotFound
                && r->Err_0->ArtworkNotFound_slug@ == slug@ && r->Err_0->ArtworkNotFound_kind
                == kind
        }),
{
    let url = match kind {
        ArtworkKind::Poster => poster_url,
        ArtworkKind::Backdrop => backdrop_url,
    };
    match url {
        Some(u) => Ok(u.clone()),
        None => Err(artwork_not_found(slug, kind)),
    }
}

/// Reads the artwork kind of a request; an unknown kind is a 400 error.
pub fn artwork_kind(raw: &str) -> (r: Result<ArtworkKind, ApiError>)
    ensures
        raw@ == "poster"@ ==> r == Ok::<ArtworkKind, ApiError>(ArtworkKind::Poster),
        raw@ != "poster"@ && raw@ == "backdrop"@ ==> r == Ok::<ArtworkKind, ApiError>(
            ArtworkKind::Backdrop,
        ),
        raw@ != "poster"@ && raw@ != "backdrop"@ ==> fails_invalid(
            r,
            "kind must be `poster` or `backdrop`"@,
        ),
{
    match ArtworkKind::parse(raw) {
        Some(k) => Ok(k),
        None => Err(invalid_fixed("kind must be `poster` or `backdrop`")),
    }
}

/// The record a request is served from: the stored one when the database
/// has it, else the one of the in-memory catalogue.
pub fn lookup_record<T>(stored: Option<T>, cached: Option<T>) -> (r: Option<T>)
    ensures
        stored is Some ==> r == stored,
        stored is None ==> r == cached,
{
    match stored {
        Some(record) => Some(record),
        None => cached,
    }
}


/// Toggling the favorite state twice restores it, and setting it is
/// idempotent.
pub proof fn law_favorite_toggle(current: bool, target: bool)
    ensures
        favorite_after(FavoriteChange::Toggle, favorite_after(FavoriteChange::Toggle, current))
            == current,
        favorite_after(FavoriteChange::Toggle, current) != current,
        favorite_after(
            FavoriteChange::SetTo(target),
            favorite_after(FavoriteChange::SetTo(target), current),
        ) == target,
{
}

/// The stored progress and the in-memory catalogue agree after a progress
/// update: the stored row is cleared exactly when the catalogue forgets the
/// position, and otherwise both hold the reported position and duration.
pub proof fn law_progress_store_matches_catalog(position: u32, duration: Option<u32>)
    ensures
        catalog_progress_spec(position, duration) == (match progress_write_spec(
            position,
            duration,
        ) {
            ProgressWrite::Clear => (None, None),
            ProgressWrite::Store { position_seconds, duration_seconds } => (
                Some(position_seconds),
                duration_seconds,
            ),
        }),
{
}

/// Saved progress reads back: after a progress update, the position and
/// duration read from the movie's stored row (as `record_from_row` reads
/// them) are those the catalogue keeps: none once the movie is finished,
/// else the reported ones.
pub proof fn law_saved_progress_reads_back(position: u32, duration: Option<u32>)
    ensures
        ({
            let cols = progress_columns(progress_write_spec(position, duration));
            (low_u32(cols.0), low_u32(cols.1)) == catalog_progress_spec(position, duration)
        }),
{
    assert((position as i64) as u32 == position) by (bit_vector);
    if let Some(d) = duration {
        assert((d as i64) as u32 == d) by (bit_vector);
    }
}

/// A favorite change reads back: the favorite state read from the stored
/// rows (a favorite when there is a row) is the state the change leads to,
/// and toggling again what was read restores the state before.
pub proof fn law_favorite_reads_back(current: bool, change: FavoriteChange)
    ensures
        (favorite_rows(favorite_after(change, current)) > 0) == favorite_after(change, current),
        (favorite_rows(
            favorite_after(
                FavoriteChange::Toggle,
                favorite_rows(favorite_after(FavoriteChange::Toggle, current)) > 0,
            ),
        ) > 0) == current,
{
}

/// Every movie of a list lies on exactly one page: the movie at index `i`
/// is on page `i / limit + 1`, which is one of the pages counted for the
/// list, and on no other page.
pub proof fn law_every_movie_on_one_page(total: usize, limit: u32, i: usize, other: u32)
    requires
        limit >= 1,
        i < total,
        (i as int) / (limit as int) + 1 <= u32::MAX,
        other >= 1,
        offset_spec(other, limit) <= i < offset_spec(other, limit) + limit,
    ensures
        ({
            let page = ((i as int) / (limit as int) + 1) as u32;
            &&& 1 <= page <= ceil_div(total as int, limit as int)
            &&& offset_spec(page, limit) <= i < offset_spec(page, limit) + limit
            &&& other == page
        }),
{
    let l = limit as int;
    let q = (i as int) / l;
    assert(q * l <= i < q * l + l) by (nonlinear_arith)
        requires
            l >= 1,
            q == (i as int) / l,
    ;
    assert(q + 1 <= ceil_div(total as int, l)) by (nonlinear_arith)
        requires
            l >= 1,
            i < total,
            q == (i as int) / l,
    ;
    assert(other == q + 1) by (nonlinear_arith)
        requires
            l >= 1,
            other >= 1,
            (other - 1) * l <= i < (other - 1) * l + l,
            q * l <= i < q * l + l,
    ;
}


/// The body of a scan request as received.
#[derive(Debug, Clone, PartialEq, Eq)]
pub enum ScanBody {
    /// No body: a quick scan.
    Empty,
    /// A body that is not a JSON scan request.
    Malformed,
    /// A decoded JSON scan request.
    Decoded(ScanStartRequest),
}

/// Whether a scan request asks for a full metadata refresh: an empty body
/// does not, a decoded body says so in `full`, a malformed body is a 400
/// error.
pub fn scan_request_full(body: &ScanBody) -> (r: Result<bool, ApiError>)
    ensures
        *body == ScanBody::Empty ==> r == Ok::<bool, ApiError>(false),
        *body == ScanBody::Malformed ==> fails_invalid(r, "invalid JSON body"@),
        body is Decoded ==> r == Ok::<bool, ApiError>(body->Decoded_0.full),
{
    match body {
        ScanBody::Empty => Ok(false),
        ScanBody::Malformed => Err(invalid_fixed("invalid JSON body")),
        ScanBody::Decoded(req) => Ok(req.full),
    }
}

/// Answers a request to start a scan: refused with 409 while a scan runs,
/// else read from the body as `scan_request_full` reads it (whether the
/// scan refreshes all metadata).
pub fn scan_start(running: bool, body: &ScanBody) -> (r: Result<bool, ApiError>)
    ensures
        running ==> r == Err::<bool, ApiError>(ApiError::ScanAlreadyRunning),
        !running && *body == ScanBody::Empty ==> r == Ok::<bool, ApiError>(false),
        !running && *body == ScanBody::Malformed ==> fails_invalid(r, "invalid JSON body"@),
        !running && body is Decoded ==> r == Ok::<bool, ApiError>(body->Decoded_0.full),
{
    if running {
        return Err(scan_already_running());
    }
    scan_request_full(body)
}

/// The identifier of a scan started at `now`: `scan-` and the Unix seconds
/// in decimal.
pub fn scan_id(now: u64) -> (r: String)
    ensures
        r@ == "scan-"@ + decimal(now as nat),
{
    let mut id = String::from_str("scan-");
    let t = string_from_chars(decimal_chars(now).as_slice());
    id.append(t.as_str());
    id
}

/// One Server-Sent Events frame: the event name, its data, a blank line.
pub fn sse_frame(event_name: &str, payload: &str) -> (r: String)
    ensures
        r@ == "event: "@ + event_name@ + "\ndata: "@ + payload@ + "\n\n"@,
{
    let mut frame = String::from_str("event: ");
    frame.append(event_name);
    frame.append("\ndata: ");
    frame.append(payload);
    frame.append("\n\n");
    frame
}

/// A scan runs at start-up unless it is skipped; it is forced, or it runs
/// because the library is empty.
pub fn needs_initial_scan(skip: bool, force: bool, movie_count: usize) -> (r: bool)
    ensures
        r == (!skip && (force || movie_count == 0)),
{
    !skip && (force || movie_count == 0)
}

/// The time of the latest scan among stored movies, or 0 when there are none.
pub fn latest_scan(scanned_at: &[u64]) -> (r: u64)
    ensures
        forall|i: int| 0 <= i < scanned_at@.len() ==> scanned_at@[i] <= r,
        scanned_at@.len() == 0 ==> r == 0,
        scanned_at@.len() > 0 ==> exists|i: int| 0 <= i < scanned_at@.len() && scanned_at@[i] == r,
{
    let mut best: u64 = 0;
    let mut k: usize = 0;
    while k < scanned_at.len()
        invariant
            k <= scanned_at@.len(),
            forall|i: int| 0 <= i < k ==> scanned_at@[i] <= best,
            k == 0 ==> best == 0,
            k > 0 ==> exists|i: int| 0 <= i < k && scanned_at@[i] == best,
        decreases scanned_at@.len() - k,
    {
        if k == 0 || scanned_at[k] > best {
            best = scanned_at[k];
        }
        k = k + 1;
    }
    best
}

/// The browse feed is not served while the library is scanning.
pub fn browse_allowed(scan_running: bool) -> (r: Result<(), ApiError>)
    ensures
        scan_running ==> r == Err::<(), ApiError>(ApiError::LibraryScanning),
        !scan_running ==> r is Ok,
{
    if scan_running {
        Err(library_scanning())
    } else {
        Ok(())
    }
}

/// A parameter that is present and not empty.
pub open spec fn given(raw: Option<&str>) -> bool {
    raw is Some && raw->0@.len() > 0
}

/// Reads the parameters of `GET /api/people/resolve`: `movie_slug` and
/// `name` are both required and must not be empty.
pub fn resolve_person_params(movie_slug: Option<&str>, name: Option<&str>) -> (r: Result<
    (String, String),
    ApiError,
>)
    ensures
        !given(movie_slug) ==> fails_invalid(r, "movie_slug is required"@),
        given(movie_slug) && !given(name) ==> fails_invalid(r, "name is required"@),
        given(movie_slug) && given(name) ==> (r matches Ok((slug, cast)) && slug@
            == movie_slug->0@ && cast@ == name->0@),
{
    let slug = match movie_slug {
        Some(v) => if v.is_empty() {
            return Err(invalid_fixed("movie_slug is required"));
        } else {
            v
        },
        None => {
            return Err(invalid_fixed("movie_slug is required"));
        },
    };
    let cast = match name {
        Some(v) => if v.is_empty() {
            return Err(invalid_fixed("name is required"));
        } else {
            v
        },
        None => {
            return Err(invalid_fixed("name is required"));
        },
    };
    Ok((String::from_str(slug), String::from_str(cast)))
}

} // verus!
