//! The desktop admin tool: the movie types it reads from the server, the
//! state of its library panel (list, detail, fetches in flight), searching
//! and ordering the movie table.

use vstd::prelude::*;

use crate::text::{
    ascii_lower, ascii_lower_chars, chars_of, contains_chars, contains_seq, string_from_chars,
    trim, trim_chars,
};

verus! {

broadcast use vstd::seq_lib::group_seq_properties;

/// Movie card in browse/list responses.
#[derive(Debug, Clone, PartialEq, Eq)]
pub struct MovieSummary {
    /// URL-safe movie identifier.
    pub slug: String,
    /// Display title.
    pub title: String,
    /// Release year when known.
    pub year: Option<u16>,
    /// Runtime in minutes.
    pub runtime_minutes: u16,
    /// Poster image URL when available.
    pub poster_url: Option<String>,
    /// Backdrop image URL when available.
    pub backdrop_url: Option<String>,
    /// Short plot summary.
    pub summary: String,
}

/// `GET /api/movies` response body.
#[derive(Debug, Clone, PartialEq, Eq)]
pub struct MovieListResponse {
    /// Movies in this page.
    pub movies: Vec<MovieSummary>,
    /// Total movies matching the query.
    pub total: usize,
}

/// On-disk media file metadata.
#[derive(Debug, Clone, PartialEq, Eq)]
pub struct MovieFileInfo {
    /// Base file name.
    pub filename: String,
    /// Path relative to the library root.
    pub relative_path: String,
}

/// Full movie detail for admin editing.
#[derive(Debug, Clone, PartialEq, Eq)]
pub struct MovieDetail {
    /// URL-safe movie identifier.
    pub slug: String,
    /// Display title.
    pub title: String,
    /// Original title when different from display title.
    pub original_title: Option<String>,
    /// Release year.
    pub year: Option<u16>,
    /// Runtime in minutes.
    pub runtime_minutes: Option<u16>,
    /// Plot summary.
    pub summary: Option<String>,
    /// Genre names.
    pub genres: Vec<String>,
    /// Poster image URL.
    pub poster_url: Option<String>,
    /// Backdrop image URL.
    pub backdrop_url: Option<String>,
    /// Whether the movie is marked as a favorite.
    pub is_favorite: bool,
    /// TMDB movie id when known.
    pub tmdb_id: Option<String>,
    /// IMDb id when known.
    pub imdb_id: Option<String>,
    /// On-disk media file metadata.
    pub file: MovieFileInfo,
}

/// `GET /api/health` response body.
#[derive(Debug, Clone, PartialEq, Eq)]
pub struct HealthResponse {
    /// Service status string.
    pub status: String,
    /// Number of movies in the catalog.
    pub movies_count: usize,
}

fn copy_opt_string(s: &Option<String>) -> (r: Option<String>)
    ensures
        r == *s,
{
    match s {
        Some(v) => Some(v.clone()),
        None => None,
    }
}

impl MovieSummary {
    /// An equal copy of the card.
    pub fn duplicate(&self) -> (r: Self)
        ensures
            r == *self,
    {
        MovieSummary {
            slug: self.slug.clone(),
            title: self.title.clone(),
            year: self.year,
            runtime_minutes: self.runtime_minutes,
            poster_url: copy_opt_string(&self.poster_url),
            backdrop_url: copy_opt_string(&self.backdrop_url),
            summary: self.summary.clone(),
        }
    }
}

/// The normalized search text: trimmed and ASCII lower-cased.
pub open spec fn search_key(search: Seq<char>) -> Seq<char> {
    ascii_lower(trim(search))
}

/// A movie matches a (normalized, non-empty) search text when its title,
/// summary or slug contains it, ignoring ASCII case.
pub open spec fn matches_search(m: MovieSummary, key: Seq<char>) -> bool {
    contains_seq(ascii_lower(m.title@), key) || contains_seq(ascii_lower(m.summary@), key)
        || contains_seq(ascii_lower(m.slug@), key)
}

/// A search ignores ASCII case in every field: two movies whose title,
/// summary and slug are equal up to ASCII case match the same search keys,
/// and a movie whose lower-cased title, summary or slug contains the key
/// matches it.
pub proof fn law_search_ignores_ascii_case(m: MovieSummary, other: MovieSummary, key: Seq<char>)
    ensures
        (ascii_lower(m.title@) == ascii_lower(other.title@) && ascii_lower(m.summary@)
            == ascii_lower(other.summary@) && ascii_lower(m.slug@) == ascii_lower(other.slug@))
            ==> matches_search(m, key) == matches_search(other, key),
        contains_seq(ascii_lower(m.title@), key) ==> matches_search(m, key),
        contains_seq(ascii_lower(m.summary@), key) ==> matches_search(m, key),
        contains_seq(ascii_lower(m.slug@), key) ==> matches_search(m, key),
{
}

/// The movies a search shows: all of them for a blank search, else those
/// that match it, in list order.
pub open spec fn filtered_spec(movies: Seq<MovieSummary>, search: Seq<char>) -> Seq<MovieSummary> {
    let key = search_key(search);
    if key.len() == 0 {
        movies
    } else {
        movies.filter(|m: MovieSummary| matches_search(m, key))
    }
}

fn movie_matches(m: &MovieSummary, key: &[char]) -> (b: bool)
    ensures
        b == matches_search(*m, key@),
{
    let t = chars_of(m.title.as_str());
    let tl = ascii_lower_chars(t.as_slice());
    if contains_chars(tl.as_slice(), key) {
        return true;
    }
    let s = chars_of(m.summary.as_str());
    let sl = ascii_lower_chars(s.as_slice());
    if contains_chars(sl.as_slice(), key) {
        return true;
    }
    let g = chars_of(m.slug.as_str());
    let gl = ascii_lower_chars(g.as_slice());
    contains_chars(gl.as_slice(), key)
}

/// The movies shown for a search text, in list order.
pub fn filter_movies(movies: &[MovieSummary], search: &str) -> (r: Vec<MovieSummary>)
    ensures
        r@ == filtered_spec(movies@, search@),
{
    let s = chars_of(search);
    let t = trim_chars(s.as_slice());
    let key = ascii_lower_chars(t.as_slice());
    let ghost pred = |m: MovieSummary| matches_search(m, key@);
    let mut r: Vec<MovieSummary> = Vec::new();
    let n = movies.len();
    let mut k: usize = 0;
    while k < n
        invariant
            k <= n,
            n == movies@.len(),
            key@ == search_key(search@),
            key@.len() == 0 ==> r@ == movies@.take(k as int),
            key@.len() > 0 ==> r@ == movies@.take(k as int).filter(pred),
            pred == (|m: MovieSummary| matches_search(m, key@)),
        decreases n - k,
    {
        let m = &movies[k];
        assert(movies@.take(k + 1) =~= movies@.take(k as int).push(movies@[k as int]));
        proof {
            movies@.take(k as int).lemma_filter_push(movies@[k as int], pred);
        }
        if key.len() == 0 || movie_matches(m, key.as_slice()) {
            r.push(m.duplicate());
        }
        k = k + 1;
    }
    assert(movies@.take(n as int) =~= movies@);
    r
}

/// A summary cut to `max_chars` characters: kept whole when short enough,
/// else its first `max_chars - 1` characters and an ellipsis.
pub open spec fn truncated_spec(summary: Seq<char>, max_chars: nat) -> Seq<char> {
    if summary.len() <= max_chars {
        summary
    } else {
        summary.take(if max_chars == 0 {
            0
        } else {
            max_chars - 1
        }) + seq!['…']
    }
}

/// Shortens a summary for a table cell.
pub fn truncate_summary(summary: &str, max_chars: usize) -> (r: String)
    ensures
        r@ == truncated_spec(summary@, max_chars as nat),
{
    let s = chars_of(summary);
    if s.len() <= max_chars {
        return string_from_chars(s.as_slice());
    }
    let keep = if max_chars == 0 {
        0
    } else {
        max_chars - 1
    };
    let mut v = crate::text::prefix_chars(s.as_slice(), keep);
    v.push('…');
    assert(v@ =~= s@.take(keep as int) + seq!['…']);
    string_from_chars(v.as_slice())
}


/// Keeping the items of a filtered sequence that pass the same test keeps
/// them all.
proof fn lemma_filter_twice(s: Seq<MovieSummary>, p: spec_fn(MovieSummary) -> bool)
    ensures
        s.filter(p).filter(p) == s.filter(p),
    decreases s.len(),
{
    if s.len() == 0 {
        assert(s.filter(p) =~= s);
    } else {
        let init = s.drop_last();
        let x = s.last();
        assert(s =~= init.push(x));
        init.lemma_filter_push(x, p);
        lemma_filter_twice(init, p);
        if p(x) {
            init.filter(p).lemma_filter_push(x, p);
        }
    }
}

/// Searching the shown movies again with the same text shows the same
/// movies.
pub proof fn law_search_again_changes_nothing(movies: Seq<MovieSummary>, search: Seq<char>)
    ensures
        filtered_spec(filtered_spec(movies, search), search) == filtered_spec(movies, search),
{
    let key = search_key(search);
    if key.len() > 0 {
        lemma_filter_twice(movies, |m: MovieSummary| matches_search(m, key));
    }
}

/// A shortened summary fits in the cell: at most `max_chars` characters
/// (when at least one is allowed), and a summary that fits is unchanged.
pub proof fn law_summary_fits(summary: Seq<char>, max_chars: nat)
    requires
        max_chars >= 1,
    ensures
        truncated_spec(summary, max_chars).len() <= max_chars,
        summary.len() <= max_chars ==> truncated_spec(summary, max_chars) == summary,
{
}

/// Library sub-routes.
#[derive(Debug, Clone, PartialEq, Eq)]
pub enum LibraryRoute {
    /// Movie table list.
    List,
    /// Single movie detail / edit screen.
    Detail {
        /// Movie slug being viewed.
        slug: String,
    },
}

/// Fetch state shared by list and detail panels.
#[derive(Debug, Clone, PartialEq, Eq)]
pub enum LoadState<T> {
    /// Nothing requested yet.
    Idle,
    /// A fetch is in flight.
    Loading,
    /// The fetched value.
    Ready(T),
    /// The fetch failed with this message.
    Failed(String),
}

/// What polling a background fetch found.
#[derive(Debug)]
pub enum FetchPoll<T> {
    /// The fetch finished with a value or an error message.
    Received(Result<T, String>),
    /// The fetch has not finished yet.
    Empty,
    /// The fetching thread went away without an answer.
    Disconnected,
}

/// Sortable movie table widget.
#[derive(Debug, Clone, Copy, PartialEq, Eq, Structural)]
pub struct MoviesTable {
    /// Whether titles are listed A to Z (else Z to A).
    pub sort_title_asc: bool,
}

impl Default for MoviesTable {
    fn default() -> (r: Self)
        ensures
            !r.sort_title_asc,
    {
        MoviesTable { sort_title_asc: false }
    }
}

impl MoviesTable {
    /// Reverses the title order (the header button).
    pub fn toggle_sort(&mut self)
        ensures
            final(self).sort_title_asc == !old(self).sort_title_asc,
    {
        self.sort_title_asc = !self.sort_title_asc;
    }
}

/// Detail panel for a single movie.
#[derive(Debug, Clone, Copy, Default, PartialEq, Eq, Structural)]
pub struct MovieDetailPanel;

/// Library section state. A fetch in flight (`movies_pending`,
/// `detail_pending`) is one whose answer the application still waits for.
#[derive(Debug, Clone, PartialEq, Eq)]
pub struct LibraryPanel {
    pub route: LibraryRoute,
    pub movies: LoadState<Vec<MovieSummary>>,
    pub movies_pending: bool,
    pub detail: LoadState<MovieDetail>,
    pub detail_pending: bool,
    pub detail_slug: Option<String>,
    pub search: String,
    pub image_loaders_installed: bool,
    pub table: MoviesTable,
    pub detail_panel: MovieDetailPanel,
}

/// The message when the movie list fetch stops without an answer.
pub open spec fn movies_stopped_message() -> Seq<char> {
    "movie fetch thread stopped"@
}

/// The message when the movie detail fetch stops without an answer.
pub open spec fn detail_stopped_message() -> Seq<char> {
    "movie detail fetch thread stopped"@
}

/// What a poll makes of a fetch state: while the fetch is in flight, an
/// answer or a stopped fetch ends it and no answer yet leaves it as it is;
/// a poll with no fetch in flight changes nothing.
pub open spec fn polled<T>(
    state: LoadState<T>,
    pending: bool,
    event: FetchPoll<T>,
    stopped: Seq<char>,
    new_state: LoadState<T>,
    new_pending: bool,
) -> bool {
    if !pending {
        new_state == state && !new_pending
    } else {
        match event {
            FetchPoll::Received(Ok(v)) => new_state == LoadState::<T>::Ready(v) && !new_pending,
            FetchPoll::Received(Err(m)) => new_state == LoadState::<T>::Failed(m) && !new_pending,
            FetchPoll::Empty => new_state == state && new_pending,
            FetchPoll::Disconnected => (new_state matches LoadState::Failed(m) && m@ == stopped)
                && !new_pending,
        }
    }
}

impl LibraryPanel {
    /// The panel is consistent: a fetch in flight shows as loading, and the
    /// detail route and the slug of the detail being shown agree.
    pub open spec fn wf(&self) -> bool {
        &&& self.movies_pending ==> self.movies == LoadState::<Vec<MovieSummary>>::Loading
        &&& self.detail_pending ==> self.detail == LoadState::<MovieDetail>::Loading
        &&& match self.route {
            LibraryRoute::List => self.detail_slug is None,
            LibraryRoute::Detail { slug } => self.detail_slug == Some(slug),
        }
    }

    /// The panel is as at start: the list route, nothing fetched or in
    /// flight, an empty search, titles listed Z to A.
    pub open spec fn is_initial(&self) -> bool {
        &&& self.route == LibraryRoute::List
        &&& self.movies == LoadState::<Vec<MovieSummary>>::Idle
        &&& !self.movies_pending
        &&& self.detail == LoadState::<MovieDetail>::Idle
        &&& !self.detail_pending
        &&& self.detail_slug is None
        &&& self.search@ == Seq::<char>::empty()
        &&& !self.image_loaders_installed
        &&& !self.table.sort_title_asc
    }

    /// The panel at start.
    pub fn new() -> (r: Self)
        ensures
            r.wf(),
            r.is_initial(),
    {
        LibraryPanel {
            route: LibraryRoute::List,
            movies: LoadState::Idle,
            movies_pending: false,
            detail: LoadState::Idle,
            detail_pending: false,
            detail_slug: None,
            search: String::new(),
            image_loaders_installed: false,
            table: MoviesTable::default(),
            detail_panel: MovieDetailPanel,
        }
    }

    /// Shows the detail of a movie, with its detail not fetched yet.
    pub fn open_detail(&mut self, slug: String)
        ensures
            *final(self) == (LibraryPanel {
                route: LibraryRoute::Detail { slug: slug },
                detail: LoadState::<MovieDetail>::Idle,
                detail_pending: false,
                detail_slug: Some(slug),
                ..*old(self)
            }),
            final(self).route == (LibraryRoute::Detail { slug }),
            final(self).detail == LoadState::<MovieDetail>::Idle,
            !final(self).detail_pending,
            final(self).detail_slug == Some(slug),
            final(self).movies == old(self).movies,
            final(self).movies_pending == old(self).movies_pending,
            final(self).search == old(self).search,
            final(self).image_loaders_installed == old(self).image_loaders_installed,
            final(self).table == old(self).table,
            old(self).wf() ==> final(self).wf(),
    {
        self.route = LibraryRoute::Detail { slug: slug.clone() };
        self.detail = LoadState::Idle;
        self.detail_pending = false;
        self.detail_slug = Some(slug);
    }

    /// Goes back from a detail to the list, forgetting the detail.
    pub fn back_to_list(&mut self)
        ensures
            *final(self) == (LibraryPanel {
                route: LibraryRoute::List,
                detail: LoadState::<MovieDetail>::Idle,
                detail_pending: false,
                detail_slug: None,
                ..*old(self)
            }),
            final(self).route == LibraryRoute::List,
            final(self).detail == LoadState::<MovieDetail>::Idle,
            !final(self).detail_pending,
            final(self).detail_slug is None,
            final(self).movies == old(self).movies,
            final(self).movies_pending == old(self).movies_pending,
            final(self).search == old(self).search,
            final(self).image_loaders_installed == old(self).image_loaders_installed,
            final(self).table == old(self).table,
            old(self).wf() ==> final(self).wf(),
    {
        self.route = LibraryRoute::List;
        self.detail = LoadState::Idle;
        self.detail_pending = false;
        self.detail_slug = None;
    }

    /// On a detail route for `slug`, makes sure the panel shows that movie:
    /// a detail of another movie is replaced by a fresh one.
    pub fn show_detail_of(&mut self, slug: &str)
        ensures
            !(old(self).detail_slug matches Some(s) && s@ == slug@) ==> *final(self) == (
            LibraryPanel {
                route: final(self).route,
                detail: LoadState::<MovieDetail>::Idle,
                detail_pending: false,
                detail_slug: final(self).detail_slug,
                ..*old(self)
            }),
            (old(self).detail_slug matches Some(s) && s@ == slug@) ==> *final(self) == *old(self),
            !(old(self).detail_slug matches Some(s) && s@ == slug@) ==> (final(self).route
                matches LibraryRoute::Detail { slug: s } && s@ == slug@
                && final(self).detail == LoadState::<MovieDetail>::Idle
                && !final(self).detail_pending && final(self).detail_slug
                == Some(final(self).route->Detail_slug) && final(self).movies
                == old(self).movies && final(self).movies_pending
                == old(self).movies_pending && final(self).search == old(self).search),
            old(self).wf() ==> final(self).wf(),
    {
        let same = match &self.detail_slug {
            Some(s) => {
                let a = chars_of(s.as_str());
                let b = chars_of(slug);
                crate::text::chars_equal(a.as_slice(), b.as_slice())
            },
            None => false,
        };
        if !same {
            self.open_detail(slug.to_owned());
        }
    }

    /// Records that the movie list is being fetched.
    pub fn start_movies_fetch(&mut self)
        ensures
            *final(self) == (LibraryPanel {
                movies: LoadState::<Vec<MovieSummary>>::Loading,
                movies_pending: true,
                ..*old(self)
            }),
            final(self).movies == LoadState::<Vec<MovieSummary>>::Loading,
            final(self).movies_pending,
            final(self).route == old(self).route,
            final(self).detail == old(self).detail,
            final(self).detail_pending == old(self).detail_pending,
            final(self).detail_slug == old(self).detail_slug,
            final(self).search == old(self).search,
            old(self).wf() ==> final(self).wf(),
    {
        self.movies = LoadState::Loading;
        self.movies_pending = true;
    }

    /// Records that the movie detail is being fetched.
    pub fn start_detail_fetch(&mut self)
        ensures
            *final(self) == (LibraryPanel {
                detail: LoadState::<MovieDetail>::Loading,
                detail_pending: true,
                ..*old(self)
            }),
            final(self).detail == LoadState::<MovieDetail>::Loading,
            final(self).detail_pending,
            final(self).route == old(self).route,
            final(self).movies == old(self).movies,
            final(self).movies_pending == old(self).movies_pending,
            final(self).detail_slug == old(self).detail_slug,
            final(self).search == old(self).search,
            old(self).wf() ==> final(self).wf(),
    {
        self.detail = LoadState::Loading;
        self.detail_pending = true;
    }

    /// Takes in what polling the movie list fetch found.
    pub fn poll_movies(&mut self, event: FetchPoll<Vec<MovieSummary>>)
        ensures
            *final(self) == (LibraryPanel {
                movies: final(self).movies,
                movies_pending: final(self).movies_pending,
                ..*old(self)
            }),
            (!old(self).movies_pending || event is Empty) ==> *final(self) == *old(self),
            polled(
                old(self).movies,
                old(self).movies_pending,
                event,
                movies_stopped_message(),
                final(self).movies,
                final(self).movies_pending,
            ),
            final(self).route == old(self).route,
            final(self).detail == old(self).detail,
            final(self).detail_pending == old(self).detail_pending,
            final(self).detail_slug == old(self).detail_slug,
            final(self).search == old(self).search,
            old(self).wf() ==> final(self).wf(),
    {
        if !self.movies_pending {
            return;
        }
        match event {
            FetchPoll::Received(Ok(movies)) => {
                self.movies = LoadState::Ready(movies);
                self.movies_pending = false;
            },
            FetchPoll::Received(Err(message)) => {
                self.movies = LoadState::Failed(message);
                self.movies_pending = false;
            },
            FetchPoll::Empty => {},
            FetchPoll::Disconnected => {
                self.movies = LoadState::Failed(String::from_str("movie fetch thread stopped"));
                self.movies_pending = false;
            },
        }
    }

    /// Takes in what polling the movie detail fetch found.
    pub fn poll_detail(&mut self, event: FetchPoll<MovieDetail>)
        ensures
            *final(self) == (LibraryPanel {
                detail: final(self).detail,
                detail_pending: final(self).detail_pending,
                ..*old(self)
            }),
            (!old(self).detail_pending || event is Empty) ==> *final(self) == *old(self),
            polled(
                old(self).detail,
                old(self).detail_pending,
                event,
                detail_stopped_message(),
                final(self).detail,
                final(self).detail_pending,
            ),
            final(self).route == old(self).route,
            final(self).movies == old(self).movies,
            final(self).movies_pending == old(self).movies_pending,
            final(self).detail_slug == old(self).detail_slug,
            final(self).search == old(self).search,
            old(self).wf() ==> final(self).wf(),
    {
        if !self.detail_pending {
            return;
        }
        match event {
            FetchPoll::Received(Ok(movie)) => {
                self.detail = LoadState::Ready(movie);
                self.detail_pending = false;
            },
            FetchPoll::Received(Err(message)) => {
                self.detail = LoadState::Failed(message);
                self.detail_pending = false;
            },
            FetchPoll::Empty => {},
            FetchPoll::Disconnected => {
                self.detail = LoadState::Failed(
                    String::from_str("movie detail fetch thread stopped"),
                );
                self.detail_pending = false;
            },
        }
    }

    /// Whether the image loaders still have to be installed; they are
    /// counted as installed from then on.
    pub fn ensure_image_loaders(&mut self) -> (install: bool)
        ensures
            *final(self) == (LibraryPanel { image_loaders_installed: true, ..*old(self) }),
            install == !old(self).image_loaders_installed,
            final(self).image_loaders_installed,
            final(self).route == old(self).route,
            final(self).movies == old(self).movies,
            final(self).movies_pending == old(self).movies_pending,
            final(self).detail == old(self).detail,
            final(self).detail_pending == old(self).detail_pending,
            final(self).detail_slug == old(self).detail_slug,
            old(self).wf() ==> final(self).wf(),
    {
        let install = !self.image_loaders_installed;
        self.image_loaders_installed = true;
        install
    }
}

/// Primary navigation sections for the admin shell.
#[derive(Debug, Clone, Copy, PartialEq, Eq, Structural)]
pub enum AdminSection {
    /// Library overview and movie list.
    Library,
    /// Scan controls and progress.
    Scan,
    /// Server connection and paths.
    Settings,
}

/// Admin shell with library table and detail navigation.
#[derive(Debug, Clone, PartialEq, Eq)]
pub struct AdminView {
    pub section: AdminSection,
    pub theme_applied: bool,
    pub server_url: Option<String>,
    pub library: LibraryPanel,
}

impl AdminView {
    /// The shell at start: the library section, no theme applied yet and
    /// no server URL read yet.
    pub fn new() -> (r: Self)
        ensures
            r.section == AdminSection::Library,
            !r.theme_applied,
            r.server_url is None,
            r.library.is_initial(),
            r.library.wf(),
    {
        AdminView {
            section: AdminSection::Library,
            theme_applied: false,
            server_url: None,
            library: LibraryPanel::new(),
        }
    }

    /// Selects a navigation section.
    pub fn select_section(&mut self, section: AdminSection)
        ensures
            final(self).section == section,
            final(self).theme_applied == old(self).theme_applied,
            final(self).server_url == old(self).server_url,
            final(self).library == old(self).library,
    {
        self.section = section;
    }
}


/// `a` comes before `b` in `String` order: the first differing character
/// decides by its code point, and a proper prefix comes first. (UTF-8
/// preserves code-point order, so this is the byte order `String` compares by.)
pub open spec fn text_before(a: Seq<char>, b: Seq<char>) -> bool
    decreases a.len(),
{
    if a.len() == 0 {
        b.len() > 0
    } else if b.len() == 0 {
        false
    } else if a[0] != b[0] {
        a[0] < b[0]
    } else {
        text_before(a.drop_first(), b.drop_first())
    }
}

/// `a` comes strictly before `b` in the table: by title A to Z when
/// `ascending`, Z to A otherwise.
pub open spec fn listed_before(a: MovieSummary, b: MovieSummary, ascending: bool) -> bool {
    if ascending {
        text_before(a.title@, b.title@)
    } else {
        text_before(b.title@, a.title@)
    }
}

/// The movies are in table order: no movie comes before an earlier one.
pub open spec fn table_ordered(s: Seq<MovieSummary>, ascending: bool) -> bool {
    forall|i: int, j: int|
        0 <= i < j < s.len() ==> !listed_before(#[trigger] s[j], #[trigger] s[i], ascending)
}

/// Whether a movie is titled `t`.
pub open spec fn title_is(t: Seq<char>) -> spec_fn(MovieSummary) -> bool {
    |m: MovieSummary| m.title@ == t
}

/// The movies titled `t`, in order.
pub open spec fn titled(s: Seq<MovieSummary>, t: Seq<char>) -> Seq<MovieSummary> {
    s.filter(title_is(t))
}

proof fn lemma_text_before_irreflexive(a: Seq<char>)
    ensures
        !text_before(a, a),
    decreases a.len(),
{
    if a.len() > 0 {
        lemma_text_before_irreflexive(a.drop_first());
    }
}

proof fn lemma_text_before_asymmetric(a: Seq<char>, b: Seq<char>)
    ensures
        !(text_before(a, b) && text_before(b, a)),
    decreases a.len(),
{
    if a.len() > 0 && b.len() > 0 && a[0] == b[0] {
        lemma_text_before_asymmetric(a.drop_first(), b.drop_first());
    }
}

proof fn lemma_text_before_transitive(a: Seq<char>, b: Seq<char>, c: Seq<char>)
    requires
        text_before(a, b),
        text_before(b, c),
    ensures
        text_before(a, c),
    decreases a.len(),
{
    if a.len() > 0 && b.len() > 0 && c.len() > 0 && a[0] == b[0] && b[0] == c[0] {
        lemma_text_before_transitive(a.drop_first(), b.drop_first(), c.drop_first());
    }
}

proof fn lemma_text_total(a: Seq<char>, b: Seq<char>)
    ensures
        text_before(a, b) || text_before(b, a) || a == b,
    decreases a.len(),
{
    if a.len() > 0 && b.len() > 0 {
        if a[0] == b[0] {
            lemma_text_total(a.drop_first(), b.drop_first());
            if a.drop_first() == b.drop_first() {
                assert(a =~= seq![a[0]] + a.drop_first());
                assert(b =~= seq![b[0]] + b.drop_first());
            }
        }
    } else if a.len() == 0 && b.len() == 0 {
        assert(a =~= b);
    }
}

proof fn lemma_listed_transitive(a: MovieSummary, b: MovieSummary, c: MovieSummary, asc: bool)
    requires
        listed_before(a, b, asc),
        !listed_before(c, b, asc),
    ensures
        listed_before(a, c, asc),
{
    lemma_text_total(b.title@, c.title@);
    if asc {
        if text_before(b.title@, c.title@) {
            lemma_text_before_transitive(a.title@, b.title@, c.title@);
        }
    } else {
        if text_before(c.title@, b.title@) {
            lemma_text_before_transitive(c.title@, b.title@, a.title@);
        }
    }
}

/// Whether title `a` comes before title `b`.
fn text_before_exec(a: &[char], b: &[char]) -> (r: bool)
    ensures
        r == text_before(a@, b@),
{
    let mut k: usize = 0;
    while k < a.len() && k < b.len() && a[k] == b[k]
        invariant
            k <= a@.len(),
            k <= b@.len(),
            text_before(a@, b@) == text_before(
                a@.subrange(k as int, a@.len() as int),
                b@.subrange(k as int, b@.len() as int),
            ),
        decreases a@.len() - k,
    {
        assert(a@.subrange(k as int, a@.len() as int).drop_first() =~= a@.subrange(
            k + 1,
            a@.len() as int,
        ));
        assert(b@.subrange(k as int, b@.len() as int).drop_first() =~= b@.subrange(
            k + 1,
            b@.len() as int,
        ));
        k = k + 1;
    }
    let ghost sa = a@.subrange(k as int, a@.len() as int);
    let ghost sb = b@.subrange(k as int, b@.len() as int);
    if k == a.len() {
        k < b.len()
    } else if k == b.len() {
        false
    } else {
        assert(sa[0] == a@[k as int] && sb[0] == b@[k as int]);
        a[k] < b[k]
    }
}

fn listed_before_exec(a: &MovieSummary, b: &MovieSummary, ascending: bool) -> (r: bool)
    ensures
        r == listed_before(*a, *b, ascending),
{
    let ta = chars_of(a.title.as_str());
    let tb = chars_of(b.title.as_str());
    if ascending {
        text_before_exec(ta.as_slice(), tb.as_slice())
    } else {
        text_before_exec(tb.as_slice(), ta.as_slice())
    }
}

proof fn lemma_titled_empty(s: Seq<MovieSummary>, t: Seq<char>)
    requires
        forall|i: int| 0 <= i < s.len() ==> s[i].title@ != t,
    ensures
        titled(s, t) == Seq::<MovieSummary>::empty(),
    decreases s.len(),
{
    reveal(Seq::filter);
    if s.len() > 0 {
        lemma_titled_empty(s.drop_last(), t);
    }
}

/// The movies in table order: ordered by title, A to Z when `ascending`
/// and Z to A otherwise, with movies of equal title in their list order
/// (a stable sort). Each title's movies, in order, are exactly those of
/// the list.
pub fn sort_for_table(movies: &[MovieSummary], ascending: bool) -> (r: Vec<MovieSummary>)
    ensures
        table_ordered(r@, ascending),
        forall|t: Seq<char>| #[trigger] titled(r@, t) == titled(movies@, t),
        r@.to_multiset() == movies@.to_multiset(),
{
    let mut r: Vec<MovieSummary> = Vec::new();
    let n = movies.len();
    let mut k: usize = 0;
    assert(movies@.take(0) =~= Seq::<MovieSummary>::empty());
    assert(r@ =~= Seq::<MovieSummary>::empty());
    while k < n
        invariant
            k <= n,
            n == movies@.len(),
            table_ordered(r@, ascending),
            forall|t: Seq<char>| #[trigger] titled(r@, t) == titled(movies@.take(k as int), t),
            r@.to_multiset() == movies@.take(k as int).to_multiset(),
            r@.len() == k,
        decreases n - k,
    {
        let x = movies[k].duplicate();
        let mut p: usize = 0;
        while p < r.len() && !listed_before_exec(&x, &r[p], ascending)
            invariant
                p <= r@.len(),
                forall|i: int| 0 <= i < p ==> !listed_before(x, #[trigger] r@[i], ascending),
            decreases r@.len() - p,
        {
            p = p + 1;
        }
        let ghost old_r = r@;
        proof {
            // everything from p on comes after x
            assert forall|j: int| p <= j < old_r.len() implies listed_before(
                x,
                #[trigger] old_r[j],
                ascending,
            ) by {
                assert(listed_before(x, old_r[p as int], ascending));
                if j > p {
                    lemma_listed_transitive(x, old_r[p as int], old_r[j], ascending);
                }
            }
        }
        r.insert(p, x);
        let ghost front = old_r.take(p as int);
        let ghost back = old_r.skip(p as int);
        assert(old_r =~= front + back);
        assert(r@ =~= front + seq![x] + back);
        assert(movies@.take(k + 1) =~= movies@.take(k as int).push(movies@[k as int]));
        proof {
            // ordered
            assert forall|i: int, j: int| 0 <= i < j < r@.len() implies !listed_before(
                #[trigger] r@[j],
                #[trigger] r@[i],
                ascending,
            ) by {
                if j < p {
                    assert(r@[i] == old_r[i] && r@[j] == old_r[j]);
                } else if j == p {
                    assert(r@[i] == old_r[i]);
                } else if i > p {
                    assert(r@[i] == old_r[i - 1] && r@[j] == old_r[j - 1]);
                } else if i == p {
                    assert(r@[j] == old_r[j - 1]);
                    let a = x.title@;
                    let b = old_r[j - 1].title@;
                    lemma_text_before_asymmetric(a, b);
                } else {
                    assert(r@[i] == old_r[i] && r@[j] == old_r[j - 1]);
                }
            }
            // per-title order
            assert forall|t: Seq<char>| #[trigger] titled(r@, t) == titled(
                movies@.take(k + 1),
                t,
            ) by {
                let pred = title_is(t);
                movies@.take(k as int).lemma_filter_push(movies@[k as int], pred);
                Seq::filter_distributes_over_add(front + seq![x], back, pred);
                Seq::filter_distributes_over_add(front, seq![x], pred);
                Seq::filter_distributes_over_add(front, back, pred);
                let e = Seq::<MovieSummary>::empty();
                e.lemma_filter_push(x, pred);
                assert(e.push(x) =~= seq![x]);
                assert(e.filter(pred) =~= e) by {
                    reveal(Seq::filter);
                }
                assert(titled(old_r, t) == titled(movies@.take(k as int), t));
                if x.title@ == t {
                    assert forall|i: int| 0 <= i < back.len() implies back[i].title@ != t by {
                        assert(back[i] == old_r[p + i]);
                        lemma_text_before_irreflexive(t);
                    }
                    lemma_titled_empty(back, t);
                    assert(seq![x].filter(pred) =~= seq![x]);
                    assert(front.filter(pred) + seq![x] + back.filter(pred) =~= (front.filter(pred)
                        + back.filter(pred)).push(x));
                } else {
                    assert(seq![x].filter(pred) =~= e);
                    assert(front.filter(pred) + seq![x].filter(pred) + back.filter(pred)
                        =~= front.filter(pred) + back.filter(pred));
                }
            }
            // same movies
            let e = Seq::<MovieSummary>::empty();
            vstd::seq_lib::to_multiset_build(e, x);
            assert(e.push(x) =~= seq![x]);
            assert(e.to_multiset() =~= vstd::multiset::Multiset::<MovieSummary>::empty()) by {
                e.to_multiset_ensures();
            }
            vstd::seq_lib::lemma_multiset_commutative(front + seq![x], back);
            vstd::seq_lib::lemma_multiset_commutative(front, seq![x]);
            vstd::seq_lib::lemma_multiset_commutative(front, back);
            vstd::seq_lib::to_multiset_build(movies@.take(k as int), movies@[k as int]);
        }
        k = k + 1;
    }
    assert(movies@.take(n as int) =~= movies@);
    r
}


proof fn lemma_titled_witness(s: Seq<MovieSummary>, t: Seq<char>)
    requires
        titled(s, t).len() > 0,
    ensures
        exists|j: int| 0 <= j < s.len() && (#[trigger] s[j]).title@ == t,
    decreases s.len(),
{
    if s.len() == 0 {
        assert(titled(s, t) =~= Seq::<MovieSummary>::empty()) by {
            reveal(Seq::filter);
        }
    } else {
        let rest = s.drop_first();
        assert(s =~= seq![s[0]] + rest);
        rest.lemma_filter_prepend(s[0], title_is(t));
        if s[0].title@ != t {
            lemma_titled_witness(rest, t);
            let j = choose|j: int| 0 <= j < rest.len() && (#[trigger] rest[j]).title@ == t;
            assert(s[j + 1] == rest[j]);
        } else {
            assert(s[0].title@ == t);
        }
    }
}

/// The table order is fully determined by the list: two arrangements that
/// are both in table order and list the movies of each title in the same
/// order are the same. In particular the result of `sort_for_table` is the
/// only such arrangement, and sorting an already sorted table changes
/// nothing.
pub proof fn law_table_order_unique(a: Seq<MovieSummary>, b: Seq<MovieSummary>, ascending: bool)
    requires
        table_ordered(a, ascending),
        table_ordered(b, ascending),
        forall|t: Seq<char>| #[trigger] titled(a, t) == titled(b, t),
    ensures
        a == b,
    decreases a.len(),
{
    if a.len() == 0 || b.len() == 0 {
        if a.len() > 0 {
            let t = a[0].title@;
            assert(a =~= seq![a[0]] + a.drop_first());
            a.drop_first().lemma_filter_prepend(a[0], title_is(t));
            assert(titled(b, t) == titled(a, t));
            assert(b =~= Seq::<MovieSummary>::empty());
            assert(titled(b, t) =~= Seq::<MovieSummary>::empty()) by {
                reveal(Seq::filter);
            }
            assert(titled(a, t).len() > 0);
        } else if b.len() > 0 {
            let t = b[0].title@;
            assert(b =~= seq![b[0]] + b.drop_first());
            b.drop_first().lemma_filter_prepend(b[0], title_is(t));
            assert(titled(b, t) == titled(a, t));
            assert(a =~= Seq::<MovieSummary>::empty());
            assert(titled(a, t) =~= Seq::<MovieSummary>::empty()) by {
                reveal(Seq::filter);
            }
            assert(titled(b, t).len() > 0);
        } else {
            assert(a =~= b);
        }
    } else {
        let a1 = a.drop_first();
        let b1 = b.drop_first();
        let ta = a[0].title@;
        let tb = b[0].title@;
        assert(a =~= seq![a[0]] + a1);
        assert(b =~= seq![b[0]] + b1);
        // the first titles agree
        a1.lemma_filter_prepend(a[0], title_is(ta));
        b1.lemma_filter_prepend(b[0], title_is(tb));
        assert(titled(b, ta) == titled(a, ta));
        assert(titled(a, tb) == titled(b, tb));
        lemma_titled_witness(b, ta);
        lemma_titled_witness(a, tb);
        let jb = choose|j: int| 0 <= j < b.len() && (#[trigger] b[j]).title@ == ta;
        let ja = choose|j: int| 0 <= j < a.len() && (#[trigger] a[j]).title@ == tb;
        if jb > 0 {
            assert(!listed_before(b[jb], b[0], ascending));
        }
        if ja > 0 {
            assert(!listed_before(a[ja], a[0], ascending));
        }
        lemma_text_before_irreflexive(ta);
        lemma_text_before_irreflexive(tb);
        lemma_text_total(ta, tb);
        assert(ta == tb);
        // so do the first movies, and the rest
        a1.lemma_filter_prepend(a[0], title_is(ta));
        b1.lemma_filter_prepend(b[0], title_is(ta));
        assert(titled(a, ta) == titled(b, ta));
        assert(titled(a, ta)[0] == a[0]);
        assert(titled(b, ta)[0] == b[0]);
        assert forall|t: Seq<char>| #[trigger] titled(a1, t) == titled(b1, t) by {
            a1.lemma_filter_prepend(a[0], title_is(t));
            b1.lemma_filter_prepend(b[0], title_is(t));
            assert(titled(a, t) == titled(b, t));
            if ta == t {
                assert(titled(a, t) =~= seq![a[0]] + titled(a1, t));
                assert(titled(b, t) =~= seq![b[0]] + titled(b1, t));
                assert(titled(a1, t) =~= titled(a, t).drop_first());
                assert(titled(b1, t) =~= titled(b, t).drop_first());
            } else {
                assert(titled(a, t) =~= titled(a1, t));
                assert(titled(b, t) =~= titled(b1, t));
            }
        }
        assert(table_ordered(a1, ascending)) by {
            assert forall|i: int, j: int| 0 <= i < j < a1.len() implies !listed_before(
                #[trigger] a1[j],
                #[trigger] a1[i],
                ascending,
            ) by {
                assert(a1[i] == a[i + 1] && a1[j] == a[j + 1]);
            }
        }
        assert(table_ordered(b1, ascending)) by {
            assert forall|i: int, j: int| 0 <= i < j < b1.len() implies !listed_before(
                #[trigger] b1[j],
                #[trigger] b1[i],
                ascending,
            ) by {
                assert(b1[i] == b[i + 1] && b1[j] == b[j + 1]);
            }
        }
        law_table_order_unique(a1, b1, ascending);
        assert(a =~= b);
    }
}


/// Texts joined with a separator.
pub open spec fn joined_with(parts: Seq<Seq<char>>, sep: Seq<char>) -> Seq<char>
    decreases parts.len(),
{
    if parts.len() == 0 {
        Seq::<char>::empty()
    } else if parts.len() == 1 {
        parts[0]
    } else {
        joined_with(parts.drop_last(), sep) + sep + parts.last()
    }
}

/// The total length of some texts.
pub open spec fn total_length(parts: Seq<Seq<char>>) -> int
    decreases parts.len(),
{
    if parts.len() == 0 {
        0
    } else {
        total_length(parts.drop_last()) + parts.last().len()
    }
}

proof fn lemma_total_length_prepend(x: Seq<char>, parts: Seq<Seq<char>>)
    ensures
        total_length(seq![x] + parts) == x.len() + total_length(parts),
    decreases parts.len(),
{
    if parts.len() > 0 {
        assert((seq![x] + parts).drop_last() =~= seq![x] + parts.drop_last());
        lemma_total_length_prepend(x, parts.drop_last());
    } else {
        assert((seq![x] + parts).drop_last() =~= Seq::<Seq<char>>::empty());
    }
}

proof fn lemma_joined_prepend(x: Seq<char>, parts: Seq<Seq<char>>, sep: Seq<char>)
    requires
        parts.len() > 0,
    ensures
        joined_with(seq![x] + parts, sep) == x + sep + joined_with(parts, sep),
    decreases parts.len(),
{
    let all = seq![x] + parts;
    if parts.len() == 1 {
        assert(all.drop_last() =~= seq![x]);
        assert(all.last() == parts[0]);
        assert(joined_with(seq![x], sep) == x);
    } else {
        assert(all.drop_last() =~= seq![x] + parts.drop_last());
        lemma_joined_prepend(x, parts.drop_last(), sep);
        assert(joined_with(seq![x] + parts.drop_last(), sep) + sep + parts.last() =~= x + sep + (
        joined_with(parts.drop_last(), sep) + sep + parts.last()));
    }
}

/// Joining puts the separator between every two neighbouring texts and
/// nowhere else: a first text followed by the rest is that text, the
/// separator and the rest joined; and the joined text is as long as all
/// the texts together plus one separator for each of the `n - 1` gaps.
pub proof fn law_join_separates_every_pair(x: Seq<char>, parts: Seq<Seq<char>>, sep: Seq<char>)
    ensures
        parts.len() > 0 ==> joined_with(seq![x] + parts, sep) == x + sep + joined_with(parts, sep),
        parts.len() > 0 ==> joined_with(parts, sep).len() == total_length(parts) + (parts.len()
            - 1) * sep.len(),
    decreases parts.len(),
{
    if parts.len() > 0 {
        lemma_joined_prepend(x, parts, sep);
        let n = parts.len() as int;
        if n == 1 {
            assert(parts.drop_last().len() == 0);
            assert(total_length(parts.drop_last()) == 0);
            assert(total_length(parts) == parts[0].len());
            assert(joined_with(parts, sep) == parts[0]);
            assert((n - 1) * (sep.len() as int) == 0) by (nonlinear_arith)
                requires
                    n == 1,
            ;
        } else {
            law_join_separates_every_pair(x, parts.drop_last(), sep);
            let k = sep.len() as int;
            assert((n - 1) * k == (n - 2) * k + k) by (nonlinear_arith);
            assert(joined_with(parts, sep) == joined_with(parts.drop_last(), sep) + sep
                + parts.last());
            assert(total_length(parts) == total_length(parts.drop_last()) + parts.last().len());
            assert(parts.drop_last().len() == n - 1);
            assert(joined_with(parts.drop_last(), sep).len() == total_length(parts.drop_last()) + (n
                - 2) * k);
        }
        assert(joined_with(parts, sep).len() == total_length(parts) + (n - 1) * (sep.len() as int));
    }
}

/// A number in decimal, or a dash when unknown.
pub open spec fn decimal_or_dash(v: Option<u16>) -> Seq<char> {
    match v {
        Some(n) => crate::number::decimal(n as nat),
        None => "—"@,
    }
}

/// A number in decimal, or nothing when unknown.
pub open spec fn decimal_or_empty(v: Option<u16>) -> Seq<char> {
    match v {
        Some(n) => crate::number::decimal(n as nat),
        None => Seq::<char>::empty(),
    }
}

/// A text, or nothing when absent.
pub open spec fn text_or_empty(v: Option<String>) -> Seq<char> {
    match v {
        Some(t) => t@,
        None => Seq::<char>::empty(),
    }
}

/// The texts of the movie detail screen.
#[derive(Debug, Clone, PartialEq, Eq)]
pub struct DetailText {
    /// The heading: the title.
    pub heading: String,
    /// `Original: ...` when the original title differs from the title.
    pub original: Option<String>,
    /// Slug, year and runtime.
    pub facts: String,
    /// `Genres: ...` when the movie has genres.
    pub genres: Option<String>,
    /// Whether the movie is a favorite.
    pub favorite: String,
    /// The file name and relative path.
    pub file: String,
    /// The year field: the year, or empty.
    pub year_field: String,
    /// The TMDB id field, or empty.
    pub tmdb_field: String,
    /// The IMDb id field, or empty.
    pub imdb_field: String,
    /// The summary field, or empty.
    pub summary_field: String,
}

fn decimal_text(v: Option<u16>, missing: &str) -> (r: String)
    ensures
        r@ == (match v {
            Some(n) => crate::number::decimal(n as nat),
            None => missing@,
        }),
{
    match v {
        Some(n) => {
            let d = crate::number::decimal_chars(n as u64);
            string_from_chars(d.as_slice())
        },
        None => String::from_str(missing),
    }
}

fn text_or_empty_of(v: &Option<String>) -> (r: String)
    ensures
        r@ == text_or_empty(*v),
{
    match v {
        Some(t) => t.clone(),
        None => String::new(),
    }
}

/// Joins texts with a separator.
pub fn join_texts(parts: &[String], sep: &str) -> (r: String)
    ensures
        r@ == joined_with(parts@.map_values(|p: String| p@), sep@),
{
    let ghost views = parts@.map_values(|p: String| p@);
    let mut r = String::new();
    let mut k: usize = 0;
    while k < parts.len()
        invariant
            k <= parts@.len(),
            views == parts@.map_values(|p: String| p@),
            r@ == joined_with(views.take(k as int), sep@),
        decreases parts@.len() - k,
    {
        let ghost before = r@;
        if k > 0 {
            r.append(sep);
        }
        r.append(parts[k].as_str());
        assert(views.take(k + 1).drop_last() =~= views.take(k as int));
        assert(views.take(k + 1).last() == parts@[k as int]@);
        if k == 0 {
            assert(views.take(1) =~= seq![parts@[0]@]);
        }
        k = k + 1;
    }
    assert(views.take(parts@.len() as int) =~= views);
    r
}

impl MovieDetailPanel {
    /// The texts that the detail screen shows for a movie.
    pub fn text(&self, movie: &MovieDetail) -> (r: DetailText)
        ensures
            r.heading == movie.title,
            (movie.original_title matches Some(o) && o@ != movie.title@) ==> (r.original matches Some(
                t,
            ) && t@ == "Original: "@ + movie.original_title->0@),
            !(movie.original_title matches Some(o) && o@ != movie.title@) ==> r.original is None,
            r.facts@ == "Slug: "@ + movie.slug@ + "  ·  Year: "@ + decimal_or_dash(movie.year)
                + "  ·  Runtime: "@ + decimal_or_dash(movie.runtime_minutes) + " min"@,
            movie.genres@.len() > 0 ==> (r.genres matches Some(g) && g@ == "Genres: "@ + joined_with(
                movie.genres@.map_values(|p: String| p@),
                ", "@,
            )),
            movie.genres@.len() == 0 ==> r.genres is None,
            r.favorite@ == "Favorite: "@ + (if movie.is_favorite {
                "yes"@
            } else {
                "no"@
            }),
            r.file@ == "File: "@ + movie.file.filename@ + " ("@ + movie.file.relative_path@ + ")"@,
            r.year_field@ == decimal_or_empty(movie.year),
            r.tmdb_field@ == text_or_empty(movie.tmdb_id),
            r.imdb_field@ == text_or_empty(movie.imdb_id),
            r.summary_field@ == text_or_empty(movie.summary),
    {
        let original = match &movie.original_title {
            Some(o) => {
                let oc = chars_of(o.as_str());
                let tc = chars_of(movie.title.as_str());
                if crate::text::chars_equal(oc.as_slice(), tc.as_slice()) {
                    None
                } else {
                    let mut t = String::from_str("Original: ");
                    t.append(o.as_str());
                    Some(t)
                }
            },
            None => None,
        };
        proof {
            reveal_strlit("");
        }
        let mut facts = String::from_str("Slug: ");
        facts.append(movie.slug.as_str());
        facts.append("  ·  Year: ");
        let year = decimal_text(movie.year, "—");
        facts.append(year.as_str());
        facts.append("  ·  Runtime: ");
        let runtime = decimal_text(movie.runtime_minutes, "—");
        facts.append(runtime.as_str());
        facts.append(" min");
        let genres = if movie.genres.len() > 0 {
            let mut g = String::from_str("Genres: ");
            let j = join_texts(movie.genres.as_slice(), ", ");
            g.append(j.as_str());
            Some(g)
        } else {
            None
        };
        let mut favorite = String::from_str("Favorite: ");
        if movie.is_favorite {
            favorite.append("yes");
        } else {
            favorite.append("no");
        }
        let mut file = String::from_str("File: ");
        file.append(movie.file.filename.as_str());
        file.append(" (");
        file.append(movie.file.relative_path.as_str());
        file.append(")");
        DetailText {
            heading: movie.title.clone(),
            original,
            facts,
            genres,
            favorite,
            file,
            year_field: decimal_text(movie.year, ""),
            tmdb_field: text_or_empty_of(&movie.tmdb_id),
            imdb_field: text_or_empty_of(&movie.imdb_id),
            summary_field: text_or_empty_of(&movie.summary),
        }
    }
}

/// The letter shown in place of a missing poster: the first character of
/// the title, or `?` for an empty title.
pub fn poster_initial(title: &str) -> (c: char)
    ensures
        title@.len() > 0 ==> c == title@[0],
        title@.len() == 0 ==> c == '?',
{
    let v = chars_of(title);
    if v.len() > 0 {
        v[0]
    } else {
        '?'
    }
}

/// The poster shown for a movie: its poster URL when present and not empty.
pub fn poster_to_show(poster_url: &Option<String>) -> (r: Option<&str>)
    ensures
        (poster_url matches Some(u) && u@.len() > 0) ==> (r matches Some(s) && s@
            == poster_url->0@),
        !(poster_url matches Some(u) && u@.len() > 0) ==> r is None,
{
    match poster_url {
        Some(u) => {
            if u.as_str().is_empty() {
                None
            } else {
                Some(u.as_str())
            }
        },
        None => None,
    }
}

/// The texts of one table row: title, year (or nothing), runtime in
/// minutes and the summary cut to 120 characters.
#[derive(Debug, Clone, PartialEq, Eq)]
pub struct TableRowText {
    pub title: String,
    pub year: String,
    pub runtime: String,
    pub summary: String,
}

impl MoviesTable {
    /// The texts of a movie's row.
    pub fn row_text(&self, movie: &MovieSummary) -> (r: TableRowText)
        ensures
            r.title == movie.title,
            r.year@ == decimal_or_empty(movie.year),
            r.runtime@ == crate::number::decimal(movie.runtime_minutes as nat) + " min"@,
            r.summary@ == truncated_spec(movie.summary@, 120),
    {
        proof {
            reveal_strlit("");
        }
        let mut runtime = decimal_text(Some(movie.runtime_minutes), "");
        runtime.append(" min");
        TableRowText {
            title: movie.title.clone(),
            year: decimal_text(movie.year, ""),
            runtime,
            summary: truncate_summary(movie.summary.as_str(), 120),
        }
    }

    /// The header text of the title column, with the direction of the order.
    pub fn title_header(&self) -> (r: &'static str)
        ensures
            r@ == (if self.sort_title_asc {
                "Title ↑"@
            } else {
                "Title ↓"@
            }),
    {
        if self.sort_title_asc {
            "Title ↑"
        } else {
            "Title ↓"
        }
    }

    /// The movies in the order the table lists them.
    pub fn ordered(&self, movies: &[MovieSummary]) -> (r: Vec<MovieSummary>)
        ensures
            table_ordered(r@, self.sort_title_asc),
            forall|t: Seq<char>| #[trigger] titled(r@, t) == titled(movies@, t),
    {
        sort_for_table(movies, self.sort_title_asc)
    }
}


/// The URL of an API path on the server.
pub fn api_url(base_url: &str, path: &str) -> (r: String)
    ensures
        r@ == base_url@ + path@,
{
    let mut url = String::from_str(base_url);
    url.append(path);
    url
}

} // verus!
