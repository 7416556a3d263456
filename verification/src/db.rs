//! Library catalogue rules: list queries and their pagination, the columns
//! of stored rows turned into records, genre lists, watch progress.

use vstd::prelude::*;

use crate::models::{CastMemberDto, CrewMemberDto};
use crate::text::{string_from_chars, trim, trim_chars};

verus! {

/// Sort order for movie lists.
#[derive(Debug, Clone, Copy, PartialEq, Eq, Structural)]
pub enum MovieSort {
    /// Alphabetical by title.
    Title,
    /// Release year descending.
    Year,
    /// Recently scanned files first.
    RecentlyAdded,
}

impl Default for MovieSort {
    fn default() -> (r: Self)
        ensures
            r == MovieSort::Title,
    {
        MovieSort::Title
    }
}

/// Query parameters for paginated movie lists.
#[derive(Debug, Clone, PartialEq, Eq)]
pub struct MovieListQuery {
    /// 1-based page number.
    pub page: u32,
    /// Page size.
    pub limit: u32,
    /// Sort order.
    pub sort: MovieSort,
    /// Optional genre filter.
    pub genre: Option<String>,
}

/// The number of rows that come before page `page` (pages count from 1;
/// page 0 is read as page 1).
pub open spec fn offset_spec(page: u32, limit: u32) -> int {
    if page == 0 {
        0
    } else {
        (page - 1) * limit
    }
}

impl MovieListQuery {
    /// Default list query (page 1, 50 items, title sort).
    pub fn default_list() -> (r: Self)
        ensures
            r.page == 1,
            r.limit == 50,
            r.sort == MovieSort::Title,
            r.genre.is_none(),
    {
        MovieListQuery { page: 1, limit: 50, sort: MovieSort::Title, genre: None }
    }

    /// The first page of the most recently scanned movies.
    pub fn recently_added(limit: u32) -> (r: Self)
        ensures
            r.page == 1,
            r.limit == limit,
            r.sort == MovieSort::RecentlyAdded,
            r.genre.is_none(),
    {
        MovieListQuery { page: 1, limit, sort: MovieSort::RecentlyAdded, genre: None }
    }

    /// The first page of the movies of one genre, by title.
    pub fn by_genre(genre: &str, limit: u32) -> (r: Self)
        ensures
            r.page == 1,
            r.limit == limit,
            r.sort == MovieSort::Title,
            r.genre.is_some() && r.genre.unwrap()@ == genre@,
    {
        MovieListQuery { page: 1, limit, sort: MovieSort::Title, genre: Some(genre.to_owned()) }
    }

    /// The number of rows skipped before this page.
    pub fn offset(&self) -> (r: u32)
        requires
            offset_spec(self.page, self.limit) <= u32::MAX,
        ensures
            r == offset_spec(self.page, self.limit),
    {
        let skipped = if self.page == 0 {
            0
        } else {
            self.page - 1
        };
        assert(skipped * self.limit == offset_spec(self.page, self.limit));
        skipped * self.limit
    }
}

/// The `ORDER BY` clause of a movie list in each sort order.
pub open spec fn order_clause_spec(sort: MovieSort) -> Seq<char> {
    match sort {
        MovieSort::Title => "m.title COLLATE NOCASE ASC"@,
        MovieSort::Year => "m.year DESC, m.title COLLATE NOCASE ASC"@,
        MovieSort::RecentlyAdded => "lf.scanned_at DESC, m.title COLLATE NOCASE ASC"@,
    }
}

/// The `ORDER BY` clause for a sort order: title is the tie-breaker of
/// every order.
pub fn order_clause(sort: MovieSort) -> (r: &'static str)
    ensures
        r@ == order_clause_spec(sort),
{
    match sort {
        MovieSort::Title => "m.title COLLATE NOCASE ASC",
        MovieSort::Year => "m.year DESC, m.title COLLATE NOCASE ASC",
        MovieSort::RecentlyAdded => "lf.scanned_at DESC, m.title COLLATE NOCASE ASC",
    }
}

/// Genre name with movie count.
#[derive(Debug, Clone, PartialEq, Eq)]
pub struct GenreCount {
    /// Genre label.
    pub name: String,
    /// Number of movies tagged with this genre.
    pub count: u32,
}

/// Watch progress payload.
#[derive(Debug, Clone, Copy, PartialEq, Eq, Structural)]
pub struct WatchProgress {
    /// Playback position in seconds.
    pub position_seconds: u32,
    /// Total duration in seconds when known.
    pub duration_seconds: Option<u32>,
}

/// A movie counts as watched to the end once the position is past nine
/// tenths of a known, non-zero duration.
pub open spec fn finished_spec(position: u32, duration: Option<u32>) -> bool {
    match duration {
        Some(d) => d > 0 && 10 * position > 9 * d,
        None => false,
    }
}

/// Whether a saved position finishes the movie. The test is exact integer
/// arithmetic; for 32-bit values it agrees with comparing the quotient
/// `position / duration` against `0.9` in double precision.
pub fn is_finished(position: u32, duration: Option<u32>) -> (b: bool)
    ensures
        b == finished_spec(position, duration),
{
    match duration {
        Some(d) => d > 0 && 10 * (position as u64) > 9 * (d as u64),
        None => false,
    }
}

/// What saving progress does to the stored row of a movie.
#[derive(Debug, Clone, Copy, PartialEq, Eq, Structural)]
pub enum ProgressWrite {
    /// The movie was watched to the end: its progress row is removed.
    Clear,
    /// The position and duration are stored (inserted or replaced).
    Store { position_seconds: u32, duration_seconds: Option<u32> },
}

/// The stored progress of a movie is cleared when the movie is finished,
/// else set to the reported position and duration.
pub open spec fn progress_write_spec(position: u32, duration: Option<u32>) -> ProgressWrite {
    if finished_spec(position, duration) {
        ProgressWrite::Clear
    } else {
        ProgressWrite::Store { position_seconds: position, duration_seconds: duration }
    }
}

/// The change that saving `progress` makes to the progress of its movie.
pub fn progress_write(progress: &WatchProgress) -> (w: ProgressWrite)
    ensures
        w == progress_write_spec(progress.position_seconds, progress.duration_seconds),
{
    if is_finished(progress.position_seconds, progress.duration_seconds) {
        ProgressWrite::Clear
    } else {
        ProgressWrite::Store {
            position_seconds: progress.position_seconds,
            duration_seconds: progress.duration_seconds,
        }
    }
}

/// The pieces of `s` between the separators `sep` (at least one piece;
/// what `str::split(sep)` yields).
pub open spec fn split_on(s: Seq<char>, sep: char) -> Seq<Seq<char>>
    decreases s.len(),
{
    if s.len() == 0 {
        seq![Seq::<char>::empty()]
    } else {
        let pieces = split_on(s.drop_last(), sep);
        if s.last() == sep {
            pieces.push(Seq::<char>::empty())
        } else {
            pieces.update(pieces.len() - 1, pieces.last().push(s.last()))
        }
    }
}

/// The trimmed pieces that are not empty, in order.
pub open spec fn nonempty_trimmed(pieces: Seq<Seq<char>>) -> Seq<Seq<char>>
    decreases pieces.len(),
{
    if pieces.len() == 0 {
        Seq::<Seq<char>>::empty()
    } else {
        let rest = nonempty_trimmed(pieces.drop_last());
        let t = trim(pieces.last());
        if t.len() > 0 {
            rest.push(t)
        } else {
            rest
        }
    }
}

/// The genres in a stored comma-separated genre list: each piece trimmed,
/// empty pieces dropped; no list gives no genres.
pub open spec fn genres_spec(raw: Option<Seq<char>>) -> Seq<Seq<char>> {
    match raw {
        Some(s) => nonempty_trimmed(split_on(s, ',')),
        None => Seq::<Seq<char>>::empty(),
    }
}

proof fn lemma_split_on_nonempty(s: Seq<char>, sep: char)
    ensures
        split_on(s, sep).len() >= 1,
    decreases s.len(),
{
    if s.len() > 0 {
        lemma_split_on_nonempty(s.drop_last(), sep);
    }
}

/// Appends the trimmed `piece` to `out` when it is not empty.
fn push_trimmed(out: &mut Vec<String>, piece: &[char], ghost_done: Ghost<Seq<Seq<char>>>)
    requires
        old(out).deep_view() == nonempty_trimmed(ghost_done@),
    ensures
        final(out).deep_view() == nonempty_trimmed(ghost_done@.push(piece@)),
{
    let t = trim_chars(piece);
    let ghost all = ghost_done@.push(piece@);
    assert(all.drop_last() =~= ghost_done@);
    if t.len() > 0 {
        let ghost before = out.deep_view();
        out.push(string_from_chars(t.as_slice()));
        assert(out.deep_view() =~= before.push(t@));
    }
}

/// Splits a stored comma-separated genre list into genre names.
pub fn parse_genres(raw: Option<String>) -> (r: Vec<String>)
    ensures
        r.deep_view() == genres_spec(raw.deep_view()),
{
    let mut out: Vec<String> = Vec::new();
    match raw {
        None => {
            assert(out.deep_view() =~= Seq::<Seq<char>>::empty());
            out
        },
        Some(value) => {
            let v = crate::text::chars_of(value.as_str());
            let ghost mut done: Seq<Seq<char>> = Seq::empty();
            let mut cur: Vec<char> = Vec::new();
            assert(v@.take(0) =~= Seq::<char>::empty());
            assert(split_on(Seq::<char>::empty(), ',') =~= done.push(cur@));
            assert(out.deep_view() =~= Seq::<Seq<char>>::empty());
            let n = v.len();
            let mut k: usize = 0;
            while k < n
                invariant
                    k <= n,
                    n == v@.len(),
                    split_on(v@.take(k as int), ',') == done.push(cur@),
                    out.deep_view() == nonempty_trimmed(done),
                decreases n - k,
            {
                let c = v[k];
                let ghost prefix = v@.take(k as int);
                assert(v@.take(k + 1).drop_last() =~= prefix);
                assert(v@.take(k + 1).last() == c);
                if c == ',' {
                    push_trimmed(&mut out, cur.as_slice(), Ghost(done));
                    proof {
                        done = done.push(cur@);
                    }
                    cur = Vec::new();
                    assert(split_on(v@.take(k + 1), ',') =~= done.push(cur@));
                } else {
                    let ghost old_cur = cur@;
                    cur.push(c);
                    assert(done.push(old_cur).update(done.len() as int, old_cur.push(c))
                        =~= done.push(cur@));
                }
                k = k + 1;
            }
            assert(v@.take(n as int) =~= v@);
            assert(value@ == v@);
            push_trimmed(&mut out, cur.as_slice(), Ghost(done));
            out
        },
    }
}

/// Existing file row used for incremental scan decisions.
#[derive(Debug, Clone, PartialEq, Eq)]
pub struct StoredFile {
    /// Movie id.
    pub movie_id: String,
    /// Path relative to media root.
    pub relative_path: String,
    /// File size in bytes.
    pub size_bytes: u64,
    /// Last modification time.
    pub modified_secs: Option<u64>,
    /// Last scan timestamp.
    pub scanned_at: u64,
}


/// One movie of the library as the catalogue holds it.
#[derive(Debug, Clone, PartialEq, Eq)]
pub struct LoonMovieRecord {
    /// Stable media id.
    pub media_id: String,
    /// Path of the video file relative to the media root.
    pub relative_path: String,
    /// URL-safe movie identifier.
    pub slug: String,
    /// Display title.
    pub title: String,
    /// Original title.
    pub original_title: Option<String>,
    /// Release year.
    pub year: Option<u16>,
    /// Runtime in minutes.
    pub runtime_minutes: Option<u16>,
    /// Plot summary.
    pub summary: Option<String>,
    /// Genre names.
    pub genres: Vec<String>,
    /// Poster image URL.
    pub poster_url: Option<String>,
    /// Backdrop image URL.
    pub backdrop_url: Option<String>,
    /// Cast members.
    pub cast: Vec<CastMemberDto>,
    /// Crew members.
    pub crew: Vec<CrewMemberDto>,
    /// TMDB id.
    pub tmdb_id: Option<String>,
    /// IMDb id.
    pub imdb_id: Option<String>,
    /// Whether the TMDB match was set by hand and must not be replaced.
    pub tmdb_locked: bool,
    /// Unix time of the scan that saw the file.
    pub scanned_at: u64,
    /// File size in bytes.
    pub size_bytes: Option<u64>,
    /// File modification time.
    pub modified_secs: Option<u64>,
    /// Whether the movie is a favorite.
    pub is_favorite: bool,
    /// Saved watch position in seconds.
    pub watch_progress_seconds: Option<u32>,
    /// Duration saved with the watch position.
    pub watch_duration_seconds: Option<u32>,
}

/// The columns of one joined movie row as the database returns them, with
/// the cast and crew lists already decoded from their JSON columns.
#[derive(Debug, Clone, PartialEq, Eq)]
pub struct MovieRow {
    pub media_id: String,
    pub relative_path: String,
    pub slug: String,
    pub title: String,
    pub original_title: Option<String>,
    pub year: Option<u16>,
    pub runtime_seconds: Option<i64>,
    pub summary: Option<String>,
    pub poster_url: Option<String>,
    pub backdrop_url: Option<String>,
    pub cast: Vec<CastMemberDto>,
    pub crew: Vec<CrewMemberDto>,
    pub tmdb_id: Option<String>,
    pub imdb_id: Option<String>,
    pub tmdb_locked: i64,
    pub scanned_at: i64,
    pub size_bytes: i64,
    pub modified_secs: Option<u64>,
    pub is_favorite: i64,
    pub position_seconds: Option<i64>,
    pub duration_seconds: Option<i64>,
    pub genres: Option<String>,
}

/// Division of a signed integer by a positive one, rounding toward zero
/// (what `/` does on Rust integers).
pub open spec fn trunc_div(a: int, b: int) -> int {
    if a >= 0 {
        a / b
    } else {
        -((-a) / b)
    }
}

/// Whole minutes of a stored runtime in seconds, kept to 16 bits.
pub open spec fn runtime_minutes_spec(seconds: Option<i64>) -> Option<u16> {
    match seconds {
        Some(s) => Some(trunc_div(s as int, 60) as u16),
        None => None,
    }
}

/// A stored 64-bit value read as 32 bits (its low 32 bits).
pub open spec fn low_u32(v: Option<i64>) -> Option<u32> {
    match v {
        Some(x) => Some(x as u32),
        None => None,
    }
}

fn runtime_minutes_of(seconds: Option<i64>) -> (r: Option<u16>)
    ensures
        r == runtime_minutes_spec(seconds),
{
    match seconds {
        Some(s) => Some((s / 60) as u16),
        None => None,
    }
}

fn low_u32_of(v: Option<i64>) -> (r: Option<u32>)
    ensures
        r == low_u32(v),
{
    match v {
        Some(x) => Some(x as u32),
        None => None,
    }
}

/// Builds the catalogue record of one stored movie row: runtime seconds
/// become whole minutes, flags stored as integers are true when positive,
/// counters are read back as unsigned values, and the genre list is split.
pub fn record_from_row(row: MovieRow) -> (r: LoonMovieRecord)
    ensures
        r.media_id == row.media_id,
        r.relative_path == row.relative_path,
        r.slug == row.slug,
        r.title == row.title,
        r.original_title == row.original_title,
        r.year == row.year,
        r.runtime_minutes == runtime_minutes_spec(row.runtime_seconds),
        r.summary == row.summary,
        r.genres.deep_view() == genres_spec(row.genres.deep_view()),
        r.poster_url == row.poster_url,
        r.backdrop_url == row.backdrop_url,
        r.cast == row.cast,
        r.crew == row.crew,
        r.tmdb_id == row.tmdb_id,
        r.imdb_id == row.imdb_id,
        r.tmdb_locked == (row.tmdb_locked > 0),
        r.scanned_at == row.scanned_at as u64,
        r.size_bytes == Some(row.size_bytes as u64),
        r.modified_secs == row.modified_secs,
        r.is_favorite == (row.is_favorite > 0),
        r.watch_progress_seconds == low_u32(row.position_seconds),
        r.watch_duration_seconds == low_u32(row.duration_seconds),
{
    let genres = parse_genres(row.genres);
    LoonMovieRecord {
        media_id: row.media_id,
        relative_path: row.relative_path,
        slug: row.slug,
        title: row.title,
        original_title: row.original_title,
        year: row.year,
        runtime_minutes: runtime_minutes_of(row.runtime_seconds),
        summary: row.summary,
        genres,
        poster_url: row.poster_url,
        backdrop_url: row.backdrop_url,
        cast: row.cast,
        crew: row.crew,
        tmdb_id: row.tmdb_id,
        imdb_id: row.imdb_id,
        tmdb_locked: row.tmdb_locked > 0,
        scanned_at: row.scanned_at as u64,
        size_bytes: Some(row.size_bytes as u64),
        modified_secs: row.modified_secs,
        is_favorite: row.is_favorite > 0,
        watch_progress_seconds: low_u32_of(row.position_seconds),
        watch_duration_seconds: low_u32_of(row.duration_seconds),
    }
}

/// The runtime column written for a record: its minutes as seconds.
pub fn runtime_seconds_column(minutes: Option<u16>) -> (r: Option<u32>)
    ensures
        r == (match minutes {
            Some(m) => Some((m * 60) as u32),
            None => None::<u32>,
        }),
{
    match minutes {
        Some(m) => Some(m as u32 * 60),
        None => None,
    }
}

/// The key of the file row of a movie: `file:` followed by its relative path.
pub fn file_row_id(relative_path: &str) -> (r: String)
    ensures
        r@ == "file:"@ + relative_path@,
{
    let mut r = String::from_str("file:");
    r.append(relative_path);
    r
}

/// `n` SQL parameter placeholders separated by `", "`.
pub open spec fn placeholders(n: nat) -> Seq<char>
    decreases n,
{
    if n == 0 {
        Seq::<char>::empty()
    } else if n == 1 {
        seq!['?']
    } else {
        placeholders((n - 1) as nat) + seq![',', ' ', '?']
    }
}

/// The placeholder list of an `IN (...)` clause with `n` values.
pub fn placeholder_list(n: usize) -> (r: String)
    ensures
        r@ == placeholders(n as nat),
{
    let mut v: Vec<char> = Vec::new();
    let mut k: usize = 0;
    while k < n
        invariant
            k <= n,
            v@ == placeholders(k as nat),
        decreases n - k,
    {
        if k > 0 {
            v.push(',');
            v.push(' ');
        }
        v.push('?');
        k = k + 1;
        assert(v@ =~= placeholders(k as nat));
    }
    string_from_chars(v.as_slice())
}

/// Builds a file row from its stored columns.
pub fn stored_file_from_row(
    movie_id: String,
    relative_path: String,
    size_bytes: i64,
    modified_secs: Option<u64>,
    scanned_at: i64,
) -> (r: StoredFile)
    ensures
        r.movie_id == movie_id,
        r.relative_path == relative_path,
        r.size_bytes == size_bytes as u64,
        r.modified_secs == modified_secs,
        r.scanned_at == scanned_at as u64,
{
    StoredFile {
        movie_id,
        relative_path,
        size_bytes: size_bytes as u64,
        modified_secs,
        scanned_at: scanned_at as u64,
    }
}

/// Builds a genre count from its stored columns.
pub fn genre_count_from_row(name: String, count: i64) -> (r: GenreCount)
    ensures
        r.name == name,
        r.count == count as u32,
{
    GenreCount { name, count: count as u32 }
}

/// A cached TMDB person.
#[derive(Debug, Clone, PartialEq, Eq)]
pub struct PersonRecord {
    pub tmdb_person_id: u32,
    pub name: String,
    pub biography: Option<String>,
    pub birthday: Option<String>,
    pub deathday: Option<String>,
    pub place_of_birth: Option<String>,
    pub profile_path: Option<String>,
    pub known_for_department: Option<String>,
    pub gender: Option<i32>,
    pub also_known_as: Vec<String>,
    pub updated_at: u64,
}

/// Builds a person record from its stored columns; the alternate names are
/// already decoded from their JSON column.
pub fn person_from_row(
    tmdb_person_id: i64,
    name: String,
    biography: Option<String>,
    birthday: Option<String>,
    deathday: Option<String>,
    place_of_birth: Option<String>,
    profile_path: Option<String>,
    known_for_department: Option<String>,
    gender: Option<i32>,
    also_known_as: Vec<String>,
    updated_at: i64,
) -> (r: PersonRecord)
    ensures
        r.tmdb_person_id == tmdb_person_id as u32,
        r.name == name,
        r.biography == biography,
        r.birthday == birthday,
        r.deathday == deathday,
        r.place_of_birth == place_of_birth,
        r.profile_path == profile_path,
        r.known_for_department == known_for_department,
        r.gender == gender,
        r.also_known_as == also_known_as,
        r.updated_at == updated_at as u64,
{
    PersonRecord {
        tmdb_person_id: tmdb_person_id as u32,
        name,
        biography,
        birthday,
        deathday,
        place_of_birth,
        profile_path,
        known_for_department,
        gender,
        also_known_as,
        updated_at: updated_at as u64,
    }
}


/// Genre names joined with `,` (what `GROUP_CONCAT` gives for the genre
/// rows of a movie).
pub open spec fn comma_joined(gs: Seq<Seq<char>>) -> Seq<char>
    decreases gs.len(),
{
    if gs.len() <= 1 {
        if gs.len() == 0 {
            Seq::<char>::empty()
        } else {
            gs[0]
        }
    } else {
        comma_joined(gs.drop_last()) + seq![','] + gs.last()
    }
}

/// A genre name that reads back as itself: not empty, no comma, no white
/// space at either end.
pub open spec fn clean_genre(g: Seq<char>) -> bool {
    g.len() > 0 && !g.contains(',') && trim(g) == g
}

proof fn lemma_split_on_concat(a: Seq<char>, b: Seq<char>, sep: char)
    ensures
        split_on(a + seq![sep] + b, sep) == split_on(a, sep) + split_on(b, sep),
    decreases b.len(),
{
    lemma_split_on_nonempty(a, sep);
    lemma_split_on_nonempty(b, sep);
    if b.len() == 0 {
        assert((a + seq![sep] + b).drop_last() =~= a);
        assert(a + seq![sep] + b =~= a + seq![sep]);
        assert(split_on(b, sep) =~= seq![Seq::<char>::empty()]);
        assert(split_on(a, sep).push(Seq::<char>::empty()) =~= split_on(a, sep) + seq![
            Seq::<char>::empty(),
        ]);
    } else {
        let b1 = b.drop_last();
        lemma_split_on_concat(a, b1, sep);
        lemma_split_on_nonempty(b1, sep);
        let whole = a + seq![sep] + b;
        assert(whole.drop_last() =~= a + seq![sep] + b1);
        assert(whole.last() == b.last());
        let pa = split_on(a, sep);
        let pb1 = split_on(b1, sep);
        if b.last() == sep {
            assert((pa + pb1).push(Seq::<char>::empty()) =~= pa + pb1.push(Seq::<char>::empty()));
        } else {
            let joined = pa + pb1;
            assert(joined.last() == pb1.last());
            assert(joined.update(joined.len() - 1, joined.last().push(b.last())) =~= pa
                + pb1.update(pb1.len() - 1, pb1.last().push(b.last())));
        }
    }
}

proof fn lemma_split_on_single(g: Seq<char>, sep: char)
    requires
        !g.contains(sep),
    ensures
        split_on(g, sep) == seq![g],
    decreases g.len(),
{
    if g.len() > 0 {
        let g1 = g.drop_last();
        assert(!g1.contains(sep)) by {
            if g1.contains(sep) {
                let i = choose|i: int| 0 <= i < g1.len() && g1[i] == sep;
                assert(g[i] == sep);
            }
        }
        lemma_split_on_single(g1, sep);
        assert(g.last() != sep) by {
            assert(g[g.len() - 1] == g.last());
        }
        assert(g1.push(g.last()) =~= g);
        assert(seq![g1].update(0, g1.push(g.last())) =~= seq![g]);
    } else {
        assert(g =~= Seq::<char>::empty());
    }
}

proof fn lemma_split_joined(gs: Seq<Seq<char>>)
    requires
        gs.len() >= 1,
        forall|i: int| 0 <= i < gs.len() ==> !(#[trigger] gs[i]).contains(','),
    ensures
        split_on(comma_joined(gs), ',') == gs,
    decreases gs.len(),
{
    if gs.len() == 1 {
        lemma_split_on_single(gs[0], ',');
        assert(seq![gs[0]] =~= gs);
    } else {
        let rest = gs.drop_last();
        assert forall|i: int| 0 <= i < rest.len() implies !(#[trigger] rest[i]).contains(',') by {
            assert(rest[i] == gs[i]);
        }
        lemma_split_joined(rest);
        assert(!gs[gs.len() - 1].contains(','));
        lemma_split_on_single(gs.last(), ',');
        lemma_split_on_concat(comma_joined(rest), gs.last(), ',');
        assert(rest + seq![gs.last()] =~= gs);
    }
}

proof fn lemma_nonempty_trimmed_clean(gs: Seq<Seq<char>>)
    requires
        forall|i: int| 0 <= i < gs.len() ==> clean_genre(#[trigger] gs[i]),
    ensures
        nonempty_trimmed(gs) == gs,
    decreases gs.len(),
{
    if gs.len() > 0 {
        let rest = gs.drop_last();
        assert forall|i: int| 0 <= i < rest.len() implies clean_genre(#[trigger] rest[i]) by {
            assert(rest[i] == gs[i]);
        }
        lemma_nonempty_trimmed_clean(rest);
        assert(clean_genre(gs[gs.len() - 1]));
        assert(rest.push(gs.last()) =~= gs);
    }
}

/// Reading back the genres written for a movie gives them again: genre
/// names that are not empty, hold no comma and have no surrounding white
/// space, joined with commas by the database, split into the same list;
/// a movie without genre rows reads back no genres.
pub proof fn law_genres_read_back(gs: Seq<Seq<char>>)
    requires
        forall|i: int| 0 <= i < gs.len() ==> clean_genre(#[trigger] gs[i]),
    ensures
        gs.len() > 0 ==> genres_spec(Some(comma_joined(gs))) == gs,
        genres_spec(None) == Seq::<Seq<char>>::empty(),
{
    if gs.len() > 0 {
        assert forall|i: int| 0 <= i < gs.len() implies !(#[trigger] gs[i]).contains(',') by {
            assert(clean_genre(gs[i]));
        }
        lemma_split_joined(gs);
        lemma_nonempty_trimmed_clean(gs);
    }
}

/// Reading back a stored runtime gives the minutes written: the runtime
/// column holds the minutes as seconds, and whole minutes of it are the
/// minutes again.
pub proof fn law_runtime_read_back(minutes: u16)
    ensures
        runtime_minutes_spec(Some((minutes * 60) as i64)) == Some(minutes),
{
}

/// Reading back a stored flag gives the flag written: it is stored as 1 or
/// 0 and read as "greater than zero".
pub proof fn law_flag_read_back(flag: bool)
    ensures
        ((if flag {
            1i64
        } else {
            0i64
        }) > 0) == flag,
{
}

/// Reading back stored counters gives the values written: a 64-bit
/// unsigned value stored as a signed one comes back unchanged, and so does
/// a 32-bit position or duration.
pub proof fn law_counter_read_back(value: u64, position: u32)
    ensures
        (value as i64) as u64 == value,
        low_u32(Some(position as i64)) == Some(position),
{
    assert((value as i64) as u64 == value) by (bit_vector);
    assert((position as i64) as u32 == position) by (bit_vector);
}


/// Pages follow one another: page 1 starts at the first row and each page
/// starts where the one before it ends.
pub proof fn law_pages_adjacent(page: u32, limit: u32)
    requires
        page >= 1,
        page < u32::MAX,
    ensures
        offset_spec(1, limit) == 0,
        offset_spec((page + 1) as u32, limit) == offset_spec(page, limit) + limit,
{
    assert(page * limit == (page - 1) * limit + limit) by (nonlinear_arith);
}


/// The progress columns of a movie row after a progress write: a removed
/// progress row leaves the joined columns empty, a stored one holds the
/// values written.
pub open spec fn progress_columns(w: ProgressWrite) -> (Option<i64>, Option<i64>) {
    match w {
        ProgressWrite::Clear => (None, None),
        ProgressWrite::Store { position_seconds, duration_seconds } => (
            Some(position_seconds as i64),
            match duration_seconds {
                Some(d) => Some(d as i64),
                None => None,
            },
        ),
    }
}

/// The favorites rows of a movie after its favorite state is written: one
/// when it is a favorite, none otherwise.
pub open spec fn favorite_rows(favorite: bool) -> i64 {
    if favorite {
        1
    } else {
        0
    }
}

/// The `LIKE` pattern of a title search: the query anywhere in the title.
pub fn like_pattern(query: &str) -> (r: String)
    ensures
        r@ == "%"@ + query@ + "%"@,
{
    let mut p = String::from_str("%");
    p.append(query);
    p.append("%");
    p
}


/// The columns of a movie row, from the joined movie, file, favorite,
/// progress and genre tables.
pub open spec fn movie_select_spec() -> Seq<char> {
    "SELECT m.id, lf.relative_path, m.slug, m.title, m.original_title, m.year, m.runtime_seconds, m.summary, m.poster_url, m.backdrop_url, m.cast_json, m.crew_json, m.tmdb_id, m.imdb_id, m.tmdb_locked, lf.scanned_at, lf.size_bytes, lf.modified_secs, EXISTS(SELECT 1 FROM favorites f WHERE f.movie_id = m.id) AS is_favorite, wp.position_seconds, wp.duration_seconds, (SELECT GROUP_CONCAT(mg.genre) FROM movie_genres mg WHERE mg.movie_id = m.id) AS genres"@
}

/// The select list of a movie row.
pub fn movie_select() -> (r: &'static str)
    ensures
        r@ == movie_select_spec(),
{
    "SELECT m.id, lf.relative_path, m.slug, m.title, m.original_title, m.year, m.runtime_seconds, m.summary, m.poster_url, m.backdrop_url, m.cast_json, m.crew_json, m.tmdb_id, m.imdb_id, m.tmdb_locked, lf.scanned_at, lf.size_bytes, lf.modified_secs, EXISTS(SELECT 1 FROM favorites f WHERE f.movie_id = m.id) AS is_favorite, wp.position_seconds, wp.duration_seconds, (SELECT GROUP_CONCAT(mg.genre) FROM movie_genres mg WHERE mg.movie_id = m.id) AS genres"
}

/// The query of a page of movies: with a genre, only movies of that genre
/// (parameter 1) and the page size and offset as parameters 2 and 3;
/// without, the page size and offset as parameters 1 and 2.
pub open spec fn movie_list_sql_spec(sort: MovieSort, by_genre: bool) -> Seq<char> {
    movie_select_spec() + " FROM movies m JOIN library_files lf ON lf.movie_id = m.id"@ + (
    if by_genre {
        " JOIN movie_genres mg ON mg.movie_id = m.id AND mg.genre = ?1"@
    } else {
        Seq::<char>::empty()
    }) + " LEFT JOIN watch_progress wp ON wp.movie_id = m.id ORDER BY "@ + order_clause_spec(sort)
        + (if by_genre {
        " LIMIT ?2 OFFSET ?3"@
    } else {
        " LIMIT ?1 OFFSET ?2"@
    })
}

/// A list orders by the requested sort whatever the genre filter: with and
/// without a genre the query selects the same columns from the same tables
/// and ends by ordering on the sort's clause, differing only by the genre
/// join and by the numbers of the page size and offset parameters.
pub proof fn law_list_order_follows_sort(sort: MovieSort)
    ensures
        ({
            let head = movie_select_spec()
                + " FROM movies m JOIN library_files lf ON lf.movie_id = m.id"@;
            let tail = " LEFT JOIN watch_progress wp ON wp.movie_id = m.id ORDER BY "@
                + order_clause_spec(sort);
            &&& movie_list_sql_spec(sort, false) == head + tail + " LIMIT ?1 OFFSET ?2"@
            &&& movie_list_sql_spec(sort, true) == head
                + " JOIN movie_genres mg ON mg.movie_id = m.id AND mg.genre = ?1"@ + tail
                + " LIMIT ?2 OFFSET ?3"@
        }),
{
    assert(Seq::<char>::empty() + " LEFT JOIN watch_progress wp ON wp.movie_id = m.id ORDER BY "@
        =~= " LEFT JOIN watch_progress wp ON wp.movie_id = m.id ORDER BY "@);
}

/// Each sort orders first by its own column, newest first for the year and
/// for recently added, and breaks ties by title, A to Z, ignoring case; no
/// two sorts share a clause.
pub proof fn law_order_clauses(a: MovieSort, b: MovieSort)
    ensures
        order_clause_spec(MovieSort::Title) == "m.title COLLATE NOCASE ASC"@,
        order_clause_spec(MovieSort::Year) == "m.year DESC, "@ + order_clause_spec(MovieSort::Title),
        order_clause_spec(MovieSort::RecentlyAdded) == "lf.scanned_at DESC, "@ + order_clause_spec(
            MovieSort::Title,
        ),
        a != b ==> order_clause_spec(a) != order_clause_spec(b),
{
    reveal_strlit("m.title COLLATE NOCASE ASC");
    reveal_strlit("m.year DESC, m.title COLLATE NOCASE ASC");
    reveal_strlit("lf.scanned_at DESC, m.title COLLATE NOCASE ASC");
    reveal_strlit("m.year DESC, ");
    reveal_strlit("lf.scanned_at DESC, ");
    assert("m.year DESC, m.title COLLATE NOCASE ASC"@ =~= "m.year DESC, "@
        + "m.title COLLATE NOCASE ASC"@);
    assert("lf.scanned_at DESC, m.title COLLATE NOCASE ASC"@ =~= "lf.scanned_at DESC, "@
        + "m.title COLLATE NOCASE ASC"@);
    assert("m.title COLLATE NOCASE ASC"@[2] != "m.year DESC, m.title COLLATE NOCASE ASC"@[2]);
    assert("m.title COLLATE NOCASE ASC"@[0] != "lf.scanned_at DESC, m.title COLLATE NOCASE ASC"@[0]);
    assert("m.year DESC, m.title COLLATE NOCASE ASC"@[0]
        != "lf.scanned_at DESC, m.title COLLATE NOCASE ASC"@[0]);
}

/// Builds the query of a page of movies.
pub fn movie_list_sql(query: &MovieListQuery) -> (r: String)
    ensures
        r@ == movie_list_sql_spec(query.sort, query.genre is Some),
{
    proof {
        reveal_strlit("");
    }
    let mut sql = String::from_str(movie_select());
    sql.append(" FROM movies m JOIN library_files lf ON lf.movie_id = m.id");
    let by_genre = query.genre.is_some();
    if by_genre {
        sql.append(" JOIN movie_genres mg ON mg.movie_id = m.id AND mg.genre = ?1");
    }
    sql.append(" LEFT JOIN watch_progress wp ON wp.movie_id = m.id ORDER BY ");
    sql.append(order_clause(query.sort));
    if by_genre {
        sql.append(" LIMIT ?2 OFFSET ?3");
    } else {
        sql.append(" LIMIT ?1 OFFSET ?2");
    }
    sql
}

/// The statement that removes the files of a library not seen by a scan:
/// all of them when the scan saw none, else those whose path is not among
/// the `seen` paths bound after the library id.
pub open spec fn orphan_delete_sql_spec(seen: nat) -> Seq<char> {
    if seen == 0 {
        "DELETE FROM library_files WHERE library_id = ?1"@
    } else {
        "DELETE FROM library_files WHERE library_id = ?1 AND relative_path NOT IN ("@
            + placeholders(seen) + ")"@
    }
}

/// Builds the statement that removes unseen files.
pub fn orphan_delete_sql(seen: usize) -> (r: String)
    ensures
        r@ == orphan_delete_sql_spec(seen as nat),
{
    if seen == 0 {
        String::from_str("DELETE FROM library_files WHERE library_id = ?1")
    } else {
        let mut sql = String::from_str(
            "DELETE FROM library_files WHERE library_id = ?1 AND relative_path NOT IN (",
        );
        let p = placeholder_list(seen);
        sql.append(p.as_str());
        sql.append(")");
        sql
    }
}

} // verus!
