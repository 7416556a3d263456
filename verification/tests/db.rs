use loon::db::{
    file_row_id, genre_count_from_row, is_finished, like_pattern, movie_list_sql, movie_select,
    order_clause, orphan_delete_sql, parse_genres,
    person_from_row, placeholder_list, progress_write, record_from_row, runtime_seconds_column,
    stored_file_from_row, MovieListQuery, MovieRow, MovieSort, ProgressWrite, WatchProgress,
};
use loon::models::CastMemberDto;

#[test]
fn default_list_is_first_page_by_title() {
    let q = MovieListQuery::default_list();
    assert_eq!(q.offset(), 0);
    assert_eq!((q.page, q.limit, q.sort, q.genre), (1, 50, MovieSort::Title, None));
    assert_eq!(MovieSort::default(), MovieSort::Title);
}

#[test]
fn offsets_of_pages() {
    let mut q = MovieListQuery::default_list();
    q.page = 3;
    q.limit = 20;
    assert_eq!(q.offset(), 40);
    q.page = 0;
    assert_eq!(q.offset(), 0);
    // consecutive pages are adjacent
    for page in 1..10u32 {
        let a = MovieListQuery { page, limit: 7, sort: MovieSort::Year, genre: None };
        let b = MovieListQuery { page: page + 1, limit: 7, sort: MovieSort::Year, genre: None };
        assert_eq!(b.offset(), a.offset() + 7);
    }
}

#[test]
fn query_builders() {
    let q = MovieListQuery::recently_added(12);
    assert_eq!((q.page, q.limit, q.sort, q.genre), (1, 12, MovieSort::RecentlyAdded, None));
    let q = MovieListQuery::by_genre("Drama", 8);
    assert_eq!((q.page, q.limit, q.sort), (1, 8, MovieSort::Title));
    assert_eq!(q.genre.as_deref(), Some("Drama"));
}

#[test]
fn order_clauses_break_ties_by_title() {
    assert_eq!(order_clause(MovieSort::Title), "m.title COLLATE NOCASE ASC");
    assert_eq!(order_clause(MovieSort::Year), "m.year DESC, m.title COLLATE NOCASE ASC");
    assert_eq!(
        order_clause(MovieSort::RecentlyAdded),
        "lf.scanned_at DESC, m.title COLLATE NOCASE ASC"
    );
}

#[test]
fn finished_movies() {
    assert!(is_finished(91, Some(100)));
    assert!(!is_finished(90, Some(100)));
    assert!(!is_finished(90, None));
    assert!(!is_finished(90, Some(0)));
    assert!(is_finished(u32::MAX, Some(u32::MAX)));
    assert!(is_finished(3_865_470_567, Some(4_294_967_295)));
    assert!(!is_finished(3_865_470_565, Some(4_294_967_295)));
    assert_eq!(
        progress_write(&WatchProgress { position_seconds: 95, duration_seconds: Some(100) }),
        ProgressWrite::Clear
    );
    assert_eq!(
        progress_write(&WatchProgress { position_seconds: 10, duration_seconds: None }),
        ProgressWrite::Store { position_seconds: 10, duration_seconds: None }
    );
}

#[test]
fn genres_are_split_and_trimmed() {
    assert_eq!(parse_genres(None), Vec::<String>::new());
    assert_eq!(parse_genres(Some(String::new())), Vec::<String>::new());
    assert_eq!(
        parse_genres(Some(" Action, Science Fiction ,,\tDrama ,".to_string())),
        vec!["Action".to_string(), "Science Fiction".to_string(), "Drama".to_string()]
    );
}

#[test]
fn genres_read_back_example() {
    let genres = vec!["Action".to_string(), "Drama".to_string(), "War".to_string()];
    let stored = genres.join(",");
    assert_eq!(parse_genres(Some(stored)), genres);
}

fn row(runtime: Option<i64>) -> MovieRow {
    MovieRow {
        media_id: "m1".into(),
        relative_path: "Alien (1979)/alien.mkv".into(),
        slug: "alien-1979".into(),
        title: "Alien".into(),
        original_title: None,
        year: Some(1979),
        runtime_seconds: runtime,
        summary: Some("In space...".into()),
        poster_url: None,
        backdrop_url: Some("https://img/b.jpg".into()),
        cast: vec![CastMemberDto { name: "Sigourney Weaver".into(), character: Some("Ripley".into()) }],
        crew: Vec::new(),
        tmdb_id: Some("348".into()),
        imdb_id: None,
        tmdb_locked: 1,
        scanned_at: 1_700_000_000,
        size_bytes: 4_000_000_000,
        modified_secs: Some(1_600_000_000),
        is_favorite: 0,
        position_seconds: Some(120),
        duration_seconds: None,
        genres: Some("Horror,Science Fiction".into()),
    }
}

#[test]
fn rows_become_records() {
    let r = record_from_row(row(Some(7020)));
    assert_eq!(r.runtime_minutes, Some(117));
    assert!(r.tmdb_locked);
    assert!(!r.is_favorite);
    assert_eq!(r.scanned_at, 1_700_000_000);
    assert_eq!(r.size_bytes, Some(4_000_000_000));
    assert_eq!(r.watch_progress_seconds, Some(120));
    assert_eq!(r.watch_duration_seconds, None);
    assert_eq!(r.genres, vec!["Horror".to_string(), "Science Fiction".to_string()]);
    assert_eq!(r.cast.len(), 1);
    assert_eq!(r.slug, "alien-1979");
}

#[test]
fn runtime_conversions() {
    assert_eq!(record_from_row(row(None)).runtime_minutes, None);
    assert_eq!(record_from_row(row(Some(59))).runtime_minutes, Some(0));
    assert_eq!(record_from_row(row(Some(-59))).runtime_minutes, Some(0));
    assert_eq!(record_from_row(row(Some(-61))).runtime_minutes, Some(u16::MAX));
    assert_eq!(runtime_seconds_column(Some(117)), Some(7020));
    assert_eq!(runtime_seconds_column(None), None);
    // read-back of every runtime
    for minutes in [0u16, 1, 90, 117, u16::MAX] {
        let seconds = runtime_seconds_column(Some(minutes)).unwrap() as i64;
        assert_eq!(record_from_row(row(Some(seconds))).runtime_minutes, Some(minutes));
    }
}

#[test]
fn counters_read_back() {
    let mut r = row(None);
    r.scanned_at = u64::MAX as i64;
    r.position_seconds = Some(u32::MAX as i64);
    let rec = record_from_row(r);
    assert_eq!(rec.scanned_at, u64::MAX);
    assert_eq!(rec.watch_progress_seconds, Some(u32::MAX));
}

#[test]
fn sql_fragments() {
    assert_eq!(file_row_id("a/b.mkv"), "file:a/b.mkv");
    assert_eq!(placeholder_list(0), "");
    assert_eq!(placeholder_list(1), "?");
    assert_eq!(placeholder_list(3), "?, ?, ?");
    assert_eq!(like_pattern("ali"), "%ali%");
}

#[test]
fn other_rows() {
    let f = stored_file_from_row("m1".into(), "x.mkv".into(), 12, None, 99);
    assert_eq!((f.size_bytes, f.scanned_at, f.modified_secs), (12, 99, None));
    let g = genre_count_from_row("Drama".into(), 4);
    assert_eq!((g.name.as_str(), g.count), ("Drama", 4));
    let p = person_from_row(
        85,
        "Jean Reno".into(),
        None,
        Some("1948-07-30".into()),
        None,
        None,
        None,
        Some("Acting".into()),
        Some(2),
        vec!["Juan Moreno".into()],
        1_700_000_000,
    );
    assert_eq!((p.tmdb_person_id, p.updated_at, p.gender), (85, 1_700_000_000, Some(2)));
    assert_eq!(p.also_known_as, vec!["Juan Moreno".to_string()]);
}

#[test]
fn list_and_delete_statements() {
    let select = movie_select();
    assert!(select.starts_with("SELECT m.id, lf.relative_path, m.slug"));
    assert!(select.ends_with("AS genres"));

    let plain = movie_list_sql(&MovieListQuery::default_list());
    assert_eq!(
        plain,
        format!(
            "{select} FROM movies m JOIN library_files lf ON lf.movie_id = m.id \
             LEFT JOIN watch_progress wp ON wp.movie_id = m.id ORDER BY m.title COLLATE NOCASE ASC \
             LIMIT ?1 OFFSET ?2"
        )
    );
    let genre = movie_list_sql(&MovieListQuery::by_genre("Drama", 10));
    assert_eq!(
        genre,
        format!(
            "{select} FROM movies m JOIN library_files lf ON lf.movie_id = m.id \
             JOIN movie_genres mg ON mg.movie_id = m.id AND mg.genre = ?1 \
             LEFT JOIN watch_progress wp ON wp.movie_id = m.id ORDER BY m.title COLLATE NOCASE ASC \
             LIMIT ?2 OFFSET ?3"
        )
    );
    let recent = movie_list_sql(&MovieListQuery::recently_added(5));
    assert!(recent.contains("ORDER BY lf.scanned_at DESC, m.title COLLATE NOCASE ASC LIMIT ?1"));

    assert_eq!(orphan_delete_sql(0), "DELETE FROM library_files WHERE library_id = ?1");
    assert_eq!(
        orphan_delete_sql(2),
        "DELETE FROM library_files WHERE library_id = ?1 AND relative_path NOT IN (?, ?)"
    );
}
