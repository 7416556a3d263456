use loon::api::{
    apply_favorite_change, artwork_kind, artwork_not_found, artwork_source, browse_allowed,
    catalog_progress, favorite_change, favorite_response, genres_response, health_response,
    invalid_request, iso_timestamp, latest_scan, library_scanning, library_status_response,
    lookup_record, movie_not_found, needs_initial_scan, page_count, parse_limit, parse_sort,
    parse_u32, plan_movie_list, plan_search, progress_response, resolve_person_params,
    scan_already_running, scan_id, scan_request_full, scan_start, search_response, sse_frame, ApiError,
    ArtworkKind, FavoriteBody, FavoriteChange, MovieListParams, ScanBody,
};
use loon::db::{progress_write, GenreCount, MovieSort, ProgressWrite, WatchProgress};
use loon::models::{FavoriteRequest, ProgressRequest, ScanStartRequest};

fn invalid(message: &str) -> ApiError {
    ApiError::InvalidRequest { message: message.to_string() }
}

#[test]
fn parse_u32_reads_defaults_and_rejects_garbage() {
    assert_eq!(parse_u32(None, 7), Ok(7));
    assert_eq!(parse_u32(Some("42"), 7), Ok(42));
    assert_eq!(parse_u32(Some("+3"), 7), Ok(3));
    assert_eq!(parse_u32(Some("4294967295"), 7), Ok(u32::MAX));
    assert_eq!(parse_u32(Some("4294967296"), 7), Err(invalid("invalid integer: 4294967296")));
    assert_eq!(parse_u32(Some(" 1"), 7), Err(invalid("invalid integer:  1")));
    assert_eq!(parse_u32(Some(""), 7), Err(invalid("invalid integer: ")));
    assert_eq!(parse_u32(Some("+"), 7), Err(invalid("invalid integer: +")));
    assert_eq!(parse_u32(Some("-1"), 7), Err(invalid("invalid integer: -1")));
}

#[test]
fn parse_limit_clamps_and_falls_back() {
    assert_eq!(parse_limit(None, 20, 50), 20);
    assert_eq!(parse_limit(Some("abc"), 20, 50), 20);
    assert_eq!(parse_limit(Some("0"), 20, 50), 1);
    assert_eq!(parse_limit(Some("500"), 20, 50), 50);
    assert_eq!(parse_limit(Some("35"), 20, 50), 35);
}

#[test]
fn parse_sort_names() {
    assert_eq!(parse_sort(None), Ok(MovieSort::Title));
    assert_eq!(parse_sort(Some("year")), Ok(MovieSort::Year));
    assert_eq!(parse_sort(Some("recently_added")), Ok(MovieSort::RecentlyAdded));
    assert_eq!(parse_sort(Some("title")), Ok(MovieSort::Title));
    assert_eq!(parse_sort(Some("Title")), Err(invalid("invalid sort value: Title")));
}

fn params<'a>(
    page: Option<&'a str>,
    limit: Option<&'a str>,
    sort: Option<&'a str>,
    genre: Option<&'a str>,
) -> MovieListParams<'a> {
    MovieListParams { page, limit, sort, genre }
}

#[test]
fn movie_list_without_paging_lists_everything() {
    assert_eq!(plan_movie_list(&params(None, None, Some("year"), Some("Drama"))), Ok(None));
}

#[test]
fn movie_list_paging_defaults_and_bounds() {
    let q = plan_movie_list(&params(Some("0"), None, None, None)).unwrap().unwrap();
    assert_eq!((q.page, q.limit, q.sort, q.genre), (1, 50, MovieSort::Title, None));
    let q = plan_movie_list(&params(None, Some("500"), Some("year"), Some("Drama")))
        .unwrap()
        .unwrap();
    assert_eq!(
        (q.page, q.limit, q.sort, q.genre),
        (1, 100, MovieSort::Year, Some("Drama".to_string()))
    );
    let q = plan_movie_list(&params(Some("3"), Some("0"), Some("recently_added"), None))
        .unwrap()
        .unwrap();
    assert_eq!((q.page, q.limit, q.sort), (3, 1, MovieSort::RecentlyAdded));
}

#[test]
fn movie_list_errors_come_in_parameter_order() {
    assert_eq!(
        plan_movie_list(&params(Some("x"), Some("y"), Some("z"), None)),
        Err(invalid("invalid integer: x"))
    );
    assert_eq!(
        plan_movie_list(&params(Some("2"), Some("y"), Some("z"), None)),
        Err(invalid("invalid integer: y"))
    );
    assert_eq!(
        plan_movie_list(&params(Some("2"), Some("10"), Some("z"), None)),
        Err(invalid("invalid sort value: z"))
    );
}

#[test]
fn page_count_rounds_up() {
    assert_eq!(page_count(0, 50), 0);
    assert_eq!(page_count(1, 50), 1);
    assert_eq!(page_count(100, 50), 2);
    assert_eq!(page_count(101, 50), 3);
    assert_eq!(page_count(7, 1), 7);
}

#[test]
fn every_movie_on_one_page_example() {
    // 101 movies at 50 per page: movie 100 is on page 3, the last page.
    let total = 101usize;
    let limit = 50u32;
    let i = 100usize;
    let page = (i / limit as usize + 1) as u32;
    assert_eq!(page, page_count(total, limit));
    let q = loon::db::MovieListQuery { page, limit, sort: MovieSort::Title, genre: None };
    assert!(q.offset() as usize <= i && i < q.offset() as usize + limit as usize);
}

#[test]
fn search_requires_two_bytes() {
    assert_eq!(plan_search(None, None), Err(invalid("query parameter `q` is required")));
    assert_eq!(
        plan_search(Some("  a "), None),
        Err(invalid("query parameter `q` must be at least 2 characters"))
    );
    assert_eq!(
        plan_search(Some("   "), None),
        Err(invalid("query parameter `q` must be at least 2 characters"))
    );
    // one character of two UTF-8 bytes is long enough
    let plan = plan_search(Some(" é "), Some("5")).unwrap();
    assert_eq!(plan.query, "é");
    assert_eq!(plan.limit, 5);
    let plan = plan_search(Some(" alien "), Some("90")).unwrap();
    assert_eq!(plan.query, "alien");
    assert_eq!(plan.requested, " alien ");
    assert_eq!(plan.limit, 50);
    assert_eq!(plan_search(Some("ab"), None).unwrap().limit, 20);
}

#[test]
fn search_response_counts_movies() {
    let plan = plan_search(Some(" ab "), None).unwrap();
    let r = search_response(plan.requested, Vec::new());
    assert_eq!(r.total, 0);
    assert_eq!(r.query, " ab ");
}

#[test]
fn favorite_bodies() {
    assert_eq!(favorite_change(&FavoriteBody::Empty), Ok(FavoriteChange::Toggle));
    assert_eq!(favorite_change(&FavoriteBody::Malformed), Err(invalid("invalid JSON body")));
    assert_eq!(
        favorite_change(&FavoriteBody::Decoded(FavoriteRequest { favorite: Some(true) })),
        Ok(FavoriteChange::SetTo(true))
    );
    assert_eq!(
        favorite_change(&FavoriteBody::Decoded(FavoriteRequest { favorite: None })),
        Err(invalid("request body must include `favorite` or be omitted to toggle"))
    );
}

#[test]
fn favorite_toggle_twice_restores() {
    for current in [false, true] {
        let once = apply_favorite_change(FavoriteChange::Toggle, current);
        assert_ne!(once, current);
        assert_eq!(apply_favorite_change(FavoriteChange::Toggle, once), current);
        assert!(apply_favorite_change(FavoriteChange::SetTo(true), current));
        assert!(!apply_favorite_change(FavoriteChange::SetTo(false), current));
    }
    let r = favorite_response("alien".to_string(), true);
    assert_eq!((r.slug.as_str(), r.favorite), ("alien", true));
}

#[test]
fn progress_past_nine_tenths_is_cleared() {
    let finished = ProgressRequest { position_seconds: 91, duration_seconds: Some(100) };
    assert_eq!(catalog_progress(&finished), (None, None));
    let at_nine_tenths = ProgressRequest { position_seconds: 90, duration_seconds: Some(100) };
    assert_eq!(catalog_progress(&at_nine_tenths), (Some(90), Some(100)));
    let unknown = ProgressRequest { position_seconds: 5000, duration_seconds: None };
    assert_eq!(catalog_progress(&unknown), (Some(5000), None));
    let zero = ProgressRequest { position_seconds: 5, duration_seconds: Some(0) };
    assert_eq!(catalog_progress(&zero), (Some(5), Some(0)));
}

#[test]
fn progress_store_matches_catalog_example() {
    for (pos, dur) in [(91u32, Some(100u32)), (90, Some(100)), (1, None), (3, Some(0))] {
        let write = progress_write(&WatchProgress { position_seconds: pos, duration_seconds: dur });
        let kept = catalog_progress(&ProgressRequest { position_seconds: pos, duration_seconds: dur });
        match write {
            ProgressWrite::Clear => assert_eq!(kept, (None, None)),
            ProgressWrite::Store { position_seconds, duration_seconds } => {
                assert_eq!(kept, (Some(position_seconds), duration_seconds))
            }
        }
    }
}

#[test]
fn timestamps_are_iso_utc_date_times() {
    assert_eq!(iso_timestamp(0), "1970-01-01T00:00:00Z");
    assert_eq!(iso_timestamp(1_700_000_000), "2023-11-14T22:13:20Z");
    assert_eq!(iso_timestamp(951_782_400), "2000-02-29T00:00:00Z");
    assert_eq!(iso_timestamp(951_868_799), "2000-02-29T23:59:59Z");
    assert_eq!(iso_timestamp(253_402_300_799), "9999-12-31T23:59:59Z");
    assert_eq!(iso_timestamp(253_402_300_800), "10000-01-01T00:00:00Z");
    assert_eq!(iso_timestamp(u64::MAX), "584554051223-11-09T07:00:15Z");
    let req = ProgressRequest { position_seconds: 12, duration_seconds: Some(60) };
    let r = progress_response("alien".to_string(), &req, 42);
    assert_eq!(r.updated_at, "1970-01-01T00:00:42Z");
    assert_eq!((r.position_seconds, r.duration_seconds), (12, Some(60)));
}

#[test]
fn decimal_round_trip_example() {
    for n in [0u32, 7, 10, 85, 4_294_967_295] {
        assert_eq!(parse_u32(Some(&n.to_string()), 0), Ok(n));
    }
}

#[test]
fn library_status_states() {
    let idle = library_status_response(3, false, 0, 0);
    assert_eq!(idle.state, "idle");
    assert_eq!(idle.last_scan_at, None);
    let scanning = library_status_response(3, true, 1234, 9);
    assert_eq!(scanning.state, "scanning");
    assert_eq!(scanning.last_scan_at.as_deref(), Some("1970-01-01T00:20:34Z"));
    assert_eq!(scanning.last_scan_duration_secs, 9);
    assert!(scanning.scan_in_progress);
}

#[test]
fn health_prefers_stored_count() {
    let h = health_response("0.1.0", Some(4), 9, 77);
    assert_eq!((h.status, h.service, h.version), ("ok", "loon-server", "0.1.0"));
    assert_eq!(h.movies_count, 4);
    assert_eq!(health_response("0.1.0", None, 9, 77).movies_count, 9);
}

#[test]
fn genres_response_keeps_order() {
    let r = genres_response(vec![
        GenreCount { name: "Drama".into(), count: 3 },
        GenreCount { name: "Action".into(), count: 1 },
    ]);
    assert_eq!(r.genres.len(), 2);
    assert_eq!((r.genres[0].name.as_str(), r.genres[0].count), ("Drama", 3));
    assert_eq!((r.genres[1].name.as_str(), r.genres[1].count), ("Action", 1));
}

#[test]
fn errors_have_status_code_and_message() {
    let e = movie_not_found("alien");
    assert_eq!((e.status(), e.code(), e.message()), (404, "movie_not_found", "No movie with slug 'alien'".to_string()));
    let e = invalid_request("bad".to_string());
    assert_eq!((e.status(), e.code(), e.message()), (400, "invalid_request", "bad".to_string()));
    let e = scan_already_running();
    assert_eq!(
        (e.status(), e.code(), e.message()),
        (409, "scan_already_running", "A library scan is already in progress".to_string())
    );
    let e = library_scanning();
    assert_eq!((e.status(), e.code(), e.message()), (503, "library_scanning", "Library scan in progress".to_string()));
    let e = artwork_not_found("alien", ArtworkKind::Backdrop);
    assert_eq!(
        (e.status(), e.code(), e.message()),
        (404, "artwork_not_found", "No backdrop artwork for movie 'alien'".to_string())
    );
}

#[test]
fn artwork_kinds_and_sources() {
    assert_eq!(artwork_kind("poster"), Ok(ArtworkKind::Poster));
    assert_eq!(artwork_kind("backdrop"), Ok(ArtworkKind::Backdrop));
    assert_eq!(artwork_kind("Poster"), Err(invalid("kind must be `poster` or `backdrop`")));
    assert_eq!(ArtworkKind::Poster.as_str(), "poster");
    let poster = Some("https://img/p.jpg".to_string());
    assert_eq!(
        artwork_source("alien", ArtworkKind::Poster, &poster, &None),
        Ok("https://img/p.jpg".to_string())
    );
    assert_eq!(
        artwork_source("alien", ArtworkKind::Backdrop, &poster, &None),
        Err(ApiError::ArtworkNotFound { slug: "alien".into(), kind: ArtworkKind::Backdrop })
    );
}

#[test]
fn lookup_prefers_stored_record() {
    assert_eq!(lookup_record(Some(1), Some(2)), Some(1));
    assert_eq!(lookup_record(None, Some(2)), Some(2));
    assert_eq!(lookup_record::<u8>(None, None), None);
}

#[test]
fn scan_requests() {
    assert_eq!(scan_request_full(&ScanBody::Empty), Ok(false));
    assert_eq!(scan_request_full(&ScanBody::Decoded(ScanStartRequest { full: true })), Ok(true));
    assert_eq!(scan_request_full(&ScanBody::Malformed), Err(invalid("invalid JSON body")));
    assert_eq!(scan_id(1700), "scan-1700");
    assert_eq!(sse_frame("progress", "{\"n\":1}"), "event: progress\ndata: {\"n\":1}\n\n");
}

#[test]
fn startup_scan_decision() {
    assert!(!needs_initial_scan(true, true, 0));
    assert!(needs_initial_scan(false, true, 12));
    assert!(needs_initial_scan(false, false, 0));
    assert!(!needs_initial_scan(false, false, 12));
    assert_eq!(latest_scan(&[]), 0);
    assert_eq!(latest_scan(&[5, 90, 12]), 90);
}

#[test]
fn browse_waits_for_scans() {
    assert_eq!(browse_allowed(true), Err(ApiError::LibraryScanning));
    assert_eq!(browse_allowed(false), Ok(()));
}

#[test]
fn person_resolution_needs_both_parameters() {
    assert_eq!(resolve_person_params(None, Some("x")), Err(invalid("movie_slug is required")));
    assert_eq!(resolve_person_params(Some(""), Some("x")), Err(invalid("movie_slug is required")));
    assert_eq!(resolve_person_params(Some("alien"), Some("")), Err(invalid("name is required")));
    assert_eq!(
        resolve_person_params(Some("alien"), Some("Sigourney Weaver")),
        Ok(("alien".to_string(), "Sigourney Weaver".to_string()))
    );
}

#[test]
fn artwork_kind_names_read_back() {
    for kind in [ArtworkKind::Poster, ArtworkKind::Backdrop] {
        assert_eq!(ArtworkKind::parse(kind.as_str()), Some(kind));
    }
    assert_eq!(ArtworkKind::parse("Poster"), None);
}

#[test]
fn scans_start_only_when_none_runs() {
    let full = ScanBody::Decoded(ScanStartRequest { full: true });
    assert_eq!(scan_start(true, &ScanBody::Empty), Err(ApiError::ScanAlreadyRunning));
    assert_eq!(scan_start(true, &ScanBody::Malformed), Err(ApiError::ScanAlreadyRunning));
    assert_eq!(scan_start(false, &ScanBody::Empty), Ok(false));
    assert_eq!(scan_start(false, &full), Ok(true));
    assert_eq!(
        scan_start(false, &ScanBody::Malformed),
        Err(invalid_request("invalid JSON body".to_string()))
    );
}

#[test]
fn favorites_and_progress_read_back() {
    // a toggle writes a row for a favorite and none otherwise
    for current in [false, true] {
        let after = apply_favorite_change(FavoriteChange::Toggle, current);
        let stored: i64 = if after { 1 } else { 0 };
        assert_eq!(stored > 0, !current);
        let again = apply_favorite_change(FavoriteChange::Toggle, stored > 0);
        assert_eq!(again, current);
    }
    // what is written to the progress columns reads back as the catalogue keeps it
    for (p, d) in [(30u32, Some(100u32)), (95, Some(100)), (7, None), (u32::MAX, Some(0))] {
        let req = ProgressRequest { position_seconds: p, duration_seconds: d };
        let (pos, dur) = match progress_write(&WatchProgress { position_seconds: p, duration_seconds: d }) {
            ProgressWrite::Clear => (None, None),
            ProgressWrite::Store { position_seconds, duration_seconds } => {
                (Some(position_seconds as i64), duration_seconds.map(|x| x as i64))
            }
        };
        let read = (pos.map(|x: i64| x as u32), dur.map(|x: i64| x as u32));
        assert_eq!(read, catalog_progress(&req));
    }
}
