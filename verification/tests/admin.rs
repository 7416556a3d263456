use loon::admin::{
    api_url, filter_movies, join_texts, poster_initial, poster_to_show, sort_for_table,
    truncate_summary, AdminSection, AdminView, FetchPoll, LibraryPanel, LibraryRoute, LoadState,
    MovieDetail, MovieDetailPanel, MovieFileInfo, MovieSummary, MoviesTable,
};

fn movie(slug: &str, title: &str, summary: &str) -> MovieSummary {
    MovieSummary {
        slug: slug.into(),
        title: title.into(),
        year: Some(1999),
        runtime_minutes: 120,
        poster_url: None,
        backdrop_url: None,
        summary: summary.into(),
    }
}

fn slugs(v: &[MovieSummary]) -> Vec<&str> {
    v.iter().map(|m| m.slug.as_str()).collect()
}

#[test]
fn search_filters_title_summary_and_slug() {
    let movies = vec![
        movie("alien-1979", "Alien", "In space no one can hear you scream"),
        movie("heat", "Heat", "A group of professional bank robbers"),
        movie("the-matrix", "The Matrix", "A hacker learns the truth"),
    ];
    assert_eq!(slugs(&filter_movies(&movies, "   ")), vec!["alien-1979", "heat", "the-matrix"]);
    assert_eq!(slugs(&filter_movies(&movies, " ALIEN ")), vec!["alien-1979"]);
    assert_eq!(slugs(&filter_movies(&movies, "bank")), vec!["heat"]);
    assert_eq!(slugs(&filter_movies(&movies, "the-")), vec!["the-matrix"]);
    assert_eq!(slugs(&filter_movies(&movies, "a")), vec!["alien-1979", "heat", "the-matrix"]);
    assert!(filter_movies(&movies, "zzz").is_empty());
}

#[test]
fn summaries_are_cut_with_an_ellipsis() {
    assert_eq!(truncate_summary("short", 120), "short");
    let exact = "x".repeat(120);
    assert_eq!(truncate_summary(&exact, 120), exact);
    let long = "é".repeat(121);
    let cut = truncate_summary(&long, 120);
    assert_eq!(cut.chars().count(), 120);
    assert!(cut.ends_with('…'));
    assert_eq!(truncate_summary("abc", 0), "…");
}

#[test]
fn table_sort_is_stable_in_both_directions() {
    let movies = vec![
        movie("b1", "B", ""),
        movie("a1", "A", ""),
        movie("b2", "B", ""),
        movie("c1", "C", ""),
        movie("a2", "A", ""),
    ];
    assert_eq!(slugs(&sort_for_table(&movies, true)), vec!["a1", "a2", "b1", "b2", "c1"]);
    assert_eq!(slugs(&sort_for_table(&movies, false)), vec!["c1", "b1", "b2", "a1", "a2"]);
    // sorting a sorted table changes nothing
    let once = sort_for_table(&movies, true);
    assert_eq!(sort_for_table(&once, true), once);
    // byte order: upper case before lower case, a prefix first
    let titles = vec![movie("1", "alien", ""), movie("2", "Alien", ""), movie("3", "Ali", "")];
    assert_eq!(slugs(&sort_for_table(&titles, true)), vec!["3", "2", "1"]);
}

#[test]
fn table_header_and_rows() {
    let mut table = MoviesTable::default();
    assert!(!table.sort_title_asc);
    assert_eq!(table.title_header(), "Title ↓");
    table.toggle_sort();
    assert_eq!(table.title_header(), "Title ↑");
    let m = movie("x", "X", &"s".repeat(130));
    let row = table.row_text(&m);
    assert_eq!(row.year, "1999");
    assert_eq!(row.runtime, "120 min");
    assert_eq!(row.summary.chars().count(), 120);
    let mut no_year = m.clone();
    no_year.year = None;
    assert_eq!(table.row_text(&no_year).year, "");
    assert_eq!(slugs(&table.ordered(&[movie("b", "B", ""), movie("a", "A", "")])), vec!["a", "b"]);
}

#[test]
fn posters() {
    assert_eq!(poster_initial("Alien"), 'A');
    assert_eq!(poster_initial(""), '?');
    assert_eq!(poster_to_show(&Some("https://p".into())), Some("https://p"));
    assert_eq!(poster_to_show(&Some(String::new())), None);
    assert_eq!(poster_to_show(&None), None);
}

fn detail() -> MovieDetail {
    MovieDetail {
        slug: "alien".into(),
        title: "Alien".into(),
        original_title: Some("Alien".into()),
        year: Some(1979),
        runtime_minutes: None,
        summary: None,
        genres: vec!["Horror".into(), "Science Fiction".into()],
        poster_url: None,
        backdrop_url: None,
        is_favorite: true,
        tmdb_id: Some("348".into()),
        imdb_id: None,
        file: MovieFileInfo { filename: "alien.mkv".into(), relative_path: "Alien/alien.mkv".into() },
    }
}

#[test]
fn detail_screen_texts() {
    let panel = MovieDetailPanel;
    let t = panel.text(&detail());
    assert_eq!(t.heading, "Alien");
    assert_eq!(t.original, None);
    assert_eq!(t.facts, "Slug: alien  ·  Year: 1979  ·  Runtime: — min");
    assert_eq!(t.genres.as_deref(), Some("Genres: Horror, Science Fiction"));
    assert_eq!(t.favorite, "Favorite: yes");
    assert_eq!(t.file, "File: alien.mkv (Alien/alien.mkv)");
    assert_eq!((t.year_field.as_str(), t.tmdb_field.as_str(), t.imdb_field.as_str()), ("1979", "348", ""));
    assert_eq!(t.summary_field, "");
    let mut other = detail();
    other.original_title = Some("Alien: Le huitième passager".into());
    other.genres.clear();
    other.is_favorite = false;
    let t = panel.text(&other);
    assert_eq!(t.original.as_deref(), Some("Original: Alien: Le huitième passager"));
    assert_eq!(t.genres, None);
    assert_eq!(t.favorite, "Favorite: no");
    assert_eq!(join_texts(&[], ", "), "");
}

#[test]
fn library_panel_fetches() {
    let mut panel = LibraryPanel::new();
    assert_eq!(panel.route, LibraryRoute::List);
    assert_eq!(panel.movies, LoadState::Idle);
    // a poll without a fetch in flight changes nothing
    panel.poll_movies(FetchPoll::Received(Ok(vec![movie("a", "A", "")])));
    assert_eq!(panel.movies, LoadState::Idle);
    panel.start_movies_fetch();
    assert_eq!(panel.movies, LoadState::Loading);
    panel.poll_movies(FetchPoll::Empty);
    assert_eq!(panel.movies, LoadState::Loading);
    assert!(panel.movies_pending);
    panel.poll_movies(FetchPoll::Received(Ok(vec![movie("a", "A", "")])));
    assert!(!panel.movies_pending);
    assert!(matches!(&panel.movies, LoadState::Ready(m) if m.len() == 1));
    panel.start_movies_fetch();
    panel.poll_movies(FetchPoll::Received(Err("HTTP request failed".into())));
    assert_eq!(panel.movies, LoadState::Failed("HTTP request failed".into()));
    panel.start_movies_fetch();
    panel.poll_movies(FetchPoll::Disconnected);
    assert_eq!(panel.movies, LoadState::Failed("movie fetch thread stopped".into()));
}

#[test]
fn library_panel_detail_navigation() {
    let mut panel = LibraryPanel::new();
    panel.open_detail("alien".into());
    assert_eq!(panel.route, LibraryRoute::Detail { slug: "alien".into() });
    assert_eq!(panel.detail_slug.as_deref(), Some("alien"));
    panel.start_detail_fetch();
    let before = panel.clone();
    panel.show_detail_of("alien");
    assert_eq!(panel, before);
    panel.poll_detail(FetchPoll::Disconnected);
    assert_eq!(panel.detail, LoadState::Failed("movie detail fetch thread stopped".into()));
    panel.show_detail_of("heat");
    assert_eq!(panel.route, LibraryRoute::Detail { slug: "heat".into() });
    assert_eq!(panel.detail, LoadState::Idle);
    panel.start_detail_fetch();
    panel.poll_detail(FetchPoll::Received(Ok(detail())));
    assert!(matches!(&panel.detail, LoadState::Ready(d) if d.slug == "alien"));
    panel.back_to_list();
    assert_eq!(panel.route, LibraryRoute::List);
    assert_eq!(panel.detail, LoadState::Idle);
    assert_eq!(panel.detail_slug, None);
    assert!(panel.ensure_image_loaders());
    assert!(!panel.ensure_image_loaders());
}

#[test]
fn admin_shell_navigation() {
    let mut view = AdminView::new();
    assert_eq!(view.section, AdminSection::Library);
    assert!(!view.theme_applied);
    assert_eq!(view.server_url, None);
    view.select_section(AdminSection::Settings);
    assert_eq!(view.section, AdminSection::Settings);
    assert_eq!(api_url("http://h:3000", "/api/movies"), "http://h:3000/api/movies");
}

#[test]
fn searching_twice_shows_the_same_movies() {
    let movies = vec![
        movie("alien", "Alien", "In space"),
        movie("heat", "Heat", "A heist in L.A."),
        movie("aliens", "Aliens", "Back to space"),
    ];
    let once = filter_movies(&movies, " ALI ");
    assert_eq!(once.iter().map(|m| m.slug.as_str()).collect::<Vec<_>>(), ["alien", "aliens"]);
    assert_eq!(filter_movies(&once, " ALI "), once);
}

#[test]
fn shortened_summaries_fit() {
    let long = "é".repeat(200);
    assert_eq!(truncate_summary(&long, 120).chars().count(), 120);
    assert_eq!(truncate_summary("short", 120), "short");
    assert_eq!(truncate_summary("abcd", 3), "ab…");
}

#[test]
fn fetch_steps_keep_the_rest_of_the_panel() {
    let mut panel = LibraryPanel::new();
    panel.table.toggle_sort();
    panel.search = "ali".into();
    let before = panel.clone();
    panel.poll_movies(FetchPoll::Received(Ok(Vec::new())));
    assert_eq!(panel, before);
    panel.start_movies_fetch();
    panel.poll_movies(FetchPoll::Empty);
    let mut expected = before.clone();
    expected.movies = LoadState::Loading;
    expected.movies_pending = true;
    assert_eq!(panel, expected);
    assert!(panel.ensure_image_loaders());
    assert!(panel.table.sort_title_asc && panel.image_loaders_installed);
    assert_eq!(panel.search, "ali");
}
