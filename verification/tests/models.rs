use loon::models::{KnownForMovie, MovieSummary, RootResponse};

#[test]
fn root_index() {
    let r = RootResponse::default();
    assert_eq!(r.service, "loon-server");
    assert_eq!(r.message, "Loon API — use the endpoints below (no web UI at / yet)");
    assert_eq!(r.endpoints.health, "/api/health");
    assert_eq!(r.endpoints.movies, "/api/movies");
}

#[test]
fn known_for_from_summary() {
    let s = MovieSummary {
        slug: "leon".into(),
        title: "Léon".into(),
        year: Some(1994),
        runtime_minutes: 110,
        poster_url: Some("https://img/p.jpg".into()),
        backdrop_url: None,
        summary: "...".into(),
    };
    let k = KnownForMovie::from_summary(s, Some("Léon".into()));
    assert_eq!(k.slug, "leon");
    assert_eq!(k.title, "Léon");
    assert_eq!(k.year, Some(1994));
    assert_eq!(k.poster_url.as_deref(), Some("https://img/p.jpg"));
    assert_eq!(k.character.as_deref(), Some("Léon"));
}
