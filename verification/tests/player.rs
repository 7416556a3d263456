use loon::player::{
    default_player_names, movie_path, player_arguments, player_lookup, resolve_player_path,
    stream_url, PlayerLookup,
};

#[test]
fn stream_urls_encode_the_slug() {
    assert_eq!(
        stream_url(" http://127.0.0.1:3000/ ", "a b"),
        "http://127.0.0.1:3000/stream/a%20b"
    );
    assert_eq!(stream_url("http://x", "été-1_~."), "http://x/stream/%C3%A9t%C3%A9-1_~.");
    assert_eq!(stream_url("http://x", "a/b?c"), "http://x/stream/a%2Fb%3Fc");
    assert_eq!(movie_path("alien 1979"), "/api/movies/alien%201979");
}

fn args(v: &[&str]) -> Vec<String> {
    v.iter().map(|s| s.to_string()).collect()
}

#[test]
fn play_url_encodes_slug() {
    let url = "http://127.0.0.1:3000/stream/a%20b";
    assert_eq!(
        player_arguments("fake-ffplay", url, Some("Test")).unwrap(),
        args(&["-autoexit", "-window_title", "Test", url])
    );
}

#[test]
fn arguments_per_player() {
    let url = "http://h/stream/x";
    assert_eq!(player_arguments("FFPLAY.exe", url, None).unwrap(), args(&["-autoexit", url]));
    assert_eq!(player_arguments("mpv", url, Some("Alien")).unwrap(), args(&["--title=Alien", url]));
    assert_eq!(player_arguments("mpv", url, Some("")).unwrap(), args(&[url]));
    assert_eq!(player_arguments("mplayer", url, Some("Alien")).unwrap(), args(&["Alien", url]));
    assert_eq!(
        player_arguments("vlc", "  ", Some("Alien")).unwrap_err().message,
        "stream url must not be empty"
    );
}

#[test]
fn player_lookup_and_outcome() {
    assert_eq!(player_lookup(None), PlayerLookup::Defaults);
    assert_eq!(player_lookup(Some("   ")), PlayerLookup::Defaults);
    assert_eq!(player_lookup(Some(" /usr/bin/mpv ")), PlayerLookup::Absolute("/usr/bin/mpv".into()));
    assert_eq!(player_lookup(Some("mpv")), PlayerLookup::InPath("mpv".into()));
    assert_eq!(default_player_names(), vec!["ffplay", "mpv", "mplayer"]);
    let found = resolve_player_path(&PlayerLookup::InPath("mpv".into()), Some("/usr/bin/mpv".into()));
    assert_eq!(found.unwrap(), "/usr/bin/mpv");
    assert_eq!(
        resolve_player_path(&PlayerLookup::Absolute("/opt/p".into()), None).unwrap_err().message,
        "configured player_path is not executable: /opt/p"
    );
    assert_eq!(
        resolve_player_path(&PlayerLookup::InPath("p".into()), None).unwrap_err().message,
        "configured player_path not found in PATH: p"
    );
    assert_eq!(
        resolve_player_path(&PlayerLookup::Defaults, None).unwrap_err().message,
        "no video player found: install ffmpeg (ffplay) or mpv, or set [loon-admin].player_path"
    );
}

#[test]
fn resolve_prefers_configured_absolute_path() {
    let path = "/bin/sh";
    let lookup = player_lookup(Some(path));
    assert_eq!(lookup, PlayerLookup::Absolute(path.into()));
    // the configured file exists and is executable: it is the player
    assert_eq!(resolve_player_path(&lookup, Some(path.into())).unwrap(), path);
}
