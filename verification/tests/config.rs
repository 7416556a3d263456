use loon::config::{
    ai_selection, bind_address, db_path, default_ai_enabled, default_ai_provider,
    default_cache_root, default_server_url, directory_of_parent, effective_data_dir, get_config, join_path_str,
    load_cache, log_directory, loon_config_dir, loon_config_path, missing_section_error, trim_trailing_slash,
    AiSelection, CacheSection, Cli, LoonAdminConfig, LoonAdminSection, LoonCacheConfig,
    LoonDesktopConfig, LoonSection,
};

#[test]
fn paths_join_like_unix_paths() {
    assert_eq!(join_path_str("data", "loon.db"), "data/loon.db");
    assert_eq!(join_path_str("data/", "loon.db"), "data/loon.db");
    assert_eq!(join_path_str("", "loon.db"), "loon.db");
    assert_eq!(join_path_str("/srv", "/var/cache"), "/var/cache");
    assert_eq!(db_path(None), "data/loon.db");
    assert_eq!(db_path(Some("/var/lib/loon/")), "/var/lib/loon/loon.db");
}

#[test]
fn cache_settings() {
    assert_eq!(default_cache_root(), "cache");
    let section = CacheSection { enabled: true, root: "cache".into(), max_mb: Some(2) };
    let c = LoonCacheConfig::resolve(section.clone(), "/srv/loon");
    assert_eq!(c.root, "/srv/loon/cache");
    assert_eq!(c.max_bytes, Some(2 * 1024 * 1024));
    assert!(c.enabled);
    let abs = CacheSection { enabled: true, root: "/tmp/art".into(), max_mb: None };
    assert_eq!(LoonCacheConfig::resolve(abs, "data").root, "/tmp/art");
    assert_eq!(load_cache(None, "data"), None);
    let off = CacheSection { enabled: false, root: "cache".into(), max_mb: None };
    assert_eq!(load_cache(Some(off), "data"), None);
    assert_eq!(load_cache(Some(section), "data").unwrap().root, "data/cache");
}

#[test]
fn ai_defaults_and_selection() {
    assert!(default_ai_enabled());
    assert_eq!(default_ai_provider(), "ollama");
    assert_eq!(ai_selection(false, "ollama"), AiSelection::Disabled);
    assert_eq!(ai_selection(true, "openai"), AiSelection::UnsupportedProvider);
    assert_eq!(ai_selection(true, "ollama"), AiSelection::Ollama);
}

fn section(url: &str) -> LoonAdminSection {
    LoonAdminSection { server_url: url.to_string(), player_path: Some("/usr/bin/mpv".into()) }
}

#[test]
fn load_parses_server_url() {
    let section = LoonAdminSection {
        server_url: "http://192.168.88.10:3000".to_string(),
        player_path: None,
    };
    let config = LoonDesktopConfig::load("config.toml".into(), section).unwrap();
    assert_eq!(config.server_url, "http://192.168.88.10:3000");
}

#[test]
fn load_keeps_the_player_path() {
    let config =
        LoonDesktopConfig::load("config.toml".into(), section("http://192.168.88.10:3000")).unwrap();
    assert_eq!(config.config_path, "config.toml");
    assert_eq!(config.player_path.as_deref(), Some("/usr/bin/mpv"));
}

#[test]
fn desktop_server_url_is_normalized_and_checked() {
    let c = LoonDesktopConfig::load("c".into(), section("  https://loon.local:3000/// ")).unwrap();
    assert_eq!(c.server_url, "https://loon.local:3000");
    let e = LoonDesktopConfig::load("c".into(), section("  / ")).unwrap_err();
    assert_eq!(e.message, "[loon-admin].server_url must not be empty");
    let e = LoonDesktopConfig::load("c".into(), section("ftp://x/")).unwrap_err();
    assert_eq!(e.message, "[loon-admin].server_url must be an http(s) URL, got: ftp://x");
    let r = get_config(&c);
    assert_eq!((r.server_url.as_str(), r.config_path.as_str()), ("https://loon.local:3000", "c"));
}

#[test]
fn loon_config_path_under_home() {
    assert_eq!(loon_config_path(Some("/home/u")), "/home/u/.config/loon/config.toml");
    assert_eq!(loon_config_dir(Some("/home/u/")), "/home/u/.config/loon");
    assert_eq!(loon_config_path(None), ".config/loon/config.toml");
}

#[test]
fn admin_config_defaults_and_trims() {
    assert_eq!(default_server_url(), "http://127.0.0.1:3000");
    assert_eq!(LoonAdminConfig::default().server_url, "http://127.0.0.1:3000");
    assert_eq!(LoonAdminConfig::from_context(None).unwrap().server_url, "http://127.0.0.1:3000");
    let given = LoonAdminConfig { server_url: "http://nas:3000//".into() };
    assert_eq!(LoonAdminConfig::from_context(Some(given)).unwrap().server_url, "http://nas:3000");
    let empty = LoonAdminConfig { server_url: "///".into() };
    assert_eq!(
        LoonAdminConfig::from_context(Some(empty)).unwrap_err().message,
        "loon-admin.server_url must not be empty"
    );
    assert_eq!(trim_trailing_slash("http://x/".into()), "http://x");
}

#[test]
fn server_config_pieces() {
    let e = missing_section_error("loon", "config.toml");
    assert_eq!(e.message, "missing or invalid [loon] in config.toml");
    assert_eq!(
        e.help.as_deref(),
        Some("Copy config.example.toml to config.toml and set media_root to your movie folder.")
    );
    let loon = LoonSection { bind: "0.0.0.0:3000".into(), data_dir: None, media_root: "/mnt".into() };
    let mut cli = Cli { config: "config.toml".into(), bind: None, force_scan: false };
    assert_eq!(bind_address(&cli, &loon), "0.0.0.0:3000");
    cli.bind = Some("127.0.0.1:9000".into());
    assert_eq!(bind_address(&cli, &loon), "127.0.0.1:9000");
    assert_eq!(effective_data_dir(None), "data");
    assert_eq!(effective_data_dir(Some("/srv")), "/srv");
}

#[test]
fn normalized_server_url_is_stable() {
    let section = LoonAdminSection {
        server_url: "  https://loon.local:3000///  ".into(),
        player_path: None,
    };
    let config = LoonDesktopConfig::load("c.toml".into(), section).unwrap();
    assert_eq!(config.server_url, "https://loon.local:3000");
    assert_eq!(trim_trailing_slash(config.server_url.clone()), config.server_url);
}

#[test]
fn log_files_go_to_the_configured_directory() {
    assert_eq!(log_directory(Some("logs"), Some("/var/log/x.log")), Some("logs".to_string()));
    assert_eq!(log_directory(None, Some("/var/log/loon.log")), Some("/var/log".to_string()));
    assert_eq!(log_directory(None, Some("logs/loon.log")), Some("logs".to_string()));
    assert_eq!(log_directory(None, Some("loon.log")), Some(".".to_string()));
    assert_eq!(log_directory(None, Some("")), Some(".".to_string()));
    assert_eq!(log_directory(None, None), None);
    assert_eq!(directory_of_parent(Some(String::new())), ".");
    assert_eq!(directory_of_parent(None), ".");
    assert_eq!(directory_of_parent(Some("a/b".into())), "a/b");
}
