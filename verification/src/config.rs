//! Settings: where the server keeps its data and artwork cache, which AI
//! provider it uses, and the server address of the desktop tools.

use vstd::prelude::*;

use crate::text::{
    chars_of, has_prefix, starts_with_chars, string_from_chars, trim, trim_chars, trim_end_char,
    trim_end_char_chars,
};

verus! {

/// `base` joined with `rel` the way `Path::join` does on Unix: an absolute
/// `rel` (one that starts with `/`) replaces `base`; otherwise the two are
/// separated by one `/`, unless `base` is empty or already ends with `/`.
pub open spec fn join_path(base: Seq<char>, rel: Seq<char>) -> Seq<char> {
    if rel.len() > 0 && rel[0] == '/' {
        rel
    } else if base.len() == 0 || base.last() == '/' {
        base + rel
    } else {
        base + seq!['/'] + rel
    }
}

/// Joins two Unix paths.
pub fn join_path_str(base: &str, rel: &str) -> (r: String)
    ensures
        r@ == join_path(base@, rel@),
{
    let b = chars_of(base);
    let r = chars_of(rel);
    if r.len() > 0 && r[0] == '/' {
        return string_from_chars(r.as_slice());
    }
    let mut out = b;
    if out.len() > 0 && out[out.len() - 1] != '/' {
        out.push('/');
    }
    let mut k: usize = 0;
    let ghost start = out@;
    while k < r.len()
        invariant
            k <= r@.len(),
            out@ == start + r@.subrange(0, k as int),
        decreases r@.len() - k,
    {
        out.push(r[k]);
        k = k + 1;
        assert(out@ =~= start + r@.subrange(0, k as int));
    }
    assert(r@.subrange(0, r@.len() as int) =~= r@);
    string_from_chars(out.as_slice())
}

/// The SQLite database file: `loon.db` in the data directory, which is
/// `data` when none is configured.
pub fn db_path(data_dir: Option<&str>) -> (r: String)
    ensures
        r@ == join_path(
            match data_dir {
                Some(d) => d@,
                None => "data"@,
            },
            "loon.db"@,
        ),
{
    match data_dir {
        Some(d) => join_path_str(d, "loon.db"),
        None => join_path_str("data", "loon.db"),
    }
}

/// Command line of the server.
#[derive(Debug, Clone, PartialEq, Eq)]
pub struct Cli {
    /// Path to config TOML.
    pub config: String,
    /// Override HTTP bind address (host:port).
    pub bind: Option<String>,
    /// Run a full library scan on startup even when the database already has movies.
    pub force_scan: bool,
}

/// `[loon]` section in config.toml.
#[derive(Debug, Clone, PartialEq, Eq)]
pub struct LoonSection {
    /// HTTP bind address.
    pub bind: String,
    /// Persistent data directory.
    pub data_dir: Option<String>,
    /// Absolute path to the media library root on disk; the library roots
    /// are relative to it.
    pub media_root: String,
}

/// `[media-library]` section in config.toml.
#[derive(Debug, Clone, PartialEq, Eq)]
pub struct MediaLibrarySection {
    /// Library identifier.
    pub id: String,
    /// Subdirectories under `media_root` to scan.
    pub roots: Vec<String>,
    /// Video file extensions without a leading dot.
    pub video_extensions: Option<Vec<String>>,
}

/// The address the server listens on: the one given on the command line,
/// else the configured one.
pub fn bind_address(cli: &Cli, section: &LoonSection) -> (r: String)
    ensures
        r == (match cli.bind {
            Some(b) => b,
            None => section.bind,
        }),
{
    match &cli.bind {
        Some(b) => b.clone(),
        None => section.bind.clone(),
    }
}

/// `[cache]` section in config.toml.
#[derive(Debug, Clone, PartialEq, Eq)]
pub struct CacheSection {
    /// Whether the on-disk artwork cache is enabled.
    pub enabled: bool,
    /// Cache root relative to `data_dir` when not absolute.
    pub root: String,
    /// Optional maximum cache size in megabytes.
    pub max_mb: Option<u64>,
}

/// Resolved artwork cache settings.
#[derive(Debug, Clone, PartialEq, Eq)]
pub struct LoonCacheConfig {
    /// Whether caching is active.
    pub enabled: bool,
    /// Absolute cache directory path.
    pub root: String,
    /// Optional maximum cache size in bytes.
    pub max_bytes: Option<u64>,
}

/// The cache root used when the section names none.
pub fn default_cache_root() -> (r: String)
    ensures
        r@ == "cache"@,
{
    String::from_str("cache")
}

/// A size limit in megabytes fits in 64 bits once counted in bytes.
pub open spec fn max_mb_fits(max_mb: Option<u64>) -> bool {
    match max_mb {
        Some(mb) => mb * 1048576 <= u64::MAX,
        None => true,
    }
}

impl LoonCacheConfig {
    /// Resolves the cache settings: a relative root is taken under the data
    /// directory, and the size limit is counted in bytes.
    pub fn resolve(section: CacheSection, data_dir: &str) -> (r: Self)
        requires
            max_mb_fits(section.max_mb),
        ensures
            r.enabled == section.enabled,
            r.root@ == join_path(data_dir@, section.root@),
            r.max_bytes == (match section.max_mb {
                Some(mb) => Some((mb * 1048576) as u64),
                None => None::<u64>,
            }),
    {
        let root = join_path_str(data_dir, section.root.as_str());
        let max_bytes = match section.max_mb {
            Some(mb) => Some(mb * 1024 * 1024),
            None => None,
        };
        LoonCacheConfig { enabled: section.enabled, root, max_bytes }
    }
}

/// The artwork cache is used only when a `[cache]` section enables it.
pub fn load_cache(section: Option<CacheSection>, data_dir: &str) -> (r: Option<LoonCacheConfig>)
    requires
        section matches Some(s) ==> max_mb_fits(s.max_mb),
    ensures
        section is None ==> r is None,
        section matches Some(s) ==> (!s.enabled ==> r is None),
        section matches Some(s) ==> (s.enabled ==> (r matches Some(c) && c.enabled && c.root@
            == join_path(data_dir@, s.root@) && c.max_bytes == (match s.max_mb {
            Some(mb) => Some((mb * 1048576) as u64),
            None => None::<u64>,
        }))),
{
    match section {
        None => None,
        Some(s) => {
            if !s.enabled {
                None
            } else {
                Some(LoonCacheConfig::resolve(s, data_dir))
            }
        },
    }
}

/// Whether AI filename guessing is on when the section does not say.
pub fn default_ai_enabled() -> (r: bool)
    ensures
        r,
{
    true
}

/// The AI provider when the section does not say.
pub fn default_ai_provider() -> (r: String)
    ensures
        r@ == "ollama"@,
{
    String::from_str("ollama")
}

/// What the `[ai]` section selects.
#[derive(Debug, Clone, Copy, PartialEq, Eq, Structural)]
pub enum AiSelection {
    /// Filename guessing is switched off.
    Disabled,
    /// The provider is not one Loon supports; guessing stays off.
    UnsupportedProvider,
    /// Filename guessing through Ollama.
    Ollama,
}

/// AI filename guessing runs only when enabled and the provider is `ollama`.
pub fn ai_selection(enabled: bool, provider: &str) -> (r: AiSelection)
    ensures
        !enabled ==> r == AiSelection::Disabled,
        enabled && provider@ != "ollama"@ ==> r == AiSelection::UnsupportedProvider,
        enabled && provider@ == "ollama"@ ==> r == AiSelection::Ollama,
{
    if !enabled {
        return AiSelection::Disabled;
    }
    let p = chars_of(provider);
    let ollama = chars_of("ollama");
    if crate::text::chars_equal(p.as_slice(), ollama.as_slice()) {
        AiSelection::Ollama
    } else {
        AiSelection::UnsupportedProvider
    }
}

/// A configuration error, with its message.
#[derive(Debug, Clone, PartialEq, Eq)]
pub struct ConfigError {
    /// What is wrong.
    pub message: String,
    /// How to fix it, when known.
    pub help: Option<String>,
}

/// The error for a section that is missing from the server configuration
/// file, or unreadable, with advice on setting the file up.
pub fn missing_section_error(section: &str, path: &str) -> (e: ConfigError)
    ensures
        e.message@ == "missing or invalid ["@ + section@ + "] in "@ + path@,
        e.help matches Some(h) && h@ == "Copy config.example.toml to "@ + path@
            + " and set media_root to your movie folder."@,
{
    let mut message = String::from_str("missing or invalid [");
    message.append(section);
    message.append("] in ");
    message.append(path);
    let mut help = String::from_str("Copy config.example.toml to ");
    help.append(path);
    help.append(" and set media_root to your movie folder.");
    ConfigError { message, help: Some(help) }
}

/// The data directory: the configured one, or `data`.
pub fn effective_data_dir(data_dir: Option<&str>) -> (r: String)
    ensures
        r@ == (match data_dir {
            Some(d) => d@,
            None => "data"@,
        }),
{
    match data_dir {
        Some(d) => String::from_str(d),
        None => String::from_str("data"),
    }
}

/// A server URL as configured: trimmed and without trailing slashes.
pub open spec fn normalized_url(raw: Seq<char>) -> Seq<char> {
    trim_end_char(trim(raw), '/')
}

/// The URL is an `http://` or `https://` URL.
pub open spec fn is_http_url(url: Seq<char>) -> bool {
    has_prefix(url, "http://"@) || has_prefix(url, "https://"@)
}

/// What `std::path::Path::parent` gives for a path.
pub uninterp spec fn path_parent(path: Seq<char>) -> Option<Seq<char>>;

/// The parent of a path, by `std::path::Path::parent`: the path without its
/// final component, when there is one, and nothing for the empty path (as
/// its documentation says). What the parent is otherwise is left to the
/// name `path_parent`, a function of the path alone.
#[verifier::external_body]
fn parent_path(path: &str) -> (r: Option<String>)
    ensures
        r matches Some(p) ==> path_parent(path@) == Some(p@),
        r is None ==> path_parent(path@) is None,
        path@.len() == 0 ==> r is None,
{
    std::path::Path::new(path).parent().map(|p| p.to_string_lossy().into_owned())
}

/// The directory a parent path names: the parent, or the working directory
/// `.` when there is none or it is empty.
pub open spec fn parent_or_here(parent: Option<Seq<char>>) -> Seq<char> {
    match parent {
        Some(p) => if p.len() > 0 {
            p
        } else {
            "."@
        },
        None => "."@,
    }
}

/// The directory named by the parent of a log file's path.
pub fn directory_of_parent(parent: Option<String>) -> (r: String)
    ensures
        r@ == parent_or_here(
            match parent {
                Some(p) => Some(p@),
                None => None,
            },
        ),
{
    match parent {
        Some(p) => if p.as_str().is_empty() {
            String::from_str(".")
        } else {
            p
        },
        None => String::from_str("."),
    }
}

/// Where the log files go: the configured directory, else the directory of
/// the configured file (the working directory when its path has none), else
/// nowhere.
pub open spec fn log_directory_spec(directory: Option<Seq<char>>, file: Option<Seq<char>>) -> Option<
    Seq<char>,
> {
    match directory {
        Some(d) => Some(d),
        None => match file {
            Some(f) => Some(parent_or_here(path_parent(f))),
            None => None,
        },
    }
}

/// The directory of the log files from the `[logging]` section.
pub fn log_directory(directory: Option<&str>, file: Option<&str>) -> (r: Option<String>)
    ensures
        r is Some <==> (directory is Some || file is Some),
        r matches Some(d) ==> Some(d@) == log_directory_spec(
            match directory {
                Some(d) => Some(d@),
                None => None,
            },
            match file {
                Some(f) => Some(f@),
                None => None,
            },
        ),
{
    match directory {
        Some(d) => Some(String::from_str(d)),
        None => match file {
            Some(f) => Some(directory_of_parent(parent_path(f))),
            None => None,
        },
    }
}

/// Removing trailing copies of `c` leaves none, and doing it again changes
/// nothing.
proof fn lemma_trim_end_char_clean(s: Seq<char>, c: char)
    ensures
        trim_end_char(s, c).len() > 0 ==> trim_end_char(s, c).last() != c,
        trim_end_char(trim_end_char(s, c), c) == trim_end_char(s, c),
    decreases s.len(),
{
    if s.len() > 0 && s.last() == c {
        lemma_trim_end_char_clean(s.drop_last(), c);
    }
}

/// A normalized server URL does not end with `/`, and normalizing it again
/// (as the API client does with the configured URL) leaves it unchanged.
pub proof fn law_server_url_normalized(raw: Seq<char>)
    ensures
        normalized_url(raw).len() > 0 ==> normalized_url(raw).last() != '/',
        trim_end_char(normalized_url(raw), '/') == normalized_url(raw),
{
    lemma_trim_end_char_clean(trim(raw), '/');
}

/// `[loon-admin]` section of the desktop configuration.
#[derive(Debug, Clone, PartialEq, Eq)]
pub struct LoonAdminSection {
    /// Backend API base URL.
    pub server_url: String,
    /// Optional path to ffplay, mpv, or another HTTP-capable player binary.
    pub player_path: Option<String>,
}

/// Loaded desktop configuration.
#[derive(Debug, Clone, PartialEq, Eq)]
pub struct LoonDesktopConfig {
    /// The file it was read from.
    pub config_path: String,
    /// Backend API base URL, without trailing slashes.
    pub server_url: String,
    /// Optional player binary.
    pub player_path: Option<String>,
}

impl LoonDesktopConfig {
    /// Checks the `[loon-admin]` section read from `config_path`: the server
    /// URL, trimmed and without trailing slashes, must be a non-empty
    /// `http://` or `https://` URL.
    pub fn load(config_path: String, section: LoonAdminSection) -> (r: Result<Self, ConfigError>)
        ensures
            normalized_url(section.server_url@).len() == 0 ==> (r matches Err(e) && e.message@
                == "[loon-admin].server_url must not be empty"@),
            normalized_url(section.server_url@).len() > 0 && !is_http_url(
                normalized_url(section.server_url@),
            ) ==> (r matches Err(e) && e.message@
                == "[loon-admin].server_url must be an http(s) URL, got: "@ + normalized_url(
                section.server_url@,
            )),
            normalized_url(section.server_url@).len() > 0 && is_http_url(
                normalized_url(section.server_url@),
            ) ==> (r matches Ok(c) && c.config_path == config_path && c.server_url@
                == normalized_url(section.server_url@) && c.player_path == section.player_path),
    {
        let raw = chars_of(section.server_url.as_str());
        let t = trim_chars(raw.as_slice());
        let url = trim_end_char_chars(t.as_slice(), '/');
        if url.len() == 0 {
            return Err(
                ConfigError {
                    message: String::from_str("[loon-admin].server_url must not be empty"),
                    help: None,
                },
            );
        }
        let http = chars_of("http://");
        let https = chars_of("https://");
        let server_url = string_from_chars(url.as_slice());
        if !starts_with_chars(url.as_slice(), http.as_slice()) && !starts_with_chars(
            url.as_slice(),
            https.as_slice(),
        ) {
            let mut message = String::from_str(
                "[loon-admin].server_url must be an http(s) URL, got: ",
            );
            message.append(server_url.as_str());
            return Err(ConfigError { message, help: None });
        }
        Ok(LoonDesktopConfig { config_path, server_url, player_path: section.player_path })
    }
}

/// What the desktop shell reports of its configuration.
#[derive(Debug, Clone, PartialEq, Eq)]
pub struct DesktopConfigResponse {
    /// Backend API base URL.
    pub server_url: String,
    /// The configuration file.
    pub config_path: String,
}

/// The configuration answer of the desktop shell.
pub fn get_config(config: &LoonDesktopConfig) -> (r: DesktopConfigResponse)
    ensures
        r.server_url == config.server_url,
        r.config_path == config.config_path,
{
    DesktopConfigResponse {
        server_url: config.server_url.clone(),
        config_path: config.config_path.clone(),
    }
}

/// The directory of the desktop configuration: `.config/loon` under the
/// home directory, or under the working directory when there is no home.
pub open spec fn config_dir_spec(home: Option<Seq<char>>) -> Seq<char> {
    match home {
        Some(h) => join_path(join_path(h, ".config"@), "loon"@),
        None => join_path(".config"@, "loon"@),
    }
}

/// `~/.config/loon`, from the value of `HOME` when it is set.
pub fn loon_config_dir(home: Option<&str>) -> (r: String)
    ensures
        r@ == config_dir_spec(
            match home {
                Some(h) => Some(h@),
                None => None,
            },
        ),
{
    match home {
        Some(h) => {
            let c = join_path_str(h, ".config");
            join_path_str(c.as_str(), "loon")
        },
        None => join_path_str(".config", "loon"),
    }
}

/// The desktop configuration file `~/.config/loon/config.toml`, from the
/// value of `HOME` when it is set.
pub fn loon_config_path(home: Option<&str>) -> (r: String)
    ensures
        r@ == join_path(
            config_dir_spec(
                match home {
                    Some(h) => Some(h@),
                    None => None,
                },
            ),
            "config.toml"@,
        ),
{
    let dir = loon_config_dir(home);
    join_path_str(dir.as_str(), "config.toml")
}

/// The default server address of the admin tool.
pub fn default_server_url() -> (r: String)
    ensures
        r@ == "http://127.0.0.1:3000"@,
{
    String::from_str("http://127.0.0.1:3000")
}

/// Admin GUI settings loaded from `[loon-admin]` in config.
#[derive(Debug, Clone, PartialEq, Eq)]
pub struct LoonAdminConfig {
    /// Loon server base URL.
    pub server_url: String,
}

impl Default for LoonAdminConfig {
    fn default() -> (r: Self)
        ensures
            r.server_url@ == "http://127.0.0.1:3000"@,
    {
        LoonAdminConfig { server_url: default_server_url() }
    }
}

impl LoonAdminConfig {
    /// Settles the admin settings from the `[loon-admin]` section found in
    /// the application's configuration, if any (the defaults otherwise):
    /// trailing slashes are removed from the server URL, which must not be
    /// empty then.
    pub fn from_context(section: Option<LoonAdminConfig>) -> (r: Result<Self, ConfigError>)
        ensures
            ({
                let url = match section {
                    Some(s) => s.server_url@,
                    None => "http://127.0.0.1:3000"@,
                };
                &&& trim_end_char(url, '/').len() == 0 ==> (r matches Err(e) && e.message@
                    == "loon-admin.server_url must not be empty"@)
                &&& trim_end_char(url, '/').len() > 0 ==> (r matches Ok(c) && c.server_url@
                    == trim_end_char(url, '/'))
            }),
    {
        let config = match section {
            Some(s) => s,
            None => LoonAdminConfig::default(),
        };
        let server_url = trim_trailing_slash(config.server_url);
        if server_url.as_str().is_empty() {
            return Err(
                ConfigError {
                    message: String::from_str("loon-admin.server_url must not be empty"),
                    help: None,
                },
            );
        }
        Ok(LoonAdminConfig { server_url })
    }
}

/// `url` without trailing slashes.
pub fn trim_trailing_slash(url: String) -> (r: String)
    ensures
        r@ == trim_end_char(url@, '/'),
{
    let v = chars_of(url.as_str());
    let t = trim_end_char_chars(v.as_slice(), '/');
    string_from_chars(t.as_slice())
}

} // verus!
