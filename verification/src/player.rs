//! Playing a movie in an external player: the stream URL, how the player
//! binary is looked up, and the arguments each kind of player is given.

use vstd::prelude::*;

use crate::text::{
    ascii_lower, ascii_lower_chars, chars_of, contains_chars, contains_seq, string_from_chars,
    trim, trim_chars, trim_end_char, trim_end_char_chars,
};

verus! {

/// The bytes that URL encoding leaves as they are: ASCII letters, digits
/// and `-` `.` `_` `~`.
pub open spec fn is_unreserved(b: u8) -> bool {
    (48 <= b && b <= 57) || (65 <= b && b <= 90) || (97 <= b && b <= 122) || b == 45 || b == 46
        || b == 95 || b == 126
}

/// The upper-case hexadecimal digit of `d < 16`.
pub open spec fn hex_upper(d: u8) -> char {
    if d < 10 {
        (48 + d) as char
    } else {
        (55 + d) as char
    }
}

/// Percent-encoding of a byte sequence: unreserved bytes are kept, every
/// other byte becomes `%` and two upper-case hexadecimal digits.
pub open spec fn percent_encode(bytes: Seq<u8>) -> Seq<char>
    decreases bytes.len(),
{
    if bytes.len() == 0 {
        Seq::<char>::empty()
    } else {
        let b = bytes[0];
        (if is_unreserved(b) {
            seq![b as char]
        } else {
            seq!['%', hex_upper(b / 16), hex_upper(b % 16)]
        }) + percent_encode(bytes.drop_first())
    }
}

/// The URL encoding of a text: its UTF-8 bytes, percent-encoded.
pub open spec fn url_encoded(s: Seq<char>) -> Seq<char> {
    percent_encode(vstd::utf8::encode_utf8(s))
}

/// `urlencoding::encode`: percent-encodes every byte of the UTF-8 form of
/// `s` except ASCII letters, digits and `-` `.` `_` `~`, writing each
/// encoded byte as `%` followed by two upper-case hexadecimal digits.
#[verifier::external_body]
fn url_encode(s: &str) -> (r: String)
    ensures
        r@ == url_encoded(s@),
{
    urlencoding::encode(s).into_owned()
}

/// The stream URL of a movie: the server URL, trimmed and without trailing
/// slashes, then `/stream/` and the URL-encoded slug.
pub open spec fn stream_url_spec(server_url: Seq<char>, slug: Seq<char>) -> Seq<char> {
    trim_end_char(trim(server_url), '/') + "/stream/"@ + url_encoded(slug)
}

/// Builds `{server_url}/stream/{slug}` for a player.
pub fn stream_url(server_url: &str, slug: &str) -> (r: String)
    ensures
        r@ == stream_url_spec(server_url@, slug@),
{
    let s = chars_of(server_url);
    let t = trim_chars(s.as_slice());
    let base = trim_end_char_chars(t.as_slice(), '/');
    let mut url = string_from_chars(base.as_slice());
    url.append("/stream/");
    let encoded = url_encode(slug);
    url.append(encoded.as_str());
    url
}

/// The API path of one movie: `/api/movies/` and the URL-encoded slug.
pub fn movie_path(slug: &str) -> (r: String)
    ensures
        r@ == "/api/movies/"@ + url_encoded(slug@),
{
    let mut path = String::from_str("/api/movies/");
    let encoded = url_encode(slug);
    path.append(encoded.as_str());
    path
}

/// An error of the external player.
#[derive(Debug, Clone, PartialEq, Eq)]
pub struct PlayerError {
    /// What went wrong.
    pub message: String,
}

/// A title worth passing to a player: present and not empty.
pub open spec fn shown_title(title: Option<&str>) -> Option<Seq<char>> {
    match title {
        Some(t) => if t@.len() > 0 {
            Some(t@)
        } else {
            None
        },
        None => None,
    }
}

/// The arguments a player is started with, by the lower-cased name of its
/// binary: `ffplay` gets `-autoexit` and its `-window_title`, `mpv` gets a
/// `--title=` option, any other player the bare title; the URL comes last.
pub open spec fn player_args_spec(file_name: Seq<char>, url: Seq<char>, title: Option<Seq<char>>) -> Seq<
    Seq<char>,
> {
    let name = ascii_lower(file_name);
    if contains_seq(name, "ffplay"@) {
        seq!["-autoexit"@] + (match title {
            Some(t) => seq!["-window_title"@, t],
            None => Seq::<Seq<char>>::empty(),
        }) + seq![url]
    } else if contains_seq(name, "mpv"@) {
        (match title {
            Some(t) => seq!["--title="@ + t],
            None => Seq::<Seq<char>>::empty(),
        }) + seq![url]
    } else {
        (match title {
            Some(t) => seq![t],
            None => Seq::<Seq<char>>::empty(),
        }) + seq![url]
    }
}

/// The command-line arguments for playing `url` in the player whose binary
/// is named `file_name`; a URL that is blank once trimmed is refused.
pub fn player_arguments(file_name: &str, url: &str, title: Option<&str>) -> (r: Result<
    Vec<String>,
    PlayerError,
>)
    ensures
        trim(url@).len() == 0 ==> (r matches Err(e) && e.message@
            == "stream url must not be empty"@),
        trim(url@).len() > 0 ==> (r matches Ok(args) && args.deep_view() == player_args_spec(
            file_name@,
            url@,
            shown_title(title),
        )),
{
    let u = chars_of(url);
    let t = trim_chars(u.as_slice());
    if t.len() == 0 {
        return Err(PlayerError { message: String::from_str("stream url must not be empty") });
    }
    let name_chars = chars_of(file_name);
    let name = ascii_lower_chars(name_chars.as_slice());
    let ffplay = chars_of("ffplay");
    let mpv = chars_of("mpv");
    let shown: Option<&str> = match title {
        Some(tt) => if tt.is_empty() {
            None
        } else {
            Some(tt)
        },
        None => None,
    };
    let mut args: Vec<String> = Vec::new();
    if contains_chars(name.as_slice(), ffplay.as_slice()) {
        args.push(String::from_str("-autoexit"));
        match shown {
            Some(tt) => {
                args.push(String::from_str("-window_title"));
                args.push(String::from_str(tt));
            },
            None => {},
        }
    } else if contains_chars(name.as_slice(), mpv.as_slice()) {
        match shown {
            Some(tt) => {
                let mut opt = String::from_str("--title=");
                opt.append(tt);
                args.push(opt);
            },
            None => {},
        }
    } else {
        match shown {
            Some(tt) => {
                args.push(String::from_str(tt));
            },
            None => {},
        }
    }
    args.push(String::from_str(url));
    assert(args.deep_view() =~= player_args_spec(file_name@, url@, shown_title(title)));
    Ok(args)
}

/// Where the player binary is looked for.
#[derive(Debug, Clone, PartialEq, Eq)]
pub enum PlayerLookup {
    /// A configured absolute path, used when it is executable.
    Absolute(String),
    /// A configured name, looked up in `PATH`.
    InPath(String),
    /// Nothing configured: the first of `ffplay`, `mpv`, `mplayer` found in `PATH`.
    Defaults,
}

/// The configured player, trimmed, when it is not blank.
pub open spec fn configured_player(configured: Option<&str>) -> Option<Seq<char>> {
    match configured {
        Some(c) => if trim(c@).len() > 0 {
            Some(trim(c@))
        } else {
            None
        },
        None => None,
    }
}

/// Decides where to look for the player: a configured absolute path as is,
/// a configured name in `PATH`, otherwise the usual players.
pub fn player_lookup(configured: Option<&str>) -> (r: PlayerLookup)
    ensures
        configured_player(configured) is None ==> r == PlayerLookup::Defaults,
        configured_player(configured) matches Some(p) ==> (if p[0] == '/' {
            r matches PlayerLookup::Absolute(s) && s@ == p
        } else {
            r matches PlayerLookup::InPath(s) && s@ == p
        }),
{
    match configured {
        None => PlayerLookup::Defaults,
        Some(c) => {
            let v = chars_of(c);
            let t = trim_chars(v.as_slice());
            if t.len() == 0 {
                PlayerLookup::Defaults
            } else if t[0] == '/' {
                PlayerLookup::Absolute(string_from_chars(t.as_slice()))
            } else {
                PlayerLookup::InPath(string_from_chars(t.as_slice()))
            }
        },
    }
}

/// The players tried, in order, when none is configured.
pub fn default_player_names() -> (r: Vec<&'static str>)
    ensures
        r@.len() == 3,
        r@[0]@ == "ffplay"@,
        r@[1]@ == "mpv"@,
        r@[2]@ == "mplayer"@,
{
    let mut r: Vec<&'static str> = Vec::new();
    r.push("ffplay");
    r.push("mpv");
    r.push("mplayer");
    r
}

/// The player that is used, from what the lookup found: the executable
/// configured path, the binary found in `PATH`, or an error naming what
/// was configured.
pub fn resolve_player_path(lookup: &PlayerLookup, found: Option<String>) -> (r: Result<
    String,
    PlayerError,
>)
    ensures
        found matches Some(f) ==> r == Ok::<String, PlayerError>(f),
        found is None ==> (match lookup {
            PlayerLookup::Absolute(p) => r matches Err(e) && e.message@
                == "configured player_path is not executable: "@ + p@,
            PlayerLookup::InPath(p) => r matches Err(e) && e.message@
                == "configured player_path not found in PATH: "@ + p@,
            PlayerLookup::Defaults => r matches Err(e) && e.message@
                == "no video player found: install ffmpeg (ffplay) or mpv, or set [loon-admin].player_path"@,
        }),
{
    match found {
        Some(f) => Ok(f),
        None => match lookup {
            PlayerLookup::Absolute(p) => {
                let mut m = String::from_str("configured player_path is not executable: ");
                m.append(p.as_str());
                Err(PlayerError { message: m })
            },
            PlayerLookup::InPath(p) => {
                let mut m = String::from_str("configured player_path not found in PATH: ");
                m.append(p.as_str());
                Err(PlayerError { message: m })
            },
            PlayerLookup::Defaults => Err(
                PlayerError {
                    message: String::from_str(
                        "no video player found: install ffmpeg (ffplay) or mpv, or set [loon-admin].player_path",
                    ),
                },
            ),
        },
    }
}

} // verus!
