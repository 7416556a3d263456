//! Colour tokens of the admin theme read as RGB(A) channels.

use vstd::prelude::*;

use crate::text::{chars_of, trim_start_char};

verus! {

/// The value of a hexadecimal digit, either case.
pub open spec fn hex_digit(c: char) -> Option<u8> {
    if '0' <= c && c <= '9' {
        Some(((c as u32) - 48) as u8)
    } else if 'a' <= c && c <= 'f' {
        Some(((c as u32) - 87) as u8)
    } else if 'A' <= c && c <= 'F' {
        Some(((c as u32) - 55) as u8)
    } else {
        None
    }
}

/// What `u8::from_str_radix(pair, 16)` gives for a two-character pair,
/// with 0 for a pair it rejects: two hexadecimal digits, or `+` and one.
pub open spec fn channel_value(a: char, b: char) -> u8 {
    match (hex_digit(a), hex_digit(b)) {
        (Some(x), Some(y)) => (16 * x + y) as u8,
        (_, Some(y)) => if a == '+' {
            y
        } else {
            0
        },
        _ => 0,
    }
}

/// Adapts the colour tokens of the Loon theme for the admin GUI.
#[derive(Debug, Clone, Copy, PartialEq, Eq, Structural)]
pub struct EguiThemeAdapter;

/// The channels of a colour token.
#[derive(Debug, Clone, Copy, PartialEq, Eq, Structural)]
pub struct ColorChannels {
    pub red: u8,
    pub green: u8,
    pub blue: u8,
    /// The alpha channel when the token has eight digits.
    pub alpha: Option<u8>,
}

fn hex_digit_of(c: char) -> (r: Option<u8>)
    ensures
        r == hex_digit(c),
{
    if '0' <= c && c <= '9' {
        Some((c as u32 - 48) as u8)
    } else if 'a' <= c && c <= 'f' {
        Some((c as u32 - 87) as u8)
    } else if 'A' <= c && c <= 'F' {
        Some((c as u32 - 55) as u8)
    } else {
        None
    }
}

fn channel_of(a: char, b: char) -> (r: u8)
    ensures
        r == channel_value(a, b),
{
    match (hex_digit_of(a), hex_digit_of(b)) {
        (Some(x), Some(y)) => 16 * x + y,
        (_, Some(y)) => if a == '+' {
            y
        } else {
            0
        },
        _ => 0,
    }
}

/// The sixteen hexadecimal digits in lower case, in order of value.
pub open spec fn lower_hex_digits() -> Seq<char> {
    seq!['0', '1', '2', '3', '4', '5', '6', '7', '8', '9', 'a', 'b', 'c', 'd', 'e', 'f']
}

/// Reading hexadecimal digits: exactly the 22 digit characters (`0`-`9`,
/// `a`-`f`, `A`-`F`) have a value, that value is the digit's position among
/// `0123456789abcdef`, and the case of a letter does not matter. So a pair
/// of digits reads as 16 times the first digit's value plus the second's.
pub proof fn law_hex_digits(c: char, a: char, b: char)
    ensures
        hex_digit(c) is Some <==> (('0' <= c && c <= '9') || ('a' <= c && c <= 'f') || ('A' <= c
            && c <= 'F')),
        hex_digit(c) matches Some(v) ==> v < 16 && lower_hex_digits()[v as int]
            == crate::text::ascii_lower_char(c),
        forall|v: int|
            0 <= v < 16 && lower_hex_digits()[v] == crate::text::ascii_lower_char(c) ==> hex_digit(
                c,
            ) == Some(v as u8),
        hex_digit(c) == hex_digit(crate::text::ascii_lower_char(c)),
        hex_digit(a) is Some && hex_digit(b) is Some ==> channel_value(a, b) as int == 16
            * hex_digit(a)->0 + hex_digit(b)->0,
{
    let d = lower_hex_digits();
    assert(d.len() == 16);
    assert forall|v: int|
        0 <= v < 16 && d[v] == crate::text::ascii_lower_char(c) implies hex_digit(c) == Some(
            v as u8,
        ) by {
        assert(d[v] == if v < 10 {
            (v + 48) as char
        } else {
            (v + 87) as char
        });
    }
    if let Some(v) = hex_digit(c) {
        assert(d[v as int] == if v < 10 {
            (v + 48) as char
        } else {
            (v + 87) as char
        });
    }
}

/// The digits of a token: all leading `#` removed.
pub open spec fn color_digits(token: Seq<char>) -> Seq<char> {
    trim_start_char(token, '#')
}

/// Reads `n` channels from the front of the digits, two UTF-8 bytes at a
/// time, as slicing the digits at every second byte does: two ASCII
/// characters give the value of their pair, one character of two bytes
/// gives 0 (it is no number), and anything else would cut a character
/// apart (`None`).
pub open spec fn read_channels(h: Seq<char>, n: nat) -> Option<Seq<u8>>
    decreases n,
{
    if n == 0 {
        Some(Seq::<u8>::empty())
    } else if h.len() >= 2 && (h[0] as u32) < 0x80 && (h[1] as u32) < 0x80 {
        match read_channels(h.subrange(2, h.len() as int), (n - 1) as nat) {
            Some(rest) => Some(seq![channel_value(h[0], h[1])] + rest),
            None => None,
        }
    } else if h.len() >= 1 && 0x80 <= (h[0] as u32) && (h[0] as u32) < 0x800 {
        match read_channels(h.drop_first(), (n - 1) as nat) {
            Some(rest) => Some(seq![0u8] + rest),
            None => None,
        }
    } else {
        None
    }
}

/// The number of channels a token has: four when its digits are exactly
/// eight bytes long, else three.
pub open spec fn channel_count(h: Seq<char>) -> nat {
    if vstd::utf8::encode_utf8(h).len() == 8 {
        4
    } else {
        3
    }
}

/// A token can be read: its digits are at least six bytes long and every
/// pair read falls on character boundaries.
pub open spec fn readable_token(token: Seq<char>) -> bool {
    let h = color_digits(token);
    &&& vstd::utf8::encode_utf8(h).len() >= 6
    &&& read_channels(h, channel_count(h)) is Some
}

/// The channels of a readable token.
pub open spec fn color_channels_spec(token: Seq<char>) -> ColorChannels {
    let h = color_digits(token);
    let c = read_channels(h, channel_count(h))->0;
    ColorChannels {
        red: c[0],
        green: c[1],
        blue: c[2],
        alpha: if channel_count(h) == 4 {
            Some(c[3])
        } else {
            None
        },
    }
}

/// The number of UTF-8 bytes of the characters of `v` from `start` on,
/// counted up to 9.
fn utf8_size_capped(v: &[char], start: usize) -> (r: usize)
    requires
        start <= v@.len(),
    ensures
        r as int == if vstd::utf8::encode_utf8(v@.subrange(start as int, v@.len() as int)).len()
            < 9 {
            vstd::utf8::encode_utf8(v@.subrange(start as int, v@.len() as int)).len() as int
        } else {
            9
        },
{
    let n = v.len();
    let mut k: usize = n;
    let mut acc: usize = 0;
    assert(v@.subrange(n as int, n as int) =~= Seq::<char>::empty());
    while k > start
        invariant
            start <= k <= n,
            n == v@.len(),
            acc as int == if vstd::utf8::encode_utf8(v@.subrange(k as int, n as int)).len() < 9 {
                vstd::utf8::encode_utf8(v@.subrange(k as int, n as int)).len() as int
            } else {
                9
            },
        decreases k - start,
    {
        let c = v[k - 1];
        let u = c as u32;
        let w: usize = if u < 0x80 {
            1
        } else if u < 0x800 {
            2
        } else if u < 0x10000 {
            3
        } else {
            4
        };
        let ghost tail = v@.subrange(k - 1, n as int);
        assert(tail.drop_first() =~= v@.subrange(k as int, n as int));
        assert(tail[0] == c);
        proof {
            vstd::utf8::char_is_scalar(c);
        }
        assert(vstd::utf8::encode_scalar(c as u32).len() == w);
        acc = if acc + w < 9 {
            acc + w
        } else {
            9
        };
        k = k - 1;
    }
    acc
}

/// Reads one channel at `i`, giving its value and where the next one starts.
fn read_channel(v: &[char], i: usize, n: Ghost<nat>) -> (r: (u8, usize))
    requires
        i <= v@.len(),
        n@ >= 1,
        read_channels(v@.subrange(i as int, v@.len() as int), n@) is Some,
    ensures
        i < r.1 <= v@.len(),
        read_channels(v@.subrange(r.1 as int, v@.len() as int), (n@ - 1) as nat) is Some,
        read_channels(v@.subrange(i as int, v@.len() as int), n@)->0 == seq![r.0] + read_channels(
            v@.subrange(r.1 as int, v@.len() as int),
            (n@ - 1) as nat,
        )->0,
{
    let ghost h = v@.subrange(i as int, v@.len() as int);
    let c = v[i];
    assert(h[0] == c);
    if (c as u32) < 0x80 && i + 1 < v.len() && (v[i + 1] as u32) < 0x80 {
        assert(h[1] == v[i + 1]);
        assert(h.subrange(2, h.len() as int) =~= v@.subrange(i + 2, v@.len() as int));
        (channel_of(c, v[i + 1]), i + 2)
    } else {
        assert(h.drop_first() =~= v@.subrange(i + 1, v@.len() as int));
        if i + 1 < v.len() {
            assert(h[1] == v[i + 1]);
        }
        (0, i + 1)
    }
}

/// The channels of a colour token `#RRGGBB` or `#RRGGBBAA`: each pair of
/// digits gives one channel, and a pair that is not hexadecimal gives 0.
/// Tokens that would cut a character apart, or are too short, are not
/// read.
pub fn color_channels(token: &str) -> (r: ColorChannels)
    requires
        readable_token(token@),
    ensures
        r == color_channels_spec(token@),
{
    let v = chars_of(token);
    let mut i: usize = 0;
    assert(v@.subrange(0, v@.len() as int) =~= v@);
    while i < v.len() && v[i] == '#'
        invariant
            i <= v@.len(),
            trim_start_char(v@, '#') == trim_start_char(v@.subrange(i as int, v@.len() as int), '#'),
        decreases v@.len() - i,
    {
        assert(v@.subrange(i as int, v@.len() as int).drop_first() =~= v@.subrange(
            i + 1,
            v@.len() as int,
        ));
        i = i + 1;
    }
    let ghost h = v@.subrange(i as int, v@.len() as int);
    assert(trim_start_char(h, '#') == h) by {
        if h.len() > 0 {
            assert(h[0] == v@[i as int]);
        }
    }
    assert(h == color_digits(token@));
    let size = utf8_size_capped(v.as_slice(), i);
    let count: Ghost<nat> = Ghost(channel_count(h));
    let ghost all = read_channels(h, count@)->0;
    let (red, j1) = read_channel(v.as_slice(), i, count);
    let (green, j2) = read_channel(v.as_slice(), j1, Ghost((count@ - 1) as nat));
    let (blue, j3) = read_channel(v.as_slice(), j2, Ghost((count@ - 2) as nat));
    let alpha = if size == 8 {
        let (a, _j4) = read_channel(v.as_slice(), j3, Ghost((count@ - 3) as nat));
        Some(a)
    } else {
        None
    };
    assert(all[0] == red && all[1] == green && all[2] == blue);
    if size == 8 {
        assert(all[3] == alpha->0);
    }
    ColorChannels { red, green, blue, alpha }
}

impl EguiThemeAdapter {
    /// The channels of a colour token.
    pub fn color(token: &str) -> (r: ColorChannels)
        requires
            readable_token(token@),
        ensures
            r == color_channels_spec(token@),
    {
        color_channels(token)
    }
}

} // verus!
