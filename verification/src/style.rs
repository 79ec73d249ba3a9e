use vstd::prelude::*;

use crate::text::{split_spec, split_strings, str_eq, chars_of, string_from, views};
use ratatui::style::Color as RColor;
use std::str::FromStr;
use vstd::string::StringSliceAdditionalSpecFns;

verus! {

/// A terminal color.
#[derive(Debug, Clone, Copy, PartialEq, Eq, Structural)]
pub enum Color {
    Reset,
    Black,
    Red,
    Green,
    Yellow,
    Blue,
    Magenta,
    Cyan,
    Gray,
    DarkGray,
    LightRed,
    LightGreen,
    LightYellow,
    LightBlue,
    LightMagenta,
    LightCyan,
    White,
    Rgb(u8, u8, u8),
    Indexed(u8),
}

/// Whether a theme color paints the background or the foreground.
#[derive(Debug, Clone, Copy, PartialEq, Eq, Structural)]
pub enum Component {
    Bg,
    Fg,
}

/// The colors of the parts of the screen.
#[derive(Debug, Clone, Copy)]
pub struct Theme {
    pub container: Option<(Component, Color)>,
    pub time: Option<(Component, Color)>,
    pub text: Option<(Component, Color)>,
    pub border: Option<(Component, Color)>,
    pub title: Option<(Component, Color)>,
    pub greet: Option<(Component, Color)>,
    pub prompt: Option<(Component, Color)>,
    pub input: Option<(Component, Color)>,
    pub action: Option<(Component, Color)>,
    pub button: Option<(Component, Color)>,
}

impl Default for Theme {
    fn default() -> (r: Theme)
        ensures
            r == Theme::empty(),
    {
        Theme {
            container: None,
            time: None,
            text: None,
            border: None,
            title: None,
            greet: None,
            prompt: None,
            input: None,
            action: None,
            button: None,
        }
    }
}

impl Theme {
    /// The theme that sets no color.
    pub open spec fn empty() -> Theme {
        Theme {
            container: None,
            time: None,
            text: None,
            border: None,
            title: None,
            greet: None,
            prompt: None,
            input: None,
            action: None,
            button: None,
        }
    }
}

// ---------------------------------------------------------------------------
// Color strings
// ---------------------------------------------------------------------------

/// The bytes of the eight basic color names.
pub open spec fn black_bytes() -> Seq<u8> {
    seq![98u8, 108, 97, 99, 107]
}

pub open spec fn red_bytes() -> Seq<u8> {
    seq![114u8, 101, 100]
}

pub open spec fn green_bytes() -> Seq<u8> {
    seq![103u8, 114, 101, 101, 110]
}

pub open spec fn yellow_bytes() -> Seq<u8> {
    seq![121u8, 101, 108, 108, 111, 119]
}

pub open spec fn blue_bytes() -> Seq<u8> {
    seq![98u8, 108, 117, 101]
}

pub open spec fn magenta_bytes() -> Seq<u8> {
    seq![109u8, 97, 103, 101, 110, 116, 97]
}

pub open spec fn cyan_bytes() -> Seq<u8> {
    seq![99u8, 121, 97, 110]
}

pub open spec fn white_bytes() -> Seq<u8> {
    seq![119u8, 104, 105, 116, 101]
}

/// The value of a digit byte in the given radix (0-9, then a-z or A-Z).
pub open spec fn digit(c: u8, radix: u32) -> Option<int> {
    let v: int = if 48 <= c <= 57 {
        c - 48
    } else if 97 <= c <= 122 {
        c - 97 + 10
    } else if 65 <= c <= 90 {
        c - 65 + 10
    } else {
        99
    };
    if v < radix {
        Some(v)
    } else {
        None
    }
}

/// The number that a string of digits writes, if all are digits.
pub open spec fn digits_value(d: Seq<u8>, radix: u32) -> Option<int>
    decreases d.len(),
{
    if d.len() == 0 {
        Some(0)
    } else {
        match (digits_value(d.drop_last(), radix), digit(d.last(), radix)) {
            (Some(a), Some(x)) => Some(a * radix + x),
            _ => None,
        }
    }
}

/// What `u8::from_str_radix` gives: an optional `+` and at least one
/// digit, the value fitting in a byte.
pub open spec fn parse_u8(s: Seq<u8>, radix: u32) -> Option<u8> {
    let d = if s.len() > 0 && s[0] == 43 {
        s.drop_first()
    } else {
        s
    };
    if d.len() == 0 {
        None
    } else {
        match digits_value(d, radix) {
            Some(v) => if v <= 255 {
                Some(v as u8)
            } else {
                None
            },
            None => None,
        }
    }
}

proof fn lemma_digits_prefix(d: Seq<u8>, radix: u32, i: int)
    requires
        0 <= i <= d.len(),
        1 <= radix <= 36,
        digits_value(d, radix) is Some,
    ensures
        digits_value(d.take(i), radix) is Some,
        digits_value(d.take(i), radix)->0 <= digits_value(d, radix)->0,
        digits_value(d.take(i), radix)->0 >= 0,
    decreases d.len(),
{
    if i == d.len() {
        assert(d.take(i) == d);
        lemma_digits_nonneg(d, radix);
    } else {
        lemma_digits_prefix(d.drop_last(), radix, i);
        assert(d.drop_last().take(i) == d.take(i));
        let a = digits_value(d.drop_last(), radix)->0;
        lemma_digits_nonneg(d.drop_last(), radix);
        assert(a * radix >= a) by (nonlinear_arith)
            requires
                a >= 0,
                radix >= 1,
        ;
    }
}

proof fn lemma_digits_nonneg(d: Seq<u8>, radix: u32)
    requires
        digits_value(d, radix) is Some,
    ensures
        digits_value(d, radix)->0 >= 0,
    decreases d.len(),
{
    if d.len() > 0 {
        lemma_digits_nonneg(d.drop_last(), radix);
        let a = digits_value(d.drop_last(), radix)->0;
        assert(a * radix >= 0) by (nonlinear_arith)
            requires
                a >= 0,
        ;
    }
}

fn digit_exec(c: u8, radix: u32) -> (r: Option<u32>)
    requires
        radix <= 36,
    ensures
        match r {
            Some(v) => digit(c, radix) == Some(v as int),
            None => digit(c, radix) is None,
        },
{
    let v: u32 = if 48 <= c && c <= 57 {
        (c - 48) as u32
    } else if 97 <= c && c <= 122 {
        (c - 97 + 10) as u32
    } else if 65 <= c && c <= 90 {
        (c - 65 + 10) as u32
    } else {
        99
    };
    if v < radix {
        Some(v)
    } else {
        None
    }
}

/// `u8::from_str_radix` on the given bytes.
pub fn parse_u8_exec(s: &[u8], radix: u32) -> (r: Option<u8>)
    requires
        2 <= radix <= 36,
    ensures
        r == parse_u8(s@, radix),
{
    let start: usize = if s.len() > 0 && s[0] == 43 {
        1
    } else {
        0
    };
    let ghost d = if s@.len() > 0 && s@[0] == 43 {
        s@.drop_first()
    } else {
        s@
    };
    assert(d == s@.skip(start as int));
    if start == s.len() {
        return None;
    }
    let mut acc: u32 = 0;
    let mut i: usize = start;
    assert(d.take(0) =~= Seq::<u8>::empty());
    while i < s.len()
        invariant
            start <= i <= s.len(),
            start < s.len(),
            d == s@.skip(start as int),
            d == (if s@.len() > 0 && s@[0] == 43 {
                s@.drop_first()
            } else {
                s@
            }),
            d.len() > 0,
            acc <= 255,
            2 <= radix <= 36,
            digits_value(d.take(i - start), radix) == Some(acc as int),
        decreases s.len() - i,
    {
        let ghost k = i - start;
        assert(d.take(k + 1).drop_last() == d.take(k));
        assert(d.take(k + 1).last() == s@[i as int]);
        match digit_exec(s[i], radix) {
            None => {
                proof {
                    assert(digits_value(d.take(k + 1), radix) is None);
                    if digits_value(d, radix) is Some {
                        lemma_digits_prefix(d, radix, k + 1);
                    }
                }
                return None;
            },
            Some(x) => {
                assert(acc * radix <= 255 * 36) by (nonlinear_arith)
                    requires
                        acc <= 255,
                        radix <= 36,
                ;
                let next = acc * radix + x;
                if next > 255 {
                    proof {
                        assert(digits_value(d.take(k + 1), radix) == Some(next as int));
                        if digits_value(d, radix) is Some {
                            lemma_digits_prefix(d, radix, k + 1);
                        }
                    }
                    return None;
                }
                acc = next;
            },
        }
        i += 1;
    }
    assert(d.take(s.len() - start) == d);
    Some(acc as u8)
}

fn bytes_eq(a: &[u8], b: &[u8]) -> (r: bool)
    ensures
        r == (a@ == b@),
{
    if a.len() != b.len() {
        return false;
    }
    let mut i: usize = 0;
    while i < a.len()
        invariant
            a.len() == b.len(),
            i <= a.len(),
            forall|j: int| 0 <= j < i ==> a@[j] == b@[j],
        decreases a.len() - i,
    {
        if a[i] != b[i] {
            return false;
        }
        i += 1;
    }
    assert(a@ =~= b@);
    true
}

/// The form `#RRGGBB`: seven bytes starting with `#`.
pub open spec fn is_hex_form(b: Seq<u8>) -> bool {
    b.len() == 7 && b[0] == 35
}

/// The color a color string names: one of the eight basic names, `#` and
/// six hex digits (a pair that does not parse gives 0), or else an index
/// 0-255 (0 when the text is no such number).
pub open spec fn parse_color_spec(b: Seq<u8>) -> Color {
    let or0 = |o: Option<u8>| match o {
        Some(v) => v,
        None => 0u8,
    };
    if b == black_bytes() {
        Color::Black
    } else if b == red_bytes() {
        Color::Red
    } else if b == green_bytes() {
        Color::Green
    } else if b == yellow_bytes() {
        Color::Yellow
    } else if b == blue_bytes() {
        Color::Blue
    } else if b == magenta_bytes() {
        Color::Magenta
    } else if b == cyan_bytes() {
        Color::Cyan
    } else if b == white_bytes() {
        Color::White
    } else if is_hex_form(b) {
        Color::Rgb(
            or0(parse_u8(b.subrange(1, 3), 16)),
            or0(parse_u8(b.subrange(3, 5), 16)),
            or0(parse_u8(b.subrange(5, 7), 16)),
        )
    } else {
        Color::Indexed(or0(parse_u8(b, 10)))
    }
}

fn or_zero(o: Option<u8>) -> (r: u8)
    ensures
        r == match o {
            Some(v) => v,
            None => 0u8,
        },
{
    match o {
        Some(v) => v,
        None => 0,
    }
}

fn sub_bytes(b: &[u8], from: usize, to: usize) -> (r: Vec<u8>)
    requires
        from <= to <= b.len(),
    ensures
        r@ == b@.subrange(from as int, to as int),
{
    let mut r: Vec<u8> = Vec::new();
    let mut i = from;
    while i < to
        invariant
            from <= i <= to <= b.len(),
            r@ == b@.subrange(from as int, i as int),
        decreases to - i,
    {
        r.push(b[i]);
        assert(b@.subrange(from as int, i + 1) == b@.subrange(from as int, i as int).push(b@[i as int]));
        i += 1;
    }
    r
}

/// Parses a color: a name, `#RRGGBB`, or an index 0-255.
pub fn parse_color(color: &str) -> (r: Option<Color>)
    requires
        is_hex_form(color.spec_bytes()) ==> vstd::utf8::is_char_boundary(color.spec_bytes(), 3)
            && vstd::utf8::is_char_boundary(color.spec_bytes(), 5),
    ensures
        r == Some(parse_color_spec(color.spec_bytes())),
{
    let b = color.as_bytes();
    let black: [u8; 5] = [98, 108, 97, 99, 107];
    let red: [u8; 3] = [114, 101, 100];
    let green: [u8; 5] = [103, 114, 101, 101, 110];
    let yellow: [u8; 6] = [121, 101, 108, 108, 111, 119];
    let blue: [u8; 4] = [98, 108, 117, 101];
    let magenta: [u8; 7] = [109, 97, 103, 101, 110, 116, 97];
    let cyan: [u8; 4] = [99, 121, 97, 110];
    let white: [u8; 5] = [119, 104, 105, 116, 101];
    assert(black@ == black_bytes());
    assert(red@ == red_bytes());
    assert(green@ == green_bytes());
    assert(yellow@ == yellow_bytes());
    assert(blue@ == blue_bytes());
    assert(magenta@ == magenta_bytes());
    assert(cyan@ == cyan_bytes());
    assert(white@ == white_bytes());
    if bytes_eq(b, black.as_slice()) {
        Some(Color::Black)
    } else if bytes_eq(b, red.as_slice()) {
        Some(Color::Red)
    } else if bytes_eq(b, green.as_slice()) {
        Some(Color::Green)
    } else if bytes_eq(b, yellow.as_slice()) {
        Some(Color::Yellow)
    } else if bytes_eq(b, blue.as_slice()) {
        Some(Color::Blue)
    } else if bytes_eq(b, magenta.as_slice()) {
        Some(Color::Magenta)
    } else if bytes_eq(b, cyan.as_slice()) {
        Some(Color::Cyan)
    } else if bytes_eq(b, white.as_slice()) {
        Some(Color::White)
    } else if b.len() == 7 && b[0] == 35 {
        let r = or_zero(parse_u8_exec(sub_bytes(b, 1, 3).as_slice(), 16));
        let g = or_zero(parse_u8_exec(sub_bytes(b, 3, 5).as_slice(), 16));
        let bl = or_zero(parse_u8_exec(sub_bytes(b, 5, 7).as_slice(), 16));
        Some(Color::Rgb(r, g, bl))
    } else {
        Some(Color::Indexed(or_zero(parse_u8_exec(b, 10))))
    }
}

/// Whether a text on this background is best black: by perceived
/// brightness (ITU-R BT.601 weights) above the middle for RGB colors, by a
/// table of dark indices for indexed ones, and by name otherwise. In the
/// grey ramp 232..=255 (grey level 8 + 10 per step) the steps up to level
/// 128, 232..=244, count as dark, as the brightness rule has it.
pub open spec fn contrast_spec(bg: Color) -> Color {
    match bg {
        Color::Rgb(r, g, b) => if 299 * r + 587 * g + 114 * b > 128000 {
            Color::Black
        } else {
            Color::White
        },
        Color::Indexed(n) => if n < 8 || (16 <= n < 52) || (88 <= n < 128) || (160 <= n < 245) {
            Color::White
        } else {
            Color::Black
        },
        Color::Black => Color::White,
        Color::White | Color::LightCyan | Color::LightGreen | Color::LightYellow | Color::LightBlue
        | Color::LightMagenta | Color::LightRed => Color::Black,
        _ => Color::White,
    }
}

/// A foreground color that stands out on the given background: white on
/// dark backgrounds, black on light ones.
pub fn contrast_fg(bg: Color) -> (r: Color)
    ensures
        r == contrast_spec(bg),
{
    match bg {
        Color::Rgb(r, g, b) => {
            let brightness: u32 = 299 * (r as u32) + 587 * (g as u32) + 114 * (b as u32);
            if brightness > 128000 {
                Color::Black
            } else {
                Color::White
            }
        },
        Color::Indexed(n) => {
            if n < 8 || (16 <= n && n < 52) || (88 <= n && n < 128) || (160 <= n && n < 245) {
                Color::White
            } else {
                Color::Black
            }
        },
        Color::Black => Color::White,
        Color::White | Color::LightCyan | Color::LightGreen | Color::LightYellow | Color::LightBlue
        | Color::LightMagenta | Color::LightRed => Color::Black,
        _ => Color::White,
    }
}

// ---------------------------------------------------------------------------
// Themes
// ---------------------------------------------------------------------------

/// The color that ratatui reads from a color string (names in any case,
/// with spaces, dashes and underscores ignored, an index 0-255, or
/// `#RRGGBB`), if it reads one.
pub uninterp spec fn color_from_str_spec(s: Seq<char>) -> Option<Color>;

/// ratatui's `<Color as FromStr>::from_str`, with the color carried over
/// variant by variant. What it accepts (a lower-casing and rewriting of
/// names, then an index or a hex triple) is named, not stated.
#[verifier::external_body]
fn color_from_str(s: &str) -> (r: Option<Color>)
    ensures
        r == color_from_str_spec(s@),
{
    let c = RColor::from_str(s).ok()?;
    Some(match c {
        RColor::Reset => Color::Reset, RColor::Black => Color::Black, RColor::Red => Color::Red,
        RColor::Green => Color::Green, RColor::Yellow => Color::Yellow, RColor::Blue => Color::Blue,
        RColor::Magenta => Color::Magenta, RColor::Cyan => Color::Cyan, RColor::Gray => Color::Gray,
        RColor::DarkGray => Color::DarkGray, RColor::LightRed => Color::LightRed,
        RColor::LightGreen => Color::LightGreen, RColor::LightYellow => Color::LightYellow,
        RColor::LightBlue => Color::LightBlue, RColor::LightMagenta => Color::LightMagenta,
        RColor::LightCyan => Color::LightCyan, RColor::White => Color::White,
        RColor::Rgb(r, g, b) => Color::Rgb(r, g, b), RColor::Indexed(i) => Color::Indexed(i),
    })
}

/// The index of the first occurrence of `c` in `p`.
pub open spec fn first_index(p: Seq<char>, c: char) -> Option<int>
    decreases p.len(),
{
    if p.len() == 0 {
        None
    } else if p[0] == c {
        Some(0)
    } else {
        match first_index(p.drop_first(), c) {
            Some(i) => Some(i + 1),
            None => None,
        }
    }
}

proof fn lemma_first_index(p: Seq<char>, c: char, i: int)
    requires
        0 <= i <= p.len(),
        forall|j: int| 0 <= j < i ==> p[j] != c,
    ensures
        i < p.len() && p[i] == c ==> first_index(p, c) == Some(i),
        i == p.len() ==> first_index(p, c) is None,
    decreases i,
{
    if i > 0 {
        lemma_first_index(p.drop_first(), c, i - 1);
    }
}

/// A `key=value` directive split at its first `=`.
pub open spec fn directive(p: Seq<char>) -> Option<(Seq<char>, Seq<char>)> {
    match first_index(p, '=') {
        Some(i) => Some((p.take(i), p.skip(i + 1))),
        None => None,
    }
}

fn split_once_eq(p: &str) -> (r: Option<(String, String)>)
    ensures
        match r {
            Some((k, v)) => directive(p@) == Some((k@, v@)),
            None => directive(p@) is None,
        },
{
    let v = chars_of(p);
    let mut i: usize = 0;
    while i < v.len()
        invariant
            v@ == p@,
            i <= v.len(),
            forall|j: int| 0 <= j < i ==> v@[j] != '=',
        decreases v.len() - i,
    {
        if v[i] == '=' {
            proof {
                lemma_first_index(p@, '=', i as int);
            }
            let mut key: Vec<char> = Vec::new();
            let mut k: usize = 0;
            while k < i
                invariant
                    k <= i < v.len(),
                    key@ == v@.take(k as int),
                decreases i - k,
            {
                key.push(v[k]);
                assert(v@.take(k + 1) == v@.take(k as int).push(v@[k as int]));
                k += 1;
            }
            let mut val: Vec<char> = Vec::new();
            let mut k: usize = i + 1;
            while k < v.len()
                invariant
                    i + 1 <= k <= v.len(),
                    val@ == v@.subrange(i + 1, k as int),
                decreases v.len() - k,
            {
                val.push(v[k]);
                assert(v@.subrange(i + 1, k + 1) == v@.subrange(i + 1, k as int).push(v@[k as int]));
                k += 1;
            }
            assert(v@.subrange(i + 1, v.len() as int) == v@.skip(i + 1));
            return Some((string_from(&key), string_from(&val)));
        }
        i += 1;
    }
    proof {
        lemma_first_index(p@, '=', i as int);
    }
    None
}

/// The theme with the part named by `key` set to `c` (the container as a
/// background, the rest as foregrounds); an unknown key changes nothing.
pub open spec fn with_key(t: Theme, key: Seq<char>, c: Color) -> Theme {
    if key == "container"@ {
        Theme { container: Some((Component::Bg, c)), ..t }
    } else if key == "time"@ {
        Theme { time: Some((Component::Fg, c)), ..t }
    } else if key == "text"@ {
        Theme { text: Some((Component::Fg, c)), ..t }
    } else if key == "border"@ {
        Theme { border: Some((Component::Fg, c)), ..t }
    } else if key == "title"@ {
        Theme { title: Some((Component::Fg, c)), ..t }
    } else if key == "greet"@ {
        Theme { greet: Some((Component::Fg, c)), ..t }
    } else if key == "prompt"@ {
        Theme { prompt: Some((Component::Fg, c)), ..t }
    } else if key == "input"@ {
        Theme { input: Some((Component::Fg, c)), ..t }
    } else if key == "action"@ {
        Theme { action: Some((Component::Fg, c)), ..t }
    } else if key == "button"@ {
        Theme { button: Some((Component::Fg, c)), ..t }
    } else {
        t
    }
}

/// The theme after the directives, taken in order; a piece without `=` or
/// with a color that does not parse is skipped.
pub open spec fn directives_applied(t: Theme, pieces: Seq<Seq<char>>) -> Theme
    decreases pieces.len(),
{
    if pieces.len() == 0 {
        t
    } else {
        let t1 = directives_applied(t, pieces.drop_last());
        match directive(pieces.last()) {
            Some((k, v)) => match color_from_str_spec(v) {
                Some(c) => with_key(t1, k, c),
                None => t1,
            },
            None => t1,
        }
    }
}

/// Unset parts take the color of a related part: time and greeting that
/// of the text, title that of the border, button that of the action.
pub open spec fn with_fallbacks(t: Theme) -> Theme {
    Theme {
        time: if t.time is None { t.text } else { t.time },
        greet: if t.greet is None { t.text } else { t.greet },
        title: if t.title is None { t.border } else { t.title },
        button: if t.button is None { t.action } else { t.button },
        ..t
    }
}

/// The theme that a `key=value;key=value` specification describes.
pub open spec fn theme_spec(spec: Seq<char>) -> Theme {
    with_fallbacks(directives_applied(Theme::empty(), split_spec(spec, ';')))
}

/// A part of the screen that a theme colors.
#[derive(Debug, Clone, Copy, PartialEq, Eq, Structural)]
pub enum Themed {
    Container,
    Time,
    Text,
    Border,
    Title,
    Greet,
    Prompt,
    Input,
    Action,
    ActionButton,
}

/// The colors a part is drawn with.
#[derive(Debug, Clone, Copy, PartialEq, Eq, Structural)]
pub struct Style {
    pub fg: Option<Color>,
    pub bg: Option<Color>,
}

impl Style {
    pub open spec fn plain() -> Style {
        Style { fg: None, bg: None }
    }
}

/// The theme's setting for a part.
pub open spec fn slot(t: Theme, target: Themed) -> Option<(Component, Color)> {
    match target {
        Themed::Container => t.container,
        Themed::Time => t.time,
        Themed::Text => t.text,
        Themed::Border => t.border,
        Themed::Title => t.title,
        Themed::Greet => t.greet,
        Themed::Prompt => t.prompt,
        Themed::Input => t.input,
        Themed::Action => t.action,
        Themed::ActionButton => t.button,
    }
}

/// A style with the theme's setting for a part applied on top.
pub open spec fn apply_spec(t: Theme, style: Style, target: Themed) -> Style {
    match slot(t, target) {
        Some((Component::Fg, c)) => Style { fg: Some(c), ..style },
        Some((Component::Bg, c)) => Style { bg: Some(c), ..style },
        None => style,
    }
}

/// The plain style with the settings for the parts applied in order.
pub open spec fn of_spec(t: Theme, targets: Seq<Themed>) -> Style
    decreases targets.len(),
{
    if targets.len() == 0 {
        Style::plain()
    } else {
        apply_spec(t, of_spec(t, targets.drop_last()), targets.last())
    }
}

fn fill(slot: &mut Option<(Component, Color)>, color: Color)
    ensures
        *final(slot) == (if *old(slot) is None {
            Some((Component::Fg, color))
        } else {
            *old(slot)
        }),
{
    if slot.is_none() {
        *slot = Some((Component::Fg, color));
    }
}

impl Theme {
    /// Sets the container background, unless the theme already sets it.
    pub fn set_container_bg(&mut self, color: Color)
        ensures
            *final(self) == (Theme {
                container: if old(self).container is None {
                    Some((Component::Bg, color))
                } else {
                    old(self).container
                },
                ..*old(self)
            }),
    {
        if self.container.is_none() {
            self.container = Some((Component::Bg, color));
        }
    }

    /// Gives every text part the foreground color, unless the theme already
    /// colors it.
    pub fn set_text_fg(&mut self, color: Color)
        ensures
            ({
                let f = |o: Option<(Component, Color)>| if o is None {
                    Some((Component::Fg, color))
                } else {
                    o
                };
                *final(self) == Theme {
                    text: f(old(self).text),
                    time: f(old(self).time),
                    greet: f(old(self).greet),
                    prompt: f(old(self).prompt),
                    input: f(old(self).input),
                    action: f(old(self).action),
                    button: f(old(self).button),
                    border: f(old(self).border),
                    title: f(old(self).title),
                    ..*old(self)
                }
            }),
    {
        fill(&mut self.text, color);
        fill(&mut self.time, color);
        fill(&mut self.greet, color);
        fill(&mut self.prompt, color);
        fill(&mut self.input, color);
        fill(&mut self.action, color);
        fill(&mut self.button, color);
        fill(&mut self.border, color);
        fill(&mut self.title, color);
    }

    /// The container background color, if set.
    pub fn container_bg(&self) -> (r: Option<Color>)
        ensures
            r == match self.container {
                Some((_, c)) => Some(c),
                None => None,
            },
    {
        match self.container {
            Some((_, c)) => Some(c),
            None => None,
        }
    }

    /// Sets the part that `key` names to `c`: the container as a
    /// background, the other parts as foregrounds; an unknown key changes
    /// nothing.
    pub fn set_key(&mut self, key: &str, c: Color)
        ensures
            *final(self) == with_key(*old(self), key@, c),
    {
        if str_eq(key, "container") {
            self.container = Some((Component::Bg, c));
        } else if str_eq(key, "time") {
            self.time = Some((Component::Fg, c));
        } else if str_eq(key, "text") {
            self.text = Some((Component::Fg, c));
        } else if str_eq(key, "border") {
            self.border = Some((Component::Fg, c));
        } else if str_eq(key, "title") {
            self.title = Some((Component::Fg, c));
        } else if str_eq(key, "greet") {
            self.greet = Some((Component::Fg, c));
        } else if str_eq(key, "prompt") {
            self.prompt = Some((Component::Fg, c));
        } else if str_eq(key, "input") {
            self.input = Some((Component::Fg, c));
        } else if str_eq(key, "action") {
            self.action = Some((Component::Fg, c));
        } else if str_eq(key, "button") {
            self.button = Some((Component::Fg, c));
        }
    }

    /// Reads a theme from `key=value` directives separated by `;`.
    pub fn parse(spec: &str) -> (r: Theme)
        ensures
            r == theme_spec(spec@),
    {
        let pieces = split_strings(spec, ';');
        let mut style = Theme {
            container: None,
            time: None,
            text: None,
            border: None,
            title: None,
            greet: None,
            prompt: None,
            input: None,
            action: None,
            button: None,
        };
        let mut i: usize = 0;
        while i < pieces.len()
            invariant
                i <= pieces.len(),
                views(pieces@) == split_spec(spec@, ';'),
                style == directives_applied(Theme::empty(), views(pieces@).take(i as int)),
            decreases pieces.len() - i,
        {
            assert(views(pieces@).take(i + 1).drop_last() == views(pieces@).take(i as int));
            assert(views(pieces@).take(i + 1).last() == pieces@[i as int]@);
            if let Some((key, value)) = split_once_eq(pieces[i].as_str()) {
                if let Some(color) = color_from_str(value.as_str()) {
                    style.set_key(key.as_str(), color);
                }
            }
            i += 1;
        }
        assert(views(pieces@).take(pieces.len() as int) == views(pieces@));
        style.fill_fallbacks();
        style
    }

    /// Gives the unset parts the color of a related part: time and greeting
    /// that of the text, title that of the border, button that of the action.
    pub fn fill_fallbacks(&mut self)
        ensures
            *final(self) == with_fallbacks(*old(self)),
    {
        if self.time.is_none() {
            self.time = self.text;
        }
        if self.greet.is_none() {
            self.greet = self.text;
        }
        if self.title.is_none() {
            self.title = self.border;
        }
        if self.button.is_none() {
            self.button = self.action;
        }
    }

    /// The style for the parts, the theme's setting for each applied in
    /// turn.
    pub fn of(&self, targets: &[Themed]) -> (r: Style)
        ensures
            r == of_spec(*self, targets@),
    {
        let mut style = Style { fg: None, bg: None };
        let mut i: usize = 0;
        while i < targets.len()
            invariant
                i <= targets.len(),
                style == of_spec(*self, targets@.take(i as int)),
            decreases targets.len() - i,
        {
            assert(targets@.take(i + 1).drop_last() == targets@.take(i as int));
            style = self.apply(style, targets[i]);
            i += 1;
        }
        assert(targets@.take(targets.len() as int) == targets@);
        style
    }

    fn apply(&self, style: Style, target: Themed) -> (r: Style)
        ensures
            r == apply_spec(*self, style, target),
    {
        let slot = match target {
            Themed::Container => self.container,
            Themed::Time => self.time,
            Themed::Text => self.text,
            Themed::Border => self.border,
            Themed::Title => self.title,
            Themed::Greet => self.greet,
            Themed::Prompt => self.prompt,
            Themed::Input => self.input,
            Themed::Action => self.action,
            Themed::ActionButton => self.button,
        };
        match slot {
            Some((Component::Fg, c)) => Style { fg: Some(c), ..style },
            Some((Component::Bg, c)) => Style { bg: Some(c), ..style },
            None => style,
        }
    }
}

} // verus!
