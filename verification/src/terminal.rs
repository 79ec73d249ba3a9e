use vstd::prelude::*;

use crate::style::{is_hex_form, parse_color, parse_color_spec, Color};
use crate::text::push_char;
use vstd::string::StringSliceAdditionalSpecFns;

verus! {

/// The decimal digit `d` as a character.
pub open spec fn digit_char(d: nat) -> char {
    seq!['0', '1', '2', '3', '4', '5', '6', '7', '8', '9'][d as int]
}

/// The decimal writing of a number, without leading zeros.
pub open spec fn decimal(n: nat) -> Seq<char>
    decreases n,
{
    if n < 10 {
        seq![digit_char(n)]
    } else {
        decimal(n / 10).push(digit_char(n % 10))
    }
}

/// The control sequence introducer, escape and `[`.
pub open spec fn csi() -> Seq<char> {
    seq!['\x1b', '[']
}

/// The place of a basic color among the eight ANSI background codes
/// 40 to 47.
pub open spec fn basic_index(c: Color) -> Option<nat> {
    match c {
        Color::Black => Some(0),
        Color::Red => Some(1),
        Color::Green => Some(2),
        Color::Yellow => Some(3),
        Color::Blue => Some(4),
        Color::Magenta => Some(5),
        Color::Cyan => Some(6),
        Color::White => Some(7),
        _ => None,
    }
}

/// The escape sequence that sets the terminal background: `ESC [ 4n m`
/// for a basic color, `ESC [ 48;2;r;g;b m` for an RGB color and
/// `ESC [ 48;5;n m` for an indexed one. Other colors give nothing; no
/// color string names them.
pub open spec fn bg_sequence(c: Color) -> Seq<char> {
    match basic_index(c) {
        Some(i) => csi() + seq!['4', digit_char(i), 'm'],
        None => match c {
            Color::Rgb(r, g, b) => csi() + seq!['4', '8', ';', '2', ';'] + decimal(r as nat) + seq![';']
                + decimal(g as nat) + seq![';'] + decimal(b as nat) + seq!['m'],
            Color::Indexed(n) => csi() + seq!['4', '8', ';', '5', ';'] + decimal(n as nat) + seq!['m'],
            _ => Seq::empty(),
        },
    }
}

/// The escape sequence that gives the terminal its own background again.
pub open spec fn reset_bg_sequence() -> Seq<char> {
    csi() + seq!['4', '9', 'm']
}

fn push_digit(s: &mut String, d: u8)
    requires
        d < 10,
    ensures
        final(s)@ == old(s)@.push(digit_char(d as nat)),
{
    let digits: [char; 10] = ['0', '1', '2', '3', '4', '5', '6', '7', '8', '9'];
    assert(digits@ == seq!['0', '1', '2', '3', '4', '5', '6', '7', '8', '9']);
    push_char(s, digits[d as usize]);
}

/// Appends the decimal writing of a byte.
fn push_decimal(s: &mut String, n: u8)
    ensures
        final(s)@ == old(s)@ + decimal(n as nat),
{
    proof {
        reveal_with_fuel(decimal, 3);
    }
    if n >= 100 {
        push_digit(s, n / 100);
        push_digit(s, (n / 10) % 10);
        assert(decimal((n / 10) as nat) == seq![digit_char((n / 100) as nat), digit_char(((n / 10) % 10) as nat)]);
    } else if n >= 10 {
        push_digit(s, n / 10);
        assert(decimal((n / 10) as nat) == seq![digit_char((n / 10) as nat)]);
    }
    push_digit(s, n % 10);
}

fn push_csi(s: &mut String)
    ensures
        final(s)@ == old(s)@ + csi(),
{
    push_char(s, '\x1b');
    push_char(s, '[');
}

/// The escape sequence that paints the terminal background in the color
/// that a color string names (as `parse_color` reads it).
pub fn bg_color_sequence(color: &str) -> (r: String)
    requires
        is_hex_form(color.spec_bytes()) ==> vstd::utf8::is_char_boundary(color.spec_bytes(), 3)
            && vstd::utf8::is_char_boundary(color.spec_bytes(), 5),
    ensures
        r@ == bg_sequence(parse_color_spec(color.spec_bytes())),
{
    let mut s = String::new();
    let c = match parse_color(color) {
        Some(c) => c,
        None => Color::Reset,
    };
    let basic: Option<u8> = match c {
        Color::Black => Some(0),
        Color::Red => Some(1),
        Color::Green => Some(2),
        Color::Yellow => Some(3),
        Color::Blue => Some(4),
        Color::Magenta => Some(5),
        Color::Cyan => Some(6),
        Color::White => Some(7),
        _ => None,
    };
    match basic {
        Some(i) => {
            push_csi(&mut s);
            push_char(&mut s, '4');
            push_digit(&mut s, i);
            push_char(&mut s, 'm');
        },
        None => match c {
            Color::Rgb(r, g, b) => {
                push_csi(&mut s);
                push_char(&mut s, '4');
                push_char(&mut s, '8');
                push_char(&mut s, ';');
                push_char(&mut s, '2');
                push_char(&mut s, ';');
                push_decimal(&mut s, r);
                push_char(&mut s, ';');
                push_decimal(&mut s, g);
                push_char(&mut s, ';');
                push_decimal(&mut s, b);
                push_char(&mut s, 'm');
            },
            Color::Indexed(n) => {
                push_csi(&mut s);
                push_char(&mut s, '4');
                push_char(&mut s, '8');
                push_char(&mut s, ';');
                push_char(&mut s, '5');
                push_char(&mut s, ';');
                push_decimal(&mut s, n);
                push_char(&mut s, 'm');
            },
            _ => {},
        },
    }
    assert(s@ =~= bg_sequence(c));
    s
}

/// The escape sequence that resets the terminal background.
pub fn reset_bg_color_sequence() -> (r: String)
    ensures
        r@ == reset_bg_sequence(),
{
    let mut s = String::new();
    push_csi(&mut s);
    push_char(&mut s, '4');
    push_char(&mut s, '9');
    push_char(&mut s, 'm');
    assert(s@ =~= reset_bg_sequence());
    s
}

} // verus!
