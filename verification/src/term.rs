//! The styled form a symbol takes on the terminal: an ANSI truecolor
//! foreground escape followed by the symbol's character.

use crate::color::Rgb;
use crate::color::gradient;
use crate::symbol::Symbol;
use vstd::prelude::*;

verus! {

/// The character for one decimal digit.
pub open spec fn digit_char(d: int) -> char {
    if d == 0 {
        '0'
    } else if d == 1 {
        '1'
    } else if d == 2 {
        '2'
    } else if d == 3 {
        '3'
    } else if d == 4 {
        '4'
    } else if d == 5 {
        '5'
    } else if d == 6 {
        '6'
    } else if d == 7 {
        '7'
    } else if d == 8 {
        '8'
    } else {
        '9'
    }
}

/// The decimal digits of `n`, most significant first, with no leading
/// zeros.
pub open spec fn dec_chars(n: int) -> Seq<char>
    decreases n,
{
    if n < 10 {
        seq![digit_char(n)]
    } else {
        dec_chars(n / 10) + seq![digit_char(n % 10)]
    }
}

/// The ANSI truecolor foreground escape for an RGB color:
/// `ESC [ 3 8 ; 2 ; <r> ; <g> ; <b> m`, each channel in decimal.
pub open spec fn fg_escape_chars(c: Rgb) -> Seq<char> {
    seq!['\u{1b}', '[', '3', '8', ';', '2', ';'] + dec_chars(c.r as int) + seq![';'] + dec_chars(
        c.g as int,
    ) + seq![';'] + dec_chars(c.b as int) + seq!['m']
}

/// A symbol's on-screen rendering: the foreground escape for its
/// brightness's gradient color, followed by its character.
pub open spec fn styled_symbol(s: Symbol) -> Seq<char> {
    fg_escape_chars(gradient(s.brightness)) + seq![s.ch]
}

/// Relies on termion::color::Rgb::fg_string: it formats the ANSI
/// foreground escape `ESC [ 38;2;<r>;<g>;<b> m` with each channel as
/// decimal digits.
#[verifier::external_body]
pub(crate) fn fg_escape(c: &Rgb) -> (r: Vec<char>)
    ensures
        r@ == fg_escape_chars(*c),
{
    termion::color::Rgb(c.r, c.g, c.b).fg_string().chars().collect()
}

} // verus!
