//! A single character cell with a brightness value.

use crate::color::color;
use crate::term::fg_escape;
use crate::term::styled_symbol;
use vstd::prelude::*;

verus! {

/// One character cell on the screen together with its current brightness.
#[derive(Clone, Copy, PartialEq, Eq, Debug)]
pub struct Symbol {
    pub ch: char,
    pub brightness: u8,
}

/// The result of lowering a symbol's brightness by one step: the brightness
/// drops by 10, saturating at 0, and the character is kept.
pub open spec fn darkened(s: Symbol) -> Symbol {
    Symbol {
        ch: s.ch,
        brightness: if s.brightness >= 10 {
            (s.brightness - 10) as u8
        } else {
            0
        },
    }
}

impl Default for Symbol {
    /// A fresh cell is an invisible black space.
    fn default() -> (s: Self)
        ensures
            s.ch == ' ',
            s.brightness == 0,
    {
        Symbol { ch: ' ', brightness: 0 }
    }
}

impl Symbol {
    /// Append this symbol's colored rendering — the foreground escape for
    /// its gradient color, then its character — to the output buffer.
    pub fn print(&self, out: &mut Vec<char>)
        ensures
            final(out)@ == old(out)@ + styled_symbol(*self),
    {
        let rgb = color(self.brightness);
        let mut esc = fg_escape(&rgb);
        out.append(&mut esc);
        out.push(self.ch);
        proof {
            assert(out@ =~= old(out)@ + styled_symbol(*self));
        }
    }

    /// Lower the brightness by one step, never dropping below zero.
    pub fn darken(&mut self)
        ensures
            *final(self) == darkened(*old(self)),
    {
        self.brightness = self.brightness.saturating_sub(10);
    }

    /// Replace the character and bring the cell back to full brightness.
    pub fn set(&mut self, ch: char)
        ensures
            final(self).ch == ch,
            final(self).brightness == 255,
    {
        self.ch = ch;
        self.brightness = 255;
    }
}

} // verus!
