//! A single vertical column of symbols.

use crate::symbol::Symbol;
use crate::symbol::darkened;
use crate::term::styled_symbol;
use vstd::prelude::*;

verus! {

/// A fixed-height ordered sequence of symbols: one terminal column.
pub struct Column {
    pub symbols: Vec<Symbol>,
}

impl Column {
    /// Create a column of the given height, every cell an invisible black
    /// space.
    pub fn new(height: usize) -> (c: Column)
        ensures
            c.symbols@.len() == height,
            forall|i: int|
                0 <= i < height ==> c.symbols@[i] == (Symbol { ch: ' ', brightness: 0 }),
    {
        let mut symbols: Vec<Symbol> = Vec::new();
        while symbols.len() < height
            invariant
                symbols@.len() <= height,
                forall|i: int|
                    0 <= i < symbols@.len() ==> symbols@[i] == (Symbol { ch: ' ', brightness: 0 }),
            decreases height - symbols@.len(),
        {
            symbols.push(Symbol::default());
        }
        Column { symbols }
    }

    /// Append the colored rendering of the symbol at the given row to the
    /// output buffer.
    pub fn print_symbol(&self, out: &mut Vec<char>, row: usize)
        requires
            (row as int) < self.symbols@.len(),
        ensures
            final(out)@ == old(out)@ + styled_symbol(self.symbols@[row as int]),
    {
        self.symbols[row].print(out);
    }

    /// Lower the brightness of every symbol in the column by one step.
    /// Each cell darkens independently of all the others.
    pub fn darken(&mut self)
        ensures
            final(self).symbols@.len() == old(self).symbols@.len(),
            forall|i: int|
                0 <= i < old(self).symbols@.len()
                    ==> final(self).symbols@[i] == darkened(old(self).symbols@[i]),
    {
        let mut i: usize = 0;
        while i < self.symbols.len()
            invariant
                self.symbols@.len() == old(self).symbols@.len(),
                forall|j: int| 0 <= j < i ==> self.symbols@[j] == darkened(old(self).symbols@[j]),
                forall|j: int|
                    i <= j < self.symbols@.len() ==> self.symbols@[j] == old(self).symbols@[j],
            decreases self.symbols@.len() - i as int,
        {
            self.symbols[i].darken();
            i += 1;
        }
    }

    /// Set the symbol at the given row to the given character at full
    /// brightness.
    pub fn set(&mut self, row: usize, ch: char)
        requires
            (row as int) < old(self).symbols@.len(),
        ensures
            final(self).symbols@ == old(self).symbols@.update(
                row as int,
                (Symbol { ch, brightness: 255 }),
            ),
    {
        self.symbols[row].set(ch);
    }
}

} // verus!
