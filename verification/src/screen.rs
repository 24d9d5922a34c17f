//! The whole screen: all columns and all falling droplets, with the
//! per-frame operations render, darken and advance.

use crate::column::Column;
use crate::droplet::Droplet;
use crate::droplet::droplet_advanced;
use crate::droplet::droplet_wf;
use crate::rng::fresh_rng;
use crate::rng::gen_uppercase;
use crate::symbol::Symbol;
use crate::symbol::darkened;
use crate::term::styled_symbol;
use vstd::prelude::*;

verus! {

/// The aggregate: a grid of symbols, one column per terminal column, and
/// one droplet per column at the start.
pub struct Screen {
    pub width: usize,
    pub height: usize,
    pub columns: Vec<Column>,
    pub droplets: Vec<Droplet>,
}

/// The symbol in column `c` at row `r`.
pub open spec fn sym_at(s: Screen, c: int, r: int) -> Symbol {
    s.columns@[c].symbols@[r]
}

/// A cell freshly struck by a droplet: full brightness and an uppercase
/// letter.
pub open spec fn struck(s: Symbol) -> bool {
    s.brightness == 255 && 'A' <= s.ch && s.ch <= 'Z'
}

/// A screen is well formed when its dimensions are positive, the height
/// fits an `isize` row index, there is one column of that height per unit
/// of width, and one droplet per column, each within bounds.
pub open spec fn screen_wf(s: Screen) -> bool {
    &&& 0 < s.width
    &&& 0 < s.height
    &&& (s.height as int) <= (isize::MAX as int)
    &&& s.columns@.len() == s.width
    &&& (forall|c: int|
        0 <= c < s.columns@.len() ==> (#[trigger] s.columns@[c]).symbols@.len() == s.height)
    &&& s.droplets@.len() == s.width
    &&& (forall|i: int|
        0 <= i < s.droplets@.len() ==> droplet_wf(
            #[trigger] s.droplets@[i],
            s.width as int,
            s.height as int,
        ))
}

/// The rendering of row `r` across the first `c` columns, left to right.
pub open spec fn row_prefix(s: Screen, r: int, c: int) -> Seq<char>
    decreases c,
{
    if c <= 0 {
        Seq::empty()
    } else {
        row_prefix(s, r, c - 1) + styled_symbol(sym_at(s, c - 1, r))
    }
}

/// The rendering of the first `r` rows, each row followed by a carriage
/// return and a line feed.
pub open spec fn frame_prefix(s: Screen, r: int) -> Seq<char>
    decreases r,
{
    if r <= 0 {
        Seq::empty()
    } else {
        frame_prefix(s, r - 1) + row_prefix(s, r - 1, s.width as int) + seq!['\r', '\n']
    }
}

/// The full-frame rendering of the screen: every row top to bottom, every
/// column left to right, each row closed by a line break.
pub open spec fn frame(s: Screen) -> Seq<char> {
    frame_prefix(s, s.height as int)
}

impl Screen {
    /// Create a screen of the given dimensions: every cell an invisible
    /// black space, and one droplet per column, each placed at a random
    /// position above the visible area.
    pub fn new(width: usize, height: usize) -> (s: Screen)
        requires
            0 < width,
            0 < height,
            (height as int) <= (isize::MAX as int),
        ensures
            screen_wf(s),
            s.width == width,
            s.height == height,
            forall|c: int, r: int|
                0 <= c < width && 0 <= r < height ==> sym_at(s, c, r) == (Symbol {
                    ch: ' ',
                    brightness: 0,
                }),
            forall|i: int|
                0 <= i < width ==> -(height as int) < (#[trigger] s.droplets@[i]).row as int <= 0,
    {
        let mut columns: Vec<Column> = Vec::new();
        while columns.len() < width
            invariant
                columns@.len() <= width,
                forall|c: int|
                    0 <= c < columns@.len() ==> (#[trigger] columns@[c]).symbols@.len() == height,
                forall|c: int, r: int|
                    0 <= c < columns@.len() && 0 <= r < height ==> columns@[c].symbols@[r]
                        == (Symbol { ch: ' ', brightness: 0 }),
            decreases width - columns@.len(),
        {
            columns.push(Column::new(height));
        }
        let mut droplets: Vec<Droplet> = Vec::new();
        let mut rng = fresh_rng();
        while droplets.len() < width
            invariant
                0 < width,
                0 < height,
                (height as int) <= (isize::MAX as int),
                droplets@.len() <= width,
                forall|i: int|
                    0 <= i < droplets@.len() ==> droplet_wf(
                        #[trigger] droplets@[i],
                        width as int,
                        height as int,
                    ),
                forall|i: int|
                    0 <= i < droplets@.len() ==> -(height as int) < (
                    #[trigger] droplets@[i]).row as int <= 0,
            decreases width - droplets@.len(),
        {
            droplets.push(Droplet::new_random(&mut rng, width, height));
        }
        Screen { width, height, columns, droplets }
    }

    /// Append the full-frame rendering of the screen to the output buffer:
    /// each row's symbols left to right, then a line break, top to bottom.
    pub fn print(&self, out: &mut Vec<char>)
        requires
            screen_wf(*self),
        ensures
            final(out)@ == old(out)@ + frame(*self),
    {
        let mut row: usize = 0;
        while row < self.height
            invariant
                screen_wf(*self),
                row <= self.height,
                out@ == old(out)@ + frame_prefix(*self, row as int),
            decreases self.height - row,
        {
            let mut col: usize = 0;
            while col < self.width
                invariant
                    screen_wf(*self),
                    row < self.height,
                    col <= self.width,
                    out@ == old(out)@ + frame_prefix(*self, row as int) + row_prefix(
                        *self,
                        row as int,
                        col as int,
                    ),
                decreases self.width - col,
            {
                self.columns[col].print_symbol(out, row);
                col += 1;
                proof {
                    assert(out@ =~= old(out)@ + frame_prefix(*self, row as int) + row_prefix(
                        *self,
                        row as int,
                        col as int,
                    ));
                }
            }
            out.push('\r');
            out.push('\n');
            row += 1;
            proof {
                assert(out@ =~= old(out)@ + frame_prefix(*self, row as int));
            }
        }
    }

    /// Lower the brightness of every symbol on the screen by one step.
    /// Every cell darkens independently; nothing else changes.
    pub fn darken(&mut self)
        requires
            screen_wf(*old(self)),
        ensures
            screen_wf(*final(self)),
            final(self).width == old(self).width,
            final(self).height == old(self).height,
            final(self).droplets == old(self).droplets,
            forall|c: int, r: int|
                0 <= c < old(self).width && 0 <= r < old(self).height ==> sym_at(
                    *final(self),
                    c,
                    r,
                ) == darkened(sym_at(*old(self), c, r)),
    {
        let mut c: usize = 0;
        while c < self.columns.len()
            invariant
                self.width == old(self).width,
                self.height == old(self).height,
                self.droplets == old(self).droplets,
                self.columns@.len() == old(self).columns@.len(),
                screen_wf(*old(self)),
                c <= self.columns@.len(),
                forall|j: int|
                    0 <= j < self.columns@.len() ==> (#[trigger] self.columns@[j]).symbols@.len()
                        == old(self).columns@[j].symbols@.len(),
                forall|j: int, r: int|
                    0 <= j < c && 0 <= r < old(self).columns@[j].symbols@.len()
                        ==> self.columns@[j].symbols@[r] == darkened(
                        old(self).columns@[j].symbols@[r],
                    ),
                forall|j: int|
                    c <= j < self.columns@.len() ==> #[trigger] self.columns@[j].symbols@
                        == old(self).columns@[j].symbols@,
            decreases self.columns@.len() - c,
        {
            self.columns[c].darken();
            c += 1;
        }
    }

    /// Advance every droplet by one step; each droplet whose new row is
    /// visible strikes its cell with a fresh uppercase letter at full
    /// brightness. No other cell changes.
    pub fn update_droplets(&mut self)
        requires
            screen_wf(*old(self)),
        ensures
            screen_wf(*final(self)),
            final(self).width == old(self).width,
            final(self).height == old(self).height,
            final(self).droplets@.len() == old(self).droplets@.len(),
            forall|i: int|
                0 <= i < old(self).droplets@.len() ==> droplet_advanced(
                    old(self).droplets@[i],
                    #[trigger] final(self).droplets@[i],
                    old(self).width as int,
                    old(self).height as int,
                ),
            forall|i: int|
                0 <= i < old(self).droplets@.len() && 0 <= (
                #[trigger] final(self).droplets@[i]).row as int ==> struck(
                    sym_at(
                        *final(self),
                        final(self).droplets@[i].col as int,
                        final(self).droplets@[i].row as int,
                    ),
                ),
            forall|c: int, r: int|
                0 <= c < old(self).width && 0 <= r < old(self).height ==> sym_at(*final(self), c, r)
                    == sym_at(*old(self), c, r) || struck(sym_at(*final(self), c, r)),
            forall|c: int, r: int|
                0 <= c < old(self).width && 0 <= r < old(self).height && !(exists|i: int|
                    0 <= i < final(self).droplets@.len()
                        && (#[trigger] final(self).droplets@[i]).col as int == c
                        && final(self).droplets@[i].row as int == r) ==> sym_at(*final(self), c, r)
                    == sym_at(*old(self), c, r),
    {
        let mut rng = fresh_rng();
        let width = self.width;
        let height = self.height;
        let mut i: usize = 0;
        while i < self.droplets.len()
            invariant
                self.width == old(self).width,
                self.height == old(self).height,
                width == self.width,
                height == self.height,
                screen_wf(*old(self)),
                screen_wf(*self),
                i <= self.droplets@.len(),
                self.droplets@.len() == old(self).droplets@.len(),
                forall|j: int|
                    i <= j < self.droplets@.len() ==> #[trigger] self.droplets@[j]
                        == old(self).droplets@[j],
                forall|j: int|
                    0 <= j < i ==> droplet_advanced(
                        old(self).droplets@[j],
                        #[trigger] self.droplets@[j],
                        width as int,
                        height as int,
                    ),
                forall|j: int|
                    0 <= j < i && 0 <= (#[trigger] self.droplets@[j]).row as int ==> struck(
                        sym_at(
                            *self,
                            self.droplets@[j].col as int,
                            self.droplets@[j].row as int,
                        ),
                    ),
                forall|c: int, r: int|
                    0 <= c < width && 0 <= r < height ==> sym_at(*self, c, r) == sym_at(
                        *old(self),
                        c,
                        r,
                    ) || struck(sym_at(*self, c, r)),
                forall|c: int, r: int|
                    0 <= c < width && 0 <= r < height && !(exists|j: int|
                        0 <= j < i && (#[trigger] self.droplets@[j]).col as int == c
                            && self.droplets@[j].row as int == r) ==> sym_at(*self, c, r) == sym_at(
                        *old(self),
                        c,
                        r,
                    ),
            decreases self.droplets@.len() - i,
        {
            let ghost prev = *self;
            let ghost i0 = i as int;
            self.droplets[i].update(width, height);
            let d_row = self.droplets[i].row;
            if d_row >= 0 {
                let ch = gen_uppercase(&mut rng);
                let col = self.droplets[i].col;
                self.columns[col].set(d_row as usize, ch);
            }
            i += 1;
            proof {
                assert forall|c: int, r: int|
                    0 <= c < width && 0 <= r < height && !(exists|j: int|
                        0 <= j < i && (#[trigger] self.droplets@[j]).col as int == c
                            && self.droplets@[j].row as int == r) implies sym_at(*self, c, r)
                    == sym_at(*old(self), c, r) by {
                    // The droplet just advanced does not sit on (c, r): it
                    // would witness the excluded existential.
                    assert(!((self.droplets@[i0]).col as int == c && (self.droplets@[i0]).row as int
                        == r)) by {
                        if (self.droplets@[i0]).col as int == c && (self.droplets@[i0]).row as int
                            == r {
                            assert(0 <= i0 < i && (#[trigger] self.droplets@[i0]).col as int == c
                                && self.droplets@[i0].row as int == r);
                        }
                    }
                    // Droplets before it kept their state, so none of them
                    // sat on (c, r) at the start of this iteration either.
                    assert forall|j: int| 0 <= j < i0 implies !((
                    #[trigger] prev.droplets@[j]).col as int == c && prev.droplets@[j].row as int
                        == r) by {
                        assert(prev.droplets@[j] == self.droplets@[j]);
                        if (prev.droplets@[j]).col as int == c && prev.droplets@[j].row as int
                            == r {
                            assert((#[trigger] self.droplets@[j]).col as int == c
                                && self.droplets@[j].row as int == r);
                        }
                    }
                    assert(!(exists|j: int|
                        0 <= j < i0 && (#[trigger] prev.droplets@[j]).col as int == c
                            && prev.droplets@[j].row as int == r));
                    // So the cell was still untouched at the start of this
                    // iteration, and this iteration wrote elsewhere.
                    assert(sym_at(prev, c, r) == sym_at(*old(self), c, r));
                    assert(sym_at(*self, c, r) == sym_at(prev, c, r));
                }
            }
        }
    }
}

} // verus!
