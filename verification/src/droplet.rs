//! A falling droplet: the moving position that seeds fresh bright symbols.

use crate::rng::fresh_rng;
use crate::rng::gen_index;
use vstd::prelude::*;

verus! {

/// The position at which the next bright symbol is written. The row may be
/// negative, placing the droplet above the visible area so that droplets
/// start falling at staggered times.
pub struct Droplet {
    pub row: isize,
    pub col: usize,
}

/// A droplet fits a screen of the given dimensions when its column is a
/// valid index and its row lies above the bottom row, no further up than a
/// whole screen height above the top.
pub open spec fn droplet_wf(d: Droplet, width: int, height: int) -> bool {
    (d.col as int) < width && -height < d.row as int && (d.row as int) < height
}

/// How one advance step moves a droplet: down one row, except that a
/// droplet leaving the bottom of the screen restarts at the top row in
/// some valid column.
pub open spec fn droplet_advanced(pre: Droplet, post: Droplet, width: int, height: int) -> bool {
    if pre.row as int + 1 >= height {
        post.row == 0isize && 0 <= post.col < width
    } else {
        post.row as int == pre.row as int + 1 && post.col == pre.col
    }
}

impl Droplet {
    /// Place a new droplet somewhere above the visible area: its row is
    /// drawn from `[-(height - 1), 0]` and its column from `[0, width)`.
    pub fn new_random(rng: &mut rand::rngs::ThreadRng, width: usize, height: usize) -> (d: Droplet)
        requires
            0 < width,
            0 < height,
            height <= isize::MAX as usize,
        ensures
            -(height as int) < d.row as int <= 0,
            0 <= d.col < width,
            droplet_wf(d, width as int, height as int),
    {
        let above: usize = gen_index(rng, height);
        let col: usize = gen_index(rng, width);
        Droplet { row: -(above as isize), col }
    }

    /// Move the droplet down by one row; a droplet that reaches or passes
    /// the bottom row restarts at row 0 in a freshly drawn column.
    pub fn update(&mut self, width: usize, height: usize)
        requires
            0 < width,
            0 < height,
            height <= isize::MAX as usize,
            droplet_wf(*old(self), width as int, height as int),
        ensures
            droplet_advanced(*old(self), *final(self), width as int, height as int),
            droplet_wf(*final(self), width as int, height as int),
    {
        self.row += 1;
        if self.row >= height as isize {
            let mut rng = fresh_rng();
            self.col = gen_index(&mut rng, width);
            self.row = 0;
        }
    }
}

} // verus!
