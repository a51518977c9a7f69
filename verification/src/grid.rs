//! The game board: a fixed-size toroidal grid of binary cells, and the
//! Game-of-Life transition rule stated over its mathematical view.

use vstd::prelude::*;

verus! {

/// A fixed-size two-dimensional board of cells. `true` is alive, `false` is
/// dead. Rows are indexed `0..height`, columns `0..width`; the grid is
/// toroidal, so row `height - 1` is adjacent to row `0` and column
/// `width - 1` to column `0`.
#[derive(Clone, PartialEq, Eq, Debug)]
pub struct Grid {
    pub width: usize,
    pub height: usize,
    pub cells: Vec<Vec<bool>>,
}

impl View for Grid {
    type V = Seq<Seq<bool>>;

    open spec fn view(&self) -> Seq<Seq<bool>> {
        self.cells@.map_values(|row: Vec<bool>| row@)
    }
}

impl Grid {
    /// Both dimensions are positive and fixed; every row has exactly
    /// `width` cells; the packed 4-bytes-per-cell pixel buffer fits in a
    /// `usize`-indexed vector.
    pub open spec fn wf(self) -> bool {
        &&& 0 < self.width
        &&& 0 < self.height
        &&& self.cells@.len() == self.height
        &&& forall|r: int|
            0 <= r < self.height ==> (#[trigger] self.cells@[r])@.len() == self.width
        &&& self.width * self.height * 4 <= usize::MAX
    }

    /// Builds an all-dead board of the given dimensions.
    pub fn dead(width: usize, height: usize) -> (g: Grid)
        requires
            0 < width,
            0 < height,
            width * height * 4 <= usize::MAX,
        ensures
            g.wf(),
            g.width == width,
            g.height == height,
            forall|r: int, c: int|
                0 <= r < height && 0 <= c < width ==> !(#[trigger] g@[r][c]),
    {
        let mut cells: Vec<Vec<bool>> = Vec::new();
        let mut r: usize = 0;
        while r < height
            invariant
                r <= height,
                cells@.len() == r,
                forall|i: int|
                    0 <= i < r ==> (#[trigger] cells@[i])@.len() == width,
                forall|i: int, j: int|
                    0 <= i < r && 0 <= j < width ==> !(#[trigger] cells@[i]@[j]),
            decreases height - r,
        {
            let mut row: Vec<bool> = Vec::new();
            let mut c: usize = 0;
            while c < width
                invariant
                    c <= width,
                    row@.len() == c,
                    forall|j: int| 0 <= j < c ==> !(#[trigger] row@[j]),
                decreases width - c,
            {
                row.push(false);
                c = c + 1;
            }
            cells.push(row);
            r = r + 1;
        }
        Grid { width, height, cells }
    }

    /// Reads one cell; `true` means alive.
    pub fn get(&self, r: usize, c: usize) -> (alive: bool)
        requires
            self.wf(),
            r < self.height,
            c < self.width,
        ensures
            alive == self@[r as int][c as int],
    {
        self.cells[r][c]
    }

    /// Writes one cell.
    pub fn set(&mut self, r: usize, c: usize, alive: bool)
        requires
            old(self).wf(),
            r < old(self).height,
            c < old(self).width,
        ensures
            final(self).wf(),
            final(self).width == old(self).width,
            final(self).height == old(self).height,
            final(self)@[r as int][c as int] == alive,
            forall|i: int, j: int|
                0 <= i < old(self).height && 0 <= j < old(self).width && !(i == r && j == c)
                    ==> #[trigger] final(self)@[i][j] == old(self)@[i][j],
    {
        let mut row = self.cells.remove(r);
        row.set(c, alive);
        self.cells.insert(r, row);
        proof {
            assert forall|i: int, j: int|
                0 <= i < self.height && 0 <= j < self.width && !(i == r && j == c)
                    implies #[trigger] self@[i][j] == old(self)@[i][j] by {
                assert(self.cells@[i]@[j] == old(self).cells@[i]@[j]);
            }
        }
    }
}

} // verus!
