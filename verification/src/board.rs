//! The grid for one generation: a fixed-size buffer of cells, stored
//! row-major, with reads outside the grid giving Dead (zero padding).

use vstd::prelude::*;
use vstd::pervasive::VecAdditionalExecFns;

verus! {

/// One generation's cell buffer: `height` rows of `width` cells, row-major
/// (index = row * width + col). A cell is Dead (0) or Alive (1).
pub struct Board {
    pub width: usize,
    pub height: usize,
    pub cells: Vec<u8>,
}

/// The cell value at (row, col) of a row-major buffer `s` of width `w` and
/// height `h`. Positions outside the grid read as Dead: the border is
/// zero-padded, never wrapped.
pub open spec fn cell_at(s: Seq<u8>, w: int, h: int, row: int, col: int) -> u8 {
    if 0 <= row < h && 0 <= col < w {
        s[row * w + col]
    } else {
        0u8
    }
}

impl View for Board {
    type V = Seq<u8>;

    open spec fn view(&self) -> Seq<u8> {
        self.cells@
    }
}

impl Board {
    /// The buffer holds exactly width * height cells, each Dead or Alive.
    pub open spec fn wf(&self) -> bool {
        &&& self.cells@.len() == self.width * self.height
        &&& forall|i: int| 0 <= i < self.cells@.len() ==> self.cells@[i] <= 1
    }

    /// A zero-filled (all-Dead) board of the given dimensions.
    pub fn new(width: usize, height: usize) -> (b: Board)
        requires
            width * height <= usize::MAX,
        ensures
            b.wf(),
            b.width == width,
            b.height == height,
            b@.len() == width * height,
            forall|i: int| 0 <= i < b@.len() ==> b@[i] == 0u8,
    {
        let n: usize = width * height;
        let mut cells: Vec<u8> = Vec::new();
        let mut i: usize = 0;
        while i < n
            invariant
                i <= n,
                cells@.len() == i,
                forall|j: int| 0 <= j < i ==> cells@[j] == 0u8,
            decreases n - i,
        {
            cells.push(0u8);
            i = i + 1;
        }
        Board { width, height, cells }
    }

    /// The stored cell at (row, col), or Dead when the position lies
    /// outside the grid.
    pub fn get(&self, row: usize, col: usize) -> (v: u8)
        requires
            self.wf(),
        ensures
            v == cell_at(self@, self.width as int, self.height as int, row as int, col as int),
            v <= 1,
    {
        if row < self.height && col < self.width {
            let n: usize = self.cells.len();
            proof {
                assert(row * self.width + col < self.width * self.height) by (nonlinear_arith)
                    requires
                        row < self.height,
                        col < self.width,
                ;
                assert(row * self.width + col < n);
            }
            self.cells[row * self.width + col]
        } else {
            0u8
        }
    }

    /// Writes `value` at (row, col); the position must lie inside the grid.
    pub fn set(&mut self, row: usize, col: usize, value: u8)
        requires
            old(self).wf(),
            row < old(self).height,
            col < old(self).width,
            value <= 1,
        ensures
            final(self).wf(),
            final(self).width == old(self).width,
            final(self).height == old(self).height,
            final(self)@ == old(self)@.update((row * old(self).width + col) as int, value),
    {
        let n: usize = self.cells.len();
        proof {
            assert(row * self.width + col < self.width * self.height) by (nonlinear_arith)
                requires
                    row < self.height,
                    col < self.width,
            ;
            assert(row * self.width + col < n);
        }
        let i: usize = row * self.width + col;
        self.cells.set(i, value);
    }

    /// Adopts a cell buffer computed elsewhere as a board of the given
    /// dimensions, after checking that it holds exactly width * height
    /// cells, each Dead or Alive; rejects any other buffer.
    pub fn from_cells(width: usize, height: usize, cells: Vec<u8>) -> (r: Option<Board>)
        requires
            width * height <= usize::MAX,
        ensures
            (match r {
                Some(b) => {
                    &&& b.wf()
                    &&& b.width == width
                    &&& b.height == height
                    &&& b@ == cells@
                },
                None => cells@.len() != width * height || exists|i: int|
                    0 <= i < cells@.len() && cells@[i] > 1,
            }),
    {
        let n: usize = width * height;
        if cells.len() != n {
            return None;
        }
        let mut i: usize = 0;
        while i < n
            invariant
                i <= n,
                cells@.len() == n,
                forall|j: int| 0 <= j < i ==> cells@[j] <= 1,
            decreases n - i,
        {
            if cells[i] > 1 {
                return None;
            }
            i = i + 1;
        }
        Some(Board { width, height, cells })
    }

    /// A fresh copy of the cell buffer, for handing a frame to persistence
    /// while the board itself stays current.
    pub fn snapshot(&self) -> (v: Vec<u8>)
        ensures
            v@ == self@,
    {
        let mut v: Vec<u8> = Vec::new();
        let mut i: usize = 0;
        while i < self.cells.len()
            invariant
                i <= self.cells@.len(),
                v@.len() == i,
                forall|j: int| 0 <= j < i ==> v@[j] == self.cells@[j],
            decreases self.cells@.len() - i,
        {
            v.push(self.cells[i]);
            i = i + 1;
        }
        proof {
            assert(v@ =~= self.cells@);
        }
        v
    }
}

} // verus!
