//! The frame: one complete on/off snapshot of the matrix.

use vstd::prelude::*;

verus! {

/// Number of rows of the LED matrix.
pub const ROWS: usize = 5;

/// Number of columns of the LED matrix.
pub const COLS: usize = 5;

/// A 5×5 grid of cells, as the contracts of this crate see a frame:
/// `grid[row][col]` is `true` where the cell is lit.
pub open spec fn is_grid(grid: Seq<Seq<bool>>) -> bool {
    &&& grid.len() == ROWS
    &&& forall|row: int| 0 <= row < ROWS ==> (#[trigger] grid[row]).len() == COLS
}

/// The grid with every cell off.
pub open spec fn blank_grid() -> Seq<Seq<bool>> {
    Seq::new(ROWS as nat, |row: int| Seq::new(COLS as nat, |col: int| false))
}

/// One complete on/off snapshot of the matrix. A frame is never changed
/// after it was made; showing another picture means installing another frame.
#[derive(Clone, Copy, Debug, PartialEq, Eq)]
pub struct Frame {
    cells: [[bool; 5]; 5],
}

impl View for Frame {
    type V = Seq<Seq<bool>>;

    closed spec fn view(&self) -> Seq<Seq<bool>> {
        Seq::new(ROWS as nat, |row: int| Seq::new(COLS as nat, |col: int| self.cells[row][col]))
    }
}

impl Frame {
    /// Every frame is a 5×5 grid.
    pub proof fn lemma_view_is_grid(&self)
        ensures
            is_grid(self@),
    {
    }

    /// The frame with every cell off.
    pub fn blank() -> (frame: Frame)
        ensures
            frame@ == blank_grid(),
    {
        let frame = Frame { cells: [[false; 5]; 5] };
        assert(frame@ =~~= blank_grid());
        frame
    }

    /// The frame whose cell (`row`, `col`) is lit where `rows[row][col]` is `true`.
    pub fn from_rows(rows: [[bool; 5]; 5]) -> (frame: Frame)
        ensures
            is_grid(frame@),
            forall|row: int, col: int|
                0 <= row < ROWS && 0 <= col < COLS ==> frame@[row][col] == rows[row][col],
    {
        Frame { cells: rows }
    }

    /// The cells of the frame, row by row.
    pub fn rows(&self) -> (rows: [[bool; 5]; 5])
        ensures
            forall|row: int, col: int|
                0 <= row < ROWS && 0 <= col < COLS ==> rows[row][col] == self@[row][col],
    {
        self.cells
    }

    /// Whether the cell at (`row`, `col`) is lit.
    pub fn is_lit(&self, row: usize, col: usize) -> (lit: bool)
        requires
            row < ROWS,
            col < COLS,
        ensures
            lit == self@[row as int][col as int],
    {
        self.cells[row][col]
    }

    /// The five cells of one row, leftmost first.
    pub fn row(&self, row: usize) -> (cells: [bool; 5])
        requires
            row < ROWS,
        ensures
            cells@ == self@[row as int],
    {
        let cells = self.cells[row];
        assert(cells@ =~= self@[row as int]);
        cells
    }
}

} // verus!
