//! The frame buffer and the row multiplexer.
//!
//! The matrix is driven one row at a time. Each display event asserts the
//! line of the row under the cursor and the column lines of the cells that
//! are lit in that row of the current frame, then moves the cursor to the
//! next row. Five events show the whole frame once.

use vstd::prelude::*;
use crate::frame::{blank_grid, is_grid, Frame, COLS, ROWS};

verus! {

/// Time for which one row stays asserted before the next display event, in
/// microseconds.
pub const ROW_SLOT_MICROS: u32 = 3_000;

/// The least number of times per second that the whole frame is shown.
pub const MIN_REFRESH_HZ: u32 = 60;

/// With the row slot as it is, five rows are shown at least sixty times a
/// second.
pub proof fn law_refresh_rate()
    ensures
        ROWS * ROW_SLOT_MICROS * MIN_REFRESH_HZ <= 1_000_000,
{
}

/// Holds the frame that the multiplexer shows. A new frame takes the place
/// of the old one in a single assignment.
#[derive(Clone, Copy, Debug, PartialEq, Eq)]
pub struct FrameBuffer {
    current: Option<Frame>,
}

impl FrameBuffer {
    /// Whether a frame was installed.
    pub closed spec fn populated(&self) -> bool {
        self.current is Some
    }

    /// The picture that the buffer stands for: that of the installed frame,
    /// all cells off where none was installed.
    pub closed spec fn grid(&self) -> Seq<Seq<bool>> {
        match self.current {
            Some(frame) => frame@,
            None => blank_grid(),
        }
    }

    /// The buffer's picture is a 5×5 grid.
    pub proof fn lemma_grid_is_grid(&self)
        ensures
            is_grid(self.grid()),
    {
        if let Some(frame) = self.current {
            frame.lemma_view_is_grid();
        }
    }

    /// A buffer without a frame.
    pub fn new() -> (buffer: FrameBuffer)
        ensures
            !buffer.populated(),
            buffer.grid() == blank_grid(),
    {
        FrameBuffer { current: None }
    }

    /// Puts `frame` in place of whatever the buffer held.
    pub fn install(&mut self, frame: Frame)
        ensures
            final(self).populated(),
            final(self).grid() == frame@,
    {
        self.current = Some(frame);
    }

    /// Puts the blank frame in place of whatever the buffer held.
    pub fn clear(&mut self)
        ensures
            final(self).populated(),
            final(self).grid() == blank_grid(),
    {
        self.current = Some(Frame::blank());
    }

    /// Whether a frame was installed.
    pub fn is_populated(&self) -> (populated: bool)
        ensures
            populated == self.populated(),
    {
        self.current.is_some()
    }

    /// The frame to show: the installed one, or the blank frame where none
    /// was installed.
    pub fn frame(&self) -> (frame: Frame)
        ensures
            frame@ == self.grid(),
    {
        match self.current {
            Some(frame) => frame,
            None => Frame::blank(),
        }
    }
}

/// The levels of the ten lines of the matrix during one row slot. A cell is
/// lit where its row line and its column line are both asserted.
#[derive(Clone, Copy, Debug, PartialEq, Eq)]
pub struct MatrixLines {
    /// For each row line, whether it is asserted.
    pub rows: [bool; 5],
    /// For each column line, whether it is asserted.
    pub cols: [bool; 5],
    /// Microseconds after which the next display event is due.
    pub slot_micros: u32,
}

impl MatrixLines {
    /// Whether the cell at (`row`, `col`) is lit while these levels stand.
    pub open spec fn lit(&self, row: int, col: int) -> bool {
        &&& 0 <= row < ROWS
        &&& 0 <= col < COLS
        &&& self.rows[row]
        &&& self.cols[col]
    }
}

/// What a display is to its callers: the picture it shows, whether a frame
/// was ever installed, and the row that the next display event drives.
pub struct DisplayModel {
    pub grid: Seq<Seq<bool>>,
    pub populated: bool,
    pub cursor: nat,
}

impl DisplayModel {
    /// The display as it is made: nothing installed, the cursor on the top
    /// row.
    pub open spec fn initial() -> DisplayModel {
        DisplayModel { grid: blank_grid(), populated: false, cursor: 0 }
    }

    /// The picture is a 5×5 grid, blank where no frame was installed, and
    /// the cursor is on one of the five rows.
    pub open spec fn wf(self) -> bool {
        &&& is_grid(self.grid)
        &&& self.cursor < ROWS
        &&& !self.populated ==> self.grid == blank_grid()
    }

    /// Whether the next display event lights the cell at (`row`, `col`): it
    /// does where the cell is in the row under the cursor and is on in the
    /// picture.
    pub open spec fn drives(self, row: int, col: int) -> bool {
        &&& row == self.cursor
        &&& 0 <= col < COLS
        &&& self.grid[row][col]
    }

    /// Whether `lines` are the levels that the next display event asserts:
    /// the line of the row under the cursor and of no other row, the column
    /// lines of the cells that are on in that row of the picture and of no
    /// others, and one row slot until the next event.
    pub open spec fn asserts(self, lines: MatrixLines) -> bool {
        &&& forall|row: int| 0 <= row < ROWS ==> lines.rows[row] == (row == self.cursor)
        &&& forall|col: int|
            0 <= col < COLS ==> lines.cols[col] == self.grid[self.cursor as int][col]
        &&& lines.slot_micros == ROW_SLOT_MICROS
    }

    /// The display after one display event: the cursor one row further,
    /// back on the top row after the bottom one.
    pub open spec fn step(self) -> DisplayModel {
        DisplayModel { cursor: (self.cursor + 1) % (ROWS as nat), ..self }
    }

    /// The display after `count` display events.
    pub open spec fn steps(self, count: nat) -> DisplayModel
        decreases count,
    {
        if count == 0 {
            self
        } else {
            self.steps((count - 1) as nat).step()
        }
    }

    /// The display after `grid` was installed as its picture.
    pub open spec fn show(self, grid: Seq<Seq<bool>>) -> DisplayModel {
        DisplayModel { grid, populated: true, cursor: self.cursor }
    }
}

/// The display: the frame buffer and the cursor of the row multiplexer.
#[derive(Clone, Copy, Debug, PartialEq, Eq)]
pub struct DisplayState {
    buffer: FrameBuffer,
    cursor: usize,
}

impl View for DisplayState {
    type V = DisplayModel;

    closed spec fn view(&self) -> DisplayModel {
        DisplayModel {
            grid: self.buffer.grid(),
            populated: self.buffer.populated(),
            cursor: self.cursor as nat,
        }
    }
}

impl DisplayState {
    #[verifier::type_invariant]
    spec fn inv(self) -> bool {
        self.cursor < ROWS
    }

    /// A display with nothing to show yet and the cursor on the top row.
    pub fn new() -> (display: DisplayState)
        ensures
            display@ == DisplayModel::initial(),
            display@.wf(),
    {
        DisplayState { buffer: FrameBuffer::new(), cursor: 0 }
    }

    /// Installs `frame` as the picture to show. The cursor stays where it
    /// is: the rows driven from now on are rows of the new frame.
    pub fn show_frame(&mut self, frame: Frame)
        ensures
            final(self)@ == old(self)@.show(frame@),
            final(self)@.wf(),
    {
        proof {
            use_type_invariant(&*self);
            frame.lemma_view_is_grid();
        }
        let mut buffer = self.buffer;
        buffer.install(frame);
        self.buffer = buffer;
    }

    /// Installs the blank frame.
    pub fn clear(&mut self)
        ensures
            final(self)@ == old(self)@.show(blank_grid()),
            final(self)@.wf(),
    {
        proof {
            use_type_invariant(&*self);
        }
        let mut buffer = self.buffer;
        buffer.clear();
        self.buffer = buffer;
    }

    /// The frame on show: blank where none was installed.
    pub fn frame(&self) -> (frame: Frame)
        ensures
            frame@ == self@.grid,
            self@.wf(),
    {
        proof {
            use_type_invariant(self);
            self.buffer.lemma_grid_is_grid();
        }
        self.buffer.frame()
    }

    /// Whether a frame was ever installed.
    pub fn is_populated(&self) -> (populated: bool)
        ensures
            populated == self@.populated,
            self@.wf(),
    {
        proof {
            use_type_invariant(self);
            self.buffer.lemma_grid_is_grid();
        }
        self.buffer.is_populated()
    }

    /// The row that the next display event drives.
    pub fn cursor(&self) -> (cursor: usize)
        ensures
            cursor == self@.cursor,
            cursor < ROWS,
            self@.wf(),
    {
        proof {
            use_type_invariant(self);
            self.buffer.lemma_grid_is_grid();
        }
        self.cursor
    }

    /// One step of the multiplexer. The levels returned assert the line of
    /// the row under the cursor and no other row line, and the column lines
    /// of exactly the cells that are on in that row of the picture; so
    /// exactly those cells are lit. The cursor then moves to the next row,
    /// and the next event is due one row slot later.
    pub fn handle_display_event(&mut self) -> (lines: MatrixLines)
        ensures
            final(self)@ == old(self)@.step(),
            old(self)@.wf(),
            final(self)@.wf(),
            old(self)@.asserts(lines),
            forall|row: int, col: int| lines.lit(row, col) == old(self)@.drives(row, col),
    {
        proof {
            use_type_invariant(&*self);
            self.buffer.lemma_grid_is_grid();
        }
        let row = self.cursor;
        let cols = self.buffer.frame().row(row);
        let rows = [row == 0, row == 1, row == 2, row == 3, row == 4];
        self.cursor = if row + 1 == ROWS { 0 } else { row + 1 };
        MatrixLines { rows, cols, slot_micros: ROW_SLOT_MICROS }
    }
}

/// Display events move the cursor round the rows and leave the picture
/// alone.
pub proof fn lemma_steps(d: DisplayModel, count: nat)
    requires
        d.cursor < ROWS,
    ensures
        d.steps(count) == (DisplayModel { cursor: (d.cursor + count) % (ROWS as nat), ..d }),
    decreases count,
{
    if count > 0 {
        lemma_steps(d, (count - 1) as nat);
    }
}

/// From the top row, after `r` display events the next one drives row `r`:
/// it lights exactly the cells that are on in row `r` of the installed
/// picture, and no cell of any other row.
pub proof fn law_multiplex_row(d: DisplayModel, r: nat, row: int, col: int)
    requires
        d.wf(),
        d.cursor == 0,
        r < ROWS,
    ensures
        d.steps(r).grid == d.grid,
        d.steps(r).drives(row, col) <==> (row == r && 0 <= col < COLS && d.grid[r as int][col]),
        row != r ==> !d.steps(r).drives(row, col),
{
    lemma_steps(d, r);
}

/// Whatever the number of display events so far, the row driven next is
/// the one that the count of events since the top row selects, and five
/// events bring the cursor back to where it was.
pub proof fn law_multiplex_cycle(d: DisplayModel, count: nat)
    requires
        d.wf(),
    ensures
        d.steps(count).wf(),
        d.steps(count).cursor == (d.cursor + count) % (ROWS as nat),
        d.steps(count + ROWS as nat) == d.steps(count),
{
    lemma_steps(d, count);
    lemma_steps(d, count + ROWS as nat);
}

} // verus!
