//! The roulette: a single light that runs along a fixed path over the
//! matrix, inwards in a spiral and back out, for ever.

use vstd::prelude::*;
use crate::frame::{Frame, COLS, ROWS};

verus! {

/// Number of stations on the path.
pub const PATH_LENGTH: usize = 48;

/// Milliseconds for which each picture is shown.
pub const DELAY_MS: u32 = 40;

/// The path of the light, as (row, column) pairs: once round the border,
/// then inwards to the centre, and back out the same way.
pub const ROULETTE_PATH: [(usize, usize); 48] = [
    (0, 0), (0, 1), (0, 2), (0, 3), (0, 4),
    (1, 4), (2, 4), (3, 4), (4, 4),
    (4, 3), (4, 2), (4, 1), (4, 0),
    (3, 0), (2, 0), (1, 0),
    (1, 1), (1, 2), (1, 3),
    (2, 3), (3, 3),
    (3, 2), (3, 1),
    (2, 1),
    (2, 2),
    (2, 1),
    (3, 1), (3, 2),
    (3, 3), (2, 3),
    (1, 3), (1, 2), (1, 1),
    (1, 0), (2, 0), (3, 0),
    (4, 0), (4, 1), (4, 2), (4, 3),
    (4, 4), (3, 4), (2, 4), (1, 4),
    (0, 4), (0, 3), (0, 2), (0, 1),
];

/// The picture with the light on station `position` of the path: that one
/// cell is lit and no other.
pub open spec fn roulette_grid(position: int) -> Seq<Seq<bool>> {
    Seq::new(
        ROWS as nat,
        |row: int|
            Seq::new(
                COLS as nat,
                |col: int| row == ROULETTE_PATH[position].0 && col == ROULETTE_PATH[position].1,
            ),
    )
}

/// How far apart two numbers are.
pub open spec fn distance(a: int, b: int) -> int {
    if a <= b {
        b - a
    } else {
        a - b
    }
}

/// Every station of the path is a cell of the matrix.
pub proof fn law_path_in_matrix(position: int)
    requires
        0 <= position < PATH_LENGTH,
    ensures
        ROULETTE_PATH[position].0 < ROWS,
        ROULETTE_PATH[position].1 < COLS,
{
}

/// The light moves one cell at a time, along a row or along a column, also
/// from the last station back to the first.
pub proof fn law_path_moves_to_neighbour(position: int)
    requires
        0 <= position < PATH_LENGTH,
    ensures
        distance(
            ROULETTE_PATH[position].0 as int,
            ROULETTE_PATH[(position + 1) % (PATH_LENGTH as int)].0 as int,
        ) + distance(
            ROULETTE_PATH[position].1 as int,
            ROULETTE_PATH[(position + 1) % (PATH_LENGTH as int)].1 as int,
        ) == 1,
{
}

/// The roulette: where on the path the light goes next.
#[derive(Clone, Copy, Debug, PartialEq, Eq)]
pub struct Roulette {
    position: usize,
}

impl View for Roulette {
    type V = nat;

    closed spec fn view(&self) -> nat {
        self.position as nat
    }
}

impl Roulette {
    #[verifier::type_invariant]
    spec fn inv(self) -> bool {
        self.position < PATH_LENGTH
    }

    /// The roulette with the light about to enter the first station.
    pub fn new() -> (roulette: Roulette)
        ensures
            roulette@ == 0,
    {
        Roulette { position: 0 }
    }

    /// The station that the light enters next.
    pub fn position(&self) -> (position: usize)
        ensures
            position == self@,
            position < PATH_LENGTH,
    {
        proof {
            use_type_invariant(self);
        }
        self.position
    }

    /// Moves the light to the next station and returns the picture to show:
    /// the station's cell lit, every other cell off. After the last station
    /// the first follows.
    pub fn step(&mut self) -> (frame: Frame)
        ensures
            old(self)@ < PATH_LENGTH,
            frame@ == roulette_grid(old(self)@ as int),
            final(self)@ == (old(self)@ + 1) % (PATH_LENGTH as nat),
    {
        proof {
            use_type_invariant(&*self);
            law_path_in_matrix(self.position as int);
        }
        let station = ROULETTE_PATH[self.position];
        let mut cells = [[false; 5]; 5];
        let mut lit = [false; 5];
        lit[station.1] = true;
        cells[station.0] = lit;
        let frame = Frame::from_rows(cells);
        assert(frame@ =~~= roulette_grid(self.position as int));
        self.position = if self.position + 1 == PATH_LENGTH { 0 } else { self.position + 1 };
        frame
    }
}

} // verus!
