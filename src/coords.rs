//! Files and ranks of the board, with their grid indices and geometric coordinates.
use vstd::prelude::*;

verus! {

/// A row of the board, from rank 1 (White's back rank) to rank 8.
#[derive(Clone, Copy, Debug, PartialEq, Eq, Structural)]
pub enum Rank {
    One,
    Two,
    Three,
    Four,
    Five,
    Six,
    Seven,
    Eight,
}

/// A column of the board, from file A to file H.
#[derive(Clone, Copy, Debug, PartialEq, Eq, Structural)]
pub enum File {
    A,
    B,
    C,
    D,
    E,
    F,
    G,
    H,
}

/// A square's address: its file and its rank.
pub type Position = (File, Rank);

impl Rank {
    /// Geometric coordinate: rank 1 is 0, rising to 7 at rank 8.
    pub open spec fn coord(self) -> int {
        match self {
            Rank::One => 0,
            Rank::Two => 1,
            Rank::Three => 2,
            Rank::Four => 3,
            Rank::Five => 4,
            Rank::Six => 5,
            Rank::Seven => 6,
            Rank::Eight => 7,
        }
    }

    /// Grid row: rank 8 is printed first, so rank 8 is row 0 and rank 1 is row 7.
    pub open spec fn row(self) -> int {
        7 - self.coord()
    }

    /// The grid row of this rank.
    pub fn index(&self) -> (r: usize)
        ensures
            r == self.row(),
    {
        match *self {
            Rank::One => 7,
            Rank::Two => 6,
            Rank::Three => 5,
            Rank::Four => 4,
            Rank::Five => 3,
            Rank::Six => 2,
            Rank::Seven => 1,
            Rank::Eight => 0,
        }
    }

    /// The geometric coordinate of this rank.
    pub fn value(&self) -> (r: i8)
        ensures
            r == self.coord(),
    {
        match *self {
            Rank::One => 0,
            Rank::Two => 1,
            Rank::Three => 2,
            Rank::Four => 3,
            Rank::Five => 4,
            Rank::Six => 5,
            Rank::Seven => 6,
            Rank::Eight => 7,
        }
    }
}

impl File {
    /// Geometric coordinate: file A is 0, rising to 7 at file H.
    pub open spec fn coord(self) -> int {
        match self {
            File::A => 0,
            File::B => 1,
            File::C => 2,
            File::D => 3,
            File::E => 4,
            File::F => 5,
            File::G => 6,
            File::H => 7,
        }
    }

    /// Grid column: the same as the coordinate.
    pub open spec fn col(self) -> int {
        self.coord()
    }

    /// The grid column of this file.
    pub fn index(&self) -> (r: usize)
        ensures
            r == self.col(),
    {
        match *self {
            File::A => 0,
            File::B => 1,
            File::C => 2,
            File::D => 3,
            File::E => 4,
            File::F => 5,
            File::G => 6,
            File::H => 7,
        }
    }

    /// The geometric coordinate of this file.
    pub fn value(&self) -> (r: i8)
        ensures
            r == self.coord(),
    {
        match *self {
            File::A => 0,
            File::B => 1,
            File::C => 2,
            File::D => 3,
            File::E => 4,
            File::F => 5,
            File::G => 6,
            File::H => 7,
        }
    }
}

} // verus!
