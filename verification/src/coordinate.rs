//! Squares of the 8×8 board.
//!
//! A [`Coordinate`] is a pair of a [`File`] and a [`Rank`]. Both axes are
//! enums, so every value of the type names a square of the board and no
//! well-formedness condition is needed. Squares are numbered from 0 to 63,
//! rank by rank from the first, and within a rank from file A to file H;
//! that number is the square's *index*.

use vstd::prelude::*;

verus! {

/// A column of the board, A to H.
#[derive(Clone, Copy, Debug, PartialEq, Eq, Structural, Hash)]
pub enum File {
    A,
    B,
    C,
    D,
    E,
    F,
    G,
    H,
}

/// A row of the board, first to eighth.
#[derive(Clone, Copy, Debug, PartialEq, Eq, Structural, Hash)]
pub enum Rank {
    First,
    Second,
    Third,
    Fourth,
    Fifth,
    Sixth,
    Seventh,
    Eighth,
}

/// A square of the board.
#[derive(Clone, Copy, Debug, PartialEq, Eq, Structural, Hash)]
pub struct Coordinate {
    pub file: File,
    pub rank: Rank,
}

impl File {
    /// The position of the file on its axis, 0 for A up to 7 for H.
    pub open spec fn index(self) -> int {
        match self {
            File::A => 0,
            File::B => 1,
            File::C => 2,
            File::D => 3,
            File::E => 4,
            File::F => 5,
            File::G => 6,
            File::H => 7,
        }
    }

    /// The file at position `i`; for `i` outside 0..8 the file H.
    pub open spec fn at(i: int) -> File {
        if i == 0 {
            File::A
        } else if i == 1 {
            File::B
        } else if i == 2 {
            File::C
        } else if i == 3 {
            File::D
        } else if i == 4 {
            File::E
        } else if i == 5 {
            File::F
        } else if i == 6 {
            File::G
        } else {
            File::H
        }
    }

    /// The position of the file on its axis.
    pub fn to_index(self) -> (i: u8)
        ensures
            i == self.index(),
            i < 8,
    {
        match self {
            File::A => 0,
            File::B => 1,
            File::C => 2,
            File::D => 3,
            File::E => 4,
            File::F => 5,
            File::G => 6,
            File::H => 7,
        }
    }

    /// The file at position `i`, if there is one.
    pub fn from_index(i: u8) -> (file: Option<File>)
        ensures
            file == (if i < 8 {
                Some(File::at(i as int))
            } else {
                None
            }),
    {
        match i {
            0 => Some(File::A),
            1 => Some(File::B),
            2 => Some(File::C),
            3 => Some(File::D),
            4 => Some(File::E),
            5 => Some(File::F),
            6 => Some(File::G),
            7 => Some(File::H),
            _ => None,
        }
    }
}

impl Rank {
    /// The position of the rank on its axis, 0 for the first up to 7 for the
    /// eighth.
    pub open spec fn index(self) -> int {
        match self {
            Rank::First => 0,
            Rank::Second => 1,
            Rank::Third => 2,
            Rank::Fourth => 3,
            Rank::Fifth => 4,
            Rank::Sixth => 5,
            Rank::Seventh => 6,
            Rank::Eighth => 7,
        }
    }

    /// The rank at position `i`; for `i` outside 0..8 the eighth rank.
    pub open spec fn at(i: int) -> Rank {
        if i == 0 {
            Rank::First
        } else if i == 1 {
            Rank::Second
        } else if i == 2 {
            Rank::Third
        } else if i == 3 {
            Rank::Fourth
        } else if i == 4 {
            Rank::Fifth
        } else if i == 5 {
            Rank::Sixth
        } else if i == 6 {
            Rank::Seventh
        } else {
            Rank::Eighth
        }
    }

    /// The position of the rank on its axis.
    pub fn to_index(self) -> (i: u8)
        ensures
            i == self.index(),
            i < 8,
    {
        match self {
            Rank::First => 0,
            Rank::Second => 1,
            Rank::Third => 2,
            Rank::Fourth => 3,
            Rank::Fifth => 4,
            Rank::Sixth => 5,
            Rank::Seventh => 6,
            Rank::Eighth => 7,
        }
    }

    /// The rank at position `i`, if there is one.
    pub fn from_index(i: u8) -> (rank: Option<Rank>)
        ensures
            rank == (if i < 8 {
                Some(Rank::at(i as int))
            } else {
                None
            }),
    {
        match i {
            0 => Some(Rank::First),
            1 => Some(Rank::Second),
            2 => Some(Rank::Third),
            3 => Some(Rank::Fourth),
            4 => Some(Rank::Fifth),
            5 => Some(Rank::Sixth),
            6 => Some(Rank::Seventh),
            7 => Some(Rank::Eighth),
            _ => None,
        }
    }
}

impl Coordinate {
    /// The number of the square: eight times the rank's position plus the
    /// file's.
    pub open spec fn index(self) -> int {
        self.rank.index() * 8 + self.file.index()
    }

    /// The square with number `i`.
    pub open spec fn at(i: int) -> Coordinate {
        Coordinate { file: File::at(i % 8), rank: Rank::at(i / 8) }
    }

    /// Whether the sum of the file's and the rank's position is even. This
    /// decides between the two colours of the checkerboard; A1 is even.
    pub open spec fn is_even(self) -> bool {
        (self.file.index() + self.rank.index()) % 2 == 0
    }

    /// The number of the square.
    pub fn to_index(self) -> (i: u8)
        ensures
            i == self.index(),
            i < 64,
    {
        self.rank.to_index() * 8 + self.file.to_index()
    }

    /// The square with number `i`, if there is one.
    pub fn from_index(i: u8) -> (square: Option<Coordinate>)
        ensures
            square == (if i < 64 {
                Some(Coordinate::at(i as int))
            } else {
                None
            }),
    {
        if i < 64 {
            match (File::from_index(i % 8), Rank::from_index(i / 8)) {
                (Some(file), Some(rank)) => Some(Coordinate { file, rank }),
                _ => None,
            }
        } else {
            None
        }
    }

    /// Whether the square is an even one of the checkerboard.
    pub fn parity_is_even(self) -> (even: bool)
        ensures
            even == self.is_even(),
    {
        (self.file.to_index() + self.rank.to_index()) % 2 == 0
    }
}

/// Numbering the squares loses nothing: a square's index lies in 0..64, and
/// the square with that index is the square itself.
pub proof fn lemma_index_round_trip(square: Coordinate)
    ensures
        0 <= square.index() < 64,
        Coordinate::at(square.index()) == square,
{
}

/// Every number in 0..64 is the index of the square that `at` gives for it.
pub proof fn lemma_at_round_trip(i: int)
    requires
        0 <= i < 64,
    ensures
        Coordinate::at(i).index() == i,
{
}

} // verus!
