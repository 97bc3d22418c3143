//! What stands on a square, and the image that shows it.
//!
//! The image of a piece is found in a fixed table with one entry for each of
//! the twelve pairs of side and kind, and the empty path for an empty
//! square. The table is a `match` without a default arm, so a pair without
//! an entry cannot be written, and [`lemma_image_paths_distinct`] shows
//! that no two entries coincide.

use vstd::prelude::*;

verus! {

/// One of the two players.
#[derive(Clone, Copy, Debug, PartialEq, Eq, Structural, Hash)]
pub enum Side {
    White,
    Black,
}

/// The kind of a piece.
#[derive(Clone, Copy, Debug, PartialEq, Eq, Structural, Hash)]
pub enum PieceKind {
    Pawn,
    Knight,
    Bishop,
    Rook,
    Queen,
    King,
}

/// What stands on a square: nothing, or a piece of one side.
#[derive(Clone, Copy, Debug, PartialEq, Eq, Structural, Hash)]
pub enum TileContents {
    Empty,
    Occupied(Side, PieceKind),
}

impl Side {
    /// The number of the side: 0 for White, 1 for Black.
    pub open spec fn code(self) -> int {
        match self {
            Side::White => 0,
            Side::Black => 1,
        }
    }

    /// The side with number `code`; Black for a number that no side has.
    pub open spec fn at(code: int) -> Side {
        if code == 0 {
            Side::White
        } else {
            Side::Black
        }
    }

    /// The side with number `code`, if there is one.
    pub fn from_code(code: u8) -> (side: Option<Side>)
        ensures
            side == (if code < 2 {
                Some(Side::at(code as int))
            } else {
                None
            }),
            side matches Some(s) ==> s.code() == code,
    {
        match code {
            0 => Some(Side::White),
            1 => Some(Side::Black),
            _ => None,
        }
    }
}

impl PieceKind {
    /// The number of the kind, 0 for the pawn up to 5 for the king.
    pub open spec fn code(self) -> int {
        match self {
            PieceKind::Pawn => 0,
            PieceKind::Knight => 1,
            PieceKind::Bishop => 2,
            PieceKind::Rook => 3,
            PieceKind::Queen => 4,
            PieceKind::King => 5,
        }
    }

    /// The kind with number `code`; the king for a number that no kind has.
    pub open spec fn at(code: int) -> PieceKind {
        if code == 0 {
            PieceKind::Pawn
        } else if code == 1 {
            PieceKind::Knight
        } else if code == 2 {
            PieceKind::Bishop
        } else if code == 3 {
            PieceKind::Rook
        } else if code == 4 {
            PieceKind::Queen
        } else {
            PieceKind::King
        }
    }

    /// The number of the kind.
    pub fn to_code(self) -> (code: u8)
        ensures
            code == self.code(),
            code < 6,
            PieceKind::at(code as int) == self,
    {
        match self {
            PieceKind::Pawn => 0,
            PieceKind::Knight => 1,
            PieceKind::Bishop => 2,
            PieceKind::Rook => 3,
            PieceKind::Queen => 4,
            PieceKind::King => 5,
        }
    }

    /// The kind with number `code`, if there is one.
    pub fn from_code(code: u8) -> (kind: Option<PieceKind>)
        ensures
            kind == (if code < 6 {
                Some(PieceKind::at(code as int))
            } else {
                None
            }),
            kind matches Some(k) ==> k.code() == code,
    {
        match code {
            0 => Some(PieceKind::Pawn),
            1 => Some(PieceKind::Knight),
            2 => Some(PieceKind::Bishop),
            3 => Some(PieceKind::Rook),
            4 => Some(PieceKind::Queen),
            5 => Some(PieceKind::King),
            _ => None,
        }
    }
}

impl TileContents {
    /// What stands on a square of which the side and the kind of its piece
    /// are known by their numbers, each absent where the square has none: a
    /// piece where both are there, else nothing.
    pub open spec fn of_codes(side: Option<u8>, kind: Option<u8>) -> TileContents {
        match (side, kind) {
            (Some(s), Some(k)) => TileContents::Occupied(Side::at(s as int), PieceKind::at(k as int)),
            _ => TileContents::Empty,
        }
    }
}

/// The path of the image that shows `contents`: `images/<kind>_<side>.png`
/// for a piece, the empty path for an empty square.
pub open spec fn image_path(contents: TileContents) -> Seq<char> {
    match contents {
        TileContents::Empty => ""@,
        TileContents::Occupied(Side::White, PieceKind::Pawn) => "images/pawn_white.png"@,
        TileContents::Occupied(Side::White, PieceKind::Knight) => "images/knight_white.png"@,
        TileContents::Occupied(Side::White, PieceKind::Bishop) => "images/bishop_white.png"@,
        TileContents::Occupied(Side::White, PieceKind::Rook) => "images/rook_white.png"@,
        TileContents::Occupied(Side::White, PieceKind::Queen) => "images/queen_white.png"@,
        TileContents::Occupied(Side::White, PieceKind::King) => "images/king_white.png"@,
        TileContents::Occupied(Side::Black, PieceKind::Pawn) => "images/pawn_black.png"@,
        TileContents::Occupied(Side::Black, PieceKind::Knight) => "images/knight_black.png"@,
        TileContents::Occupied(Side::Black, PieceKind::Bishop) => "images/bishop_black.png"@,
        TileContents::Occupied(Side::Black, PieceKind::Rook) => "images/rook_black.png"@,
        TileContents::Occupied(Side::Black, PieceKind::Queen) => "images/queen_black.png"@,
        TileContents::Occupied(Side::Black, PieceKind::King) => "images/king_black.png"@,
    }
}

/// The path of the image that shows what stands on a tile.
pub fn get_tile_image(tile: &TileContents) -> (path: &'static str)
    ensures
        path@ == image_path(*tile),
{
    match tile {
        TileContents::Occupied(side, kind) => match (side, kind) {
            (Side::White, PieceKind::Pawn) => "images/pawn_white.png",
            (Side::White, PieceKind::Knight) => "images/knight_white.png",
            (Side::White, PieceKind::Bishop) => "images/bishop_white.png",
            (Side::White, PieceKind::Rook) => "images/rook_white.png",
            (Side::White, PieceKind::Queen) => "images/queen_white.png",
            (Side::White, PieceKind::King) => "images/king_white.png",
            (Side::Black, PieceKind::Pawn) => "images/pawn_black.png",
            (Side::Black, PieceKind::Knight) => "images/knight_black.png",
            (Side::Black, PieceKind::Bishop) => "images/bishop_black.png",
            (Side::Black, PieceKind::Rook) => "images/rook_black.png",
            (Side::Black, PieceKind::Queen) => "images/queen_black.png",
            (Side::Black, PieceKind::King) => "images/king_black.png",
        },
        TileContents::Empty => "",
    }
}

/// The length of the name of a kind, as it is written in an image path.
spec fn kind_name_len(kind: PieceKind) -> int {
    match kind {
        PieceKind::Pawn => 4,
        PieceKind::Knight => 6,
        PieceKind::Bishop => 6,
        PieceKind::Rook => 4,
        PieceKind::Queen => 5,
        PieceKind::King => 4,
    }
}

/// The first letter of the name of a kind. Together with the name's length
/// it tells the six kinds apart.
spec fn kind_mark(kind: PieceKind) -> char {
    match kind {
        PieceKind::Pawn => 'p',
        PieceKind::Knight => 'k',
        PieceKind::Bishop => 'b',
        PieceKind::Rook => 'r',
        PieceKind::Queen => 'q',
        PieceKind::King => 'k',
    }
}

/// The first letter of the name of a side.
spec fn side_mark(side: Side) -> char {
    match side {
        Side::White => 'w',
        Side::Black => 'b',
    }
}

/// The shape of each entry of the table: its length, and the two letters
/// that name the kind and the side.
proof fn lemma_image_path_shape(contents: TileContents)
    ensures
        match contents {
            TileContents::Empty => image_path(contents).len() == 0,
            TileContents::Occupied(side, kind) => {
                let path = image_path(contents);
                &&& path.len() == 17 + kind_name_len(kind)
                &&& path[7] == kind_mark(kind)
                &&& path[8 + kind_name_len(kind)] == side_mark(side)
            },
        },
{
    reveal_strlit("");
    reveal_strlit("images/pawn_white.png");
    reveal_strlit("images/knight_white.png");
    reveal_strlit("images/bishop_white.png");
    reveal_strlit("images/rook_white.png");
    reveal_strlit("images/queen_white.png");
    reveal_strlit("images/king_white.png");
    reveal_strlit("images/pawn_black.png");
    reveal_strlit("images/knight_black.png");
    reveal_strlit("images/bishop_black.png");
    reveal_strlit("images/rook_black.png");
    reveal_strlit("images/queen_black.png");
    reveal_strlit("images/king_black.png");
}

/// The table of images is one-to-one: two tiles are shown by the same image
/// only if the same thing stands on both.
pub proof fn lemma_image_paths_distinct(a: TileContents, b: TileContents)
    requires
        image_path(a) == image_path(b),
    ensures
        a == b,
{
    lemma_image_path_shape(a);
    lemma_image_path_shape(b);
}

} // verus!
