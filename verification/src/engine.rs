//! The rules engine.
//!
//! The rules of chess are not this library's: a game is kept by the `chess`
//! crate, in a value of its type `Game`, and the board asks it three things:
//! what stands on a square, which moves are legal, and to play a move.
//!
//! The engine can be trusted with a game only if the game began in a
//! position that the engine's own test of sanity accepts, and if neither
//! side has more than 16 pieces in it: on other games its list of movable
//! pieces overflows, or the replay of the moves fails. A game of the `chess`
//! crate can be made that breaks either condition, so this library hands
//! none out and takes none in. An [`Engine`] holds a game that was made new
//! and has only been played in since, which keeps both.
//!
//! What the engine answers is not proved here. The first part of this file
//! gives each answer a name and states what the engine's source shows of it;
//! the functions that do so are marked `external_body`. The second part is
//! verified against those statements, and speaks of the library's own types.
//!
//! Squares and kinds pass to and from the engine as numbers: a square by its
//! index, which is the engine's own numbering of the squares, a kind by its
//! code, which is the engine's own numbering of its pieces, and a side by its
//! code likewise.

use vstd::prelude::*;
use crate::coordinate::Coordinate;
use crate::moves::{all_valid, decode_moves, Move};
use crate::pieces::{PieceKind, Side, TileContents};

verus! {

/// A game of the `chess` crate: a starting position and the actions taken
/// since. Nothing inside it is visible to the verifier.
#[verifier::external_type_specification]
#[verifier::external_body]
pub struct ExGame(chess::Game);

/// The codes of the moves that `chess::MoveGen::new_legal` yields for the
/// current position of `game`, in the order in which it yields them.
pub uninterp spec fn legal_move_codes(game: chess::Game) -> Seq<(u8, u8, Option<u8>)>;

/// The codes of the moves that `game` holds, in the order in which they were
/// played: its actions of the kind `MakeMove`, which `chess::Game::actions`
/// lists.
pub uninterp spec fn played_codes(game: chess::Game) -> Seq<(u8, u8, Option<u8>)>;

/// Whether `chess::Game::result` gives a result for `game`, by which the
/// game is over.
pub uninterp spec fn concluded(game: chess::Game) -> bool;

/// The code of the side that `chess::Board::color_on` gives for the square
/// with index `square` in the current position of `game`.
pub uninterp spec fn side_code_at(game: chess::Game, square: u8) -> Option<u8>;

/// The code of the kind that `chess::Board::piece_on` gives for the square
/// with index `square` in the current position of `game`.
pub uninterp spec fn kind_code_at(game: chess::Game, square: u8) -> Option<u8>;

/// The number of squares that the side with code `side` holds in the current
/// position of `game`: the bits of the board that the engine keeps for the
/// side, which `chess::Board::color_combined` gives.
pub uninterp spec fn piece_count(game: chess::Game, side: u8) -> u32;

/// Whether `game` began in a position that `chess::Board::is_sane` accepts.
/// In such a game no square holds two pieces, a right to castle has its rook
/// in the corner, and every move played has a piece on its source, so the
/// moves can be played again from the start. The engine tells this of no
/// game; it holds of the games that `chess::Game::new` makes, and
/// `chess::Game::make_move` leaves the start of a game as it is.
pub uninterp spec fn well_begun(game: chess::Game) -> bool;

/// Whether the engine can generate moves for `game`: the game is well
/// begun, and neither side has more than 16 pieces. The engine keeps the
/// movable pieces of the side to move in a list of 18 places, which it fills
/// without looking at its length; 16 pieces and the two pawns that may take
/// in passing fill it at most.
pub open spec fn playable(game: chess::Game) -> bool {
    well_begun(game) && piece_count(game, 0) <= 16 && piece_count(game, 1) <= 16
}

/// Calls `chess::Game::new`. The new game holds no action, so no move has been
/// played in it, and `chess::Game::result` gives no result for it: its
/// position is the initial one, which is sane, and in which there are legal
/// moves and each side has its 16 pieces.
#[verifier::external_body]
fn new_game() -> (game: chess::Game)
    ensures
        played_codes(game) == Seq::<(u8, u8, Option<u8>)>::empty(),
        !concluded(game),
        well_begun(game),
        piece_count(game, 0) == 16,
        piece_count(game, 1) == 16,
{
    chess::Game::new()
}

/// Calls `chess::MoveGen::new_legal` on the current position of `game` and
/// collects the moves it yields, each as its code. The generator takes the
/// squares of a move from the 64 bits of a board, and a promotion from the
/// engine's list of the kinds to promote to, so each code is valid. The game
/// must be playable: the engine plays it again from its start, and the
/// generator's list must not overflow.
#[verifier::external_body]
fn generate_legal(game: &chess::Game) -> (codes: Vec<(u8, u8, Option<u8>)>)
    requires
        playable(*game),
    ensures
        codes@ == legal_move_codes(*game),
        all_valid(codes@),
{
    chess::MoveGen::new_legal(&game.current_position())
        .map(|m| (m.get_source().to_int(), m.get_dest().to_int(), m.get_promotion().map(|p| p.to_index() as u8)))
        .collect()
}

/// Calls `chess::Game::make_move` with the move that `code` stands for. The
/// engine accepts the move exactly if it gives no result for the game and
/// the move is one of the legal moves of the current position. An accepted
/// move is added to the game as its last action; from then on the engine
/// gives a result for the game exactly if the new position has no legal
/// move. A move that is not accepted leaves the game as it was. The start of
/// the game is not touched, so the game is well begun as before; and in a
/// well-begun game a legal move moves, takes or replaces a piece and adds
/// none, so neither side has more pieces afterwards. The game must be
/// playable, since the engine plays the game again from its start and
/// generates the legal moves to decide; with that and a valid code the call
/// does not panic.
#[verifier::external_body]
fn make_move(game: &mut chess::Game, code: (u8, u8, Option<u8>)) -> (accepted: bool)
    requires
        Move::valid_code(code),
        playable(*old(game)),
    ensures
        accepted <==> !concluded(*old(game)) && legal_move_codes(*old(game)).contains(code),
        accepted ==> played_codes(*final(game)) == played_codes(*old(game)).push(code),
        accepted ==> (concluded(*final(game)) <==> legal_move_codes(*final(game)).len() == 0),
        !accepted ==> *final(game) == *old(game),
        well_begun(*final(game)),
        piece_count(*final(game), 0) <= piece_count(*old(game), 0),
        piece_count(*final(game), 1) <= piece_count(*old(game), 1),
    no_unwind
{
    let promotion = code.2.map(|kind| chess::ALL_PIECES[kind as usize]);
    let from = chess::ALL_SQUARES[code.0 as usize];
    let to = chess::ALL_SQUARES[code.1 as usize];
    game.make_move(chess::ChessMove::new(from, to, promotion))
}

/// Calls `chess::Board::color_on` on the current position of `game`, and
/// gives the side it finds on the square by its code, which
/// `chess::Color::to_index` yields: 0 or 1. The game must be well begun, since
/// the engine plays it again from its start to reach the position.
#[verifier::external_body]
fn side_on(game: &chess::Game, square: u8) -> (side: Option<u8>)
    requires
        square < 64,
        well_begun(*game),
    ensures
        side == side_code_at(*game, square),
        side matches Some(code) ==> code < 2,
{
    game.current_position().color_on(chess::ALL_SQUARES[square as usize]).map(|c| c.to_index() as u8)
}

/// Calls `chess::Board::piece_on` on the current position of `game`, and
/// gives the kind it finds on the square by its code, which
/// `chess::Piece::to_index` yields: 0 to 5. The game must be well begun, since
/// the engine plays it again from its start to reach the position.
#[verifier::external_body]
fn kind_on(game: &chess::Game, square: u8) -> (kind: Option<u8>)
    requires
        square < 64,
        well_begun(*game),
    ensures
        kind == kind_code_at(*game, square),
        kind matches Some(code) ==> code < 6,
{
    game.current_position().piece_on(chess::ALL_SQUARES[square as usize]).map(|p| p.to_index() as u8)
}

/// The legal moves of the current position of `game`, in the engine's order.
pub open spec fn legal(game: chess::Game) -> Seq<Move> {
    decode_moves(legal_move_codes(game))
}

/// The moves played in `game`, in the order in which they were played.
pub open spec fn played(game: chess::Game) -> Seq<Move> {
    decode_moves(played_codes(game))
}

/// What stands on `square` in the current position of `game`.
pub open spec fn contents(game: chess::Game, square: Coordinate) -> TileContents {
    TileContents::of_codes(
        side_code_at(game, square.index() as u8),
        kind_code_at(game, square.index() as u8),
    )
}

/// Whether the engine will still take a legal move in `game`: the game is
/// over only where its position has no legal move. This holds of a new game
/// and of every game that has only been played in; it would fail after a
/// resignation or an agreed draw, for which this library never asks.
pub open spec fn live(game: chess::Game) -> bool {
    concluded(game) ==> legal_move_codes(game).len() == 0
}

/// A game of the rules engine that began in the initial position and has
/// only been played in since.
pub struct Engine {
    game: chess::Game,
}

impl Engine {
    /// The game is one that the engine can be asked about, and one in which
    /// it still takes every legal move.
    #[verifier::type_invariant]
    spec fn sound(self) -> bool {
        playable(self.game) && live(self.game)
    }

    /// The game that the engine keeps.
    pub closed spec fn game(&self) -> chess::Game {
        self.game
    }

    /// A new game, in the initial position.
    pub fn new() -> (engine: Engine)
        ensures
            played(engine.game()) == Seq::<Move>::empty(),
    {
        let game = new_game();
        assert(played(game) =~= Seq::<Move>::empty());
        Engine { game }
    }

    /// The legal moves of the current position, in the engine's order.
    pub fn legal_moves(&self) -> (moves: Vec<Move>)
        ensures
            moves@ == legal(self.game()),
            all_valid(legal_move_codes(self.game())),
    {
        proof {
            use_type_invariant(self);
        }
        let codes = generate_legal(&self.game);
        let mut moves: Vec<Move> = Vec::new();
        let mut i: usize = 0;
        while i < codes.len()
            invariant
                i <= codes.len(),
                moves.len() == i,
                all_valid(codes@),
                forall|j: int| 0 <= j < i ==> moves[j] == Move::of_code(codes[j]),
            decreases codes.len() - i,
        {
            if let Some(mv) = Move::from_code(codes[i]) {
                moves.push(mv);
            }
            i += 1;
        }
        assert(moves@ =~= decode_moves(codes@));
        moves
    }

    /// Hands `mv` to the engine to be played, and tells whether the engine
    /// accepted it.
    ///
    /// The engine accepts exactly the moves whose code it lists as legal.
    /// An accepted move is the last of the moves played from then on. A move
    /// that is not accepted leaves the game as it was.
    pub fn play(&mut self, mv: Move) -> (accepted: bool)
        ensures
            accepted <==> legal_move_codes(old(self).game()).contains(mv.code()),
            accepted ==> played(final(self).game()) == played(old(self).game()).push(mv),
            !accepted ==> final(self).game() == old(self).game(),
    {
        proof {
            use_type_invariant(&*self);
        }
        let code = mv.to_code();
        let ghost before = played_codes(self.game);
        let accepted = make_move(&mut self.game, code);
        proof {
            if accepted {
                assert(decode_moves(before.push(code)) =~= decode_moves(before).push(mv));
            }
        }
        accepted
    }

    /// What stands on `square` in the current position.
    pub fn tile_at(&self, square: Coordinate) -> (tile: TileContents)
        ensures
            tile == contents(self.game(), square),
    {
        proof {
            use_type_invariant(self);
        }
        let index = square.to_index();
        match (side_on(&self.game, index), kind_on(&self.game, index)) {
            (Some(side_code), Some(kind_code)) => {
                match (Side::from_code(side_code), PieceKind::from_code(kind_code)) {
                    (Some(side), Some(kind)) => TileContents::Occupied(side, kind),
                    _ => TileContents::Empty,
                }
            },
            _ => TileContents::Empty,
        }
    }
}

} // verus!
