//! Moves, and the two questions that the board asks of a list of legal moves:
//! where a piece on a given square may go, and which move leads from one
//! square to another.
//!
//! A move is also known by its *code*, a triple of the indices of its two
//! squares and the number of the kind it promotes to, if any.

use vstd::prelude::*;
use crate::coordinate::{lemma_at_round_trip, lemma_index_round_trip, Coordinate};
use crate::pieces::PieceKind;

verus! {

/// A move of the piece on `from` to `to`. `promotion` is the kind that a pawn
/// turns into on reaching the last rank, and `None` for every other move.
#[derive(Clone, Copy, Debug, PartialEq, Eq, Structural, Hash)]
pub struct Move {
    pub from: Coordinate,
    pub to: Coordinate,
    pub promotion: Option<PieceKind>,
}

impl Move {
    /// Whether `code` is the code of a move: both squares lie on the board
    /// and the promotion, if any, is the number of a kind.
    pub open spec fn valid_code(code: (u8, u8, Option<u8>)) -> bool {
        &&& code.0 < 64
        &&& code.1 < 64
        &&& code.2 matches Some(kind) ==> kind < 6
    }

    /// The move with the given code.
    pub open spec fn of_code(code: (u8, u8, Option<u8>)) -> Move {
        Move {
            from: Coordinate::at(code.0 as int),
            to: Coordinate::at(code.1 as int),
            promotion: match code.2 {
                Some(kind) => Some(PieceKind::at(kind as int)),
                None => None,
            },
        }
    }

    /// The code of the move.
    pub open spec fn code(self) -> (u8, u8, Option<u8>) {
        (
            self.from.index() as u8,
            self.to.index() as u8,
            match self.promotion {
                Some(kind) => Some(kind.code() as u8),
                None => None,
            },
        )
    }

    /// Whether the move leads from `from` to `to`.
    pub open spec fn joins(self, from: Coordinate, to: Coordinate) -> bool {
        self.from == from && self.to == to
    }

    /// The move with the given code, if the code is valid.
    pub fn from_code(code: (u8, u8, Option<u8>)) -> (mv: Option<Move>)
        ensures
            mv == (if Move::valid_code(code) {
                Some(Move::of_code(code))
            } else {
                None
            }),
    {
        let promotion = match code.2 {
            Some(number) => match PieceKind::from_code(number) {
                Some(kind) => Some(kind),
                None => {
                    return None;
                },
            },
            None => None,
        };
        match (Coordinate::from_index(code.0), Coordinate::from_index(code.1)) {
            (Some(from), Some(to)) => Some(Move { from, to, promotion }),
            _ => None,
        }
    }

    /// The code of the move.
    pub fn to_code(self) -> (code: (u8, u8, Option<u8>))
        ensures
            code == self.code(),
            Move::valid_code(code),
            Move::of_code(code) == self,
    {
        proof {
            lemma_index_round_trip(self.from);
            lemma_index_round_trip(self.to);
        }
        let promotion = match self.promotion {
            Some(kind) => Some(kind.to_code()),
            None => None,
        };
        (self.from.to_index(), self.to.to_index(), promotion)
    }
}

/// The moves with the given codes, in the same order.
pub open spec fn decode_moves(codes: Seq<(u8, u8, Option<u8>)>) -> Seq<Move> {
    Seq::new(codes.len(), |i: int| Move::of_code(codes[i]))
}

/// Whether each of `codes` is valid.
pub open spec fn all_valid(codes: Seq<(u8, u8, Option<u8>)>) -> bool {
    forall|i: int| 0 <= i < codes.len() ==> Move::valid_code(#[trigger] codes[i])
}

/// A valid code is the code of the move that it stands for.
pub proof fn lemma_code_round_trip(code: (u8, u8, Option<u8>))
    requires
        Move::valid_code(code),
    ensures
        Move::of_code(code).code() == code,
{
    lemma_at_round_trip(code.0 as int);
    lemma_at_round_trip(code.1 as int);
}

/// Among valid codes a move is found exactly if its code is.
pub proof fn lemma_decoded_contains(codes: Seq<(u8, u8, Option<u8>)>, mv: Move)
    requires
        all_valid(codes),
    ensures
        decode_moves(codes).contains(mv) <==> codes.contains(mv.code()),
{
    lemma_index_round_trip(mv.from);
    lemma_index_round_trip(mv.to);
    if codes.contains(mv.code()) {
        let i = choose|i: int| 0 <= i < codes.len() && codes[i] == mv.code();
        assert(decode_moves(codes)[i] == mv);
    }
    if decode_moves(codes).contains(mv) {
        let i = choose|i: int| 0 <= i < codes.len() && decode_moves(codes)[i] == mv;
        lemma_code_round_trip(codes[i]);
    }
}

/// The squares that `moves` lead to from `from`.
pub open spec fn destinations(moves: Seq<Move>, from: Coordinate) -> Set<Coordinate> {
    Set::new(
        |to: Coordinate|
            exists|i: int| 0 <= i < moves.len() && (#[trigger] moves[i]).joins(from, to),
    )
}

/// The squares that `moves` lead to from `from`, each once, in the order in
/// which `moves` first reaches them.
pub open spec fn destination_list(moves: Seq<Move>, from: Coordinate) -> Seq<Coordinate>
    decreases moves.len(),
{
    if moves.len() == 0 {
        Seq::empty()
    } else {
        let earlier = destination_list(moves.drop_last(), from);
        let last = moves.last();
        if last.from == from && !earlier.contains(last.to) {
            earlier.push(last.to)
        } else {
            earlier
        }
    }
}

/// The first of `moves` that leads from `from` to `to`.
pub open spec fn first_move(moves: Seq<Move>, from: Coordinate, to: Coordinate) -> Option<Move>
    decreases moves.len(),
{
    if moves.len() == 0 {
        None
    } else if moves.first().joins(from, to) {
        Some(moves.first())
    } else {
        first_move(moves.drop_first(), from, to)
    }
}

/// The list of destinations holds exactly the set of destinations, and
/// holds none of them twice.
pub proof fn lemma_destination_list(moves: Seq<Move>, from: Coordinate)
    ensures
        destination_list(moves, from).to_set() =~= destinations(moves, from),
        destination_list(moves, from).no_duplicates(),
    decreases moves.len(),
{
    let list = destination_list(moves, from);
    if moves.len() == 0 {
        assert(list.to_set() =~= destinations(moves, from));
    } else {
        let shorter = moves.drop_last();
        let earlier = destination_list(shorter, from);
        let last = moves.last();
        lemma_destination_list(shorter, from);
        assert forall|to: Coordinate| list.contains(to) <==> destinations(moves, from).contains(
            to,
        ) by {
            if list.contains(to) {
                if earlier.contains(to) {
                    assert(destinations(shorter, from).contains(to));
                    let i = choose|i: int| 0 <= i < shorter.len() && (#[trigger] shorter[i]).joins(from, to);
                    assert(moves[i].joins(from, to));
                } else {
                    let k = choose|k: int| 0 <= k < list.len() && list[k] == to;
                    assert(k == earlier.len());
                    assert(moves[moves.len() - 1].joins(from, to));
                }
            }
            if destinations(moves, from).contains(to) {
                let i = choose|i: int| 0 <= i < moves.len() && (#[trigger] moves[i]).joins(from, to);
                if i < shorter.len() {
                    assert(shorter[i].joins(from, to));
                    assert(destinations(shorter, from).contains(to));
                    assert(earlier.to_set().contains(to));
                    let k = choose|k: int| 0 <= k < earlier.len() && earlier[k] == to;
                    assert(list[k] == to);
                } else {
                    assert(last.joins(from, to));
                    if earlier.contains(to) {
                        let k = choose|k: int| 0 <= k < earlier.len() && earlier[k] == to;
                        assert(list[k] == to);
                    } else {
                        assert(list[earlier.len() as int] == to);
                    }
                }
            }
        }
        assert(list.to_set() =~= destinations(moves, from));
    }
}

/// A square is a destination from `from` exactly if some move leads there
/// from `from`, and the first such move is then one of `moves`.
pub proof fn lemma_first_move(moves: Seq<Move>, from: Coordinate, to: Coordinate)
    ensures
        destinations(moves, from).contains(to) <==> first_move(moves, from, to) is Some,
        first_move(moves, from, to) matches Some(mv) ==> mv.joins(from, to) && moves.contains(mv),
    decreases moves.len(),
{
    if moves.len() == 0 {
    } else if moves.first().joins(from, to) {
        assert(moves[0].joins(from, to));
    } else {
        let rest = moves.drop_first();
        lemma_first_move(rest, from, to);
        if first_move(rest, from, to) is Some {
            let mv = first_move(rest, from, to)->Some_0;
            let k = choose|k: int| 0 <= k < rest.len() && rest[k] == mv;
            assert(moves[k + 1] == mv);
            assert(moves[k + 1].joins(from, to));
        }
        if destinations(moves, from).contains(to) {
            let i = choose|i: int| 0 <= i < moves.len() && (#[trigger] moves[i]).joins(from, to);
            assert(i > 0);
            assert(rest[i - 1].joins(from, to));
            assert(destinations(rest, from).contains(to));
        }
    }
}

/// The squares to which the piece on `from` may go, given the legal moves
/// of the position: the destinations of the moves that start on `from`, each
/// once, in the order in which the moves first reach them.
pub fn moves_available(moves: &Vec<Move>, from: Coordinate) -> (targets: Vec<Coordinate>)
    ensures
        targets@ == destination_list(moves@, from),
        targets@.to_set() == destinations(moves@, from),
        targets@.no_duplicates(),
{
    let mut targets: Vec<Coordinate> = Vec::new();
    let mut i: usize = 0;
    while i < moves.len()
        invariant
            i <= moves.len(),
            targets@ == destination_list(moves@.take(i as int), from),
        decreases moves.len() - i,
    {
        let mv = moves[i];
        proof {
            assert(moves@.take(i + 1).drop_last() =~= moves@.take(i as int));
            assert(moves@.take(i + 1).last() == mv);
        }
        if mv.from == from && !contains(&targets, mv.to) {
            targets.push(mv.to);
        }
        i += 1;
    }
    proof {
        assert(moves@.take(moves.len() as int) =~= moves@);
        lemma_destination_list(moves@, from);
    }
    targets
}

/// Whether `square` is one of `squares`.
pub fn contains(squares: &Vec<Coordinate>, square: Coordinate) -> (found: bool)
    ensures
        found == squares@.contains(square),
        found == squares@.to_set().contains(square),
{
    let mut i: usize = 0;
    while i < squares.len()
        invariant
            i <= squares.len(),
            forall|j: int| 0 <= j < i ==> squares@[j] != square,
        decreases squares.len() - i,
    {
        if squares[i] == square {
            return true;
        }
        i += 1;
    }
    false
}

/// The first of `moves` that leads from `from` to `to`, if there is one.
pub fn find_move(moves: &Vec<Move>, from: Coordinate, to: Coordinate) -> (found: Option<Move>)
    ensures
        found == first_move(moves@, from, to),
        found is Some <==> destinations(moves@, from).contains(to),
        found matches Some(mv) ==> mv.joins(from, to) && moves@.contains(mv),
{
    let mut i: usize = 0;
    proof {
        assert(moves@.skip(0) =~= moves@);
        lemma_first_move(moves@, from, to);
    }
    while i < moves.len()
        invariant
            i <= moves.len(),
            first_move(moves@, from, to) == first_move(moves@.skip(i as int), from, to),
        decreases moves.len() - i,
    {
        let mv = moves[i];
        proof {
            assert(moves@.skip(i as int).first() == mv);
            assert(moves@.skip(i as int).drop_first() =~= moves@.skip(i + 1));
        }
        if mv.from == from && mv.to == to {
            return Some(mv);
        }
        i += 1;
    }
    None
}

} // verus!
