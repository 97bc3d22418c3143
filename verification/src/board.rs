//! The board: a game of the rules engine and the selection on it.
//!
//! A click on a tile comes in through [`BoardView::update`], and
//! [`BoardView::view`] says how each of the 64 tiles is to be drawn. The
//! board keeps the selection and the game in step: the targets of a selected
//! square are the destinations that the engine gives for it in the position
//! on the board. The game changes only when a move is committed, and the
//! selection is cleared with it, so the targets are never out of date, and a
//! click on a target always finds a legal move to hand to the engine.

use vstd::prelude::*;
use crate::coordinate::{Coordinate, File, Rank};
use crate::engine::{contents, legal, legal_move_codes, played, Engine};
use crate::interaction::{InteractionError, InteractionState, InteractionView};
use crate::moves::{destinations, find_move, first_move, lemma_decoded_contains, Move};
use crate::pieces::{get_tile_image, image_path, TileContents};
use crate::styles::{get_tile_style, tile_style, Tile};

verus! {

/// The board.
pub struct BoardView {
    engine: Engine,
    state: InteractionState,
}

/// What the user did.
#[derive(Clone, Copy, Debug, PartialEq, Eq)]
pub enum Message {
    /// A click on the tile at the given square.
    TileSelected(Coordinate),
}

/// How one tile is to be drawn.
#[derive(Clone, Copy, Debug, PartialEq, Eq)]
pub struct TileView {
    /// The square of the tile, which a click on it reports.
    pub position: Coordinate,
    /// The style of its background.
    pub style: Tile,
    /// What stands on it.
    pub contents: TileContents,
    /// The path of the image that shows what stands on it.
    pub image: &'static str,
}

impl Message {
    /// The square that was clicked.
    pub open spec fn position(self) -> Coordinate {
        match self {
            Message::TileSelected(position) => position,
        }
    }
}

/// The square of the tile that is drawn in place `i`. Tiles are drawn row by
/// row from the top, where the eighth rank is, and from file A to file H
/// within a row.
pub open spec fn drawn_at(i: int) -> Coordinate {
    Coordinate { file: File::at(i % 8), rank: Rank::at(7 - i / 8) }
}

/// The square of the tile that is drawn in place `i`, for `i` below 64.
pub fn drawing_position(i: u8) -> (position: Option<Coordinate>)
    ensures
        position == (if i < 64 {
            Some(drawn_at(i as int))
        } else {
            None
        }),
{
    if i < 64 {
        match (File::from_index(i % 8), Rank::from_index(7 - i / 8)) {
            (Some(file), Some(rank)) => Some(Coordinate { file, rank }),
            _ => None,
        }
    } else {
        None
    }
}

impl BoardView {
    /// The game on the board.
    pub closed spec fn game(&self) -> chess::Game {
        self.engine.game()
    }

    /// The selection on the board.
    pub closed spec fn interaction(&self) -> InteractionView {
        self.state@
    }

    /// The selection and the game are in step: the targets of a selected
    /// square are the destinations that the legal moves of the position
    /// give for it. This holds of a new board, and [`BoardView::update`]
    /// keeps it.
    pub open spec fn wf(&self) -> bool {
        &&& self.interaction().wf()
        &&& self.interaction().selected matches Some(origin) ==> self.interaction().targets
            =~= destinations(legal(self.game()), origin)
    }

    /// The move that a click on `position` commits: where `position` is a
    /// target, the first legal move that leads to it from the selected
    /// square; elsewhere none.
    pub open spec fn pending_move(&self, position: Coordinate) -> Option<Move> {
        match self.interaction().selected {
            Some(origin) => if self.interaction().targets.contains(position) {
                first_move(legal(self.game()), origin, position)
            } else {
                None
            },
            None => None,
        }
    }

    /// A board with a new game on it and nothing selected.
    pub fn new() -> (board: BoardView)
        ensures
            board.wf(),
            board.interaction() == InteractionView::idle(),
            played(board.game()) == Seq::<Move>::empty(),
    {
        BoardView { engine: Engine::new(), state: InteractionState::new() }
    }

    /// The selection on the board.
    pub fn state(&self) -> (state: &InteractionState)
        ensures
            state@ == self.interaction(),
    {
        &self.state
    }

    /// What stands on the tile at `position`.
    pub fn tile_at(&self, position: Coordinate) -> (tile: TileContents)
        ensures
            tile == contents(self.game(), position),
    {
        self.engine.tile_at(position)
    }

    /// What a click on `position` does to the game on this board, where
    /// `after` is the game after the click: a click that commits a move has
    /// the first legal move from the selected square to `position` played,
    /// once; any other click leaves the game as it is.
    pub open spec fn plays(&self, position: Coordinate, after: chess::Game) -> bool {
        match self.pending_move(position) {
            Some(mv) => {
                &&& legal(self.game()).contains(mv)
                &&& self.interaction().selected == Some(mv.from)
                &&& mv.to == position
                &&& played(after) == played(self.game()).push(mv)
            },
            None => after == self.game(),
        }
    }

    /// Takes a click on a tile.
    ///
    /// A click on a target of the selected square commits the move: the
    /// first legal move from the selected square to the clicked one is
    /// handed to the engine and played, and the selection is cleared. Any
    /// other click leaves the game as it is and selects the clicked square,
    /// with the destinations that the engine gives for it as its targets.
    ///
    /// A commit fails exactly where the engine lists no move from the
    /// selected square to the clicked one: the selection and the game have
    /// come apart. The error names the move, and the board is left as it
    /// was, selection and game; the selection is never cleared in silence.
    /// On a board whose selection and game are in step this does not
    /// happen: there every click succeeds and leaves them in step, and a
    /// click commits a move exactly if there is a legal move to commit.
    pub fn update(&mut self, message: Message) -> (outcome: Result<(), InteractionError>)
        ensures
            outcome is Err <==> old(self).interaction().commits(message.position()) && old(
                self,
            ).pending_move(message.position()) is None,
            outcome matches Err(error) ==> error == (InteractionError::MoveRejected {
                from: old(self).interaction().selected->Some_0,
                to: message.position(),
            }),
            outcome is Err ==> final(self).interaction() == old(self).interaction(),
            outcome is Err ==> final(self).game() == old(self).game(),
            outcome is Ok ==> final(self).interaction() == old(self).interaction().click(
                message.position(),
                legal(old(self).game()),
                true,
            ),
            outcome is Ok ==> old(self).plays(message.position(), final(self).game()),
            final(self).interaction().wf(),
            old(self).wf() ==> outcome is Ok,
            old(self).wf() ==> final(self).wf(),
            old(self).wf() ==> (old(self).interaction().commits(message.position()) <==> old(
                self,
            ).pending_move(message.position()) is Some),
    {
        let Message::TileSelected(position) = message;
        let moves = self.engine.legal_moves();
        let accepted = match self.state.pending_origin(position) {
            Some(origin) => match find_move(&moves, origin, position) {
                Some(mv) => {
                    proof {
                        lemma_decoded_contains(legal_move_codes(self.game()), mv);
                    }
                    self.engine.play(mv)
                },
                None => false,
            },
            None => false,
        };
        match self.state.click(position, &moves, accepted) {
            Ok(next) => {
                self.state = next;
                Ok(())
            },
            Err(error) => Err(error),
        }
    }

    /// How the 64 tiles are to be drawn, in the order in which they are
    /// drawn: for each its square, its style under the selection, what the
    /// engine finds on it, and the image of that.
    pub fn view(&self) -> (tiles: Vec<TileView>)
        ensures
            tiles.len() == 64,
            forall|i: int|
                0 <= i < 64 ==> {
                    let tile = #[trigger] tiles[i];
                    &&& tile.position == drawn_at(i)
                    &&& tile.style == tile_style(tile.position, self.interaction())
                    &&& tile.contents == contents(self.game(), tile.position)
                    &&& tile.image@ == image_path(tile.contents)
                },
    {
        let mut tiles: Vec<TileView> = Vec::new();
        let mut i: u8 = 0;
        while i < 64
            invariant
                i <= 64,
                tiles.len() == i,
                forall|j: int|
                    0 <= j < i ==> {
                        let tile = #[trigger] tiles[j];
                        &&& tile.position == drawn_at(j)
                        &&& tile.style == tile_style(tile.position, self.interaction())
                        &&& tile.contents == contents(self.game(), tile.position)
                        &&& tile.image@ == image_path(tile.contents)
                    },
            decreases 64 - i,
        {
            if let Some(position) = drawing_position(i) {
                let style = get_tile_style(position, &self.state);
                let contents = self.engine.tile_at(position);
                let image = get_tile_image(&contents);
                tiles.push(TileView { position, style, contents, image });
            }
            i += 1;
        }
        tiles
    }
}

} // verus!
