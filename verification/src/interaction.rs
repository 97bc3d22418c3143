//! The selection on the board, and how a click changes it.
//!
//! Either nothing is selected, or a square is, together with the squares to
//! which the engine lets its piece go. A click on one of those squares commits
//! the move; any other click selects the square that was clicked, whatever
//! stands on it. What the engine answers enters the functions of this file as
//! arguments, so they hold for every answer.

use vstd::prelude::*;
use crate::coordinate::Coordinate;
use crate::moves::{contains, destination_list, destinations, moves_available, Move};

verus! {

/// The selection.
#[derive(Debug, PartialEq, Eq)]
pub enum InteractionState {
    /// Nothing is selected.
    Idle,
    /// `origin` is selected, and `targets` are the squares that the engine
    /// gave as the destinations of its piece when it was selected.
    PieceSelected { origin: Coordinate, targets: Vec<Coordinate> },
}

/// What a selection says: the selected square, if any, and the set of the
/// squares that a click would commit a move to.
#[verifier::ext_equal]
pub struct InteractionView {
    pub selected: Option<Coordinate>,
    pub targets: Set<Coordinate>,
}

/// The engine did not accept a move that it had listed as legal when the
/// piece was selected: the selection and the game no longer agree.
#[derive(Clone, Copy, Debug, PartialEq, Eq, Structural)]
pub enum InteractionError {
    MoveRejected { from: Coordinate, to: Coordinate },
}

impl InteractionView {
    /// Nothing selected.
    pub open spec fn idle() -> InteractionView {
        InteractionView { selected: None, targets: Set::empty() }
    }

    /// `origin` selected, with `targets` as the destinations of its piece.
    pub open spec fn piece_selected(origin: Coordinate, targets: Set<Coordinate>) -> InteractionView {
        InteractionView { selected: Some(origin), targets }
    }

    /// There are targets only while a square is selected.
    pub open spec fn wf(self) -> bool {
        !(self.targets =~= Set::<Coordinate>::empty()) ==> self.selected is Some
    }

    /// Whether a click on `position` commits a move: a square is selected and
    /// `position` is one of its targets.
    pub open spec fn commits(self, position: Coordinate) -> bool {
        self.selected is Some && self.targets.contains(position)
    }

    /// The selection after a click on `position`, where `legal` are the legal
    /// moves of the position on the board and, for a click that commits a
    /// move, `accepted` tells whether the engine accepted it.
    ///
    /// An accepted move clears the selection and one that is not accepted
    /// leaves it as it was. A click that commits no move selects `position`,
    /// with the destinations that the legal moves give for it.
    pub open spec fn click(self, position: Coordinate, legal: Seq<Move>, accepted: bool) -> InteractionView {
        if self.commits(position) {
            if accepted {
                InteractionView::idle()
            } else {
                self
            }
        } else {
            InteractionView::piece_selected(position, destinations(legal, position))
        }
    }
}

impl View for InteractionState {
    type V = InteractionView;

    open spec fn view(&self) -> InteractionView {
        match self {
            InteractionState::Idle => InteractionView::idle(),
            InteractionState::PieceSelected { origin, targets } => InteractionView::piece_selected(
                *origin,
                targets@.to_set(),
            ),
        }
    }
}

impl Clone for InteractionState {
    /// A copy of the selection, with the same targets in the same order.
    fn clone(&self) -> (copy: InteractionState)
        ensures
            copy@ == self@,
            copy.target_list() == self.target_list(),
    {
        match self {
            InteractionState::Idle => InteractionState::Idle,
            InteractionState::PieceSelected { origin, targets } => {
                let mut copied: Vec<Coordinate> = Vec::new();
                let mut i: usize = 0;
                while i < targets.len()
                    invariant
                        i <= targets.len(),
                        copied@ == targets@.take(i as int),
                    decreases targets.len() - i,
                {
                    copied.push(targets[i]);
                    assert(targets@.take(i + 1) =~= targets@.take(i as int).push(targets@[i as int]));
                    i += 1;
                }
                assert(targets@.take(targets.len() as int) =~= targets@);
                InteractionState::PieceSelected { origin: *origin, targets: copied }
            },
        }
    }
}

impl InteractionState {
    /// The targets in the order in which they are kept; none where nothing
    /// is selected. Together with the view this says all of a selection.
    pub open spec fn target_list(&self) -> Seq<Coordinate> {
        match self {
            InteractionState::Idle => Seq::empty(),
            InteractionState::PieceSelected { targets, .. } => targets@,
        }
    }

    /// The selection at startup: nothing is selected.
    pub fn new() -> (state: InteractionState)
        ensures
            state@ == InteractionView::idle(),
    {
        InteractionState::Idle
    }

    /// The selected square, if any.
    pub fn selected(&self) -> (origin: Option<Coordinate>)
        ensures
            origin == self@.selected,
    {
        match self {
            InteractionState::Idle => None,
            InteractionState::PieceSelected { origin, .. } => Some(*origin),
        }
    }

    /// Whether `position` is one of the targets.
    pub fn is_target(&self, position: Coordinate) -> (found: bool)
        ensures
            found == self@.targets.contains(position),
    {
        match self {
            InteractionState::Idle => false,
            InteractionState::PieceSelected { targets, .. } => contains(targets, position),
        }
    }

    /// The square from which a click on `position` commits a move, or `None`
    /// where the click commits none.
    pub fn pending_origin(&self, position: Coordinate) -> (origin: Option<Coordinate>)
        ensures
            origin == (if self@.commits(position) {
                self@.selected
            } else {
                None
            }),
    {
        match self {
            InteractionState::Idle => None,
            InteractionState::PieceSelected { origin, targets } => {
                if contains(targets, position) {
                    Some(*origin)
                } else {
                    None
                }
            },
        }
    }

    /// The selection after a click on `position`, where `legal` are the
    /// legal moves of the position on the board and, for a click that
    /// commits a move, `accepted` tells whether the engine accepted it.
    ///
    /// A click on a target clears the selection where the engine accepted the
    /// move. Where it did not, the selection and the game have come apart:
    /// the click fails with an error that names the move, and the caller
    /// keeps the selection it had. Any other click selects `position`; its
    /// targets are the destinations of the legal moves that start there,
    /// each once and in the order of the moves, and there are none where the
    /// square is empty or its piece may not move.
    pub fn click(&self, position: Coordinate, legal: &Vec<Move>, accepted: bool) -> (outcome: Result<
        InteractionState,
        InteractionError,
    >)
        ensures
            outcome is Err <==> self@.commits(position) && !accepted,
            outcome matches Err(error) ==> self@.selected matches Some(origin) && error
                == (InteractionError::MoveRejected { from: origin, to: position }),
            outcome matches Ok(next) ==> next@ == self@.click(position, legal@, accepted),
            outcome matches Ok(next) ==> next@.wf(),
            outcome matches Ok(next) ==> next.target_list() == (if self@.commits(position) {
                Seq::<Coordinate>::empty()
            } else {
                destination_list(legal@, position)
            }),
    {
        match self.pending_origin(position) {
            Some(origin) => {
                if accepted {
                    Ok(InteractionState::Idle)
                } else {
                    Err(InteractionError::MoveRejected { from: origin, to: position })
                }
            },
            None => Ok(
                InteractionState::PieceSelected {
                    origin: position,
                    targets: moves_available(legal, position),
                },
            ),
        }
    }
}

/// Every selection has targets only while a square is selected.
pub proof fn lemma_targets_need_selection(state: InteractionState)
    ensures
        state@.wf(),
        !(state@.targets =~= Set::<Coordinate>::empty()) ==> state@.selected is Some,
{
}

/// A click keeps that: after it there are targets only if a square is
/// selected, whatever the engine answered.
pub proof fn lemma_click_keeps_wf(
    before: InteractionView,
    position: Coordinate,
    legal: Seq<Move>,
    accepted: bool,
)
    requires
        before.wf(),
    ensures
        before.click(position, legal, accepted).wf(),
{
}

/// A click on a target, once the engine has accepted the move, always
/// leaves nothing selected.
pub proof fn lemma_commit_clears_selection(before: InteractionView, position: Coordinate, legal: Seq<Move>)
    requires
        before.commits(position),
    ensures
        before.click(position, legal, true) == InteractionView::idle(),
{
}

/// Clicking twice on a square from which no legal move starts is the same
/// as clicking on it once: after the first click the square is selected
/// without targets, and the second click changes nothing. This is said of a
/// first click that commits no move; the engine's answer plays no part.
pub proof fn lemma_reselect_idempotent(
    before: InteractionView,
    position: Coordinate,
    legal: Seq<Move>,
    first: bool,
    second: bool,
)
    requires
        !before.commits(position),
        destinations(legal, position) =~= Set::<Coordinate>::empty(),
    ensures
        before.click(position, legal, first) == InteractionView::piece_selected(position, Set::empty()),
        before.click(position, legal, first).click(position, legal, second) == before.click(
            position,
            legal,
            first,
        ),
{
}

} // verus!
