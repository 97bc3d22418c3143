//! How a tile is drawn: its style, and the colour of each style.
//!
//! The style of a tile follows from the selection alone. A target of the
//! selected piece is drawn as a move, the selected square as selected, every
//! other square plainly; the last two in the light or the dark colour of the
//! checkerboard, which the selection does not change.

use vstd::prelude::*;
use crate::coordinate::Coordinate;
use crate::interaction::{InteractionState, InteractionView};

verus! {

/// The style of a tile.
#[derive(Clone, Copy, Debug, PartialEq, Eq, Structural, Hash)]
pub enum Tile {
    /// The selected piece may move here.
    Move,
    /// The selected square.
    Selected { is_even: bool },
    /// Any other square.
    NonSelected { is_even: bool },
}

/// A colour, each part in thousandths of its full strength.
#[derive(Clone, Copy, Debug, PartialEq, Eq, Structural, Hash)]
pub struct Rgb {
    pub red: u16,
    pub green: u16,
    pub blue: u16,
}

/// The style of the tile at `position` under `selection`.
pub open spec fn tile_style(position: Coordinate, selection: InteractionView) -> Tile {
    if selection.targets.contains(position) {
        Tile::Move
    } else if selection.selected == Some(position) {
        Tile::Selected { is_even: position.is_even() }
    } else {
        Tile::NonSelected { is_even: position.is_even() }
    }
}

/// The style of the tile at `position` under the selection `state`. It
/// depends on nothing else, so the same square under the same selection is
/// always drawn alike.
pub fn get_tile_style(position: Coordinate, state: &InteractionState) -> (style: Tile)
    ensures
        style == tile_style(position, state@),
{
    let is_even = position.parity_is_even();
    if state.is_target(position) {
        Tile::Move
    } else {
        match state.selected() {
            Some(origin) => {
                if origin == position {
                    Tile::Selected { is_even }
                } else {
                    Tile::NonSelected { is_even }
                }
            },
            None => Tile::NonSelected { is_even },
        }
    }
}

impl Tile {
    /// The table of colours, one for each style.
    pub open spec fn shade(self) -> Rgb {
        match self {
            Tile::Move => Rgb { red: 570, green: 170, blue: 250 },
            Tile::Selected { is_even: true } => Rgb { red: 330, green: 530, blue: 530 },
            Tile::Selected { is_even: false } => Rgb { red: 564, green: 725, blue: 592 },
            Tile::NonSelected { is_even: true } => Rgb { red: 439, green: 635, blue: 639 },
            Tile::NonSelected { is_even: false } => Rgb { red: 694, green: 894, blue: 725 },
        }
    }

    /// The background colour of a tile of this style.
    pub fn color(&self) -> (rgb: Rgb)
        ensures
            rgb == self.shade(),
            rgb.red <= 1000 && rgb.green <= 1000 && rgb.blue <= 1000,
    {
        match self {
            Tile::Move => Rgb { red: 570, green: 170, blue: 250 },
            Tile::Selected { is_even: true } => Rgb { red: 330, green: 530, blue: 530 },
            Tile::Selected { is_even: false } => Rgb { red: 564, green: 725, blue: 592 },
            Tile::NonSelected { is_even: true } => Rgb { red: 439, green: 635, blue: 639 },
            Tile::NonSelected { is_even: false } => Rgb { red: 694, green: 894, blue: 725 },
        }
    }
}

/// The table of colours is one-to-one: two styles share a colour only if
/// they are the same style.
pub proof fn lemma_colors_distinct(a: Tile, b: Tile)
    requires
        a.shade() == b.shade(),
    ensures
        a == b,
{
}

} // verus!
