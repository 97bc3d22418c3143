use chess_view::coordinate::{Coordinate, File, Rank};
use chess_view::interaction::{InteractionError, InteractionState};
use chess_view::moves::{contains, find_move, moves_available, Move};
use chess_view::pieces::PieceKind;
use chess_view::styles::{get_tile_style, Tile};

fn at(file: File, rank: Rank) -> Coordinate {
    Coordinate { file, rank }
}

fn quiet(from: Coordinate, to: Coordinate) -> Move {
    Move { from, to, promotion: None }
}

/// The legal moves of the two centre pawns and a knight, as an engine might
/// list them.
fn opening_moves() -> Vec<Move> {
    vec![
        quiet(at(File::D, Rank::Second), at(File::D, Rank::Third)),
        quiet(at(File::E, Rank::Second), at(File::E, Rank::Third)),
        quiet(at(File::D, Rank::Second), at(File::D, Rank::Fourth)),
        quiet(at(File::E, Rank::Second), at(File::E, Rank::Fourth)),
        quiet(at(File::G, Rank::First), at(File::F, Rank::Third)),
        quiet(at(File::G, Rank::First), at(File::H, Rank::Third)),
    ]
}

fn promoting_moves() -> Vec<Move> {
    let from = at(File::A, Rank::Seventh);
    let to = at(File::A, Rank::Eighth);
    let takes = at(File::B, Rank::Eighth);
    vec![
        Move { from, to, promotion: Some(PieceKind::Queen) },
        Move { from, to, promotion: Some(PieceKind::Knight) },
        Move { from, to, promotion: Some(PieceKind::Rook) },
        Move { from, to, promotion: Some(PieceKind::Bishop) },
        Move { from, to: takes, promotion: Some(PieceKind::Queen) },
        Move { from, to: takes, promotion: Some(PieceKind::Knight) },
        Move { from, to: takes, promotion: Some(PieceKind::Rook) },
        Move { from, to: takes, promotion: Some(PieceKind::Bishop) },
        quiet(at(File::H, Rank::First), at(File::H, Rank::Second)),
    ]
}

#[test]
fn move_code_of_a_quiet_move() {
    let mv = quiet(at(File::E, Rank::Second), at(File::E, Rank::Fourth));
    assert_eq!(mv.to_code(), (12, 28, None));
    assert_eq!(Move::from_code((12, 28, None)), Some(mv));
}

#[test]
fn move_code_of_a_promotion() {
    let mv = Move {
        from: at(File::A, Rank::Seventh),
        to: at(File::B, Rank::Eighth),
        promotion: Some(PieceKind::Queen),
    };
    assert_eq!(mv.to_code(), (48, 57, Some(4)));
    assert_eq!(Move::from_code((48, 57, Some(4))), Some(mv));
    assert_eq!(
        Move::from_code((48, 57, Some(1))),
        Some(Move { promotion: Some(PieceKind::Knight), ..mv })
    );
}

#[test]
fn move_from_code_rejects_what_is_no_code() {
    assert_eq!(Move::from_code((64, 0, None)), None);
    assert_eq!(Move::from_code((0, 64, None)), None);
    assert_eq!(Move::from_code((0, 1, Some(6))), None);
    assert_eq!(Move::from_code((255, 255, Some(255))), None);
    assert!(Move::from_code((63, 63, Some(5))).is_some());
}

#[test]
fn destinations_are_those_of_the_moves_from_the_square() {
    let moves = opening_moves();
    assert_eq!(
        moves_available(&moves, at(File::E, Rank::Second)),
        vec![at(File::E, Rank::Third), at(File::E, Rank::Fourth)]
    );
    assert_eq!(
        moves_available(&moves, at(File::G, Rank::First)),
        vec![at(File::F, Rank::Third), at(File::H, Rank::Third)]
    );
}

#[test]
fn destinations_of_a_square_without_moves_are_none() {
    let moves = opening_moves();
    assert_eq!(moves_available(&moves, at(File::E, Rank::Fourth)), vec![]);
    assert_eq!(moves_available(&moves, at(File::E, Rank::Seventh)), vec![]);
    assert_eq!(moves_available(&Vec::new(), at(File::E, Rank::Second)), vec![]);
}

#[test]
fn each_destination_is_listed_once() {
    let moves = promoting_moves();
    assert_eq!(
        moves_available(&moves, at(File::A, Rank::Seventh)),
        vec![at(File::A, Rank::Eighth), at(File::B, Rank::Eighth)]
    );
}

#[test]
fn contains_finds_a_square_in_a_list() {
    let squares = vec![at(File::E, Rank::Third), at(File::E, Rank::Fourth)];
    assert!(contains(&squares, at(File::E, Rank::Third)));
    assert!(contains(&squares, at(File::E, Rank::Fourth)));
    assert!(!contains(&squares, at(File::E, Rank::Fifth)));
    assert!(!contains(&Vec::new(), at(File::E, Rank::Third)));
}

#[test]
fn find_move_gives_the_first_move_between_two_squares() {
    let moves = promoting_moves();
    let from = at(File::A, Rank::Seventh);
    assert_eq!(
        find_move(&moves, from, at(File::A, Rank::Eighth)),
        Some(Move { from, to: at(File::A, Rank::Eighth), promotion: Some(PieceKind::Queen) })
    );
    assert_eq!(
        find_move(&moves, from, at(File::B, Rank::Eighth)),
        Some(Move { from, to: at(File::B, Rank::Eighth), promotion: Some(PieceKind::Queen) })
    );
    assert_eq!(
        find_move(&moves, at(File::H, Rank::First), at(File::H, Rank::Second)),
        Some(quiet(at(File::H, Rank::First), at(File::H, Rank::Second)))
    );
}

#[test]
fn find_move_gives_none_where_no_move_joins_the_squares() {
    let moves = promoting_moves();
    assert_eq!(find_move(&moves, at(File::A, Rank::Seventh), at(File::C, Rank::Eighth)), None);
    assert_eq!(find_move(&moves, at(File::A, Rank::Eighth), at(File::A, Rank::Seventh)), None);
    assert_eq!(find_move(&Vec::new(), at(File::A, Rank::Seventh), at(File::A, Rank::Eighth)), None);
}

#[test]
fn a_new_selection_is_idle() {
    let state = InteractionState::new();
    assert_eq!(state, InteractionState::Idle);
    assert_eq!(state.selected(), None);
    assert!(!state.is_target(at(File::E, Rank::Fourth)));
    assert_eq!(state.pending_origin(at(File::E, Rank::Fourth)), None);
}

#[test]
fn a_click_while_idle_selects_the_square_with_its_destinations() {
    let moves = opening_moves();
    let e2 = at(File::E, Rank::Second);
    let next = InteractionState::new().click(e2, &moves, false);
    assert_eq!(
        next,
        Ok(InteractionState::PieceSelected {
            origin: e2,
            targets: vec![at(File::E, Rank::Third), at(File::E, Rank::Fourth)],
        })
    );
    let next = next.unwrap();
    assert_eq!(next.selected(), Some(e2));
    assert!(next.is_target(at(File::E, Rank::Third)));
    assert!(next.is_target(at(File::E, Rank::Fourth)));
    assert!(!next.is_target(e2));
    assert_eq!(next.pending_origin(at(File::E, Rank::Fourth)), Some(e2));
    assert_eq!(next.pending_origin(at(File::D, Rank::Fourth)), None);
}

#[test]
fn a_click_on_a_square_without_moves_selects_it_without_targets() {
    let moves = opening_moves();
    let e5 = at(File::E, Rank::Fifth);
    let next = InteractionState::new().click(e5, &moves, false);
    assert_eq!(next, Ok(InteractionState::PieceSelected { origin: e5, targets: vec![] }));
    // What the engine would have said of a move plays no part.
    assert_eq!(InteractionState::new().click(e5, &moves, true), next);
}

#[test]
fn clicking_twice_on_a_square_without_moves_changes_nothing_the_second_time() {
    let moves = opening_moves();
    let e5 = at(File::E, Rank::Fifth);
    let e2 = at(File::E, Rank::Second);
    let selected = InteractionState::new().click(e2, &moves, false).unwrap();
    for start in [InteractionState::new(), selected] {
        let once = start.click(e5, &moves, false).unwrap();
        let twice = once.click(e5, &moves, false).unwrap();
        assert_eq!(once, InteractionState::PieceSelected { origin: e5, targets: vec![] });
        assert_eq!(twice, once);
    }
}

#[test]
fn a_click_on_a_target_clears_the_selection_once_the_move_is_accepted() {
    let moves = opening_moves();
    let selected = InteractionState::new().click(at(File::E, Rank::Second), &moves, false).unwrap();
    assert_eq!(selected.click(at(File::E, Rank::Fourth), &moves, true), Ok(InteractionState::Idle));
    assert_eq!(selected.click(at(File::E, Rank::Third), &moves, true), Ok(InteractionState::Idle));
    // The legal moves play no part in a commit.
    assert_eq!(selected.click(at(File::E, Rank::Fourth), &Vec::new(), true), Ok(InteractionState::Idle));
}

#[test]
fn a_rejected_move_is_an_error_that_names_it() {
    let moves = opening_moves();
    let e2 = at(File::E, Rank::Second);
    let e4 = at(File::E, Rank::Fourth);
    let selected = InteractionState::new().click(e2, &moves, false).unwrap();
    assert_eq!(
        selected.click(e4, &moves, false),
        Err(InteractionError::MoveRejected { from: e2, to: e4 })
    );
    // The selection that was clicked is not touched.
    assert_eq!(
        selected,
        InteractionState::PieceSelected { origin: e2, targets: vec![at(File::E, Rank::Third), e4] }
    );
}

#[test]
fn a_click_off_the_targets_selects_anew() {
    let moves = opening_moves();
    let e2 = at(File::E, Rank::Second);
    let d2 = at(File::D, Rank::Second);
    let selected = InteractionState::new().click(e2, &moves, false).unwrap();
    let next = selected.click(d2, &moves, false);
    assert_eq!(
        next,
        Ok(InteractionState::PieceSelected {
            origin: d2,
            targets: vec![at(File::D, Rank::Third), at(File::D, Rank::Fourth)],
        })
    );
    // Also on the selected square itself, which is no target of its own.
    assert_eq!(selected.click(e2, &moves, false), Ok(selected.clone()));
}

#[test]
fn targets_are_there_only_while_a_square_is_selected() {
    let moves = opening_moves();
    let clicks = [
        at(File::E, Rank::Second),
        at(File::E, Rank::Fifth),
        at(File::G, Rank::First),
        at(File::F, Rank::Third),
        at(File::A, Rank::First),
        at(File::D, Rank::Second),
        at(File::D, Rank::Fourth),
    ];
    let mut state = InteractionState::new();
    for position in clicks {
        state = state.click(position, &moves, true).unwrap();
        let has_targets = match &state {
            InteractionState::Idle => false,
            InteractionState::PieceSelected { targets, .. } => !targets.is_empty(),
        };
        if has_targets {
            assert!(state.selected().is_some());
        }
        if state.selected().is_none() {
            assert!(!has_targets);
        }
    }
    // A selection without targets is a selection still.
    let lone = InteractionState::new().click(at(File::A, Rank::First), &moves, true).unwrap();
    assert_eq!(lone.selected(), Some(at(File::A, Rank::First)));
}

#[test]
fn style_of_each_kind_of_tile() {
    let moves = opening_moves();
    let e2 = at(File::E, Rank::Second);
    let state = InteractionState::new().click(e2, &moves, false).unwrap();
    assert_eq!(get_tile_style(at(File::E, Rank::Third), &state), Tile::Move);
    assert_eq!(get_tile_style(at(File::E, Rank::Fourth), &state), Tile::Move);
    assert_eq!(get_tile_style(e2, &state), Tile::Selected { is_even: false });
    assert_eq!(get_tile_style(at(File::A, Rank::First), &state), Tile::NonSelected { is_even: true });
    assert_eq!(get_tile_style(at(File::B, Rank::First), &state), Tile::NonSelected { is_even: false });
    let d2 = at(File::D, Rank::Second);
    let other = state.click(at(File::D, Rank::Third), &opening_moves(), false).unwrap();
    assert_eq!(get_tile_style(at(File::D, Rank::Third), &other), Tile::Selected { is_even: false });
    assert_eq!(get_tile_style(d2, &other), Tile::NonSelected { is_even: true });
    let a1 = InteractionState::new().click(at(File::A, Rank::First), &moves, false).unwrap();
    assert_eq!(get_tile_style(at(File::A, Rank::First), &a1), Tile::Selected { is_even: true });
}

#[test]
fn style_of_an_idle_board_is_the_checkerboard() {
    let state = InteractionState::new();
    for index in 0..64u8 {
        let square = Coordinate::from_index(index).unwrap();
        let is_even = (index % 8 + index / 8) % 2 == 0;
        assert_eq!(get_tile_style(square, &state), Tile::NonSelected { is_even });
    }
}

#[test]
fn style_is_the_same_for_the_same_square_and_selection() {
    let moves = opening_moves();
    let state = InteractionState::new().click(at(File::G, Rank::First), &moves, false).unwrap();
    let same = state.clone();
    for index in 0..64u8 {
        let square = Coordinate::from_index(index).unwrap();
        assert_eq!(get_tile_style(square, &state), get_tile_style(square, &state));
        assert_eq!(get_tile_style(square, &state), get_tile_style(square, &same));
    }
}
