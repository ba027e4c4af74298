use chess_moves::{
    generate_board, generate_empty_board_grid, is_valid_move, set_board_square, BoardGrid, Colour,
    File, GamePiece, PieceKind, Rank, Square,
};

fn board_with(pieces: &[(File, Rank, Colour, PieceKind)]) -> BoardGrid {
    let mut grid = generate_empty_board_grid(8, 8);
    for &(file, rank, colour, kind) in pieces {
        set_board_square(file, rank, &mut grid, Square::Piece(GamePiece { colour, kind }));
    }
    grid
}

#[test]
fn same_square_rejected_everywhere() {
    let board = generate_board();
    let files = [File::A, File::B, File::C, File::D, File::E, File::F, File::G, File::H];
    let ranks = [Rank::One, Rank::Two, Rank::Three, Rank::Four, Rank::Five, Rank::Six, Rank::Seven, Rank::Eight];
    for &f in files.iter() {
        for &r in ranks.iter() {
            assert!(!is_valid_move(Colour::White, &board, (f, r), (f, r)));
            assert!(!is_valid_move(Colour::Black, &board, (f, r), (f, r)));
        }
    }
}

#[test]
fn empty_source_rejected_on_standard_board() {
    let board = generate_board();
    let files = [File::A, File::B, File::C, File::D, File::E, File::F, File::G, File::H];
    let middle = [Rank::Three, Rank::Four, Rank::Five, Rank::Six];
    for &f in files.iter() {
        for &r in middle.iter() {
            assert!(!is_valid_move(Colour::White, &board, (f, r), (f, Rank::Seven)));
            assert!(!is_valid_move(Colour::White, &board, (f, r), (File::E, Rank::Four)));
        }
    }
}

#[test]
fn white_never_moves_black_pieces() {
    let board = generate_board();
    let files = [File::A, File::B, File::C, File::D, File::E, File::F, File::G, File::H];
    for &f in files.iter() {
        assert!(!is_valid_move(Colour::White, &board, (f, Rank::Seven), (f, Rank::Six)));
        assert!(!is_valid_move(Colour::White, &board, (f, Rank::Eight), (File::C, Rank::Six)));
    }
    assert!(is_valid_move(Colour::Black, &board, (File::B, Rank::Eight), (File::C, Rank::Six)));
}

#[test]
fn black_pawn_advances_down_the_board() {
    let board = generate_board();
    assert!(is_valid_move(Colour::Black, &board, (File::E, Rank::Seven), (File::E, Rank::Six)));
    let lone = board_with(&[(File::E, Rank::Five, Colour::Black, PieceKind::Pawn)]);
    assert!(!is_valid_move(Colour::Black, &lone, (File::E, Rank::Five), (File::E, Rank::Six)));
    assert!(is_valid_move(Colour::Black, &lone, (File::E, Rank::Five), (File::E, Rank::Four)));
}

#[test]
fn white_pawn_never_retreats_or_steps_twice() {
    let lone = board_with(&[(File::D, Rank::Four, Colour::White, PieceKind::Pawn)]);
    assert!(is_valid_move(Colour::White, &lone, (File::D, Rank::Four), (File::D, Rank::Five)));
    assert!(!is_valid_move(Colour::White, &lone, (File::D, Rank::Four), (File::D, Rank::Three)));
    assert!(!is_valid_move(Colour::White, &lone, (File::D, Rank::Four), (File::D, Rank::Six)));
    assert!(!is_valid_move(Colour::White, &lone, (File::D, Rank::Four), (File::E, Rank::Five)));
}

#[test]
fn rook_slides_along_open_file() {
    let board = board_with(&[(File::A, Rank::One, Colour::White, PieceKind::Rook)]);
    assert!(is_valid_move(Colour::White, &board, (File::A, Rank::One), (File::A, Rank::Eight)));
    assert!(is_valid_move(Colour::White, &board, (File::A, Rank::One), (File::H, Rank::One)));
    assert!(is_valid_move(Colour::White, &board, (File::A, Rank::One), (File::A, Rank::Two)));
    assert!(!is_valid_move(Colour::White, &board, (File::A, Rank::One), (File::B, Rank::Two)));
    assert!(!is_valid_move(Colour::White, &board, (File::A, Rank::One), (File::C, Rank::Two)));
}

#[test]
fn rook_is_stopped_by_a_blocker() {
    let board = board_with(&[
        (File::A, Rank::One, Colour::White, PieceKind::Rook),
        (File::A, Rank::Four, Colour::Black, PieceKind::Knight),
    ]);
    assert!(is_valid_move(Colour::White, &board, (File::A, Rank::One), (File::A, Rank::Three)));
    assert!(is_valid_move(Colour::White, &board, (File::A, Rank::One), (File::A, Rank::Four)));
    assert!(!is_valid_move(Colour::White, &board, (File::A, Rank::One), (File::A, Rank::Five)));
    assert!(!is_valid_move(Colour::White, &board, (File::A, Rank::One), (File::A, Rank::Eight)));
}

#[test]
fn bishop_slides_diagonally() {
    let board = board_with(&[(File::C, Rank::One, Colour::White, PieceKind::Bishop)]);
    assert!(is_valid_move(Colour::White, &board, (File::C, Rank::One), (File::H, Rank::Six)));
    assert!(is_valid_move(Colour::White, &board, (File::C, Rank::One), (File::A, Rank::Three)));
    assert!(!is_valid_move(Colour::White, &board, (File::C, Rank::One), (File::C, Rank::Three)));
    assert!(!is_valid_move(Colour::White, &board, (File::C, Rank::One), (File::D, Rank::Three)));
}

#[test]
fn queen_blocked_on_standard_board() {
    let board = generate_board();
    assert!(!is_valid_move(Colour::White, &board, (File::D, Rank::One), (File::D, Rank::Three)));
    assert!(!is_valid_move(Colour::White, &board, (File::D, Rank::One), (File::H, Rank::Five)));
}

#[test]
fn queen_moves_in_eight_directions() {
    let board = board_with(&[(File::D, Rank::Four, Colour::White, PieceKind::Queen)]);
    let from = (File::D, Rank::Four);
    assert!(is_valid_move(Colour::White, &board, from, (File::D, Rank::Eight)));
    assert!(is_valid_move(Colour::White, &board, from, (File::D, Rank::One)));
    assert!(is_valid_move(Colour::White, &board, from, (File::A, Rank::Four)));
    assert!(is_valid_move(Colour::White, &board, from, (File::H, Rank::Four)));
    assert!(is_valid_move(Colour::White, &board, from, (File::H, Rank::Eight)));
    assert!(is_valid_move(Colour::White, &board, from, (File::A, Rank::One)));
    assert!(is_valid_move(Colour::White, &board, from, (File::A, Rank::Seven)));
    assert!(is_valid_move(Colour::White, &board, from, (File::G, Rank::One)));
    assert!(!is_valid_move(Colour::White, &board, from, (File::E, Rank::Six)));
}

#[test]
fn king_steps_one_square_only() {
    let board = board_with(&[(File::E, Rank::Four, Colour::Black, PieceKind::King)]);
    assert!(is_valid_move(Colour::Black, &board, (File::E, Rank::Four), (File::F, Rank::Five)));
    assert!(is_valid_move(Colour::Black, &board, (File::E, Rank::Four), (File::E, Rank::Three)));
    assert!(!is_valid_move(Colour::Black, &board, (File::E, Rank::Four), (File::E, Rank::Six)));
    assert!(!is_valid_move(Colour::Black, &board, (File::E, Rank::Four), (File::G, Rank::Six)));
}

#[test]
fn knight_jumps_over_pieces() {
    let board = generate_board();
    assert!(is_valid_move(Colour::White, &board, (File::G, Rank::One), (File::F, Rank::Three)));
    assert!(is_valid_move(Colour::White, &board, (File::G, Rank::One), (File::H, Rank::Three)));
    assert!(!is_valid_move(Colour::White, &board, (File::G, Rank::One), (File::E, Rank::Two)));
    assert!(is_valid_move(Colour::Black, &board, (File::G, Rank::Eight), (File::F, Rank::Six)));
}

#[test]
fn capture_of_opposing_piece_allowed() {
    let board = board_with(&[
        (File::C, Rank::Three, Colour::White, PieceKind::Knight),
        (File::D, Rank::Five, Colour::Black, PieceKind::Bishop),
    ]);
    assert!(is_valid_move(Colour::White, &board, (File::C, Rank::Three), (File::D, Rank::Five)));
}

#[test]
fn capture_of_own_piece_or_king_rejected() {
    let board = board_with(&[
        (File::C, Rank::Three, Colour::White, PieceKind::Knight),
        (File::D, Rank::Five, Colour::White, PieceKind::Bishop),
        (File::B, Rank::Five, Colour::Black, PieceKind::King),
    ]);
    assert!(!is_valid_move(Colour::White, &board, (File::C, Rank::Three), (File::D, Rank::Five)));
    assert!(!is_valid_move(Colour::White, &board, (File::C, Rank::Three), (File::B, Rank::Five)));
    assert!(is_valid_move(Colour::White, &board, (File::C, Rank::Three), (File::A, Rank::Four)));
}
