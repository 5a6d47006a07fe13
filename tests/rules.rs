use chess::{color_of_piece, is_path_empty, Piece, PieceColor, PieceType, Square};

fn sq(x: u8, y: u8) -> Square {
    Square::new(x, y)
}

fn piece(kind: PieceType, x: u8, y: u8) -> Piece {
    Piece::new(kind, sq(x, y))
}

#[test]
fn no_piece_may_stay_on_its_square() {
    let kinds = [
        PieceType::PawnWhite,
        PieceType::PawnBlack,
        PieceType::RookWhite,
        PieceType::KnightBlack,
        PieceType::BishopWhite,
        PieceType::QueenBlack,
        PieceType::KingWhite,
    ];
    for kind in kinds {
        let p = piece(kind, 3, 4);
        let board = vec![p];
        assert!(!p.is_move_valid(sq(3, 4), &board));
    }
}

#[test]
fn no_piece_may_land_on_its_own_color() {
    let queen = piece(PieceType::QueenWhite, 3, 0);
    let pawn = piece(PieceType::PawnWhite, 3, 1);
    let board = vec![queen, pawn];
    assert!(!queen.is_move_valid(sq(3, 1), &board));
    let knight = piece(PieceType::KnightBlack, 1, 7);
    let rook = piece(PieceType::RookBlack, 2, 5);
    let board = vec![knight, rook];
    assert!(!knight.is_move_valid(sq(2, 5), &board));
    assert!(knight.is_move_valid(sq(0, 5), &board));
}

#[test]
fn knight_reaches_exactly_its_eight_squares() {
    let knight = piece(PieceType::KnightWhite, 3, 3);
    let board = vec![knight];
    let mut allowed = 0;
    for x in 0..8u8 {
        for y in 0..8u8 {
            let dx = (x as i32 - 3).abs();
            let dy = (y as i32 - 3).abs();
            let l_shape = (dx == 1 && dy == 2) || (dx == 2 && dy == 1);
            let valid = knight.is_move_valid(sq(x, y), &board);
            assert_eq!(valid, l_shape, "square ({x}, {y})");
            if valid {
                allowed += 1;
            }
        }
    }
    assert_eq!(allowed, 8);
}

#[test]
fn knight_jumps_over_pieces() {
    let knight = piece(PieceType::KnightBlack, 1, 7);
    let mut board = vec![knight];
    for x in 0..3u8 {
        board.push(piece(PieceType::PawnBlack, x, 6));
    }
    assert!(knight.is_move_valid(sq(2, 5), &board));
    assert!(knight.is_move_valid(sq(0, 5), &board));
}

#[test]
fn rook_on_empty_board_moves_along_lines_only() {
    let rook = piece(PieceType::RookWhite, 2, 5);
    let board = vec![rook];
    for x in 0..8u8 {
        for y in 0..8u8 {
            let expected = (x == 2) != (y == 5);
            assert_eq!(rook.is_move_valid(sq(x, y), &board), expected, "square ({x}, {y})");
        }
    }
}

#[test]
fn rook_is_blocked_by_an_intervening_piece() {
    let rook = piece(PieceType::RookWhite, 0, 0);
    let blocker = piece(PieceType::PawnBlack, 0, 3);
    let board = vec![rook, blocker];
    assert!(rook.is_move_valid(sq(0, 2), &board));
    assert!(rook.is_move_valid(sq(0, 3), &board));
    assert!(!rook.is_move_valid(sq(0, 4), &board));
    assert!(!rook.is_move_valid(sq(0, 7), &board));
    let side = piece(PieceType::KnightWhite, 4, 0);
    let board = vec![rook, side];
    assert!(rook.is_move_valid(sq(3, 0), &board));
    assert!(!rook.is_move_valid(sq(4, 0), &board));
    assert!(!rook.is_move_valid(sq(6, 0), &board));
}

#[test]
fn bishop_moves_diagonally_until_blocked() {
    let bishop = piece(PieceType::BishopBlack, 2, 7);
    let board = vec![bishop];
    assert!(bishop.is_move_valid(sq(7, 2), &board));
    assert!(bishop.is_move_valid(sq(0, 5), &board));
    assert!(!bishop.is_move_valid(sq(2, 3), &board));
    assert!(!bishop.is_move_valid(sq(4, 4), &board));
    let board = vec![bishop, piece(PieceType::PawnWhite, 4, 5)];
    assert!(bishop.is_move_valid(sq(4, 5), &board));
    assert!(!bishop.is_move_valid(sq(5, 4), &board));
}

#[test]
fn queen_combines_rook_and_bishop() {
    let queen = piece(PieceType::QueenWhite, 3, 3);
    let board = vec![queen];
    assert!(queen.is_move_valid(sq(3, 7), &board));
    assert!(queen.is_move_valid(sq(0, 3), &board));
    assert!(queen.is_move_valid(sq(6, 6), &board));
    assert!(queen.is_move_valid(sq(0, 6), &board));
    assert!(!queen.is_move_valid(sq(4, 5), &board));
}

#[test]
fn king_moves_one_square() {
    let king = piece(PieceType::KingBlack, 4, 7);
    let board = vec![king];
    assert!(king.is_move_valid(sq(3, 7), &board));
    assert!(king.is_move_valid(sq(5, 6), &board));
    assert!(king.is_move_valid(sq(4, 6), &board));
    assert!(!king.is_move_valid(sq(4, 5), &board));
    assert!(!king.is_move_valid(sq(6, 7), &board));
}

#[test]
fn pawn_double_step_only_from_home_rank() {
    let home = piece(PieceType::PawnWhite, 4, 1);
    let board = vec![home];
    assert!(home.is_move_valid(sq(4, 3), &board));
    assert!(home.is_move_valid(sq(4, 2), &board));
    let away = piece(PieceType::PawnWhite, 4, 2);
    let board = vec![away];
    assert!(!away.is_move_valid(sq(4, 4), &board));
    assert!(away.is_move_valid(sq(4, 3), &board));
    let black = piece(PieceType::PawnBlack, 2, 6);
    let board = vec![black];
    assert!(black.is_move_valid(sq(2, 4), &board));
    assert!(!black.is_move_valid(sq(2, 7), &board));
    let black_away = piece(PieceType::PawnBlack, 2, 5);
    let board = vec![black_away];
    assert!(!black_away.is_move_valid(sq(2, 3), &board));
}

#[test]
fn pawn_double_step_needs_an_empty_path() {
    let pawn = piece(PieceType::PawnWhite, 4, 1);
    let board = vec![pawn, piece(PieceType::KnightBlack, 4, 2)];
    assert!(!pawn.is_move_valid(sq(4, 3), &board));
    let board = vec![pawn, piece(PieceType::KnightBlack, 4, 3)];
    assert!(!pawn.is_move_valid(sq(4, 3), &board));
}

#[test]
fn pawn_captures_diagonally_only() {
    let pawn = piece(PieceType::PawnWhite, 3, 3);
    let board = vec![pawn];
    assert!(!pawn.is_move_valid(sq(4, 4), &board));
    let board = vec![pawn, piece(PieceType::BishopBlack, 4, 4)];
    assert!(pawn.is_move_valid(sq(4, 4), &board));
    let board = vec![pawn, piece(PieceType::BishopWhite, 4, 4)];
    assert!(!pawn.is_move_valid(sq(4, 4), &board));
    let board = vec![pawn, piece(PieceType::BishopBlack, 2, 2)];
    assert!(!pawn.is_move_valid(sq(2, 2), &board));
    let board = vec![pawn, piece(PieceType::RookBlack, 3, 4)];
    assert!(!pawn.is_move_valid(sq(3, 4), &board));
    let black = piece(PieceType::PawnBlack, 3, 3);
    let board = vec![black, piece(PieceType::RookWhite, 2, 2)];
    assert!(black.is_move_valid(sq(2, 2), &board));
    assert!(!black.is_move_valid(sq(4, 4), &board));
}

#[test]
fn color_of_piece_reports_occupant() {
    let board = vec![piece(PieceType::PawnWhite, 0, 1), piece(PieceType::PawnBlack, 0, 6)];
    assert_eq!(color_of_piece(sq(0, 1), &board), Some(PieceColor::White));
    assert_eq!(color_of_piece(sq(0, 6), &board), Some(PieceColor::Black));
    assert_eq!(color_of_piece(sq(0, 3), &board), None);
    assert_eq!(color_of_piece(sq(0, 3), &Vec::new()), None);
}

#[test]
fn path_checks_only_strictly_between() {
    let board = vec![piece(PieceType::PawnWhite, 2, 2), piece(PieceType::PawnBlack, 5, 5)];
    assert!(is_path_empty(sq(0, 0), sq(2, 2), &board));
    assert!(!is_path_empty(sq(0, 0), sq(3, 3), &board));
    assert!(!is_path_empty(sq(7, 7), sq(4, 4), &board));
    assert!(is_path_empty(sq(1, 1), sq(2, 2), &board));
    assert!(is_path_empty(sq(2, 0), sq(2, 2), &board));
    assert!(!is_path_empty(sq(2, 0), sq(2, 3), &board));
    assert!(!is_path_empty(sq(7, 5), sq(0, 5), &board));
    // not a line: nothing is examined
    assert!(is_path_empty(sq(0, 0), sq(4, 6), &board));
}
