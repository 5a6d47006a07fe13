use chess::{
    board_grid, export_position, starting_kind, starting_pieces, to_fen, Piece, PieceColor,
    PieceType, Square, Turn,
};

#[test]
fn starting_position_exports_standard_text() {
    let pieces = starting_pieces();
    let fen = export_position(&pieces, &Turn::new());
    assert_eq!(fen, "rnbqkbnr/pppppppp/8/8/8/8/PPPPPPPP/RNBQKBNR w ---- - 0 0");
}

#[test]
fn empty_board_with_black_to_move() {
    let board = [[PieceType::Empty; 8]; 8];
    let turn = Turn { color: PieceColor::Black, n: 2 };
    assert_eq!(to_fen(&board, &turn), "8/8/8/8/8/8/8/8 b ---- - 0 0");
}

#[test]
fn runs_of_empty_squares_are_counted() {
    let mut board = [[PieceType::Empty; 8]; 8];
    board[0][3] = PieceType::KingBlack;
    board[7][0] = PieceType::RookWhite;
    board[7][7] = PieceType::KingWhite;
    board[4][2] = PieceType::PawnWhite;
    board[4][3] = PieceType::PawnBlack;
    assert_eq!(to_fen(&board, &Turn::new()), "3k4/8/8/8/2Pp4/8/8/R6K w ---- - 0 0");
}

#[test]
fn grid_puts_rank_seven_first() {
    let pieces = vec![
        Piece::new(PieceType::QueenWhite, Square::new(3, 0)),
        Piece::new(PieceType::PawnBlack, Square::new(5, 6)),
    ];
    let grid = board_grid(&pieces);
    assert_eq!(grid[7][3], PieceType::QueenWhite);
    assert_eq!(grid[1][5], PieceType::PawnBlack);
    assert_eq!(grid[0][0], PieceType::Empty);
    let fen = export_position(&pieces, &Turn { color: PieceColor::Black, n: 5 });
    assert_eq!(fen, "8/5p2/8/8/8/8/8/3Q4 b ---- - 0 0");
}

#[test]
fn starting_arrangement_is_complete() {
    let pieces = starting_pieces();
    assert_eq!(pieces.len(), 32);
    for p in &pieces {
        assert_eq!(p.square, p.direction);
        assert_eq!(starting_kind(p.square.x, p.square.y), p.piece_type);
        assert_eq!(p.piece_type.color(), Some(p.color));
    }
    assert_eq!(starting_kind(4, 0), PieceType::KingWhite);
    assert_eq!(starting_kind(3, 7), PieceType::QueenBlack);
    assert_eq!(starting_kind(6, 7), PieceType::KnightBlack);
    assert_eq!(starting_kind(2, 0), PieceType::BishopWhite);
    assert_eq!(starting_kind(4, 4), PieceType::Empty);
    assert_eq!(pieces[0].square, Square::new(0, 0));
    assert_eq!(pieces[3].square, Square::new(0, 7));
    assert_eq!(pieces[31].piece_type, PieceType::RookBlack);
}
