//! Position export: the board as a grid of kinds, written in a compact
//! rank-by-rank notation followed by the side to move.

use vstd::prelude::*;
use crate::model::{Piece, PieceColor, PieceType, Square, Turn};

verus! {

/// Letter of a kind: upper case for White, lower case for Black.
pub open spec fn letter(k: PieceType) -> char {
    match k {
        PieceType::PawnWhite => 'P',
        PieceType::PawnBlack => 'p',
        PieceType::RookWhite => 'R',
        PieceType::RookBlack => 'r',
        PieceType::KnightWhite => 'N',
        PieceType::KnightBlack => 'n',
        PieceType::BishopWhite => 'B',
        PieceType::BishopBlack => 'b',
        PieceType::QueenWhite => 'Q',
        PieceType::QueenBlack => 'q',
        PieceType::KingWhite => 'K',
        PieceType::KingBlack => 'k',
        PieceType::Empty => ' ',
    }
}

/// Decimal digit of `n`, for `n` in `0..10`.
pub open spec fn digit(n: nat) -> char {
    if n == 0 {
        '0'
    } else if n == 1 {
        '1'
    } else if n == 2 {
        '2'
    } else if n == 3 {
        '3'
    } else if n == 4 {
        '4'
    } else if n == 5 {
        '5'
    } else if n == 6 {
        '6'
    } else if n == 7 {
        '7'
    } else if n == 8 {
        '8'
    } else {
        '9'
    }
}

/// A run of `n` empty squares: nothing when `n` is 0, else its digit.
pub open spec fn run_text(n: nat) -> Seq<char> {
    if n == 0 {
        seq![]
    } else {
        seq![digit(n)]
    }
}

/// Text of the rest of a rank, `run` empty squares having been passed over.
pub open spec fn row_text(row: Seq<PieceType>, run: nat) -> Seq<char>
    decreases row.len(),
{
    if row.len() == 0 {
        run_text(run)
    } else if row[0] == PieceType::Empty {
        row_text(row.drop_first(), run + 1)
    } else {
        run_text(run) + seq![letter(row[0])] + row_text(row.drop_first(), 0)
    }
}

/// Text of the ranks, separated by `/`.
pub open spec fn rows_text(rows: Seq<Seq<PieceType>>) -> Seq<char>
    decreases rows.len(),
{
    if rows.len() == 0 {
        seq![]
    } else if rows.len() == 1 {
        row_text(rows[0], 0)
    } else {
        rows_text(rows.drop_last()) + seq!['/'] + row_text(rows.last(), 0)
    }
}

/// The grid as a sequence of rows.
pub open spec fn grid_rows(grid: [[PieceType; 8]; 8]) -> Seq<Seq<PieceType>> {
    Seq::new(8, |r: int| grid[r]@)
}

/// Token of the side to move.
pub open spec fn color_letter(c: PieceColor) -> char {
    match c {
        PieceColor::White => 'w',
        PieceColor::Black => 'b',
    }
}

/// Full text of a position: the ranks, the side to move, and inert fields
/// for castling rights, en-passant square and the two move clocks.
pub open spec fn fen_text(rows: Seq<Seq<PieceType>>, c: PieceColor) -> Seq<char> {
    rows_text(rows) + seq![' ', color_letter(c)] + seq![
        ' ',
        '-',
        '-',
        '-',
        '-',
        ' ',
        '-',
        ' ',
        '0',
        ' ',
        '0',
    ]
}

/// Kind of the last piece of `pieces` on `q`, or `Empty`.
pub open spec fn kind_at(pieces: Seq<Piece>, q: Square) -> PieceType
    decreases pieces.len(),
{
    if pieces.len() == 0 {
        PieceType::Empty
    } else if pieces.last().square == q {
        pieces.last().piece_type
    } else {
        kind_at(pieces.drop_last(), q)
    }
}

/// The board seen from White's side as rows of kinds, top rank first:
/// row `r`, column `c` holds the kind on file `c`, rank `7 - r`.
pub open spec fn board_rows(pieces: Seq<Piece>) -> Seq<Seq<PieceType>> {
    Seq::new(8, |r: int| Seq::new(8, |c: int| kind_at(pieces, Square { x: c as u8, y: (7 - r) as u8 })))
}

/// Relies on String::push: appends one char.
#[verifier::external_body]
fn push_char(s: &mut String, c: char)
    ensures
        final(s)@ == old(s)@.push(c),
{
    s.push(c);
}

fn letter_of(k: PieceType) -> (r: char)
    ensures
        r == letter(k),
{
    match k {
        PieceType::PawnWhite => 'P',
        PieceType::PawnBlack => 'p',
        PieceType::RookWhite => 'R',
        PieceType::RookBlack => 'r',
        PieceType::KnightWhite => 'N',
        PieceType::KnightBlack => 'n',
        PieceType::BishopWhite => 'B',
        PieceType::BishopBlack => 'b',
        PieceType::QueenWhite => 'Q',
        PieceType::QueenBlack => 'q',
        PieceType::KingWhite => 'K',
        PieceType::KingBlack => 'k',
        PieceType::Empty => ' ',
    }
}

/// Writes a pending run of empty squares.
fn push_run(s: &mut String, n: u8)
    ensures
        final(s)@ == old(s)@ + run_text(n as nat),
{
    if n > 0 {
        let c = match n {
            1 => '1',
            2 => '2',
            3 => '3',
            4 => '4',
            5 => '5',
            6 => '6',
            7 => '7',
            8 => '8',
            _ => '9',
        };
        push_char(s, c);
    }
}

/// Appends the text of one rank.
fn push_row(s: &mut String, row: &[PieceType; 8])
    ensures
        final(s)@ == old(s)@ + row_text(row@, 0),
{
    let ghost start = s@;
    let mut empty_squares: u8 = 0;
    let mut i: usize = 0;
    assert(row@.subrange(0, 8) =~= row@);
    while i < 8
        invariant
            i <= 8,
            empty_squares <= i,
            s@ + row_text(row@.subrange(i as int, 8), empty_squares as nat) == start + row_text(
                row@,
                0,
            ),
        decreases 8 - i,
    {
        let ghost rest = row@.subrange(i as int, 8);
        assert(rest.drop_first() =~= row@.subrange(i + 1, 8));
        let piece = row[i];
        if piece == PieceType::Empty {
            empty_squares = empty_squares + 1;
        } else {
            let ghost before = s@;
            let ghost run = empty_squares as nat;
            push_run(s, empty_squares);
            empty_squares = 0;
            push_char(s, letter_of(piece));
            assert(s@ + row_text(row@.subrange(i + 1, 8), 0) =~= before + row_text(rest, run));
        }
        i = i + 1;
    }
    assert(row@.subrange(8, 8) =~= Seq::<PieceType>::empty());
    push_run(s, empty_squares);
}

/// Writes a grid of kinds (top rank first) and the side to move as text:
/// each rank lists piece letters, upper case for White, lower case for Black,
/// with runs of empty squares as digits; ranks are separated by `/`; then
/// come the side to move (`w` or `b`) and the inert fields `---- - 0 0`.
pub fn to_fen(board: &[[PieceType; 8]; 8], turn: &Turn) -> (fen: String)
    ensures
        fen@ == fen_text(grid_rows(*board), turn.color),
{
    let mut fen = String::new();
    let ghost rows = grid_rows(*board);
    let mut r: usize = 0;
    while r < 8
        invariant
            r <= 8,
            rows == grid_rows(*board),
            fen@ == rows_text(rows.take(r as int)),
        decreases 8 - r,
    {
        if r > 0 {
            push_char(&mut fen, '/');
        }
        push_row(&mut fen, &board[r]);
        assert(rows.take(r + 1).drop_last() =~= rows.take(r as int));
        assert(rows.take(r + 1).last() == board[r as int]@);
        r = r + 1;
    }
    assert(rows.take(8) =~= rows);
    // Castling and en passant are not implemented; clocks are not kept
    let side = match turn.color {
        PieceColor::White => 'w',
        PieceColor::Black => 'b',
    };
    push_char(&mut fen, ' ');
    push_char(&mut fen, side);
    push_char(&mut fen, ' ');
    push_char(&mut fen, '-');
    push_char(&mut fen, '-');
    push_char(&mut fen, '-');
    push_char(&mut fen, '-');
    push_char(&mut fen, ' ');
    push_char(&mut fen, '-');
    push_char(&mut fen, ' ');
    push_char(&mut fen, '0');
    push_char(&mut fen, ' ');
    push_char(&mut fen, '0');
    assert(fen@ =~= fen_text(rows, turn.color));
    fen
}

/// Lays the pieces out on a grid seen from White's side, top rank first:
/// the piece on file `x`, rank `y` goes to row `7 - y`, column `x`; where
/// two pieces share a square the later one wins.
pub fn board_grid(pieces: &Vec<Piece>) -> (grid: [[PieceType; 8]; 8])
    requires
        forall|i: int| 0 <= i < pieces.len() ==> (#[trigger] pieces[i]).square.on_board(),
    ensures
        grid_rows(grid) == board_rows(pieces@),
{
    let mut grid = [[PieceType::Empty; 8]; 8];
    let mut i: usize = 0;
    while i < pieces.len()
        invariant
            i <= pieces.len(),
            forall|j: int| 0 <= j < pieces.len() ==> (#[trigger] pieces[j]).square.on_board(),
            forall|r: int, c: int|
                0 <= r < 8 && 0 <= c < 8 ==> #[trigger] grid[r][c] == kind_at(
                    pieces@.take(i as int),
                    Square { x: c as u8, y: (7 - r) as u8 },
                ),
        decreases pieces.len() - i,
    {
        let p = pieces[i];
        let row = 7 - p.square.y as usize;
        let col = p.square.x as usize;
        grid[row][col] = p.piece_type;
        assert(pieces@.take(i + 1).drop_last() =~= pieces@.take(i as int));
        i = i + 1;
    }
    assert(pieces@.take(pieces.len() as int) =~= pieces@);
    assert(grid_rows(grid) =~~= board_rows(pieces@));
    grid
}

/// Text of the position of `pieces` with `turn` to move.
pub fn export_position(pieces: &Vec<Piece>, turn: &Turn) -> (fen: String)
    requires
        forall|i: int| 0 <= i < pieces.len() ==> (#[trigger] pieces[i]).square.on_board(),
    ensures
        fen@ == fen_text(board_rows(pieces@), turn.color),
{
    let grid = board_grid(pieces);
    to_fen(&grid, turn)
}

} // verus!
