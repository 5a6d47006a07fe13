//! The standard starting arrangement.

use vstd::prelude::*;
use crate::model::{Piece, PieceColor, PieceType, Square};

verus! {

/// Kind on file `x` of the back rank of color `c`.
pub open spec fn back_rank_kind(x: int, c: PieceColor) -> PieceType {
    let white = c == PieceColor::White;
    if x == 0 || x == 7 {
        if white { PieceType::RookWhite } else { PieceType::RookBlack }
    } else if x == 1 || x == 6 {
        if white { PieceType::KnightWhite } else { PieceType::KnightBlack }
    } else if x == 2 || x == 5 {
        if white { PieceType::BishopWhite } else { PieceType::BishopBlack }
    } else if x == 3 {
        if white { PieceType::QueenWhite } else { PieceType::QueenBlack }
    } else {
        if white { PieceType::KingWhite } else { PieceType::KingBlack }
    }
}

/// Kind on file `x`, rank `y` at the start of a game.
pub open spec fn start_kind(x: int, y: int) -> PieceType {
    if y == 0 {
        back_rank_kind(x, PieceColor::White)
    } else if y == 1 {
        PieceType::PawnWhite
    } else if y == 6 {
        PieceType::PawnBlack
    } else if y == 7 {
        back_rank_kind(x, PieceColor::Black)
    } else {
        PieceType::Empty
    }
}

/// The `k`-th occupied rank of a file at the start, counted from the bottom.
pub open spec fn start_rank(k: int) -> int {
    if k == 0 {
        0
    } else if k == 1 {
        1
    } else if k == 2 {
        6
    } else {
        7
    }
}

/// The settled piece that starts on file `x`, on the `k`-th occupied rank.
pub open spec fn start_piece(x: int, k: int) -> Piece {
    let sq = Square { x: x as u8, y: start_rank(k) as u8 };
    let kind = start_kind(x, start_rank(k));
    Piece { piece_type: kind, color: kind.color_spec()->Some_0, square: sq, direction: sq }
}

/// Number of occupied ranks below rank `y` of a file at the start.
pub open spec fn occupied_below(y: int) -> int {
    if y <= 0 {
        0
    } else if y == 1 {
        1
    } else if y <= 6 {
        2
    } else if y == 7 {
        3
    } else {
        4
    }
}

/// Kind on file `x`, rank `y` at the start of a game.
pub fn starting_kind(x: u8, y: u8) -> (r: PieceType)
    ensures
        r == start_kind(x as int, y as int),
{
    if y == 1 {
        return PieceType::PawnWhite;
    }
    if y == 6 {
        return PieceType::PawnBlack;
    }
    if y != 0 && y != 7 {
        return PieceType::Empty;
    }
    let white = y == 0;
    if x == 0 || x == 7 {
        if white { PieceType::RookWhite } else { PieceType::RookBlack }
    } else if x == 1 || x == 6 {
        if white { PieceType::KnightWhite } else { PieceType::KnightBlack }
    } else if x == 2 || x == 5 {
        if white { PieceType::BishopWhite } else { PieceType::BishopBlack }
    } else if x == 3 {
        if white { PieceType::QueenWhite } else { PieceType::QueenBlack }
    } else {
        if white { PieceType::KingWhite } else { PieceType::KingBlack }
    }
}

/// The 32 pieces of a new game, settled on their squares, file by file from
/// file 0 and bottom to top within a file.
pub fn starting_pieces() -> (pieces: Vec<Piece>)
    ensures
        pieces.len() == 32,
        forall|x: int, k: int| 0 <= x < 8 && 0 <= k < 4 ==> pieces[4 * x + k] == start_piece(x, k),
        forall|i: int| 0 <= i < pieces.len() ==> (#[trigger] pieces[i]).wf(),
{
    let mut pieces: Vec<Piece> = Vec::new();
    let mut x: u8 = 0;
    while x < 8
        invariant
            x <= 8,
            pieces.len() == 4 * x,
            forall|i: int| 0 <= i < pieces.len() ==> (#[trigger] pieces[i]).wf(),
            forall|x2: int, k: int|
                0 <= x2 < x && 0 <= k < 4 ==> pieces[4 * x2 + k] == start_piece(x2, k),
        decreases 8 - x,
    {
        let mut y: u8 = 0;
        while y < 8
            invariant
                x < 8,
                y <= 8,
                pieces.len() == 4 * x + occupied_below(y as int),
                forall|i: int| 0 <= i < pieces.len() ==> (#[trigger] pieces[i]).wf(),
                forall|x2: int, k: int|
                    0 <= x2 < x && 0 <= k < 4 ==> pieces[4 * x2 + k] == start_piece(x2, k),
                forall|k: int|
                    0 <= k < occupied_below(y as int) ==> pieces[4 * x + k] == start_piece(
                        x as int,
                        k,
                    ),
            decreases 8 - y,
        {
            let kind = starting_kind(x, y);
            if kind != PieceType::Empty {
                let square = Square { x, y };
                pieces.push(Piece::new(kind, square));
                assert(pieces[4 * x + occupied_below(y as int)] == start_piece(
                    x as int,
                    occupied_below(y as int),
                ));
            }
            y = y + 1;
        }
        x = x + 1;
    }
    pieces
}

} // verus!
