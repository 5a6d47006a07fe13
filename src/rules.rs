//! Legality engine: occupancy queries, path obstruction and per-kind move rules.

use vstd::prelude::*;
use crate::model::{Piece, PieceColor, PieceType, Square};

verus! {

/// Absolute value.
pub open spec fn abs(a: int) -> int {
    if a < 0 {
        -a
    } else {
        a
    }
}

/// `b` lies strictly between `a` and `c`, in either order.
pub open spec fn between(a: int, b: int, c: int) -> bool {
    (a < b && b < c) || (c < b && b < a)
}

/// Color of the first piece of `pieces` that stands on `pos`, if any.
pub open spec fn color_at(pieces: Seq<Piece>, pos: Square) -> Option<PieceColor>
    decreases pieces.len(),
{
    if pieces.len() == 0 {
        None
    } else if pieces[0].square == pos {
        Some(pieces[0].color)
    } else {
        color_at(pieces.drop_first(), pos)
    }
}

/// Some piece of `pieces` stands on `pos`.
pub open spec fn occupied(pieces: Seq<Piece>, pos: Square) -> bool {
    exists|i: int| 0 <= i < pieces.len() && pieces[i].square == pos
}

/// No two pieces share a square.
pub open spec fn squares_distinct(pieces: Seq<Piece>) -> bool {
    forall|i: int, j: int|
        0 <= i < pieces.len() && 0 <= j < pieces.len() && i != j ==> pieces[i].square
            != pieces[j].square
}

/// Square `q` lies strictly inside the straight or diagonal segment from
/// `start` to `end`. Segments of any other shape contain no square.
pub open spec fn blocks_path(start: Square, end: Square, q: Square) -> bool {
    ||| start.x == end.x && q.x == start.x && between(start.y as int, q.y as int, end.y as int)
    ||| start.y == end.y && q.y == start.y && between(start.x as int, q.x as int, end.x as int)
    ||| abs(end.x - start.x) == abs(end.y - start.y) && between(
        start.x as int,
        q.x as int,
        end.x as int,
    ) && between(start.y as int, q.y as int, end.y as int) && abs(q.x - start.x) == abs(
        q.y - start.y,
    )
}

/// No piece stands strictly between `start` and `end`.
pub open spec fn path_clear(start: Square, end: Square, pieces: Seq<Piece>) -> bool {
    forall|i: int| 0 <= i < pieces.len() ==> !blocks_path(start, end, #[trigger] pieces[i].square)
}

/// Same file or same rank, and not the same square.
pub open spec fn straight_line(from: Square, to: Square) -> bool {
    (from.x == to.x && from.y != to.y) || (from.x != to.x && from.y == to.y)
}

/// Equal distance along the file and along the rank.
pub open spec fn diagonal_line(from: Square, to: Square) -> bool {
    abs(to.x - from.x) == abs(to.y - from.y)
}

/// One square in any direction.
pub open spec fn king_step(from: Square, to: Square) -> bool {
    abs(to.x - from.x) <= 1 && abs(to.y - from.y) <= 1 && from != to
}

/// The knight's L: two squares one way and one the other.
pub open spec fn knight_jump(from: Square, to: Square) -> bool {
    (abs(to.x - from.x) == 2 && abs(to.y - from.y) == 1) || (abs(to.x - from.x) == 1 && abs(
        to.y - from.y,
    ) == 2)
}

/// Rank step of a pawn of color `c` moving forward.
pub open spec fn pawn_forward(c: PieceColor) -> int {
    match c {
        PieceColor::White => 1,
        PieceColor::Black => -1,
    }
}

/// Rank on which the pawns of color `c` start.
pub open spec fn pawn_home(c: PieceColor) -> int {
    match c {
        PieceColor::White => 1,
        PieceColor::Black => 6,
    }
}

/// Pawn rule for a pawn of color `c`: a step forward onto an empty square,
/// two steps from the home rank over an empty square onto an empty one, or a
/// diagonal step forward onto an opposing piece.
pub open spec fn pawn_move(c: PieceColor, from: Square, to: Square, pieces: Seq<Piece>) -> bool {
    ||| to.y - from.y == pawn_forward(c) && to.x == from.x && color_at(pieces, to) is None
    ||| from.y == pawn_home(c) && to.y - from.y == 2 * pawn_forward(c) && to.x == from.x
        && path_clear(from, to, pieces) && color_at(pieces, to) is None
    ||| to.y - from.y == pawn_forward(c) && abs(to.x - from.x) == 1 && color_at(pieces, to) == Some(
        c.opponent(),
    )
}

/// Whether `p` may move to `dest` among `pieces`.
pub open spec fn move_valid(p: Piece, dest: Square, pieces: Seq<Piece>) -> bool {
    &&& dest != p.square
    &&& color_at(pieces, dest) != Some(p.color)
    &&& match p.piece_type {
        PieceType::KingWhite | PieceType::KingBlack => king_step(p.square, dest),
        PieceType::QueenWhite | PieceType::QueenBlack => path_clear(p.square, dest, pieces) && (
        diagonal_line(p.square, dest) || straight_line(p.square, dest)),
        PieceType::BishopWhite | PieceType::BishopBlack => path_clear(p.square, dest, pieces)
            && diagonal_line(p.square, dest),
        PieceType::KnightWhite | PieceType::KnightBlack => knight_jump(p.square, dest),
        PieceType::RookWhite | PieceType::RookBlack => path_clear(p.square, dest, pieces)
            && straight_line(p.square, dest),
        PieceType::PawnWhite => pawn_move(PieceColor::White, p.square, dest, pieces),
        PieceType::PawnBlack => pawn_move(PieceColor::Black, p.square, dest, pieces),
        PieceType::Empty => false,
    }
}

/// `color_at` finds a piece exactly when one stands on the square, and the
/// color it gives is that of a piece there.
pub proof fn lemma_color_at(pieces: Seq<Piece>, pos: Square)
    ensures
        color_at(pieces, pos) is Some <==> occupied(pieces, pos),
        color_at(pieces, pos) matches Some(c) ==> exists|i: int|
            0 <= i < pieces.len() && pieces[i].square == pos && pieces[i].color == c,
    decreases pieces.len(),
{
    if pieces.len() > 0 && pieces[0].square != pos {
        let rest = pieces.drop_first();
        lemma_color_at(rest, pos);
        if occupied(pieces, pos) {
            let i = choose|i: int| 0 <= i < pieces.len() && pieces[i].square == pos;
            assert(rest[i - 1] == pieces[i]);
        }
        if occupied(rest, pos) {
            let i = choose|i: int| 0 <= i < rest.len() && rest[i].square == pos;
            assert(pieces[i + 1] == rest[i]);
        }
        if let Some(c) = color_at(rest, pos) {
            let i = choose|i: int|
                0 <= i < rest.len() && rest[i].square == pos && rest[i].color == c;
            assert(pieces[i + 1] == rest[i]);
        }
    }
}

/// On a board where squares are distinct, `color_at` gives the color of the
/// piece that stands on the square.
pub proof fn lemma_color_at_distinct(pieces: Seq<Piece>, i: int)
    requires
        squares_distinct(pieces),
        0 <= i < pieces.len(),
    ensures
        color_at(pieces, pieces[i].square) == Some(pieces[i].color),
{
    lemma_color_at(pieces, pieces[i].square);
    let c = color_at(pieces, pieces[i].square)->Some_0;
    let j = choose|j: int|
        0 <= j < pieces.len() && pieces[j].square == pieces[i].square && pieces[j].color == c;
    assert(j == i);
}

/// The `k`-th square from `start` along the diagonal towards `end`.
pub open spec fn diag_square(start: Square, end: Square, k: int) -> Square {
    Square {
        x: (if start.x < end.x {
            start.x + k
        } else {
            start.x - k
        }) as u8,
        y: (if start.y < end.y {
            start.y + k
        } else {
            start.y - k
        }) as u8,
    }
}

/// `|a - b|`.
fn abs_diff(a: u8, b: u8) -> (r: u8)
    ensures
        r == abs(a - b),
{
    if a >= b {
        a - b
    } else {
        b - a
    }
}

/// Returns the color of the first piece on `pos`, or `None` if the square is empty.
pub fn color_of_piece(pos: Square, pieces: &Vec<Piece>) -> (r: Option<PieceColor>)
    ensures
        r == color_at(pieces@, pos),
{
    let mut i: usize = 0;
    assert(pieces@.subrange(0, pieces@.len() as int) =~= pieces@);
    while i < pieces.len()
        invariant
            i <= pieces.len(),
            color_at(pieces@, pos) == color_at(pieces@.subrange(i as int, pieces@.len() as int), pos),
        decreases pieces.len() - i,
    {
        proof {
            let rest = pieces@.subrange(i as int, pieces@.len() as int);
            assert(rest.drop_first() =~= pieces@.subrange(i + 1, pieces@.len() as int));
        }
        if pieces[i].square == pos {
            return Some(pieces[i].color);
        }
        i = i + 1;
    }
    None
}

/// Returns whether no piece stands strictly between `start` and `end` on the
/// file, rank or diagonal that joins them. Other shapes are not examined.
pub fn is_path_empty(start: Square, end: Square, pieces: &Vec<Piece>) -> (r: bool)
    ensures
        r == path_clear(start, end, pieces@),
{
    // Same file
    if start.x == end.x {
        let mut i: usize = 0;
        while i < pieces.len()
            invariant
                i <= pieces.len(),
                start.x == end.x,
                forall|j: int|
                    0 <= j < i ==> !(#[trigger] pieces@[j].square.x == start.x && between(
                        start.y as int,
                        pieces@[j].square.y as int,
                        end.y as int,
                    )),
            decreases pieces.len() - i,
        {
            let q = pieces[i].square;
            if q.x == start.x && ((q.y > start.y && q.y < end.y) || (q.y > end.y && q.y < start.y)) {
                assert(blocks_path(start, end, pieces@[i as int].square));
                return false;
            }
            i = i + 1;
        }
    }
    // Same rank

    if start.y == end.y {
        let mut i: usize = 0;
        while i < pieces.len()
            invariant
                i <= pieces.len(),
                start.y == end.y,
                forall|j: int|
                    0 <= j < i ==> !(#[trigger] pieces@[j].square.y == start.y && between(
                        start.x as int,
                        pieces@[j].square.x as int,
                        end.x as int,
                    )),
            decreases pieces.len() - i,
        {
            let q = pieces[i].square;
            if q.y == start.y && ((q.x > start.x && q.x < end.x) || (q.x > end.x && q.x < start.x)) {
                assert(blocks_path(start, end, pieces@[i as int].square));
                return false;
            }
            i = i + 1;
        }
    }
    // Diagonals

    let x_diff = abs_diff(start.x, end.x);
    let y_diff = abs_diff(start.y, end.y);
    if x_diff == y_diff && x_diff > 1 {
        let mut k: u8 = 1;
        while k < x_diff
            invariant
                1 <= k <= x_diff,
                x_diff == abs(start.x - end.x),
                x_diff == abs(start.y - end.y),
                forall|m: int| 1 <= m < k ==> !occupied(pieces@, #[trigger] diag_square(start, end, m)),
            decreases x_diff - k,
        {
            let pos: Square = if start.x < end.x && start.y < end.y {
                Square { x: start.x + k, y: start.y + k }
            } else if start.x < end.x && start.y > end.y {
                Square { x: start.x + k, y: start.y - k }
            } else if start.x > end.x && start.y < end.y {
                Square { x: start.x - k, y: start.y + k }
            } else {
                Square { x: start.x - k, y: start.y - k }
            };
            assert(pos == diag_square(start, end, k as int));
            let found = color_of_piece(pos, pieces);
            proof {
                lemma_color_at(pieces@, pos);
            }
            if found.is_some() {
                proof {
                    let j = choose|j: int| 0 <= j < pieces@.len() && pieces@[j].square == pos;
                    assert(blocks_path(start, end, pieces@[j].square));
                }
                return false;
            }
            k = k + 1;
        }
        assert forall|i: int| 0 <= i < pieces@.len() implies !blocks_path(
            start,
            end,
            #[trigger] pieces@[i].square,
        ) by {
            let q = pieces@[i].square;
            if abs(end.x - start.x) == abs(end.y - start.y) && between(
                start.x as int,
                q.x as int,
                end.x as int,
            ) && between(start.y as int, q.y as int, end.y as int) && abs(q.x - start.x) == abs(
                q.y - start.y,
            ) {
                let m = abs(q.x - start.x);
                assert(diag_square(start, end, m) == q);
                assert(!occupied(pieces@, diag_square(start, end, m)));
            }
        }
    }
    true
}

impl Piece {
    /// Returns whether the piece may move to `new_position` among `pieces`.
    /// The board must hold the live pieces only; the piece is a live one, so
    /// its kind is never `Empty`.
    pub fn is_move_valid(&self, new_position: Square, pieces: &Vec<Piece>) -> (r: bool)
        requires
            self.piece_type != PieceType::Empty,
        ensures
            r == move_valid(*self, new_position, pieces@),
            new_position == self.square ==> !r,
            color_at(pieces@, new_position) == Some(self.color) ==> !r,
    {
        // Checks if new position is same as current position
        if new_position == self.square {
            return false;
        }
        // If there's a piece of the same color in the new position, return false

        let occupant = color_of_piece(new_position, pieces);
        if let Some(c) = occupant {
            if c == self.color {
                return false;
            }
        }
        let from = self.square;
        let dx = abs_diff(from.x, new_position.x);
        let dy = abs_diff(from.y, new_position.y);
        // Signed rank step towards the destination
        let step: i16 = new_position.y as i16 - from.y as i16;
        let same_file = from.x == new_position.x;
        let same_rank = from.y == new_position.y;
        let straight = (same_file && !same_rank) || (!same_file && same_rank);

        match self.piece_type {
            PieceType::KingWhite | PieceType::KingBlack => {
                // King can move one square in any direction
                (dx == 1 && same_rank) || (dy == 1 && same_file) || (dx == 1 && dy == 1)
            },
            PieceType::QueenWhite | PieceType::QueenBlack => {
                // Queen can move any number of squares horizontally, vertically or diagonally
                is_path_empty(from, new_position, pieces) && (dx == dy || straight)
            },
            PieceType::BishopWhite | PieceType::BishopBlack => {
                // Bishop can move any number of squares diagonally
                is_path_empty(from, new_position, pieces) && dx == dy
            },
            PieceType::KnightWhite | PieceType::KnightBlack => {
                // Knight moves in an L shape
                (dx == 2 && dy == 1) || (dx == 1 && dy == 2)
            },
            PieceType::RookWhite | PieceType::RookBlack => {
                // Rook can move any number of squares horizontally or vertically
                is_path_empty(from, new_position, pieces) && straight
            },
            PieceType::PawnWhite => {
                // 1 Square forward
                if step == 1 && same_file && occupant.is_none() {
                    return true;
                }
                // 2 Squares forward

                if from.y == 1 && step == 2 && same_file && is_path_empty(
                    from,
                    new_position,
                    pieces,
                ) && occupant.is_none() {
                    return true;
                }
                // Take piece diagonally

                step == 1 && dx == 1 && occupant == Some(PieceColor::Black)
            },
            PieceType::PawnBlack => {
                // 1 Square forward
                if step == -1 && same_file && occupant.is_none() {
                    return true;
                }
                // 2 Squares forward

                if from.y == 6 && step == -2 && same_file && is_path_empty(
                    from,
                    new_position,
                    pieces,
                ) && occupant.is_none() {
                    return true;
                }
                // Take piece diagonally

                step == -1 && dx == 1 && occupant == Some(PieceColor::White)
            },
            PieceType::Empty => false,
        }
    }
}

} // verus!
