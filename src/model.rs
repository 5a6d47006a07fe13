//! Board and piece model: squares, kinds, colors, pieces and the turn counter.

use vstd::prelude::*;

verus! {

/// The two sides of the game.
#[derive(Clone, Copy, Debug, PartialEq, Eq, Structural)]
pub enum PieceColor {
    White,
    Black,
}

impl PieceColor {
    /// The side that is not `self`.
    pub open spec fn opponent(self) -> PieceColor {
        match self {
            PieceColor::White => PieceColor::Black,
            PieceColor::Black => PieceColor::White,
        }
    }

    /// The side that is not `self`.
    pub fn other(self) -> (r: PieceColor)
        ensures
            r == self.opponent(),
    {
        match self {
            PieceColor::White => PieceColor::Black,
            PieceColor::Black => PieceColor::White,
        }
    }
}

/// Kind of a piece: one of the twelve colored chess pieces, or `Empty`,
/// which marks a vacant cell of a board grid and never names a live piece.
#[derive(Clone, Copy, Debug, PartialEq, Eq, Structural)]
pub enum PieceType {
    PawnBlack,
    PawnWhite,
    RookBlack,
    RookWhite,
    KnightBlack,
    KnightWhite,
    BishopBlack,
    BishopWhite,
    QueenBlack,
    QueenWhite,
    KingBlack,
    KingWhite,
    Empty,
}

impl Default for PieceType {
    fn default() -> (r: PieceType)
        ensures
            r == PieceType::Empty,
    {
        PieceType::Empty
    }
}

impl PieceType {
    /// Color of the pieces of this kind; `None` for `Empty`.
    pub open spec fn color_spec(self) -> Option<PieceColor> {
        match self {
            PieceType::PawnBlack | PieceType::RookBlack | PieceType::KnightBlack
            | PieceType::BishopBlack | PieceType::QueenBlack | PieceType::KingBlack => Some(
                PieceColor::Black,
            ),
            PieceType::Empty => None,
            _ => Some(PieceColor::White),
        }
    }

    pub open spec fn is_pawn(self) -> bool {
        self == PieceType::PawnWhite || self == PieceType::PawnBlack
    }

    pub open spec fn is_knight(self) -> bool {
        self == PieceType::KnightWhite || self == PieceType::KnightBlack
    }

    pub open spec fn is_bishop(self) -> bool {
        self == PieceType::BishopWhite || self == PieceType::BishopBlack
    }

    pub open spec fn is_rook(self) -> bool {
        self == PieceType::RookWhite || self == PieceType::RookBlack
    }

    pub open spec fn is_queen(self) -> bool {
        self == PieceType::QueenWhite || self == PieceType::QueenBlack
    }

    pub open spec fn is_king(self) -> bool {
        self == PieceType::KingWhite || self == PieceType::KingBlack
    }

    /// The queen of the given color.
    pub open spec fn queen_of(c: PieceColor) -> PieceType {
        match c {
            PieceColor::White => PieceType::QueenWhite,
            PieceColor::Black => PieceType::QueenBlack,
        }
    }

    /// Material value: pawn 1, knight 3, bishop 3, rook 5, queen 9, king and `Empty` 0.
    pub open spec fn value_spec(self) -> int {
        if self.is_pawn() {
            1
        } else if self.is_knight() || self.is_bishop() {
            3
        } else if self.is_rook() {
            5
        } else if self.is_queen() {
            9
        } else {
            0
        }
    }

    /// Position of the kind in the display order of captured pieces:
    /// pawn, knight, bishop, rook, queen, then everything else.
    pub open spec fn rank_spec(self) -> int {
        if self.is_pawn() {
            0
        } else if self.is_knight() {
            1
        } else if self.is_bishop() {
            2
        } else if self.is_rook() {
            3
        } else if self.is_queen() {
            4
        } else {
            5
        }
    }

    /// Color of the pieces of this kind; `None` for `Empty`.
    pub fn color(&self) -> (r: Option<PieceColor>)
        ensures
            r == self.color_spec(),
    {
        match self {
            PieceType::PawnBlack | PieceType::RookBlack | PieceType::KnightBlack
            | PieceType::BishopBlack | PieceType::QueenBlack | PieceType::KingBlack => Some(
                PieceColor::Black,
            ),
            PieceType::Empty => None,
            _ => Some(PieceColor::White),
        }
    }

    /// Material value of the kind.
    pub fn get_value(&self) -> (r: i8)
        ensures
            r == self.value_spec(),
    {
        match self {
            PieceType::PawnWhite | PieceType::PawnBlack => 1,
            PieceType::KnightWhite | PieceType::KnightBlack => 3,
            PieceType::BishopWhite | PieceType::BishopBlack => 3,
            PieceType::RookWhite | PieceType::RookBlack => 5,
            PieceType::QueenWhite | PieceType::QueenBlack => 9,
            _ => 0,
        }
    }

    /// Position of the kind in the display order of captured pieces.
    pub fn rank(&self) -> (r: u8)
        ensures
            r == self.rank_spec(),
    {
        match self {
            PieceType::PawnWhite | PieceType::PawnBlack => 0,
            PieceType::KnightWhite | PieceType::KnightBlack => 1,
            PieceType::BishopWhite | PieceType::BishopBlack => 2,
            PieceType::RookWhite | PieceType::RookBlack => 3,
            PieceType::QueenWhite | PieceType::QueenBlack => 4,
            _ => 5,
        }
    }
}

/// A board coordinate: `x` is the file, `y` the rank, both in `0..8` on a
/// real board, with (0, 0) the bottom-left corner from White's side.
#[derive(Clone, Copy, Debug, PartialEq, Eq, Structural)]
pub struct Square {
    pub x: u8,
    pub y: u8,
}

impl Square {
    pub open spec fn on_board(self) -> bool {
        self.x < 8 && self.y < 8
    }

    pub fn new(x: u8, y: u8) -> (r: Square)
        ensures
            r == (Square { x, y }),
    {
        Square { x, y }
    }
}

/// A live piece. `direction` is the square the piece is travelling to;
/// once it equals `square` the piece is settled.
#[derive(Clone, Copy, Debug, PartialEq, Eq, Structural)]
pub struct Piece {
    pub piece_type: PieceType,
    pub color: PieceColor,
    pub square: Square,
    pub direction: Square,
}

impl Piece {
    /// A live piece has a real kind whose color is its own, and stands on the board.
    pub open spec fn wf(self) -> bool {
        &&& self.piece_type.color_spec() == Some(self.color)
        &&& self.square.on_board()
        &&& self.direction.on_board()
    }

    /// A settled piece of the given kind on the given square.
    pub fn new(piece_type: PieceType, square: Square) -> (r: Piece)
        requires
            piece_type != PieceType::Empty,
        ensures
            r.piece_type == piece_type,
            Some(r.color) == piece_type.color_spec(),
            r.square == square,
            r.direction == square,
            square.on_board() ==> r.wf(),
    {
        let color = match piece_type.color() {
            Some(c) => c,
            None => PieceColor::White,
        };
        Piece { piece_type, color, square, direction: square }
    }

    /// Settle step: moves the piece onto its pending target square.
    /// Returns whether the piece moved; safe to run when nothing is pending.
    pub fn settle(&mut self) -> (moved: bool)
        ensures
            moved == (old(self).direction != old(self).square),
            *final(self) == (Piece { square: old(self).direction, ..*old(self) }),
            old(self).wf() ==> final(self).wf(),
    {
        let moved = self.direction != self.square;
        if moved {
            self.square = self.direction;
        }
        moved
    }
}

/// Whose move it is, and the number of the move.
#[derive(Clone, Copy, Debug, PartialEq, Eq, Structural)]
pub struct Turn {
    pub color: PieceColor,
    pub n: u16,
}

impl Turn {
    /// The turn after `self`.
    pub open spec fn next_spec(self) -> Turn {
        Turn { color: self.color.opponent(), n: (self.n + 1) as u16 }
    }

    /// The first turn: White to move, move 1.
    pub fn new() -> (r: Turn)
        ensures
            r == (Turn { color: PieceColor::White, n: 1 }),
    {
        Turn { color: PieceColor::White, n: 1 }
    }

    /// Hands the move to the other side and counts one more move.
    pub fn next(&mut self)
        requires
            old(self).n < u16::MAX,
        ensures
            *final(self) == old(self).next_spec(),
            final(self).n == old(self).n + 1,
    {
        self.color = self.color.other();
        self.n = self.n + 1;
    }
}

impl Default for Turn {
    fn default() -> (r: Turn)
        ensures
            r == (Turn { color: PieceColor::White, n: 1 }),
    {
        Turn::new()
    }
}

} // verus!
