//! General properties of the move rules and of move resolution.

use vstd::prelude::*;
use crate::model::{Piece, PieceColor, PieceType, Square};
use crate::resolver::{captured_indices, is_captured_by, promoted_kind_spec, promotes};
use crate::rules::{
    abs,
    between,
    blocks_path,
    color_at,
    knight_jump,
    lemma_color_at,
    lemma_color_at_distinct,
    move_valid,
    occupied,
    path_clear,
    pawn_forward,
    pawn_home,
    squares_distinct,
};

verus! {

/// On a board holding only `p`, every square but its own is empty.
proof fn lemma_alone(p: Piece, dest: Square)
    ensures
        color_at(seq![p], dest) == (if dest == p.square {
            Some(p.color)
        } else {
            None::<PieceColor>
        }),
{
    let board = seq![p];
    assert(board.len() == 1 && board[0] == p);
    assert(board.drop_first() =~= Seq::<Piece>::empty());
    assert(color_at(Seq::<Piece>::empty(), dest) is None);
}

/// No piece may move onto its own square.
pub proof fn lemma_no_move_in_place(p: Piece, pieces: Seq<Piece>)
    ensures
        !move_valid(p, p.square, pieces),
{
}

/// No piece may move onto a square held by a piece of its own color.
pub proof fn lemma_no_move_onto_own_color(p: Piece, dest: Square, pieces: Seq<Piece>, i: int)
    requires
        squares_distinct(pieces),
        0 <= i < pieces.len(),
        pieces[i].square == dest,
        pieces[i].color == p.color,
    ensures
        !move_valid(p, dest, pieces),
{
    lemma_color_at_distinct(pieces, i);
}

/// On an otherwise empty board a knight may go exactly to the eight squares
/// of its L: two squares along one axis and one along the other.
pub proof fn lemma_knight_moves(p: Piece, dest: Square)
    requires
        p.piece_type.is_knight(),
    ensures
        move_valid(p, dest, seq![p]) <==> knight_jump(p.square, dest),
        knight_jump(p.square, dest) <==> {
            let dx = dest.x - p.square.x;
            let dy = dest.y - p.square.y;
            ||| (dx == 2 || dx == -2) && (dy == 1 || dy == -1)
            ||| (dx == 1 || dx == -1) && (dy == 2 || dy == -2)
        },
{
    lemma_alone(p, dest);
}

/// Knight moves on an otherwise empty board are unchanged by a quarter turn
/// of the offset: `(dx, dy)` is allowed exactly when `(-dy, dx)` is.
pub proof fn lemma_knight_rotation(p: Piece, d1: Square, d2: Square)
    requires
        p.piece_type.is_knight(),
        d2.x - p.square.x == -(d1.y - p.square.y),
        d2.y - p.square.y == d1.x - p.square.x,
    ensures
        move_valid(p, d1, seq![p]) == move_valid(p, d2, seq![p]),
{
    lemma_alone(p, d1);
    lemma_alone(p, d2);
}

/// On an otherwise empty board a rook may go to every other square of its
/// file and rank, and to no other square.
pub proof fn lemma_rook_open_board(p: Piece, dest: Square)
    requires
        p.piece_type.is_rook(),
    ensures
        move_valid(p, dest, seq![p]) <==> dest != p.square && (dest.x == p.square.x || dest.y
            == p.square.y),
{
    lemma_alone(p, dest);
    assert(path_clear(p.square, dest, seq![p]));
}

/// A piece strictly between a rook and a square of its file or rank bars
/// the rook from that square.
pub proof fn lemma_rook_blocked(p: Piece, dest: Square, pieces: Seq<Piece>, i: int)
    requires
        p.piece_type.is_rook(),
        0 <= i < pieces.len(),
        ({
            let q = pieces[i].square;
            ||| dest.x == p.square.x && q.x == p.square.x && between(
                p.square.y as int,
                q.y as int,
                dest.y as int,
            )
            ||| dest.y == p.square.y && q.y == p.square.y && between(
                p.square.x as int,
                q.x as int,
                dest.x as int,
            )
        }),
    ensures
        !move_valid(p, dest, pieces),
{
    assert(!path_clear(p.square, dest, pieces));
}

/// A pawn on its home rank may advance two squares when both squares ahead
/// are empty; a pawn elsewhere may never advance two squares.
pub proof fn lemma_pawn_double_step(p: Piece, dest: Square, pieces: Seq<Piece>)
    requires
        p.piece_type.is_pawn(),
        p.piece_type.color_spec() == Some(p.color),
        dest.x == p.square.x,
        dest.y - p.square.y == 2 * pawn_forward(p.color),
    ensures
        p.square.y == pawn_home(p.color) && !occupied(pieces, dest) && !occupied(
            pieces,
            Square { x: p.square.x, y: (p.square.y + pawn_forward(p.color)) as u8 },
        ) ==> move_valid(p, dest, pieces),
        p.square.y != pawn_home(p.color) ==> !move_valid(p, dest, pieces),
{
    lemma_color_at(pieces, dest);
    let middle = Square { x: p.square.x, y: (p.square.y + pawn_forward(p.color)) as u8 };
    if !occupied(pieces, middle) {
        assert forall|i: int| 0 <= i < pieces.len() implies !blocks_path(
            p.square,
            dest,
            #[trigger] pieces[i].square,
        ) by {
            if blocks_path(p.square, dest, pieces[i].square) {
                assert(pieces[i].square == middle);
            }
        }
    }
}

/// A pawn may step diagonally forward exactly when an opposing piece stands there.
pub proof fn lemma_pawn_diagonal(p: Piece, dest: Square, pieces: Seq<Piece>)
    requires
        p.piece_type.is_pawn(),
        p.piece_type.color_spec() == Some(p.color),
        dest.y - p.square.y == pawn_forward(p.color),
        abs(dest.x - p.square.x) == 1,
    ensures
        move_valid(p, dest, pieces) <==> color_at(pieces, dest) == Some(p.color.opponent()),
{
}

/// A pawn never captures straight ahead: it may not move along its file
/// onto an occupied square.
pub proof fn lemma_pawn_no_straight_capture(p: Piece, dest: Square, pieces: Seq<Piece>)
    requires
        p.piece_type.is_pawn(),
        p.piece_type.color_spec() == Some(p.color),
        dest.x == p.square.x,
        occupied(pieces, dest),
    ensures
        !move_valid(p, dest, pieces),
{
    lemma_color_at(pieces, dest);
}

proof fn lemma_captured_prefix(pieces: Seq<Piece>, dest: Square, mover: PieceColor, k: int, n: nat)
    requires
        squares_distinct(pieces),
        0 <= k < pieces.len(),
        is_captured_by(pieces[k], dest, mover),
        n <= pieces.len(),
    ensures
        captured_indices(pieces, dest, mover, n) == (if k < n {
            seq![k as usize]
        } else {
            Seq::<usize>::empty()
        }),
    decreases n,
{
    if n > 0 {
        lemma_captured_prefix(pieces, dest, mover, k, (n - 1) as nat);
        if k < n - 1 {
            assert(pieces[n - 1].square != pieces[k].square);
        } else if k == n - 1 {
            assert(Seq::<usize>::empty().push(k as usize) =~= seq![k as usize]);
        }
    }
}

/// When the squares are distinct, a move onto an opposing piece captures
/// that piece and no other.
pub proof fn lemma_capture_exactly_one(pieces: Seq<Piece>, dest: Square, mover: PieceColor, k: int)
    requires
        squares_distinct(pieces),
        0 <= k < pieces.len(),
        pieces[k].square == dest,
        pieces[k].color != mover,
    ensures
        captured_indices(pieces, dest, mover, pieces.len()) == seq![k as usize],
{
    lemma_captured_prefix(pieces, dest, mover, k, pieces.len());
}

/// A pawn that reaches its farthest rank becomes the queen of its color,
/// and a promoted piece is never promoted again.
pub proof fn lemma_promotion_once(kind: PieceType, first: Square, later: Square)
    requires
        promotes(kind, first),
    ensures
        kind.is_pawn(),
        promoted_kind_spec(kind, first) == PieceType::queen_of(kind.color_spec()->Some_0),
        !promotes(promoted_kind_spec(kind, first), later),
        promoted_kind_spec(promoted_kind_spec(kind, first), later) == promoted_kind_spec(
            kind,
            first,
        ),
{
}

/// A White pawn promotes on rank 7 and a Black pawn on rank 0; nothing else promotes.
pub proof fn lemma_promotion_ranks(kind: PieceType, dest: Square)
    ensures
        promotes(kind, dest) <==> (kind == PieceType::PawnWhite && dest.y == 7) || (kind
            == PieceType::PawnBlack && dest.y == 0),
        !promotes(kind, dest) ==> promoted_kind_spec(kind, dest) == kind,
{
}

} // verus!
