//! Move resolver: selection, validation, capture, promotion and turn advance.

use vstd::prelude::*;
use crate::model::{Piece, PieceColor, PieceType, Square, Turn};
use crate::rules::move_valid;

verus! {

/// A pawn that reaches the farthest rank for its color is promoted.
pub open spec fn promotes(kind: PieceType, dest: Square) -> bool {
    (kind == PieceType::PawnBlack && dest.y == 0) || (kind == PieceType::PawnWhite && dest.y == 7)
}

/// Kind of a piece of kind `kind` after it lands on `dest`.
pub open spec fn promoted_kind_spec(kind: PieceType, dest: Square) -> PieceType {
    if kind == PieceType::PawnBlack && dest.y == 0 {
        PieceType::QueenBlack
    } else if kind == PieceType::PawnWhite && dest.y == 7 {
        PieceType::QueenWhite
    } else {
        kind
    }
}

/// A piece of color `mover` landing on `dest` captures `p`.
pub open spec fn is_captured_by(p: Piece, dest: Square, mover: PieceColor) -> bool {
    p.square == dest && p.color != mover
}

/// Indices below `n`, in increasing order, of the pieces that a piece of
/// color `mover` landing on `dest` captures.
pub open spec fn captured_indices(pieces: Seq<Piece>, dest: Square, mover: PieceColor, n: nat) -> Seq<
    usize,
>
    decreases n,
{
    if n == 0 {
        seq![]
    } else {
        let prev = captured_indices(pieces, dest, mover, (n - 1) as nat);
        if is_captured_by(pieces[n - 1], dest, mover) {
            prev.push((n - 1) as usize)
        } else {
            prev
        }
    }
}

/// The winner, if `captured` holds a king: the side opposing the first king in it.
pub open spec fn winner_spec(captured: Seq<Piece>) -> Option<PieceColor>
    decreases captured.len(),
{
    if captured.len() == 0 {
        None
    } else if captured[0].piece_type.is_king() {
        Some(captured[0].color.opponent())
    } else {
        winner_spec(captured.drop_first())
    }
}

/// `pieces[i]` stands on `square` and belongs to `color`.
pub open spec fn selectable(pieces: Seq<Piece>, square: Square, color: PieceColor, i: int) -> bool {
    pieces[i].square == square && pieces[i].color == color
}

/// What a committed move did.
#[derive(Debug)]
pub struct MoveReport {
    /// Indices of the captured pieces, in increasing order.
    pub captured: Vec<usize>,
    /// The moving pawn became a queen.
    pub promoted: bool,
    /// The side that won by capturing a king.
    pub winner: Option<PieceColor>,
}

/// Result of an attempt to move a piece.
#[derive(Debug)]
pub enum MoveOutcome {
    /// The move is illegal; nothing changed.
    Rejected,
    /// The piece does not belong to the side to move; nothing changed, and
    /// the pending selection is to be cleared.
    WrongTurn,
    /// The move was made.
    Committed(MoveReport),
}

/// Kind of a piece of kind `kind` after it lands on `dest`: a pawn on the
/// farthest rank for its color becomes the queen of its color.
pub fn promoted_kind(kind: PieceType, dest: Square) -> (r: PieceType)
    ensures
        r == promoted_kind_spec(kind, dest),
{
    if kind == PieceType::PawnBlack && dest.y == 0 {
        PieceType::QueenBlack
    } else if kind == PieceType::PawnWhite && dest.y == 7 {
        PieceType::QueenWhite
    } else {
        kind
    }
}

/// The side that wins when the pieces of `captured` leave the board: the
/// opponent of the first king among them, if there is one.
pub fn game_winner(captured: &Vec<Piece>) -> (r: Option<PieceColor>)
    ensures
        r == winner_spec(captured@),
{
    let mut i: usize = 0;
    assert(captured@.subrange(0, captured@.len() as int) =~= captured@);
    while i < captured.len()
        invariant
            i <= captured.len(),
            winner_spec(captured@) == winner_spec(
                captured@.subrange(i as int, captured@.len() as int),
            ),
        decreases captured.len() - i,
    {
        proof {
            let rest = captured@.subrange(i as int, captured@.len() as int);
            assert(rest.drop_first() =~= captured@.subrange(i + 1, captured@.len() as int));
        }
        let k = captured[i].piece_type;
        if k == PieceType::KingWhite || k == PieceType::KingBlack {
            return Some(captured[i].color.other());
        }
        i = i + 1;
    }
    None
}

/// Selects the first piece on `square` that belongs to the side to move.
pub fn select_piece(pieces: &Vec<Piece>, square: Square, turn: &Turn) -> (r: Option<usize>)
    ensures
        r matches Some(i) ==> i < pieces.len() && selectable(pieces@, square, turn.color, i as int)
            && forall|j: int| 0 <= j < i ==> !selectable(pieces@, square, turn.color, j),
        r is None ==> forall|j: int|
            0 <= j < pieces.len() ==> !selectable(pieces@, square, turn.color, j),
{
    let mut i: usize = 0;
    while i < pieces.len()
        invariant
            i <= pieces.len(),
            forall|j: int| 0 <= j < i ==> !selectable(pieces@, square, turn.color, j),
        decreases pieces.len() - i,
    {
        if pieces[i].square == square && pieces[i].color == turn.color {
            return Some(i);
        }
        i = i + 1;
    }
    None
}

/// Attempts to move `pieces[mover]` to `dest` on behalf of the side to move.
///
/// An illegal move is rejected and a move by the side not to move is refused;
/// neither changes anything. Otherwise the moving piece is sent to `dest`
/// (promoted if it is a pawn reaching its farthest rank), every opposing
/// piece on `dest` is reported captured, and the turn passes to the other side.
pub fn resolve_move(pieces: &mut Vec<Piece>, mover: usize, dest: Square, turn: &mut Turn) -> (outcome:
    MoveOutcome)
    requires
        mover < old(pieces).len(),
        old(pieces)[mover as int].piece_type != PieceType::Empty,
        old(turn).n < u16::MAX,
    ensures
        !move_valid(old(pieces)[mover as int], dest, old(pieces)@) ==> outcome is Rejected,
        move_valid(old(pieces)[mover as int], dest, old(pieces)@) && old(pieces)[mover as int].color
            != old(turn).color ==> outcome is WrongTurn,
        move_valid(old(pieces)[mover as int], dest, old(pieces)@) && old(pieces)[mover as int].color
            == old(turn).color ==> outcome is Committed,
        !(outcome is Committed) ==> final(pieces)@ == old(pieces)@ && *final(turn) == *old(turn),
        outcome matches MoveOutcome::Committed(report) ==> {
            let p = old(pieces)[mover as int];
            &&& final(pieces)@ == old(pieces)@.update(
                mover as int,
                Piece { piece_type: promoted_kind_spec(p.piece_type, dest), direction: dest, ..p },
            )
            &&& *final(turn) == old(turn).next_spec()
            &&& final(turn).n == old(turn).n + 1
            &&& final(turn).color == old(turn).color.opponent()
            &&& report.captured@ == captured_indices(
                old(pieces)@,
                dest,
                p.color,
                old(pieces)@.len(),
            )
            &&& report.promoted == promotes(p.piece_type, dest)
            &&& report.winner == winner_spec(report.captured@.map_values(|j: usize| old(pieces)@[j as int]))
        },
{
    let piece = pieces[mover];
    if !piece.is_move_valid(dest, pieces) {
        return MoveOutcome::Rejected;
    }
    // Only the side to move may move

    if piece.color != turn.color {
        return MoveOutcome::WrongTurn;
    }
    // Every opposing piece on the destination is captured

    let mut captured: Vec<usize> = Vec::new();
    let mut captured_pieces: Vec<Piece> = Vec::new();
    let mut i: usize = 0;
    while i < pieces.len()
        invariant
            i <= pieces.len(),
            captured@ == captured_indices(pieces@, dest, piece.color, i as nat),
            captured_pieces@ == captured@.map_values(|j: usize| pieces@[j as int]),
            forall|m: int| 0 <= m < captured@.len() ==> captured@[m] < i,
        decreases pieces.len() - i,
    {
        let other = pieces[i];
        if other.square == dest && other.color != piece.color {
            captured.push(i);
            captured_pieces.push(other);
        }
        proof {
            assert(captured@.map_values(|j: usize| pieces@[j as int]) =~= captured_pieces@);
        }
        i = i + 1;
    }
    let winner = game_winner(&captured_pieces);
    let promoted = (piece.piece_type == PieceType::PawnBlack && dest.y == 0) || (piece.piece_type
        == PieceType::PawnWhite && dest.y == 7);
    let moved = Piece { piece_type: promoted_kind(piece.piece_type, dest), direction: dest, ..piece };
    pieces.set(mover, moved);
    turn.next();
    MoveOutcome::Committed(MoveReport { captured, promoted, winner })
}

} // verus!
