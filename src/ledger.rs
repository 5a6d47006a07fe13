//! Captured-pieces ledger: the kinds each side has lost, kept in display
//! order, and the material balance they give.

use vstd::prelude::*;
use crate::model::{Piece, PieceColor, PieceType};

verus! {

/// The kinds of `s` with display rank `r`, in their order in `s`.
pub open spec fn of_rank(s: Seq<PieceType>, r: int) -> Seq<PieceType> {
    s.filter(|k: PieceType| k.rank_spec() == r)
}

/// The kinds of `s` with display rank below `r`, grouped by rank in
/// increasing order, each group in its order in `s`.
pub open spec fn ranks_below(s: Seq<PieceType>, r: int) -> Seq<PieceType>
    decreases r,
{
    if r <= 0 {
        seq![]
    } else {
        ranks_below(s, r - 1) + of_rank(s, r - 1)
    }
}

/// `s` stably sorted by display rank: pawns, knights, bishops, rooks,
/// queens, then the rest.
pub open spec fn sorted_by_rank(s: Seq<PieceType>) -> Seq<PieceType> {
    ranks_below(s, 6)
}

/// Total material value of the kinds in `s`.
pub open spec fn material(s: Seq<PieceType>) -> int
    decreases s.len(),
{
    if s.len() == 0 {
        0
    } else {
        material(s.drop_last()) + s.last().value_spec()
    }
}

/// Most pieces a side can lose.
pub const MAX_CAPTURED: usize = 16;

/// Sorts kinds stably by display rank: pawns, knights, bishops, rooks,
/// queens, then the rest.
pub fn sort_captured(v: &mut Vec<PieceType>)
    ensures
        final(v)@ == sorted_by_rank(old(v)@),
{
    let ghost s = v@;
    let mut out: Vec<PieceType> = Vec::new();
    let mut r: u8 = 0;
    while r < 6
        invariant
            r <= 6,
            v@ == s,
            out@ == ranks_below(s, r as int),
        decreases 6 - r,
    {
        let mut i: usize = 0;
        assert(s.take(0) =~= Seq::<PieceType>::empty());
        assert(of_rank(s.take(0), r as int) =~= Seq::<PieceType>::empty()) by {
            reveal(Seq::filter);
        }
        assert(out@ =~= ranks_below(s, r as int) + of_rank(s.take(0), r as int));
        while i < v.len()
            invariant
                r < 6,
                i <= v.len(),
                v@ == s,
                out@ == ranks_below(s, r as int) + of_rank(s.take(i as int), r as int),
            decreases v.len() - i,
        {
            let k = v[i];
            proof {
                assert(s.take(i + 1) =~= s.take(i as int).push(k));
                s.take(i as int).lemma_filter_push(k, |k: PieceType| k.rank_spec() == r as int);
            }
            if k.rank() == r {
                out.push(k);
            }
            i = i + 1;
        }
        assert(s.take(v.len() as int) =~= s);
        r = r + 1;
    }
    *v = out;
}

/// The kinds each side has lost so far, each list in display order.
#[derive(Debug)]
pub struct CapturedLedger {
    /// Captured White pieces.
    pub white: Vec<PieceType>,
    /// Captured Black pieces.
    pub black: Vec<PieceType>,
}

impl CapturedLedger {
    /// Neither side has lost more pieces than it has.
    pub open spec fn wf(&self) -> bool {
        self.white.len() <= MAX_CAPTURED && self.black.len() <= MAX_CAPTURED
    }

    /// A ledger with no captures.
    pub fn new() -> (r: CapturedLedger)
        ensures
            r.white@.len() == 0,
            r.black@.len() == 0,
            r.wf(),
    {
        CapturedLedger { white: Vec::new(), black: Vec::new() }
    }

    /// Records a captured piece on its side's list, which stays in display order.
    pub fn record(&mut self, piece: &Piece)
        requires
            old(self).wf(),
            piece.color == PieceColor::White ==> old(self).white.len() < MAX_CAPTURED,
            piece.color == PieceColor::Black ==> old(self).black.len() < MAX_CAPTURED,
        ensures
            final(self).wf(),
            piece.color == PieceColor::White ==> final(self).white@ == sorted_by_rank(
                old(self).white@.push(piece.piece_type),
            ) && final(self).black@ == old(self).black@,
            piece.color == PieceColor::Black ==> final(self).black@ == sorted_by_rank(
                old(self).black@.push(piece.piece_type),
            ) && final(self).white@ == old(self).white@,
    {
        match piece.color {
            PieceColor::White => {
                self.white.push(piece.piece_type);
                sort_captured(&mut self.white);
            },
            PieceColor::Black => {
                self.black.push(piece.piece_type);
                sort_captured(&mut self.black);
            },
        }
        proof {
            lemma_sorted_len(old(self).white@.push(piece.piece_type));
            lemma_sorted_len(old(self).black@.push(piece.piece_type));
        }
    }

    /// Material advantage for White: the value of the Black pieces captured
    /// minus the value of the White pieces captured.
    pub fn material_advantage(&self) -> (r: i32)
        requires
            self.wf(),
        ensures
            r == material(self.black@) - material(self.white@),
    {
        let b = total_value(&self.black);
        let w = total_value(&self.white);
        b - w
    }
}

/// Sorting by rank keeps the number of kinds.
proof fn lemma_sorted_len(s: Seq<PieceType>)
    ensures
        sorted_by_rank(s).len() == s.len(),
    decreases s.len(),
{
    if s.len() == 0 {
        lemma_ranks_below_empty(s, 6);
    } else {
        let init = s.drop_last();
        assert(init.push(s.last()) =~= s);
        lemma_sorted_len(init);
        lemma_ranks_below_push(init, s.last(), 6);
    }
}

proof fn lemma_ranks_below_empty(s: Seq<PieceType>, r: int)
    requires
        s.len() == 0,
    ensures
        ranks_below(s, r).len() == 0,
    decreases r,
{
    reveal(Seq::filter);
    if r > 0 {
        lemma_ranks_below_empty(s, r - 1);
    }
}

proof fn lemma_ranks_below_push(s: Seq<PieceType>, x: PieceType, r: int)
    ensures
        ranks_below(s.push(x), r).len() == ranks_below(s, r).len() + (if x.rank_spec() < r {
            1int
        } else {
            0int
        }),
    decreases r,
{
    if r > 0 {
        lemma_ranks_below_push(s, x, r - 1);
        s.lemma_filter_push(x, |k: PieceType| k.rank_spec() == r - 1);
    }
}

/// Sum of the values of the kinds in `v`, at most sixteen of them.
fn total_value(v: &Vec<PieceType>) -> (r: i32)
    requires
        v.len() <= MAX_CAPTURED,
    ensures
        r == material(v@),
        0 <= r <= 9 * v.len(),
{
    let mut sum: i32 = 0;
    let mut i: usize = 0;
    while i < v.len()
        invariant
            i <= v.len(),
            v.len() <= MAX_CAPTURED,
            sum == material(v@.take(i as int)),
            0 <= sum <= 9 * i,
        decreases v.len() - i,
    {
        assert(v@.take(i + 1).drop_last() =~= v@.take(i as int));
        sum = sum + v[i].get_value() as i32;
        i = i + 1;
    }
    assert(v@.take(v.len() as int) =~= v@);
    sum
}

} // verus!
