//! Properties that callers of the capabilities may rely on, proved from the
//! contracts of `State` and of the chess adapter.

use vstd::prelude::*;
use crate::board::ChessBoard;
use crate::state::{Move, State};

verus! {

/// The hash is deterministic: positions that are the same, whether one value
/// asked twice or two values built independently, have the same hash.
pub proof fn lemma_hash_deterministic<M: Move, S: State<M>>(p1: S, p2: S)
    requires
        p1 == p2,
    ensures
        p1.digest() == p2.digest(),
{
}

/// Starting positions agree: positions built independently by
/// `ChessBoard::default`, or parsed from `START_FEN`, are one and the same
/// position and have the same hash.
pub proof fn lemma_start_positions_agree(p1: ChessBoard, p2: ChessBoard)
    requires
        p1.is_start(),
        p2.is_start(),
    ensures
        p1 == p2,
        p1.digest() == p2.digest(),
{
}

/// Enumerating the legal transitions of one position twice gives the same
/// number of transitions and the same set of them.
pub proof fn lemma_reenumeration<M: Move, S: State<M>>(p: S, first: Seq<M>, second: Seq<M>)
    requires
        first == p.successors(),
        second == p.successors(),
    ensures
        first.len() == second.len(),
        first.to_set() == second.to_set(),
{
}

} // verus!
