//! The capability surface that a game offers to a search algorithm: positions
//! that hash, check themselves, enumerate their legal transitions and apply
//! one of them without changing.

use vstd::prelude::*;

verus! {

/// One transition from a position, as handed out by that position's
/// legal-move enumerator.
pub trait Move: Sized {
    /// Whether the transition may be applied.
    spec fn usable(self) -> bool;

    fn is_valid(self) -> (r: bool)
        ensures
            r == self.usable(),
    ;
}

/// One position of a game.
pub trait State<M: Move>: Sized {
    /// Whether the position is well-formed by the game's rules.
    spec fn well_formed(&self) -> bool;

    /// The position's hash, a function of the position alone.
    spec fn digest(&self) -> u64;

    /// Every legal transition from the position, each once, in enumeration
    /// order.
    spec fn successors(&self) -> Seq<M>;

    /// The position that a legal transition leads to.
    spec fn next(&self, m: M) -> Self;

    /// Every transition that the enumerator hands out is usable.
    proof fn lemma_successors_usable(&self)
        ensures
            forall|i: int| 0 <= i < self.successors().len() ==> (#[trigger] self.successors()[i]).usable(),
    ;

    fn is_valid(&self) -> (r: bool)
        ensures
            r == self.well_formed(),
    ;

    fn hash(&self) -> (r: u64)
        ensures
            r == self.digest(),
    ;

    /// Applies a transition that this well-formed position's enumerator
    /// produced; the receiver is left as it was.
    fn make_move(&self, movement: M) -> (r: Self)
        requires
            self.well_formed(),
            self.successors().contains(movement),
        ensures
            r == self.next(movement),
            r.well_formed(),
    ;

    /// Enumerates the legal transitions afresh on each call; a position
    /// must be checked with `is_valid` before it is explored.
    fn legal_moves(&self) -> (r: Vec<M>)
        requires
            self.well_formed(),
        ensures
            r@ == self.successors(),
            r@.no_duplicates(),
    ;
}

} // verus!
