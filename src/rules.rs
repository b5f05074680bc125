//! The rules engine: the items of the `chess` crate that the adapter relies
//! on, each with the contract that its source gives.

use vstd::prelude::*;

verus! {

#[verifier::external_type_specification]
#[verifier::external_body]
pub struct ExBoard(chess::Board);

#[verifier::external_type_specification]
#[verifier::external_body]
pub struct ExChessMove(chess::ChessMove);

#[verifier::external_type_specification]
#[verifier::external_body]
pub struct ExBoardBuilder(chess::BoardBuilder);

#[verifier::external_type_specification]
#[verifier::external_body]
pub struct ExError(chess::Error);

/// The canonical (Zobrist) hash of a board.
pub uninterp spec fn zobrist(b: chess::Board) -> u64;

/// Whether a board passes the engine's sanity checks.
pub uninterp spec fn sane(b: chess::Board) -> bool;

/// The number of pieces of a color (0 = white, 1 = black) on a board.
pub uninterp spec fn piece_count(b: chess::Board, color: usize) -> u32;

/// The most pieces of one color for which the move generator has room.
pub const MAX_PIECES: u32 = 16;

/// The board setup that a FEN text describes, if the text is well-formed.
pub uninterp spec fn fen_builder(s: Seq<char>) -> Option<chess::BoardBuilder>;

/// What stands on square `sq` (0 = a1, 63 = h8) of a board setup, as the
/// piece's index (5 = king) and the color's index (0 = white, 1 = black).
pub uninterp spec fn placed(b: chess::BoardBuilder, sq: int) -> Option<(usize, usize)>;

/// The board that a setup builds, if it passes the engine's sanity checks.
pub uninterp spec fn built(b: chess::BoardBuilder) -> Option<chess::Board>;

/// The legal moves of a board, in the order the move generator yields them.
pub uninterp spec fn legal(b: chess::Board) -> Seq<chess::ChessMove>;

/// The board after a legal move has been played on it.
pub uninterp spec fn played(b: chess::Board, m: chess::ChessMove) -> chess::Board;

/// The text of the standard starting position.
pub const START_FEN: &'static str = "rnbqkbnr/pppppppp/8/8/8/8/PPPPPPPP/RNBQKBNR w KQkq - 0 1";

/// Relies on `chess::Board::get_hash`, which reads the board's fields only.
#[verifier::external_body]
pub(crate) fn board_hash(b: &chess::Board) -> (r: u64)
    ensures
        r == zobrist(*b),
{
    b.get_hash()
}

/// Relies on `chess::Board::is_sane`, which reads the board's fields only.
#[verifier::external_body]
pub(crate) fn board_is_sane(b: &chess::Board) -> (r: bool)
    ensures
        r == sane(*b),
{
    b.is_sane()
}

/// Relies on `chess::Board::default`, which is the board that `Board::from_str`
/// (a `BoardBuilder` parsed from the text, then converted) returns on the
/// starting text; the conversion returns sane boards only.
#[verifier::external_body]
pub(crate) fn start_board() -> (r: chess::Board)
    ensures
        match fen_builder(START_FEN@) {
            Some(setup) => {
                &&& placed(setup, 4) == Some((5usize, 0usize))
                &&& placed(setup, 60) == Some((5usize, 1usize))
                &&& built(setup) == Some(r)
            },
            None => false,
        },
        sane(r),
        piece_count(r, 0) == 16,
        piece_count(r, 1) == 16,
{
    chess::Board::default()
}

/// Relies on `chess::Board::color_combined` and `chess::BitBoard::popcnt`: how
/// many pieces of the color stand on the board.
#[verifier::external_body]
pub(crate) fn pieces_of_color(b: &chess::Board, color: usize) -> (r: u32)
    requires
        color < 2,
    ensures
        r == piece_count(*b, color),
{
    b.color_combined(chess::ALL_COLORS[color]).popcnt()
}

/// Relies on `chess::BoardBuilder::from_str`, which reads a FEN text into a
/// board setup and checks nothing about the position itself.
#[verifier::external_body]
pub(crate) fn parse_builder(s: &str) -> (r: Result<chess::BoardBuilder, chess::Error>)
    ensures
        r is Ok <==> fen_builder(s@) is Some,
        r is Ok ==> fen_builder(s@) == Some(r->Ok_0),
{
    <chess::BoardBuilder as std::str::FromStr>::from_str(s)
}

/// Relies on indexing a `chess::BoardBuilder` by square, with the piece and
/// the color given by their `to_index` numbers.
#[verifier::external_body]
pub(crate) fn piece_on_square(b: &chess::BoardBuilder, sq: usize) -> (r: Option<(usize, usize)>)
    requires
        sq < 64,
    ensures
        r == placed(*b, sq as int),
{
    match b[chess::ALL_SQUARES[sq]] {
        Some((piece, color)) => Some((piece.to_index(), color.to_index())),
        None => None,
    }
}

/// Relies on `chess::Board::try_from(BoardBuilder)`: it returns the board when
/// it passes `is_sane`, else an error. It locates the king of the side to move
/// before that check, and reads out of bounds where there is none, so both
/// kings are asked for.
#[verifier::external_body]
pub(crate) fn build_board(b: chess::BoardBuilder) -> (r: Result<chess::Board, chess::Error>)
    requires
        exists|sq: int| 0 <= sq < 64 && placed(b, sq) == Some((5usize, 0usize)),
        exists|sq: int| 0 <= sq < 64 && placed(b, sq) == Some((5usize, 1usize)),
    ensures
        r is Ok <==> built(b) is Some,
        r is Ok ==> built(b) == Some(r->Ok_0) && sane(r->Ok_0),
{
    <chess::Board as std::convert::TryFrom<chess::BoardBuilder>>::try_from(b)
}

/// Relies on `chess::MoveGen::new_legal`: the legal moves of the board, each
/// once, in the generator's order, which depends on the board alone. The
/// generator keeps one entry per movable piece of the side to move in an
/// array of 18, so the number of pieces is bounded.
#[verifier::external_body]
pub(crate) fn legal_moves_of(b: &chess::Board) -> (r: Vec<chess::ChessMove>)
    requires
        sane(*b),
        piece_count(*b, 0) <= MAX_PIECES,
        piece_count(*b, 1) <= MAX_PIECES,
    ensures
        r@ == legal(*b),
        r@.no_duplicates(),
{
    chess::MoveGen::new_legal(b).collect()
}

/// Relies on `chess::Board::make_move_new`, which leaves `b` as it is and
/// returns the board after the move; a legal move on a sane board gives a
/// sane board, and no color gains a piece (a capture removes one, a
/// promotion replaces one).
#[verifier::external_body]
pub(crate) fn board_after(b: &chess::Board, m: chess::ChessMove) -> (r: chess::Board)
    requires
        sane(*b),
        legal(*b).contains(m),
    ensures
        r == played(*b, m),
        sane(r),
        piece_count(r, 0) <= piece_count(*b, 0),
        piece_count(r, 1) <= piece_count(*b, 1),
{
    b.make_move_new(m)
}

} // verus!
