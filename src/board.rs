//! The chess adapter: positions and moves of the `chess` crate behind the
//! `State` and `Move` capabilities.

use vstd::prelude::*;
use crate::rules::{
    board_after, board_hash, board_is_sane, build_board, built, fen_builder, legal,
    legal_moves_of, parse_builder, piece_count, piece_on_square, pieces_of_color, placed, played,
    sane, start_board, zobrist, MAX_PIECES, START_FEN,
};
use crate::state::{Move, State};

verus! {

/// A legal chess move, made only by `ChessBoard::legal_moves`.
#[derive(Clone, Debug, Hash, Eq, PartialEq, Copy)]
pub struct ChessMoveWrapper {
    chess_move: chess::ChessMove,
}

impl ChessMoveWrapper {
    /// The engine's move that this one wraps.
    pub closed spec fn inner(self) -> chess::ChessMove {
        self.chess_move
    }

    /// The wrapper of an engine move.
    pub closed spec fn wrap(m: chess::ChessMove) -> ChessMoveWrapper {
        ChessMoveWrapper { chess_move: m }
    }

    /// Wrapping loses nothing: distinct engine moves give distinct wrappers.
    pub proof fn lemma_wrap_inner(m: chess::ChessMove)
        ensures
            ChessMoveWrapper::wrap(m).inner() == m,
    {
    }

    fn new(movement: chess::ChessMove) -> (r: ChessMoveWrapper)
        ensures
            r == ChessMoveWrapper::wrap(movement),
    {
        ChessMoveWrapper { chess_move: movement }
    }
}

impl Move for ChessMoveWrapper {
    open spec fn usable(self) -> bool {
        true
    }

    fn is_valid(self) -> (r: bool) {
        true
    }
}

/// A FEN text that was refused: malformed, without a king of each color,
/// describing a position that fails the engine's sanity checks, or with more
/// than `MAX_PIECES` pieces of one color.
#[derive(Clone, Debug, PartialEq, Eq)]
pub struct ParseError {
    pub fen: String,
}

/// The index of the king among the engine's pieces.
pub const KING: usize = 5;

/// Whether a board setup has a king of the given color (0 = white, 1 = black).
pub open spec fn has_king(b: chess::BoardBuilder, color: usize) -> bool {
    exists|sq: int| 0 <= sq < 64 && placed(b, sq) == Some((KING, color))
}

/// Whether each color has at most `MAX_PIECES` pieces on the board.
pub open spec fn within_piece_bound(b: chess::Board) -> bool {
    piece_count(b, 0) <= MAX_PIECES && piece_count(b, 1) <= MAX_PIECES
}

/// The board that a FEN text describes: the text must be well-formed, its
/// setup must hold a king of each color, the board must be sane and hold at
/// most `MAX_PIECES` pieces of each color.
pub open spec fn parsed(s: Seq<char>) -> Option<chess::Board> {
    match fen_builder(s) {
        Some(b) => if has_king(b, 0) && has_king(b, 1) {
            match built(b) {
                Some(board) => if within_piece_bound(board) {
                    Some(board)
                } else {
                    None
                },
                None => None,
            }
        } else {
            None
        },
        None => None,
    }
}

/// Whether a board setup has a king of each color.
fn both_kings_present(b: &chess::BoardBuilder) -> (r: bool)
    ensures
        r == (has_king(*b, 0) && has_king(*b, 1)),
{
    let mut white = false;
    let mut black = false;
    let mut sq: usize = 0;
    while sq < 64
        invariant
            sq <= 64,
            white == exists|s: int| 0 <= s < sq && placed(*b, s) == Some((KING, 0usize)),
            black == exists|s: int| 0 <= s < sq && placed(*b, s) == Some((KING, 1usize)),
        decreases 64 - sq,
    {
        let here = piece_on_square(b, sq);
        if here == Some((KING, 0usize)) {
            white = true;
        } else if here == Some((KING, 1usize)) {
            black = true;
        }
        sq += 1;
    }
    white && black
}

/// A chess position.
#[derive(Clone, Debug, Hash, Eq, PartialEq, Copy)]
pub struct ChessBoard {
    pub board: chess::Board,
}

impl ChessBoard {
    /// Whether this is the position that the standard starting text
    /// (`START_FEN`) parses to.
    pub open spec fn is_start(self) -> bool {
        parsed(START_FEN@) == Some(self.board)
    }

    /// The standard starting position.
    pub fn default() -> (r: ChessBoard)
        ensures
            r.is_start(),
            r.well_formed(),
    {
        let board = start_board();
        proof {
            let setup = fen_builder(START_FEN@)->0;
            assert(0 <= 4int < 64 && placed(setup, 4) == Some((KING, 0usize)));
            assert(0 <= 60int < 64 && placed(setup, 60) == Some((KING, 1usize)));
        }
        ChessBoard { board }
    }

    /// The position that a FEN text describes, or the text back as an error
    /// where it is refused.
    pub fn parse(fen: &str) -> (r: Result<ChessBoard, ParseError>)
        ensures
            r is Ok <==> parsed(fen@) is Some,
            r is Ok ==> parsed(fen@) == Some(r->Ok_0.board) && r->Ok_0.well_formed(),
            r is Err ==> r->Err_0.fen@ == fen@,
    {
        match parse_builder(fen) {
            Ok(setup) => {
                if both_kings_present(&setup) {
                    match build_board(setup) {
                        Ok(board) => {
                            if pieces_of_color(&board, 0) <= MAX_PIECES && pieces_of_color(
                                &board,
                                1,
                            ) <= MAX_PIECES {
                                Ok(ChessBoard { board })
                            } else {
                                Err(ParseError { fen: fen.to_owned() })
                            }
                        },
                        Err(_) => Err(ParseError { fen: fen.to_owned() }),
                    }
                } else {
                    Err(ParseError { fen: fen.to_owned() })
                }
            },
            Err(_) => Err(ParseError { fen: fen.to_owned() }),
        }
    }

    /// The position that a FEN text describes; the text must be one that is
    /// accepted (`parse` is for untrusted text).
    pub fn from_str(fen: String) -> (r: ChessBoard)
        requires
            parsed(fen@) is Some,
        ensures
            parsed(fen@) == Some(r.board),
            r.well_formed(),
    {
        match ChessBoard::parse(fen.as_str()) {
            Ok(board) => board,
            // not reached: the precondition says that the text is accepted
            Err(_) => ChessBoard::default(),
        }
    }
}

impl State<ChessMoveWrapper> for ChessBoard {
    open spec fn well_formed(&self) -> bool {
        sane(self.board) && within_piece_bound(self.board)
    }

    open spec fn digest(&self) -> u64 {
        zobrist(self.board)
    }

    open spec fn successors(&self) -> Seq<ChessMoveWrapper> {
        legal(self.board).map_values(|m: chess::ChessMove| ChessMoveWrapper::wrap(m))
    }

    open spec fn next(&self, m: ChessMoveWrapper) -> ChessBoard {
        ChessBoard { board: played(self.board, m.inner()) }
    }

    proof fn lemma_successors_usable(&self) {
    }

    fn is_valid(&self) -> (r: bool) {
        board_is_sane(&self.board) && pieces_of_color(&self.board, 0) <= MAX_PIECES
            && pieces_of_color(&self.board, 1) <= MAX_PIECES
    }

    fn hash(&self) -> (r: u64) {
        board_hash(&self.board)
    }

    fn make_move(&self, movement: ChessMoveWrapper) -> (r: ChessBoard) {
        proof {
            let i = choose|i: int| 0 <= i < self.successors().len() && self.successors()[i] == movement;
            assert(legal(self.board)[i] == movement.inner());
        }
        ChessBoard { board: board_after(&self.board, movement.chess_move) }
    }

    fn legal_moves(&self) -> (r: Vec<ChessMoveWrapper>) {
        let moves = legal_moves_of(&self.board);
        let mut out: Vec<ChessMoveWrapper> = Vec::new();
        let mut i: usize = 0;
        while i < moves.len()
            invariant
                i <= moves.len(),
                moves@ == legal(self.board),
                out@ == moves@.take(i as int).map_values(|m: chess::ChessMove| ChessMoveWrapper::wrap(m)),
            decreases moves.len() - i,
        {
            out.push(ChessMoveWrapper::new(moves[i]));
            proof {
                assert(moves@.take(i as int + 1) == moves@.take(i as int).push(moves@[i as int]));
            }
            i += 1;
        }
        proof {
            assert(moves@.take(moves@.len() as int) == moves@);
            assert forall|a: int, b: int|
                0 <= a < out@.len() && 0 <= b < out@.len() && a != b implies out@[a] != out@[b] by {
                ChessMoveWrapper::lemma_wrap_inner(moves@[a]);
                ChessMoveWrapper::lemma_wrap_inner(moves@[b]);
            }
        }
        out
    }
}

} // verus!
