use chess_state::board::{ChessBoard, ChessMoveWrapper, ParseError};
use chess_state::rules::START_FEN;
use chess_state::state::{Move, State};
use std::collections::{HashMap, HashSet};

const AFTER_E4: &str = "rnbqkbnr/pppppppp/8/8/4P3/8/PPPP1PPP/RNBQKBNR b KQkq - 0 1";

fn successor_matching(board: &ChessBoard, target: &ChessBoard) -> Option<ChessMoveWrapper> {
    board
        .legal_moves()
        .into_iter()
        .find(|m| board.make_move(*m) == *target)
}

#[test]
fn deterministic_hash() {
    let board = ChessBoard::default();
    assert!(board.hash() == board.hash());
    let hash_1: u64 = board.hash();

    let board = ChessBoard::default();
    assert!(board.hash() == board.hash());
    let hash_2: u64 = board.hash();

    assert!(hash_1 == hash_2);
}

#[test]
fn parsed_copies_hash_alike() {
    let a = ChessBoard::from_str(AFTER_E4.to_string());
    let b = ChessBoard::parse(AFTER_E4).unwrap();
    assert_eq!(a, b);
    assert_eq!(a.hash(), b.hash());
}

#[test]
fn distinct_positions_within_four_plies_hash_apart() {
    let mut seen: HashSet<ChessBoard> = HashSet::new();
    let mut frontier = vec![ChessBoard::default()];
    seen.insert(ChessBoard::default());
    for _ in 0..4 {
        let mut next = Vec::new();
        for board in &frontier {
            for m in board.legal_moves() {
                let child = board.make_move(m);
                assert!(child.is_valid());
                if seen.insert(child) {
                    next.push(child);
                }
            }
        }
        frontier = next;
    }
    assert!(seen.len() > 10_000);
    let mut by_hash: HashMap<u64, ChessBoard> = HashMap::new();
    for board in &seen {
        if let Some(other) = by_hash.insert(board.hash(), *board) {
            assert_eq!(other, *board, "two distinct positions share a hash");
        }
    }
    assert_eq!(by_hash.len(), seen.len());
}

#[test]
fn starting_position_has_twenty_moves() {
    assert_eq!(ChessBoard::default().legal_moves().len(), 20);
}

#[test]
fn make_move_leaves_the_origin() {
    let board = ChessBoard::default();
    let copy = board;
    let h = board.hash();
    let valid = board.is_valid();
    for m in board.legal_moves() {
        let _ = board.make_move(m);
        assert_eq!(board.hash(), h);
        assert_eq!(board.is_valid(), valid);
        assert_eq!(board, copy);
    }
}

#[test]
fn default_is_valid_and_matches_start_text() {
    let d = ChessBoard::default();
    assert!(d.is_valid());
    let p = ChessBoard::parse(START_FEN).unwrap();
    assert_eq!(d, p);
    assert_eq!(d.hash(), p.hash());
    let q = ChessBoard::from_str(START_FEN.to_string());
    assert_eq!(d.hash(), q.hash());
}

#[test]
fn reenumeration_gives_the_same_moves() {
    let board = ChessBoard::parse(AFTER_E4).unwrap();
    let first = board.legal_moves();
    let second = board.legal_moves();
    assert_eq!(first.len(), second.len());
    let a: HashSet<ChessMoveWrapper> = first.into_iter().collect();
    let b: HashSet<ChessMoveWrapper> = second.into_iter().collect();
    assert_eq!(a, b);
}

#[test]
fn king_pawn_two_squares_then_twenty_replies() {
    let start = ChessBoard::default();
    let target = ChessBoard::parse(AFTER_E4).unwrap();
    let e4 = successor_matching(&start, &target).expect("e2-e4 is legal");
    let after = start.make_move(e4);
    assert_ne!(after.hash(), start.hash());
    assert_eq!(after.hash(), target.hash());
    assert_eq!(after.legal_moves().len(), 20);
}

#[test]
fn enumerated_moves_are_valid() {
    for m in ChessBoard::default().legal_moves() {
        assert!(m.is_valid());
    }
}

#[test]
fn parse_refuses_malformed_text() {
    let r = ChessBoard::parse("not a position");
    assert_eq!(
        r,
        Err(ParseError {
            fen: "not a position".to_string()
        })
    );
}

#[test]
fn parse_refuses_board_without_kings() {
    let text = "8/8/8/8/8/8/8/8 w - - 0 1";
    assert_eq!(
        ChessBoard::parse(text),
        Err(ParseError {
            fen: text.to_string()
        })
    );
}

#[test]
fn parse_refuses_side_to_move_without_king() {
    let text = "4k3/8/8/8/8/8/8/8 w - - 0 1";
    assert!(ChessBoard::parse(text).is_err());
}

#[test]
fn parse_refuses_two_white_kings() {
    let text = "4k3/8/8/8/8/8/8/K3K3 w - - 0 1";
    assert!(ChessBoard::parse(text).is_err());
}

#[test]
fn parse_accepts_bare_kings() {
    let p = ChessBoard::parse("4k3/8/8/8/8/8/8/4K3 w - - 0 1").unwrap();
    assert!(p.is_valid());
    assert_eq!(p.legal_moves().len(), 5);
}

#[test]
fn parse_refuses_more_than_sixteen_pieces_of_a_color() {
    let text = "k7/8/8/NNNNNNNN/8/NNNNNNNN/8/NNNNNNNK w - - 0 1";
    assert_eq!(
        ChessBoard::parse(text),
        Err(ParseError {
            fen: text.to_string()
        })
    );
}

#[test]
fn is_valid_reports_too_many_pieces() {
    let board: chess::Board = "k7/8/8/NNNNNNNN/8/NNNNNNNN/8/NNNNNNNK w - - 0 1"
        .parse()
        .expect("the engine accepts the board");
    assert!(board.is_sane());
    assert!(!ChessBoard { board }.is_valid());
}

#[test]
fn parse_accepts_sixteen_pieces_of_a_color() {
    let p = ChessBoard::parse("k7/8/8/8/8/8/NNNNNNNN/NNNNNNNK w - - 0 1").unwrap();
    assert!(p.is_valid());
    assert!(!p.legal_moves().is_empty());
}

#[test]
fn enumerated_moves_are_distinct() {
    let moves = ChessBoard::default().legal_moves();
    let set: HashSet<ChessMoveWrapper> = moves.iter().copied().collect();
    assert_eq!(set.len(), moves.len());
}

#[test]
fn parse_reads_the_given_position() {
    let p = ChessBoard::parse(AFTER_E4).unwrap();
    assert!(p.is_valid());
    assert_ne!(p, ChessBoard::default());
    assert_ne!(p.hash(), ChessBoard::default().hash());
    assert_eq!(p.legal_moves().len(), 20);
}

#[test]
#[allow(deprecated)]
fn is_valid_reports_two_white_kings() {
    let board = chess::Board::default()
        .set_piece(chess::Piece::King, chess::Color::White, chess::Square::A4)
        .expect("no check is given");
    let two_kings = ChessBoard { board };
    assert!(!two_kings.is_valid());
}

#[test]
fn checkmated_position_has_no_moves() {
    let mate = "rnb1kbnr/pppp1ppp/8/4p3/6Pq/5P2/PPPPP2P/RNBQKBNR w KQkq - 1 3";
    let p = ChessBoard::parse(mate).unwrap();
    assert!(p.legal_moves().is_empty());
}
