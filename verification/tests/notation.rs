//! The notation codec on concrete positions: castling tokens, en-passant
//! marking, disambiguation by file and by rank, promotion and the check
//! and mate markers.
use std::str::FromStr;

use offline_chess_puzzles::board::{PieceKind, Sq};
use offline_chess_puzzles::lang::Language;
use offline_chess_puzzles::notation::{coord_to_san, get_notation_string};

fn board(fen: &str) -> chess::Board {
    chess::Board::from_str(fen).unwrap()
}

fn sq(file: u8, rank: u8) -> Sq {
    Sq { file, rank }
}

#[test]
fn kingside_castling_token() {
    let b = chess::Board::default();
    let san = coord_to_san(&b, "e1g1".to_string(), &Language::English);
    assert_eq!(san.unwrap(), "0-0");
}

#[test]
fn kingside_castling_ignores_rest_of_board() {
    let b = board("4k3/8/8/8/8/8/8/4K2R w K - 0 1");
    let san = coord_to_san(&b, "e1g1".to_string(), &Language::French);
    assert_eq!(san.unwrap(), "0-0");
}

#[test]
fn queenside_castling_token_for_black() {
    let b = board("r3k3/8/8/8/8/8/8/4K3 b q - 0 1");
    let san = coord_to_san(&b, "e8c8".to_string(), &Language::English);
    assert_eq!(san.unwrap(), "0-0-0");
}

#[test]
fn empty_origin_square_gives_nothing() {
    let b = chess::Board::default();
    assert!(coord_to_san(&b, "e4e5".to_string(), &Language::English).is_none());
}

#[test]
fn unambiguous_knight_move_stays_unqualified() {
    let b = chess::Board::default();
    let san = coord_to_san(&b, "g1f3".to_string(), &Language::English);
    assert_eq!(san.unwrap(), "Nf3");
}

#[test]
fn ambiguous_knights_get_file_qualification() {
    let b = board("7k/8/8/8/2N3N1/8/8/4K3 w - - 0 1");
    let san = coord_to_san(&b, "c4e5".to_string(), &Language::English);
    assert_eq!(san.unwrap(), "Nce5");
}

#[test]
fn rooks_on_one_file_get_rank_qualification() {
    let b = board("7k/8/8/R7/8/8/8/R3K3 w - - 0 1");
    let san = coord_to_san(&b, "a1a3".to_string(), &Language::English);
    assert_eq!(san.unwrap(), "R1a3");
}

#[test]
fn en_passant_capture_carries_marker() {
    let b = board("rnbqkbnr/ppp1p1pp/8/3pPp2/8/8/PPPP1PPP/RNBQKBNR w KQkq f6 0 3");
    let san = coord_to_san(&b, "e5f6".to_string(), &Language::English);
    assert_eq!(san.unwrap(), "exf6 e.p.");
}

#[test]
fn promotion_push_renders_with_equals_and_check() {
    let b = board("4k3/P7/8/8/8/8/8/4K3 w - - 0 1");
    let san = coord_to_san(&b, "a7a8q".to_string(), &Language::English);
    assert_eq!(san.unwrap(), "a8=Q+");
}

#[test]
fn mate_gets_its_marker() {
    let b = board("rnbqkbnr/pppp1ppp/8/4p3/6P1/5P2/PPPPP2P/RNBQKBNR b KQkq g3 0 2");
    let san = coord_to_san(&b, "d8h4".to_string(), &Language::English);
    assert_eq!(san.unwrap(), "Qh4#");
}

#[test]
fn plain_pawn_push_is_bare_destination() {
    let b = chess::Board::default();
    let san = coord_to_san(&b, "e2e4".to_string(), &Language::English);
    assert_eq!(san.unwrap(), "e4");
}

#[test]
fn spanish_knight_uses_its_initial() {
    let b = chess::Board::default();
    let san = coord_to_san(&b, "g1f3".to_string(), &Language::Spanish);
    assert_eq!(san.unwrap(), "Cf3");
}

#[test]
fn dutch_knight_uses_its_initial() {
    let b = chess::Board::default();
    let san = coord_to_san(&b, "b1c3".to_string(), &Language::Dutch);
    assert_eq!(san.unwrap(), "Pc3");
}

#[test]
fn rank_qualified_move_keeps_its_check_marker() {
    // both rooks reach d4 and share a file, so the rank disambiguates;
    // the arrival gives check along the fourth rank
    let b = board("7K/8/3R4/8/7k/8/3R4/8 w - - 0 1");
    let san = coord_to_san(&b, "d2d4".to_string(), &Language::English);
    assert_eq!(san.unwrap(), "R2d4+");
}

#[test]
fn pawn_push_keeps_its_check_marker() {
    let b = board("8/8/8/3k4/8/4P3/8/4K3 w - - 0 1");
    let san = coord_to_san(&b, "e3e4".to_string(), &Language::English);
    assert_eq!(san.unwrap(), "e4+");
}

#[test]
fn promotion_capture_renders_with_both_markers() {
    let b = board("3r3k/4P3/8/8/8/8/8/4K3 w - - 0 1");
    let san = coord_to_san(&b, "e7d8q".to_string(), &Language::English);
    assert_eq!(san.unwrap(), "exd8=Q+");
}

#[test]
fn ambiguous_capture_gets_file_qualification() {
    let b = board("7k/8/8/4p3/2N3N1/8/8/4K3 w - - 0 1");
    let san = coord_to_san(&b, "c4e5".to_string(), &Language::English);
    assert_eq!(san.unwrap(), "Ncxe5");
}

#[test]
fn notation_string_is_plain_for_ordinary_moves() {
    let b = chess::Board::default();
    let text = get_notation_string(&b, PieceKind::Queen, sq(4, 1), sq(4, 3));
    assert_eq!(text, "e2e4");
}

#[test]
fn notation_string_adds_promotion_letter() {
    let b = board("4k3/P7/8/8/8/8/8/4K3 w - - 0 1");
    let text = get_notation_string(&b, PieceKind::Rook, sq(0, 6), sq(0, 7));
    assert_eq!(text, "a7a8r");
    let text = get_notation_string(&b, PieceKind::King, sq(0, 6), sq(0, 7));
    assert_eq!(text, "a7a8q");
}
