//! The puzzle session state machine: loading, move checking, the mating
//! shortcut on the final ply, navigation bounds, and the FEN shown for a
//! loaded puzzle.
use offline_chess_puzzles::board::{PieceKind, Sq};
use offline_chess_puzzles::config::OfflinePuzzlesConfig;
use offline_chess_puzzles::puzzles::{GameStatus, Puzzle};
use offline_chess_puzzles::session::{GameSession, SessionEvent};

fn sq(file: u8, rank: u8) -> Sq {
    Sq { file, rank }
}

fn puzzle(id: &str, fen: &str, moves: &str) -> Puzzle {
    Puzzle {
        puzzle_id: id.to_string(),
        fen: fen.to_string(),
        moves: moves.to_string(),
        rating: 1500,
        rating_deviation: 50,
        popularity: 100,
        nb_plays: 10,
        themes: "mate".to_string(),
        game_url: String::new(),
        opening: String::new(),
    }
}

fn queen_endgame_puzzle() -> Puzzle {
    puzzle("one", "6k1/p7/8/8/8/8/5PPP/3Q2K1 w - - 0 1", "d1d8 g8g7 d8d7")
}

fn mate_puzzle() -> Puzzle {
    puzzle("two", "7k/p7/6Q1/8/8/8/8/6RK b - - 0 1", "a7a6 g6g7")
}

#[test]
fn load_applies_setup_move_and_opens_play() {
    let cfg = OfflinePuzzlesConfig::default();
    let mut s = GameSession::new(&cfg);
    s.load_puzzles(Some(vec![queen_endgame_puzzle()]), false);
    assert!(matches!(s.puzzle_tab.game_status, GameStatus::Playing));
    assert_eq!(s.puzzle_tab.current_puzzle_move, 1);
    assert_eq!(s.puzzle_tab.current_puzzle, 0);
}

#[test]
fn correct_move_advances_and_plays_reply() {
    let cfg = OfflinePuzzlesConfig::default();
    let mut s = GameSession::new(&cfg);
    s.load_puzzles(Some(vec![queen_endgame_puzzle(), mate_puzzle()]), false);
    // the player answers the setup check with the king move of the solution
    s.verify_and_make_move(sq(6, 7), sq(6, 6), PieceKind::Queen);
    assert_eq!(s.puzzle_tab.current_puzzle_move, 3);
    assert!(matches!(s.puzzle_tab.game_status, GameStatus::PuzzleEnded));
}

#[test]
fn solving_the_last_puzzle_exhausts_the_set() {
    let cfg = OfflinePuzzlesConfig::default();
    let mut s = GameSession::new(&cfg);
    s.load_puzzles(Some(vec![queen_endgame_puzzle()]), false);
    s.verify_and_make_move(sq(6, 7), sq(6, 6), PieceKind::Queen);
    // the set is exhausted whatever auto-advance says
    assert!(matches!(s.puzzle_tab.game_status, GameStatus::NoPuzzles));
    assert_eq!(s.puzzle_tab.current_puzzle_move, 1);
    assert!(s.last_move_from.is_none());
    assert!(s.last_move_to.is_none());
}

#[test]
fn solving_the_last_puzzle_exhausts_the_set_with_auto_advance() {
    let mut cfg = OfflinePuzzlesConfig::default();
    cfg.auto_load_next = true;
    let mut s = GameSession::new(&cfg);
    s.load_puzzles(Some(vec![queen_endgame_puzzle()]), false);
    s.verify_and_make_move(sq(6, 7), sq(6, 6), PieceKind::Queen);
    assert!(matches!(s.puzzle_tab.game_status, GameStatus::NoPuzzles));
    assert_eq!(s.puzzle_tab.current_puzzle_move, 1);
}

#[test]
fn auto_advance_loads_the_next_puzzle() {
    let mut cfg = OfflinePuzzlesConfig::default();
    cfg.auto_load_next = true;
    let mut s = GameSession::new(&cfg);
    s.load_puzzles(Some(vec![queen_endgame_puzzle(), mate_puzzle()]), false);
    s.verify_and_make_move(sq(6, 7), sq(6, 6), PieceKind::Queen);
    assert!(matches!(s.puzzle_tab.game_status, GameStatus::Playing));
    assert_eq!(s.puzzle_tab.current_puzzle, 1);
    assert_eq!(s.puzzle_tab.current_puzzle_move, 1);
}

#[test]
fn wrong_move_changes_nothing_but_the_message() {
    let cfg = OfflinePuzzlesConfig::default();
    let mut s = GameSession::new(&cfg);
    s.load_puzzles(Some(vec![queen_endgame_puzzle()]), false);
    let fen_before = s.puzzle_tab.current_puzzle_fen.clone();
    // a legal pawn move that is not the solution and mates nobody
    s.verify_and_make_move(sq(0, 6), sq(0, 5), PieceKind::Queen);
    assert_eq!(s.puzzle_tab.current_puzzle_move, 1);
    assert!(matches!(s.puzzle_tab.game_status, GameStatus::Playing));
    assert_eq!(s.puzzle_tab.current_puzzle_fen, fen_before);
}

#[test]
fn any_mating_move_completes_the_final_ply() {
    let cfg = OfflinePuzzlesConfig::default();
    let mut s = GameSession::new(&cfg);
    s.load_puzzles(Some(vec![mate_puzzle(), queen_endgame_puzzle()]), false);
    // the canonical solution mates with the queen next to the king; this
    // mates along the edge instead, and must still count
    s.verify_and_make_move(sq(6, 5), sq(7, 5), PieceKind::Queen);
    assert_eq!(s.puzzle_tab.current_puzzle_move, 2);
    assert!(matches!(s.puzzle_tab.game_status, GameStatus::PuzzleEnded));
}

#[test]
fn previous_puzzle_at_index_zero_is_a_no_op() {
    let cfg = OfflinePuzzlesConfig::default();
    let mut s = GameSession::new(&cfg);
    s.load_puzzles(Some(vec![queen_endgame_puzzle(), mate_puzzle()]), false);
    s.show_previous_puzzle();
    assert_eq!(s.puzzle_tab.current_puzzle, 0);
    assert!(matches!(s.puzzle_tab.game_status, GameStatus::Playing));
    assert_eq!(s.puzzle_tab.current_puzzle_move, 1);
}

#[test]
fn next_then_previous_returns_to_the_first_puzzle() {
    let cfg = OfflinePuzzlesConfig::default();
    let mut s = GameSession::new(&cfg);
    s.load_puzzles(Some(vec![queen_endgame_puzzle(), mate_puzzle()]), false);
    s.show_next_puzzle();
    assert_eq!(s.puzzle_tab.current_puzzle, 1);
    assert_eq!(s.puzzle_number_ui, "2");
    s.show_previous_puzzle();
    assert_eq!(s.puzzle_tab.current_puzzle, 0);
    assert_eq!(s.puzzle_number_ui, "1");
}

#[test]
fn next_puzzle_at_the_end_is_a_no_op() {
    let cfg = OfflinePuzzlesConfig::default();
    let mut s = GameSession::new(&cfg);
    s.load_puzzles(Some(vec![queen_endgame_puzzle()]), false);
    s.show_next_puzzle();
    assert_eq!(s.puzzle_tab.current_puzzle, 0);
}

#[test]
fn jump_out_of_range_reloads_the_current_puzzle() {
    let cfg = OfflinePuzzlesConfig::default();
    let mut s = GameSession::new(&cfg);
    s.load_puzzles(Some(vec![queen_endgame_puzzle(), mate_puzzle()]), false);
    s.puzzle_input_change("3".to_string());
    s.jump_to_puzzle();
    assert_eq!(s.puzzle_tab.current_puzzle, 0);
    assert!(matches!(s.puzzle_tab.game_status, GameStatus::Playing));
    s.puzzle_input_change("0".to_string());
    s.jump_to_puzzle();
    assert_eq!(s.puzzle_tab.current_puzzle, 0);
    s.puzzle_input_change("not a number".to_string());
    s.jump_to_puzzle();
    assert_eq!(s.puzzle_tab.current_puzzle, 0);
}

#[test]
fn jump_in_range_loads_that_puzzle() {
    let cfg = OfflinePuzzlesConfig::default();
    let mut s = GameSession::new(&cfg);
    s.load_puzzles(Some(vec![queen_endgame_puzzle(), mate_puzzle()]), false);
    s.puzzle_input_change("2".to_string());
    s.jump_to_puzzle();
    assert_eq!(s.puzzle_tab.current_puzzle, 1);
    assert!(matches!(s.puzzle_tab.game_status, GameStatus::Playing));
}

#[test]
fn loaded_fen_shows_the_position_after_the_setup_move() {
    let cfg = OfflinePuzzlesConfig::default();
    let mut s = GameSession::new(&cfg);
    // the double pawn push can be captured en passant, so the shown FEN
    // must name the square behind the pawn
    let start = "rnbqkbnr/ppp1pppp/8/8/3p4/8/PPPPPPPP/RNBQKBNR w KQkq - 0 2";
    s.load_puzzles(Some(vec![puzzle("ep", start, "e2e4 d4e3")]), false);
    assert_eq!(
        s.puzzle_tab.current_puzzle_fen,
        "rnbqkbnr/ppp1pppp/8/8/3pP3/8/PPPP1PPP/RNBQKBNR b KQkq e3 0 1"
    );
}

#[test]
fn empty_search_result_reports_no_puzzles() {
    let cfg = OfflinePuzzlesConfig::default();
    let mut s = GameSession::new(&cfg);
    s.load_puzzles(Some(Vec::new()), false);
    assert!(matches!(s.puzzle_tab.game_status, GameStatus::NoPuzzles));
    s.load_puzzles(None, true);
    assert!(matches!(s.puzzle_tab.game_status, GameStatus::NoPuzzles));
}

#[test]
fn shuffling_keeps_exactly_the_same_puzzles() {
    let cfg = OfflinePuzzlesConfig::default();
    let mut s = GameSession::new(&cfg);
    let mut list = Vec::new();
    for i in 0..20 {
        list.push(puzzle(&format!("p{}", i), "6k1/p7/8/8/8/8/5PPP/3Q2K1 w - - 0 1", "d1d8 g8g7 d8d7"));
    }
    s.load_puzzles(Some(list), true);
    assert_eq!(s.puzzle_tab.puzzles.len(), 20);
    let mut ids: Vec<String> = s.puzzle_tab.puzzles.iter().map(|p| p.puzzle_id.clone()).collect();
    ids.sort();
    let mut expected: Vec<String> = (0..20).map(|i| format!("p{}", i)).collect();
    expected.sort();
    assert_eq!(ids, expected);
}

#[test]
fn redo_restores_the_puzzle_start() {
    let cfg = OfflinePuzzlesConfig::default();
    let mut s = GameSession::new(&cfg);
    s.load_puzzles(Some(vec![mate_puzzle(), queen_endgame_puzzle()]), false);
    s.verify_and_make_move(sq(6, 5), sq(7, 5), PieceKind::Queen);
    assert!(matches!(s.puzzle_tab.game_status, GameStatus::PuzzleEnded));
    s.redo_puzzle();
    assert!(matches!(s.puzzle_tab.game_status, GameStatus::Playing));
    assert_eq!(s.puzzle_tab.current_puzzle_move, 1);
}

#[test]
fn hint_points_at_the_next_solution_move() {
    let cfg = OfflinePuzzlesConfig::default();
    let mut s = GameSession::new(&cfg);
    s.load_puzzles(Some(vec![queen_endgame_puzzle()]), false);
    s.show_hint();
    // the expected move is g8g7, so the hint marks g8
    assert_eq!(s.hint_square, Some(sq(6, 7)));
}

#[test]
fn update_dispatches_square_clicks_into_a_move() {
    let cfg = OfflinePuzzlesConfig::default();
    let mut s = GameSession::new(&cfg);
    s.update(
        SessionEvent::LoadPuzzle(Some(vec![queen_endgame_puzzle(), mate_puzzle()]), false),
        PieceKind::Queen,
    );
    // first click selects the king, second click plays the solution move
    s.update(SessionEvent::SelectSquare(sq(6, 7)), PieceKind::Queen);
    assert_eq!(s.from_square, Some(sq(6, 7)));
    s.update(SessionEvent::SelectSquare(sq(6, 6)), PieceKind::Queen);
    assert_eq!(s.puzzle_tab.current_puzzle_move, 3);
    assert!(matches!(s.puzzle_tab.game_status, GameStatus::PuzzleEnded));
}

#[test]
fn update_dispatches_navigation_and_input() {
    let cfg = OfflinePuzzlesConfig::default();
    let mut s = GameSession::new(&cfg);
    s.update(
        SessionEvent::LoadPuzzle(Some(vec![queen_endgame_puzzle(), mate_puzzle()]), false),
        PieceKind::Queen,
    );
    s.update(SessionEvent::PuzzleInputIndexChange("2".to_string()), PieceKind::Queen);
    s.update(SessionEvent::JumpToPuzzle, PieceKind::Queen);
    assert_eq!(s.puzzle_tab.current_puzzle, 1);
    s.update(SessionEvent::ShowPreviousPuzzle, PieceKind::Queen);
    assert_eq!(s.puzzle_tab.current_puzzle, 0);
    s.update(SessionEvent::ShowHint, PieceKind::Queen);
    assert_eq!(s.hint_square, Some(sq(6, 7)));
}

#[test]
fn own_piece_click_moves_the_selection() {
    let cfg = OfflinePuzzlesConfig::default();
    let mut s = GameSession::new(&cfg);
    s.load_puzzles(Some(vec![queen_endgame_puzzle()]), false);
    // black to move: selecting the black king works
    s.select_square(sq(6, 7));
    assert_eq!(s.from_square, Some(sq(6, 7)));
    // a move to an own-piece square only reselects
    s.verify_and_make_move(sq(6, 7), sq(0, 6), PieceKind::Queen);
    assert_eq!(s.from_square, Some(sq(0, 6)));
}
