//! The engine session: lifecycle transitions, evaluation parsing, and the
//! FEN fixup sent with each position.
use offline_chess_puzzles::board::san_correct_ep;
use offline_chess_puzzles::board::{PieceKind, Sq};
use offline_chess_puzzles::config::{GameMode, OfflinePuzzlesConfig};
use offline_chess_puzzles::engine::{EngineCommand, EngineStatus};
use offline_chess_puzzles::session::GameSession;

fn sq(file: u8, rank: u8) -> Sq {
    Sq { file, rank }
}

#[test]
fn start_with_missing_executable_stays_off() {
    let cfg = OfflinePuzzlesConfig::default();
    let mut s = GameSession::new(&cfg);
    let cmd = s.start_engine(false);
    assert!(cmd.is_none());
    assert!(matches!(s.engine.status, EngineStatus::TurnedOff));
}

#[test]
fn start_with_existing_executable_runs_and_seeds_position() {
    let cfg = OfflinePuzzlesConfig::default();
    let mut s = GameSession::new(&cfg);
    let cmd = s.start_engine(true);
    assert!(cmd.is_none());
    assert!(matches!(s.engine.status, EngineStatus::Started));
    assert_eq!(s.engine.position, "rnbqkbnr/pppppppp/8/8/8/8/PPPPPPPP/RNBQKBNR w KQkq - 0 1");
}

#[test]
fn stopping_a_running_engine_sends_the_stop_command() {
    let cfg = OfflinePuzzlesConfig::default();
    let mut s = GameSession::new(&cfg);
    s.start_engine(true);
    s.engine.engine_ready();
    let cmd = s.start_engine(true);
    assert!(matches!(cmd, Some(EngineCommand::Stop)));
    assert!(!s.engine.has_channel);
    s.engine.engine_stopped(false);
    assert!(matches!(s.engine.status, EngineStatus::TurnedOff));
    assert_eq!(s.engine.engine_eval, "");
    assert_eq!(s.engine.engine_move, "");
}

#[test]
fn analysis_move_reports_the_corrected_position() {
    let cfg = OfflinePuzzlesConfig::default();
    let mut s = GameSession::new(&cfg);
    s.select_mode(GameMode::Analysis);
    s.start_engine(true);
    s.engine.engine_ready();
    let cmd = s.verify_and_make_move(sq(4, 1), sq(4, 3), PieceKind::Queen);
    match cmd {
        Some(EngineCommand::SetPosition(fen)) => {
            assert_eq!(fen, "rnbqkbnr/pppppppp/8/8/4P3/8/PPPP1PPP/RNBQKBNR b KQkq - 0 1");
        },
        other => panic!("expected a position update, got {:?}", other),
    }
}

#[test]
fn mate_distance_renders_for_the_side_to_move() {
    let cfg = OfflinePuzzlesConfig::default();
    let mut s = GameSession::new(&cfg);
    s.select_mode(GameMode::Analysis);
    s.engine.status = EngineStatus::Started;
    s.engine.update_eval(&s.analysis, &s.lang, Some("mate 3".to_string()), None);
    assert_eq!(s.engine.engine_eval, "Mate in 3");
    s.engine.update_eval(&s.analysis, &s.lang, Some("mate -2".to_string()), None);
    assert_eq!(s.engine.engine_eval, "Mate in 2");
}

#[test]
fn mate_now_clears_the_best_move() {
    let cfg = OfflinePuzzlesConfig::default();
    let mut s = GameSession::new(&cfg);
    s.select_mode(GameMode::Analysis);
    s.engine.status = EngineStatus::Started;
    s.engine.update_eval(&s.analysis, &s.lang, None, Some("g1f3".to_string()));
    assert_eq!(s.engine.engine_move, "Nf3");
    s.engine.update_eval(&s.analysis, &s.lang, Some("mate 0".to_string()), None);
    assert_eq!(s.engine.engine_eval, "Mate");
    assert_eq!(s.engine.engine_move, "");
}

#[test]
fn numeric_score_is_flipped_when_black_moves() {
    let cfg = OfflinePuzzlesConfig::default();
    let mut s = GameSession::new(&cfg);
    s.select_mode(GameMode::Analysis);
    s.verify_and_make_move(sq(4, 1), sq(4, 3), PieceKind::Queen);
    s.engine.status = EngineStatus::Started;
    s.engine.update_eval(&s.analysis, &s.lang, Some("0.35".to_string()), None);
    assert_eq!(s.engine.engine_eval, "-0.35");
    s.engine.update_eval(&s.analysis, &s.lang, Some("-1.20".to_string()), None);
    assert_eq!(s.engine.engine_eval, "1.20");
}

#[test]
fn numeric_score_is_kept_when_white_moves() {
    let cfg = OfflinePuzzlesConfig::default();
    let mut s = GameSession::new(&cfg);
    s.select_mode(GameMode::Analysis);
    s.engine.status = EngineStatus::Started;
    s.engine.update_eval(&s.analysis, &s.lang, Some("0.35".to_string()), None);
    assert_eq!(s.engine.engine_eval, "0.35");
}

#[test]
fn best_move_goes_through_the_notation_codec() {
    let cfg = OfflinePuzzlesConfig::default();
    let mut s = GameSession::new(&cfg);
    s.select_mode(GameMode::Analysis);
    s.verify_and_make_move(sq(4, 1), sq(4, 3), PieceKind::Queen);
    s.engine.status = EngineStatus::Started;
    s.engine.update_eval(&s.analysis, &s.lang, None, Some("g8f6".to_string()));
    assert_eq!(s.engine.engine_move, "Nf6");
}

#[test]
fn eval_events_are_ignored_while_the_engine_is_off() {
    let cfg = OfflinePuzzlesConfig::default();
    let mut s = GameSession::new(&cfg);
    s.engine.update_eval(&s.analysis, &s.lang, Some("mate 1".to_string()), None);
    assert_eq!(s.engine.engine_eval, "");
}

#[test]
fn takeback_restores_the_previous_analysis_position() {
    let cfg = OfflinePuzzlesConfig::default();
    let mut s = GameSession::new(&cfg);
    s.select_mode(GameMode::Analysis);
    s.verify_and_make_move(sq(4, 1), sq(4, 3), PieceKind::Queen);
    assert_eq!(s.analysis_history.len(), 2);
    s.engine.engine_ready();
    let cmd = s.go_back_move();
    assert_eq!(s.analysis_history.len(), 1);
    match cmd {
        Some(EngineCommand::SetPosition(fen)) => {
            assert_eq!(fen, "rnbqkbnr/pppppppp/8/8/8/8/PPPPPPPP/RNBQKBNR w KQkq - 0 1");
        },
        other => panic!("expected a position update, got {:?}", other),
    }
}

#[test]
fn ep_square_is_rewritten_behind_the_pawn() {
    assert_eq!(san_correct_ep("a b c d5 0 1".to_string()), "a b c d6 0 1");
    assert_eq!(san_correct_ep("a b c e4 0 1".to_string()), "a b c e3 0 1");
    assert_eq!(san_correct_ep("a b c - 0 1".to_string()), "a b c - 0 1");
}
