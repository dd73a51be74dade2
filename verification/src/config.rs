//! The trainer's configuration, passed explicitly to the parts that need
//! it; window geometry and theming stay with the host.
use vstd::prelude::*;

verus! {

use crate::lang::Language;

/// Whether the board follows a puzzle or free analysis.
#[derive(Debug, Clone, Copy, PartialEq, Eq, Structural)]
pub enum GameMode {
    Puzzle,
    Analysis,
}

/// The settings the core consults.
#[derive(Debug, Clone)]
pub struct OfflinePuzzlesConfig {
    pub engine_path: Option<String>,
    pub engine_limit: String,
    pub puzzle_db_location: String,
    pub search_results_limit: usize,
    pub play_sound: bool,
    pub auto_load_next: bool,
    pub flip_board: bool,
    pub show_coordinates: bool,
    pub lang: Language,
    pub export_pgs: i32,
    pub last_min_rating: i32,
    pub last_max_rating: i32,
    pub last_min_popularity: i32,
}

impl Default for OfflinePuzzlesConfig {
    /// The settings used when none are stored.
    fn default() -> (r: Self)
        ensures
            r.engine_path matches Some(p) && p@ == "/usr/games/stockfish"@,
            r.engine_limit@ == "depth 40"@,
            r.puzzle_db_location@ == "lichess_db_puzzle.csv"@,
            r.search_results_limit == 200000,
            r.play_sound == true,
            r.auto_load_next == false,
            r.flip_board == false,
            r.show_coordinates == false,
            r.lang == Language::English,
            r.export_pgs == 50,
            r.last_min_rating == 1250,
            r.last_max_rating == 1750,
            r.last_min_popularity == 0,
    {
        Self {
            engine_path: Some("/usr/games/stockfish".to_owned()),
            engine_limit: "depth 40".to_owned(),
            puzzle_db_location: "lichess_db_puzzle.csv".to_owned(),
            search_results_limit: 200000,
            play_sound: true,
            auto_load_next: false,
            flip_board: false,
            show_coordinates: false,
            lang: Language::English,
            export_pgs: 50,
            last_min_rating: 1250,
            last_max_rating: 1750,
            last_min_popularity: 0,
        }
    }
}

} // verus!
