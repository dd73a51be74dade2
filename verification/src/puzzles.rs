//! Puzzle records and the puzzle tab state, with the helpers that read
//! coordinate move text from a puzzle's solution.
use vstd::prelude::*;
use rand::seq::SliceRandom;

verus! {

use crate::board::{CoordMove, PieceKind, SideColor, Sq};
use crate::lang::Language;
use crate::notation::{sq_of, wf_coords};

/// One tactics puzzle, as the data source supplies it: a starting position,
/// a whitespace-delimited solution whose first move is the opponent's setup
/// move, and its catalogue data.
#[derive(Debug, Clone, Default)]
pub struct Puzzle {
    pub puzzle_id: String,
    pub fen: String,
    pub moves: String,
    pub rating: i32,
    pub rating_deviation: i32,
    pub popularity: i32,
    pub nb_plays: i32,
    pub themes: String,
    pub game_url: String,
    pub opening: String,
}

/// What the puzzle tab asks the host to do.
#[derive(Debug, Clone)]
pub enum PuzzleMessage {
    ChangeTextInputs(String),
    CopyText(String),
    OpenLink(String),
    TakeScreenshot,
    ExportToPDF,
}

/// The effect the host performs for a puzzle tab message.
#[derive(Debug, Clone)]
pub enum PuzzleAction {
    DoNothing,
    CopyToClipboard(String),
    OpenLink(String),
    TakeScreenshot,
    ExportToPDF,
}

/// Status of the puzzle session.
#[derive(Debug, Clone, Copy, Eq, PartialEq, Structural)]
pub enum GameStatus {
    Playing,
    PuzzleEnded,
    NoPuzzles,
}

/// The puzzle tab: the loaded puzzle list, the place the player has reached
/// in it, and what the tab shows of the current puzzle.
#[derive(Debug, Clone)]
pub struct PuzzleTab {
    pub puzzles: Vec<Puzzle>,
    pub current_puzzle: usize,
    pub current_puzzle_move: usize,
    pub current_puzzle_side: SideColor,
    pub game_status: GameStatus,
    pub current_puzzle_fen: String,
    pub lang: Language,
}

/// The promotion a coordinate move's fifth character asks for: a recognized
/// letter of either case names its piece, any other character the queen,
/// and a four-character move none.
pub open spec fn check_promotion_spec(s: Seq<char>) -> Option<PieceKind> {
    if s.len() <= 4 {
        None
    } else if s[4] == 'r' || s[4] == 'R' {
        Some(PieceKind::Rook)
    } else if s[4] == 'n' || s[4] == 'N' {
        Some(PieceKind::Knight)
    } else if s[4] == 'b' || s[4] == 'B' {
        Some(PieceKind::Bishop)
    } else {
        Some(PieceKind::Queen)
    }
}

/// The structured move a piece of coordinate text denotes, if it is well
/// formed.
pub open spec fn parse_coord_spec(s: Seq<char>) -> Option<CoordMove> {
    if wf_coords(s) {
        Some(
            CoordMove {
                from: sq_of(s[0], s[1]),
                to: sq_of(s[2], s[3]),
                promotion: check_promotion_spec(s),
            },
        )
    } else {
        None
    }
}

/// Read a coordinate move out of its text form.
pub fn parse_coord_move(s: &str) -> (r: Option<CoordMove>)
    ensures
        r == parse_coord_spec(s@),
        r matches Some(m) ==> m.wf(),
{
    let n = s.unicode_len();
    if n != 4 && n != 5 {
        return None;
    }
    let c0 = s.get_char(0);
    let c1 = s.get_char(1);
    let c2 = s.get_char(2);
    let c3 = s.get_char(3);
    if !(c0 >= 'a' && c0 <= 'h' && c1 >= '1' && c1 <= '8' && c2 >= 'a' && c2 <= 'h' && c3 >= '1'
        && c3 <= '8') {
        return None;
    }
    let promotion = PuzzleTab::check_promotion(s);
    Some(
        CoordMove {
            from: Sq { file: (c0 as u32 - 'a' as u32) as u8, rank: (c1 as u32 - '1' as u32) as u8 },
            to: Sq { file: (c2 as u32 - 'a' as u32) as u8, rank: (c3 as u32 - '1' as u32) as u8 },
            promotion,
        },
    )
}

/// Relies on `SliceRandom::shuffle` in the `rand` crate: permutes the
/// slice in place by swaps, keeping exactly the same elements.
#[verifier::external_body]
pub(crate) fn shuffle_puzzles(v: &mut Vec<Puzzle>)
    ensures
        final(v)@.to_multiset() == old(v)@.to_multiset(),
        final(v)@.len() == old(v)@.len(),
{
    v.shuffle(&mut rand::rng());
}

impl PuzzleTab {
    /// An empty tab: no puzzles yet, the ply index at the player's first
    /// move, English display.
    pub fn new() -> (r: Self)
        ensures
            r.puzzles@.len() == 0,
            r.current_puzzle == 0,
            r.current_puzzle_move == 1,
            r.current_puzzle_side == SideColor::White,
            r.game_status == GameStatus::NoPuzzles,
            r.current_puzzle_fen@.len() == 0,
            r.lang == Language::English,
    {
        PuzzleTab {
            puzzles: Vec::new(),
            current_puzzle: 0,
            current_puzzle_move: 1,
            current_puzzle_side: SideColor::White,
            game_status: GameStatus::NoPuzzles,
            current_puzzle_fen: String::new(),
            lang: Language::English,
        }
    }

    /// Decide what the host should do for a tab message: copying, opening a
    /// link, a screenshot and the export are outside work, text edits need
    /// nothing.
    pub fn update(&self, message: PuzzleMessage) -> (r: PuzzleAction)
        ensures
            match message {
                PuzzleMessage::ChangeTextInputs(_) => r is DoNothing,
                PuzzleMessage::CopyText(t) => r matches PuzzleAction::CopyToClipboard(u) && t == u,
                PuzzleMessage::OpenLink(t) => r matches PuzzleAction::OpenLink(u) && t == u,
                PuzzleMessage::TakeScreenshot => r is TakeScreenshot,
                PuzzleMessage::ExportToPDF => r is ExportToPDF,
            },
    {
        match message {
            PuzzleMessage::ChangeTextInputs(_) => PuzzleAction::DoNothing,
            PuzzleMessage::CopyText(text) => PuzzleAction::CopyToClipboard(text),
            PuzzleMessage::OpenLink(link) => PuzzleAction::OpenLink(link),
            PuzzleMessage::TakeScreenshot => PuzzleAction::TakeScreenshot,
            PuzzleMessage::ExportToPDF => PuzzleAction::ExportToPDF,
        }
    }

    /// Read the promotion piece named by a coordinate move's fifth
    /// character, if there is one.
    pub fn check_promotion(notation: &str) -> (r: Option<PieceKind>)
        ensures
            r == check_promotion_spec(notation@),
    {
        let n = notation.unicode_len();
        if n > 4 {
            let c = notation.get_char(4);
            if c == 'r' || c == 'R' {
                Some(PieceKind::Rook)
            } else if c == 'n' || c == 'N' {
                Some(PieceKind::Knight)
            } else if c == 'b' || c == 'B' {
                Some(PieceKind::Bishop)
            } else {
                Some(PieceKind::Queen)
            }
        } else {
            None
        }
    }
}

} // verus!
