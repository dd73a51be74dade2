//! The puzzle session state machine: it owns the board, checks a player's
//! moves against the current puzzle's solution, advances through the
//! puzzle list, and drives the analysis board and the engine session.
use vstd::prelude::*;

verus! {

use crate::board::{
    applied, board_apply, board_clone, board_color_on, board_fen, board_from_fen, board_is_legal,
    board_piece_on, board_side_to_move, board_start, board_status, color_at, ep_fixed, fen_of,
    is_legal, parsed_fen, san_correct_ep, side_to_move_of, start_fen, status_of,
    BoardState, CoordMove, PieceKind, SideColor, Sq,
};
use crate::config::{GameMode, OfflinePuzzlesConfig};
use crate::engine::{EngineCommand, EngineSession, EngineStatus};
use crate::lang::{tr, tr_spec, Language};
use crate::notation::is_promotion_push;
use crate::puzzles::{
    parse_coord_move, parse_coord_spec, shuffle_puzzles, GameStatus, Puzzle, PuzzleTab,
};
use crate::strutil::{all_digits, dec_str, dec_val, parse_usize, split_sp, split_spaces,
    usize_to_string};

/// The session: the puzzle board and the analysis board with its history,
/// the squares the display highlights, the status line, and the puzzle tab
/// and engine session it owns.
pub struct GameSession {
    pub board: chess::Board,
    pub analysis: chess::Board,
    pub analysis_history: Vec<chess::Board>,
    pub from_square: Option<Sq>,
    pub last_move_from: Option<Sq>,
    pub last_move_to: Option<Sq>,
    pub hint_square: Option<Sq>,
    pub puzzle_status: String,
    pub puzzle_number_ui: String,
    pub game_mode: GameMode,
    pub puzzle_tab: PuzzleTab,
    pub engine: EngineSession,
    pub lang: Language,
    pub auto_load_next: bool,
}

/// The session events the host loop feeds in; everything that touches a
/// window, a file or the process itself stays with the host.
pub enum SessionEvent {
    SelectSquare(Sq),
    SelectMode(GameMode),
    ShowHint,
    ShowNextPuzzle,
    ShowPreviousPuzzle,
    GoBackMove,
    RedoPuzzle,
    LoadPuzzle(Option<Vec<Puzzle>>, bool),
    JumpToPuzzle,
    PuzzleInputIndexChange(String),
    StartEngine(bool),
    EngineStopped(bool),
    EngineReady,
    UpdateEval(Option<String>, Option<String>),
}

/// The solution tokens of a puzzle.
pub open spec fn moves_of(p: Puzzle) -> Seq<Seq<char>> {
    split_sp(p.moves@)
}

/// The setup move a puzzle opens with.
pub open spec fn setup_move(p: Puzzle) -> CoordMove {
    parse_coord_spec(moves_of(p)[0]).unwrap()
}

/// A puzzle that can be loaded: its position parses, its setup move is
/// well formed and legal there, and at least one solution ply follows.
pub open spec fn load_ok(p: Puzzle) -> bool {
    &&& parsed_fen(p.fen@) is Some
    &&& parse_coord_spec(moves_of(p)[0]) is Some
    &&& moves_of(p).len() >= 2
    &&& is_legal(parsed_fen(p.fen@).unwrap(), setup_move(p))
}

/// The board a puzzle shows once its setup move is applied.
pub open spec fn loaded_board(p: Puzzle) -> chess::Board {
    applied(parsed_fen(p.fen@).unwrap(), setup_move(p))
}

impl GameSession {
    /// The ply index starts at one and, while a puzzle is being played,
    /// both indices point into the loaded data.
    pub open spec fn wf(self) -> bool {
        &&& self.puzzle_tab.current_puzzle_move >= 1
        &&& self.puzzle_tab.game_status == GameStatus::Playing ==> {
            &&& self.puzzle_tab.current_puzzle < self.puzzle_tab.puzzles@.len()
            &&& self.puzzle_tab.current_puzzle_move < moves_of(
                self.puzzle_tab.puzzles@[self.puzzle_tab.current_puzzle as int],
            ).len()
        }
    }

    /// The fields that puzzle navigation and move checking never touch.
    pub open spec fn puzzle_frame(pre: GameSession, post: GameSession) -> bool {
        &&& post.analysis == pre.analysis
        &&& post.engine == pre.engine
        &&& post.lang == pre.lang
        &&& post.auto_load_next == pre.auto_load_next
        &&& post.puzzle_tab.puzzles == pre.puzzle_tab.puzzles
        &&& post.puzzle_tab.lang == pre.puzzle_tab.lang
    }

    /// What loading the puzzle at `cp` of `list` leaves on the board side
    /// of the session: the setup move applied and play open, or, where the
    /// data cannot be used, the start position and `NoPuzzles`.
    pub open spec fn load_result(
        list: Seq<Puzzle>,
        lang: Language,
        post: GameSession,
        cp: int,
    ) -> bool {
        &&& post.hint_square is None
        &&& post.game_mode == GameMode::Puzzle
        &&& post.puzzle_tab.current_puzzle == cp
        &&& if 0 <= cp < list.len() && load_ok(list[cp]) {
            let b1 = loaded_board(list[cp]);
            &&& post.board == b1
            &&& post.analysis_history@ =~= seq![b1]
            &&& post.last_move_from == Some(setup_move(list[cp]).from)
            &&& post.last_move_to == Some(setup_move(list[cp]).to)
            &&& post.puzzle_tab.current_puzzle_move == 1
            &&& post.puzzle_tab.current_puzzle_side == side_to_move_of(b1)
            &&& post.puzzle_tab.game_status == GameStatus::Playing
            &&& post.puzzle_tab.current_puzzle_fen@ == ep_fixed(fen_of(b1))
            &&& post.puzzle_status@ == tr_spec(
                lang,
                if side_to_move_of(b1) == SideColor::White {
                    "white_to_move"@
                } else {
                    "black_to_move"@
                },
            )
        } else {
            &&& Some(post.board) == parsed_fen(start_fen())
            &&& post.analysis_history@ =~= seq![post.board]
            &&& post.last_move_from is None
            &&& post.last_move_to is None
            &&& post.puzzle_tab.current_puzzle_move == 1
            &&& post.puzzle_tab.current_puzzle_side == SideColor::White
            &&& post.puzzle_tab.game_status == GameStatus::NoPuzzles
            &&& post.puzzle_tab.current_puzzle_fen@ =~= Seq::<char>::empty()
            &&& post.puzzle_status@ == tr_spec(lang, "no_puzzle_found"@)
        }
    }

    /// A fresh session on the starting position, configured but without
    /// puzzles.
    pub fn new(config: &OfflinePuzzlesConfig) -> (r: GameSession)
        ensures
            r.wf(),
            Some(r.board) == parsed_fen(start_fen()),
            r.analysis == r.board,
            r.analysis_history@ =~= seq![r.board],
            r.from_square is None,
            r.last_move_from is None,
            r.last_move_to is None,
            r.hint_square is None,
            r.puzzle_status@ == tr_spec(config.lang, "use_search"@),
            r.puzzle_number_ui@ == "1"@,
            r.game_mode == GameMode::Puzzle,
            r.puzzle_tab.puzzles@.len() == 0,
            r.puzzle_tab.current_puzzle == 0,
            r.puzzle_tab.current_puzzle_move == 1,
            r.puzzle_tab.game_status == GameStatus::NoPuzzles,
            r.puzzle_tab.lang == config.lang,
            r.engine.engine_path == config.engine_path,
            r.engine.engine_limit == config.engine_limit,
            r.engine.position@ == start_fen(),
            r.engine.status == EngineStatus::TurnedOff,
            r.engine.has_channel == false,
            r.lang == config.lang,
            r.auto_load_next == config.auto_load_next,
    {
        let board = board_start();
        let analysis = board_clone(&board);
        let mut history: Vec<chess::Board> = Vec::new();
        history.push(board_clone(&board));
        let mut tab = PuzzleTab::new();
        tab.lang = config.lang;
        GameSession {
            board,
            analysis,
            analysis_history: history,
            from_square: None,
            last_move_from: None,
            last_move_to: None,
            hint_square: None,
            puzzle_status: tr(&config.lang, "use_search"),
            puzzle_number_ui: "1".to_owned(),
            game_mode: GameMode::Puzzle,
            puzzle_tab: tab,
            engine: EngineSession::new(
                match &config.engine_path {
                    Some(p) => Some(p.clone()),
                    None => None,
                },
                config.engine_limit.clone(),
                "rnbqkbnr/pppppppp/8/8/8/8/PPPPPPPP/RNBQKBNR w KQkq - 0 1".to_owned(),
            ),
            lang: config.lang,
            auto_load_next: config.auto_load_next,
        }
    }

    /// Step the puzzle counter forward, and its display text with it.
    pub fn inc_puzzle_counter(&mut self)
        requires
            old(self).puzzle_tab.current_puzzle + 1 < old(self).puzzle_tab.puzzles@.len(),
        ensures
            final(self).puzzle_tab.current_puzzle == old(self).puzzle_tab.current_puzzle + 1,
            final(self).puzzle_number_ui@ == dec_str(old(self).puzzle_tab.current_puzzle + 2),
            final(self).puzzle_tab == (PuzzleTab {
                current_puzzle: final(self).puzzle_tab.current_puzzle,
                ..old(self).puzzle_tab
            }),
            *final(self) == (GameSession {
                puzzle_tab: final(self).puzzle_tab,
                puzzle_number_ui: final(self).puzzle_number_ui,
                ..*old(self)
            }),
    {
        let n = self.puzzle_tab.puzzles.len();
        assert(self.puzzle_tab.current_puzzle + 1 < n);
        self.puzzle_tab.current_puzzle = self.puzzle_tab.current_puzzle + 1;
        self.puzzle_number_ui = usize_to_string(self.puzzle_tab.current_puzzle + 1);
    }

    /// Step the puzzle counter back, and its display text with it.
    pub fn dec_puzzle_counter(&mut self)
        requires
            old(self).puzzle_tab.current_puzzle >= 1,
        ensures
            final(self).puzzle_tab.current_puzzle == old(self).puzzle_tab.current_puzzle - 1,
            final(self).puzzle_number_ui@ == dec_str(old(self).puzzle_tab.current_puzzle as int),
            final(self).puzzle_tab == (PuzzleTab {
                current_puzzle: final(self).puzzle_tab.current_puzzle,
                ..old(self).puzzle_tab
            }),
            *final(self) == (GameSession {
                puzzle_tab: final(self).puzzle_tab,
                puzzle_number_ui: final(self).puzzle_number_ui,
                ..*old(self)
            }),
    {
        self.puzzle_tab.current_puzzle = self.puzzle_tab.current_puzzle - 1;
        self.puzzle_number_ui = usize_to_string(self.puzzle_tab.current_puzzle + 1);
    }

    /// Load the puzzle the counter points at: apply its setup move to its
    /// starting position and open play at ply one. Unusable data falls
    /// back to an empty board with `NoPuzzles`.
    pub fn load_puzzle(&mut self, inc_counter: bool)
        requires
            inc_counter ==> old(self).puzzle_tab.current_puzzle + 1 < old(
                self,
            ).puzzle_tab.puzzles@.len(),
        ensures
            final(self).wf(),
            GameSession::load_result(
                old(self).puzzle_tab.puzzles@,
                old(self).lang,
                *final(self),
                if inc_counter {
                    old(self).puzzle_tab.current_puzzle + 1
                } else {
                    old(self).puzzle_tab.current_puzzle as int
                },
            ),
            GameSession::puzzle_frame(*old(self), *final(self)),
            final(self).from_square == old(self).from_square,
            inc_counter ==> final(self).puzzle_number_ui@ == dec_str(
                old(self).puzzle_tab.current_puzzle + 2,
            ),
            !inc_counter ==> final(self).puzzle_number_ui == old(self).puzzle_number_ui,
    {
        self.hint_square = None;
        self.puzzle_tab.current_puzzle_move = 1;
        if inc_counter {
            self.inc_puzzle_counter();
        }
        let cp = self.puzzle_tab.current_puzzle;
        let mut usable = false;
        if cp < self.puzzle_tab.puzzles.len() {
            let fen = self.puzzle_tab.puzzles[cp].fen.clone();
            let moves = self.puzzle_tab.puzzles[cp].moves.clone();
            let toks = split_spaces(moves.as_str());
            match board_from_fen(fen.as_str()) {
                None => {},
                Some(b0) => {
                    match parse_coord_move(toks[0].as_str()) {
                        None => {},
                        Some(m0) => {
                            if toks.len() >= 2 && board_is_legal(&b0, m0) {
                                usable = true;
                                let b1 = board_apply(&b0, m0);
                                self.board = b1;
                                self.analysis_history = Vec::new();
                                self.analysis_history.push(board_clone(&self.board));
                                self.last_move_from = Some(m0.from);
                                self.last_move_to = Some(m0.to);
                                let side = board_side_to_move(&self.board);
                                self.puzzle_tab.current_puzzle_side = side;
                                let f = board_fen(&self.board);
                                self.puzzle_tab.current_puzzle_fen = san_correct_ep(f);
                                self.puzzle_tab.game_status = GameStatus::Playing;
                                self.puzzle_status = if matches!(side, SideColor::White) {
                                    tr(&self.lang, "white_to_move")
                                } else {
                                    tr(&self.lang, "black_to_move")
                                };
                                self.game_mode = GameMode::Puzzle;
                            }
                        },
                    }
                },
            }
        }
        if !usable {
            self.board = board_start();
            self.analysis_history = Vec::new();
            self.analysis_history.push(board_clone(&self.board));
            self.last_move_from = None;
            self.last_move_to = None;
            self.puzzle_tab.current_puzzle_side = SideColor::White;
            self.puzzle_tab.current_puzzle_fen = String::new();
            self.puzzle_tab.game_status = GameStatus::NoPuzzles;
            self.puzzle_status = tr(&self.lang, "no_puzzle_found");
            self.game_mode = GameMode::Puzzle;
        }
    }

    /// Go to the next puzzle, if there is one.
    pub fn show_next_puzzle(&mut self)
        ensures
            old(self).puzzle_tab.current_puzzle + 1 < old(self).puzzle_tab.puzzles@.len() ==> {
                &&& final(self).wf()
                &&& GameSession::load_result(
                    old(self).puzzle_tab.puzzles@,
                    old(self).lang,
                    *final(self),
                    old(self).puzzle_tab.current_puzzle + 1,
                )
                &&& GameSession::puzzle_frame(*old(self), *final(self))
                &&& final(self).puzzle_number_ui@ == dec_str(
                    old(self).puzzle_tab.current_puzzle + 2,
                )
            },
            final(self).from_square == old(self).from_square,
            !(old(self).puzzle_tab.current_puzzle + 1 < old(self).puzzle_tab.puzzles@.len())
                ==> *final(self) == *old(self),
            old(self).wf() && !(old(self).puzzle_tab.current_puzzle + 1 < old(
                self,
            ).puzzle_tab.puzzles@.len()) ==> final(self).wf(),
    {
        let n = self.puzzle_tab.puzzles.len();
        if n > 0 && self.puzzle_tab.current_puzzle < n - 1 {
            self.load_puzzle(true);
        }
    }

    /// Go back to the previous puzzle; at the first one, or outside puzzle
    /// mode, nothing happens.
    pub fn show_previous_puzzle(&mut self)
        ensures
            old(self).puzzle_tab.current_puzzle > 0 && old(self).game_mode == GameMode::Puzzle
                ==> {
                &&& final(self).wf()
                &&& GameSession::load_result(
                    old(self).puzzle_tab.puzzles@,
                    old(self).lang,
                    *final(self),
                    old(self).puzzle_tab.current_puzzle - 1,
                )
                &&& GameSession::puzzle_frame(*old(self), *final(self))
                &&& final(self).puzzle_number_ui@ == dec_str(
                    old(self).puzzle_tab.current_puzzle as int,
                )
            },
            final(self).from_square == old(self).from_square,
            !(old(self).puzzle_tab.current_puzzle > 0 && old(self).game_mode == GameMode::Puzzle)
                ==> *final(self) == *old(self),
    {
        if self.puzzle_tab.current_puzzle > 0 && matches!(self.game_mode, GameMode::Puzzle) {
            self.dec_puzzle_counter();
            self.load_puzzle(false);
        }
    }

    /// Reload the current puzzle from its start.
    pub fn redo_puzzle(&mut self)
        ensures
            final(self).wf(),
            GameSession::load_result(
                old(self).puzzle_tab.puzzles@,
                old(self).lang,
                *final(self),
                old(self).puzzle_tab.current_puzzle as int,
            ),
            GameSession::puzzle_frame(*old(self), *final(self)),
            final(self).puzzle_number_ui == old(self).puzzle_number_ui,
            final(self).from_square == old(self).from_square,
    {
        self.load_puzzle(false);
    }

    /// The list index that the typed puzzle number names, counted from
    /// one; anything unreadable or out of range keeps the current index.
    pub open spec fn jump_target(pre: GameSession) -> int {
        let ui = pre.puzzle_number_ui@;
        if ui.len() > 0 && all_digits(ui) && 1 <= dec_val(ui) <= pre.puzzle_tab.puzzles@.len() {
            dec_val(ui) - 1
        } else {
            pre.puzzle_tab.current_puzzle as int
        }
    }

    /// Jump to the puzzle number typed into the pagination box, reloading
    /// the current puzzle when the input is out of range.
    pub fn jump_to_puzzle(&mut self)
        ensures
            final(self).wf(),
            GameSession::load_result(
                old(self).puzzle_tab.puzzles@,
                old(self).lang,
                *final(self),
                GameSession::jump_target(*old(self)),
            ),
            GameSession::puzzle_frame(*old(self), *final(self)),
            final(self).puzzle_number_ui == old(self).puzzle_number_ui,
            final(self).from_square == old(self).from_square,
    {
        let n = self.puzzle_tab.puzzles.len();
        match parse_usize(self.puzzle_number_ui.as_str()) {
            Some(index) => {
                if index > 0 && index <= n {
                    self.puzzle_tab.current_puzzle = index - 1;
                }
            },
            None => {},
        }
        self.load_puzzle(false);
    }

    /// Record what the pagination box holds.
    pub fn puzzle_input_change(&mut self, text: String)
        ensures
            *final(self) == (GameSession { puzzle_number_ui: text, ..*old(self) }),
    {
        self.puzzle_number_ui = text;
    }

    /// The square a hint points at: the origin of the next solution move.
    pub open spec fn hint_spec(pre: GameSession) -> Option<Sq> {
        let tab = pre.puzzle_tab;
        if tab.current_puzzle < tab.puzzles@.len() {
            let toks = moves_of(tab.puzzles@[tab.current_puzzle as int]);
            if toks.len() > tab.current_puzzle_move {
                match parse_coord_spec(toks[tab.current_puzzle_move as int]) {
                    Some(m) => Some(m.from),
                    None => None,
                }
            } else {
                None
            }
        } else {
            None
        }
    }

    /// The promotion pieces a pawn can really become; anything else is
    /// read as a queen.
    pub open spec fn normalize_promo(p: PieceKind) -> PieceKind {
        match p {
            PieceKind::Rook => PieceKind::Rook,
            PieceKind::Knight => PieceKind::Knight,
            PieceKind::Bishop => PieceKind::Bishop,
            _ => PieceKind::Queen,
        }
    }

    /// The move a click from `from` to `to` proposes: the chosen promotion
    /// piece is attached when a pawn reaches its last rank.
    pub open spec fn candidate_move(b: chess::Board, promo: PieceKind, from: Sq, to: Sq) -> CoordMove {
        CoordMove {
            from,
            to,
            promotion: if is_promotion_push(b, from, to) {
                Some(GameSession::normalize_promo(promo))
            } else {
                None
            },
        }
    }

    /// The board the current mode plays on.
    pub open spec fn mode_board(pre: GameSession) -> chess::Board {
        if pre.game_mode == GameMode::Analysis {
            pre.analysis
        } else {
            pre.board
        }
    }

    /// Clicking one's own piece replaces the selection instead of moving.
    pub open spec fn reselects(pre: GameSession, to: Sq) -> bool {
        pre.puzzle_tab.game_status == GameStatus::Playing && color_at(
            GameSession::mode_board(pre),
            to,
        ) == Some(side_to_move_of(GameSession::mode_board(pre)))
    }

    /// A candidate move is accepted when it matches the expected solution
    /// move, or when it is any legal move that delivers checkmate.
    pub open spec fn accepts(b: chess::Board, mv: CoordMove, correct: Option<CoordMove>) -> bool {
        (is_legal(b, mv) && status_of(applied(b, mv)) == BoardState::Checkmate) || (correct == Some(
            mv,
        ) && is_legal(b, mv))
    }

    /// What finishing the current puzzle leaves behind: the next puzzle
    /// when auto-advance is on and one remains, the solved position under
    /// `PuzzleEnded` otherwise, and after the last puzzle the exhausted
    /// set's terminal state — the bare start position under `NoPuzzles` —
    /// whatever auto-advance says.
    pub open spec fn solved_post(
        pre: GameSession,
        post: GameSession,
        b_end: chess::Board,
        hist: Seq<chess::Board>,
        cm_end: int,
        lmf: Option<Sq>,
        lmt: Option<Sq>,
    ) -> bool {
        let cp = pre.puzzle_tab.current_puzzle as int;
        let len = pre.puzzle_tab.puzzles@.len() as int;
        &&& GameSession::puzzle_frame(pre, post)
        &&& post.from_square is None
        &&& if cp + 1 < len {
            if pre.auto_load_next {
                &&& GameSession::load_result(pre.puzzle_tab.puzzles@, pre.lang, post, cp + 1)
                &&& post.puzzle_number_ui@ == dec_str(cp + 2)
            } else {
                &&& post.board == b_end
                &&& post.analysis_history@ == hist
                &&& post.last_move_from == lmf
                &&& post.last_move_to == lmt
                &&& post.hint_square == pre.hint_square
                &&& post.game_mode == pre.game_mode
                &&& post.puzzle_number_ui == pre.puzzle_number_ui
                &&& post.puzzle_tab.current_puzzle == cp
                &&& post.puzzle_tab.current_puzzle_move == cm_end
                &&& post.puzzle_tab.current_puzzle_side == pre.puzzle_tab.current_puzzle_side
                &&& post.puzzle_tab.current_puzzle_fen == pre.puzzle_tab.current_puzzle_fen
                &&& post.puzzle_tab.game_status == GameStatus::PuzzleEnded
                &&& post.puzzle_status@ == tr_spec(pre.lang, "correct_puzzle"@)
            }
        } else {
            &&& post.last_move_from is None
            &&& post.last_move_to is None
            &&& post.puzzle_status@ == tr_spec(pre.lang, "all_puzzles_done"@)
            &&& post.hint_square == pre.hint_square
            &&& post.game_mode == pre.game_mode
            &&& post.puzzle_number_ui == pre.puzzle_number_ui
            &&& post.puzzle_tab.current_puzzle == cp
            &&& post.puzzle_tab.current_puzzle_side == pre.puzzle_tab.current_puzzle_side
            &&& post.puzzle_tab.current_puzzle_fen == pre.puzzle_tab.current_puzzle_fen
            &&& Some(post.board) == parsed_fen(start_fen())
            &&& post.analysis_history@ =~= seq![post.board]
            &&& post.puzzle_tab.current_puzzle_move == 1
            &&& post.puzzle_tab.game_status == GameStatus::NoPuzzles
        }
    }

    /// The puzzle ends quietly when the recorded opponent reply cannot be
    /// read or is not legal: a desync in the stored solution.
    pub open spec fn desync_post(
        pre: GameSession,
        post: GameSession,
        b1: chess::Board,
        h1: Seq<chess::Board>,
        cm1: int,
    ) -> bool {
        &&& GameSession::puzzle_frame(pre, post)
        &&& post.board == b1
        &&& post.analysis_history@ == h1
        &&& post.from_square is None
        &&& post.last_move_from == pre.last_move_from
        &&& post.last_move_to == pre.last_move_to
        &&& post.hint_square == pre.hint_square
        &&& post.game_mode == pre.game_mode
        &&& post.puzzle_number_ui == pre.puzzle_number_ui
        &&& post.puzzle_tab.current_puzzle == pre.puzzle_tab.current_puzzle
        &&& post.puzzle_tab.current_puzzle_move == cm1
        &&& post.puzzle_tab.current_puzzle_side == pre.puzzle_tab.current_puzzle_side
        &&& post.puzzle_tab.current_puzzle_fen == pre.puzzle_tab.current_puzzle_fen
        &&& post.puzzle_tab.game_status == GameStatus::PuzzleEnded
        &&& post.puzzle_status@ == tr_spec(pre.lang, "correct_puzzle"@)
    }

    /// One step of the puzzle state machine for an accepted or rejected
    /// candidate move.
    pub open spec fn puzzle_step(pre: GameSession, post: GameSession, mv: CoordMove) -> bool {
        let cp = pre.puzzle_tab.current_puzzle as int;
        let cm = pre.puzzle_tab.current_puzzle_move as int;
        let toks = moves_of(pre.puzzle_tab.puzzles@[cp]);
        let correct = parse_coord_spec(toks[cm]);
        if !GameSession::accepts(pre.board, mv, correct) {
            &&& post.puzzle_status@ == tr_spec(
                pre.lang,
                if side_to_move_of(pre.board) == SideColor::White {
                    "wrong_move_white_play"@
                } else {
                    "wrong_move_black_play"@
                },
            )
            &&& post == (GameSession {
                from_square: None,
                puzzle_status: post.puzzle_status,
                ..pre
            })
        } else {
            let b1 = applied(pre.board, mv);
            let h1 = pre.analysis_history@.push(b1);
            if cm + 1 == toks.len() {
                GameSession::solved_post(
                    pre,
                    post,
                    b1,
                    h1,
                    cm + 1,
                    pre.last_move_from,
                    pre.last_move_to,
                )
            } else {
                match parse_coord_spec(toks[cm + 1]) {
                    Some(reply) => if is_legal(b1, reply) {
                        let b2 = applied(b1, reply);
                        let h2 = h1.push(b2);
                        if cm + 2 == toks.len() {
                            GameSession::solved_post(
                                pre,
                                post,
                                b2,
                                h2,
                                cm + 2,
                                Some(reply.from),
                                Some(reply.to),
                            )
                        } else {
                            &&& GameSession::puzzle_frame(pre, post)
                            &&& post.board == b2
                            &&& post.analysis_history@ == h2
                            &&& post.from_square is None
                            &&& post.last_move_from == Some(reply.from)
                            &&& post.last_move_to == Some(reply.to)
                            &&& post.hint_square == pre.hint_square
                            &&& post.game_mode == pre.game_mode
                            &&& post.puzzle_number_ui == pre.puzzle_number_ui
                            &&& post.puzzle_tab.current_puzzle == cp
                            &&& post.puzzle_tab.current_puzzle_move == cm + 2
                            &&& post.puzzle_tab.current_puzzle_side
                                == pre.puzzle_tab.current_puzzle_side
                            &&& post.puzzle_tab.current_puzzle_fen
                                == pre.puzzle_tab.current_puzzle_fen
                            &&& post.puzzle_tab.game_status == GameStatus::Playing
                            &&& post.puzzle_status@ == tr_spec(pre.lang, "correct_move"@)
                        }
                    } else {
                        GameSession::desync_post(pre, post, b1, h1, cm + 1)
                    },
                    None => GameSession::desync_post(pre, post, b1, h1, cm + 1),
                }
            }
        }
    }

    /// Everything `verify_and_make_move` may do: replace the selection,
    /// play a legal move on the analysis board and report the position to
    /// the engine, or step the puzzle.
    pub open spec fn verify_post(
        pre: GameSession,
        post: GameSession,
        from: Sq,
        to: Sq,
        promo: PieceKind,
        cmd: Option<EngineCommand>,
    ) -> bool {
        if GameSession::reselects(pre, to) {
            &&& cmd is None
            &&& post == (GameSession { from_square: Some(to), ..pre })
        } else if pre.game_mode == GameMode::Analysis {
            let mv = GameSession::candidate_move(pre.analysis, promo, from, to);
            if is_legal(pre.analysis, mv) {
                let b1 = applied(pre.analysis, mv);
                &&& post.analysis == b1
                &&& post.analysis_history@ == pre.analysis_history@.push(b1)
                &&& post.engine.position@ == fen_of(b1)
                &&& post.engine == (EngineSession { position: post.engine.position, ..pre.engine })
                &&& post.from_square is None
                &&& match cmd {
                    Some(c) => pre.engine.has_channel && (c matches EngineCommand::SetPosition(t)
                        && t@ == ep_fixed(fen_of(b1))),
                    None => !pre.engine.has_channel,
                }
                &&& post.board == pre.board
                &&& post.last_move_from == pre.last_move_from
                &&& post.last_move_to == pre.last_move_to
                &&& post.hint_square == pre.hint_square
                &&& post.puzzle_status == pre.puzzle_status
                &&& post.puzzle_number_ui == pre.puzzle_number_ui
                &&& post.game_mode == pre.game_mode
                &&& post.puzzle_tab == pre.puzzle_tab
                &&& post.lang == pre.lang
                &&& post.auto_load_next == pre.auto_load_next
            } else {
                &&& cmd is None
                &&& post == (GameSession { from_square: None, ..pre })
            }
        } else {
            &&& cmd is None
            &&& if pre.puzzle_tab.puzzles@.len() == 0 || pre.puzzle_tab.game_status
                != GameStatus::Playing {
                post == (GameSession { from_square: None, ..pre })
            } else {
                GameSession::puzzle_step(
                    pre,
                    post,
                    GameSession::candidate_move(pre.board, promo, from, to),
                )
            }
        }
    }

    /// Check a proposed move and make it. Clicking one's own piece only
    /// moves the selection. In analysis mode any legal move is played and
    /// the new position goes to the engine. In puzzle mode the move must
    /// be the expected solution move, or any mating move; the opponent's
    /// recorded reply is then played back, and reaching the end of the
    /// solution finishes the puzzle.
    #[verifier::rlimit(100)]
    #[verifier::spinoff_prover]
    pub fn verify_and_make_move(&mut self, from: Sq, to: Sq, promo_piece: PieceKind) -> (cmd:
        Option<EngineCommand>)
        requires
            old(self).wf(),
            from.wf(),
            to.wf(),
        ensures
            final(self).wf(),
            GameSession::verify_post(*old(self), *final(self), from, to, promo_piece, cmd),
    {
        let on_analysis = matches!(self.game_mode, GameMode::Analysis);
        let side = if on_analysis {
            board_side_to_move(&self.analysis)
        } else {
            board_side_to_move(&self.board)
        };
        let color = if on_analysis {
            board_color_on(&self.analysis, to)
        } else {
            board_color_on(&self.board, to)
        };
        let own_piece = match color {
            Some(c) => c == side,
            None => false,
        };
        if matches!(self.puzzle_tab.game_status, GameStatus::Playing) && own_piece {
            self.from_square = Some(to);
            return None;
        }
        self.from_square = None;
        if on_analysis {
            let piece = board_piece_on(&self.analysis, from);
            let colorf = board_color_on(&self.analysis, from);
            let promotes = matches!(piece, Some(PieceKind::Pawn)) && (matches!(
                colorf,
                Some(SideColor::White),
            ) && to.rank == 7 || matches!(colorf, Some(SideColor::Black)) && to.rank == 0);
            let norm = match promo_piece {
                PieceKind::Rook => PieceKind::Rook,
                PieceKind::Knight => PieceKind::Knight,
                PieceKind::Bishop => PieceKind::Bishop,
                _ => PieceKind::Queen,
            };
            let mv = CoordMove {
                from,
                to,
                promotion: if promotes {
                    Some(norm)
                } else {
                    None
                },
            };
            assert(mv == GameSession::candidate_move(self.analysis, promo_piece, from, to));
            if board_is_legal(&self.analysis, mv) {
                let b1 = board_apply(&self.analysis, mv);
                self.analysis = b1;
                self.analysis_history.push(board_clone(&self.analysis));
                let f = board_fen(&self.analysis);
                self.engine.position = f.clone();
                if self.engine.has_channel {
                    return Some(EngineCommand::SetPosition(san_correct_ep(f)));
                }
            }
            return None;
        }
        if self.puzzle_tab.puzzles.len() == 0 || !matches!(
            self.puzzle_tab.game_status,
            GameStatus::Playing,
        ) {
            return None;
        }
        let piece = board_piece_on(&self.board, from);
        let colorf = board_color_on(&self.board, from);
        let promotes = matches!(piece, Some(PieceKind::Pawn)) && (matches!(
            colorf,
            Some(SideColor::White),
        ) && to.rank == 7 || matches!(colorf, Some(SideColor::Black)) && to.rank == 0);
        let norm = match promo_piece {
            PieceKind::Rook => PieceKind::Rook,
            PieceKind::Knight => PieceKind::Knight,
            PieceKind::Bishop => PieceKind::Bishop,
            _ => PieceKind::Queen,
        };
        let mv = CoordMove {
            from,
            to,
            promotion: if promotes {
                Some(norm)
            } else {
                None
            },
        };
        assert(mv == GameSession::candidate_move(self.board, promo_piece, from, to));
        let cp = self.puzzle_tab.current_puzzle;
        let cm = self.puzzle_tab.current_puzzle_move;
        let moves_string = self.puzzle_tab.puzzles[cp].moves.clone();
        let toks = split_spaces(moves_string.as_str());
        let legal = board_is_legal(&self.board, mv);
        let mut is_mate = false;
        if legal {
            let nb = board_apply(&self.board, mv);
            is_mate = matches!(board_status(&nb), BoardState::Checkmate);
        }
        let correct = parse_coord_move(toks[cm].as_str());
        let correct_match = match correct {
            Some(c) => c == mv,
            None => false,
        };
        if is_mate || (correct_match && legal) {
            let ntoks = toks.len();
            assert(cm < ntoks);
            let b1 = board_apply(&self.board, mv);
            self.board = b1;
            self.analysis_history.push(board_clone(&self.board));
            let cm1 = cm + 1;
            self.puzzle_tab.current_puzzle_move = cm1;
            if cm1 == toks.len() {
                self.complete_puzzle();
            } else {
                let reply = parse_coord_move(toks[cm1].as_str());
                let mut handled = false;
                if let Some(r) = reply {
                    if board_is_legal(&self.board, r) {
                        handled = true;
                        self.last_move_from = Some(r.from);
                        self.last_move_to = Some(r.to);
                        let b2 = board_apply(&self.board, r);
                        self.board = b2;
                        self.analysis_history.push(board_clone(&self.board));
                        let cm2 = cm1 + 1;
                        self.puzzle_tab.current_puzzle_move = cm2;
                        if cm2 == toks.len() {
                            self.complete_puzzle();
                        } else {
                            self.puzzle_status = tr(&self.lang, "correct_move");
                        }
                    }
                }
                if !handled {
                    self.puzzle_tab.game_status = GameStatus::PuzzleEnded;
                    self.puzzle_status = tr(&self.lang, "correct_puzzle");
                }
            }
        } else {
            self.puzzle_status = if matches!(board_side_to_move(&self.board), SideColor::White) {
                tr(&self.lang, "wrong_move_white_play")
            } else {
                tr(&self.lang, "wrong_move_black_play")
            };
        }
        None
    }

    /// The current puzzle is solved: advance, or close it out.
    fn complete_puzzle(&mut self)
        requires
            old(self).puzzle_tab.current_puzzle < old(self).puzzle_tab.puzzles@.len(),
            old(self).puzzle_tab.current_puzzle_move >= 1,
            old(self).from_square is None,
        ensures
            final(self).wf(),
            GameSession::solved_post(
                *old(self),
                *final(self),
                old(self).board,
                old(self).analysis_history@,
                old(self).puzzle_tab.current_puzzle_move as int,
                old(self).last_move_from,
                old(self).last_move_to,
            ),
    {
        let n = self.puzzle_tab.puzzles.len();
        if self.puzzle_tab.current_puzzle < n - 1 {
            if self.auto_load_next {
                self.load_puzzle(true);
            } else {
                self.puzzle_tab.game_status = GameStatus::PuzzleEnded;
                self.puzzle_status = tr(&self.lang, "correct_puzzle");
            }
        } else {
            self.board = board_start();
            self.analysis_history = Vec::new();
            self.analysis_history.push(board_clone(&self.board));
            self.puzzle_tab.current_puzzle_move = 1;
            self.puzzle_tab.game_status = GameStatus::NoPuzzles;
            self.last_move_from = None;
            self.last_move_to = None;
            self.puzzle_status = tr(&self.lang, "all_puzzles_done");
        }
    }

    /// What an empty or missing search result leaves: a bare board and
    /// `NoPuzzles`, the stale puzzle list kept.
    pub open spec fn no_puzzles_post(pre: GameSession, post: GameSession) -> bool {
        &&& GameSession::puzzle_frame(pre, post)
        &&& Some(post.board) == parsed_fen(start_fen())
        &&& post.from_square is None
        &&& post.last_move_from is None
        &&& post.last_move_to is None
        &&& post.hint_square == pre.hint_square
        &&& post.analysis_history == pre.analysis_history
        &&& post.puzzle_number_ui == pre.puzzle_number_ui
        &&& post.game_mode == GameMode::Puzzle
        &&& post.puzzle_tab.current_puzzle == pre.puzzle_tab.current_puzzle
        &&& post.puzzle_tab.current_puzzle_move == pre.puzzle_tab.current_puzzle_move
        &&& post.puzzle_tab.current_puzzle_side == pre.puzzle_tab.current_puzzle_side
        &&& post.puzzle_tab.current_puzzle_fen == pre.puzzle_tab.current_puzzle_fen
        &&& post.puzzle_tab.game_status == GameStatus::NoPuzzles
        &&& post.puzzle_status@ == tr_spec(pre.lang, "no_puzzle_found"@)
    }

    /// Take the result of a puzzle search: stop a running engine, replace
    /// the list (optionally shuffled) and open its first puzzle, or show
    /// that nothing was found.
    pub fn load_puzzles(&mut self, puzzles_vec: Option<Vec<Puzzle>>, shuffle: bool) -> (cmd:
        Option<EngineCommand>)
        requires
            old(self).wf(),
        ensures
            final(self).wf(),
            match cmd {
                Some(c) => c is Stop && old(self).engine.status != EngineStatus::TurnedOff && old(
                    self,
                ).engine.has_channel,
                None => !(old(self).engine.status != EngineStatus::TurnedOff && old(
                    self,
                ).engine.has_channel),
            },
            match puzzles_vec {
                Some(v) => if v@.len() > 0 {
                    &&& final(self).puzzle_tab.puzzles@.len() == v@.len()
                    &&& final(self).puzzle_tab.puzzles@.to_multiset() == v@.to_multiset()
                    &&& (!shuffle ==> final(self).puzzle_tab.puzzles@ == v@)
                    &&& GameSession::load_result(
                        final(self).puzzle_tab.puzzles@,
                        old(self).lang,
                        *final(self),
                        0,
                    )
                    &&& final(self).puzzle_number_ui@ == "1"@
                    &&& final(self).from_square is None
                    &&& final(self).analysis == old(self).analysis
                    &&& final(self).engine == old(self).engine
                    &&& final(self).lang == old(self).lang
                    &&& final(self).auto_load_next == old(self).auto_load_next
                    &&& final(self).puzzle_tab.lang == old(self).puzzle_tab.lang
                } else {
                    GameSession::no_puzzles_post(*old(self), *final(self))
                },
                None => GameSession::no_puzzles_post(*old(self), *final(self)),
            },
    {
        self.from_square = None;
        self.game_mode = GameMode::Puzzle;
        let cmd = if !matches!(self.engine.status, EngineStatus::TurnedOff)
            && self.engine.has_channel {
            Some(EngineCommand::Stop)
        } else {
            None
        };
        let mut found = false;
        match puzzles_vec {
            Some(mut v) => {
                if v.len() > 0 {
                    found = true;
                    if shuffle {
                        shuffle_puzzles(&mut v);
                    }
                    self.puzzle_tab.puzzles = v;
                    self.puzzle_tab.current_puzzle = 0;
                    self.puzzle_number_ui = "1".to_owned();
                    self.load_puzzle(false);
                }
            },
            None => {},
        }
        if !found {
            self.board = board_start();
            self.last_move_from = None;
            self.last_move_to = None;
            self.puzzle_tab.game_status = GameStatus::NoPuzzles;
            self.puzzle_status = tr(&self.lang, "no_puzzle_found");
        }
        cmd
    }

    /// A square click selects one's own piece for the next move.
    pub open spec fn selectable(pre: GameSession, pos: Sq) -> bool {
        (pre.puzzle_tab.game_status == GameStatus::Playing || pre.game_mode == GameMode::Analysis)
            && color_at(GameSession::mode_board(pre), pos) == Some(
            side_to_move_of(GameSession::mode_board(pre)),
        )
    }

    /// Select the clicked square when one's own piece stands on it.
    pub fn select_square(&mut self, pos: Sq)
        requires
            pos.wf(),
        ensures
            GameSession::selectable(*old(self), pos) ==> *final(self) == (GameSession {
                hint_square: None,
                from_square: Some(pos),
                ..*old(self)
            }),
            !GameSession::selectable(*old(self), pos) ==> *final(self) == *old(self),
    {
        let on_analysis = matches!(self.game_mode, GameMode::Analysis);
        let side = if on_analysis {
            board_side_to_move(&self.analysis)
        } else {
            board_side_to_move(&self.board)
        };
        let color = if on_analysis {
            board_color_on(&self.analysis, pos)
        } else {
            board_color_on(&self.board, pos)
        };
        let own_piece = match color {
            Some(c) => c == side,
            None => false,
        };
        if (matches!(self.puzzle_tab.game_status, GameStatus::Playing) || on_analysis)
            && own_piece {
            self.hint_square = None;
            self.from_square = Some(pos);
        }
    }

    /// Take back the last analysis move, telling the engine the restored
    /// position.
    pub fn go_back_move(&mut self) -> (cmd: Option<EngineCommand>)
        requires
            old(self).wf(),
        ensures
            final(self).wf(),
            old(self).game_mode == GameMode::Analysis && old(self).analysis_history@.len() > old(
                self,
            ).puzzle_tab.current_puzzle_move ==> {
                &&& final(self).analysis_history@ == old(self).analysis_history@.drop_last()
                &&& final(self).analysis == old(self).analysis_history@[old(
                    self,
                ).analysis_history@.len() - 2]
                &&& *final(self) == (GameSession {
                    analysis: final(self).analysis,
                    analysis_history: final(self).analysis_history,
                    ..*old(self)
                })
                &&& match cmd {
                    Some(c) => old(self).engine.has_channel && (c matches
                        EngineCommand::SetPosition(t) && t@ == ep_fixed(
                        fen_of(final(self).analysis),
                    )),
                    None => !old(self).engine.has_channel,
                }
            },
            !(old(self).game_mode == GameMode::Analysis && old(self).analysis_history@.len() > old(
                self,
            ).puzzle_tab.current_puzzle_move) ==> *final(self) == *old(self) && cmd is None,
    {
        if matches!(self.game_mode, GameMode::Analysis) && self.analysis_history.len()
            > self.puzzle_tab.current_puzzle_move {
            self.analysis_history.pop();
            let last_i = self.analysis_history.len() - 1;
            self.analysis = board_clone(&self.analysis_history[last_i]);
            assert(self.analysis_history@ =~= old(self).analysis_history@.drop_last());
            if self.engine.has_channel {
                let f = board_fen(&self.analysis);
                return Some(EngineCommand::SetPosition(san_correct_ep(f)));
            }
        }
        None
    }

    /// Switch between puzzle play and free analysis: entering analysis
    /// seeds it from the puzzle board; returning to the puzzle stops a
    /// running engine and trims the shared history back to the puzzle.
    pub fn select_mode(&mut self, mode: GameMode) -> (cmd: Option<EngineCommand>)
        requires
            old(self).wf(),
        ensures
            final(self).wf(),
            mode == GameMode::Analysis ==> cmd is None && final(self).analysis == old(self).board
                && *final(self) == (GameSession {
                game_mode: GameMode::Analysis,
                analysis: final(self).analysis,
                ..*old(self)
            }),
            mode == GameMode::Puzzle ==> {
                &&& final(self).analysis_history@ == if old(self).puzzle_tab.current_puzzle_move
                    <= old(self).analysis_history@.len() {
                    old(self).analysis_history@.subrange(
                        0,
                        old(self).puzzle_tab.current_puzzle_move as int,
                    )
                } else {
                    old(self).analysis_history@
                }
                &&& *final(self) == (GameSession {
                    game_mode: GameMode::Puzzle,
                    analysis_history: final(self).analysis_history,
                    ..*old(self)
                })
                &&& match cmd {
                    Some(c) => c is Stop && old(self).engine.status != EngineStatus::TurnedOff
                        && old(self).engine.has_channel,
                    None => !(old(self).engine.status != EngineStatus::TurnedOff && old(
                        self,
                    ).engine.has_channel),
                }
            },
    {
        self.game_mode = mode;
        match mode {
            GameMode::Analysis => {
                self.analysis = board_clone(&self.board);
                None
            },
            GameMode::Puzzle => {
                let cmd = if !matches!(self.engine.status, EngineStatus::TurnedOff)
                    && self.engine.has_channel {
                    Some(EngineCommand::Stop)
                } else {
                    None
                };
                self.analysis_history.truncate(self.puzzle_tab.current_puzzle_move);
                cmd
            },
        }
    }

    /// Toggle the engine: start it on the analysis position when it is
    /// off and its executable exists, stop it when it runs.
    pub fn start_engine(&mut self, path_exists: bool) -> (cmd: Option<EngineCommand>)
        ensures
            old(self).engine.status == EngineStatus::TurnedOff && !path_exists
                ==> *final(self) == *old(self) && cmd is None,
            old(self).engine.status == EngineStatus::TurnedOff && path_exists ==> {
                &&& cmd is None
                &&& final(self).engine.position@ == ep_fixed(fen_of(old(self).analysis))
                &&& final(self).engine.status == EngineStatus::Started
                &&& final(self).engine == (EngineSession {
                    position: final(self).engine.position,
                    status: EngineStatus::Started,
                    ..old(self).engine
                })
                &&& *final(self) == (GameSession { engine: final(self).engine, ..*old(self) })
            },
            old(self).engine.status == EngineStatus::Started ==> {
                &&& match cmd {
                    Some(c) => c is Stop && old(self).engine.has_channel && final(self).engine
                        == (EngineSession { has_channel: false, ..old(self).engine }),
                    None => !old(self).engine.has_channel && final(self).engine == old(self).engine,
                }
                &&& *final(self) == (GameSession { engine: final(self).engine, ..*old(self) })
            },
    {
        if matches!(self.engine.status, EngineStatus::TurnedOff) {
            if path_exists {
                let f = board_fen(&self.analysis);
                let started = self.engine.start(true, f);
            }
            None
        } else {
            self.engine.stop()
        }
    }

    /// Point the hint at the origin square of the expected move.
    pub fn show_hint(&mut self)
        ensures
            *final(self) == (GameSession {
                hint_square: GameSession::hint_spec(*old(self)),
                ..*old(self)
            }),
    {
        let tab = &self.puzzle_tab;
        let mut hint: Option<Sq> = None;
        if tab.current_puzzle < tab.puzzles.len() {
            let moves = tab.puzzles[tab.current_puzzle].moves.clone();
            let toks = split_spaces(moves.as_str());
            if toks.len() > tab.current_puzzle_move {
                hint = match parse_coord_move(toks[tab.current_puzzle_move].as_str()) {
                    Some(m) => Some(m.from),
                    None => None,
                };
            }
        }
        self.hint_square = hint;
    }

    /// Every square the display remembers lies on the board.
    pub open spec fn squares_ok(self) -> bool {
        self.from_square matches Some(s) ==> s.wf()
    }

    /// One turn of the session loop: dispatch a host event. A square click
    /// selects when nothing is selected, moves when another square is, and
    /// reselects when the same squares repeat; every other event goes to
    /// its own operation. The returned command, if any, is for the engine
    /// task.
    #[verifier::rlimit(100)]
    #[verifier::spinoff_prover]
    pub fn update(&mut self, event: SessionEvent, promo_piece: PieceKind) -> (cmd: Option<
        EngineCommand,
    >)
        requires
            old(self).wf(),
            old(self).squares_ok(),
            event matches SessionEvent::SelectSquare(p) ==> p.wf(),
        ensures
            final(self).wf(),
            final(self).squares_ok(),
            match event {
                SessionEvent::SelectSquare(pos) => match old(self).from_square {
                    None => cmd is None && (GameSession::selectable(*old(self), pos)
                        ==> *final(self) == (GameSession {
                        hint_square: None,
                        from_square: Some(pos),
                        ..*old(self)
                    })) && (!GameSession::selectable(*old(self), pos) ==> *final(self) == *old(
                        self,
                    )),
                    Some(f) => if f != pos {
                        GameSession::verify_post(*old(self), *final(self), f, pos, promo_piece, cmd)
                    } else {
                        cmd is None && *final(self) == (GameSession {
                            from_square: Some(pos),
                            ..*old(self)
                        })
                    },
                },
                SessionEvent::ShowHint => cmd is None && *final(self) == (GameSession {
                    hint_square: GameSession::hint_spec(*old(self)),
                    ..*old(self)
                }),
                SessionEvent::ShowNextPuzzle => {
                    &&& cmd is None
                    &&& old(self).puzzle_tab.current_puzzle + 1 < old(
                        self,
                    ).puzzle_tab.puzzles@.len() ==> GameSession::load_result(
                        old(self).puzzle_tab.puzzles@,
                        old(self).lang,
                        *final(self),
                        old(self).puzzle_tab.current_puzzle + 1,
                    ) && GameSession::puzzle_frame(*old(self), *final(self))
                    &&& !(old(self).puzzle_tab.current_puzzle + 1 < old(
                        self,
                    ).puzzle_tab.puzzles@.len()) ==> *final(self) == *old(self)
                },
                SessionEvent::ShowPreviousPuzzle => {
                    &&& cmd is None
                    &&& old(self).puzzle_tab.current_puzzle > 0 && old(self).game_mode
                        == GameMode::Puzzle ==> GameSession::load_result(
                        old(self).puzzle_tab.puzzles@,
                        old(self).lang,
                        *final(self),
                        old(self).puzzle_tab.current_puzzle - 1,
                    ) && GameSession::puzzle_frame(*old(self), *final(self))
                    &&& !(old(self).puzzle_tab.current_puzzle > 0 && old(self).game_mode
                        == GameMode::Puzzle) ==> *final(self) == *old(self)
                },
                SessionEvent::RedoPuzzle => cmd is None && GameSession::load_result(
                    old(self).puzzle_tab.puzzles@,
                    old(self).lang,
                    *final(self),
                    old(self).puzzle_tab.current_puzzle as int,
                ) && GameSession::puzzle_frame(*old(self), *final(self)),
                SessionEvent::JumpToPuzzle => cmd is None && GameSession::load_result(
                    old(self).puzzle_tab.puzzles@,
                    old(self).lang,
                    *final(self),
                    GameSession::jump_target(*old(self)),
                ) && GameSession::puzzle_frame(*old(self), *final(self)),
                SessionEvent::PuzzleInputIndexChange(text) => cmd is None && *final(self)
                    == (GameSession { puzzle_number_ui: text, ..*old(self) }),
                SessionEvent::EngineReady => cmd is None && final(self).engine == (EngineSession {
                    has_channel: true,
                    ..old(self).engine
                }) && *final(self) == (GameSession { engine: final(self).engine, ..*old(self) }),
                SessionEvent::EngineStopped(exit) => cmd is None && final(self).engine.status
                    == EngineStatus::TurnedOff && (!exit ==> final(self).engine.engine_eval@
                    =~= Seq::<char>::empty() && final(self).engine.engine_move@ =~= Seq::<
                    char,
                >::empty()) && *final(self) == (GameSession {
                    engine: final(self).engine,
                    ..*old(self)
                }),
                SessionEvent::UpdateEval(e, bm) => cmd is None && (old(self).engine.status
                    == EngineStatus::TurnedOff ==> *final(self) == *old(self)) && (old(
                    self,
                ).engine.status == EngineStatus::Started ==> crate::engine::update_eval_post(
                    old(self).engine,
                    final(self).engine,
                    old(self).analysis,
                    old(self).lang,
                    e,
                    bm,
                ) && *final(self) == (GameSession { engine: final(self).engine, ..*old(self) })),
                _ => true,
            },
            event matches SessionEvent::SelectMode(m) && m == GameMode::Analysis ==> cmd is None
                && final(self).analysis == old(self).board && *final(self) == (GameSession {
                game_mode: GameMode::Analysis,
                analysis: final(self).analysis,
                ..*old(self)
            }),
            event matches SessionEvent::StartEngine(path_exists) && old(self).engine.status
                == EngineStatus::TurnedOff && !path_exists ==> *final(self) == *old(self)
                && cmd is None,
            event matches SessionEvent::StartEngine(path_exists) && old(self).engine.status
                == EngineStatus::TurnedOff && path_exists ==> {
                &&& cmd is None
                &&& final(self).engine.status == EngineStatus::Started
                &&& final(self).engine.position@ == ep_fixed(fen_of(old(self).analysis))
            },
            event matches SessionEvent::LoadPuzzle(v, shuffle) && v is None ==>
                GameSession::no_puzzles_post(*old(self), *final(self)),
            match event {
                SessionEvent::LoadPuzzle(v, shuffle) => {
                    &&& match cmd {
                        Some(c) => c is Stop && old(self).engine.status != EngineStatus::TurnedOff
                            && old(self).engine.has_channel,
                        None => !(old(self).engine.status != EngineStatus::TurnedOff && old(
                            self,
                        ).engine.has_channel),
                    }
                    &&& match v {
                        Some(list) => if list@.len() > 0 {
                            &&& final(self).puzzle_tab.puzzles@.len() == list@.len()
                            &&& final(self).puzzle_tab.puzzles@.to_multiset() == list@.to_multiset()
                            &&& (!shuffle ==> final(self).puzzle_tab.puzzles@ == list@)
                            &&& GameSession::load_result(
                                final(self).puzzle_tab.puzzles@,
                                old(self).lang,
                                *final(self),
                                0,
                            )
                            &&& final(self).puzzle_number_ui@ == "1"@
                        } else {
                            GameSession::no_puzzles_post(*old(self), *final(self))
                        },
                        None => true,
                    }
                },
                _ => true,
            },
            event matches SessionEvent::SelectMode(m) && m == GameMode::Puzzle ==> {
                &&& final(self).analysis_history@ == if old(self).puzzle_tab.current_puzzle_move
                    <= old(self).analysis_history@.len() {
                    old(self).analysis_history@.subrange(
                        0,
                        old(self).puzzle_tab.current_puzzle_move as int,
                    )
                } else {
                    old(self).analysis_history@
                }
                &&& *final(self) == (GameSession {
                    game_mode: GameMode::Puzzle,
                    analysis_history: final(self).analysis_history,
                    ..*old(self)
                })
                &&& match cmd {
                    Some(c) => c is Stop && old(self).engine.status != EngineStatus::TurnedOff
                        && old(self).engine.has_channel,
                    None => !(old(self).engine.status != EngineStatus::TurnedOff && old(
                        self,
                    ).engine.has_channel),
                }
            },
            event is GoBackMove && old(self).game_mode == GameMode::Analysis && old(
                self,
            ).analysis_history@.len() > old(self).puzzle_tab.current_puzzle_move ==> {
                &&& final(self).analysis_history@ == old(self).analysis_history@.drop_last()
                &&& final(self).analysis == old(self).analysis_history@[old(
                    self,
                ).analysis_history@.len() - 2]
                &&& *final(self) == (GameSession {
                    analysis: final(self).analysis,
                    analysis_history: final(self).analysis_history,
                    ..*old(self)
                })
            },
            event is GoBackMove && !(old(self).game_mode == GameMode::Analysis && old(
                self,
            ).analysis_history@.len() > old(self).puzzle_tab.current_puzzle_move) ==> *final(self)
                == *old(self) && cmd is None,
            event matches SessionEvent::StartEngine(path_exists) && old(self).engine.status
                == EngineStatus::Started ==> {
                &&& match cmd {
                    Some(c) => c is Stop && old(self).engine.has_channel && final(self).engine
                        == (EngineSession { has_channel: false, ..old(self).engine }),
                    None => !old(self).engine.has_channel && final(self).engine == old(self).engine,
                }
                &&& *final(self) == (GameSession { engine: final(self).engine, ..*old(self) })
            },
    {
        match event {
            SessionEvent::SelectSquare(pos) => {
                match self.from_square {
                    None => {
                        self.select_square(pos);
                        None
                    },
                    Some(f) => {
                        let same = f.file == pos.file && f.rank == pos.rank;
                        if !same {
                            self.verify_and_make_move(f, pos, promo_piece)
                        } else {
                            self.from_square = Some(pos);
                            None
                        }
                    },
                }
            },
            SessionEvent::SelectMode(m) => self.select_mode(m),
            SessionEvent::ShowHint => {
                self.show_hint();
                None
            },
            SessionEvent::ShowNextPuzzle => {
                self.show_next_puzzle();
                None
            },
            SessionEvent::ShowPreviousPuzzle => {
                self.show_previous_puzzle();
                None
            },
            SessionEvent::GoBackMove => self.go_back_move(),
            SessionEvent::RedoPuzzle => {
                self.redo_puzzle();
                None
            },
            SessionEvent::LoadPuzzle(v, shuffle) => self.load_puzzles(v, shuffle),
            SessionEvent::JumpToPuzzle => {
                self.jump_to_puzzle();
                None
            },
            SessionEvent::PuzzleInputIndexChange(text) => {
                self.puzzle_input_change(text);
                None
            },
            SessionEvent::StartEngine(path_exists) => self.start_engine(path_exists),
            SessionEvent::EngineStopped(exit) => {
                self.engine.engine_stopped(exit);
                None
            },
            SessionEvent::EngineReady => {
                self.engine.engine_ready();
                None
            },
            SessionEvent::UpdateEval(e, bm) => {
                self.engine.update_eval(&self.analysis, &self.lang, e, bm);
                None
            },
        }
    }
}

} // verus!
