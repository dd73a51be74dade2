//! The engine session: lifecycle of the external analysis engine, the
//! commands sent to its task, and the parsing of the evaluations it sends
//! back.
use vstd::prelude::*;

verus! {

use crate::board::{ep_fixable, ep_fixed, side_to_move_of, SideColor};
use crate::lang::{tr, tr_spec, Language};
use crate::notation::{coord_to_san, san_spec, wf_coords};
use crate::puzzles::parse_coord_move;
use crate::strutil::{
    all_digits, dec_str, dec_val, flip_sign, parse_usize, split_sp, split_spaces, str_eq,
    usize_to_string,
};

/// Lifecycle of the engine process.
#[derive(Debug, Clone, Copy, PartialEq, Eq, Structural)]
pub enum EngineStatus {
    TurnedOff,
    Started,
}

/// A command for the engine task: a position to analyse, a stop, or the
/// final exit when the application closes.
#[derive(Debug, Clone)]
pub enum EngineCommand {
    SetPosition(String),
    Stop,
    Exit,
}

/// The engine session: the configured engine, the position it analyses,
/// whether its task is running and reachable, and the last evaluation it
/// reported.
#[derive(Debug, Clone)]
pub struct EngineSession {
    pub engine_path: Option<String>,
    pub engine_limit: String,
    pub position: String,
    pub status: EngineStatus,
    pub has_channel: bool,
    pub engine_eval: String,
    pub engine_move: String,
}

/// The value of optionally signed decimal text.
pub open spec fn digits_val(s: Seq<char>) -> Option<int> {
    if s.len() > 0 && all_digits(s) {
        Some(dec_val(s))
    } else {
        None
    }
}

pub open spec fn int_val(s: Seq<char>) -> Option<int> {
    if s.len() == 0 {
        None
    } else if s[0] == '-' {
        match digits_val(s.subrange(1, s.len() as int)) {
            Some(v) => Some(-v),
            None => None,
        }
    } else if s[0] == '+' {
        digits_val(s.subrange(1, s.len() as int))
    } else {
        digits_val(s)
    }
}

/// The largest magnitude `parse_signed` accepts.
pub open spec fn parse_cap() -> int {
    if usize::MAX <= i64::MAX { usize::MAX as int } else { i64::MAX as int }
}

/// Parse optionally signed decimal text; values whose magnitude exceeds
/// `parse_cap` come back as `None`.
pub fn parse_signed(s: &str) -> (r: Option<i64>)
    ensures
        r matches Some(v) ==> int_val(s@) == Some(v as int) && -parse_cap() <= v as int
            <= parse_cap(),
        r is None ==> (int_val(s@) is None || (int_val(s@) matches Some(v) && (v > parse_cap() || v
            < -parse_cap()))),
{
    let n = s.unicode_len();
    if n == 0 {
        return None;
    }
    let c0 = s.get_char(0);
    let neg = c0 == '-';
    let body = if neg || c0 == '+' {
        s.substring_char(1, n)
    } else {
        s
    };
    match parse_usize(body) {
        None => None,
        Some(m) => {
            let m64 = m as u64;
            if m64 > i64::MAX as u64 {
                None
            } else if neg {
                Some(-(m64 as i64))
            } else {
                Some(m64 as i64)
            }
        },
    }
}

/// The textual sign flip of a score.
pub open spec fn flipped(s: Seq<char>) -> Seq<char> {
    if s.len() > 0 && s[0] == '-' {
        s.subrange(1, s.len() as int)
    } else {
        seq!['-'] + s
    }
}

/// How a score line is shown: a `mate N` score becomes the localized
/// mate-distance text (distance zero also clears the best move, the second
/// component); a plain number is kept from white's point of view, flipped
/// textually when black is to move. `None` when a mate distance cannot be
/// read.
pub open spec fn render_eval_spec(lang: Language, side_white: bool, s: Seq<char>) -> Option<
    (Seq<char>, bool),
> {
    let toks = split_sp(s);
    if toks.len() >= 2 && toks[0] == "mate"@ {
        match int_val(toks[1]) {
            Some(n) => {
                if n > parse_cap() || n < -parse_cap() {
                    None
                } else if n >= 1 {
                    Some((tr_spec(lang, "mate_in"@) + dec_str(n), false))
                } else if n == 0 {
                    Some((tr_spec(lang, "mate"@), true))
                } else {
                    Some((tr_spec(lang, "mate_in"@) + dec_str(-n), false))
                }
            },
            None => None,
        }
    } else if side_white {
        Some((s, false))
    } else {
        Some((flipped(s), false))
    }
}

/// Render a score line for display.
pub fn render_eval(lang: &Language, side_white: bool, s: &str) -> (r: Option<(String, bool)>)
    ensures
        r matches Some(t) ==> render_eval_spec(*lang, side_white, s@) matches Some(u) && t.0@
            == u.0 && t.1 == u.1,
        r is None ==> render_eval_spec(*lang, side_white, s@) is None,
{
    let toks = split_spaces(s);
    if toks.len() >= 2 && str_eq(toks[0].as_str(), "mate") {
        match parse_signed(toks[1].as_str()) {
            None => None,
            Some(n) => {
                if n >= 1 {
                    let mut t = tr(lang, "mate_in");
                    let d = usize_to_string(n as usize);
                    t.append(d.as_str());
                    Some((t, false))
                } else if n == 0 {
                    Some((tr(lang, "mate"), true))
                } else {
                    let mut t = tr(lang, "mate_in");
                    let d = usize_to_string((-n) as usize);
                    t.append(d.as_str());
                    Some((t, false))
                }
            },
        }
    } else if side_white {
        Some((s.to_owned(), false))
    } else {
        Some((flip_sign(s), false))
    }
}

/// What `update_eval` leaves in the session.
pub open spec fn update_eval_post(
    pre: EngineSession,
    post: EngineSession,
    analysis: chess::Board,
    lang: Language,
    eval: Option<String>,
    best_move: Option<String>,
) -> bool {
    let side_white = side_to_move_of(analysis) == SideColor::White;
    let mate_now = match eval {
        Some(e) => match render_eval_spec(lang, side_white, e@) {
            Some(u) => u.1,
            None => false,
        },
        None => false,
    };
    let eval_text = match eval {
        Some(e) => match render_eval_spec(lang, side_white, e@) {
            Some(u) => u.0,
            None => pre.engine_eval@,
        },
        None => pre.engine_eval@,
    };
    let move_text = match best_move {
        Some(bm) => if wf_coords(bm@) {
            match san_spec(analysis, bm@, lang) {
                Some(t) => t,
                None => pre.engine_move@,
            }
        } else {
            pre.engine_move@
        },
        None => pre.engine_move@,
    };
    if mate_now {
        &&& post.engine_eval@ == eval_text
        &&& post.engine_move@ =~= Seq::<char>::empty()
        &&& post == (EngineSession {
            engine_eval: post.engine_eval,
            engine_move: post.engine_move,
            ..pre
        })
    } else {
        &&& post.engine_eval@ == eval_text
        &&& post.engine_move@ == move_text
        &&& post == (EngineSession {
            engine_eval: post.engine_eval,
            engine_move: post.engine_move,
            ..pre
        })
    }
}

impl EngineSession {
    /// A session for a configured engine, not yet running.
    pub fn new(engine_path: Option<String>, engine_limit: String, position: String) -> (r: Self)
        ensures
            r.engine_path == engine_path,
            r.engine_limit == engine_limit,
            r.position == position,
            r.status == EngineStatus::TurnedOff,
            r.has_channel == false,
            r.engine_eval@ =~= Seq::<char>::empty(),
            r.engine_move@ =~= Seq::<char>::empty(),
    {
        EngineSession {
            engine_path,
            engine_limit,
            position,
            status: EngineStatus::TurnedOff,
            has_channel: false,
            engine_eval: String::new(),
            engine_move: String::new(),
        }
    }

    /// Start the engine on the current analysis position. The host says
    /// whether the configured executable exists; without it, or when the
    /// engine already runs, nothing changes.
    pub fn start(&mut self, path_exists: bool, analysis_fen: String) -> (started: bool)
        requires
            ep_fixable(analysis_fen@),
        ensures
            old(self).status == EngineStatus::Started ==> *final(self) == *old(self) && !started,
            old(self).status == EngineStatus::TurnedOff && !path_exists ==> *final(self) == *old(self) && !started,
            old(self).status == EngineStatus::TurnedOff && path_exists ==> started
                && final(self).position@ == ep_fixed(analysis_fen@)
                && final(self).status == EngineStatus::Started
                && *final(self) == (EngineSession {
                    position: final(self).position,
                    status: EngineStatus::Started,
                    ..*old(self)
                }),
    {
        match self.status {
            EngineStatus::Started => false,
            EngineStatus::TurnedOff => {
                if path_exists {
                    self.position = crate::board::san_correct_ep(analysis_fen);
                    self.status = EngineStatus::Started;
                    true
                } else {
                    false
                }
            },
        }
    }

    /// Ask the running engine task to stop: the stop command goes out and
    /// the channel is considered spent.
    pub fn stop(&mut self) -> (r: Option<EngineCommand>)
        ensures
            old(self).status == EngineStatus::Started && old(self).has_channel
                ==> (r matches Some(c) && c is Stop)
                && *final(self) == (EngineSession { has_channel: false, ..*old(self) }),
            !(old(self).status == EngineStatus::Started && old(self).has_channel) ==> r is None
                && *final(self) == *old(self),
    {
        if matches!(self.status, EngineStatus::Started) && self.has_channel {
            self.has_channel = false;
            Some(EngineCommand::Stop)
        } else {
            None
        }
    }

    /// Ask the engine task to exit because the application is closing; the
    /// session state waits for the task's confirmation.
    pub fn stop_and_exit(&self) -> (r: Option<EngineCommand>)
        ensures
            self.status == EngineStatus::Started && self.has_channel ==> (r matches Some(c)
                && c is Exit),
            !(self.status == EngineStatus::Started && self.has_channel) ==> r is None,
    {
        if matches!(self.status, EngineStatus::Started) && self.has_channel {
            Some(EngineCommand::Exit)
        } else {
            None
        }
    }

    /// The engine task reported that it stopped; outside a shutdown the
    /// cached evaluation is cleared.
    pub fn engine_stopped(&mut self, exit: bool)
        ensures
            final(self).status == EngineStatus::TurnedOff,
            exit ==> *final(self) == (EngineSession {
                status: EngineStatus::TurnedOff,
                ..*old(self)
            }),
            !exit ==> final(self).engine_eval@ =~= Seq::<char>::empty()
                && final(self).engine_move@ =~= Seq::<char>::empty()
                && *final(self) == (EngineSession {
                status: EngineStatus::TurnedOff,
                engine_eval: final(self).engine_eval,
                engine_move: final(self).engine_move,
                ..*old(self)
            }),
    {
        self.status = EngineStatus::TurnedOff;
        if !exit {
            self.engine_eval = String::new();
            self.engine_move = String::new();
        }
    }

    /// The engine task delivered its command channel.
    pub fn engine_ready(&mut self)
        ensures
            *final(self) == (EngineSession { has_channel: true, ..*old(self) }),
    {
        self.has_channel = true;
    }

    /// Take an inbound evaluation event: render the score for display and
    /// translate the best move through the notation codec; ignored while
    /// the engine is off.
    pub fn update_eval(
        &mut self,
        analysis: &chess::Board,
        lang: &Language,
        eval: Option<String>,
        best_move: Option<String>,
    )
        ensures
            old(self).status == EngineStatus::TurnedOff ==> *final(self) == *old(self),
            old(self).status == EngineStatus::Started ==> update_eval_post(
                *old(self),
                *final(self),
                *analysis,
                *lang,
                eval,
                best_move,
            ),
    {
        if matches!(self.status, EngineStatus::TurnedOff) {
            return ;
        }
        let side_white = matches!(
            crate::board::board_side_to_move(analysis),
            SideColor::White,
        );
        if let Some(e) = eval {
            match render_eval(lang, side_white, e.as_str()) {
                Some((t, clear)) => {
                    self.engine_eval = t;
                    if clear {
                        self.engine_move = String::new();
                        return ;
                    }
                },
                None => {},
            }
        }
        if let Some(bm) = best_move {
            if parse_coord_move(bm.as_str()).is_some() {
                match coord_to_san(analysis, bm, lang) {
                    Some(t) => {
                        self.engine_move = t;
                    },
                    None => {},
                }
            }
        }
    }
}

} // verus!
