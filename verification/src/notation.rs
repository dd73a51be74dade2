//! The move-notation codec: renders a coordinate move as localized
//! algebraic text, probing the rules oracle with plain algebraic trial
//! strings to decide whether the move needs disambiguation by file or by
//! rank, and appending check and mate markers from the applied position.
use vstd::prelude::*;

verus! {

use crate::board::{
    applied, board_apply, board_color_on, board_in_check, board_move_from_san, board_piece_on,
    board_status, color_at, in_check, piece_at, san_move, status_of, BoardState, PieceKind,
    SideColor, Sq,
};
use crate::lang::{tr, tr_spec, Language};

/// A coordinate move in text: four square characters and an optional
/// promotion letter.
pub open spec fn wf_coords(s: Seq<char>) -> bool {
    &&& s.len() == 4 || s.len() == 5
    &&& 'a' <= s[0] <= 'h'
    &&& '1' <= s[1] <= '8'
    &&& 'a' <= s[2] <= 'h'
    &&& '1' <= s[3] <= '8'
}

pub open spec fn sq_of(fc: char, rc: char) -> Sq {
    Sq { file: (fc as int - 'a' as int) as u8, rank: (rc as int - '1' as int) as u8 }
}

/// The promotion kind named by the fifth character: recognized letters map
/// to their piece, anything else to the queen; a four-character move
/// carries none.
pub open spec fn promo_of(s: Seq<char>) -> Option<PieceKind> {
    if s.len() <= 4 {
        None
    } else if s[4] == 'r' || s[4] == 'R' {
        Some(PieceKind::Rook)
    } else if s[4] == 'n' || s[4] == 'N' {
        Some(PieceKind::Knight)
    } else if s[4] == 'b' || s[4] == 'B' {
        Some(PieceKind::Bishop)
    } else {
        Some(PieceKind::Queen)
    }
}

/// The algebraic letter of a piece; a pawn has none.
pub open spec fn letter(k: PieceKind) -> Seq<char> {
    match k {
        PieceKind::Pawn => Seq::empty(),
        PieceKind::Knight => "N"@,
        PieceKind::Bishop => "B"@,
        PieceKind::Rook => "R"@,
        PieceKind::Queen => "Q"@,
        PieceKind::King => "K"@,
    }
}

/// The translation key of a piece's name.
pub open spec fn word_key(k: PieceKind) -> Seq<char> {
    match k {
        PieceKind::Pawn => Seq::empty(),
        PieceKind::Knight => "knight"@,
        PieceKind::Bishop => "bishop"@,
        PieceKind::Rook => "rook"@,
        PieceKind::Queen => "queen"@,
        PieceKind::King => "king"@,
    }
}

pub open spec fn is_kingside_coords(s: Seq<char>) -> bool {
    s[0] == 'e' && s[2] == 'g' && ((s[1] == '1' && s[3] == '1') || (s[1] == '8' && s[3] == '8'))
}

pub open spec fn is_queenside_coords(s: Seq<char>) -> bool {
    s[0] == 'e' && s[2] == 'c' && ((s[1] == '1' && s[3] == '1') || (s[1] == '8' && s[3] == '8'))
}

pub open spec fn dest_str(s: Seq<char>) -> Seq<char> {
    s.subrange(2, 4)
}

pub open spec fn file_str(s: Seq<char>) -> Seq<char> {
    s.subrange(0, 1)
}

pub open spec fn rank_str(s: Seq<char>) -> Seq<char> {
    s.subrange(1, 2)
}

/// The plain algebraic form used to probe the oracle.
pub open spec fn base_ascii(s: Seq<char>, k: PieceKind) -> Seq<char> {
    if k == PieceKind::Pawn {
        file_str(s)
    } else {
        letter(k)
    }
}

/// The localized form the display string starts from.
pub open spec fn base_loc(s: Seq<char>, k: PieceKind, lang: Language) -> Seq<char> {
    if k == PieceKind::Pawn {
        file_str(s)
    } else {
        tr_spec(lang, word_key(k))
    }
}

/// The check or mate marker earned by the move that the final trial string
/// resolves to; empty when it resolves to none.
pub open spec fn suffix_spec(b: chess::Board, trial: Seq<char>) -> Seq<char> {
    match san_move(b, trial) {
        None => Seq::empty(),
        Some(m) => {
            let nb = applied(b, m);
            if status_of(nb) == BoardState::Checkmate {
                "#"@
            } else if in_check(nb) {
                "+"@
            } else {
                Seq::empty()
            }
        },
    }
}

/// The display text of a non-castling move.
pub open spec fn san_regular(b: chess::Board, s: Seq<char>, lang: Language, k: PieceKind) -> Seq<
    char,
> {
    let d = sq_of(s[2], s[3]);
    let promo = promo_of(s);
    let ba = base_ascii(s, k);
    let bl = base_loc(s, k, lang);
    let dst = dest_str(s);
    let is_ep = k == PieceKind::Pawn && piece_at(b, d) is None && s[0] != s[2];
    let is_capture = piece_at(b, d) is Some;
    if is_ep {
        bl + "x"@ + dst + " e.p."@ + suffix_spec(b, ba + "x"@ + dst + " e.p."@)
    } else if is_capture {
        let trial_cap = if k == PieceKind::Pawn && promo is Some {
            ba + "x"@ + dst + letter(promo.unwrap())
        } else {
            ba + "x"@ + dst
        };
        if san_move(b, trial_cap) is Some {
            if k == PieceKind::Pawn && promo is Some {
                bl + "x"@ + dst + "="@ + tr_spec(lang, word_key(promo.unwrap())) + suffix_spec(
                    b,
                    trial_cap,
                )
            } else {
                bl + "x"@ + dst + suffix_spec(b, trial_cap)
            }
        } else if san_move(b, ba + file_str(s) + "x"@ + dst) is Some {
            bl + file_str(s) + "x"@ + dst + suffix_spec(b, ba + file_str(s) + "x"@ + dst)
        } else {
            bl + rank_str(s) + "x"@ + dst + suffix_spec(b, ba + rank_str(s) + "x"@ + dst)
        }
    } else if k == PieceKind::Pawn {
        if promo is Some {
            dst + "="@ + tr_spec(lang, word_key(promo.unwrap())) + suffix_spec(
                b,
                ba + dst + letter(promo.unwrap()),
            )
        } else {
            dst + suffix_spec(b, dst)
        }
    } else {
        let trial_reg = ba + dst;
        if san_move(b, trial_reg) is Some {
            bl + dst + suffix_spec(b, trial_reg)
        } else if san_move(b, ba + file_str(s) + dst) is Some {
            bl + file_str(s) + dst + suffix_spec(b, ba + file_str(s) + dst)
        } else {
            bl + rank_str(s) + dst + suffix_spec(b, ba + rank_str(s) + dst)
        }
    }
}

/// The localized algebraic text of a coordinate move, or nothing when the
/// origin square is empty.
pub open spec fn san_spec(b: chess::Board, s: Seq<char>, lang: Language) -> Option<Seq<char>>
    recommends
        wf_coords(s),
{
    match piece_at(b, sq_of(s[0], s[1])) {
        None => None,
        Some(k) => {
            if k == PieceKind::King && is_kingside_coords(s) {
                Some("0-0"@)
            } else if k == PieceKind::King && is_queenside_coords(s) {
                Some("0-0-0"@)
            } else {
                Some(san_regular(b, s, lang, k))
            }
        },
    }
}

/// A king move on the fixed kingside castling coordinates always renders
/// as the kingside castling token, whatever the rest of the position
/// holds.
pub proof fn lemma_castling_kingside(b: chess::Board, s: Seq<char>, lang: Language)
    requires
        wf_coords(s),
        is_kingside_coords(s),
        piece_at(b, sq_of(s[0], s[1])) == Some(PieceKind::King),
    ensures
        san_spec(b, s, lang) == Some("0-0"@),
{
}

/// A king move on the fixed queenside castling coordinates always renders
/// as the queenside castling token, whatever the rest of the position
/// holds.
pub proof fn lemma_castling_queenside(b: chess::Board, s: Seq<char>, lang: Language)
    requires
        wf_coords(s),
        is_queenside_coords(s),
        piece_at(b, sq_of(s[0], s[1])) == Some(PieceKind::King),
    ensures
        san_spec(b, s, lang) == Some("0-0-0"@),
{
}

/// A pawn moving to an empty square of another file is an en-passant
/// capture, and its rendering always carries the en-passant marker, in the
/// five positions after the file letter, the capture sign and the
/// destination square.
pub proof fn lemma_en_passant_marker(b: chess::Board, s: Seq<char>, lang: Language)
    requires
        wf_coords(s),
        piece_at(b, sq_of(s[0], s[1])) == Some(PieceKind::Pawn),
        piece_at(b, sq_of(s[2], s[3])) is None,
        s[0] != s[2],
    ensures
        san_spec(b, s, lang) matches Some(t) && t.len() >= 9 && t.subrange(4, 9) == " e.p."@,
{
    reveal_strlit("x");
    reveal_strlit(" e.p.");
    let marked = file_str(s) + "x"@ + dest_str(s) + " e.p."@;
    let t = marked + suffix_spec(b, marked);
    assert(san_spec(b, s, lang) == Some(t));
    assert(t.subrange(4, 9) =~= " e.p."@);
}

/// A non-pawn move to an empty square whose plain trial form the oracle
/// resolves needs no disambiguation: the rendering is the localized piece
/// word and the destination, with its earned check marker.
pub proof fn lemma_plain_unqualified(b: chess::Board, s: Seq<char>, lang: Language, k: PieceKind)
    requires
        wf_coords(s),
        piece_at(b, sq_of(s[0], s[1])) == Some(k),
        k != PieceKind::Pawn,
        k == PieceKind::King ==> !is_kingside_coords(s) && !is_queenside_coords(s),
        piece_at(b, sq_of(s[2], s[3])) is None,
        san_move(b, letter(k) + dest_str(s)) is Some,
    ensures
        san_spec(b, s, lang) == Some(
            tr_spec(lang, word_key(k)) + dest_str(s) + suffix_spec(b, letter(k) + dest_str(s)),
        ),
{
}

/// When the plain trial form of a non-pawn move to an empty square is
/// ambiguous but the file-qualified form resolves, the rendering carries
/// the origin file; the file is always tried before the rank.
pub proof fn lemma_plain_file_qualified(b: chess::Board, s: Seq<char>, lang: Language, k: PieceKind)
    requires
        wf_coords(s),
        piece_at(b, sq_of(s[0], s[1])) == Some(k),
        k != PieceKind::Pawn,
        k == PieceKind::King ==> !is_kingside_coords(s) && !is_queenside_coords(s),
        piece_at(b, sq_of(s[2], s[3])) is None,
        san_move(b, letter(k) + dest_str(s)) is None,
        san_move(b, letter(k) + file_str(s) + dest_str(s)) is Some,
    ensures
        san_spec(b, s, lang) == Some(
            tr_spec(lang, word_key(k)) + file_str(s) + dest_str(s) + suffix_spec(
                b,
                letter(k) + file_str(s) + dest_str(s),
            ),
        ),
{
}

/// When both the plain and the file-qualified trial forms of a non-pawn
/// move to an empty square are ambiguous, the rendering carries the origin
/// rank.
pub proof fn lemma_plain_rank_qualified(b: chess::Board, s: Seq<char>, lang: Language, k: PieceKind)
    requires
        wf_coords(s),
        piece_at(b, sq_of(s[0], s[1])) == Some(k),
        k != PieceKind::Pawn,
        k == PieceKind::King ==> !is_kingside_coords(s) && !is_queenside_coords(s),
        piece_at(b, sq_of(s[2], s[3])) is None,
        san_move(b, letter(k) + dest_str(s)) is None,
        san_move(b, letter(k) + file_str(s) + dest_str(s)) is None,
    ensures
        san_spec(b, s, lang) == Some(
            tr_spec(lang, word_key(k)) + rank_str(s) + dest_str(s) + suffix_spec(
                b,
                letter(k) + rank_str(s) + dest_str(s),
            ),
        ),
{
}

/// The same three-step disambiguation holds for captures: a resolving
/// plain capture form stays unqualified.
pub proof fn lemma_capture_unqualified(b: chess::Board, s: Seq<char>, lang: Language, k: PieceKind)
    requires
        wf_coords(s),
        piece_at(b, sq_of(s[0], s[1])) == Some(k),
        k != PieceKind::Pawn,
        k == PieceKind::King ==> !is_kingside_coords(s) && !is_queenside_coords(s),
        piece_at(b, sq_of(s[2], s[3])) is Some,
        san_move(b, letter(k) + "x"@ + dest_str(s)) is Some,
    ensures
        san_spec(b, s, lang) == Some(
            tr_spec(lang, word_key(k)) + "x"@ + dest_str(s) + suffix_spec(
                b,
                letter(k) + "x"@ + dest_str(s),
            ),
        ),
{
}

/// An ambiguous capture is qualified by the origin file where that
/// resolves, and by the origin rank only after the file also fails.
pub proof fn lemma_capture_qualified(b: chess::Board, s: Seq<char>, lang: Language, k: PieceKind)
    requires
        wf_coords(s),
        piece_at(b, sq_of(s[0], s[1])) == Some(k),
        k != PieceKind::Pawn,
        k == PieceKind::King ==> !is_kingside_coords(s) && !is_queenside_coords(s),
        piece_at(b, sq_of(s[2], s[3])) is Some,
        san_move(b, letter(k) + "x"@ + dest_str(s)) is None,
    ensures
        san_move(b, letter(k) + file_str(s) + "x"@ + dest_str(s)) is Some ==> san_spec(b, s, lang)
            == Some(
            tr_spec(lang, word_key(k)) + file_str(s) + "x"@ + dest_str(s) + suffix_spec(
                b,
                letter(k) + file_str(s) + "x"@ + dest_str(s),
            ),
        ),
        san_move(b, letter(k) + file_str(s) + "x"@ + dest_str(s)) is None ==> san_spec(b, s, lang)
            == Some(
            tr_spec(lang, word_key(k)) + rank_str(s) + "x"@ + dest_str(s) + suffix_spec(
                b,
                letter(k) + rank_str(s) + "x"@ + dest_str(s),
            ),
        ),
{
}

fn piece_letter_str(k: PieceKind) -> (r: &'static str)
    ensures
        r@ == letter(k),
{
    proof {
        reveal_strlit("");
        reveal_strlit("N");
        reveal_strlit("B");
        reveal_strlit("R");
        reveal_strlit("Q");
        reveal_strlit("K");
        assert(""@ =~= Seq::<char>::empty());
    }
    match k {
        PieceKind::Pawn => "",
        PieceKind::Knight => "N",
        PieceKind::Bishop => "B",
        PieceKind::Rook => "R",
        PieceKind::Queen => "Q",
        PieceKind::King => "K",
    }
}

fn piece_word(lang: &Language, k: PieceKind) -> (r: String)
    requires
        k != PieceKind::Pawn,
    ensures
        r@ == tr_spec(*lang, word_key(k)),
{
    match k {
        PieceKind::Pawn => tr(lang, "king"),
        PieceKind::Knight => tr(lang, "knight"),
        PieceKind::Bishop => tr(lang, "bishop"),
        PieceKind::Rook => tr(lang, "rook"),
        PieceKind::Queen => tr(lang, "queen"),
        PieceKind::King => tr(lang, "king"),
    }
}

fn suffix_str(b: &chess::Board, trial: &str) -> (r: String)
    ensures
        r@ == suffix_spec(*b, trial@),
{
    match board_move_from_san(b, trial) {
        None => String::new(),
        Some(m) => {
            let nb = board_apply(b, m);
            match board_status(&nb) {
                BoardState::Checkmate => "#".to_owned(),
                _ => {
                    if board_in_check(&nb) {
                        "+".to_owned()
                    } else {
                        String::new()
                    }
                },
            }
        },
    }
}

/// Render a coordinate move as localized algebraic text: castling by its
/// fixed token, a pawn capture of an empty square with the en-passant
/// marker, and other moves through the oracle probe, qualified by origin
/// file and then origin rank only where the plain form is ambiguous; a
/// check or mate marker follows where the final trial form resolves.
pub fn coord_to_san(board: &chess::Board, coords: String, lang: &Language) -> (r: Option<String>)
    requires
        wf_coords(coords@),
    ensures
        (r is Some) == (san_spec(*board, coords@, *lang) is Some),
        r matches Some(s) ==> Some(s@) == san_spec(*board, coords@, *lang),
{
    let s = coords.as_str();
    let n = s.unicode_len();
    let c0 = s.get_char(0);
    let c1 = s.get_char(1);
    let c2 = s.get_char(2);
    let c3 = s.get_char(3);
    let o = Sq { file: (c0 as u32 - 'a' as u32) as u8, rank: (c1 as u32 - '1' as u32) as u8 };
    let d = Sq { file: (c2 as u32 - 'a' as u32) as u8, rank: (c3 as u32 - '1' as u32) as u8 };
    assert(o == sq_of(coords@[0], coords@[1]));
    assert(d == sq_of(coords@[2], coords@[3]));
    let k = match board_piece_on(board, o) {
        None => {
            return None;
        },
        Some(k) => k,
    };
    if matches!(k, PieceKind::King) && c0 == 'e' && c2 == 'g' && (c1 == '1' && c3 == '1' || c1
        == '8' && c3 == '8') {
        return Some("0-0".to_owned());
    }
    if matches!(k, PieceKind::King) && c0 == 'e' && c2 == 'c' && (c1 == '1' && c3 == '1' || c1
        == '8' && c3 == '8') {
        return Some("0-0-0".to_owned());
    }
    let promo: Option<PieceKind> = if n > 4 {
        let c4 = s.get_char(4);
        if c4 == 'r' || c4 == 'R' {
            Some(PieceKind::Rook)
        } else if c4 == 'n' || c4 == 'N' {
            Some(PieceKind::Knight)
        } else if c4 == 'b' || c4 == 'B' {
            Some(PieceKind::Bishop)
        } else {
            Some(PieceKind::Queen)
        }
    } else {
        None
    };
    assert(promo == promo_of(coords@));
    let file_s = s.substring_char(0, 1);
    let rank_s = s.substring_char(1, 2);
    let dest_s = s.substring_char(2, 4);
    let is_pawn = matches!(k, PieceKind::Pawn);
    let ba: String = if is_pawn {
        file_s.to_owned()
    } else {
        piece_letter_str(k).to_owned()
    };
    let bl: String = if is_pawn {
        file_s.to_owned()
    } else {
        piece_word(lang, k)
    };
    assert(ba@ == base_ascii(coords@, k));
    assert(bl@ == base_loc(coords@, k, *lang));
    let dpiece = board_piece_on(board, d);
    let is_ep = is_pawn && dpiece.is_none() && c0 != c2;
    let is_capture = dpiece.is_some();
    let disp: String;
    if is_ep {
        let mut t = bl;
        t.append("x");
        t.append(dest_s);
        t.append(" e.p.");
        assert(t@ == base_ascii(coords@, k) + "x"@ + dest_str(coords@) + " e.p."@);
        let suf = suffix_str(board, t.as_str());
        t.append(suf.as_str());
        disp = t;
    } else if is_capture {
        let mut trial_cap = ba.clone();
        trial_cap.append("x");
        trial_cap.append(dest_s);
        let has_pawn_promo = is_pawn && promo.is_some();
        if has_pawn_promo {
            let p = match promo {
                Some(p) => p,
                None => PieceKind::Queen,
            };
            trial_cap.append(piece_letter_str(p));
        }
        if board_move_from_san(board, trial_cap.as_str()).is_some() {
            let mut t = bl;
            t.append("x");
            t.append(dest_s);
            if has_pawn_promo {
                let p = match promo {
                    Some(p) => p,
                    None => PieceKind::Queen,
                };
                t.append("=");
                let w = piece_word(lang, p);
                t.append(w.as_str());
            }
            let suf = suffix_str(board, trial_cap.as_str());
            t.append(suf.as_str());
            disp = t;
        } else {
            let mut trial_file = ba.clone();
            trial_file.append(file_s);
            trial_file.append("x");
            trial_file.append(dest_s);
            let mut t = bl;
            let suf: String;
            if board_move_from_san(board, trial_file.as_str()).is_some() {
                t.append(file_s);
                suf = suffix_str(board, trial_file.as_str());
            } else {
                let mut trial_rank = ba.clone();
                trial_rank.append(rank_s);
                trial_rank.append("x");
                trial_rank.append(dest_s);
                t.append(rank_s);
                suf = suffix_str(board, trial_rank.as_str());
            }
            t.append("x");
            t.append(dest_s);
            t.append(suf.as_str());
            disp = t;
        }
    } else if is_pawn {
        match promo {
            Some(p) => {
                let mut trial = ba.clone();
                trial.append(dest_s);
                trial.append(piece_letter_str(p));
                let mut t = dest_s.to_owned();
                t.append("=");
                let w = piece_word(lang, p);
                t.append(w.as_str());
                let suf = suffix_str(board, trial.as_str());
                t.append(suf.as_str());
                disp = t;
            },
            None => {
                let mut t = dest_s.to_owned();
                let suf = suffix_str(board, dest_s);
                t.append(suf.as_str());
                disp = t;
            },
        }
    } else {
        let mut trial_reg = ba.clone();
        trial_reg.append(dest_s);
        if board_move_from_san(board, trial_reg.as_str()).is_some() {
            let mut t = bl;
            t.append(dest_s);
            let suf = suffix_str(board, trial_reg.as_str());
            t.append(suf.as_str());
            disp = t;
        } else {
            let mut trial_file = ba.clone();
            trial_file.append(file_s);
            trial_file.append(dest_s);
            let mut t = bl;
            let suf: String;
            if board_move_from_san(board, trial_file.as_str()).is_some() {
                t.append(file_s);
                suf = suffix_str(board, trial_file.as_str());
            } else {
                let mut trial_rank = ba.clone();
                trial_rank.append(rank_s);
                trial_rank.append(dest_s);
                t.append(rank_s);
                suf = suffix_str(board, trial_rank.as_str());
            }
            t.append(dest_s);
            t.append(suf.as_str());
            disp = t;
        }
    }
    assert(Some(disp@) == san_spec(*board, coords@, *lang));
    Some(disp)
}

/// The file letter of a file index.
pub open spec fn file_char(f: int) -> char {
    if f == 0 { 'a' }
    else if f == 1 { 'b' }
    else if f == 2 { 'c' }
    else if f == 3 { 'd' }
    else if f == 4 { 'e' }
    else if f == 5 { 'f' }
    else if f == 6 { 'g' }
    else { 'h' }
}

/// The rank digit of a rank index.
pub open spec fn rank_char(r: int) -> char {
    if r == 0 { '1' }
    else if r == 1 { '2' }
    else if r == 2 { '3' }
    else if r == 3 { '4' }
    else if r == 4 { '5' }
    else if r == 5 { '6' }
    else if r == 6 { '7' }
    else { '8' }
}

/// The two-character text of a square.
pub open spec fn sq_str(s: Sq) -> Seq<char> {
    seq![file_char(s.file as int), rank_char(s.rank as int)]
}

fn file_str_of(f: u8) -> (r: &'static str)
    requires
        f < 8,
    ensures
        r@ =~= seq![file_char(f as int)],
{
    proof {
        reveal_strlit("a");
        reveal_strlit("b");
        reveal_strlit("c");
        reveal_strlit("d");
        reveal_strlit("e");
        reveal_strlit("f");
        reveal_strlit("g");
        reveal_strlit("h");
    }
    match f {
        0 => "a",
        1 => "b",
        2 => "c",
        3 => "d",
        4 => "e",
        5 => "f",
        6 => "g",
        _ => "h",
    }
}

fn rank_str_of(r: u8) -> (s: &'static str)
    requires
        r < 8,
    ensures
        s@ =~= seq![rank_char(r as int)],
{
    proof {
        reveal_strlit("1");
        reveal_strlit("2");
        reveal_strlit("3");
        reveal_strlit("4");
        reveal_strlit("5");
        reveal_strlit("6");
        reveal_strlit("7");
        reveal_strlit("8");
    }
    match r {
        0 => "1",
        1 => "2",
        2 => "3",
        3 => "4",
        4 => "5",
        5 => "6",
        6 => "7",
        _ => "8",
    }
}

/// The lower-case promotion letter the coordinate text format uses.
pub open spec fn promo_letter_lower(k: PieceKind) -> Seq<char> {
    match k {
        PieceKind::Rook => "r"@,
        PieceKind::Knight => "n"@,
        PieceKind::Bishop => "b"@,
        _ => "q"@,
    }
}

/// Whether the move carries a pawn to its promotion rank.
pub open spec fn is_promotion_push(b: chess::Board, from: Sq, to: Sq) -> bool {
    piece_at(b, from) == Some(PieceKind::Pawn) && (color_at(b, from) == Some(SideColor::White)
        && to.rank == 7 || color_at(b, from) == Some(SideColor::Black) && to.rank == 0)
}

/// The coordinate text of a move, with the promotion letter appended when a
/// pawn reaches its last rank.
pub open spec fn notation_spec(b: chess::Board, promo: PieceKind, from: Sq, to: Sq) -> Seq<char> {
    sq_str(from) + sq_str(to) + if is_promotion_push(b, from, to) {
        promo_letter_lower(promo)
    } else {
        Seq::empty()
    }
}

/// Build the coordinate text of a move, asking the board whether the moving
/// piece is a pawn that reaches its promotion rank, and appending the
/// chosen promotion letter in that case.
pub fn get_notation_string(board: &chess::Board, promo_piece: PieceKind, from: Sq, to: Sq) -> (r:
    String)
    requires
        from.wf(),
        to.wf(),
    ensures
        r@ == notation_spec(*board, promo_piece, from, to),
{
    let mut t = file_str_of(from.file).to_owned();
    t.append(rank_str_of(from.rank));
    t.append(file_str_of(to.file));
    t.append(rank_str_of(to.rank));
    let piece = board_piece_on(board, from);
    let color = board_color_on(board, from);
    let promotes = matches!(piece, Some(PieceKind::Pawn)) && (matches!(color, Some(SideColor::White))
        && to.rank == 7 || matches!(color, Some(SideColor::Black)) && to.rank == 0);
    if promotes {
        proof {
            reveal_strlit("r");
            reveal_strlit("n");
            reveal_strlit("b");
            reveal_strlit("q");
        }
        match promo_piece {
            PieceKind::Rook => t.append("r"),
            PieceKind::Knight => t.append("n"),
            PieceKind::Bishop => t.append("b"),
            _ => t.append("q"),
        }
    }
    assert(t@ =~= notation_spec(*board, promo_piece, from, to));
    t
}

} // verus!
