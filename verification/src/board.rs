//! The rules oracle: plain value types for squares, pieces and moves, and
//! trusted access to the `chess` crate, which answers occupancy, legality,
//! move application and game status for a position.
use vstd::prelude::*;
use std::str::FromStr;

verus! {

use crate::strutil::{find_space, find_space_at, lemma_find_space, single_spaced};

/// Kinds of chess pieces, as the puzzle logic speaks of them.
#[derive(Clone, Copy, Debug, PartialEq, Eq, Structural)]
pub enum PieceKind {
    Pawn,
    Knight,
    Bishop,
    Rook,
    Queen,
    King,
}

/// The two sides.
#[derive(Clone, Copy, Debug, PartialEq, Eq, Structural)]
pub enum SideColor {
    White,
    Black,
}

/// Terminal status of a position.
#[derive(Clone, Copy, Debug, PartialEq, Eq, Structural)]
pub enum BoardState {
    Ongoing,
    Stalemate,
    Checkmate,
}

/// A board square, held as plain file and rank indices (0 through 7).
#[derive(Clone, Copy, Debug, PartialEq, Eq, Structural)]
pub struct Sq {
    pub file: u8,
    pub rank: u8,
}

impl Sq {
    /// A square is well formed when both indices are on the board.
    pub open spec fn wf(self) -> bool {
        self.file < 8 && self.rank < 8
    }
}

/// A coordinate move: origin, destination, and an optional promotion kind.
#[derive(Clone, Copy, Debug, PartialEq, Eq, Structural)]
pub struct CoordMove {
    pub from: Sq,
    pub to: Sq,
    pub promotion: Option<PieceKind>,
}

impl CoordMove {
    /// Both squares on the board, and any promotion one of the four pieces
    /// a pawn can become.
    pub open spec fn wf(self) -> bool {
        &&& self.from.wf()
        &&& self.to.wf()
        &&& self.promotion matches Some(p) ==> (p == PieceKind::Knight || p == PieceKind::Bishop
            || p == PieceKind::Rook || p == PieceKind::Queen)
    }
}

/// `chess::Board` is the oracle's position type; it stays opaque here and
/// is read only through the named queries below.
#[verifier::external_type_specification]
#[verifier::external_body]
pub struct ExBoard(chess::Board);

/// The piece standing on a square of a position.
pub uninterp spec fn piece_at(b: chess::Board, s: Sq) -> Option<PieceKind>;

/// The color of the piece standing on a square of a position.
pub uninterp spec fn color_at(b: chess::Board, s: Sq) -> Option<SideColor>;

/// The side to move in a position.
pub uninterp spec fn side_to_move_of(b: chess::Board) -> SideColor;

/// The terminal status of a position.
pub uninterp spec fn status_of(b: chess::Board) -> BoardState;

/// Whether the side to move stands in check.
pub uninterp spec fn in_check(b: chess::Board) -> bool;

/// Whether a coordinate move is legal in a position.
pub uninterp spec fn is_legal(b: chess::Board, m: CoordMove) -> bool;

/// The position that results from playing a legal move.
pub uninterp spec fn applied(b: chess::Board, m: CoordMove) -> chess::Board;

/// The unique legal move that a piece of algebraic text resolves to in a
/// position, if there is exactly one.
pub uninterp spec fn san_move(b: chess::Board, s: Seq<char>) -> Option<CoordMove>;

/// The position a piece of FEN text parses to, if it is valid.
pub uninterp spec fn parsed_fen(s: Seq<char>) -> Option<chess::Board>;

/// The FEN text of a position.
pub uninterp spec fn fen_of(b: chess::Board) -> Seq<char>;

/// A FEN-shaped string: single-spaced, with at least four fields, the fourth
/// being `-` or a square whose second character is a digit.
pub open spec fn ep_fixable(s: Seq<char>) -> bool {
    let p1 = find_space(s, 0);
    let p2 = find_space(s, p1 + 1);
    let p3 = find_space(s, p2 + 1);
    let a = p3 + 1;
    let b = find_space(s, a);
    &&& single_spaced(s)
    &&& p3 < s.len()
    &&& (b - a == 1 && s[a] == '-' || b - a >= 2 && '0' <= s[a + 1] <= '9')
}

/// The string with its fourth field replaced as `san_correct_ep` does.
pub open spec fn ep_fixed(s: Seq<char>) -> Seq<char> {
    let p1 = find_space(s, 0);
    let p2 = find_space(s, p1 + 1);
    let p3 = find_space(s, p2 + 1);
    let a = p3 + 1;
    let b = find_space(s, a);
    if b - a == 1 && s[a] == '-' {
        s
    } else {
        s.subrange(0, a) + seq![s[a], if s[a + 1] == '4' { '3' } else { '6' }] + s.subrange(
            b,
            s.len() as int,
        )
    }
}

/// Rewrite the en-passant field of a FEN string to name the square behind
/// the pawn (rank three or six), as the engine protocol expects, keeping
/// `-` as it is.
pub fn san_correct_ep(fen: String) -> (r: String)
    requires
        ep_fixable(fen@),
    ensures
        r@ == ep_fixed(fen@),
{
    let s = fen.as_str();
    let n = s.unicode_len();
    proof {
        lemma_find_space(fen@, 0);
        lemma_find_space(fen@, find_space(fen@, 0) + 1);
        lemma_find_space(fen@, find_space(fen@, find_space(fen@, 0) + 1) + 1);
    }
    let p1 = find_space_at(s, 0);
    let p2 = find_space_at(s, p1 + 1);
    let p3 = find_space_at(s, p2 + 1);
    let a = p3 + 1;
    proof {
        lemma_find_space(fen@, a as int);
    }
    let b = find_space_at(s, a);
    if b - a == 1 && s.get_char(a) == '-' {
        fen
    } else {
        let mut r = s.substring_char(0, a).to_owned();
        r.append(s.substring_char(a, a + 1));
        if s.get_char(a + 1) == '4' {
            proof {
                reveal_strlit("3");
            }
            r.append("3");
        } else {
            proof {
                reveal_strlit("6");
            }
            r.append("6");
        }
        r.append(s.substring_char(b, n));
        proof {
            assert(r@ =~= ep_fixed(fen@));
        }
        r
    }
}

/// Relies on `chess::Board` being `Copy`: the copy is the same position.
#[verifier::external_body]
pub(crate) fn board_clone(b: &chess::Board) -> (r: chess::Board)
    ensures
        r == *b,
{
    *b
}

/// Relies on `Board::from_str` in the `chess` crate: parses FEN text,
/// rejecting invalid positions.
#[verifier::external_body]
pub(crate) fn board_from_fen(s: &str) -> (r: Option<chess::Board>)
    ensures
        r == parsed_fen(s@),
{
    match chess::Board::from_str(s) {
        Ok(b) => Some(b),
        Err(_) => None,
    }
}

/// Relies on the `Display` impl of `chess::Board`: writes the position as
/// FEN, six fields joined by single spaces, the en-passant field `-` or a
/// square such as `e3`.
#[verifier::external_body]
pub(crate) fn board_fen(b: &chess::Board) -> (r: String)
    ensures
        r@ == fen_of(*b),
        ep_fixable(r@),
{
    b.to_string()
}

/// The FEN text of the standard starting position.
pub open spec fn start_fen() -> Seq<char> {
    "rnbqkbnr/pppppppp/8/8/8/8/PPPPPPPP/RNBQKBNR w KQkq - 0 1"@
}

/// Relies on `Board::default` in the `chess` crate: parses the standard
/// starting position from its FEN text.
#[verifier::external_body]
pub(crate) fn board_start() -> (r: chess::Board)
    ensures
        Some(r) == parsed_fen(start_fen()),
{
    chess::Board::default()
}

/// Relies on `Board::piece_on` in the `chess` crate: the piece on a square,
/// if any.
#[verifier::external_body]
pub(crate) fn board_piece_on(b: &chess::Board, s: Sq) -> (r: Option<PieceKind>)
    requires
        s.wf(),
    ensures
        r == piece_at(*b, s),
{
    let sq = chess::Square::make_square(
        chess::Rank::from_index(s.rank as usize),
        chess::File::from_index(s.file as usize),
    );
    match b.piece_on(sq) {
        None => None,
        Some(chess::Piece::Pawn) => Some(PieceKind::Pawn),
        Some(chess::Piece::Knight) => Some(PieceKind::Knight),
        Some(chess::Piece::Bishop) => Some(PieceKind::Bishop),
        Some(chess::Piece::Rook) => Some(PieceKind::Rook),
        Some(chess::Piece::Queen) => Some(PieceKind::Queen),
        Some(chess::Piece::King) => Some(PieceKind::King),
    }
}

/// Relies on `Board::color_on` in the `chess` crate: the color of the piece
/// on a square, if any.
#[verifier::external_body]
pub(crate) fn board_color_on(b: &chess::Board, s: Sq) -> (r: Option<SideColor>)
    requires
        s.wf(),
    ensures
        r == color_at(*b, s),
{
    let sq = chess::Square::make_square(
        chess::Rank::from_index(s.rank as usize),
        chess::File::from_index(s.file as usize),
    );
    match b.color_on(sq) {
        None => None,
        Some(chess::Color::White) => Some(SideColor::White),
        Some(chess::Color::Black) => Some(SideColor::Black),
    }
}

/// Relies on `Board::side_to_move` in the `chess` crate.
#[verifier::external_body]
pub(crate) fn board_side_to_move(b: &chess::Board) -> (r: SideColor)
    ensures
        r == side_to_move_of(*b),
{
    match b.side_to_move() {
        chess::Color::White => SideColor::White,
        chess::Color::Black => SideColor::Black,
    }
}

/// Relies on `Board::status` in the `chess` crate: ongoing, stalemate or
/// checkmate by counting legal moves.
#[verifier::external_body]
pub(crate) fn board_status(b: &chess::Board) -> (r: BoardState)
    ensures
        r == status_of(*b),
{
    match b.status() {
        chess::BoardStatus::Ongoing => BoardState::Ongoing,
        chess::BoardStatus::Stalemate => BoardState::Stalemate,
        chess::BoardStatus::Checkmate => BoardState::Checkmate,
    }
}

/// Relies on `Board::checkers` in the `chess` crate: the set of checking
/// pieces, nonempty exactly when the side to move is in check.
#[verifier::external_body]
pub(crate) fn board_in_check(b: &chess::Board) -> (r: bool)
    ensures
        r == in_check(*b),
{
    b.checkers().popcnt() != 0
}

/// Relies on `Board::legal` in the `chess` crate: membership in the full
/// legal move list of the position.
#[verifier::external_body]
pub(crate) fn board_is_legal(b: &chess::Board, m: CoordMove) -> (r: bool)
    requires
        m.wf(),
    ensures
        r == is_legal(*b, m),
{
    let f = chess::Square::make_square(chess::Rank::from_index(m.from.rank as usize), chess::File::from_index(m.from.file as usize));
    let t = chess::Square::make_square(chess::Rank::from_index(m.to.rank as usize), chess::File::from_index(m.to.file as usize));
    let p = match m.promotion {
        Some(PieceKind::Knight) => Some(chess::Piece::Knight),
        Some(PieceKind::Bishop) => Some(chess::Piece::Bishop),
        Some(PieceKind::Rook) => Some(chess::Piece::Rook),
        Some(_) => Some(chess::Piece::Queen),
        None => None,
    };
    b.legal(chess::ChessMove::new(f, t, p))
}

/// Relies on `Board::make_move_new` in the `chess` crate: plays a move onto
/// a fresh copy of the position. That function assumes a legal move (it may
/// panic otherwise), so legality is required here.
#[verifier::external_body]
pub(crate) fn board_apply(b: &chess::Board, m: CoordMove) -> (r: chess::Board)
    requires
        m.wf(),
        is_legal(*b, m),
    ensures
        r == applied(*b, m),
{
    let f = chess::Square::make_square(chess::Rank::from_index(m.from.rank as usize), chess::File::from_index(m.from.file as usize));
    let t = chess::Square::make_square(chess::Rank::from_index(m.to.rank as usize), chess::File::from_index(m.to.file as usize));
    let p = match m.promotion {
        Some(PieceKind::Knight) => Some(chess::Piece::Knight),
        Some(PieceKind::Bishop) => Some(chess::Piece::Bishop),
        Some(PieceKind::Rook) => Some(chess::Piece::Rook),
        Some(_) => Some(chess::Piece::Queen),
        None => None,
    };
    b.make_move_new(chess::ChessMove::new(f, t, p))
}

/// Relies on `ChessMove::from_san` in the `chess` crate: resolves algebraic
/// text against the position's legal move list, returning the single legal
/// move that matches the text, and an error when none or several do.
#[verifier::external_body]
pub(crate) fn board_move_from_san(b: &chess::Board, s: &str) -> (r: Option<CoordMove>)
    ensures
        r == san_move(*b, s@),
        r matches Some(m) ==> m.wf() && is_legal(*b, m),
{
    match chess::ChessMove::from_san(b, s) {
        Err(_) => None,
        Ok(m) => Some(CoordMove {
            from: Sq { file: m.get_source().get_file().to_index() as u8, rank: m.get_source().get_rank().to_index() as u8 },
            to: Sq { file: m.get_dest().get_file().to_index() as u8, rank: m.get_dest().get_rank().to_index() as u8 },
            promotion: match m.get_promotion() {
                None => None,
                Some(chess::Piece::Knight) => Some(PieceKind::Knight),
                Some(chess::Piece::Bishop) => Some(PieceKind::Bishop),
                Some(chess::Piece::Rook) => Some(PieceKind::Rook),
                Some(_) => Some(PieceKind::Queen),
            },
        }),
    }
}

} // verus!
