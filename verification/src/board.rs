//! Move validation against the full chess rules.
//!
//! A move arrives as text in coordinate form ("e2e4", optionally extended by a
//! promotion letter or a separate promotion hint). Parsing, notation labels
//! and the canonical coordinate string are specified and verified here in
//! full. Board-rule questions — which moves are legal, what position a move
//! produces, whether the resulting position is checkmate or stalemate, which
//! piece stands on a square — are delegated to the `chess` crate through a
//! small trusted boundary: each boundary function names the `chess` item it
//! relies on, and everything computed from its answers is verified.

use vstd::prelude::*;

use crate::PlayerColor;

verus! {

/// Piece code for an empty square.
pub const PIECE_NONE: u8 = 0;

/// Piece code for a pawn.
pub const PIECE_PAWN: u8 = 1;

/// Piece code for a knight.
pub const PIECE_KNIGHT: u8 = 2;

/// Piece code for a bishop.
pub const PIECE_BISHOP: u8 = 3;

/// Piece code for a rook.
pub const PIECE_ROOK: u8 = 4;

/// Piece code for a queen.
pub const PIECE_QUEEN: u8 = 5;

/// Piece code for a king.
pub const PIECE_KING: u8 = 6;

/// A move in canonical coordinate form: source and destination square indices
/// (rank times eight plus file, square a1 being zero), and a promotion piece
/// code (zero when the move does not promote).
#[derive(Copy, Clone, Debug, PartialEq, Eq, Structural)]
pub struct MoveCoord {
    pub from: u8,
    pub to: u8,
    pub promo: u8,
}

impl MoveCoord {
    /// Squares are on the board and the promotion code, when present, is a
    /// knight, bishop, rook or queen.
    pub open spec fn wf(self) -> bool {
        &&& self.from < 64
        &&& self.to < 64
        &&& (self.promo == 0 || (2 <= self.promo && self.promo <= 5))
    }
}

// ---------------------------------------------------------------------------
// Character tables for coordinate text. Case folding happens letter by
// letter, so each table accepts either case where folding applies.
// ---------------------------------------------------------------------------

/// The file index denoted by a file letter, accepting either case.
pub open spec fn file_val(c: char) -> Option<u8> {
    if c == 'a' || c == 'A' {
        Option::Some(0u8)
    } else if c == 'b' || c == 'B' {
        Option::Some(1u8)
    } else if c == 'c' || c == 'C' {
        Option::Some(2u8)
    } else if c == 'd' || c == 'D' {
        Option::Some(3u8)
    } else if c == 'e' || c == 'E' {
        Option::Some(4u8)
    } else if c == 'f' || c == 'F' {
        Option::Some(5u8)
    } else if c == 'g' || c == 'G' {
        Option::Some(6u8)
    } else if c == 'h' || c == 'H' {
        Option::Some(7u8)
    } else {
        Option::None
    }
}

/// The rank index denoted by a rank digit.
pub open spec fn rank_val(c: char) -> Option<u8> {
    if c == '1' {
        Option::Some(0u8)
    } else if c == '2' {
        Option::Some(1u8)
    } else if c == '3' {
        Option::Some(2u8)
    } else if c == '4' {
        Option::Some(3u8)
    } else if c == '5' {
        Option::Some(4u8)
    } else if c == '6' {
        Option::Some(5u8)
    } else if c == '7' {
        Option::Some(6u8)
    } else if c == '8' {
        Option::Some(7u8)
    } else {
        Option::None
    }
}

/// The promotion piece code denoted by a letter, accepting either case.
pub open spec fn promo_val(c: char) -> Option<u8> {
    if c == 'q' || c == 'Q' {
        Option::Some(PIECE_QUEEN)
    } else if c == 'r' || c == 'R' {
        Option::Some(PIECE_ROOK)
    } else if c == 'b' || c == 'B' {
        Option::Some(PIECE_BISHOP)
    } else if c == 'n' || c == 'N' {
        Option::Some(PIECE_KNIGHT)
    } else {
        Option::None
    }
}

/// The square denoted by a file letter and a rank digit.
pub open spec fn square_val(cf: char, cr: char) -> Option<u8> {
    match (file_val(cf), rank_val(cr)) {
        (Option::Some(f), Option::Some(r)) => Option::Some((r * 8 + f) as u8),
        _ => Option::None,
    }
}

fn file_of_char(c: char) -> (r: Option<u8>)
    ensures
        r == file_val(c),
{
    if c == 'a' || c == 'A' {
        Option::Some(0u8)
    } else if c == 'b' || c == 'B' {
        Option::Some(1u8)
    } else if c == 'c' || c == 'C' {
        Option::Some(2u8)
    } else if c == 'd' || c == 'D' {
        Option::Some(3u8)
    } else if c == 'e' || c == 'E' {
        Option::Some(4u8)
    } else if c == 'f' || c == 'F' {
        Option::Some(5u8)
    } else if c == 'g' || c == 'G' {
        Option::Some(6u8)
    } else if c == 'h' || c == 'H' {
        Option::Some(7u8)
    } else {
        Option::None
    }
}

fn rank_of_char(c: char) -> (r: Option<u8>)
    ensures
        r == rank_val(c),
{
    if c == '1' {
        Option::Some(0u8)
    } else if c == '2' {
        Option::Some(1u8)
    } else if c == '3' {
        Option::Some(2u8)
    } else if c == '4' {
        Option::Some(3u8)
    } else if c == '5' {
        Option::Some(4u8)
    } else if c == '6' {
        Option::Some(5u8)
    } else if c == '7' {
        Option::Some(6u8)
    } else if c == '8' {
        Option::Some(7u8)
    } else {
        Option::None
    }
}

fn promo_of_char(c: char) -> (r: Option<u8>)
    ensures
        r == promo_val(c),
{
    if c == 'q' || c == 'Q' {
        Option::Some(PIECE_QUEEN)
    } else if c == 'r' || c == 'R' {
        Option::Some(PIECE_ROOK)
    } else if c == 'b' || c == 'B' {
        Option::Some(PIECE_BISHOP)
    } else if c == 'n' || c == 'N' {
        Option::Some(PIECE_KNIGHT)
    } else {
        Option::None
    }
}

// ---------------------------------------------------------------------------
// Parsing coordinate text into a canonical move.
// ---------------------------------------------------------------------------

/// The view of an optional promotion hint.
pub open spec fn hint_view(h: Option<&str>) -> Option<Seq<char>> {
    match h {
        Option::Some(s) => Option::Some(s@),
        Option::None => Option::None,
    }
}

/// The promotion letter taken from a hint: its first character, defaulting to
/// a queen when the hint is empty.
pub open spec fn hint_char(h: Seq<char>) -> char {
    if h.len() == 0 {
        'q'
    } else {
        h[0]
    }
}

/// The effective move text: when the text is exactly four characters and a
/// separate promotion hint is supplied, the hint's letter is appended.
pub open spec fn eff_uci(raw: Seq<char>, hint: Option<Seq<char>>) -> Seq<char> {
    match hint {
        Option::Some(h) => if raw.len() == 4 {
            raw.push(hint_char(h))
        } else {
            raw
        },
        Option::None => raw,
    }
}

/// Parses move text into a canonical move: a four-character coordinate pair,
/// optionally extended by further characters of which the last must denote a
/// promotion piece. Malformed coordinates and unrecognized promotion letters
/// are rejected.
pub open spec fn parse_uci(raw: Seq<char>, hint: Option<Seq<char>>) -> Option<MoveCoord> {
    let s = eff_uci(raw, hint);
    if s.len() < 4 {
        Option::None
    } else {
        match (square_val(s[0], s[1]), square_val(s[2], s[3])) {
            (Option::Some(from), Option::Some(to)) => if s.len() > 4 {
                match promo_val(s[s.len() - 1]) {
                    Option::Some(p) => Option::Some(MoveCoord { from, to, promo: p }),
                    Option::None => Option::None,
                }
            } else {
                Option::Some(MoveCoord { from, to, promo: 0 })
            },
            _ => Option::None,
        }
    }
}

/// The canonical move parsed from the text, or a placeholder when the text is
/// rejected.
pub open spec fn parsed(raw: Seq<char>, hint: Option<Seq<char>>) -> MoveCoord {
    match parse_uci(raw, hint) {
        Option::Some(m) => m,
        Option::None => MoveCoord { from: 0, to: 0, promo: 0 },
    }
}

/// Parses move text plus optional promotion hint into a canonical move.
pub fn parse_uci_move(raw: &str, hint: Option<&str>) -> (r: Option<MoveCoord>)
    ensures
        r == parse_uci(raw@, hint_view(hint)),
        r matches Some(m) ==> m.wf(),
{
    let n = raw.unicode_len();
    proof {
        assert(eff_uci(raw@, hint_view(hint)).len() >= raw@.len());
    }
    if n < 4 {
        return Option::None;
    }
    let from = match square_of_chars(raw.get_char(0), raw.get_char(1)) {
        Option::Some(s) => s,
        Option::None => {
            return Option::None;
        },
    };
    let to = match square_of_chars(raw.get_char(2), raw.get_char(3)) {
        Option::Some(s) => s,
        Option::None => {
            return Option::None;
        },
    };
    let pc: Option<char> = if n > 4 {
        Option::Some(raw.get_char(n - 1))
    } else {
        match hint {
            Option::Some(h) => Option::Some(
                if h.unicode_len() == 0 {
                    'q'
                } else {
                    h.get_char(0)
                },
            ),
            Option::None => Option::None,
        }
    };
    match pc {
        Option::None => Option::Some(MoveCoord { from, to, promo: 0 }),
        Option::Some(c) => match promo_of_char(c) {
            Option::Some(p) => Option::Some(MoveCoord { from, to, promo: p }),
            Option::None => Option::None,
        },
    }
}

fn square_of_chars(cf: char, cr: char) -> (r: Option<u8>)
    ensures
        r == square_val(cf, cr),
        r matches Some(s) ==> s < 64,
{
    match (file_of_char(cf), rank_of_char(cr)) {
        (Option::Some(f), Option::Some(rk)) => Option::Some(rk * 8 + f),
        _ => Option::None,
    }
}

// ---------------------------------------------------------------------------
// Rendering moves back into text: the canonical coordinate string and the
// simplified notation label.
// ---------------------------------------------------------------------------

/// The lower-case letter of a file index.
pub open spec fn file_char(f: int) -> char {
    if f == 0 {
        'a'
    } else if f == 1 {
        'b'
    } else if f == 2 {
        'c'
    } else if f == 3 {
        'd'
    } else if f == 4 {
        'e'
    } else if f == 5 {
        'f'
    } else if f == 6 {
        'g'
    } else {
        'h'
    }
}

/// The digit of a rank index.
pub open spec fn rank_char(r: int) -> char {
    if r == 0 {
        '1'
    } else if r == 1 {
        '2'
    } else if r == 2 {
        '3'
    } else if r == 3 {
        '4'
    } else if r == 4 {
        '5'
    } else if r == 5 {
        '6'
    } else if r == 6 {
        '7'
    } else {
        '8'
    }
}

/// The two-character name of a square: file letter then rank digit.
pub open spec fn square_seq(sq: u8) -> Seq<char> {
    seq![file_char(sq as int % 8), rank_char(sq as int / 8)]
}

/// The lower-case promotion letter of a piece code.
pub open spec fn promo_char(p: u8) -> char {
    if p == PIECE_ROOK {
        'r'
    } else if p == PIECE_BISHOP {
        'b'
    } else if p == PIECE_KNIGHT {
        'n'
    } else {
        'q'
    }
}

/// The canonical coordinate text of a move: source square, destination
/// square, and the promotion letter when the move promotes.
pub open spec fn uci_of(m: MoveCoord) -> Seq<char> {
    square_seq(m.from) + square_seq(m.to) + (if m.promo != 0 {
        seq![promo_char(m.promo)]
    } else {
        Seq::<char>::empty()
    })
}

/// The upper-case letter of a piece code, empty for pawns (and for an empty
/// square, which no legal move ever moves).
pub open spec fn piece_letter(p: u8) -> Seq<char> {
    if p == PIECE_KING {
        seq!['K']
    } else if p == PIECE_QUEEN {
        seq!['Q']
    } else if p == PIECE_ROOK {
        seq!['R']
    } else if p == PIECE_BISHOP {
        seq!['B']
    } else if p == PIECE_KNIGHT {
        seq!['N']
    } else {
        Seq::<char>::empty()
    }
}

/// The upper-case promotion suffix letter of a piece code.
pub open spec fn promo_upper(p: u8) -> char {
    if p == PIECE_ROOK {
        'R'
    } else if p == PIECE_BISHOP {
        'B'
    } else if p == PIECE_KNIGHT {
        'N'
    } else {
        'Q'
    }
}

/// The simplified notation label of a move: piece letter (blank for pawns),
/// a capture marker when the destination was occupied, the destination
/// square, and a promotion suffix when the move promotes. Disambiguation,
/// check and checkmate suffixes, and castling and en-passant notation are
/// intentionally omitted.
pub open spec fn san_of(moved: u8, captured: bool, m: MoveCoord) -> Seq<char> {
    piece_letter(moved) + (if captured {
        seq!['x']
    } else {
        Seq::<char>::empty()
    }) + square_seq(m.to) + (if m.promo != 0 {
        seq!['=', promo_upper(m.promo)]
    } else {
        Seq::<char>::empty()
    })
}

fn file_str(f: u8) -> (r: &'static str)
    requires
        f < 8,
    ensures
        r@ =~= seq![file_char(f as int)],
{
    if f == 0 {
        proof { reveal_strlit("a"); }
        "a"
    } else if f == 1 {
        proof { reveal_strlit("b"); }
        "b"
    } else if f == 2 {
        proof { reveal_strlit("c"); }
        "c"
    } else if f == 3 {
        proof { reveal_strlit("d"); }
        "d"
    } else if f == 4 {
        proof { reveal_strlit("e"); }
        "e"
    } else if f == 5 {
        proof { reveal_strlit("f"); }
        "f"
    } else if f == 6 {
        proof { reveal_strlit("g"); }
        "g"
    } else {
        proof { reveal_strlit("h"); }
        "h"
    }
}

fn rank_str(r: u8) -> (s: &'static str)
    requires
        r < 8,
    ensures
        s@ =~= seq![rank_char(r as int)],
{
    if r == 0 {
        proof { reveal_strlit("1"); }
        "1"
    } else if r == 1 {
        proof { reveal_strlit("2"); }
        "2"
    } else if r == 2 {
        proof { reveal_strlit("3"); }
        "3"
    } else if r == 3 {
        proof { reveal_strlit("4"); }
        "4"
    } else if r == 4 {
        proof { reveal_strlit("5"); }
        "5"
    } else if r == 5 {
        proof { reveal_strlit("6"); }
        "6"
    } else if r == 6 {
        proof { reveal_strlit("7"); }
        "7"
    } else {
        proof { reveal_strlit("8"); }
        "8"
    }
}

fn square_string(sq: u8) -> (r: String)
    requires
        sq < 64,
    ensures
        r@ =~= square_seq(sq),
{
    String::from_str(file_str(sq % 8)).concat(rank_str(sq / 8))
}

fn promo_str(p: u8) -> (r: &'static str)
    requires
        p != 0,
    ensures
        r@ =~= seq![promo_char(p)],
{
    if p == PIECE_ROOK {
        proof { reveal_strlit("r"); }
        "r"
    } else if p == PIECE_BISHOP {
        proof { reveal_strlit("b"); }
        "b"
    } else if p == PIECE_KNIGHT {
        proof { reveal_strlit("n"); }
        "n"
    } else {
        proof { reveal_strlit("q"); }
        "q"
    }
}

/// Renders a move as canonical coordinate text.
pub fn uci_string(m: &MoveCoord) -> (r: String)
    requires
        m.wf(),
    ensures
        r@ =~= uci_of(*m),
{
    let base = square_string(m.from).concat(square_string(m.to).as_str());
    if m.promo != 0 {
        base.concat(promo_str(m.promo))
    } else {
        base
    }
}

fn piece_letter_str(p: u8) -> (r: &'static str)
    ensures
        r@ =~= piece_letter(p),
{
    if p == PIECE_KING {
        proof { reveal_strlit("K"); }
        "K"
    } else if p == PIECE_QUEEN {
        proof { reveal_strlit("Q"); }
        "Q"
    } else if p == PIECE_ROOK {
        proof { reveal_strlit("R"); }
        "R"
    } else if p == PIECE_BISHOP {
        proof { reveal_strlit("B"); }
        "B"
    } else if p == PIECE_KNIGHT {
        proof { reveal_strlit("N"); }
        "N"
    } else {
        proof { reveal_strlit(""); }
        ""
    }
}

fn promo_suffix_str(p: u8) -> (r: &'static str)
    requires
        p != 0,
    ensures
        r@ =~= seq!['=', promo_upper(p)],
{
    if p == PIECE_ROOK {
        proof { reveal_strlit("=R"); }
        "=R"
    } else if p == PIECE_BISHOP {
        proof { reveal_strlit("=B"); }
        "=B"
    } else if p == PIECE_KNIGHT {
        proof { reveal_strlit("=N"); }
        "=N"
    } else {
        proof { reveal_strlit("=Q"); }
        "=Q"
    }
}

/// Renders the simplified notation label for a move of the given piece code,
/// marking a capture when the destination was occupied.
pub fn generate_san(moved: u8, captured: bool, m: &MoveCoord) -> (r: String)
    requires
        m.wf(),
    ensures
        r@ =~= san_of(moved, captured, *m),
{
    let mut s = String::from_str(piece_letter_str(moved));
    if captured {
        proof { reveal_strlit("x"); }
        s.append("x");
    }
    s.append(square_string(m.to).as_str());
    if m.promo != 0 {
        s.append(promo_suffix_str(m.promo));
    }
    s
}

// ---------------------------------------------------------------------------
// The trusted boundary to the `chess` crate. Each name below stands for a
// value that the crate computes from a position alone; the functions that
// apply the names state what the crate's source shows and nothing more.
// ---------------------------------------------------------------------------

/// Whether the position text parses as a valid position.
pub uninterp spec fn fen_ok(fen: Seq<char>) -> bool;

/// The legal moves of the side to move in the given position.
pub uninterp spec fn legal_moves_of(fen: Seq<char>) -> Seq<MoveCoord>;

/// The piece code standing on a square of the given position, zero for an
/// empty square.
pub uninterp spec fn piece_code_at(fen: Seq<char>, sq: u8) -> u8;

/// The position text produced by applying a legal move to a position.
pub uninterp spec fn fen_after_of(fen: Seq<char>, m: MoveCoord) -> Seq<char>;

/// The classification of a position: zero ongoing, one stalemate, two
/// checkmate.
pub uninterp spec fn status_code_of(fen: Seq<char>) -> u8;

/// Relies on `chess::Board::from_str` (valid-position parsing is a function
/// of the text alone) and `chess::MoveGen::new_legal`: the legal-move set is
/// a function of the position alone, each move a source/destination/promotion
/// triple with both square indices below 64 and promotions drawn from knight,
/// bishop, rook and queen.
#[verifier::external_body]
pub(crate) fn fen_legal_moves(fen: &str) -> (r: Option<Vec<MoveCoord>>)
    ensures
        r is Some <==> fen_ok(fen@),
        r matches Some(v) ==> v@ == legal_moves_of(fen@),
        r matches Some(v) ==> forall|i: int|
            0 <= i < v@.len() ==> (#[trigger] v@[i]).wf(),
{
    let board = match <chess::Board as core::str::FromStr>::from_str(fen) {
        Ok(b) => b,
        Err(_) => return None,
    };
    Some(chess::MoveGen::new_legal(&board).map(|m| MoveCoord {
        from: m.get_source().to_int(),
        to: m.get_dest().to_int(),
        promo: m.get_promotion().map(|p| p as u8 + 1).unwrap_or(0),
    }).collect())
}

/// Relies on `chess::Board::piece_on`: the piece on a square is a function
/// of the position alone, one of six kinds or absent.
#[verifier::external_body]
pub(crate) fn fen_piece_code_at(fen: &str, sq: u8) -> (r: u8)
    requires
        fen_ok(fen@),
        sq < 64,
    ensures
        r == piece_code_at(fen@, sq),
{
    let board = <chess::Board as core::str::FromStr>::from_str(fen).unwrap();
    board.piece_on(chess::ALL_SQUARES[sq as usize]).map(|p| p as u8 + 1).unwrap_or(0)
}

/// Relies on `chess::Board::make_move_new` and the `chess::Board` display
/// form: applying a legal move yields a position whose text parses back as a
/// valid position.
#[verifier::external_body]
pub(crate) fn fen_apply_move(fen: &str, m: &MoveCoord) -> (r: String)
    requires
        fen_ok(fen@),
        m.wf(),
        legal_moves_of(fen@).contains(*m),
    ensures
        r@ == fen_after_of(fen@, *m),
        fen_ok(r@),
{
    let board = <chess::Board as core::str::FromStr>::from_str(fen).unwrap();
    let mv = chess::ChessMove::new(
        chess::ALL_SQUARES[m.from as usize],
        chess::ALL_SQUARES[m.to as usize],
        match m.promo {
            2 => Some(chess::Piece::Knight),
            3 => Some(chess::Piece::Bishop),
            4 => Some(chess::Piece::Rook),
            5 => Some(chess::Piece::Queen),
            _ => None,
        },
    );
    board.make_move_new(mv).to_string()
}

/// Relies on `chess::Board::status`: a position is ongoing, stalemate or
/// checkmate, as a function of the position alone.
#[verifier::external_body]
pub(crate) fn fen_status(fen: &str) -> (r: u8)
    requires
        fen_ok(fen@),
    ensures
        r == status_code_of(fen@),
{
    let board = <chess::Board as core::str::FromStr>::from_str(fen).unwrap();
    match board.status() {
        chess::BoardStatus::Ongoing => 0,
        chess::BoardStatus::Stalemate => 1,
        chess::BoardStatus::Checkmate => 2,
    }
}

// ---------------------------------------------------------------------------
// The validator: parse, check against the full legal-move set, apply,
// classify, label.
// ---------------------------------------------------------------------------

/// The result of a finished game: a winning seat, or a draw.
#[derive(Copy, Clone, Debug, PartialEq, Eq, Structural)]
pub enum MatchResult {
    Winner(PlayerColor),
    Draw,
}

/// Everything a successfully applied move produces.
#[derive(Debug)]
pub struct MoveComputation {
    /// The position after the move.
    pub fen: String,
    /// The move in canonical coordinate form.
    pub uci: String,
    /// The simplified notation label.
    pub san: Option<String>,
    /// The terminal result the move produced, if any.
    pub result: Option<MatchResult>,
}

/// A move is accepted exactly when the position is valid, the text parses,
/// and the parsed move is a member of the full legal-move set.
pub open spec fn move_accepted(fen: Seq<char>, raw: Seq<char>, hint: Option<Seq<char>>) -> bool {
    &&& fen_ok(fen)
    &&& parse_uci(raw, hint) is Some
    &&& legal_moves_of(fen).contains(parsed(raw, hint))
}

/// The notation label of a move in a position: moved piece, capture marker
/// when the destination is occupied.
pub open spec fn san_for(fen: Seq<char>, m: MoveCoord) -> Seq<char> {
    san_of(piece_code_at(fen, m.from), piece_code_at(fen, m.to) != 0, m)
}

/// The terminal result a move by `mover` produced, read off the position it
/// led to: none while the game is ongoing, a draw on stalemate, and a win
/// for the side that just moved on checkmate.
pub open spec fn result_for(fen2: Seq<char>, mover: PlayerColor) -> Option<MatchResult> {
    if status_code_of(fen2) == 1 {
        Option::Some(MatchResult::Draw)
    } else if status_code_of(fen2) == 2 {
        Option::Some(MatchResult::Winner(mover))
    } else {
        Option::None
    }
}

/// Validates and applies a move expressed as coordinate text.
///
/// The move is parsed, checked for membership in the full legal-move set of
/// the position (which enforces check, pinning, castling rights, en passant
/// and promotion requirements by construction), applied, and the resulting
/// position classified. `mover` is the seat making the move and is recorded
/// as the winner when the move delivers checkmate.
pub fn apply_uci_move(current_fen: &str, raw_uci: &str, promotion: Option<&str>, mover: PlayerColor)
    -> (r: Result<MoveComputation, ()>)
    ensures
        r is Ok <==> move_accepted(current_fen@, raw_uci@, hint_view(promotion)),
        r matches Ok(c) ==> ({
            let m = parsed(raw_uci@, hint_view(promotion));
            &&& m.wf()
            &&& c.fen@ == fen_after_of(current_fen@, m)
            &&& fen_ok(c.fen@)
            &&& c.uci@ == uci_of(m)
            &&& (c.san matches Some(s) && s@ == san_for(current_fen@, m))
            &&& c.result == result_for(fen_after_of(current_fen@, m), mover)
        }),
{
    let legal = match fen_legal_moves(current_fen) {
        Option::Some(v) => v,
        Option::None => {
            return Result::Err(());
        },
    };
    let m = match parse_uci_move(raw_uci, promotion) {
        Option::Some(m) => m,
        Option::None => {
            return Result::Err(());
        },
    };
    let mut found = false;
    let mut i: usize = 0;
    while i < legal.len()
        invariant
            i <= legal@.len(),
            found <==> exists|j: int| 0 <= j < i && legal@[j] == m,
        decreases legal@.len() - i,
    {
        if legal[i] == m {
            found = true;
        }
        i += 1;
    }
    if !found {
        return Result::Err(());
    }
    proof {
        assert(legal_moves_of(current_fen@).contains(m));
    }
    let new_fen = fen_apply_move(current_fen, &m);
    let moved = fen_piece_code_at(current_fen, m.from);
    let cap = fen_piece_code_at(current_fen, m.to);
    let san = generate_san(moved, cap != 0, &m);
    let status = fen_status(new_fen.as_str());
    let result = if status == 1 {
        Option::Some(MatchResult::Draw)
    } else if status == 2 {
        Option::Some(MatchResult::Winner(mover))
    } else {
        Option::None
    };
    Result::Ok(MoveComputation { fen: new_fen, uci: uci_string(&m), san: Option::Some(san), result })
}

/// Parsing the canonical coordinate text of a well-formed move, with no
/// separate promotion hint, yields the move itself back.
pub proof fn lemma_uci_round_trip(m: MoveCoord)
    requires
        m.wf(),
    ensures
        parse_uci(uci_of(m), Option::None) == Option::Some(m),
{
    let s = uci_of(m);
    assert(file_val(file_char(m.from as int % 8)) == Option::Some((m.from % 8) as u8));
    assert(rank_val(rank_char(m.from as int / 8)) == Option::Some((m.from / 8) as u8));
    assert(file_val(file_char(m.to as int % 8)) == Option::Some((m.to % 8) as u8));
    assert(rank_val(rank_char(m.to as int / 8)) == Option::Some((m.to / 8) as u8));
    assert(s[0] == file_char(m.from as int % 8));
    assert(s[1] == rank_char(m.from as int / 8));
    assert(s[2] == file_char(m.to as int % 8));
    assert(s[3] == rank_char(m.to as int / 8));
    assert(square_val(s[0], s[1]) == Option::Some(m.from)) by {
        assert(m.from / 8 * 8 + m.from % 8 == m.from);
    }
    assert(square_val(s[2], s[3]) == Option::Some(m.to)) by {
        assert(m.to / 8 * 8 + m.to % 8 == m.to);
    }
    if m.promo != 0 {
        assert(s.len() == 5);
        assert(s[4] == promo_char(m.promo));
        assert(promo_val(promo_char(m.promo)) == Option::Some(m.promo));
    } else {
        assert(s.len() == 4);
    }
}

} // verus!
