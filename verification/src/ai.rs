//! The automated opponent: a deterministic one-ply move selector.
//!
//! Every legal move of the position is scored by a static heuristic — the
//! value of the captured piece, a fixed promotion bonus, and a positional
//! bonus for central destinations. The highest-scoring move wins; ties
//! resolve to the smallest move under a fixed canonical ordering (ascending
//! source square, then destination square, then queen before rook before
//! bishop before knight), so the outcome is reproducible across runs.

use vstd::prelude::*;

use crate::board::MoveCoord;
use crate::board::fen_ok;
use crate::board::legal_moves_of;
use crate::board::piece_code_at;
use crate::board::uci_of;
use crate::board::uci_string;

verus! {

/// The capture value of a piece code: pawn one, knight and bishop three,
/// rook five, queen nine, king and empty square zero.
pub open spec fn piece_value(p: u8) -> int {
    if p == 1 {
        1
    } else if p == 2 || p == 3 {
        3
    } else if p == 4 {
        5
    } else if p == 5 {
        9
    } else {
        0
    }
}

/// The positional bonus of a destination square: two for the four innermost
/// center squares, one for the surrounding ring, zero elsewhere.
pub open spec fn square_bonus(sq: u8) -> int {
    let f = sq as int % 8;
    let r = sq as int / 8;
    if (f == 3 || f == 4) && (r == 3 || r == 4) {
        2
    } else if 2 <= f && f <= 5 && 2 <= r && r <= 5 {
        1
    } else {
        0
    }
}

/// The heuristic score of a move in a position: captured-piece value, plus
/// five when the move promotes, plus the destination's positional bonus.
pub open spec fn score_spec(fen: Seq<char>, m: MoveCoord) -> int {
    piece_value(piece_code_at(fen, m.to)) + (if m.promo != 0 {
        5int
    } else {
        0int
    }) + square_bonus(m.to)
}

/// The tie-break rank of a promotion code: none first, then queen, rook,
/// bishop, knight.
pub open spec fn promo_rank(p: u8) -> int {
    if p == 0 {
        0
    } else {
        6 - p
    }
}

/// The canonical ordering key of a move: ascending source square, then
/// destination square, then promotion rank. Well-formed moves have distinct
/// keys unless they are equal.
pub open spec fn move_key(m: MoveCoord) -> int {
    m.from * 512 + m.to * 8 + promo_rank(m.promo)
}

/// `a` is selected over `b` under the score `sc`: it scores strictly higher,
/// or scores equally and does not come later in the canonical ordering.
pub open spec fn prefer_by(sc: spec_fn(MoveCoord) -> int, a: MoveCoord, b: MoveCoord) -> bool {
    sc(a) > sc(b) || (sc(a) == sc(b) && move_key(a) <= move_key(b))
}

/// `m` is the selection from `s` under the score `sc`: a member selected
/// over every member.
pub open spec fn is_choice_by(s: Seq<MoveCoord>, sc: spec_fn(MoveCoord) -> int, m: MoveCoord) -> bool {
    &&& s.contains(m)
    &&& forall|j: int| 0 <= j < s.len() ==> prefer_by(sc, m, #[trigger] s[j])
}

/// The heuristic score of the position's moves, as a function.
pub open spec fn score_fn(fen: Seq<char>) -> spec_fn(MoveCoord) -> int {
    |m: MoveCoord| score_spec(fen, m)
}

/// `m` is the opponent's selection for the position: the highest-scoring
/// legal move, ties resolved by the canonical ordering.
pub open spec fn is_ai_choice(fen: Seq<char>, m: MoveCoord) -> bool {
    is_choice_by(legal_moves_of(fen), score_fn(fen), m)
}

/// The opponent's selection for the position (meaningful whenever some legal
/// move exists).
pub open spec fn ai_choice(fen: Seq<char>) -> MoveCoord {
    choose|m: MoveCoord| is_ai_choice(fen, m)
}

/// Well-formed moves with equal canonical keys are equal.
pub proof fn lemma_key_injective(a: MoveCoord, b: MoveCoord)
    requires
        a.wf(),
        b.wf(),
        move_key(a) == move_key(b),
    ensures
        a == b,
{
    assert(0 <= promo_rank(a.promo) < 8);
    assert(0 <= promo_rank(b.promo) < 8);
    assert(a.from == b.from && a.to == b.to && promo_rank(a.promo) == promo_rank(b.promo));
    assert(a.promo == b.promo);
}

/// The selection from a sequence of well-formed moves is unique: the
/// opponent, given two legal moves with identical scores, always picks the
/// same one.
pub proof fn lemma_choice_unique(
    s: Seq<MoveCoord>,
    sc: spec_fn(MoveCoord) -> int,
    a: MoveCoord,
    b: MoveCoord,
)
    requires
        forall|i: int| 0 <= i < s.len() ==> (#[trigger] s[i]).wf(),
        is_choice_by(s, sc, a),
        is_choice_by(s, sc, b),
    ensures
        a == b,
{
    let ia = choose|i: int| 0 <= i < s.len() && s[i] == a;
    let ib = choose|i: int| 0 <= i < s.len() && s[i] == b;
    assert(s.contains(a) && s.contains(b));
    assert(0 <= ia < s.len() && s[ia] == a);
    assert(0 <= ib < s.len() && s[ib] == b);
    assert(prefer_by(sc, a, s[ib]));
    assert(prefer_by(sc, b, s[ia]));
    assert(move_key(a) == move_key(b));
    lemma_key_injective(a, b);
}

fn move_key_exec(m: &MoveCoord) -> (r: u32)
    requires
        m.wf(),
    ensures
        r == move_key(*m),
{
    (m.from as u32) * 512 + (m.to as u32) * 8 + (if m.promo == 0 {
        0
    } else {
        (6 - m.promo) as u32
    })
}

/// Scores one move of the position under the static heuristic.
pub fn score_move(fen: &str, m: &MoveCoord) -> (r: i32)
    requires
        fen_ok(fen@),
        m.wf(),
    ensures
        r == score_spec(fen@, *m),
{
    let cap = crate::board::fen_piece_code_at(fen, m.to);
    let mut score: i32 = if cap == 1 {
        1
    } else if cap == 2 || cap == 3 {
        3
    } else if cap == 4 {
        5
    } else if cap == 5 {
        9
    } else {
        0
    };
    if m.promo != 0 {
        score = score + 5;
    }
    let f = m.to % 8;
    let r = m.to / 8;
    if (f == 3 || f == 4) && (r == 3 || r == 4) {
        score = score + 2;
    } else if 2 <= f && f <= 5 && 2 <= r && r <= 5 {
        score = score + 1;
    }
    score
}

/// Selects the opponent's move for the position: none when the position does
/// not parse or has no legal move, otherwise the unique canonical selection.
pub fn ai_move(fen: &str) -> (r: Option<MoveCoord>)
    ensures
        r is Some <==> (fen_ok(fen@) && legal_moves_of(fen@).len() > 0),
        r matches Some(m) ==> ({
            &&& is_ai_choice(fen@, m)
            &&& m == ai_choice(fen@)
            &&& m.wf()
            &&& legal_moves_of(fen@).contains(m)
        }),
{
    let legal = match crate::board::fen_legal_moves(fen) {
        Option::Some(v) => v,
        Option::None => {
            return Option::None;
        },
    };
    if legal.len() == 0 {
        return Option::None;
    }
    let mut best: MoveCoord = legal[0];
    let mut best_score: i32 = score_move(fen, &best);
    let mut i: usize = 1;
    while i < legal.len()
        invariant
            fen_ok(fen@),
            legal@ == legal_moves_of(fen@),
            forall|k: int| 0 <= k < legal@.len() ==> (#[trigger] legal@[k]).wf(),
            1 <= i <= legal@.len(),
            legal@.contains(best),
            best.wf(),
            best_score == score_spec(fen@, best),
            forall|j: int| 0 <= j < i ==> prefer_by(score_fn(fen@), best, #[trigger] legal@[j]),
        decreases legal@.len() - i,
    {
        let cand = legal[i];
        let sc = score_move(fen, &cand);
        if sc > best_score || (sc == best_score && move_key_exec(&cand) < move_key_exec(&best)) {
            best = cand;
            best_score = sc;
            proof {
                assert(legal@.contains(best)) by {
                    assert(legal@[i as int] == best);
                }
            }
        }
        i += 1;
    }
    proof {
        assert(is_ai_choice(fen@, best));
        assert(is_ai_choice(fen@, ai_choice(fen@))) by {
            assert(exists|m: MoveCoord| is_ai_choice(fen@, m)) by {
                assert(is_ai_choice(fen@, best));
            }
        }
        lemma_choice_unique(legal_moves_of(fen@), score_fn(fen@), best, ai_choice(fen@));
    }
    Option::Some(best)
}

/// The automated opponent's move for the position, in canonical coordinate
/// text: deterministic, and always a member of the position's legal-move
/// set.
pub fn pick_ai_move(fen: &str) -> (r: Option<String>)
    ensures
        r is Some <==> (fen_ok(fen@) && legal_moves_of(fen@).len() > 0),
        r matches Some(u) ==> u@ == uci_of(ai_choice(fen@))
            && legal_moves_of(fen@).contains(ai_choice(fen@)),
{
    match ai_move(fen) {
        Option::Some(m) => Option::Some(uci_string(&m)),
        Option::None => Option::None,
    }
}

} // verus!
