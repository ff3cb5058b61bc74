//! Stored records and the application state: games keyed by identifier and
//! the rating ladder keyed by participant identity.
//!
//! The host's storage collaborator is a key-value store; here the state
//! holds the games as a vector sorted by strictly increasing identifier and
//! the ladder as a vector of entries with pairwise distinct identities, and
//! states those key-value properties as its invariant.

use vstd::prelude::*;

use crate::GameStatus;
use crate::GameSummary;
use crate::MoveRecord;
use crate::PlayerColor;
use crate::PlayerStats;
use crate::opt_seq;
use crate::rec_eq;

verus! {

/// The seat that plays the ply with the given index: white plays even plies,
/// black odd ones, so accepted moves strictly alternate between the seats.
pub open spec fn ply_color(i: int) -> PlayerColor {
    if i % 2 == 0 {
        PlayerColor::White
    } else {
        PlayerColor::Black
    }
}

/// Internal representation kept inside storage.
#[derive(Debug)]
pub struct StoredGame {
    pub game_id: u64,
    pub white: u64,
    pub black: Option<u64>,
    pub ai_black: bool,
    pub board_fen: String,
    pub moves: Vec<MoveRecord>,
    pub turn: PlayerColor,
    pub status: GameStatus,
    pub winner: Option<PlayerColor>,
    pub created_at: u64,
    pub updated_at: u64,
    pub metadata: Option<String>,
}

impl StoredGame {
    /// The game record's invariant: accepted moves strictly alternate
    /// starting with white and `turn` is the next seat to play; a lobby has
    /// no second seat, no moves, and no automated opponent; an automated
    /// game never fills the second seat; and a winner exists only once the
    /// game is finished.
    pub open spec fn wf(self) -> bool {
        &&& forall|i: int|
            0 <= i < self.moves@.len() ==> (#[trigger] self.moves@[i]).played_by == ply_color(i)
        &&& self.turn == ply_color(self.moves@.len() as int)
        &&& (self.status is Lobby ==> self.black is None && self.moves@.len() == 0
            && !self.ai_black)
        &&& (self.status is Active ==> self.black is Some || self.ai_black)
        &&& (self.ai_black ==> self.black is None)
        &&& (self.winner is Some ==> self.status is Finished)
    }

    /// The public view carries exactly the stored record's data.
    pub open spec fn summarized_by(self, s: GameSummary) -> bool {
        &&& s.game_id == self.game_id
        &&& s.white == self.white
        &&& s.black == self.black
        &&& s.ai_black == self.ai_black
        &&& s.board_fen@ == self.board_fen@
        &&& s.moves@.len() == self.moves@.len()
        &&& forall|i: int|
            0 <= i < self.moves@.len() ==> rec_eq(#[trigger] s.moves@[i], self.moves@[i])
        &&& s.turn == self.turn
        &&& s.status == self.status
        &&& s.winner == self.winner
        &&& s.created_at == self.created_at
        &&& s.updated_at == self.updated_at
        &&& opt_seq(s.metadata) == opt_seq(self.metadata)
    }

    /// Produces the public view of this game.
    pub fn to_summary(&self) -> (r: GameSummary)
        ensures
            self.summarized_by(r),
    {
        GameSummary {
            game_id: self.game_id,
            white: self.white,
            black: self.black,
            ai_black: self.ai_black,
            board_fen: clone_string(&self.board_fen),
            moves: clone_moves(&self.moves),
            turn: self.turn,
            status: self.status,
            winner: self.winner,
            created_at: self.created_at,
            updated_at: self.updated_at,
            metadata: clone_opt_string(&self.metadata),
        }
    }
}

pub(crate) fn clone_string(s: &String) -> (r: String)
    ensures
        r@ == s@,
{
    String::from_str(s.as_str())
}

pub(crate) fn clone_opt_string(s: &Option<String>) -> (r: Option<String>)
    ensures
        opt_seq(r) == opt_seq(*s),
{
    match s {
        Option::Some(v) => Option::Some(clone_string(v)),
        Option::None => Option::None,
    }
}

pub(crate) fn clone_record(m: &MoveRecord) -> (r: MoveRecord)
    ensures
        rec_eq(r, *m),
{
    MoveRecord {
        uci: clone_string(&m.uci),
        san: clone_opt_string(&m.san),
        played_by: m.played_by,
        played_at: m.played_at,
    }
}

pub(crate) fn clone_moves(v: &Vec<MoveRecord>) -> (r: Vec<MoveRecord>)
    ensures
        r@.len() == v@.len(),
        forall|i: int| 0 <= i < v@.len() ==> rec_eq(#[trigger] r@[i], v@[i]),
{
    let mut r: Vec<MoveRecord> = Vec::new();
    let mut i: usize = 0;
    while i < v.len()
        invariant
            i <= v@.len(),
            r@.len() == i,
            forall|j: int| 0 <= j < i ==> rec_eq(#[trigger] r@[j], v@[j]),
        decreases v@.len() - i,
    {
        r.push(clone_record(&v[i]));
        i += 1;
    }
    r
}

/// In any well-formed game the accepted moves strictly alternate between the
/// two seats, starting with white, and the turn is always the seat that did
/// not play the last accepted move.
#[verifier::rlimit(50)]
pub proof fn lemma_turn_alternates(g: StoredGame)
    requires
        g.wf(),
    ensures
        forall|i: int, j: int|
            0 <= i && j == i + 1 && j < g.moves@.len() ==> (#[trigger] g.moves@[j]).played_by
                == (#[trigger] g.moves@[i]).played_by.other_spec(),
        g.moves@.len() > 0 ==> g.turn == g.moves@.last().played_by.other_spec(),
{
    assert forall|i: int, j: int|
        0 <= i && j == i + 1 && j < g.moves@.len() implies (#[trigger] g.moves@[j]).played_by
        == (#[trigger] g.moves@[i]).played_by.other_spec() by {
        assert(g.moves@[i].played_by == ply_color(i));
        assert(g.moves@[j].played_by == ply_color(j));
        assert(ply_color(j) == ply_color(i).other_spec()) by {
            if i % 2 == 0 {
                assert(j % 2 == 1);
            } else {
                assert(j % 2 == 0);
            }
        }
    }
    if g.moves@.len() > 0 {
        let n = g.moves@.len() as int;
        assert(g.moves@[n - 1].played_by == ply_color(n - 1));
        assert(g.turn == ply_color(n));
        assert(ply_color(n) == ply_color(n - 1).other_spec()) by {
            if n % 2 == 0 {
                assert((n - 1) % 2 == 1);
            } else {
                assert((n - 1) % 2 == 0);
            }
        }
    }
}

/// Application level state: the game-id counter, all games created here, and
/// the rating ladder.
#[derive(Debug)]
pub struct ChainChessState {
    /// Monotonically increasing identifier for new games.
    pub next_game_id: u64,
    /// All games created here, sorted by strictly increasing identifier.
    pub active_games: Vec<StoredGame>,
    /// Rating ladder entries, one per participant identity.
    pub leaderboard: Vec<PlayerStats>,
}

/// `a` ranks at or before `b` on the ladder: strictly higher rating, or the
/// same rating and an identity that is not larger. The secondary key makes
/// the ranking deterministic among equal ratings.
pub open spec fn precede(a: PlayerStats, b: PlayerStats) -> bool {
    a.rating > b.rating || (a.rating == b.rating && a.chain_id <= b.chain_id)
}

/// The sequence is ranked: descending rating, ties by ascending identity.
pub open spec fn sorted_ranking(s: Seq<PlayerStats>) -> bool {
    forall|i: int, j: int| 0 <= i <= j < s.len() ==> precede(#[trigger] s[i], #[trigger] s[j])
}

/// The game collection's key-value invariant: every record is well formed,
/// identifiers strictly increase, and all stay below the counter.
pub open spec fn games_wf(games: Seq<StoredGame>, next_id: u64) -> bool {
    &&& forall|i: int| 0 <= i < games.len() ==> (#[trigger] games[i]).wf()
    &&& forall|i: int, j: int| 0 <= i < j < games.len() ==> games[i].game_id < games[j].game_id
    &&& forall|i: int| 0 <= i < games.len() ==> (#[trigger] games[i]).game_id < next_id
}

/// The entries carry pairwise distinct identities.
pub open spec fn distinct_chains(s: Seq<PlayerStats>) -> bool {
    forall|i: int, j: int| 0 <= i < j < s.len() ==> s[i].chain_id != s[j].chain_id
}

/// The ladder's key-value invariant: every entry is well formed and the
/// identities are pairwise distinct.
pub open spec fn ladder_wf(lb: Seq<PlayerStats>) -> bool {
    &&& forall|i: int| 0 <= i < lb.len() ==> (#[trigger] lb[i]).wf()
    &&& distinct_chains(lb)
}

/// Rearranging entries keeps their identities pairwise distinct.
pub proof fn lemma_distinct_chains_permuted(a: Seq<PlayerStats>, b: Seq<PlayerStats>)
    requires
        a.to_multiset() == b.to_multiset(),
        distinct_chains(a),
    ensures
        distinct_chains(b),
{
    broadcast use vstd::seq_lib::group_to_multiset_ensures;

    assert forall|i: int, j: int| 0 <= i < j < b.len() implies b[i].chain_id != b[j].chain_id by {
        if b[i].chain_id == b[j].chain_id {
            if b[i] == b[j] {
                let s0 = b.subrange(0, j);
                let s1 = b.subrange(j, b.len() as int);
                assert(b =~= s0 + s1);
                vstd::seq_lib::lemma_multiset_commutative(s0, s1);
                assert(s0.contains(b[i])) by {
                    assert(s0[i] == b[i]);
                }
                assert(s1.contains(b[i])) by {
                    assert(s1[0] == b[j]);
                }
                assert(b.to_multiset().count(b[i]) >= 2);
                assert(a.no_duplicates()) by {
                    assert forall|x: int, y: int|
                        0 <= x < a.len() && 0 <= y < a.len() && x != y implies a[x] != a[y] by {
                        if x < y {
                            assert(a[x].chain_id != a[y].chain_id);
                        } else {
                            assert(a[y].chain_id != a[x].chain_id);
                        }
                    }
                }
                a.lemma_multiset_has_no_duplicates();
                assert(a.to_multiset().contains(b[i]));
            } else {
                assert(a.contains(b[i])) by {
                    assert(b.to_multiset().count(b[i]) > 0);
                }
                assert(a.contains(b[j])) by {
                    assert(b.to_multiset().count(b[j]) > 0);
                }
                let x = choose|x: int| 0 <= x < a.len() && a[x] == b[i];
                let y = choose|y: int| 0 <= y < a.len() && a[y] == b[j];
                assert(a[x].chain_id == a[y].chain_id && a[x] != a[y]);
                assert(x != y);
                if x < y {
                    assert(a[x].chain_id != a[y].chain_id);
                } else {
                    assert(a[y].chain_id != a[x].chain_id);
                }
            }
        }
    }
}

/// The ranking of a set of distinct-identity entries is unique: two ranked
/// arrangements of the same entries are equal. Together with the ranking
/// order this pins the leaderboard view down completely.
pub proof fn lemma_ranking_unique(s1: Seq<PlayerStats>, s2: Seq<PlayerStats>)
    requires
        s1.to_multiset() == s2.to_multiset(),
        sorted_ranking(s1),
        sorted_ranking(s2),
        distinct_chains(s1),
        distinct_chains(s2),
    ensures
        s1 == s2,
    decreases s1.len(),
{
    broadcast use vstd::seq_lib::group_to_multiset_ensures;

    assert(s1.len() == s2.len()) by {
        s1.to_multiset_ensures();
        s2.to_multiset_ensures();
        assert(s1.to_multiset().len() == s1.len());
        assert(s2.to_multiset().len() == s2.len());
    }
    if s1.len() == 0 {
        assert(s1 =~= s2);
    } else {
        assert(s1.contains(s2[0])) by {
            assert(s2.to_multiset().count(s2[0]) > 0);
        }
        assert(s2.contains(s1[0])) by {
            assert(s1.to_multiset().count(s1[0]) > 0);
        }
        let k = choose|k: int| 0 <= k < s1.len() && s1[k] == s2[0];
        let j = choose|j: int| 0 <= j < s2.len() && s2[j] == s1[0];
        assert(precede(s1[0], s1[k]));
        assert(precede(s2[0], s2[j]));
        assert(s1[0].chain_id == s1[k].chain_id);
        assert(k == 0) by {
            if k != 0 {
                assert(s1[0].chain_id != s1[k].chain_id);
            }
        }
        let t1 = s1.drop_first();
        let t2 = s2.drop_first();
        assert(t1 =~= s1.remove(0));
        assert(t2 =~= s2.remove(0));
        assert(t1.to_multiset() == t2.to_multiset()) by {
            assert(s1.remove(0).to_multiset() =~= s1.to_multiset().remove(s1[0]));
            assert(s2.remove(0).to_multiset() =~= s2.to_multiset().remove(s2[0]));
        }
        assert(sorted_ranking(t1)) by {
            assert(forall|a: int, b: int|
                0 <= a <= b < t1.len() ==> precede(#[trigger] t1[a], #[trigger] t1[b]));
        }
        assert(sorted_ranking(t2)) by {
            assert(forall|a: int, b: int|
                0 <= a <= b < t2.len() ==> precede(#[trigger] t2[a], #[trigger] t2[b]));
        }
        assert(distinct_chains(t1)) by {
            assert(forall|a: int, b: int|
                0 <= a < b < t1.len() ==> t1[a].chain_id != t1[b].chain_id);
        }
        assert(distinct_chains(t2)) by {
            assert(forall|a: int, b: int|
                0 <= a < b < t2.len() ==> t2[a].chain_id != t2[b].chain_id);
        }
        lemma_ranking_unique(t1, t2);
        assert(s1 =~= s2) by {
            assert(forall|i: int| 1 <= i < s1.len() ==> s1[i] == t1[i - 1] && s2[i] == t2[i - 1]);
        }
    }
}

impl ChainChessState {
    /// The state invariant: games are well formed and sorted by strictly
    /// increasing identifier, every identifier is below the counter, and the
    /// ladder holds well-formed entries with pairwise distinct identities.
    pub open spec fn wf(self) -> bool {
        &&& self.next_game_id >= 1
        &&& games_wf(self.active_games@, self.next_game_id)
        &&& ladder_wf(self.leaderboard@)
    }

    /// A fresh state: no games, no ladder entries, identifiers starting at
    /// one.
    pub fn new() -> (r: Self)
        ensures
            r.wf(),
            r.next_game_id == 1,
            r.active_games@.len() == 0,
            r.leaderboard@.len() == 0,
    {
        ChainChessState { next_game_id: 1, active_games: Vec::new(), leaderboard: Vec::new() }
    }

    /// Returns all games stored locally, in ascending identifier order;
    /// useful for dashboards and explorers.
    pub fn games(&self) -> (r: Vec<GameSummary>)
        ensures
            r@.len() == self.active_games@.len(),
            forall|i: int|
                0 <= i < r@.len() ==> self.active_games@[i].summarized_by(#[trigger] r@[i]),
    {
        let mut r: Vec<GameSummary> = Vec::new();
        let mut i: usize = 0;
        while i < self.active_games.len()
            invariant
                i <= self.active_games@.len(),
                r@.len() == i,
                forall|j: int|
                    0 <= j < i ==> self.active_games@[j].summarized_by(#[trigger] r@[j]),
            decreases self.active_games@.len() - i,
        {
            r.push(self.active_games[i].to_summary());
            i += 1;
        }
        r
    }

    /// Top ladder entries: descending rating, ties by ascending identity,
    /// truncated to the requested count (ten when none is requested).
    pub fn top_players(&self, limit: Option<usize>) -> (r: Vec<PlayerStats>)
        requires
            self.wf(),
        ensures
            sorted_ranking(r@),
            exists|s: Seq<PlayerStats>|
                {
                    &&& s.to_multiset() == self.leaderboard@.to_multiset()
                    &&& sorted_ranking(s)
                    &&& distinct_chains(s)
                    &&& r@ == s.take(
                        if (match limit {
                            Option::Some(n) => n as int,
                            Option::None => 10,
                        }) <= s.len() {
                            match limit {
                                Option::Some(n) => n as int,
                                Option::None => 10,
                            }
                        } else {
                            s.len() as int
                        },
                    )
                },
    {
        let lim: usize = match limit {
            Option::Some(n) => n,
            Option::None => 10,
        };
        let mut sorted = rank_players(&self.leaderboard);
        let ghost full = sorted@;
        sorted.truncate(lim);
        proof {
            lemma_distinct_chains_permuted(self.leaderboard@, full);
            if lim <= full.len() {
                assert(sorted@ == full.take(lim as int));
            } else {
                assert(sorted@ == full.take(full.len() as int));
                assert(full.take(full.len() as int) == full);
            }
            assert(sorted_ranking(sorted@)) by {
                assert(forall|i: int, j: int|
                    0 <= i <= j < sorted@.len() ==> precede(#[trigger] sorted@[i],
                        #[trigger] sorted@[j]));
            }
        }
        sorted
    }
}

/// Sorts ladder entries into ranking order: descending rating, ties by
/// ascending identity.
fn rank_players(src: &Vec<PlayerStats>) -> (r: Vec<PlayerStats>)
    ensures
        sorted_ranking(r@),
        r@.to_multiset() == src@.to_multiset(),
        r@.len() == src@.len(),
{
    broadcast use vstd::seq_lib::group_to_multiset_ensures;

    let mut rest: Vec<PlayerStats> = Vec::new();
    let mut i: usize = 0;
    while i < src.len()
        invariant
            i <= src@.len(),
            rest@ == src@.take(i as int),
        decreases src@.len() - i,
    {
        rest.push(src[i]);
        proof {
            assert(rest@ =~= src@.take(i + 1));
        }
        i += 1;
    }
    proof {
        assert(rest@ =~= src@);
    }
    let mut out: Vec<PlayerStats> = Vec::new();
    while rest.len() > 0
        invariant
            out@.to_multiset().add(rest@.to_multiset()) =~= src@.to_multiset(),
            out@.len() + rest@.len() == src@.len(),
            sorted_ranking(out@),
            forall|a: int, b: int|
                0 <= a < out@.len() && 0 <= b < rest@.len() ==> precede(#[trigger] out@[a],
                    #[trigger] rest@[b]),
        decreases rest@.len(),
    {
        let mut mi: usize = 0;
        let mut k: usize = 1;
        while k < rest.len()
            invariant
                mi < k <= rest@.len(),
                rest@.len() > 0,
                forall|j: int| 0 <= j < k ==> precede(rest@[mi as int], #[trigger] rest@[j]),
            decreases rest@.len() - k,
        {
            if !(rest[mi].rating > rest[k].rating || (rest[mi].rating == rest[k].rating
                && rest[mi].chain_id <= rest[k].chain_id)) {
                mi = k;
            }
            k += 1;
        }
        let ghost old_out = out@;
        let ghost old_rest = rest@;
        let m = rest.remove(mi);
        out.push(m);
        proof {
            old_out.to_multiset_ensures();
            old_rest.to_multiset_ensures();
            assert(out@ == old_out.push(m));
            assert(out@.to_multiset() =~= old_out.to_multiset().insert(m));
            assert(rest@ == old_rest.remove(mi as int));
            assert(rest@.to_multiset() =~= old_rest.to_multiset().remove(m));
            assert(old_rest.contains(m)) by {
                assert(old_rest[mi as int] == m);
            }
            assert(old_rest.to_multiset().count(m) > 0);
            assert(old_rest.to_multiset() =~= rest@.to_multiset().insert(m));
            assert(out@.to_multiset().add(rest@.to_multiset()) =~= src@.to_multiset());
            assert forall|b: int| 0 <= b < rest@.len() implies precede(m, rest@[b]) by {
                if b < mi {
                    assert(rest@[b] == old_rest[b]);
                } else {
                    assert(rest@[b] == old_rest[b + 1]);
                }
            }
        }
    }
    proof {
        assert(out@.to_multiset() =~= src@.to_multiset());
    }
    out
}

} // verus!
