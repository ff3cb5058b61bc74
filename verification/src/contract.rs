//! The game lifecycle state machine and the rating ledger.
//!
//! Every operation takes an already-authenticated caller identity and a
//! timestamp, validates the intent before any mutation, and either completes
//! with an updated state and a response, or fails with a structured error and
//! an untouched state.

use vstd::prelude::*;

use crate::ChainChessError;
use crate::ChainChessResponse;
use crate::GameStatus;
use crate::MoveRecord;
use crate::Operation;
use crate::PlayerColor;
use crate::PlayerStats;
use crate::ai::ai_choice;
use crate::ai::ai_move;
use crate::board::MatchResult;
use crate::board::MoveComputation;
use crate::board::apply_uci_move;
use crate::board::fen_after_of;
use crate::board::fen_ok;
use crate::board::hint_view;
use crate::board::legal_moves_of;
use crate::board::lemma_uci_round_trip;
use crate::board::move_accepted;
use crate::board::parsed;
use crate::board::result_for;
use crate::board::san_for;
use crate::board::uci_of;
use crate::board::uci_string;
use crate::state::ChainChessState;
use crate::state::StoredGame;
use crate::state::ladder_wf;
use crate::state::ply_color;

verus! {

/// The fixed ceiling of concurrently open (non-finished) games one identity
/// may have created.
pub const MAX_OPEN_GAMES_PER_CHAIN: usize = 64;

/// The standard starting position.
pub open spec fn start_fen() -> Seq<char> {
    "rnbqkbnr/pppppppp/8/8/8/8/PPPPPPPP/RNBQKBNR w KQkq - 0 1"@
}

fn start_fen_exec() -> (r: String)
    ensures
        r@ == start_fen(),
{
    String::from_str("rnbqkbnr/pppppppp/8/8/8/8/PPPPPPPP/RNBQKBNR w KQkq - 0 1")
}

// ---------------------------------------------------------------------------
// The rating ledger.
// ---------------------------------------------------------------------------

/// A participant's outcome in a finished game.
#[derive(Copy, Clone, Debug, PartialEq, Eq, Structural)]
pub enum MatchOutcome {
    Win,
    Loss,
    Draw,
}

/// A rating adjusted by a delta, clamped to the integer range.
pub open spec fn rating_add(r: i32, d: int) -> i32 {
    if r + d > i32::MAX {
        i32::MAX
    } else if r + d < i32::MIN {
        i32::MIN
    } else {
        (r + d) as i32
    }
}

/// One outcome recorded on an entry: win adds ten rating, loss subtracts
/// five, draw adds one; the matching counter and games played each grow by
/// one. An entry whose games-played counter has reached its ceiling is left
/// unchanged, which keeps the counters consistent.
pub open spec fn apply_outcome(s: PlayerStats, o: MatchOutcome) -> PlayerStats {
    if s.games_played == u32::MAX {
        s
    } else {
        match o {
            MatchOutcome::Win => PlayerStats {
                wins: (s.wins + 1) as u32,
                games_played: (s.games_played + 1) as u32,
                rating: rating_add(s.rating, 10),
                ..s
            },
            MatchOutcome::Loss => PlayerStats {
                losses: (s.losses + 1) as u32,
                games_played: (s.games_played + 1) as u32,
                rating: rating_add(s.rating, -5),
                ..s
            },
            MatchOutcome::Draw => PlayerStats {
                draws: (s.draws + 1) as u32,
                games_played: (s.games_played + 1) as u32,
                rating: rating_add(s.rating, 1),
                ..s
            },
        }
    }
}

/// A fresh ladder entry for an identity.
pub open spec fn fresh_stats(chain: u64) -> PlayerStats {
    PlayerStats { chain_id: chain, wins: 0, losses: 0, draws: 0, games_played: 0, rating: 0 }
}

/// The ladder after recording one outcome for one identity: its entry is
/// updated in place, or created lazily with all counters at zero first.
pub open spec fn settle_one(lb: Seq<PlayerStats>, chain: u64, o: MatchOutcome) -> Seq<PlayerStats> {
    if exists|i: int| 0 <= i < lb.len() && lb[i].chain_id == chain {
        let i = choose|i: int| 0 <= i < lb.len() && lb[i].chain_id == chain;
        lb.update(i, apply_outcome(lb[i], o))
    } else {
        lb.push(apply_outcome(fresh_stats(chain), o))
    }
}

/// The ladder after recording a list of outcome events in order.
pub open spec fn settle_events(lb: Seq<PlayerStats>, ev: Seq<(u64, MatchOutcome)>) -> Seq<
    PlayerStats,
>
    decreases ev.len(),
{
    if ev.len() == 0 {
        lb
    } else {
        settle_one(settle_events(lb, ev.drop_last()), ev.last().0, ev.last().1)
    }
}

/// The outcome events a finished game produces, in the order they are
/// recorded: the winner's entry then the loser's on a decisive result, white
/// then black on a draw. A seat without an identity (the automated seat) is
/// skipped.
pub open spec fn result_events(white: u64, black: Option<u64>, r: MatchResult) -> Seq<
    (u64, MatchOutcome),
> {
    match r {
        MatchResult::Winner(PlayerColor::White) => seq![(white, MatchOutcome::Win)] + (match black {
            Option::Some(b) => seq![(b, MatchOutcome::Loss)],
            Option::None => Seq::<(u64, MatchOutcome)>::empty(),
        }),
        MatchResult::Winner(PlayerColor::Black) => (match black {
            Option::Some(b) => seq![(b, MatchOutcome::Win)],
            Option::None => Seq::<(u64, MatchOutcome)>::empty(),
        }) + seq![(white, MatchOutcome::Loss)],
        MatchResult::Draw => seq![(white, MatchOutcome::Draw)] + (match black {
            Option::Some(b) => seq![(b, MatchOutcome::Draw)],
            Option::None => Seq::<(u64, MatchOutcome)>::empty(),
        }),
    }
}

fn apply_outcome_exec(s: PlayerStats, o: MatchOutcome) -> (r: PlayerStats)
    requires
        s.wf(),
    ensures
        r == apply_outcome(s, o),
        r.wf(),
        r.chain_id == s.chain_id,
{
    if s.games_played == u32::MAX {
        return s;
    }
    match o {
        MatchOutcome::Win => PlayerStats {
            wins: s.wins + 1,
            games_played: s.games_played + 1,
            rating: rating_add_exec(s.rating, 10),
            ..s
        },
        MatchOutcome::Loss => PlayerStats {
            losses: s.losses + 1,
            games_played: s.games_played + 1,
            rating: rating_add_exec(s.rating, -5),
            ..s
        },
        MatchOutcome::Draw => PlayerStats {
            draws: s.draws + 1,
            games_played: s.games_played + 1,
            rating: rating_add_exec(s.rating, 1),
            ..s
        },
    }
}

fn rating_add_exec(r: i32, d: i32) -> (s: i32)
    ensures
        s == rating_add(r, d as int),
{
    if d >= 0 {
        if r > i32::MAX - d {
            i32::MAX
        } else {
            r + d
        }
    } else {
        if r < i32::MIN - d {
            i32::MIN
        } else {
            r + d
        }
    }
}

/// Records one outcome for one identity on the ladder.
fn bump_stats(lb: &mut Vec<PlayerStats>, chain: u64, o: MatchOutcome)
    requires
        ladder_wf(old(lb)@),
    ensures
        final(lb)@ == settle_one(old(lb)@, chain, o),
        ladder_wf(final(lb)@),
{
    let ghost lb0 = lb@;
    let mut i: usize = 0;
    while i < lb.len()
        invariant
            lb0 == old(lb)@,
            lb@ == lb0,
            i <= lb0.len(),
            forall|j: int| 0 <= j < i ==> lb0[j].chain_id != chain,
            ladder_wf(lb0),
        decreases lb0.len() - i,
    {
        if lb[i].chain_id == chain {
            let s = lb[i];
            let updated = apply_outcome_exec(s, o);
            let _ = lb.remove(i);
            lb.insert(i, updated);
            proof {
                assert(lb0[i as int].chain_id == chain);
                assert(exists|k: int| 0 <= k < lb0.len() && lb0[k].chain_id == chain);
                let w = choose|k: int| 0 <= k < lb0.len() && lb0[k].chain_id == chain;
                assert(0 <= w < lb0.len() && lb0[w].chain_id == chain);
                assert(w == i as int) by {
                    if w < i as int {
                        assert(lb0[w].chain_id != chain);
                    } else if w > i as int {
                        assert(lb0[i as int].chain_id != lb0[w].chain_id);
                    }
                }
                assert(lb@ =~= lb0.update(i as int, updated));
                assert(lb@ == settle_one(lb0, chain, o));
            }
            return ;
        }
        i += 1;
    }
    proof {
        assert(forall|j: int| 0 <= j < lb0.len() ==> lb0[j].chain_id != chain);
    }
    lb.push(apply_outcome_exec(PlayerStats::new(chain), o));
    proof {
        assert(lb@ == settle_one(lb0, chain, o));
    }
}

/// Records a list of outcome events on the ladder, in order.
fn bump_all(lb: &mut Vec<PlayerStats>, ev: &Vec<(u64, MatchOutcome)>)
    requires
        ladder_wf(old(lb)@),
    ensures
        final(lb)@ == settle_events(old(lb)@, ev@),
        ladder_wf(final(lb)@),
{
    let ghost lb0 = lb@;
    let mut i: usize = 0;
    while i < ev.len()
        invariant
            lb0 == old(lb)@,
            i <= ev@.len(),
            lb@ == settle_events(lb0, ev@.take(i as int)),
            ladder_wf(lb@),
        decreases ev@.len() - i,
    {
        let (chain, o) = ev[i];
        bump_stats(lb, chain, o);
        proof {
            assert(ev@.take(i + 1).drop_last() =~= ev@.take(i as int));
            assert(ev@.take(i + 1).last() == ev@[i as int]);
        }
        i += 1;
    }
    proof {
        assert(ev@.take(ev@.len() as int) =~= ev@);
    }
}

// ---------------------------------------------------------------------------
// Intent validation helpers.
// ---------------------------------------------------------------------------

/// The seat an identity occupies in a game, if any.
pub open spec fn resolve_seat(g: StoredGame, caller: u64) -> Option<PlayerColor> {
    if caller == g.white {
        Option::Some(PlayerColor::White)
    } else if g.black == Option::Some(caller) {
        Option::Some(PlayerColor::Black)
    } else {
        Option::None
    }
}

/// How many games an identity has created that are not yet finished.
pub open spec fn count_open(games: Seq<StoredGame>, chain: u64) -> int
    decreases games.len(),
{
    if games.len() == 0 {
        0
    } else {
        count_open(games.drop_last(), chain) + (if games.last().white == chain && !(
        games.last().status is Finished) {
            1int
        } else {
            0int
        })
    }
}

/// Settling a concatenation of event lists settles them in order.
proof fn lemma_settle_concat(lb: Seq<PlayerStats>, a: Seq<(u64, MatchOutcome)>, b: Seq<(u64, MatchOutcome)>)
    ensures
        settle_events(lb, a + b) == settle_events(settle_events(lb, a), b),
    decreases b.len(),
{
    if b.len() == 0 {
        assert(a + b =~= a);
    } else {
        lemma_settle_concat(lb, a, b.drop_last());
        assert((a + b).drop_last() =~= a + b.drop_last());
        assert((a + b).last() == b.last());
    }
}

/// There is a game with this identifier.
pub open spec fn has_game(games: Seq<StoredGame>, id: u64) -> bool {
    exists|i: int| 0 <= i < games.len() && games[i].game_id == id
}

/// The position of the game with this identifier (identifiers are unique
/// under the state invariant).
pub open spec fn game_index(games: Seq<StoredGame>, id: u64) -> int {
    choose|i: int| 0 <= i < games.len() && games[i].game_id == id
}

fn find_game(games: &Vec<StoredGame>, game_id: u64) -> (r: Option<usize>)
    requires
        forall|a: int, b: int| 0 <= a < b < games@.len() ==> games@[a].game_id < games@[b].game_id,
    ensures
        match r {
            Option::Some(i) => i < games@.len() && games@[i as int].game_id == game_id
                && has_game(games@, game_id) && game_index(games@, game_id) == i as int,
            Option::None => !has_game(games@, game_id),
        },
{
    let mut i: usize = 0;
    while i < games.len()
        invariant
            i <= games@.len(),
            forall|j: int| 0 <= j < i ==> games@[j].game_id != game_id,
            forall|a: int, b: int| 0 <= a < b < games@.len() ==> games@[a].game_id
                < games@[b].game_id,
        decreases games@.len() - i,
    {
        if games[i].game_id == game_id {
            proof {
                assert(has_game(games@, game_id));
                let w = game_index(games@, game_id);
                assert(0 <= w < games@.len() && games@[w].game_id == game_id);
                assert(w == i as int) by {
                    if w < i as int {
                        assert(games@[w].game_id != game_id);
                    } else if w > i as int {
                        assert(games@[i as int].game_id < games@[w].game_id);
                    }
                }
            }
            return Option::Some(i);
        }
        i += 1;
    }
    Option::None
}

fn count_open_exec(games: &Vec<StoredGame>, chain: u64) -> (c: usize)
    ensures
        c as int == count_open(games@, chain),
{
    let mut c: usize = 0;
    let mut i: usize = 0;
    while i < games.len()
        invariant
            i <= games@.len(),
            c <= i,
            c as int == count_open(games@.take(i as int), chain),
        decreases games@.len() - i,
    {
        let open = {
            let g = &games[i];
            g.white == chain && !(g.status == GameStatus::Finished)
        };
        proof {
            assert(games@.take(i + 1).drop_last() =~= games@.take(i as int));
            assert(games@.take(i + 1).last() == games@[i as int]);
        }
        if open {
            c += 1;
        }
        i += 1;
    }
    proof {
        assert(games@.take(games@.len() as int) =~= games@);
    }
    c
}

// ---------------------------------------------------------------------------
// Operation postconditions.
// ---------------------------------------------------------------------------

/// The game record a successful create operation produces.
pub open spec fn created_game(
    g: StoredGame,
    id: u64,
    caller: u64,
    now: u64,
    metadata: Option<String>,
    play_vs_ai: bool,
) -> bool {
    &&& g.game_id == id
    &&& g.white == caller
    &&& g.black is None
    &&& g.ai_black == play_vs_ai
    &&& g.board_fen@ == start_fen()
    &&& g.moves@.len() == 0
    &&& g.turn is White
    &&& g.status == (if play_vs_ai {
        GameStatus::Active
    } else {
        GameStatus::Lobby
    })
    &&& g.winner is None
    &&& g.created_at == now
    &&& g.updated_at == now
    &&& g.metadata == metadata
}

/// What a create operation does: it is rejected with the lobby-limit error
/// exactly when the creator is at the ceiling of open games (or the
/// identifier space is exhausted); otherwise a fresh game record is appended
/// under the next identifier — a lobby awaiting a second player, or an
/// immediately active game against the automated opponent.
pub open spec fn create_post(
    pre: ChainChessState,
    caller: u64,
    now: u64,
    metadata: Option<String>,
    play_vs_ai: bool,
    post: ChainChessState,
    r: Result<ChainChessResponse, ChainChessError>,
) -> bool {
    if count_open(pre.active_games@, caller) >= MAX_OPEN_GAMES_PER_CHAIN as int
        || pre.next_game_id == u64::MAX {
        &&& r matches Err(e) && e is LobbyLimitReached
        &&& post == pre
    } else {
        &&& r matches Ok(resp) && ({
            &&& post.next_game_id == pre.next_game_id + 1
            &&& post.active_games@.len() == pre.active_games@.len() + 1
            &&& post.active_games@.drop_last() == pre.active_games@
            &&& created_game(
                post.active_games@.last(),
                pre.next_game_id,
                caller,
                now,
                metadata,
                play_vs_ai,
            )
            &&& post.leaderboard == pre.leaderboard
            &&& resp.success
            &&& resp.message@ == "Game lobby created"@
            &&& (resp.game matches Some(s) && post.active_games@.last().summarized_by(s))
        })
    }
}

/// What a join operation does: it requires an existing game that is still a
/// lobby, not automated, unfilled, and not created by the joiner; the joiner
/// then takes the second seat and the game becomes active.
pub open spec fn join_post(
    pre: ChainChessState,
    caller: u64,
    now: u64,
    game_id: u64,
    post: ChainChessState,
    r: Result<ChainChessResponse, ChainChessError>,
) -> bool {
    if !has_game(pre.active_games@, game_id) {
        &&& r matches Err(e) && e == ChainChessError::GameNotFound(game_id)
        &&& post == pre
    } else {
        let i = game_index(pre.active_games@, game_id);
        let g = pre.active_games@[i];
        if g.ai_black || !(g.status is Lobby) || g.black is Some || caller == g.white {
            &&& r matches Err(e) && e == ChainChessError::NotJoinable(game_id)
            &&& post == pre
        } else {
            let joined = StoredGame {
                black: Option::Some(caller),
                status: GameStatus::Active,
                updated_at: now,
                ..g
            };
            &&& r matches Ok(resp) && ({
                &&& post.active_games@ == pre.active_games@.update(i, joined)
                &&& post.next_game_id == pre.next_game_id
                &&& post.leaderboard == pre.leaderboard
                &&& resp.success
                &&& resp.message@ == "Joined game successfully"@
                &&& (resp.game matches Some(s) && joined.summarized_by(s))
            })
        }
    }
}

/// `g2` is `g1` after one accepted move `m` by `mover`: the new position is
/// recorded, the turn flips, a move record with the canonical coordinate
/// text and the notation label is appended, and a terminal position
/// finishes the game with the proper winner.
pub open spec fn move_applied(
    g1: StoredGame,
    g2: StoredGame,
    m: crate::board::MoveCoord,
    mover: PlayerColor,
    now: u64,
) -> bool {
    let fen2 = fen_after_of(g1.board_fen@, m);
    let res = result_for(fen2, mover);
    &&& g2.board_fen@ == fen2
    &&& g2.turn == mover.other_spec()
    &&& g2.moves@.len() == g1.moves@.len() + 1
    &&& g2.moves@.drop_last() == g1.moves@
    &&& ({
        let rec = g2.moves@.last();
        &&& rec.uci@ == uci_of(m)
        &&& (rec.san matches Some(s) && s@ == san_for(g1.board_fen@, m))
        &&& rec.played_by == mover
        &&& rec.played_at == now
    })
    &&& g2.updated_at == now
    &&& (match res {
        Option::Some(MatchResult::Winner(c)) => g2.status is Finished && g2.winner
            == Option::Some(c),
        Option::Some(MatchResult::Draw) => g2.status is Finished && g2.winner is None,
        Option::None => g2.status == g1.status && g2.winner == g1.winner,
    })
    &&& g2.game_id == g1.game_id
    &&& g2.white == g1.white
    &&& g2.black == g1.black
    &&& g2.ai_black == g1.ai_black
    &&& g2.created_at == g1.created_at
    &&& g2.metadata == g1.metadata
}

/// The ladder events one accepted move produces: none while the game stays
/// ongoing, the finished game's events on a terminal position.
pub open spec fn move_events(g1: StoredGame, m: crate::board::MoveCoord, mover: PlayerColor) -> Seq<
    (u64, MatchOutcome),
> {
    match result_for(fen_after_of(g1.board_fen@, m), mover) {
        Option::Some(res) => result_events(g1.white, g1.black, res),
        Option::None => Seq::<(u64, MatchOutcome)>::empty(),
    }
}

/// The automated seat replies: the game is still active against the
/// automated opponent, it is the automated side's turn, and the position
/// offers a move. Otherwise the reply is silently skipped.
pub open spec fn ai_replies(g1: StoredGame) -> bool {
    &&& g1.ai_black
    &&& g1.status is Active
    &&& g1.turn is Black
    &&& fen_ok(g1.board_fen@)
    &&& legal_moves_of(g1.board_fen@).len() > 0
}

/// What a submit operation does: the intent is validated (existing,
/// unfinished, non-lobby game; caller holds a seat; it is the caller's
/// turn), then the move text against the full rules; a rejected move leaves
/// the state untouched. An accepted move is recorded, and when the game
/// stays active against the automated opponent with the automated side to
/// move, that side's reply is validated, recorded and settled within the
/// same operation.
pub open spec fn submit_post(
    pre: ChainChessState,
    caller: u64,
    now: u64,
    game_id: u64,
    uci: Seq<char>,
    hint: Option<Seq<char>>,
    post: ChainChessState,
    r: Result<ChainChessResponse, ChainChessError>,
) -> bool {
    if !has_game(pre.active_games@, game_id) {
        &&& r matches Err(e) && e == ChainChessError::GameNotFound(game_id)
        &&& post == pre
    } else {
        let i = game_index(pre.active_games@, game_id);
        let g = pre.active_games@[i];
        if g.status is Finished {
            &&& r matches Err(e) && e is AlreadyFinished
            &&& post == pre
        } else if g.status is Lobby {
            &&& r matches Err(e) && e is MissingOpponent
            &&& post == pre
        } else if resolve_seat(g, caller) is None {
            &&& r matches Err(e) && e is NotParticipant
            &&& post == pre
        } else if resolve_seat(g, caller) != Option::Some(g.turn) {
            &&& r matches Err(e) && e is NotYourTurn
            &&& post == pre
        } else if !move_accepted(g.board_fen@, uci, hint) {
            &&& r matches Err(e) && (e matches ChainChessError::InvalidMove(s) && s@
                == "move is illegal in current position"@)
            &&& post == pre
        } else {
            let m = parsed(uci, hint);
            &&& r matches Ok(resp) && exists|g1: StoredGame|
                {
                    &&& #[trigger] move_applied(g, g1, m, g.turn, now)
                    &&& post.next_game_id == pre.next_game_id
                    &&& resp.success
                    &&& resp.message@ == "Move accepted"@
                    &&& if ai_replies(g1) {
                        exists|g2: StoredGame|
                            {
                                &&& #[trigger] move_applied(
                                    g1,
                                    g2,
                                    ai_choice(g1.board_fen@),
                                    PlayerColor::Black,
                                    now,
                                )
                                &&& post.active_games@ == pre.active_games@.update(i, g2)
                                &&& post.leaderboard@ == settle_events(
                                    pre.leaderboard@,
                                    move_events(g, m, g.turn) + move_events(
                                        g1,
                                        ai_choice(g1.board_fen@),
                                        PlayerColor::Black,
                                    ),
                                )
                                &&& (resp.game matches Some(s) && g2.summarized_by(s))
                            }
                    } else {
                        &&& post.active_games@ == pre.active_games@.update(i, g1)
                        &&& post.leaderboard@ == settle_events(
                            pre.leaderboard@,
                            move_events(g, m, g.turn),
                        )
                        &&& (resp.game matches Some(s) && g1.summarized_by(s))
                    }
                }
        }
    }
}

/// What a resign operation does: any seat of an existing, unfinished game
/// may resign at any time; the game finishes at once with the other seat as
/// winner — the board is never consulted — and the outcome is settled on the
/// ladder.
pub open spec fn resign_post(
    pre: ChainChessState,
    caller: u64,
    now: u64,
    game_id: u64,
    post: ChainChessState,
    r: Result<ChainChessResponse, ChainChessError>,
) -> bool {
    if !has_game(pre.active_games@, game_id) {
        &&& r matches Err(e) && e == ChainChessError::GameNotFound(game_id)
        &&& post == pre
    } else {
        let i = game_index(pre.active_games@, game_id);
        let g = pre.active_games@[i];
        if g.status is Finished {
            &&& r matches Err(e) && e is AlreadyFinished
            &&& post == pre
        } else if resolve_seat(g, caller) is None {
            &&& r matches Err(e) && e is NotParticipant
            &&& post == pre
        } else {
            let winner = (match resolve_seat(g, caller) {
                Option::Some(c) => c,
                Option::None => PlayerColor::White,
            }).other_spec();
            let finished = StoredGame {
                status: GameStatus::Finished,
                winner: Option::Some(winner),
                updated_at: now,
                ..g
            };
            &&& r matches Ok(resp) && ({
                &&& post.active_games@ == pre.active_games@.update(i, finished)
                &&& post.next_game_id == pre.next_game_id
                &&& post.leaderboard@ == settle_events(
                    pre.leaderboard@,
                    result_events(g.white, g.black, MatchResult::Winner(winner)),
                )
                &&& resp.success
                &&& resp.message@ == "Resigned successfully"@
                &&& (resp.game matches Some(s) && finished.summarized_by(s))
            })
        }
    }
}

// ---------------------------------------------------------------------------
// The state machine itself.
// ---------------------------------------------------------------------------

/// The match state machine: owns the application state and applies caller
/// intents to it.
#[derive(Debug)]
pub struct ChainChessContract {
    pub state: ChainChessState,
}

impl ChainChessContract {
    /// The state invariant.
    pub open spec fn wf(self) -> bool {
        self.state.wf()
    }

    /// A fresh contract with no games and an empty ladder.
    pub fn new() -> (r: Self)
        ensures
            r.wf(),
            r.state.next_game_id == 1,
            r.state.active_games@.len() == 0,
            r.state.leaderboard@.len() == 0,
    {
        ChainChessContract { state: ChainChessState::new() }
    }

    /// Creates a new game for the caller: a lobby awaiting a second player,
    /// or an immediately active game against the automated opponent.
    /// Rejected with the lobby-limit error when the caller already has the
    /// ceiling of open games it created.
    pub fn create_game(
        &mut self,
        caller: u64,
        now: u64,
        metadata: Option<String>,
        play_vs_ai: bool,
    ) -> (r: Result<ChainChessResponse, ChainChessError>)
        requires
            old(self).wf(),
        ensures
            final(self).wf(),
            create_post(old(self).state, caller, now, metadata, play_vs_ai, final(self).state, r),
    {
        let pending = count_open_exec(&self.state.active_games, caller);
        if pending >= MAX_OPEN_GAMES_PER_CHAIN || self.state.next_game_id == u64::MAX {
            return Result::Err(ChainChessError::LobbyLimitReached);
        }
        let game_id = self.state.next_game_id;
        self.state.next_game_id = game_id + 1;
        let game = StoredGame {
            game_id,
            white: caller,
            black: Option::None,
            ai_black: play_vs_ai,
            board_fen: start_fen_exec(),
            moves: Vec::new(),
            turn: PlayerColor::White,
            status: if play_vs_ai {
                GameStatus::Active
            } else {
                GameStatus::Lobby
            },
            winner: Option::None,
            created_at: now,
            updated_at: now,
            metadata,
        };
        let summary = game.to_summary();
        let ghost pre_games = old(self).state.active_games@;
        self.state.active_games.push(game);
        proof {
            assert(self.state.active_games@.drop_last() =~= pre_games);
            assert(ply_color(0) == PlayerColor::White);
        }
        Result::Ok(ChainChessResponse::ok("Game lobby created", Option::Some(summary)))
    }

    /// Joins an existing lobby as the second seat; the game becomes active.
    pub fn join_game(&mut self, caller: u64, now: u64, game_id: u64) -> (r: Result<
        ChainChessResponse,
        ChainChessError,
    >)
        requires
            old(self).wf(),
        ensures
            final(self).wf(),
            join_post(old(self).state, caller, now, game_id, final(self).state, r),
    {
        let idx = match find_game(&self.state.active_games, game_id) {
            Option::Some(i) => i,
            Option::None => {
                return Result::Err(ChainChessError::GameNotFound(game_id));
            },
        };
        let joinable = {
            let g = &self.state.active_games[idx];
            !g.ai_black && g.status == GameStatus::Lobby && !g.black.is_some() && caller != g.white
        };
        if !joinable {
            return Result::Err(ChainChessError::NotJoinable(game_id));
        }
        let ghost pre_games = old(self).state.active_games@;
        let mut game = self.state.active_games.remove(idx);
        game.black = Option::Some(caller);
        game.status = GameStatus::Active;
        game.updated_at = now;
        let summary = game.to_summary();
        self.state.active_games.insert(idx, game);
        proof {
            assert(self.state.active_games@ =~= pre_games.update(idx as int, game));
        }
        Result::Ok(ChainChessResponse::ok("Joined game successfully", Option::Some(summary)))
    }

    /// Submits a move for the caller's seat. Validates the intent, then the
    /// move against the full rules; on success records it, and lets the
    /// automated opponent reply within the same operation when applicable.
    pub fn submit_move(
        &mut self,
        caller: u64,
        now: u64,
        game_id: u64,
        uci: &str,
        promotion: Option<&str>,
    ) -> (r: Result<ChainChessResponse, ChainChessError>)
        requires
            old(self).wf(),
        ensures
            final(self).wf(),
            submit_post(
                old(self).state,
                caller,
                now,
                game_id,
                uci@,
                hint_view(promotion),
                final(self).state,
                r,
            ),
    {
        let idx = match find_game(&self.state.active_games, game_id) {
            Option::Some(i) => i,
            Option::None => {
                return Result::Err(ChainChessError::GameNotFound(game_id));
            },
        };
        {
            let g = &self.state.active_games[idx];
            if g.status == GameStatus::Finished {
                return Result::Err(ChainChessError::AlreadyFinished);
            }
            if g.status == GameStatus::Lobby {
                return Result::Err(ChainChessError::MissingOpponent);
            }
        }
        let color = {
            let g = &self.state.active_games[idx];
            if caller == g.white {
                PlayerColor::White
            } else {
                let seated_black = match g.black {
                    Option::Some(b) => b == caller,
                    Option::None => false,
                };
                if seated_black {
                    PlayerColor::Black
                } else {
                    return Result::Err(ChainChessError::NotParticipant);
                }
            }
        };
        {
            let g = &self.state.active_games[idx];
            if color != g.turn {
                return Result::Err(ChainChessError::NotYourTurn);
            }
        }
        let comp = {
            let g = &self.state.active_games[idx];
            match apply_uci_move(g.board_fen.as_str(), uci, promotion, color) {
                Result::Ok(c) => c,
                Result::Err(_) => {
                    return Result::Err(
                        ChainChessError::InvalidMove(
                            String::from_str("move is illegal in current position"),
                        ),
                    );
                },
            }
        };
        let ghost pre = self.state;
        let ghost m = parsed(uci@, hint_view(promotion));
        let res1 = comp.result;
        let mut game = self.state.active_games.remove(idx);
        let ghost g0 = game;
        record_move(&mut game, comp, color, now);
        if let Option::Some(result) = res1 {
            let ev = apply_result(&mut game, result, now);
            proof {
                assert(ev@ =~= move_events(g0, m, color));
            }
            bump_all(&mut self.state.leaderboard, &ev);
        }
        let ghost g1 = game;
        proof {
            assert(g1.moves@.drop_last() =~= g0.moves@);
            assert(move_applied(g0, g1, m, color, now));
            assert(self.state.leaderboard@ == settle_events(
                pre.leaderboard@,
                move_events(g0, m, color),
            )) by {
                if res1 is None {
                    assert(move_events(g0, m, color) =~= Seq::<(u64, MatchOutcome)>::empty());
                }
            }
        }
        if game.ai_black && game.status == GameStatus::Active && game.turn == PlayerColor::Black {
            match ai_move(game.board_fen.as_str()) {
                Option::Some(m2) => {
                    let u2 = uci_string(&m2);
                    proof {
                        lemma_uci_round_trip(m2);
                        assert(move_accepted(game.board_fen@, u2@, hint_view(Option::None)));
                    }
                    let comp2 = match apply_uci_move(
                        game.board_fen.as_str(),
                        u2.as_str(),
                        Option::None,
                        PlayerColor::Black,
                    ) {
                        Result::Ok(c) => c,
                        Result::Err(_) => vstd::pervasive::unreached(),
                    };
                    let res2 = comp2.result;
                    record_move(&mut game, comp2, PlayerColor::Black, now);
                    if let Option::Some(result) = res2 {
                        let ev = apply_result(&mut game, result, now);
                        proof {
                            assert(ev@ =~= move_events(g1, m2, PlayerColor::Black));
                        }
                        bump_all(&mut self.state.leaderboard, &ev);
                    }
                    proof {
                        assert(parsed(u2@, hint_view(Option::None)) == m2);
                        assert(game.moves@.drop_last() =~= g1.moves@);
                        assert(move_applied(g1, game, m2, PlayerColor::Black, now));
                        let eva = move_events(g0, m, color);
                        let evb = move_events(g1, m2, PlayerColor::Black);
                        lemma_settle_concat(pre.leaderboard@, eva, evb);
                        assert(self.state.leaderboard@ == settle_events(
                            pre.leaderboard@,
                            eva + evb,
                        )) by {
                            if res2 is None {
                                assert(evb =~= Seq::<(u64, MatchOutcome)>::empty());
                            }
                        }
                    }
                },
                Option::None => {
                    proof {
                        assert(!ai_replies(g1));
                    }
                },
            }
        }
        let summary = game.to_summary();
        self.state.active_games.insert(idx, game);
        proof {
            assert(self.state.active_games@ =~= pre.active_games@.update(idx as int, game));
        }
        Result::Ok(ChainChessResponse::ok("Move accepted", Option::Some(summary)))
    }

    /// Resigns the game for the caller's seat: the game finishes at once
    /// with the other seat as winner, whatever the board says.
    pub fn resign(&mut self, caller: u64, now: u64, game_id: u64) -> (r: Result<
        ChainChessResponse,
        ChainChessError,
    >)
        requires
            old(self).wf(),
        ensures
            final(self).wf(),
            resign_post(old(self).state, caller, now, game_id, final(self).state, r),
    {
        let idx = match find_game(&self.state.active_games, game_id) {
            Option::Some(i) => i,
            Option::None => {
                return Result::Err(ChainChessError::GameNotFound(game_id));
            },
        };
        {
            let g = &self.state.active_games[idx];
            if g.status == GameStatus::Finished {
                return Result::Err(ChainChessError::AlreadyFinished);
            }
        }
        let color = {
            let g = &self.state.active_games[idx];
            if caller == g.white {
                PlayerColor::White
            } else {
                let seated_black = match g.black {
                    Option::Some(b) => b == caller,
                    Option::None => false,
                };
                if seated_black {
                    PlayerColor::Black
                } else {
                    return Result::Err(ChainChessError::NotParticipant);
                }
            }
        };
        let ghost pre = self.state;
        let mut game = self.state.active_games.remove(idx);
        let ev = apply_result(&mut game, MatchResult::Winner(color.other()), now);
        bump_all(&mut self.state.leaderboard, &ev);
        let summary = game.to_summary();
        self.state.active_games.insert(idx, game);
        proof {
            assert(self.state.active_games@ =~= pre.active_games@.update(idx as int, game));
            assert(settle_events(pre.leaderboard@, ev@) == self.state.leaderboard@);
        }
        Result::Ok(ChainChessResponse::ok("Resigned successfully", Option::Some(summary)))
    }

    /// Applies one caller intent to the state and folds any error into a
    /// failed response carrying the error's message.
    pub fn execute_operation(&mut self, operation: Operation, caller: u64, now: u64) -> (resp:
        ChainChessResponse)
        requires
            old(self).wf(),
        ensures
            final(self).wf(),
            match operation {
                Operation::CreateGame { metadata, play_vs_ai } => exists|
                    r: Result<ChainChessResponse, ChainChessError>,
                |
                    #[trigger] create_post(
                        old(self).state,
                        caller,
                        now,
                        metadata,
                        play_vs_ai,
                        final(self).state,
                        r,
                    ) && response_of(r, resp),
                Operation::JoinGame { game_id } => exists|
                    r: Result<ChainChessResponse, ChainChessError>,
                |
                    #[trigger] join_post(
                        old(self).state,
                        caller,
                        now,
                        game_id,
                        final(self).state,
                        r,
                    ) && response_of(r, resp),
                Operation::SubmitMove { game_id, uci, promotion } => exists|
                    r: Result<ChainChessResponse, ChainChessError>,
                |
                    #[trigger] submit_post(
                        old(self).state,
                        caller,
                        now,
                        game_id,
                        uci@,
                        crate::opt_seq(promotion),
                        final(self).state,
                        r,
                    ) && response_of(r, resp),
                Operation::Resign { game_id } => exists|
                    r: Result<ChainChessResponse, ChainChessError>,
                |
                    #[trigger] resign_post(
                        old(self).state,
                        caller,
                        now,
                        game_id,
                        final(self).state,
                        r,
                    ) && response_of(r, resp),
            },
    {
        let result = match operation {
            Operation::CreateGame { metadata, play_vs_ai } => self.create_game(
                caller,
                now,
                metadata,
                play_vs_ai,
            ),
            Operation::JoinGame { game_id } => self.join_game(caller, now, game_id),
            Operation::SubmitMove { game_id, uci, promotion } => {
                let hint = match &promotion {
                    Option::Some(p) => Option::Some(p.as_str()),
                    Option::None => Option::None,
                };
                self.submit_move(caller, now, game_id, uci.as_str(), hint)
            },
            Operation::Resign { game_id } => self.resign(caller, now, game_id),
        };
        match result {
            Result::Ok(resp) => resp,
            Result::Err(e) => ChainChessResponse::from_error(e),
        }
    }
}

/// The response a result produces: a successful one is handed through, an
/// error becomes a failed response carrying its message.
pub open spec fn response_of(
    r: Result<ChainChessResponse, ChainChessError>,
    resp: ChainChessResponse,
) -> bool {
    match r {
        Result::Ok(rr) => resp == rr,
        Result::Err(e) => !resp.success && resp.message@ == e.message_spec() && resp.game is None,
    }
}

/// Records one validated move on a game: new position, flipped turn,
/// appended move record.
fn record_move(game: &mut StoredGame, comp: MoveComputation, mover: PlayerColor, now: u64)
    ensures
        final(game).board_fen == comp.fen,
        final(game).turn == mover.other_spec(),
        final(game).moves@ == old(game).moves@.push(
            MoveRecord { uci: comp.uci, san: comp.san, played_by: mover, played_at: now },
        ),
        final(game).updated_at == now,
        final(game).game_id == old(game).game_id,
        final(game).white == old(game).white,
        final(game).black == old(game).black,
        final(game).ai_black == old(game).ai_black,
        final(game).status == old(game).status,
        final(game).winner == old(game).winner,
        final(game).created_at == old(game).created_at,
        final(game).metadata == old(game).metadata,
{
    let MoveComputation { fen, uci, san, result: _ } = comp;
    game.board_fen = fen;
    game.turn = mover.other();
    game.moves.push(MoveRecord { uci, san, played_by: mover, played_at: now });
    game.updated_at = now;
}

/// Finishes a game with the given result and collects the ladder events it
/// produces.
fn apply_result(game: &mut StoredGame, result: MatchResult, now: u64) -> (ev: Vec<
    (u64, MatchOutcome),
>)
    ensures
        final(game).status is Finished,
        final(game).winner == (match result {
            MatchResult::Winner(c) => Option::Some(c),
            MatchResult::Draw => Option::<PlayerColor>::None,
        }),
        final(game).updated_at == now,
        final(game).game_id == old(game).game_id,
        final(game).white == old(game).white,
        final(game).black == old(game).black,
        final(game).ai_black == old(game).ai_black,
        final(game).board_fen == old(game).board_fen,
        final(game).moves == old(game).moves,
        final(game).turn == old(game).turn,
        final(game).created_at == old(game).created_at,
        final(game).metadata == old(game).metadata,
        ev@ == result_events(old(game).white, old(game).black, result),
{
    game.status = GameStatus::Finished;
    game.winner = match result {
        MatchResult::Winner(c) => Option::Some(c),
        MatchResult::Draw => Option::None,
    };
    game.updated_at = now;
    let mut ev: Vec<(u64, MatchOutcome)> = Vec::new();
    match result {
        MatchResult::Winner(PlayerColor::White) => {
            ev.push((game.white, MatchOutcome::Win));
            if let Option::Some(b) = game.black {
                ev.push((b, MatchOutcome::Loss));
            }
        },
        MatchResult::Winner(PlayerColor::Black) => {
            if let Option::Some(b) = game.black {
                ev.push((b, MatchOutcome::Win));
            }
            ev.push((game.white, MatchOutcome::Loss));
        },
        MatchResult::Draw => {
            ev.push((game.white, MatchOutcome::Draw));
            if let Option::Some(b) = game.black {
                ev.push((b, MatchOutcome::Draw));
            }
        },
    }
    proof {
        assert(ev@ =~= result_events(game.white, game.black, result));
    }
    ev
}

} // verus!
