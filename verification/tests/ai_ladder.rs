//! The automated opponent and the ranking views.

use chainchess::ai::pick_ai_move;
use chainchess::contract::ChainChessContract;
use chainchess::service::ChainChessService;
use chainchess::state::ChainChessState;
use chainchess::GameStatus;
use chainchess::PlayerColor;
use chainchess::PlayerStats;

const START_FEN: &str = "rnbqkbnr/pppppppp/8/8/8/8/PPPPPPPP/RNBQKBNR w KQkq - 0 1";

#[test]
fn opponent_is_deterministic_on_ties() {
    // From the initial position the two double pawn pushes into the center
    // score identically; the canonical ordering picks the queenside one,
    // and repeated runs agree.
    let first = pick_ai_move(START_FEN);
    let second = pick_ai_move(START_FEN);
    assert_eq!(first, second);
    assert_eq!(first.as_deref(), Some("d2d4"));
}

#[test]
fn opponent_prefers_the_biggest_capture() {
    // A black queen hangs on c3: three pieces can take it, and the capture
    // outscores every quiet move. The knight has the smallest source square.
    let fen = "rnbqkbnr/pppppppp/8/8/8/2q5/PPPPPPPP/RNBQKBNR w KQkq - 0 1";
    assert_eq!(pick_ai_move(fen).as_deref(), Some("b1c3"));
}

#[test]
fn opponent_returns_nothing_without_a_move() {
    // A stalemated position: black to move, no legal moves.
    let fen = "5k2/5P2/5K2/8/8/8/8/8 b - - 0 1";
    assert_eq!(pick_ai_move(fen), None);
    // Unparseable position text.
    assert_eq!(pick_ai_move("nonsense"), None);
}

#[test]
fn automated_game_replies_within_the_same_operation() {
    let mut c = ChainChessContract::new();
    c.create_game(1, 10, None, true).unwrap();
    let resp = c.submit_move(1, 20, 1, "e2e4", None).unwrap();
    let g = resp.game.unwrap();
    // The human move and the automated reply are both recorded.
    assert_eq!(g.moves.len(), 2);
    assert_eq!(g.moves[0].uci, "e2e4");
    assert_eq!(g.moves[0].played_by, PlayerColor::White);
    // Black's best-scoring reply under the canonical ordering.
    assert_eq!(g.moves[1].uci, "d7d5");
    assert_eq!(g.moves[1].played_by, PlayerColor::Black);
    assert_eq!(g.turn, PlayerColor::White);
    assert_eq!(g.status, GameStatus::Active);
}

#[test]
fn ranking_orders_by_rating_then_identity() {
    let entry = |chain_id: u64, rating: i32| PlayerStats {
        chain_id,
        wins: 1,
        losses: 0,
        draws: 0,
        games_played: 1,
        rating,
    };
    let state = ChainChessState {
        next_game_id: 1,
        active_games: Vec::new(),
        leaderboard: vec![entry(1, 5), entry(2, 10), entry(3, 10), entry(4, -1)],
    };
    let service = ChainChessService::new(state);
    let top = service.top_players(None);
    let order: Vec<u64> = top.iter().map(|s| s.chain_id).collect();
    assert_eq!(order, vec![2, 3, 1, 4]);
    let top2 = service.top_players(Some(2));
    let order2: Vec<u64> = top2.iter().map(|s| s.chain_id).collect();
    assert_eq!(order2, vec![2, 3]);
    let top0 = service.top_players(Some(0));
    assert!(top0.is_empty());
}

#[test]
fn queries_on_a_fresh_state_are_empty() {
    let c = ChainChessContract::new();
    let service = ChainChessService::new(c.state);
    assert!(service.games().is_empty());
    assert!(service.top_players(None).is_empty());
}

#[test]
fn games_listing_is_sorted_by_identifier() {
    let mut c = ChainChessContract::new();
    c.create_game(5, 1, None, false).unwrap();
    c.create_game(3, 2, Some(String::from("second")), true).unwrap();
    c.create_game(5, 3, None, false).unwrap();
    let service = ChainChessService::new(c.state);
    let games = service.games();
    assert_eq!(games.len(), 3);
    let ids: Vec<u64> = games.iter().map(|g| g.game_id).collect();
    assert_eq!(ids, vec![1, 2, 3]);
    assert_eq!(games[1].metadata, Some(String::from("second")));
}

#[test]
fn draws_against_the_automated_seat_update_only_the_human() {
    // Resigning an automated game: the winner seat has no identity, so only
    // the human's loss is recorded.
    let mut c = ChainChessContract::new();
    c.create_game(1, 10, None, true).unwrap();
    let resp = c.resign(1, 20, 1).unwrap();
    let g = resp.game.unwrap();
    assert_eq!(g.status, GameStatus::Finished);
    assert_eq!(g.winner, Some(PlayerColor::Black));
    assert_eq!(c.state.leaderboard.len(), 1);
    let human = &c.state.leaderboard[0];
    assert_eq!(human.chain_id, 1);
    assert_eq!((human.wins, human.losses, human.draws), (0, 1, 0));
    assert_eq!(human.rating, -5);
}
