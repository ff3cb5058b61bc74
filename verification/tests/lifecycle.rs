//! Lifecycle transitions: create, join, resign, and their rejections.

use chainchess::contract::ChainChessContract;
use chainchess::ChainChessError;
use chainchess::GameStatus;
use chainchess::Operation;
use chainchess::PlayerColor;

const START_FEN: &str = "rnbqkbnr/pppppppp/8/8/8/8/PPPPPPPP/RNBQKBNR w KQkq - 0 1";

#[test]
fn create_lobby_initial_state() {
    let mut c = ChainChessContract::new();
    let resp = c
        .create_game(1, 100, Some(String::from("friendly")), false)
        .unwrap();
    assert!(resp.success);
    assert_eq!(resp.message, "Game lobby created");
    let g = resp.game.unwrap();
    assert_eq!(g.game_id, 1);
    assert_eq!(g.white, 1);
    assert_eq!(g.black, None);
    assert!(!g.ai_black);
    assert_eq!(g.board_fen, START_FEN);
    assert!(g.moves.is_empty());
    assert_eq!(g.turn, PlayerColor::White);
    assert_eq!(g.status, GameStatus::Lobby);
    assert_eq!(g.winner, None);
    assert_eq!(g.created_at, 100);
    assert_eq!(g.updated_at, 100);
    assert_eq!(g.metadata, Some(String::from("friendly")));
}

#[test]
fn create_vs_ai_starts_active() {
    let mut c = ChainChessContract::new();
    let resp = c.create_game(1, 5, None, true).unwrap();
    let g = resp.game.unwrap();
    assert!(g.ai_black);
    assert_eq!(g.black, None);
    assert_eq!(g.status, GameStatus::Active);
}

#[test]
fn game_ids_strictly_increase() {
    let mut c = ChainChessContract::new();
    let a = c.create_game(1, 1, None, false).unwrap().game.unwrap();
    let b = c.create_game(2, 2, None, false).unwrap().game.unwrap();
    let d = c.create_game(1, 3, None, true).unwrap().game.unwrap();
    assert_eq!(a.game_id, 1);
    assert_eq!(b.game_id, 2);
    assert_eq!(d.game_id, 3);
}

#[test]
fn lobby_limit_rejects_sixty_fifth_game() {
    let mut c = ChainChessContract::new();
    for i in 0..64u64 {
        // A mix of lobbies and automated games: all count as open.
        let vs_ai = i % 2 == 0;
        let r = c.create_game(7, i, None, vs_ai);
        assert!(r.is_ok());
    }
    let r = c.create_game(7, 999, None, false);
    assert!(matches!(r, Err(ChainChessError::LobbyLimitReached)));
    // Another identity is not affected by the first one's ceiling.
    let r2 = c.create_game(8, 1000, None, false);
    assert!(r2.is_ok());
}

#[test]
fn join_fills_second_seat_and_activates() {
    let mut c = ChainChessContract::new();
    c.create_game(1, 10, None, false).unwrap();
    let resp = c.join_game(2, 20, 1).unwrap();
    assert!(resp.success);
    assert_eq!(resp.message, "Joined game successfully");
    let g = resp.game.unwrap();
    assert_eq!(g.black, Some(2));
    assert_eq!(g.status, GameStatus::Active);
    assert_eq!(g.updated_at, 20);
}

#[test]
fn join_rejections() {
    let mut c = ChainChessContract::new();
    c.create_game(1, 10, None, false).unwrap();
    // Unknown game.
    assert!(matches!(
        c.join_game(2, 11, 99),
        Err(ChainChessError::GameNotFound(99))
    ));
    // Self-join.
    assert!(matches!(
        c.join_game(1, 12, 1),
        Err(ChainChessError::NotJoinable(1))
    ));
    // Automated game.
    c.create_game(1, 13, None, true).unwrap();
    assert!(matches!(
        c.join_game(2, 14, 2),
        Err(ChainChessError::NotJoinable(2))
    ));
    // Already filled (active) game.
    c.join_game(2, 15, 1).unwrap();
    assert!(matches!(
        c.join_game(3, 16, 1),
        Err(ChainChessError::NotJoinable(1))
    ));
}

#[test]
fn resign_finishes_with_other_seat_as_winner() {
    let mut c = ChainChessContract::new();
    c.create_game(1, 10, None, false).unwrap();
    c.join_game(2, 20, 1).unwrap();
    // White plays a strong opening move and then resigns anyway: the other
    // seat wins regardless of the board.
    c.submit_move(1, 30, 1, "e2e4", None).unwrap();
    let resp = c.resign(2, 40, 1).unwrap();
    assert!(resp.success);
    assert_eq!(resp.message, "Resigned successfully");
    let g = resp.game.unwrap();
    assert_eq!(g.status, GameStatus::Finished);
    assert_eq!(g.winner, Some(PlayerColor::White));
    // The board position is untouched by the resignation.
    assert_eq!(g.moves.len(), 1);
    // Ladder: white won, black lost.
    let white = c.state.leaderboard.iter().find(|s| s.chain_id == 1).unwrap();
    let black = c.state.leaderboard.iter().find(|s| s.chain_id == 2).unwrap();
    assert_eq!((white.wins, white.losses, white.draws), (1, 0, 0));
    assert_eq!(white.games_played, 1);
    assert_eq!(white.rating, 10);
    assert_eq!((black.wins, black.losses, black.draws), (0, 1, 0));
    assert_eq!(black.games_played, 1);
    assert_eq!(black.rating, -5);
}

#[test]
fn resign_rejections() {
    let mut c = ChainChessContract::new();
    c.create_game(1, 10, None, false).unwrap();
    c.join_game(2, 20, 1).unwrap();
    assert!(matches!(
        c.resign(3, 30, 1),
        Err(ChainChessError::NotParticipant)
    ));
    c.resign(1, 40, 1).unwrap();
    assert!(matches!(
        c.resign(2, 50, 1),
        Err(ChainChessError::AlreadyFinished)
    ));
    assert!(matches!(
        c.resign(1, 60, 7),
        Err(ChainChessError::GameNotFound(7))
    ));
}

#[test]
fn execute_operation_maps_errors_to_failed_responses() {
    let mut c = ChainChessContract::new();
    let resp = c.execute_operation(
        Operation::CreateGame {
            metadata: None,
            play_vs_ai: false,
        },
        1,
        10,
    );
    assert!(resp.success);
    let resp = c.execute_operation(Operation::JoinGame { game_id: 9 }, 2, 20);
    assert!(!resp.success);
    assert_eq!(resp.message, "game 9 was not found");
    assert!(resp.game.is_none());
    let resp = c.execute_operation(
        Operation::SubmitMove {
            game_id: 1,
            uci: String::from("e2e4"),
            promotion: None,
        },
        1,
        30,
    );
    assert!(!resp.success);
    assert_eq!(resp.message, "game is still waiting for an opponent");
    let resp = c.execute_operation(Operation::Resign { game_id: 1 }, 1, 40);
    assert!(resp.success);
}

#[test]
fn error_messages() {
    assert_eq!(
        ChainChessError::GameNotFound(12345).message(),
        "game 12345 was not found"
    );
    assert_eq!(
        ChainChessError::NotJoinable(0).message(),
        "game 0 is not joinable"
    );
    assert_eq!(
        ChainChessError::GameNotFound(u64::MAX).message(),
        "game 18446744073709551615 was not found"
    );
    assert_eq!(ChainChessError::NotYourTurn.message(), "it is not your turn");
    assert_eq!(
        ChainChessError::LobbyLimitReached.message(),
        "cannot create more than 64 concurrent games per chain"
    );
    assert_eq!(
        ChainChessError::InvalidMove(String::from("bad")).message(),
        "invalid move: bad"
    );
}
