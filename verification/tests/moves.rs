//! Move validation, notation labels, and terminal-condition detection.

use chainchess::board::apply_uci_move;
use chainchess::board::parse_uci_move;
use chainchess::board::uci_string;
use chainchess::board::MatchResult;
use chainchess::board::MoveCoord;
use chainchess::contract::ChainChessContract;
use chainchess::ChainChessError;
use chainchess::GameStatus;
use chainchess::PlayerColor;

const START_FEN: &str = "rnbqkbnr/pppppppp/8/8/8/8/PPPPPPPP/RNBQKBNR w KQkq - 0 1";

#[test]
fn parse_coordinate_text() {
    // e2 = square 12, e4 = square 28.
    assert_eq!(
        parse_uci_move("e2e4", None),
        Some(MoveCoord {
            from: 12,
            to: 28,
            promo: 0
        })
    );
    // Upper case is accepted.
    assert_eq!(
        parse_uci_move("E2E4", None),
        Some(MoveCoord {
            from: 12,
            to: 28,
            promo: 0
        })
    );
    // A fifth letter is a promotion piece; e7 = 52, e8 = 60, queen code 5.
    assert_eq!(
        parse_uci_move("e7e8q", None),
        Some(MoveCoord {
            from: 52,
            to: 60,
            promo: 5
        })
    );
    // A separate hint is appended to four-character text; rook code 4.
    assert_eq!(
        parse_uci_move("e7e8", Some("rook")),
        Some(MoveCoord {
            from: 52,
            to: 60,
            promo: 4
        })
    );
    // An empty hint defaults to a queen.
    assert_eq!(
        parse_uci_move("e7e8", Some("")),
        Some(MoveCoord {
            from: 52,
            to: 60,
            promo: 5
        })
    );
    // Malformed coordinates and unknown promotion letters are rejected.
    assert_eq!(parse_uci_move("e2e", None), None);
    assert_eq!(parse_uci_move("i2e4", None), None);
    assert_eq!(parse_uci_move("e9e4", None), None);
    assert_eq!(parse_uci_move("e7e8x", None), None);
    assert_eq!(parse_uci_move("", None), None);
}

#[test]
fn canonical_text_round_trip() {
    let m = MoveCoord {
        from: 52,
        to: 60,
        promo: 5,
    };
    let u = uci_string(&m);
    assert_eq!(u, "e7e8q");
    assert_eq!(parse_uci_move(&u, None), Some(m));
    let m2 = MoveCoord {
        from: 12,
        to: 28,
        promo: 0,
    };
    assert_eq!(uci_string(&m2), "e2e4");
}

#[test]
fn king_pawn_opening_labels_and_position() {
    let c = apply_uci_move(START_FEN, "e2e4", None, PlayerColor::White).unwrap();
    assert_eq!(c.uci, "e2e4");
    // A quiet pawn move carries no piece letter: just the destination.
    assert_eq!(c.san.as_deref(), Some("e4"));
    assert_eq!(c.result, None);
    // The side-to-move flag flips to black in the new position.
    assert_eq!(
        c.fen,
        "rnbqkbnr/pppppppp/8/8/4P3/8/PPPP1PPP/RNBQKBNR b KQkq - 0 1"
    );
}

#[test]
fn capture_and_knight_labels() {
    let c1 = apply_uci_move(START_FEN, "e2e4", None, PlayerColor::White).unwrap();
    let c2 = apply_uci_move(&c1.fen, "d7d5", None, PlayerColor::Black).unwrap();
    let c3 = apply_uci_move(&c2.fen, "e4d5", None, PlayerColor::White).unwrap();
    // A capture carries the marker; the capturing pawn has no piece letter.
    assert_eq!(c3.san.as_deref(), Some("xd5"));
    let k = apply_uci_move(START_FEN, "g1f3", None, PlayerColor::White).unwrap();
    assert_eq!(k.san.as_deref(), Some("Nf3"));
}

#[test]
fn promotion_labels() {
    // White pawn one step from promotion.
    let fen = "8/P6k/8/8/8/8/7K/8 w - - 0 1";
    let c = apply_uci_move(fen, "a7a8", Some("q"), PlayerColor::White).unwrap();
    assert_eq!(c.uci, "a7a8q");
    assert_eq!(c.san.as_deref(), Some("a8=Q"));
    let c = apply_uci_move(fen, "a7a8n", None, PlayerColor::White).unwrap();
    assert_eq!(c.uci, "a7a8n");
    assert_eq!(c.san.as_deref(), Some("a8=N"));
}

#[test]
fn illegal_moves_are_rejected() {
    // A two-square non-capturing bishop move from the initial position.
    assert!(apply_uci_move(START_FEN, "f1d3", None, PlayerColor::White).is_err());
    // A legal-looking move for the wrong side.
    assert!(apply_uci_move(START_FEN, "e7e5", None, PlayerColor::White).is_err());
    // Unparseable position text.
    assert!(apply_uci_move("not a position", "e2e4", None, PlayerColor::White).is_err());
}

#[test]
fn rejected_move_leaves_game_unchanged() {
    let mut c = ChainChessContract::new();
    c.create_game(1, 10, None, false).unwrap();
    c.join_game(2, 20, 1).unwrap();
    let before_fen = c.state.active_games[0].board_fen.clone();
    let before_updated = c.state.active_games[0].updated_at;
    let r = c.submit_move(1, 30, 1, "f1d3", None);
    match r {
        Err(ChainChessError::InvalidMove(msg)) => {
            assert_eq!(msg, "move is illegal in current position");
        }
        other => panic!("expected an invalid-move rejection, got {:?}", other),
    }
    let g = &c.state.active_games[0];
    assert_eq!(g.board_fen, before_fen);
    assert_eq!(g.updated_at, before_updated);
    assert!(g.moves.is_empty());
    assert_eq!(g.turn, PlayerColor::White);
    assert!(c.state.leaderboard.is_empty());
}

#[test]
fn turn_ownership_is_enforced() {
    let mut c = ChainChessContract::new();
    c.create_game(1, 10, None, false).unwrap();
    assert!(matches!(
        c.submit_move(1, 15, 1, "e2e4", None),
        Err(ChainChessError::MissingOpponent)
    ));
    c.join_game(2, 20, 1).unwrap();
    assert!(matches!(
        c.submit_move(2, 30, 1, "e7e5", None),
        Err(ChainChessError::NotYourTurn)
    ));
    assert!(matches!(
        c.submit_move(3, 40, 1, "e2e4", None),
        Err(ChainChessError::NotParticipant)
    ));
    assert!(matches!(
        c.submit_move(1, 50, 9, "e2e4", None),
        Err(ChainChessError::GameNotFound(9))
    ));
}

#[test]
fn accepted_moves_alternate_turns() {
    let mut c = ChainChessContract::new();
    c.create_game(1, 10, None, false).unwrap();
    c.join_game(2, 20, 1).unwrap();
    let moves = ["e2e4", "e7e5", "g1f3", "b8c6"];
    for (i, mv) in moves.iter().enumerate() {
        let caller = if i % 2 == 0 { 1 } else { 2 };
        let resp = c.submit_move(caller, 30 + i as u64, 1, mv, None).unwrap();
        let g = resp.game.unwrap();
        let expected_turn = if i % 2 == 0 {
            PlayerColor::Black
        } else {
            PlayerColor::White
        };
        assert_eq!(g.turn, expected_turn);
    }
    let g = &c.state.active_games[0];
    for (i, rec) in g.moves.iter().enumerate() {
        let expected = if i % 2 == 0 {
            PlayerColor::White
        } else {
            PlayerColor::Black
        };
        assert_eq!(rec.played_by, expected);
    }
}

#[test]
fn stored_moves_use_canonical_lowercase_text() {
    let mut c = ChainChessContract::new();
    c.create_game(1, 10, None, false).unwrap();
    c.join_game(2, 20, 1).unwrap();
    let resp = c.submit_move(1, 30, 1, "E2E4", None).unwrap();
    let g = resp.game.unwrap();
    assert_eq!(g.moves[0].uci, "e2e4");
    assert_eq!(g.moves[0].san.as_deref(), Some("e4"));
    assert_eq!(g.moves[0].played_at, 30);
}

#[test]
fn fools_mate_finishes_and_settles_the_ladder() {
    let mut c = ChainChessContract::new();
    c.create_game(1, 10, None, false).unwrap();
    c.join_game(2, 20, 1).unwrap();
    c.submit_move(1, 30, 1, "f2f3", None).unwrap();
    c.submit_move(2, 31, 1, "e7e5", None).unwrap();
    c.submit_move(1, 32, 1, "g2g4", None).unwrap();
    let resp = c.submit_move(2, 33, 1, "d8h4", None).unwrap();
    let g = resp.game.unwrap();
    assert_eq!(g.status, GameStatus::Finished);
    assert_eq!(g.winner, Some(PlayerColor::Black));
    assert_eq!(g.moves.len(), 4);
    // Exactly the two participant records are updated.
    assert_eq!(c.state.leaderboard.len(), 2);
    let white = c.state.leaderboard.iter().find(|s| s.chain_id == 1).unwrap();
    let black = c.state.leaderboard.iter().find(|s| s.chain_id == 2).unwrap();
    assert_eq!((black.wins, black.losses, black.draws), (1, 0, 0));
    assert_eq!(black.games_played, 1);
    assert_eq!(black.rating, 10);
    assert_eq!((white.wins, white.losses, white.draws), (0, 1, 0));
    assert_eq!(white.games_played, 1);
    assert_eq!(white.rating, -5);
    // No further moves are accepted.
    assert!(matches!(
        c.submit_move(1, 40, 1, "e2e4", None),
        Err(ChainChessError::AlreadyFinished)
    ));
}

#[test]
fn checkmate_is_detected_by_the_validator() {
    let c1 = apply_uci_move(START_FEN, "f2f3", None, PlayerColor::White).unwrap();
    let c2 = apply_uci_move(&c1.fen, "e7e5", None, PlayerColor::Black).unwrap();
    let c3 = apply_uci_move(&c2.fen, "g2g4", None, PlayerColor::White).unwrap();
    let c4 = apply_uci_move(&c3.fen, "d8h4", None, PlayerColor::Black).unwrap();
    assert_eq!(c4.result, Some(MatchResult::Winner(PlayerColor::Black)));
    assert_eq!(c4.san.as_deref(), Some("Qh4"));
}

#[test]
fn stalemate_draws_and_updates_both_participants() {
    let mut c = ChainChessContract::new();
    c.create_game(1, 10, None, false).unwrap();
    c.join_game(2, 20, 1).unwrap();
    // The shortest known stalemate game.
    let plies = [
        "e2e3", "a7a5", "d1h5", "a8a6", "h5a5", "h7h5", "h2h4", "a6h6", "a5c7", "f7f6", "c7d7",
        "e8f7", "d7b7", "d8d3", "b7b8", "d3h7", "b8c8", "f7g6", "c8e6",
    ];
    for (i, mv) in plies.iter().enumerate() {
        let caller = if i % 2 == 0 { 1 } else { 2 };
        let resp = c.submit_move(caller, 30 + i as u64, 1, mv, None).unwrap();
        assert!(resp.success, "ply {} ({}) was rejected", i, mv);
    }
    let g = &c.state.active_games[0];
    assert_eq!(g.status, GameStatus::Finished);
    assert_eq!(g.winner, None);
    let white = c.state.leaderboard.iter().find(|s| s.chain_id == 1).unwrap();
    let black = c.state.leaderboard.iter().find(|s| s.chain_id == 2).unwrap();
    assert_eq!((white.wins, white.losses, white.draws), (0, 0, 1));
    assert_eq!(white.games_played, 1);
    assert_eq!(white.rating, 1);
    assert_eq!((black.wins, black.losses, black.draws), (0, 0, 1));
    assert_eq!(black.games_played, 1);
    assert_eq!(black.rating, 1);
}
