//! Turn-based two-player chess matches with an optional built-in opponent and
//! a persistent rating ladder.
//!
//! The crate is the match state machine: move legality validation against the
//! full game rules, lifecycle transitions (lobby, active, finished),
//! terminal-condition detection, a deterministic one-ply move selector for the
//! automated opponent, and the rating update rule applied on game completion.
//! Board-rule questions (legal move sets, applying a move, classifying the
//! resulting position) are delegated to the `chess` crate behind a small
//! trusted boundary in `board`; everything around that boundary is verified.
//!
//! Transport, authorization and persistent storage are external collaborators:
//! callers hand every operation an already-authenticated caller identity and a
//! timestamp, and keep the state snapshot between operations.

use vstd::prelude::*;

pub mod ai;
pub mod board;
pub mod contract;
pub mod service;
pub mod state;
pub mod text;

use text::dec_str;

verus! {

/// ABI marker for the application.
pub struct ChainChessAbi;

/// A mutation or action that can be applied to the application.
#[derive(Debug)]
pub enum Operation {
    /// Create a new game lobby. The caller is white by default.
    CreateGame {
        /// Optional human readable title or context for the match.
        metadata: Option<String>,
        /// When true the black side is controlled by the built-in opponent.
        play_vs_ai: bool,
    },
    /// Join an existing lobby as the black player.
    JoinGame { game_id: u64 },
    /// Submit a chess move as a coordinate pair (e.g. "e2e4"), optionally
    /// extended by a promotion piece letter.
    SubmitMove {
        game_id: u64,
        uci: String,
        promotion: Option<String>,
    },
    /// Resign an active game.
    Resign { game_id: u64 },
}

/// Indicates whose turn it is or who played a move.
#[derive(Copy, Clone, Debug, PartialEq, Eq, Structural)]
pub enum PlayerColor {
    White,
    Black,
}

impl PlayerColor {
    /// The opposite seat, as a specification.
    pub open spec fn other_spec(self) -> Self {
        match self {
            PlayerColor::White => PlayerColor::Black,
            PlayerColor::Black => PlayerColor::White,
        }
    }

    /// The opposite seat.
    pub fn other(self) -> (r: Self)
        ensures
            r == self.other_spec(),
    {
        match self {
            PlayerColor::White => PlayerColor::Black,
            PlayerColor::Black => PlayerColor::White,
        }
    }
}

/// High level status for a match.
#[derive(Copy, Clone, Debug, PartialEq, Eq, Structural)]
pub enum GameStatus {
    Lobby,
    Active,
    Finished,
}

/// Stored move plus metadata.
#[derive(Debug)]
pub struct MoveRecord {
    /// The move in canonical coordinate form, e.g. "e2e4" or "e7e8q".
    pub uci: String,
    /// The simplified notation label for the move.
    pub san: Option<String>,
    /// The seat that played the move.
    pub played_by: PlayerColor,
    /// When the move was accepted.
    pub played_at: u64,
}

/// The view of an optional string as an optional character sequence.
pub open spec fn opt_seq(o: Option<String>) -> Option<Seq<char>> {
    match o {
        Option::Some(s) => Option::Some(s@),
        Option::None => Option::None,
    }
}

/// Two move records carry the same data.
pub open spec fn rec_eq(a: MoveRecord, b: MoveRecord) -> bool {
    &&& a.uci@ == b.uci@
    &&& opt_seq(a.san) == opt_seq(b.san)
    &&& a.played_by == b.played_by
    &&& a.played_at == b.played_at
}

/// Lightweight leaderboard entry.
#[derive(Copy, Clone, Debug, PartialEq, Eq, Structural)]
pub struct PlayerStats {
    pub chain_id: u64,
    pub wins: u32,
    pub losses: u32,
    pub draws: u32,
    pub games_played: u32,
    pub rating: i32,
}

impl PlayerStats {
    /// Games played always equals the sum of the three outcome counters.
    pub open spec fn wf(self) -> bool {
        self.games_played == self.wins + self.losses + self.draws
    }

    /// A fresh entry: all counters at zero, rating at zero.
    pub fn new(chain_id: u64) -> (r: Self)
        ensures
            r == (PlayerStats {
                chain_id,
                wins: 0,
                losses: 0,
                draws: 0,
                games_played: 0,
                rating: 0,
            }),
            r.wf(),
    {
        Self { chain_id, wins: 0, losses: 0, draws: 0, games_played: 0, rating: 0 }
    }
}

/// Public view of a game.
#[derive(Debug)]
pub struct GameSummary {
    pub game_id: u64,
    pub white: u64,
    pub black: Option<u64>,
    pub ai_black: bool,
    pub board_fen: String,
    pub moves: Vec<MoveRecord>,
    pub turn: PlayerColor,
    pub status: GameStatus,
    pub winner: Option<PlayerColor>,
    pub created_at: u64,
    pub updated_at: u64,
    pub metadata: Option<String>,
}

/// Domain errors bubbled up to the caller.
#[derive(Debug)]
pub enum ChainChessError {
    GameNotFound(u64),
    NotJoinable(u64),
    NotYourTurn,
    AlreadyFinished,
    MissingOpponent,
    InvalidMove(String),
    NotParticipant,
    LobbyLimitReached,
}

impl ChainChessError {
    /// The human-readable text for this error.
    pub open spec fn message_spec(self) -> Seq<char> {
        match self {
            ChainChessError::GameNotFound(id) => "game "@ + dec_str(id as nat)
                + " was not found"@,
            ChainChessError::NotJoinable(id) => "game "@ + dec_str(id as nat)
                + " is not joinable"@,
            ChainChessError::NotYourTurn => "it is not your turn"@,
            ChainChessError::AlreadyFinished => "game is already finished"@,
            ChainChessError::MissingOpponent => "game is still waiting for an opponent"@,
            ChainChessError::InvalidMove(s) => "invalid move: "@ + s@,
            ChainChessError::NotParticipant => "you are not a participant in this game"@,
            ChainChessError::LobbyLimitReached =>
                "cannot create more than 64 concurrent games per chain"@,
        }
    }

    /// The human-readable text for this error.
    pub fn message(&self) -> (r: String)
        ensures
            r@ == self.message_spec(),
    {
        match self {
            ChainChessError::GameNotFound(id) => String::from_str("game ").concat(
                text::u64_dec(*id).as_str(),
            ).concat(" was not found"),
            ChainChessError::NotJoinable(id) => String::from_str("game ").concat(
                text::u64_dec(*id).as_str(),
            ).concat(" is not joinable"),
            ChainChessError::NotYourTurn => String::from_str("it is not your turn"),
            ChainChessError::AlreadyFinished => String::from_str("game is already finished"),
            ChainChessError::MissingOpponent => String::from_str(
                "game is still waiting for an opponent",
            ),
            ChainChessError::InvalidMove(s) => String::from_str("invalid move: ").concat(
                s.as_str(),
            ),
            ChainChessError::NotParticipant => String::from_str(
                "you are not a participant in this game",
            ),
            ChainChessError::LobbyLimitReached => String::from_str(
                "cannot create more than 64 concurrent games per chain",
            ),
        }
    }
}

/// Public information returned after each operation.
#[derive(Debug)]
pub struct ChainChessResponse {
    pub success: bool,
    pub message: String,
    pub game: Option<GameSummary>,
}

impl ChainChessResponse {
    /// A successful outcome with the given message and optional game view.
    pub fn ok(message: &str, game: Option<GameSummary>) -> (r: Self)
        ensures
            r.success,
            r.message@ == message@,
            r.game == game,
    {
        Self { success: true, message: String::from_str(message), game }
    }

    /// A failed outcome with the given message.
    pub fn err(message: &str) -> (r: Self)
        ensures
            !r.success,
            r.message@ == message@,
            r.game is None,
    {
        Self { success: false, message: String::from_str(message), game: Option::None }
    }

    /// A failed outcome carrying the error's message.
    pub fn from_error(err: ChainChessError) -> (r: Self)
        ensures
            !r.success,
            r.message@ == err.message_spec(),
            r.game is None,
    {
        let msg = err.message();
        Self { success: false, message: msg, game: Option::None }
    }
}

} // verus!
