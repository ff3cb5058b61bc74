//! The read-only query surface: a thin adapter over the application state
//! for dashboards and ranking views. Transport and query-language concerns
//! live with the host; the adapter only lists and ranks.

use vstd::prelude::*;

use crate::GameSummary;
use crate::PlayerStats;
use crate::state::ChainChessState;
use crate::state::sorted_ranking;

verus! {

/// Read-only access to an application state snapshot.
#[derive(Debug)]
pub struct ChainChessService {
    pub state: ChainChessState,
}

impl ChainChessService {
    /// Wraps a state snapshot for querying.
    pub fn new(state: ChainChessState) -> (r: Self)
        ensures
            r.state == state,
    {
        ChainChessService { state }
    }

    /// All games, in ascending identifier order.
    pub fn games(&self) -> (r: Vec<GameSummary>)
        ensures
            r@.len() == self.state.active_games@.len(),
            forall|i: int|
                0 <= i < r@.len() ==> self.state.active_games@[i].summarized_by(#[trigger] r@[i]),
    {
        self.state.games()
    }

    /// Top ladder entries: descending rating, ties by ascending identity,
    /// truncated to the requested count (ten when none is requested).
    pub fn top_players(&self, limit: Option<usize>) -> (r: Vec<PlayerStats>)
        requires
            self.state.wf(),
        ensures
            sorted_ranking(r@),
    {
        self.state.top_players(limit)
    }
}

} // verus!
