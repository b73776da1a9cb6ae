//! The rankings of a list in their short form.

use vstd::prelude::*;

verus! {

/// A ranking as a list names it.
#[derive(Debug, PartialEq, Eq)]
pub struct RankingListItem {
    pub id: i64,
    pub desc: String,
    /// Seconds after the Unix epoch at which the ranking closes.
    pub expiring: i64,
}

/// A list of rankings in their short form.
#[derive(Debug, PartialEq, Eq)]
pub struct CreateRanking {
    pub ranking_list: Vec<RankingListItem>,
}

impl Default for CreateRanking {
    fn default() -> (list: Self)
        ensures
            list.ranking_list@.len() == 0,
    {
        CreateRanking { ranking_list: Vec::new() }
    }
}

} // verus!
