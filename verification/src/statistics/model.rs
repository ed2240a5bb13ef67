//! Values that the statistics service reports.

use vstd::prelude::*;

verus! {

/// A count for players, a count for games as a whole, and both together.
#[derive(Debug, PartialEq, Eq)]
pub struct StatisticCounts<T> {
    pub player: T,
    pub global: T,
    pub total: T,
}

/// The series that can be asked for.
#[derive(Debug, Clone, Copy, PartialEq, Eq, Structural)]
pub enum DataQueryType {
    GamesByDay,
    GamesByMonth,
}

} // verus!
