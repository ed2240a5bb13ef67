//! Requests to the statistics service.

use crate::statistics::model::DataQueryType;
use vstd::prelude::*;

verus! {

/// The statistics of one finished game, on their way to the statistics service.
#[derive(Debug, PartialEq, Eq)]
pub struct UploadStatsBundle {
    /// The UUID of the game, as a number.
    pub game_id: u128,
    /// The channel of the server that ran the game.
    pub server: String,
    /// The statistics, as the server sent them.
    pub bundle: serde_json::Value,
}

/// Ask for the totals over everything recorded.
#[derive(Debug, Clone, Copy, PartialEq, Eq, Structural)]
pub struct GetStatisticsStats;

/// Ask for a leaderboard by its name.
#[derive(Debug, PartialEq, Eq)]
pub struct GetLeaderboard(pub String);

/// Ask for the names of all leaderboards.
#[derive(Debug, Clone, Copy, PartialEq, Eq, Structural)]
pub struct GetAllLeaderboards;

/// Ask for a series of data points.
#[derive(Debug, Clone, Copy, PartialEq, Eq, Structural)]
pub struct DataQuery(pub DataQueryType);

} // verus!
