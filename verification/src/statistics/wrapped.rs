//! The yearly summary of what a player played.

use vstd::prelude::*;
use vstd::string::StringExecFns;

verus! {

/// A year for which summaries exist.
#[derive(Debug, Clone, Copy, PartialEq, Eq, Structural)]
pub enum WrappedYear {
    Y2023,
    Y2024,
}

/// A count for one kind of game.
#[derive(Debug, PartialEq, Eq)]
pub struct PerGameStat {
    pub namespace: String,
    pub total: u64,
}

/// The summary of one player's year.
#[derive(Debug, PartialEq, Eq)]
pub struct PlayerWrappedData {
    pub played_count: u64,
    pub top_games: Vec<PerGameStat>,
    pub days_played: u64,
    pub days_played_games: Vec<PerGameStat>,
    pub most_players: u64,
    pub most_players_games: Vec<PerGameStat>,
}


/// A year for which there is no summary.
#[derive(Debug, Clone, Copy, PartialEq, Eq, Structural)]
pub struct UnwrappedYear {
    pub year: u16,
}

impl WrappedYear {
    /// The first moment after which a game counts for the year.
    pub open spec fn spec_start_date(self) -> Seq<char> {
        match self {
            WrappedYear::Y2023 => "2022-12-31 00:00:00"@,
            WrappedYear::Y2024 => "2023-12-01 00:00:00"@,
        }
    }

    /// The moment before which a game counts for the year.
    pub open spec fn spec_end_date(self) -> Seq<char> {
        match self {
            WrappedYear::Y2023 => "2023-12-01 00:00:00"@,
            WrappedYear::Y2024 => "2024-12-21 00:00:00"@,
        }
    }

    /// The condition on the date of a game that makes it count for the year.
    pub open spec fn spec_date_range(self) -> Seq<char> {
        "(games.date_played < '"@ + self.spec_end_date() + "') AND (games.date_played > '"@
            + self.spec_start_date() + "')"@
    }

    /// The year with the given number, if summaries exist for it.
    pub fn from_year(value: u16) -> (result: Result<WrappedYear, UnwrappedYear>)
        ensures
            value == 2023 ==> result == Ok::<WrappedYear, UnwrappedYear>(WrappedYear::Y2023),
            value == 2024 ==> result == Ok::<WrappedYear, UnwrappedYear>(WrappedYear::Y2024),
            value != 2023 && value != 2024 ==> result == Err::<WrappedYear, UnwrappedYear>(
                UnwrappedYear { year: value },
            ),
    {
        if value == 2023 {
            Ok(WrappedYear::Y2023)
        } else if value == 2024 {
            Ok(WrappedYear::Y2024)
        } else {
            Err(UnwrappedYear { year: value })
        }
    }

    /// The first moment after which a game counts for the year.
    pub fn start_date(self) -> (date: &'static str)
        ensures
            date@ == self.spec_start_date(),
    {
        match self {
            WrappedYear::Y2023 => "2022-12-31 00:00:00",
            WrappedYear::Y2024 => "2023-12-01 00:00:00",
        }
    }

    /// The moment before which a game counts for the year.
    pub fn end_date(self) -> (date: &'static str)
        ensures
            date@ == self.spec_end_date(),
    {
        match self {
            WrappedYear::Y2023 => "2023-12-01 00:00:00",
            WrappedYear::Y2024 => "2024-12-21 00:00:00",
        }
    }

    /// The condition on the date of a game that makes it count for the year.
    pub fn date_range(self) -> (condition: String)
        ensures
            condition@ == self.spec_date_range(),
    {
        let mut condition = "(games.date_played < '".to_owned();
        condition.append(self.end_date());
        condition.append("') AND (games.date_played > '");
        condition.append(self.start_date());
        condition.append("')");
        condition
    }
}

/// The number of other players a player has met, from the number of
/// players of the games the player took part in, the player included.
pub fn others_met(players: u64) -> (others: u64)
    ensures
        others == if players > 0 {
            players - 1
        } else {
            0
        },
{
    if players > 0 {
        players - 1
    } else {
        0
    }
}

} // verus!
