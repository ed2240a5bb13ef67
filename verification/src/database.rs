//! What the hub asks of the database writer.

use crate::model::{ServerPerformance, ServerStatus};
use vstd::prelude::*;

verus! {

#[verifier::external_type_specification]
#[verifier::external_body]
pub struct ExSystemTime(std::time::SystemTime);

/// `SystemTime::now`: the time of the call. Nothing is known of it.
#[verifier::external_body]
pub(crate) fn now() -> std::time::SystemTime {
    std::time::SystemTime::now()
}

/// Record the status of a channel at a time.
#[derive(Debug, PartialEq, Eq)]
pub struct WriteStatus {
    pub channel: String,
    pub time: std::time::SystemTime,
    pub status: ServerStatus,
}

/// Record how a channel was doing at a time.
#[derive(Debug, PartialEq, Eq)]
pub struct WritePerformance {
    pub channel: String,
    pub time: std::time::SystemTime,
    pub performance: ServerPerformance,
}

/// A request to the database writer.
#[derive(Debug, PartialEq, Eq)]
pub enum DatabaseMessage {
    WriteStatus(WriteStatus),
    WritePerformance(WritePerformance),
}

} // verus!
