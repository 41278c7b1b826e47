//! A verified core for a small job gateway: it builds batch-workload
//! resource documents from caller requests, flattens cluster job records
//! into status summaries, and maps outcomes to HTTP replies.

pub mod names;
pub mod resources;
pub mod status;
pub mod gateway;

use vstd::prelude::*;

verus! {

/// A request to run a workload once.
pub struct CreateJob {
    pub name: String,
}

/// A request to run a workload on a cron-style schedule.
pub struct CreateCronJob {
    pub name: String,
    pub syntax: String,
}

} // verus!
