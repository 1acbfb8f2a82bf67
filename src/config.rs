use vstd::prelude::*;

use crate::retry::{doubling_policy, Policy};
use crate::runtime::RuntimePolicy;

verus! {

/// Settings read from the environment: the chain-sync node to follow and the
/// database to write to.
#[derive(Debug, Clone, PartialEq, Eq)]
pub struct IndexerConfig {
    pub dolos_endpoint: String,
    pub database_url: String,
}

/// Options of the `start` command.
#[derive(Debug, Clone, PartialEq, Eq)]
pub struct Args {
    /// Database URL; takes priority over the configured one.
    pub database_url: Option<String>,
}

/// The commands of the program.
#[derive(Debug, Clone, PartialEq, Eq)]
pub enum Cli {
    Start(Args),
}

/// Capacity of the channel between the source and the sink.
pub const CHANNEL_CAPACITY: usize = 100;

impl Args {
    /// The database to write to: the one given on the command line if any,
    /// else the configured one.
    pub fn resolve_database_url(&self, config: &IndexerConfig) -> (r: String)
        ensures
            r@ == match self.database_url {
                Some(u) => u@,
                None => config.database_url@,
            },
    {
        match &self.database_url {
            Some(u) => u.clone(),
            None => config.database_url.clone(),
        }
    }
}

/// Retry policy of every phase of both stages: twenty retries, delays
/// doubling from one second up to one minute, never dismissible.
pub fn stage_retry_policy() -> (r: Policy)
    ensures
        r == doubling_policy(false),
{
    Policy {
        max_retries: 20,
        backoff_unit: 1000,
        backoff_factor: 2,
        max_backoff: 60000,
        dismissible: false,
    }
}

/// The runtime policy of both stages: the same retry policy for bootstrap,
/// work and teardown.
pub fn stage_runtime_policy() -> (r: RuntimePolicy)
    ensures
        r.bootstrap_retry == doubling_policy(false),
        r.work_retry == doubling_policy(false),
        r.teardown_retry == doubling_policy(false),
{
    let retries = stage_retry_policy();
    RuntimePolicy { bootstrap_retry: retries, work_retry: retries, teardown_retry: retries }
}

} // verus!
