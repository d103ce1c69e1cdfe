//! Run parameters, validated before any worker is started.

use vstd::prelude::*;

verus! {

/// Why a run's parameters were rejected.
#[derive(Clone, Copy, PartialEq, Eq, Structural, Debug)]
pub enum ConfigError {
    /// A run with zero worker threads would leave the aggregator waiting
    /// on messages that no worker will ever send.
    NoWorkerThreads,
}

/// Parameters of one search run: how many workers to start, whether the
/// run stops on its first match, and the optional notification endpoint.
pub struct SearchConfig {
    pub thread_count: usize,
    pub stop_after_match: bool,
    pub notify_topic: Option<String>,
}

impl SearchConfig {
    /// Validates the run parameters.  A zero thread count is rejected
    /// here, before any worker or aggregator is started.
    pub fn new(thread_count: usize, stop_after_match: bool, notify_topic: Option<String>) -> (r:
        Result<SearchConfig, ConfigError>)
        ensures
            match r {
                Ok(c) => {
                    &&& thread_count > 0
                    &&& c.thread_count == thread_count
                    &&& c.stop_after_match == stop_after_match
                    &&& c.notify_topic == notify_topic
                },
                Err(e) => thread_count == 0 && e == ConfigError::NoWorkerThreads,
            },
    {
        if thread_count == 0 {
            Err(ConfigError::NoWorkerThreads)
        } else {
            Ok(SearchConfig { thread_count, stop_after_match, notify_topic })
        }
    }
}

} // verus!
