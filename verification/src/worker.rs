//! Worker side of the search: the loop that draws batches of keypairs,
//! tests them against the pattern list in order, and reports to the
//! aggregator over the shared channel.
//!
//! The channel and the stop signal are the only things a worker shares
//! with the rest of the run.  The stop signal is advisory: a worker may
//! finish one in-flight batch before observing it.

use vstd::prelude::*;

use crate::keypair::{generate_keypair_batch, KeyPair, BATCH_SIZE};
use crate::pattern::{spec_matches, Pattern};
use std::sync::atomic::{AtomicBool, Ordering};
use std::sync::mpsc::Sender;

verus! {

/// A worker flushes its accumulated attempt count whenever it reaches this
/// floor; flushing on a floor rather than on an exact boundary means a
/// batch that jumps past the boundary still triggers the report.
pub const PROGRESS_FLUSH_THRESHOLD: u64 = 10000;

/// A match found by a worker: the keypair, and the index of the matched
/// pattern in the supplied pattern list.
pub struct SearchHit {
    pub key_pair: KeyPair,
    pub pattern_index: usize,
}

/// One report from a worker: the attempts accumulated since its previous
/// report, and the match, if this report carries one.  Built by a worker
/// and consumed once by the aggregator.
pub struct WorkerMessage {
    pub attempts: u64,
    pub search_hit: Option<SearchHit>,
}

impl WorkerMessage {
    /// A plain progress report.
    pub fn progress(attempts: u64) -> (r: WorkerMessage)
        ensures
            r.attempts == attempts,
            r.search_hit is None,
    {
        WorkerMessage { attempts, search_hit: None }
    }

    /// A report carrying a match.
    pub fn hit(attempts: u64, key_pair: KeyPair, pattern_index: usize) -> (r: WorkerMessage)
        ensures
            r.attempts == attempts,
            r.search_hit matches Some(h) && h.key_pair == key_pair && h.pattern_index
                == pattern_index,
    {
        WorkerMessage { attempts, search_hit: Some(SearchHit { key_pair, pattern_index }) }
    }
}

#[verifier::external_type_specification]
#[verifier::external_body]
#[verifier::reject_recursive_types(T)]
pub struct ExSender<T>(Sender<T>);

/// Relies on std's `mpsc::Sender::send`: delivers the message to the
/// channel unless the receiving end has disconnected, and returns whether
/// it was delivered.  Delivery depends on the receiver's state, so nothing
/// further is promised.
#[verifier::external_body]
fn channel_send(tx: &Sender<WorkerMessage>, msg: WorkerMessage) -> bool {
    tx.send(msg).is_ok()
}

/// Creates the shared stop signal, initially unset.
pub fn new_stop_signal() -> AtomicBool {
    AtomicBool::new(false)
}

/// Sets the stop signal.  The store writes `true` whatever the signal
/// already held, so setting it again changes nothing.
pub fn request_stop(stop_flag: &AtomicBool) {
    stop_flag.store(true, Ordering::Relaxed);
}

/// Observes the stop signal; workers poll this at each loop-iteration
/// boundary.
pub fn stop_requested(stop_flag: &AtomicBool) -> bool {
    stop_flag.load(Ordering::Relaxed)
}

/// The stop signal as a value: all a worker can observe of it.
pub struct StopState {
    pub requested: bool,
}

/// The effect of setting the stop signal.
pub open spec fn spec_request_stop(s: StopState) -> StopState {
    StopState { requested: true }
}

/// Setting the stop signal twice has the same observable effect as setting
/// it once: the signal is write-once-effective.
pub proof fn lemma_stop_idempotent(s: StopState)
    ensures
        spec_request_stop(spec_request_stop(s)) == spec_request_stop(s),
{
}

/// Finds the first match in a batch: keypairs are scanned in order, and
/// each is tested against every pattern in the order the patterns were
/// supplied, stopping at the first pattern that matches.  Returns the
/// indexes of the matched keypair and pattern.
pub fn find_first_match(keypairs: &Vec<KeyPair>, patterns: &Vec<Pattern>) -> (r: Option<
    (usize, usize),
>)
    ensures
        match r {
            Some((ki, pi)) => {
                &&& ki < keypairs@.len()
                &&& pi < patterns@.len()
                &&& spec_matches(keypairs@[ki as int].public_key@, patterns@[pi as int]@)
                &&& forall|q: int|
                    0 <= q < pi ==> !spec_matches(
                        keypairs@[ki as int].public_key@,
                        #[trigger] patterns@[q]@,
                    )
                &&& forall|k: int, q: int|
                    0 <= k < ki && 0 <= q < patterns@.len() ==> !spec_matches(
                        (#[trigger] keypairs@[k]).public_key@,
                        #[trigger] patterns@[q]@,
                    )
            },
            None => forall|k: int, q: int|
                0 <= k < keypairs@.len() && 0 <= q < patterns@.len() ==> !spec_matches(
                    (#[trigger] keypairs@[k]).public_key@,
                    #[trigger] patterns@[q]@,
                ),
        },
{
    let mut ki: usize = 0;
    while ki < keypairs.len()
        invariant
            ki <= keypairs@.len(),
            forall|k: int, q: int|
                0 <= k < ki && 0 <= q < patterns@.len() ==> !spec_matches(
                    (#[trigger] keypairs@[k]).public_key@,
                    #[trigger] patterns@[q]@,
                ),
        decreases keypairs@.len() - ki,
    {
        let keypair = &keypairs[ki];
        let mut pi: usize = 0;
        while pi < patterns.len()
            invariant
                ki < keypairs@.len(),
                pi <= patterns@.len(),
                keypair == &keypairs@[ki as int],
                forall|q: int|
                    0 <= q < pi ==> !spec_matches(
                        keypairs@[ki as int].public_key@,
                        #[trigger] patterns@[q]@,
                    ),
                forall|k: int, q: int|
                    0 <= k < ki && 0 <= q < patterns@.len() ==> !spec_matches(
                        (#[trigger] keypairs@[k]).public_key@,
                        #[trigger] patterns@[q]@,
                    ),
            decreases patterns@.len() - pi,
        {
            if crate::pattern::public_key_matches_pattern(keypair, &patterns[pi]) {
                return Some((ki, pi));
            }
            pi = pi + 1;
        }
        ki = ki + 1;
    }
    None
}

/// Draws one batch of fresh keypairs and tests it against the patterns.
/// When a keypair matches, the first matching keypair is returned together
/// with the index of the first pattern, in supplied order, that it
/// matches.  A miss says nothing beyond itself: the batch was random and
/// is discarded.
pub fn generate_and_check_batch(patterns: &Vec<Pattern>) -> (r: Option<(KeyPair, usize)>)
    ensures
        match r {
            Some((kp, pi)) => {
                &&& kp.wf()
                &&& pi < patterns@.len()
                &&& spec_matches(kp.public_key@, patterns@[pi as int]@)
                &&& forall|q: int|
                    0 <= q < pi ==> !spec_matches(kp.public_key@, #[trigger] patterns@[q]@)
            },
            None => true,
        },
{
    let keypairs = generate_keypair_batch(BATCH_SIZE);
    match find_first_match(&keypairs, patterns) {
        Some((ki, pi)) => Some((keypairs[ki], pi)),
        None => None,
    }
}

/// Sends a match report carrying the keypair, the matched pattern's index
/// and the attempts accumulated since the last report.  Returns whether it
/// was delivered; a failed delivery means the receiver is gone.
pub fn send_success(
    tx: &Sender<WorkerMessage>,
    key_pair: KeyPair,
    attempts: u64,
    pattern_index: usize,
) -> bool {
    channel_send(tx, WorkerMessage::hit(attempts, key_pair, pattern_index))
}

/// Sends a plain progress report carrying the accumulated attempt count.
/// Returns whether it was delivered; a failed delivery means the receiver
/// is gone.
pub fn send_progress_update(tx: &Sender<WorkerMessage>, attempts: u64) -> bool {
    channel_send(tx, WorkerMessage::progress(attempts))
}

/// The worker's per-round attempt bookkeeping after a batch without a
/// match: the batch joins the local counter, and the counter flushes --
/// is handed out for a progress report and reset -- exactly when it has
/// reached the threshold.  The comparison is a floor, so a batch that
/// jumps past the boundary still flushes.  Returns the counter to carry
/// into the next round, and the count to report, if this round flushes.
pub fn tally_missed_batch(local_attempts: u64) -> (r: (u64, Option<u64>))
    requires
        local_attempts + BATCH_SIZE <= u64::MAX,
    ensures
        (r.1 is Some) <==> local_attempts + BATCH_SIZE >= PROGRESS_FLUSH_THRESHOLD,
        r.1 matches Some(flushed) ==> flushed == local_attempts + BATCH_SIZE && r.0 == 0,
        r.1 is None ==> r.0 == local_attempts + BATCH_SIZE,
{
    let grown = local_attempts + (BATCH_SIZE as u64);
    if grown >= PROGRESS_FLUSH_THRESHOLD {
        (0, Some(grown))
    } else {
        (grown, None)
    }
}

/// The worker loop.  While the stop signal is unset: draw one batch, test
/// it, and either report a match at once (and stop), or tally the batch,
/// sending a progress report whenever the tally flushes.  The worker also
/// stops when a send fails, which means the receiver is gone and the run
/// is shutting down.
pub fn run_worker_loop(
    patterns: &Vec<Pattern>,
    tx: &Sender<WorkerMessage>,
    stop_flag: &AtomicBool,
) {
    let mut local_attempts: u64 = 0;
    // The round counter is the loop's termination measure; at one batch per
    // round it is far beyond what any run can reach.
    let mut rounds: u64 = 0;
    while rounds < u64::MAX
        invariant_except_break
            local_attempts < PROGRESS_FLUSH_THRESHOLD,
        decreases u64::MAX - rounds,
    {
        rounds = rounds + 1;
        if stop_requested(stop_flag) {
            break;
        }
        match generate_and_check_batch(patterns) {
            Some((key_pair, pattern_index)) => {
                send_success(tx, key_pair, local_attempts + (BATCH_SIZE as u64), pattern_index);
                break;
            },
            None => {
                let (next_attempts, flush) = tally_missed_batch(local_attempts);
                local_attempts = next_attempts;
                match flush {
                    Some(count) => {
                        if !send_progress_update(tx, count) {
                            break;
                        }
                    },
                    None => {},
                }
            },
        }
    }
}

} // verus!
