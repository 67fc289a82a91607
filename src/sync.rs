use vstd::prelude::*;

use crate::duration::Duration;
use crate::liveness::{check_progress, made_progress, NodeObservation, NodeStuckError};
use crate::measurement::Measurement;
use crate::thresholds::{thresholds_for_transaction_counter, thresholds_for_transaction_send_by_duration, Direction};

verus! {

/// Whether all the given tip hashes are equal (true of none or one).
pub open spec fn all_equal(tips: Seq<String>) -> bool {
    forall|i: int, j: int|
        0 <= i < tips.len() && 0 <= j < tips.len() ==> #[trigger] tips[i]@ == #[trigger] tips[j]@
}

/// Whether the nodes whose tips were read in one poll round agree on the tip.
pub fn tips_converged(tips: &Vec<String>) -> (r: bool)
    ensures
        r == all_equal(tips@),
{
    if tips.len() == 0 {
        return true;
    }
    let mut i: usize = 1;
    while i < tips.len()
        invariant
            1 <= i <= tips@.len(),
            forall|k: int| 0 <= k < i ==> #[trigger] tips@[k]@ == tips@[0]@,
        decreases tips@.len() - i,
    {
        if tips[i] != tips[0] {
            return false;
        }
        i = i + 1;
    }
    true
}

/// What the coordinator does after a poll round of the convergence wait.
#[derive(Clone, Copy, Debug, PartialEq, Eq, Structural)]
pub enum SyncDecision {
    /// All tips agree: stop and measure the time waited.
    Converged,
    /// Not yet, and there is time left: sleep and poll again.
    KeepWaiting,
    /// Not converged within the timeout: the scenario fails.
    TimedOut,
}

/// The decision after one poll round: converged if all tips agree (the time
/// waited does not matter then), timed out if they do not and `elapsed` is
/// past `timeout`, else wait on.
pub fn poll_round(tips: &Vec<String>, elapsed: Duration, timeout: Duration) -> (r: SyncDecision)
    ensures
        r == (if all_equal(tips@) {
            SyncDecision::Converged
        } else if elapsed@ > timeout@ {
            SyncDecision::TimedOut
        } else {
            SyncDecision::KeepWaiting
        }),
{
    if tips_converged(tips) {
        SyncDecision::Converged
    } else if !elapsed.at_most(&timeout) {
        SyncDecision::TimedOut
    } else {
        SyncDecision::KeepWaiting
    }
}

/// The measurement of a convergence that took `elapsed`, judged by duration
/// thresholds built from the sync `timeout`.
pub fn sync_measurement(info: String, elapsed: Duration, timeout: Duration) -> (r: Measurement<Duration>)
    ensures
        r.label() == info@,
        r.value() == elapsed,
        r.bounds().direction_of() == Direction::LowerIsBetter,
        r.bounds().green_bound()@ == (timeout@ / 1_000_000_000 / 3) * 1_000_000_000,
        r.bounds().yellow_bound()@ == (timeout@ / 1_000_000_000 / 2) * 1_000_000_000,
        r.bounds().red_bound()@ == (timeout@ / 1_000_000_000) * 1_000_000_000,
        r.bounds().limit() == timeout,
{
    Measurement::new(info, elapsed, thresholds_for_transaction_send_by_duration(timeout))
}

/// What the coordinator does after one batch of transactions.
#[derive(Debug)]
pub enum BatchOutcome {
    /// The node progressed and batches remain: send the next one.
    Continue,
    /// The node progressed and that was the last batch: start the sync wait.
    Finished,
    /// The node made no progress: abort the remaining work.
    Stalled(NodeStuckError),
}

/// The decision after batch number `done` (counted from 0) of `total`, from
/// observations of the node before and after it.
pub fn after_batch(done: u64, total: u64, before: &NodeObservation, after: &NodeObservation) -> (r: BatchOutcome)
    requires
        done < total,
    ensures
        r is Stalled <==> !made_progress(*before, *after),
        r is Finished <==> made_progress(*before, *after) && done + 1 == total,
        r is Continue <==> made_progress(*before, *after) && done + 1 < total,
        r matches BatchOutcome::Stalled(e) ==> (e is TipIsNotMoving <==> before.tip_hash@
            == after.tip_hash@),
        r matches BatchOutcome::Stalled(NodeStuckError::TipIsNotMoving { tip_hash, logs })
            ==> tip_hash@ == after.tip_hash@ && logs@ == after.log_tail@,
        r matches BatchOutcome::Stalled(
            NodeStuckError::BlockCounterIsNoIncreased { block_counter, logs },
        ) ==> block_counter == before.block_counter && logs@ == after.log_tail@,
{
    match check_progress(before, after) {
        Err(e) => BatchOutcome::Stalled(e),
        Ok(()) => if done + 1 == total {
            BatchOutcome::Finished
        } else {
            BatchOutcome::Continue
        },
    }
}

/// The measurement of a run that was to send `iterations` batches of
/// `batch_size` units and completed `completed` of them: the units sent,
/// judged by counter thresholds built from the units planned.
pub fn sent_units_measurement(info: String, iterations: u64, batch_size: u64, completed: u64) -> (r: Measurement<u64>)
    requires
        completed <= iterations,
        iterations * batch_size <= u64::MAX,
    ensures
        r.label() == info@,
        r.value() == completed * batch_size,
        r.bounds().direction_of() == Direction::HigherIsBetter,
        r.bounds().green_bound() == (iterations * batch_size) / 2,
        r.bounds().yellow_bound() == (iterations * batch_size) / 3,
        r.bounds().red_bound() == (iterations * batch_size) / 4,
        r.bounds().limit() == iterations * batch_size,
{
    assert(completed * batch_size <= iterations * batch_size) by (nonlinear_arith)
        requires
            completed <= iterations,
    ;
    let planned = iterations * batch_size;
    let sent = completed * batch_size;
    Measurement::new(info, sent, thresholds_for_transaction_counter(planned))
}

/// The outcome of a scenario run: whether it passed, and every measurement
/// taken during it, in order.
pub struct ScenarioResult {
    pub passed: bool,
    pub measurements: Vec<Measurement<Duration>>,
}

impl ScenarioResult {
    /// A passed run with the given measurements.
    pub fn passed_with_measurements(measurements: Vec<Measurement<Duration>>) -> (r: Self)
        ensures
            r.passed,
            r.measurements@ == measurements@,
    {
        ScenarioResult { passed: true, measurements }
    }

    /// A failed run with the measurements taken before it failed.
    pub fn failed_with_measurements(measurements: Vec<Measurement<Duration>>) -> (r: Self)
        ensures
            !r.passed,
            r.measurements@ == measurements@,
    {
        ScenarioResult { passed: false, measurements }
    }
}

} // verus!
