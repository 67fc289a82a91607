use vstd::prelude::*;

verus! {

/// What one node shows of its progress at one moment.
pub struct NodeObservation {
    /// The hash of the tip of the chain the node recognizes.
    pub tip_hash: String,
    /// How many blocks the node has produced itself.
    pub block_counter: u64,
    /// Recent text of the node's log, for diagnosis.
    pub log_tail: String,
}

impl NodeObservation {
    /// An observation of a tip, a block counter and a log tail.
    pub fn new(tip_hash: String, block_counter: u64, log_tail: String) -> (r: Self)
        ensures
            r.tip_hash@ == tip_hash@,
            r.block_counter == block_counter,
            r.log_tail@ == log_tail@,
    {
        NodeObservation { tip_hash, block_counter, log_tail }
    }
}

/// A node made no progress over a unit of work.
#[derive(Debug)]
pub enum NodeStuckError {
    /// The tip did not move; `tip_hash` is where it stands.
    TipIsNotMoving { tip_hash: String, logs: String },
    /// The tip moved but the node produced no block; `block_counter` is its count.
    BlockCounterIsNoIncreased { block_counter: u64, logs: String },
}

/// Whether an observation pair shows progress: both the tip and the block
/// counter changed.
pub open spec fn made_progress(before: NodeObservation, after: NodeObservation) -> bool {
    before.tip_hash@ != after.tip_hash@ && before.block_counter != after.block_counter
}

/// Checks that a node made progress between `before` and `after` a unit of
/// work. The tip is checked first: an unmoved tip is reported as such,
/// whatever the counter did. A moved tip with an unchanged counter means the
/// node received blocks but produced none. Both errors carry the later log tail.
pub fn check_progress(before: &NodeObservation, after: &NodeObservation) -> (r: Result<(), NodeStuckError>)
    ensures
        r is Ok <==> made_progress(*before, *after),
        (r matches Err(NodeStuckError::TipIsNotMoving { .. })) <==> before.tip_hash@ == after.tip_hash@,
        (r matches Err(NodeStuckError::BlockCounterIsNoIncreased { .. })) <==> (before.tip_hash@
            != after.tip_hash@ && before.block_counter == after.block_counter),
        r matches Err(NodeStuckError::TipIsNotMoving { tip_hash, logs }) ==> tip_hash@
            == after.tip_hash@ && logs@ == after.log_tail@,
        r matches Err(NodeStuckError::BlockCounterIsNoIncreased { block_counter, logs })
            ==> block_counter == before.block_counter && logs@ == after.log_tail@,
{
    if before.tip_hash == after.tip_hash {
        return Err(
            NodeStuckError::TipIsNotMoving {
                tip_hash: after.tip_hash.clone(),
                logs: after.log_tail.clone(),
            },
        );
    }
    if before.block_counter == after.block_counter {
        return Err(
            NodeStuckError::BlockCounterIsNoIncreased {
                block_counter: before.block_counter,
                logs: after.log_tail.clone(),
            },
        );
    }
    Ok(())
}

} // verus!
