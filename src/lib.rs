pub mod duration;
pub mod liveness;
pub mod measurement;
pub mod status;
pub mod sync;
pub mod text;
pub mod thresholds;

pub use duration::Duration;
pub use liveness::{check_progress, NodeObservation, NodeStuckError};
pub use measurement::Measurement;
pub use status::Status;
pub use sync::{
    after_batch, poll_round, sent_units_measurement, sync_measurement, tips_converged,
    BatchOutcome, ScenarioResult, SyncDecision,
};
pub use thresholds::{
    thresholds_for_transaction_counter, thresholds_for_transaction_send_by_duration, Direction,
    Scalar, Thresholds,
};
