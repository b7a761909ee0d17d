//! The event type flowing through the dashboard's single channel.
//!
//! Both background producers — the input listener and the sampler — emit
//! values of this tagged union into one multi-producer single-consumer
//! stream; the driver consumes them one at a time.

use vstd::prelude::*;
use crate::input::InputSignal;

verus! {

/// One event of the dashboard: a key event from the terminal, or a fresh
/// smoothed metric snapshot from the sampler. A `Progress` payload holds
/// one utilization percentage per core, each in `[0, 100]`.
#[derive(Debug)]
pub enum Event {
    Input(InputSignal),
    Progress(Vec<u64>),
}

/// Whether every entry of a metric snapshot is a valid percentage.
pub open spec fn wf_metrics(s: Seq<u64>) -> bool {
    forall|i: int| 0 <= i < s.len() ==> s[i] <= 100
}

} // verus!
