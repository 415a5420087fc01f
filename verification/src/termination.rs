use crate::clock::{as_nanoseconds, elapsed_since, nanoseconds};
use crate::solution::Solution;
use crate::state::AlgorithmState;
use std::time::Duration;
use vstd::prelude::*;

verus! {

/// A stopping rule. The solver driver asks it before every generation; there
/// is no way to stop in the middle of one.
pub trait TerminationCriteria<S: Solution> {
    /// The rule looks at nothing but the state. A rule that also looks at
    /// something outside it, such as a clock, does not.
    open spec fn reads_state_only(&self) -> bool {
        false
    }

    /// The answer of a rule that looks at nothing but the state.
    open spec fn stops(&self, state: AlgorithmState<S>) -> bool {
        arbitrary()
    }

    /// Tells whether the run that `state` records is over.
    fn should_terminate(&self, state: &AlgorithmState<S>) -> (over: bool)
        ensures
            self.reads_state_only() ==> over == self.stops(*state),
    ;
}

/// Stops a run once a span of wall-clock time has passed since it began.
pub struct ByDuration {
    /// The time the run may take.
    pub time_limit: Duration,
}

impl ByDuration {
    /// A run that has taken `elapsed` has used up its time: `elapsed` is at
    /// least the limit.
    pub open spec fn spent_after(&self, elapsed: Duration) -> bool {
        nanoseconds(elapsed) >= nanoseconds(self.time_limit)
    }

    /// Tells whether a run that has taken `elapsed` has used up its time: it
    /// has when `elapsed` is at least the limit.
    pub fn is_spent(&self, elapsed: &Duration) -> (spent: bool)
        ensures
            spent == self.spent_after(*elapsed),
    {
        as_nanoseconds(elapsed) >= as_nanoseconds(&self.time_limit)
    }
}

impl<S: Solution> TerminationCriteria<S> for ByDuration {
    /// Reads the clock: the run is over when the time since `start_time` is at
    /// least the limit. Which time the clock gives depends on the moment of
    /// the call, so the answer is that of `is_spent` for some elapsed time; a
    /// limit of no time at all is used up whatever the clock gives.
    fn should_terminate(&self, state: &AlgorithmState<S>) -> (over: bool)
        ensures
            exists|elapsed: Duration| over == #[trigger] self.spent_after(elapsed),
            nanoseconds(self.time_limit) == 0 ==> over,
    {
        let elapsed = elapsed_since(&state.start_time);
        self.is_spent(&elapsed)
    }
}

/// Stops a run once a number of generations has been completed.
pub struct ByIterations {
    /// The number of generations the run may take.
    pub max_iterations: usize,
}

impl<S: Solution> TerminationCriteria<S> for ByIterations {
    open spec fn reads_state_only(&self) -> bool {
        true
    }

    /// The run is over when `iteration_count` has reached the maximum.
    open spec fn stops(&self, state: AlgorithmState<S>) -> bool {
        state.iteration_count >= self.max_iterations
    }

    fn should_terminate(&self, state: &AlgorithmState<S>) -> (over: bool) {
        state.iteration_count >= self.max_iterations
    }
}

} // verus!
