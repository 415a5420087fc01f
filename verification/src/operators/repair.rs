use crate::solution::Solution;
use vstd::prelude::*;

verus! {

/// A repair: the correction of an individual that breaks a constraint of the
/// problem, applied after mutation.
pub trait RepairOperator<S> where S: Solution {
    /// How an individual after `repair`, and the flag that `repair` returns,
    /// relate to the same individual before it. An operator that promises
    /// nothing relates all of them.
    open spec fn repairs(&self, before: S, after: S, changed: bool) -> bool {
        true
    }

    /// Corrects `solution` in place and tells whether it was altered.
    fn repair(&self, solution: &mut S) -> (changed: bool)
        ensures
            self.repairs(*old(solution), *final(solution), changed),
    ;
}

/// The repair that does nothing, for problems in which no individual can be
/// invalid.
#[derive(Default, Clone, Copy)]
pub struct NoOpRepair;

impl<S> RepairOperator<S> for NoOpRepair where S: Solution {
    /// The individual stays as it was and the flag is false.
    open spec fn repairs(&self, before: S, after: S, changed: bool) -> bool {
        after == before && !changed
    }

    fn repair(&self, _solution: &mut S) -> (changed: bool) {
        false
    }
}

} // verus!
