//! Views of the targets that LLVM can generate code for.

use vstd::prelude::*;

verus! {

/// A target. LLVM keeps its targets for the life of the process, so a view
/// of one never goes stale.
#[derive(Debug, PartialEq, Eq, Copy, Clone, Structural)]
pub struct Target {
    pub target: usize,
}

impl Target {
    /// The view of the target at `target`, if there is one.
    pub open spec fn spec_new(target: usize) -> Option<Target> {
        if target == 0 {
            None
        } else {
            Some(Target { target })
        }
    }

    /// Wraps the handle `target`; null is no target.
    #[verifier::when_used_as_spec(spec_new)]
    pub fn new(target: usize) -> (found: Option<Target>)
        ensures
            found == Self::spec_new(target),
    {
        if target == 0 {
            None
        } else {
            Some(Target { target })
        }
    }

    /// The handle.
    pub fn as_target_ref(&self) -> (target: usize)
        ensures
            target == self.target,
    {
        self.target
    }
}

} // verus!
