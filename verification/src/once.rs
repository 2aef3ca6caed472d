//! Work that a scan does on its first pull only.

use vstd::prelude::*;

verus! {

/// What a claim answers and what is remembered after it, where `done` is what was remembered
/// before it.
pub open spec fn claimed(done: bool) -> (bool, bool) {
    (!done, true)
}

/// Remembers whether the work of a scan has been started. DuckDB pulls a table function until
/// it emits a chunk without rows, so a function that does all its work on the first pull must
/// not do it again on the second.
pub struct RunOnce {
    done: bool,
}

impl RunOnce {
    pub closed spec fn done(&self) -> bool {
        self.done
    }

    pub fn new() -> (once: RunOnce)
        ensures
            !once.done(),
    {
        RunOnce { done: false }
    }

    /// Claims the work: `true` for the first caller and for nobody after it.
    pub fn claim(&mut self) -> (first: bool)
        ensures
            (first, final(self).done()) == claimed(old(self).done()),
    {
        let first = !self.done;
        self.done = true;
        first
    }
}

/// How many of `pulls` pulls in a row claim the work, where `done` says whether it has been
/// claimed before.
pub open spec fn starts(done: bool, pulls: nat) -> nat
    decreases pulls,
{
    if pulls == 0 {
        0
    } else {
        let (first, after) = claimed(done);
        (if first {
            1nat
        } else {
            0nat
        }) + starts(after, (pulls - 1) as nat)
    }
}

/// However often a scan is pulled, its work is started exactly once, by the first pull; whether it
/// succeeds or fails, no later pull starts it again.
pub proof fn started_exactly_once(pulls: nat)
    ensures
        starts(true, pulls) == 0,
        starts(false, pulls) == if pulls == 0 {
            0nat
        } else {
            1nat
        },
    decreases pulls,
{
    if pulls > 0 {
        started_exactly_once((pulls - 1) as nat);
    }
}

} // verus!
