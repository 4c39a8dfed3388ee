use vstd::prelude::*;
use crate::plan::{ConfigPlan, PlanV};

verus! {

/// What one initialization request does to the single initialization slot:
/// the first request fills it, every later one leaves it as it is.
pub open spec fn init_step(state: Option<PlanV>, plan: PlanV) -> Option<PlanV> {
    if state is Some {
        state
    } else {
        Some(plan)
    }
}

/// The single initialization slot of the process: empty until the first
/// initializer wins it, then fixed for the process lifetime. The normal and
/// the silent initializer compete for the same slot, so only one of the two
/// can win it.
pub struct InitLatch {
    pub installed: Option<ConfigPlan>,
}

impl View for InitLatch {
    type V = Option<PlanV>;

    open spec fn view(&self) -> Option<PlanV> {
        match self.installed {
            Some(p) => Some(p@),
            None => None,
        }
    }
}

impl InitLatch {
    /// A fresh slot, as the process starts: nothing installed.
    pub fn new() -> (r: InitLatch)
        ensures
            r@ is None,
    {
        InitLatch { installed: None }
    }

    /// Request initialization with `plan`. Performs it only when no earlier
    /// request did; every later request is a no-op.
    pub fn initialize(&mut self, plan: ConfigPlan) -> (performed: bool)
        ensures
            final(self)@ == init_step(old(self)@, plan@),
            performed == (old(self)@ is None),
            old(self)@ is Some ==> final(self)@ == old(self)@,
            old(self)@ is None ==> final(self)@ == Some(plan@),
    {
        if self.installed.is_some() {
            false
        } else {
            self.installed = Some(plan);
            true
        }
    }
}

/// Idempotence of one-shot initialization: once any request has filled the
/// slot, a second request, with whatever plan, changes nothing, so exactly
/// one configuration is ever built per process.
pub proof fn lemma_init_idempotent(state: Option<PlanV>, p1: PlanV, p2: PlanV)
    ensures
        init_step(init_step(state, p1), p2) == init_step(state, p1),
{
}

} // verus!
