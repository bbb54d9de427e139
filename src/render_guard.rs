use vstd::prelude::*;

verus! {

/// The single-flight guard of rendering: at most one render job runs, and a
/// frame that arrives meanwhile is dropped rather than queued.
pub struct RenderGuard {
    busy: bool,
    accepted: Ghost<nat>,
    released: Ghost<nat>,
}

impl RenderGuard {
    /// Whether a render job holds the guard.
    pub closed spec fn spec_busy(&self) -> bool {
        self.busy
    }

    /// Jobs accepted so far.
    pub closed spec fn spec_accepted(&self) -> nat {
        self.accepted@
    }

    /// Times the flag went back to false so far.
    pub closed spec fn spec_released(&self) -> nat {
        self.released@
    }

    /// Every accepted job released the flag once, but the one running.
    #[verifier::type_invariant]
    spec fn balanced(&self) -> bool {
        self.accepted@ == self.released@ + if self.busy {
            1nat
        } else {
            0nat
        }
    }

    pub fn new() -> (g: Self)
        ensures
            !g.spec_busy(),
            g.spec_accepted() == 0,
            g.spec_released() == 0,
    {
        RenderGuard { busy: false, accepted: Ghost(0), released: Ghost(0) }
    }

    /// Whether a job runs. The flag went back to false once for every
    /// accepted job but the one still running, if any.
    pub fn is_busy(&self) -> (r: bool)
        ensures
            r == self.spec_busy(),
            self.spec_accepted() == self.spec_released() + if r {
                1nat
            } else {
                0nat
            },
    {
        proof {
            use_type_invariant(self);
        }
        self.busy
    }

    /// Claims the guard for a new render job. Returns whether the job was
    /// accepted: only when no other job held the guard.
    pub fn try_begin(&mut self) -> (accepted: bool)
        ensures
            accepted == !old(self).spec_busy(),
            final(self).spec_busy(),
            final(self).spec_accepted() == old(self).spec_accepted() + if accepted {
                1nat
            } else {
                0nat
            },
            final(self).spec_released() == old(self).spec_released(),
    {
        proof {
            use_type_invariant(&*self);
        }
        if self.busy {
            false
        } else {
            *self = RenderGuard { busy: true, accepted: Ghost(self.accepted@ + 1), released: self.released };
            true
        }
    }

    /// Releases the guard when the running job ends, whether it succeeded,
    /// failed or panicked. Without a running job it changes nothing.
    pub fn finish(&mut self)
        ensures
            !final(self).spec_busy(),
            final(self).spec_accepted() == old(self).spec_accepted(),
            final(self).spec_released() == old(self).spec_released() + if old(self).spec_busy() {
                1nat
            } else {
                0nat
            },
    {
        proof {
            use_type_invariant(&*self);
        }
        if self.busy {
            *self = RenderGuard { busy: false, accepted: self.accepted, released: Ghost(self.released@ + 1) };
        }
    }
}

/// What reaches the guard, in the order it happens.
#[derive(Clone, Copy, Debug, PartialEq, Eq, Structural)]
pub enum GuardEvent {
    /// A prepare message was handled; it does not touch the guard.
    Prepare,
    /// A render message asks for a job (`try_begin`).
    Render,
    /// The running job's worker ended (`finish`).
    WorkerDone,
}

/// The guard and its counts after a sequence of events.
pub struct GuardTally {
    pub busy: bool,
    /// Render messages seen.
    pub renders: nat,
    /// Render jobs the guard accepted.
    pub accepted: nat,
    /// Times a job's end set the flag back to false.
    pub released: nat,
}

/// Replays `events` against a guard that starts free. A worker ends only
/// where one runs: `WorkerDone` with no job running is no event.
pub open spec fn guard_run(events: Seq<GuardEvent>) -> GuardTally
    decreases events.len(),
{
    if events.len() == 0 {
        GuardTally { busy: false, renders: 0, accepted: 0, released: 0 }
    } else {
        let t = guard_run(events.drop_last());
        match events.last() {
            GuardEvent::Prepare => t,
            GuardEvent::Render => if t.busy {
                GuardTally { renders: t.renders + 1, ..t }
            } else {
                GuardTally { busy: true, renders: t.renders + 1, accepted: t.accepted + 1, ..t }
            },
            GuardEvent::WorkerDone => if t.busy {
                GuardTally { busy: false, released: t.released + 1, ..t }
            } else {
                t
            },
        }
    }
}

/// The number of render messages among `events`.
pub open spec fn render_count(events: Seq<GuardEvent>) -> nat
    decreases events.len(),
{
    if events.len() == 0 {
        0
    } else {
        render_count(events.drop_last()) + if events.last() == GuardEvent::Render {
            1nat
        } else {
            0nat
        }
    }
}

/// For any interleaving of prepare and render messages and worker ends, the
/// guard accepts at most as many jobs as there were render messages, and the
/// flag goes back to false exactly once per accepted job: once per finished
/// job, plus the one still running, if any.
pub proof fn lemma_guard_releases_once_per_job(events: Seq<GuardEvent>)
    ensures
        guard_run(events).renders == render_count(events),
        guard_run(events).accepted <= render_count(events),
        guard_run(events).accepted == guard_run(events).released + if guard_run(events).busy {
            1nat
        } else {
            0nat
        },
    decreases events.len(),
{
    if events.len() > 0 {
        lemma_guard_releases_once_per_job(events.drop_last());
    }
}

} // verus!
