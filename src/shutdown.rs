use vstd::prelude::*;

use crate::client::StoreError;

verus! {

/// How long a closing store waits between two looks at its workers.
pub const POLL_INTERVAL_MILLIS: u64 = 200;

/// Where a store stands in its shutdown.
#[derive(Clone, Copy, Debug, PartialEq, Eq, Structural)]
pub enum Phase {
    /// Actions are accepted.
    Running,
    /// The workers were told to stop; no action is accepted.
    Draining,
    /// Every worker has stopped and the dispatch queue is closed.
    Closed,
}

/// What a closing store does after a look at its workers.
#[derive(Clone, Copy, Debug, PartialEq, Eq, Structural)]
pub enum CloseStep {
    /// Some worker still runs: wait this long and look again.
    Wait { millis: u64 },
    /// Every worker has stopped: close the dispatch queue.
    CloseReceiver,
}

/// Whether every worker reported that it has stopped.
pub open spec fn all_finished(finished: Seq<bool>) -> bool {
    forall|i: int| 0 <= i < finished.len() ==> #[trigger] finished[i]
}

/// Whether a store in phase `p` takes new actions.
pub open spec fn accepts(p: Phase) -> bool {
    p == Phase::Running
}

/// What one look at the workers, `finished[i]` telling whether worker `i` has
/// stopped, leads a draining store to: the step it takes and its next phase.
pub open spec fn poll_step(finished: Seq<bool>) -> (CloseStep, Phase) {
    if all_finished(finished) {
        (CloseStep::CloseReceiver, Phase::Closed)
    } else {
        (CloseStep::Wait { millis: POLL_INTERVAL_MILLIS }, Phase::Draining)
    }
}

/// Graceful close: the dispatch queue is closed only after a look at the
/// workers found every one of them stopped, and from then on no action is
/// taken, so every further call fails as undeliverable instead of waiting.
pub proof fn lemma_graceful_close(finished: Seq<bool>)
    ensures
        poll_step(finished).0 == CloseStep::CloseReceiver ==> {
            &&& all_finished(finished)
            &&& poll_step(finished).1 == Phase::Closed
            &&& !accepts(poll_step(finished).1)
        },
        poll_step(finished).0 != CloseStep::CloseReceiver ==> poll_step(finished).1
            == Phase::Draining,
{
}

/// The shutdown of a store served by a fixed number of workers: the workers
/// are told to stop, then looked at until every one has stopped, and only then
/// is the dispatch queue closed. No action is accepted once it began.
pub struct Shutdown {
    phase: Phase,
    workers: usize,
}

impl Shutdown {
    /// Where the shutdown stands.
    pub closed spec fn phase(&self) -> Phase {
        self.phase
    }

    /// The number of workers that must stop.
    pub closed spec fn workers(&self) -> nat {
        self.workers as nat
    }

    /// A running store served by `workers` workers.
    pub fn new(workers: usize) -> (s: Shutdown)
        ensures
            s.phase() == Phase::Running,
            s.workers() == workers,
    {
        Shutdown { phase: Phase::Running, workers }
    }

    /// Where the shutdown stands.
    pub fn current_phase(&self) -> (r: Phase)
        ensures
            r == self.phase(),
    {
        self.phase
    }

    /// The number of workers that must stop.
    pub fn num_of_workers(&self) -> (r: usize)
        ensures
            r == self.workers(),
    {
        self.workers
    }

    /// Starts the shutdown. Returns whether it started now, in which case
    /// every worker is to be told to stop; a later call changes nothing.
    pub fn begin(&mut self) -> (started: bool)
        ensures
            started == (old(self).phase() == Phase::Running),
            final(self).phase() == if started {
                Phase::Draining
            } else {
                old(self).phase()
            },
            final(self).workers() == old(self).workers(),
    {
        if self.phase == Phase::Running {
            self.phase = Phase::Draining;
            true
        } else {
            false
        }
    }

    /// Takes one look at the workers, `finished[i]` telling whether worker `i`
    /// has stopped. The dispatch queue is closed only once every worker has
    /// stopped; until then the store waits and looks again.
    pub fn poll(&mut self, finished: &Vec<bool>) -> (r: CloseStep)
        requires
            old(self).phase() == Phase::Draining,
            finished@.len() == old(self).workers(),
        ensures
            r == poll_step(finished@).0,
            final(self).phase() == poll_step(finished@).1,
            final(self).workers() == old(self).workers(),
    {
        let mut i: usize = 0;
        while i < finished.len()
            invariant
                0 <= i <= finished@.len(),
                self.phase == Phase::Draining,
                self.workers == old(self).workers,
                forall|j: int| 0 <= j < i ==> #[trigger] finished@[j],
            decreases finished@.len() - i,
        {
            if !finished[i] {
                return CloseStep::Wait { millis: POLL_INTERVAL_MILLIS };
            }
            i = i + 1;
        }
        self.phase = Phase::Closed;
        CloseStep::CloseReceiver
    }

    /// Whether a new action may be sent: only while the store runs. Once the
    /// shutdown began, every action is refused as undeliverable.
    pub fn accept(&self) -> (r: Result<(), StoreError>)
        ensures
            r == (if accepts(self.phase()) {
                Ok(())
            } else {
                Err(StoreError::Dispatch)
            }),
    {
        match self.phase {
            Phase::Running => Ok(()),
            _ => Err(StoreError::Dispatch),
        }
    }
}

} // verus!
