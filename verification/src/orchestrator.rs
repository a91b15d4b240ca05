//! The run as a whole: how many workers it has, in what order they are
//! started and awaited, and when the averages may be reduced.

use vstd::prelude::*;
use crate::deadline::Deadline;

verus! {

/// The number of workers of a run where no other number is asked for.
pub const DEFAULT_WORKER_COUNT: usize = 5;

/// What a run is started with. It does not change during the run.
#[derive(Clone, Copy, PartialEq, Eq, Structural, Debug)]
pub struct RunConfig {
    worker_count: usize,
    duration_seconds: u64,
}

impl RunConfig {
    /// The number of workers: at least one.
    pub closed spec fn workers(&self) -> usize {
        self.worker_count
    }

    /// The length of the sampling window, in seconds.
    pub closed spec fn window(&self) -> u64 {
        self.duration_seconds
    }

    #[verifier::type_invariant]
    spec fn has_a_worker(&self) -> bool {
        self.worker_count >= 1
    }

    /// A run of the default number of workers over `duration_seconds`.
    pub fn new(duration_seconds: u64) -> (config: Self)
        ensures
            config.workers() == DEFAULT_WORKER_COUNT,
            config.window() == duration_seconds,
    {
        RunConfig { worker_count: DEFAULT_WORKER_COUNT, duration_seconds }
    }

    /// A run of `worker_count` workers over `duration_seconds`, or nothing
    /// where no worker is asked for.
    pub fn with_workers(worker_count: usize, duration_seconds: u64) -> (config: Option<Self>)
        ensures
            worker_count == 0 <==> config is None,
            config matches Some(made) ==> made.workers() == worker_count && made.window()
                == duration_seconds,
    {
        if worker_count == 0 {
            None
        } else {
            Some(RunConfig { worker_count, duration_seconds })
        }
    }

    /// The number of workers: at least one.
    pub fn worker_count(&self) -> (count: usize)
        ensures
            count == self.workers(),
            count >= 1,
    {
        proof {
            use_type_invariant(self);
        }
        self.worker_count
    }

    /// The length of the sampling window, in seconds.
    pub fn duration_seconds(&self) -> (seconds: u64)
        ensures
            seconds == self.window(),
    {
        self.duration_seconds
    }
}

/// What the driver of a run is to do next.
#[derive(Clone, Copy, PartialEq, Eq, Structural, Debug)]
pub enum RunAction {
    /// Start the worker of this identity on the shared deadline and aggregator.
    Spawn(usize),
    /// Wait until the worker of this identity has ended.
    Join(usize),
    /// Reduce the aggregator and persist the final aggregate.
    Reduce,
    /// The run has ended well.
    Finish,
    /// The run has failed and is given up.
    Abort,
}

/// What the driver reports back to the run.
#[derive(Clone, Copy, PartialEq, Eq, Structural, Debug)]
pub enum RunEvent {
    /// The worker is started.
    Spawned,
    /// The awaited worker has ended in its final state.
    Joined,
    /// The awaited worker has broken off before its final state.
    JoinFailed,
    /// The final aggregate is persisted.
    Persisted,
    /// The final aggregate could not be persisted.
    PersistFailed,
}

/// The state of a run as contracts see it.
pub ghost struct RunView {
    pub worker_count: usize,
    pub duration_seconds: u64,
    pub spawned: usize,
    pub joined: usize,
    pub pending: RunAction,
}

impl RunView {
    /// What holds of every run: workers are started one by one, from
    /// identity 1 up; none is awaited before all are started; and the
    /// reduction waits until all have been awaited.
    pub open spec fn well_formed(self) -> bool {
        &&& self.worker_count >= 1
        &&& match self.pending {
            RunAction::Spawn(id) => id == self.spawned + 1 && self.spawned < self.worker_count
                && self.joined == 0,
            RunAction::Join(id) => self.spawned == self.worker_count && id == self.joined + 1
                && self.joined < self.worker_count,
            RunAction::Reduce | RunAction::Finish => self.spawned == self.worker_count
                && self.joined == self.worker_count,
            RunAction::Abort => self.spawned == self.worker_count && self.joined
                <= self.worker_count,
        }
    }

    /// The state that follows when `event` is reported. A report that does
    /// not answer the pending action changes nothing.
    pub open spec fn after(self, event: RunEvent) -> RunView {
        match (self.pending, event) {
            (RunAction::Spawn(id), RunEvent::Spawned) => RunView {
                spawned: id,
                pending: if id < self.worker_count {
                    RunAction::Spawn((id + 1) as usize)
                } else {
                    RunAction::Join(1)
                },
                ..self
            },
            (RunAction::Join(id), RunEvent::Joined) => RunView {
                joined: id,
                pending: if id < self.worker_count {
                    RunAction::Join((id + 1) as usize)
                } else {
                    RunAction::Reduce
                },
                ..self
            },
            (RunAction::Join(_), RunEvent::JoinFailed) => RunView {
                pending: RunAction::Abort,
                ..self
            },
            (RunAction::Reduce, RunEvent::Persisted) => RunView {
                pending: RunAction::Finish,
                ..self
            },
            (RunAction::Reduce, RunEvent::PersistFailed) => RunView {
                pending: RunAction::Abort,
                ..self
            },
            _ => self,
        }
    }
}

impl RunView {
    /// Whether `event` is a report of what the pending action asked for.
    pub open spec fn answered_by(self, event: RunEvent) -> bool {
        match (self.pending, event) {
            (RunAction::Spawn(_), RunEvent::Spawned) => true,
            (RunAction::Join(_), RunEvent::Joined) => true,
            (RunAction::Join(_), RunEvent::JoinFailed) => true,
            (RunAction::Reduce, RunEvent::Persisted) => true,
            (RunAction::Reduce, RunEvent::PersistFailed) => true,
            _ => false,
        }
    }

    /// How many reports a run takes at most before it has ended: one for
    /// each worker still to be started, one for each still to be awaited,
    /// and one for the reduction.
    pub open spec fn reports_left(self) -> nat {
        match self.pending {
            RunAction::Finish | RunAction::Abort => 0,
            _ => ((self.worker_count - self.spawned) + (self.worker_count - self.joined)
                + 1) as nat,
        }
    }
}

/// A run comes to its end: it stays in order with every report, a report
/// that answers the pending action brings it nearer to the end, any other
/// leaves it as it is, and at the end nothing is left to report. A run of
/// N workers that has just started has 2N + 1 reports before it.
pub proof fn lemma_run_comes_to_an_end(run: RunView, event: RunEvent)
    requires
        run.well_formed(),
    ensures
        run.after(event).well_formed(),
        run.answered_by(event) ==> run.after(event).reports_left() < run.reports_left(),
        !run.answered_by(event) ==> run.after(event) == run,
        run.reports_left() == 0 <==> run.pending == RunAction::Finish || run.pending
            == RunAction::Abort,
        run.spawned == 0 && run.joined == 0 && run.pending == RunAction::Spawn(1)
            ==> run.reports_left() == 2 * run.worker_count + 1,
{
}

/// A run in progress.
pub struct Orchestrator {
    config: RunConfig,
    deadline: Deadline,
    spawned: usize,
    joined: usize,
    pending: RunAction,
}

impl View for Orchestrator {
    type V = RunView;

    closed spec fn view(&self) -> RunView {
        RunView {
            worker_count: self.config.workers(),
            duration_seconds: self.config.window(),
            spawned: self.spawned,
            joined: self.joined,
            pending: self.pending,
        }
    }
}

impl Orchestrator {
    #[verifier::type_invariant]
    spec fn in_order(&self) -> bool {
        self@.well_formed() && self.deadline.window() == self.config.window()
    }

    /// The deadline that all workers of the run share.
    pub closed spec fn shared_deadline(&self) -> Deadline {
        self.deadline
    }

    /// Starts a run: the window of the shared deadline opens at this moment,
    /// and the first worker is to be started.
    pub fn start(config: RunConfig) -> (run: Self)
        ensures
            run@ == (RunView {
                worker_count: config.workers(),
                duration_seconds: config.window(),
                spawned: 0,
                joined: 0,
                pending: RunAction::Spawn(1),
            }),
            run@.well_formed(),
            run.shared_deadline().window() == config.window(),
    {
        let _ = config.worker_count();
        Orchestrator {
            config,
            deadline: Deadline::starting_now(config.duration_seconds()),
            spawned: 0,
            joined: 0,
            pending: RunAction::Spawn(1),
        }
    }

    /// The deadline that all workers of the run share.
    pub fn deadline(&self) -> (deadline: Deadline)
        ensures
            deadline == self.shared_deadline(),
            deadline.window() == self@.duration_seconds,
    {
        proof {
            use_type_invariant(self);
        }
        self.deadline
    }

    /// What the run waits for: the action that its driver is to perform.
    pub fn pending(&self) -> (action: RunAction)
        ensures
            action == self@.pending,
            self@.well_formed(),
    {
        proof {
            use_type_invariant(self);
        }
        self.pending
    }

    /// Takes the report of what the driver did and says what to do next.
    ///
    /// Workers are started with the identities 1 to the worker count, then
    /// awaited in the same order. One that broke off gives the run up. Once
    /// all have ended the averages are reduced and the result persisted.
    pub fn step(&mut self, event: RunEvent) -> (action: RunAction)
        ensures
            old(self)@.well_formed(),
            final(self)@ == old(self)@.after(event),
            final(self)@.well_formed(),
            final(self).shared_deadline() == old(self).shared_deadline(),
            action == final(self)@.pending,
    {
        proof {
            use_type_invariant(&*self);
        }
        let worker_count = self.config.worker_count();
        let (spawned, joined, pending) = match (self.pending, event) {
            (RunAction::Spawn(id), RunEvent::Spawned) => if id < worker_count {
                (id, self.joined, RunAction::Spawn(id + 1))
            } else {
                (id, self.joined, RunAction::Join(1))
            },
            (RunAction::Join(id), RunEvent::Joined) => if id < worker_count {
                (self.spawned, id, RunAction::Join(id + 1))
            } else {
                (self.spawned, id, RunAction::Reduce)
            },
            (RunAction::Join(_), RunEvent::JoinFailed) => (
                self.spawned,
                self.joined,
                RunAction::Abort,
            ),
            (RunAction::Reduce, RunEvent::Persisted) => (
                self.spawned,
                self.joined,
                RunAction::Finish,
            ),
            (RunAction::Reduce, RunEvent::PersistFailed) => (
                self.spawned,
                self.joined,
                RunAction::Abort,
            ),
            _ => (self.spawned, self.joined, self.pending),
        };
        *self = Orchestrator {
            config: self.config,
            deadline: self.deadline,
            spawned,
            joined,
            pending,
        };
        pending
    }
}

} // verus!
