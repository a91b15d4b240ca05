//! A run seen as a whole: the orchestrator, the workers it has started and
//! the averages in the shared aggregator. The workers run side by side, so
//! the whole moves by one step of one part at a time, in any order. This
//! module states what holds of the whole at every moment, and proves it.

use vstd::prelude::*;
use crate::orchestrator::{RunAction, RunEvent, RunView};
use crate::worker::{contributes_to, steps_to, WorkerAction, WorkerEvent, WorkerResult, WorkerView};

verus! {

/// The parts of a run at one moment.
pub ghost struct Ensemble<T> {
    /// The orchestrator.
    pub run: RunView,
    /// The workers started so far, in the order of their start.
    pub workers: Seq<WorkerView<T>>,
    /// The averages in the shared aggregator.
    pub averages: Seq<T>,
}

/// How many of `workers` are done.
pub open spec fn finished<T>(workers: Seq<WorkerView<T>>) -> nat
    decreases workers.len(),
{
    if workers.len() == 0 {
        0
    } else {
        finished(workers.drop_last()) + if workers.last().pending == WorkerAction::Stop {
            1nat
        } else {
            0nat
        }
    }
}

/// The state of a worker that has just been started.
pub open spec fn fresh_worker<T>(id: usize, duration_seconds: u64, zero: T) -> WorkerView<T> {
    WorkerView { id, duration_seconds, sum: zero, count: 0, pending: WorkerAction::ReadClock }
}

impl<T> Ensemble<T> {
    /// A run at its start: no worker is started and no average is held.
    pub open spec fn at_start(self) -> bool {
        &&& self.run.worker_count >= 1
        &&& self.run.spawned == 0
        &&& self.run.joined == 0
        &&& self.run.pending == RunAction::Spawn(1)
        &&& self.workers.len() == 0
        &&& self.averages.len() == 0
    }

    /// The orchestrator starts the next worker.
    pub open spec fn spawns(self, next: Ensemble<T>, zero: T) -> bool {
        &&& self.run.pending matches RunAction::Spawn(id)
        &&& next.run == self.run.after(RunEvent::Spawned)
        &&& next.workers == self.workers.push(fresh_worker(id, self.run.duration_seconds, zero))
        &&& next.averages == self.averages
    }

    /// The worker at `index` takes the report of `event`.
    pub open spec fn worker_steps<P: Fn(T, T) -> T>(
        self,
        next: Ensemble<T>,
        index: int,
        event: WorkerEvent<T>,
        plus: P,
    ) -> bool {
        &&& 0 <= index < self.workers.len()
        &&& next.run == self.run
        &&& next.workers.len() == self.workers.len()
        &&& steps_to(self.workers[index], event, plus, next.workers[index])
        &&& forall|other: int|
            0 <= other < self.workers.len() && other != index ==> next.workers[other]
                == self.workers[other]
        &&& next.averages == self.averages
    }

    /// The worker at `index` is handed the shared aggregator to contribute.
    pub open spec fn worker_contributes<Q: Fn(T, usize) -> T>(
        self,
        next: Ensemble<T>,
        index: int,
        over: Q,
        result: Option<WorkerResult<T>>,
    ) -> bool {
        &&& 0 <= index < self.workers.len()
        &&& next.run == self.run
        &&& next.workers.len() == self.workers.len()
        &&& contributes_to(
            self.workers[index],
            self.averages,
            over,
            next.workers[index],
            next.averages,
            result,
        )
        &&& forall|other: int|
            0 <= other < self.workers.len() && other != index ==> next.workers[other]
                == self.workers[other]
    }

    /// The orchestrator learns that the worker it waits for has ended in
    /// its final state.
    pub open spec fn joins(self, next: Ensemble<T>) -> bool {
        &&& self.run.pending matches RunAction::Join(id)
        &&& 1 <= id <= self.workers.len()
        &&& self.workers[id - 1].pending == WorkerAction::Stop
        &&& next.run == self.run.after(RunEvent::Joined)
        &&& next.workers == self.workers
        &&& next.averages == self.averages
    }

    /// The orchestrator takes a report that touches no worker: a failed
    /// join, or the outcome of persisting.
    pub open spec fn concludes(self, next: Ensemble<T>, event: RunEvent) -> bool {
        &&& event != RunEvent::Spawned
        &&& event != RunEvent::Joined
        &&& next.run == self.run.after(event)
        &&& next.workers == self.workers
        &&& next.averages == self.averages
    }

    /// One move of the whole: one step of one of its parts.
    pub open spec fn moves_to<P: Fn(T, T) -> T, Q: Fn(T, usize) -> T>(
        self,
        next: Ensemble<T>,
        zero: T,
        plus: P,
        over: Q,
    ) -> bool {
        ||| self.spawns(next, zero)
        ||| exists|index: int, event: WorkerEvent<T>| #[trigger]
            self.worker_steps(next, index, event, plus)
        ||| exists|index: int, result: Option<WorkerResult<T>>| #[trigger]
            self.worker_contributes(next, index, over, result)
        ||| self.joins(next)
        ||| exists|event: RunEvent| #[trigger] self.concludes(next, event)
    }

    /// What holds of a run at every moment. Its workers are those started
    /// so far, with the identities 1, 2, 3 and so on, and all of them have
    /// the window of the run. A worker that has counted no observation
    /// still holds the sum `zero` that it started from. The aggregator
    /// holds one average for each worker that is done and no other, and
    /// every worker that was awaited is done.
    pub open spec fn consistent(self, zero: T) -> bool {
        &&& self.run.well_formed()
        &&& self.workers.len() == self.run.spawned
        &&& forall|index: int|
            0 <= index < self.workers.len() ==> {
                let worker = #[trigger] self.workers[index];
                &&& worker.id == index + 1
                &&& worker.duration_seconds == self.run.duration_seconds
                &&& worker.count == 0 ==> worker.sum == zero
            }
        &&& self.averages.len() == finished(self.workers)
        &&& forall|index: int|
            0 <= index < self.run.joined ==> (#[trigger] self.workers[index]).pending
                == WorkerAction::Stop
    }
}

/// One more worker adds to the number of those done if it is done itself.
proof fn lemma_finished_push<T>(workers: Seq<WorkerView<T>>, worker: WorkerView<T>)
    ensures
        finished(workers.push(worker)) == finished(workers) + if worker.pending
            == WorkerAction::Stop {
            1nat
        } else {
            0nat
        },
{
    assert(workers.push(worker).drop_last() =~= workers);
}

/// Where one worker alone changes, the number of those done changes by
/// that worker's share.
proof fn lemma_finished_update<T>(
    before: Seq<WorkerView<T>>,
    after: Seq<WorkerView<T>>,
    index: int,
)
    requires
        0 <= index < before.len(),
        after.len() == before.len(),
        forall|other: int|
            0 <= other < before.len() && other != index ==> after[other] == before[other],
    ensures
        finished(after) + (if before[index].pending == WorkerAction::Stop {
            1nat
        } else {
            0nat
        }) == finished(before) + (if after[index].pending == WorkerAction::Stop {
            1nat
        } else {
            0nat
        }),
    decreases before.len(),
{
    if index == before.len() - 1 {
        assert(after.drop_last() =~= before.drop_last());
    } else {
        lemma_finished_update(before.drop_last(), after.drop_last(), index);
    }
}

/// Where every worker is done, those done are all of them.
proof fn lemma_finished_all<T>(workers: Seq<WorkerView<T>>)
    requires
        forall|index: int|
            0 <= index < workers.len() ==> (#[trigger] workers[index]).pending
                == WorkerAction::Stop,
    ensures
        finished(workers) == workers.len(),
    decreases workers.len(),
{
    if workers.len() > 0 {
        lemma_finished_all(workers.drop_last());
    }
}

/// A run is consistent at its start.
pub proof fn lemma_start_is_consistent<T>(ensemble: Ensemble<T>, zero: T)
    requires
        ensemble.at_start(),
    ensures
        ensemble.consistent(zero),
{
}

/// Every move keeps a run consistent, whichever part moves and in whatever
/// order the parts take their turns.
pub proof fn lemma_move_keeps_consistent<T, P: Fn(T, T) -> T, Q: Fn(T, usize) -> T>(
    ensemble: Ensemble<T>,
    next: Ensemble<T>,
    zero: T,
    plus: P,
    over: Q,
)
    requires
        ensemble.consistent(zero),
        ensemble.moves_to(next, zero, plus, over),
    ensures
        next.consistent(zero),
{
    if ensemble.spawns(next, zero) {
        let id = ensemble.run.pending->Spawn_0;
        lemma_finished_push(
            ensemble.workers,
            fresh_worker(id, ensemble.run.duration_seconds, zero),
        );
    } else if exists|index: int, event: WorkerEvent<T>| #[trigger]
        ensemble.worker_steps(next, index, event, plus) {
        let (index, event) = choose|index: int, event: WorkerEvent<T>| #[trigger]
            ensemble.worker_steps(next, index, event, plus);
        lemma_finished_update(ensemble.workers, next.workers, index);
    } else if exists|index: int, result: Option<WorkerResult<T>>| #[trigger]
        ensemble.worker_contributes(next, index, over, result) {
        let (index, result) = choose|index: int, result: Option<WorkerResult<T>>| #[trigger]
            ensemble.worker_contributes(next, index, over, result);
        lemma_finished_update(ensemble.workers, next.workers, index);
    } else if ensemble.joins(next) {
    } else {
    }
}

/// A worker whose window closes before it has counted any observation
/// contributes what `over` gives for the starting sum and a count of zero,
/// whatever that is, and the aggregator takes it like any other average.
pub proof fn lemma_contribution_without_samples<T, Q: Fn(T, usize) -> T>(
    ensemble: Ensemble<T>,
    next: Ensemble<T>,
    zero: T,
    index: int,
    over: Q,
    result: Option<WorkerResult<T>>,
)
    requires
        ensemble.consistent(zero),
        ensemble.worker_contributes(next, index, over, result),
        ensemble.workers[index].pending == WorkerAction::Contribute,
        ensemble.workers[index].count == 0,
    ensures
        result matches Some(made) && made.sample_count == 0 && call_ensures(
            over,
            (zero, 0usize),
            made.local_average,
        ) && next.averages == ensemble.averages.push(made.local_average),
{
}

/// The barrier: when the orchestrator asks for the reduction, every worker
/// of the run is done and the aggregator holds exactly one average for
/// each of them.
pub proof fn lemma_reduction_sees_every_worker<T>(ensemble: Ensemble<T>, zero: T)
    requires
        ensemble.consistent(zero),
        ensemble.run.pending == RunAction::Reduce,
    ensures
        ensemble.workers.len() == ensemble.run.worker_count,
        ensemble.averages.len() == ensemble.run.worker_count,
        forall|index: int|
            0 <= index < ensemble.workers.len() ==> (#[trigger] ensemble.workers[index]).pending
                == WorkerAction::Stop,
{
    lemma_finished_all(ensemble.workers);
}

} // verus!
