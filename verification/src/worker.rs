//! One worker of a run, as a state machine. The worker decides what is to
//! be done next; whoever drives it does it and reports back.

use vstd::prelude::*;
use crate::aggregator::AggregatorData;
use crate::deadline::{window_closed, Deadline};
use crate::sampler::{observed, FetchError};

verus! {

/// The pause between two polls of one worker, in seconds.
pub const POLL_DELAY_SECONDS: u64 = 1;

/// What the driver of a worker is to do next.
#[derive(Clone, Copy, PartialEq, Eq, Structural, Debug)]
pub enum WorkerAction {
    /// Read the seconds that have passed since the start of the run.
    ReadClock,
    /// Try to fetch one observation.
    Fetch,
    /// Pause for `POLL_DELAY_SECONDS`, the delay between two polls.
    Sleep,
    /// Hand the aggregator over for the worker's contribution.
    Contribute,
    /// Nothing more: the worker is done.
    Stop,
}

/// What the driver reports back to a worker.
#[derive(Debug)]
pub enum WorkerEvent<T> {
    /// The clock was read: so many whole seconds have passed since the start.
    Clock(u64),
    /// A fetch has ended, with an observation or with a failure.
    Sample(Result<T, FetchError>),
    /// The pause between two polls is over.
    Slept,
}

/// The three phases of a worker's life.
#[derive(Clone, Copy, PartialEq, Eq, Structural, Debug)]
pub enum WorkerPhase {
    /// Polling: the window is open as far as the worker has seen.
    Running,
    /// The window has closed and the contribution is still to be made.
    Finalizing,
    /// The contribution is made.
    Done,
}

/// What a worker has to show at the end of its window.
#[derive(Debug)]
pub struct WorkerResult<T> {
    pub worker_id: usize,
    pub local_average: T,
    pub sample_count: usize,
}

/// The state of a worker as contracts see it.
pub ghost struct WorkerView<T> {
    pub id: usize,
    pub duration_seconds: u64,
    pub sum: T,
    pub count: usize,
    pub pending: WorkerAction,
}

/// The phase that a worker is in while `pending` is what it waits for.
pub open spec fn phase_of(pending: WorkerAction) -> WorkerPhase {
    match pending {
        WorkerAction::Contribute => WorkerPhase::Finalizing,
        WorkerAction::Stop => WorkerPhase::Done,
        _ => WorkerPhase::Running,
    }
}

/// The action that follows when `event` is reported to a worker that waits
/// for `pending`. A report that does not answer `pending` changes nothing.
pub open spec fn next_action<T>(
    pending: WorkerAction,
    duration_seconds: u64,
    event: WorkerEvent<T>,
) -> WorkerAction {
    match (pending, event) {
        (WorkerAction::ReadClock, WorkerEvent::Clock(elapsed_secs)) => if elapsed_secs
            >= duration_seconds {
            WorkerAction::Contribute
        } else {
            WorkerAction::Fetch
        },
        (WorkerAction::Fetch, WorkerEvent::Sample(_)) => WorkerAction::Sleep,
        (WorkerAction::Sleep, WorkerEvent::Slept) => WorkerAction::ReadClock,
        _ => pending,
    }
}

/// The observation that `event` brings to a worker that waits for
/// `pending`, if it brings one.
pub open spec fn observation_in<T>(pending: WorkerAction, event: WorkerEvent<T>) -> Option<T> {
    match (pending, event) {
        (WorkerAction::Fetch, WorkerEvent::Sample(outcome)) => observed(outcome),
        _ => None,
    }
}

/// A reading of the clock at or past the end of the window ends the
/// polling, and an earlier one asks for one more fetch. So a worker whose
/// window has no length never fetches: whatever its first reading is, it
/// turns to its contribution.
pub proof fn lemma_clock_decides<T>(duration_seconds: u64, elapsed_secs: u64)
    ensures
        next_action::<T>(
            WorkerAction::ReadClock,
            duration_seconds,
            WorkerEvent::Clock(elapsed_secs),
        ) == if elapsed_secs >= duration_seconds {
            WorkerAction::Contribute
        } else {
            WorkerAction::Fetch
        },
        duration_seconds == 0 ==> next_action::<T>(
            WorkerAction::ReadClock,
            duration_seconds,
            WorkerEvent::Clock(elapsed_secs),
        ) == WorkerAction::Contribute,
{
}

/// What `step` does to a worker: `after` is a state that the report of
/// `event` may lead to from `before`, where sums are taken with `plus`.
pub open spec fn steps_to<T, P: Fn(T, T) -> T>(
    before: WorkerView<T>,
    event: WorkerEvent<T>,
    plus: P,
    after: WorkerView<T>,
) -> bool {
    &&& after.id == before.id
    &&& after.duration_seconds == before.duration_seconds
    &&& after.pending == next_action(before.pending, before.duration_seconds, event)
    &&& match observation_in(before.pending, event) {
        Some(value) => after.count == before.count + 1 && call_ensures(
            plus,
            (before.sum, value),
            after.sum,
        ),
        None => after.count == before.count && after.sum == before.sum,
    }
}

/// What `contribute` does to a worker and to the averages of the
/// aggregator that it is given, where the average is taken with `over`.
pub open spec fn contributes_to<T, Q: Fn(T, usize) -> T>(
    before: WorkerView<T>,
    averages_before: Seq<T>,
    over: Q,
    after: WorkerView<T>,
    averages_after: Seq<T>,
    result: Option<WorkerResult<T>>,
) -> bool {
    if before.pending == WorkerAction::Contribute {
        &&& result matches Some(made)
        &&& made.worker_id == before.id
        &&& made.sample_count == before.count
        &&& call_ensures(over, (before.sum, before.count), made.local_average)
        &&& averages_after == averages_before.push(made.local_average)
        &&& after == (WorkerView { pending: WorkerAction::Stop, ..before })
    } else {
        &&& result is None
        &&& averages_after == averages_before
        &&& after == before
    }
}

/// A worker: its identity, the deadline it shares with the other workers
/// of its run, and the running sum and count of the observations it has
/// made.
pub struct Worker<T> {
    id: usize,
    deadline: Deadline,
    sum: T,
    count: usize,
    pending: WorkerAction,
}

impl<T> View for Worker<T> {
    type V = WorkerView<T>;

    closed spec fn view(&self) -> WorkerView<T> {
        WorkerView {
            id: self.id,
            duration_seconds: self.deadline.window(),
            sum: self.sum,
            count: self.count,
            pending: self.pending,
        }
    }
}

impl<T: Copy> Worker<T> {
    /// The deadline that the worker was given.
    pub closed spec fn shared_deadline(&self) -> Deadline {
        self.deadline
    }

    /// A worker that has observed nothing yet and is about to read the clock.
    pub fn new(id: usize, deadline: Deadline, zero: T) -> (worker: Self)
        ensures
            worker.shared_deadline() == deadline,
            worker@ == (WorkerView {
                id,
                duration_seconds: deadline.window(),
                sum: zero,
                count: 0,
                pending: WorkerAction::ReadClock,
            }),
    {
        Worker { id, deadline, sum: zero, count: 0, pending: WorkerAction::ReadClock }
    }

    /// Reads the clock of the shared deadline and hands the reading back
    /// as the report that `step` takes. The reading is whatever the clock
    /// gives: nothing is known of it beforehand.
    pub fn read_clock(&self) -> (event: WorkerEvent<T>)
        ensures
            event is Clock,
    {
        WorkerEvent::Clock(self.deadline.elapsed_secs())
    }

    /// The worker's identity.
    pub fn id(&self) -> (id: usize)
        ensures
            id == self@.id,
    {
        self.id
    }

    /// The number of observations folded into the sum so far.
    pub fn sample_count(&self) -> (count: usize)
        ensures
            count == self@.count,
    {
        self.count
    }

    /// What the worker waits for: the action that its driver is to perform.
    pub fn pending(&self) -> (action: WorkerAction)
        ensures
            action == self@.pending,
    {
        self.pending
    }

    /// The phase that the worker is in.
    pub fn phase(&self) -> (phase: WorkerPhase)
        ensures
            phase == phase_of(self@.pending),
    {
        match self.pending {
            WorkerAction::Contribute => WorkerPhase::Finalizing,
            WorkerAction::Stop => WorkerPhase::Done,
            _ => WorkerPhase::Running,
        }
    }

    /// Takes the report of what the driver did and says what to do next.
    ///
    /// A clock reading at or past the end of the window ends the polling;
    /// an earlier one asks for a fetch. A fetch that brought an observation
    /// adds it to the sum and counts it; one that failed is passed over.
    /// Either way a pause follows, and then the clock is read again.
    pub fn step<P: Fn(T, T) -> T>(&mut self, event: WorkerEvent<T>, plus: P) -> (action:
        WorkerAction)
        requires
            observation_in(old(self)@.pending, event) matches Some(value) ==> old(self)@.count
                < usize::MAX && call_requires(plus, (old(self)@.sum, value)),
        ensures
            action == final(self)@.pending,
            steps_to(old(self)@, event, plus, final(self)@),
            final(self).shared_deadline() == old(self).shared_deadline(),
    {
        match (self.pending, event) {
            (WorkerAction::ReadClock, WorkerEvent::Clock(elapsed_secs)) => {
                if window_closed(elapsed_secs, self.deadline.duration_seconds()) {
                    self.pending = WorkerAction::Contribute;
                } else {
                    self.pending = WorkerAction::Fetch;
                }
            },
            (WorkerAction::Fetch, WorkerEvent::Sample(outcome)) => {
                if let Ok(value) = outcome {
                    self.sum = plus(self.sum, value);
                    self.count = self.count + 1;
                }
                self.pending = WorkerAction::Sleep;
            },
            (WorkerAction::Sleep, WorkerEvent::Slept) => {
                self.pending = WorkerAction::ReadClock;
            },
            _ => {},
        }
        self.pending
    }

    /// Makes the worker's one contribution. Where the worker waits to
    /// contribute, its local average, the sum over the count, is appended
    /// to `aggregator` and handed back with the worker's identity and
    /// count, and the worker is done. In any other state nothing changes.
    pub fn contribute<Q: Fn(T, usize) -> T>(
        &mut self,
        aggregator: &mut AggregatorData<T>,
        over: Q,
    ) -> (result: Option<WorkerResult<T>>)
        requires
            old(self)@.pending == WorkerAction::Contribute ==> call_requires(
                over,
                (old(self)@.sum, old(self)@.count),
            ),
        ensures
            contributes_to(
                old(self)@,
                old(aggregator)@,
                over,
                final(self)@,
                final(aggregator)@,
                result,
            ),
            final(self).shared_deadline() == old(self).shared_deadline(),
    {
        match self.pending {
            WorkerAction::Contribute => {
                let local_average = over(self.sum, self.count);
                aggregator.add_average(local_average);
                self.pending = WorkerAction::Stop;
                Some(WorkerResult { worker_id: self.id, local_average, sample_count: self.count })
            },
            _ => None,
        }
    }
}

} // verus!
