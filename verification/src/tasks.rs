//! The lifecycle of an asynchronous task.
//!
//! A task is created `Pending`, becomes `Running` once when it is scheduled,
//! and ends `Completed` or `Failed`. Both kinds of task, candle fetches and
//! backtests, share this lifecycle and differ in their parameters and in
//! the result they carry. Times are milliseconds since the epoch.

use vstd::prelude::*;
use vstd::string::StringExecFns;
use crate::errors::{AppError, AppResult};
use crate::models::{Candle, Timeframe};

verus! {

/// The progress of a task that has done all its work, in millionths.
pub const FULL_PROGRESS: u32 = 1_000_000;

/// Where a task stands in its lifecycle.
#[derive(Debug, Clone, Copy, PartialEq, Eq, Structural)]
pub enum TaskStatus {
    Pending,
    Running,
    Completed,
    Failed,
}

impl TaskStatus {
    /// The task has ended, one way or the other.
    pub open spec fn is_terminal(self) -> bool {
        self is Completed || self is Failed
    }

    /// One transition of the lifecycle leads from `self` to `next`.
    pub open spec fn leads_to(self, next: TaskStatus) -> bool {
        match self {
            TaskStatus::Pending => next is Running,
            TaskStatus::Running => next is Completed || next is Failed,
            TaskStatus::Completed => false,
            TaskStatus::Failed => false,
        }
    }

    /// Whether the task has ended.
    pub fn ended(&self) -> (r: bool)
        ensures
            r == self.is_terminal(),
    {
        match self {
            TaskStatus::Completed => true,
            TaskStatus::Failed => true,
            _ => false,
        }
    }
}

/// Something that happens to a task.
pub enum TaskEvent<R> {
    /// The task was scheduled for execution.
    Started,
    /// The task has done `processed` of `total` units of work.
    Progressed { processed: u64, total: u64 },
    /// The work ended with a result.
    Completed(R),
    /// The work ended with an error.
    Failed(String),
}

/// One asynchronous job with parameters `P` and result `R`.
#[derive(Debug, Clone)]
pub struct Task<P, R> {
    pub id: u128,
    pub status: TaskStatus,
    /// The share of the work done, in millionths.
    pub progress: u32,
    pub params: P,
    pub result: Option<R>,
    pub error_message: Option<String>,
    pub created_at: i64,
    pub started_at: Option<i64>,
    pub completed_at: Option<i64>,
    pub updated_at: i64,
}

/// What a candle fetch is asked to do.
#[derive(Debug, Clone)]
pub struct FetchCandlesParams {
    pub symbol: String,
    pub exchange: String,
    pub timeframe: Timeframe,
}

/// What a candle fetch ends with.
#[derive(Debug, Clone)]
pub struct FetchCandlesResult {
    /// The number of candles brought in.
    pub candles: u64,
    /// The opening time of the earliest candle, if there is one.
    pub first_timestamp: Option<i64>,
    /// The opening time of the latest candle, if there is one.
    pub last_timestamp: Option<i64>,
}

impl FetchCandlesResult {
    /// What a fetch that brought in the given candles ends with: their
    /// number, and the opening times of the first and of the last.
    pub fn from_candles(candles: &Vec<Candle>) -> (r: FetchCandlesResult)
        ensures
            r.candles == candles@.len(),
            r.first_timestamp == if candles@.len() > 0 {
                Some(candles@[0].timestamp)
            } else {
                None
            },
            r.last_timestamp == if candles@.len() > 0 {
                Some(candles@[candles@.len() - 1].timestamp)
            } else {
                None
            },
    {
        let count: usize = candles.len();
        if count == 0 {
            FetchCandlesResult { candles: 0, first_timestamp: None, last_timestamp: None }
        } else {
            FetchCandlesResult {
                candles: count as u64,
                first_timestamp: Some(candles[0].timestamp),
                last_timestamp: Some(candles[count - 1].timestamp),
            }
        }
    }
}

pub type FetchCandlesStatus = TaskStatus;

pub type FetchCandlesTask = Task<FetchCandlesParams, FetchCandlesResult>;

/// The share `processed / total` in millionths, rounded down.
pub open spec fn progress_of(processed: u64, total: u64) -> int
    recommends
        0 < total,
        processed <= total,
{
    (processed as int * FULL_PROGRESS as int) / total as int
}

proof fn lemma_progress_bounded(processed: u64, total: u64)
    requires
        0 < total,
        processed <= total,
    ensures
        0 <= progress_of(processed, total) <= FULL_PROGRESS,
        processed == total ==> progress_of(processed, total) == FULL_PROGRESS,
{
    let p = processed as int;
    let t = total as int;
    let f = FULL_PROGRESS as int;
    assert(p * f <= t * f) by (nonlinear_arith)
        requires
            p <= t,
            f >= 0,
    ;
    assert((p * f) / t <= f) by (nonlinear_arith)
        requires
            p * f <= t * f,
            t > 0,
    ;
    assert((p * f) / t >= 0) by (nonlinear_arith)
        requires
            p >= 0,
            f >= 0,
            t > 0,
    ;
    if processed == total {
        assert((t * f) / t == f) by (nonlinear_arith)
            requires
                t > 0,
        ;
    }
}

/// More work done is never a smaller share.
pub proof fn progress_grows_with_work(earlier: u64, later: u64, total: u64)
    requires
        0 < total,
        earlier <= later <= total,
    ensures
        progress_of(earlier, total) <= progress_of(later, total),
{
    let a = earlier as int * FULL_PROGRESS as int;
    let b = later as int * FULL_PROGRESS as int;
    let t = total as int;
    assert(a <= b) by (nonlinear_arith)
        requires
            earlier <= later,
            a == earlier as int * 1_000_000,
            b == later as int * 1_000_000,
    ;
    assert(a / t <= b / t) by (nonlinear_arith)
        requires
            a <= b,
            t > 0,
    ;
}

/// Computes the share `processed / total` in millionths.
pub fn progress_fraction(processed: u64, total: u64) -> (r: u32)
    requires
        0 < total,
        processed <= total,
    ensures
        r == progress_of(processed, total),
        r <= FULL_PROGRESS,
{
    proof {
        lemma_progress_bounded(processed, total);
    }
    let scaled: u128 = (processed as u128) * 1_000_000u128;
    (scaled / (total as u128)) as u32
}

impl<P, R> Task<P, R> {
    /// The invariant of a task: it carries a result and a completion time
    /// exactly when it completed, an error message exactly when it failed,
    /// and a start time from the moment it runs.
    pub open spec fn wf(self) -> bool {
        &&& self.progress <= FULL_PROGRESS
        &&& (self.status is Completed <==> self.result is Some)
        &&& (self.status is Failed <==> self.error_message is Some)
        &&& (self.status.is_terminal() <==> self.completed_at is Some)
        &&& (self.status is Pending <==> self.started_at is None)
        &&& (self.status is Pending ==> self.progress == 0)
        &&& (self.status is Completed ==> self.progress == FULL_PROGRESS)
    }

    /// A task as it is created.
    pub open spec fn pending(id: u128, params: P, now: i64) -> Task<P, R> {
        Task {
            id,
            status: TaskStatus::Pending,
            progress: 0,
            params,
            result: None,
            error_message: None,
            created_at: now,
            started_at: None,
            completed_at: None,
            updated_at: now,
        }
    }

    /// Whether the event can happen to the task as it stands.
    pub open spec fn accepts(self, event: TaskEvent<R>) -> bool {
        match event {
            TaskEvent::Started => self.status is Pending,
            TaskEvent::Progressed { processed, total } => self.status is Running && 0 < total
                && processed <= total,
            TaskEvent::Completed(_) => self.status is Running,
            TaskEvent::Failed(_) => self.status is Running,
        }
    }

    /// The task after an event that it accepts.
    pub open spec fn after(self, event: TaskEvent<R>, now: i64) -> Task<P, R> {
        match event {
            TaskEvent::Started => Task {
                status: TaskStatus::Running,
                started_at: Some(now),
                updated_at: now,
                ..self
            },
            TaskEvent::Progressed { processed, total } => Task {
                progress: if progress_of(processed, total) > self.progress {
                    progress_of(processed, total) as u32
                } else {
                    self.progress
                },
                updated_at: now,
                ..self
            },
            TaskEvent::Completed(result) => Task {
                status: TaskStatus::Completed,
                progress: FULL_PROGRESS,
                result: Some(result),
                completed_at: Some(now),
                updated_at: now,
                ..self
            },
            TaskEvent::Failed(message) => Task {
                status: TaskStatus::Failed,
                error_message: Some(message),
                completed_at: Some(now),
                updated_at: now,
                ..self
            },
        }
    }

    /// The message with which an event out of turn is refused.
    pub open spec fn refusal(event: TaskEvent<R>) -> Seq<char> {
        match event {
            TaskEvent::Started => "Task was already scheduled"@,
            TaskEvent::Progressed { processed, total } => "Progress reported out of turn"@,
            TaskEvent::Completed(_) => "Task is not running"@,
            TaskEvent::Failed(_) => "Task is not running"@,
        }
    }

    /// Creates a task in `Pending`.
    pub fn new(id: u128, params: P, now: i64) -> (r: Task<P, R>)
        ensures
            r == Task::<P, R>::pending(id, params, now),
            r.wf(),
    {
        Task {
            id,
            status: TaskStatus::Pending,
            progress: 0,
            params,
            result: None,
            error_message: None,
            created_at: now,
            started_at: None,
            completed_at: None,
            updated_at: now,
        }
    }

    /// Tests the invariant of a task that came from outside.
    pub fn is_wf(&self) -> (r: bool)
        ensures
            r == self.wf(),
    {
        let completed = matches!(self.status, TaskStatus::Completed);
        let failed = matches!(self.status, TaskStatus::Failed);
        let pending = matches!(self.status, TaskStatus::Pending);
        let marked = completed == self.result.is_some() && failed == self.error_message.is_some()
            && (completed || failed) == self.completed_at.is_some() && pending
            == self.started_at.is_none();
        let measured = self.progress <= FULL_PROGRESS && (!pending || self.progress == 0) && (
        !completed || self.progress == FULL_PROGRESS);
        marked && measured
    }

    /// Lets an event happen to the task at time `now`. An event that the
    /// task does not accept as it stands leaves it unchanged and is
    /// reported as a defect.
    pub fn apply(&mut self, event: TaskEvent<R>, now: i64) -> (r: AppResult<()>)
        requires
            old(self).wf(),
        ensures
            final(self).wf(),
            match r {
                Ok(_) => old(self).accepts(event) && *final(self) == old(self).after(event, now),
                Err(e) => !old(self).accepts(event) && e is Internal && e.message_spec()
                    == Self::refusal(event) && *final(self) == *old(self),
            },
    {
        match event {
            TaskEvent::Started => {
                if !matches!(self.status, TaskStatus::Pending) {
                    return Err(AppError::Internal(String::from_str("Task was already scheduled")));
                }
                self.status = TaskStatus::Running;
                self.started_at = Some(now);
            },
            TaskEvent::Progressed { processed, total } => {
                if !matches!(self.status, TaskStatus::Running) || total == 0 || processed > total {
                    return Err(
                        AppError::Internal(String::from_str("Progress reported out of turn")),
                    );
                }
                let share: u32 = progress_fraction(processed, total);
                if share > self.progress {
                    self.progress = share;
                }
            },
            TaskEvent::Completed(result) => {
                if !matches!(self.status, TaskStatus::Running) {
                    return Err(AppError::Internal(String::from_str("Task is not running")));
                }
                self.status = TaskStatus::Completed;
                self.progress = FULL_PROGRESS;
                self.result = Some(result);
                self.completed_at = Some(now);
            },
            TaskEvent::Failed(message) => {
                if !matches!(self.status, TaskStatus::Running) {
                    return Err(AppError::Internal(String::from_str("Task is not running")));
                }
                self.status = TaskStatus::Failed;
                self.error_message = Some(message);
                self.completed_at = Some(now);
            },
        }
        self.updated_at = now;
        Ok(())
    }

    /// The key under which a finished task is stored: its id, and its
    /// completion time for sorting. A task that has no completion time is
    /// not stored.
    pub fn persist_key(&self) -> (r: AppResult<(u128, i64)>)
        ensures
            match r {
                Ok(key) => self.completed_at == Some(key.1) && key.0 == self.id,
                Err(e) => self.completed_at is None && e is Internal && e.message_spec()
                    == "Task not completed yet"@,
            },
    {
        match self.completed_at {
            Some(at) => Ok((self.id, at)),
            None => Err(AppError::Internal(String::from_str("Task not completed yet"))),
        }
    }
}

/// An event that a well-formed task accepts leaves it well-formed, moves
/// its status by at most one transition of the lifecycle, and never lowers
/// its progress.
pub proof fn event_keeps_lifecycle<P, R>(task: Task<P, R>, event: TaskEvent<R>, now: i64)
    requires
        task.wf(),
        task.accepts(event),
    ensures
        task.after(event, now).wf(),
        task.after(event, now).status == task.status || task.status.leads_to(
            task.after(event, now).status,
        ),
        task.after(event, now).progress >= task.progress,
        task.after(event, now).id == task.id,
        task.after(event, now).updated_at == now,
{
    match event {
        TaskEvent::Progressed { processed, total } => {
            lemma_progress_bounded(processed, total);
        },
        _ => {},
    }
}

/// The statuses that observers see of a task to which events happen in
/// turn, each at its time: the status the task has, then its status after
/// every event that it accepted and that changed its status.
pub open spec fn observed<P, R>(task: Task<P, R>, events: Seq<(TaskEvent<R>, i64)>) -> Seq<
    TaskStatus,
>
    decreases events.len(),
{
    if events.len() == 0 {
        seq![task.status]
    } else if !task.accepts(events[0].0) {
        observed(task, events.drop_first())
    } else {
        let next = task.after(events[0].0, events[0].1);
        if next.status == task.status {
            observed(next, events.drop_first())
        } else {
            seq![task.status] + observed(next, events.drop_first())
        }
    }
}

proof fn lemma_observed_moves_by_transitions<P, R>(
    task: Task<P, R>,
    events: Seq<(TaskEvent<R>, i64)>,
)
    requires
        task.wf(),
    ensures
        observed(task, events).len() > 0,
        observed(task, events)[0] == task.status,
        forall|i: int|
            0 <= i < observed(task, events).len() - 1 ==> (#[trigger] observed(
                task,
                events,
            )[i]).leads_to(observed(task, events)[i + 1]),
    decreases events.len(),
{
    if events.len() > 0 {
        let rest = events.drop_first();
        if !task.accepts(events[0].0) {
            lemma_observed_moves_by_transitions(task, rest);
        } else {
            let next = task.after(events[0].0, events[0].1);
            event_keeps_lifecycle(task, events[0].0, events[0].1);
            lemma_observed_moves_by_transitions(next, rest);
            if next.status != task.status {
                let tail = observed(next, rest);
                let all = observed(task, events);
                assert(all == seq![task.status] + tail);
                assert forall|i: int| 0 <= i < all.len() - 1 implies (#[trigger] all[i]).leads_to(
                    all[i + 1],
                ) by {
                    if i > 0 {
                        assert(all[i] == tail[i - 1]);
                        assert(all[i + 1] == tail[i]);
                    } else {
                        assert(all[1] == tail[0]);
                    }
                }
            }
        }
    }
}

/// Whatever events happen to a task from its creation on, in whatever
/// order, the statuses that observers see start at `Pending`, go on to
/// `Running`, and end there, at `Completed` or at `Failed`.
pub proof fn observed_statuses_are_linear<P, R>(
    id: u128,
    params: P,
    now: i64,
    events: Seq<(TaskEvent<R>, i64)>,
)
    ensures
        is_status_trace(observed(Task::<P, R>::pending(id, params, now), events)),
        ({
            let seen = observed(Task::<P, R>::pending(id, params, now), events);
            &&& seen.len() <= 3
            &&& seen.len() >= 2 ==> seen[1] is Running
            &&& seen.len() == 3 ==> seen[2] is Completed || seen[2] is Failed
        }),
{
    let task = Task::<P, R>::pending(id, params, now);
    lemma_observed_moves_by_transitions(task, events);
    lifecycle_is_linear(observed(task, events));
}

/// A sequence of statuses that starts at `Pending` and moves by one
/// transition at a time.
pub open spec fn is_status_trace(trace: Seq<TaskStatus>) -> bool {
    &&& trace.len() > 0
    &&& trace[0] is Pending
    &&& forall|i: int| 0 <= i < trace.len() - 1 ==> (#[trigger] trace[i]).leads_to(trace[i + 1])
}

/// Every sequence of statuses that a task goes through is a prefix of
/// `Pending, Running, Completed` or of `Pending, Running, Failed`; one that
/// has reached its end is exactly one of the two.
pub proof fn lifecycle_is_linear(trace: Seq<TaskStatus>)
    requires
        is_status_trace(trace),
    ensures
        trace.len() <= 3,
        trace.len() >= 2 ==> trace[1] is Running,
        trace.len() == 3 ==> trace[2] is Completed || trace[2] is Failed,
        trace.last().is_terminal() ==> (trace == seq![
            TaskStatus::Pending,
            TaskStatus::Running,
            TaskStatus::Completed,
        ] || trace == seq![TaskStatus::Pending, TaskStatus::Running, TaskStatus::Failed]),
{
    if trace.len() >= 2 {
        assert(trace[0].leads_to(trace[1]));
    }
    if trace.len() >= 3 {
        assert(trace[1].leads_to(trace[2]));
    }
    if trace.len() >= 4 {
        assert(trace[2].leads_to(trace[3]));
    }
    if trace.last().is_terminal() {
        assert(trace.len() == 3);
        if trace[2] is Completed {
            assert(trace =~= seq![
                TaskStatus::Pending,
                TaskStatus::Running,
                TaskStatus::Completed,
            ]);
        } else {
            assert(trace =~= seq![TaskStatus::Pending, TaskStatus::Running, TaskStatus::Failed]);
        }
    }
}

} // verus!
