//! The registry of tasks and the stream of their snapshots.
//!
//! The registry holds every task of one kind, in the order in which they
//! entered it, each under its own id. The caller guards it against
//! concurrent access and publishes a snapshot after every change.

use vstd::prelude::*;
use std::collections::HashMap;
use vstd::string::StringExecFns;
use crate::errors::{AppError, AppResult};
use crate::tasks::{Task, TaskEvent};

verus! {

/// Whether one of the tasks has the id.
pub open spec fn has_id<P, R>(tasks: Seq<Task<P, R>>, id: u128) -> bool {
    exists|i: int| 0 <= i < tasks.len() && (#[trigger] tasks[i]).id == id
}

/// The tasks after an event happened to the one at place `i`.
pub open spec fn with_event<P, R>(tasks: Seq<Task<P, R>>, i: int, event: TaskEvent<R>, now: i64) -> Seq<
    Task<P, R>,
> {
    tasks.update(i, tasks[i].after(event, now))
}

/// No task with the id accepts the event as it stands.
pub open spec fn none_accepts<P, R>(tasks: Seq<Task<P, R>>, id: u128, event: TaskEvent<R>) -> bool {
    forall|i: int| 0 <= i < tasks.len() && (#[trigger] tasks[i]).id == id ==> !tasks[i].accepts(event)
}

/// The snapshots among the first `n` that a registry takes in when it is
/// rebuilt from storage, in their order: those that are well-formed, have
/// ended, and whose id no earlier one had.
pub open spec fn restored<P, R>(snapshots: Seq<Task<P, R>>, n: nat) -> Seq<Task<P, R>>
    decreases n,
{
    if n == 0 || n > snapshots.len() {
        Seq::empty()
    } else {
        let before = restored(snapshots, (n - 1) as nat);
        let t = snapshots[n - 1];
        if t.wf() && t.status.is_terminal() && !has_id(before, t.id) {
            before.push(t)
        } else {
            before
        }
    }
}

/// A finished, well-formed task that is stored and read back alone enters
/// the rebuilt registry as it is.
pub proof fn finished_snapshot_is_restored<P, R>(task: Task<P, R>)
    requires
        task.wf(),
        task.status.is_terminal(),
    ensures
        restored(seq![task], 1) == seq![task],
{
    let snapshots = seq![task];
    assert(restored(snapshots, 0) == Seq::<Task<P, R>>::empty());
    assert(!has_id(Seq::<Task<P, R>>::empty(), task.id));
    assert(restored(snapshots, 1) =~= seq![task]);
}

/// A rebuilt registry holds only snapshots that storage returned, each of
/// them finished and well-formed.
pub proof fn restored_are_finished<P, R>(snapshots: Seq<Task<P, R>>, n: nat)
    ensures
        forall|i: int|
            0 <= i < restored(snapshots, n).len() ==> {
                let t = #[trigger] restored(snapshots, n)[i];
                t.wf() && t.status.is_terminal() && snapshots.contains(t)
            },
    decreases n,
{
    if !(n == 0 || n > snapshots.len()) {
        restored_are_finished(snapshots, (n - 1) as nat);
        let t = snapshots[n - 1];
        assert(snapshots.contains(t));
    }
}

/// All tasks of one kind. The tasks stand in the order in which they
/// entered, which is the order a listing and a new subscriber are answered
/// in; a map from each id to the place of its task finds a task by its id.
pub struct TaskRegistry<P, R> {
    pub tasks: Vec<Task<P, R>>,
    pub places: HashMap<u128, usize>,
}

impl<P, R> TaskRegistry<P, R> {
    /// Every task is well-formed, no id occurs twice, and the map of places
    /// leads from the id of every task to its place.
    pub open spec fn wf(self) -> bool {
        &&& forall|i: int| 0 <= i < self.tasks@.len() ==> (#[trigger] self.tasks@[i]).wf()
        &&& forall|i: int, j: int|
            0 <= i < j < self.tasks@.len() ==> (#[trigger] self.tasks@[i]).id != (
            #[trigger] self.tasks@[j]).id
        &&& self.indexed(self.tasks@.len() as int)
    }

    /// The map of places leads from the id of each of the first `n` tasks
    /// to its place.
    pub open spec fn indexed(self, n: int) -> bool {
        forall|i: int|
            0 <= i < n && i < self.tasks@.len() ==> self.places@.contains_key(
                (#[trigger] self.tasks@[i]).id,
            ) && self.places@[self.tasks@[i].id] == i
    }

    /// A registry without tasks.
    pub fn new() -> (r: TaskRegistry<P, R>)
        ensures
            r.wf(),
            r.tasks@.len() == 0,
    {
        TaskRegistry { tasks: Vec::new(), places: HashMap::new() }
    }

    /// Tests the invariant of a registry that came from outside.
    pub fn is_wf(&self) -> (r: bool)
        ensures
            r == self.wf(),
    {
        let mut i: usize = 0;
        while i < self.tasks.len()
            invariant
                i <= self.tasks.len(),
                forall|k: int| 0 <= k < i ==> (#[trigger] self.tasks@[k]).wf(),
                forall|k: int, j: int|
                    0 <= k < j < i ==> (#[trigger] self.tasks@[k]).id != (
                    #[trigger] self.tasks@[j]).id,
                self.indexed(i as int),
            decreases self.tasks.len() - i,
        {
            broadcast use vstd::std_specs::hash::group_hash_axioms;

            if !self.tasks[i].is_wf() {
                return false;
            }
            match self.places.get(&self.tasks[i].id) {
                Some(place) => {
                    if *place != i {
                        return false;
                    }
                },
                None => {
                    return false;
                },
            }
            let mut k: usize = 0;
            while k < i
                invariant
                    k <= i < self.tasks.len(),
                    forall|m: int| 0 <= m < k ==> (#[trigger] self.tasks@[m]).id != self.tasks@[i as int].id,
                decreases i - k,
            {
                if self.tasks[k].id == self.tasks[i].id {
                    return false;
                }
                k = k + 1;
            }
            i = i + 1;
        }
        true
    }

    /// The place of the task with the given id, as the map of places gives
    /// it.
    pub fn position(&self, id: u128) -> (r: Option<usize>)
        requires
            self.wf(),
        ensures
            match r {
                Some(i) => i < self.tasks@.len() && self.tasks@[i as int].id == id,
                None => !has_id(self.tasks@, id),
            },
    {
        broadcast use vstd::std_specs::hash::group_hash_axioms;

        match self.places.get(&id) {
            Some(place) => {
                let i: usize = *place;
                if i < self.tasks.len() && self.tasks[i].id == id {
                    Some(i)
                } else {
                    None
                }
            },
            None => None,
        }
    }

    /// Puts a task that is new to the registry behind the others and notes
    /// its place.
    fn enter(&mut self, task: Task<P, R>)
        requires
            old(self).wf(),
            task.wf(),
            !has_id(old(self).tasks@, task.id),
        ensures
            final(self).wf(),
            final(self).tasks@ == old(self).tasks@.push(task),
    {
        broadcast use vstd::std_specs::hash::group_hash_axioms;

        let id: u128 = task.id;
        let place: usize = self.tasks.len();
        self.tasks.push(task);
        self.places.insert(id, place);
        assert forall|i: int| 0 <= i < self.tasks@.len() implies self.places@.contains_key(
            (#[trigger] self.tasks@[i]).id,
        ) && self.places@[self.tasks@[i].id] == i by {
            if i < place {
                assert(old(self).tasks@[i].id != id);
            }
        }
    }

    /// Enters a new task in `Pending` under a fresh id and returns the id.
    /// An id that the registry already holds is refused as a defect.
    pub fn create(&mut self, id: u128, params: P, now: i64) -> (r: AppResult<u128>)
        requires
            old(self).wf(),
        ensures
            final(self).wf(),
            match r {
                Ok(given) => given == id && !has_id(old(self).tasks@, id) && final(self).tasks@
                    == old(self).tasks@.push(Task::<P, R>::pending(id, params, now)),
                Err(e) => has_id(old(self).tasks@, id) && e is Internal && e.message_spec()
                    == "Task id is already in use"@ && final(self).tasks@ == old(self).tasks@,
            },
    {
        match self.position(id) {
            Some(_) => Err(AppError::Internal(String::from_str("Task id is already in use"))),
            None => {
                let task = Task::new(id, params, now);
                self.enter(task);
                Ok(id)
            },
        }
    }

    /// The task with the given id, if the registry holds it.
    pub fn get(&self, id: u128) -> (r: Option<&Task<P, R>>)
        requires
            self.wf(),
        ensures
            match r {
                Some(t) => exists|i: int|
                    0 <= i < self.tasks@.len() && self.tasks@[i].id == id && *t == self.tasks@[i],
                None => !has_id(self.tasks@, id),
            },
    {
        match self.position(id) {
            Some(i) => Some(&self.tasks[i]),
            None => None,
        }
    }

    /// The task with the given id; an unknown id is reported as such.
    pub fn find(&self, id: u128) -> (r: AppResult<&Task<P, R>>)
        requires
            self.wf(),
        ensures
            match r {
                Ok(t) => exists|i: int|
                    0 <= i < self.tasks@.len() && self.tasks@[i].id == id && *t == self.tasks@[i],
                Err(e) => !has_id(self.tasks@, id) && e is NotFound && e.message_spec()
                    == "Task is not known"@,
            },
    {
        match self.position(id) {
            Some(i) => Ok(&self.tasks[i]),
            None => Err(AppError::NotFound(String::from_str("Task is not known"))),
        }
    }

    /// Every task, in the order in which they entered the registry.
    pub fn list(&self) -> (r: &Vec<Task<P, R>>)
        ensures
            r@ == self.tasks@,
    {
        &self.tasks
    }

    /// Lets an event happen to the task with the given id and returns the
    /// place of the task, whose snapshot is then to be published. An unknown
    /// id is reported as not found; an event that the task does not accept
    /// is a defect. Either way the registry stays as it was.
    pub fn apply(&mut self, id: u128, event: TaskEvent<R>, now: i64) -> (r: AppResult<usize>)
        requires
            old(self).wf(),
        ensures
            final(self).wf(),
            match r {
                Ok(i) => {
                    &&& i < old(self).tasks@.len()
                    &&& old(self).tasks@[i as int].id == id
                    &&& old(self).tasks@[i as int].accepts(event)
                    &&& final(self).tasks@ == with_event(old(self).tasks@, i as int, event, now)
                },
                Err(e) => {
                    &&& final(self).tasks@ == old(self).tasks@
                    &&& if has_id(old(self).tasks@, id) {
                        &&& e is Internal
                        &&& e.message_spec() == Task::<P, R>::refusal(event)
                        &&& none_accepts(old(self).tasks@, id, event)
                    } else {
                        &&& e is NotFound
                        &&& e.message_spec() == "Task is not known"@
                    }
                },
            },
    {
        let i = match self.position(id) {
            Some(i) => i,
            None => {
                return Err(AppError::NotFound(String::from_str("Task is not known")));
            },
        };
        let ghost before = self.tasks@;
        let mut task = self.tasks.remove(i);
        let outcome = task.apply(event, now);
        self.tasks.insert(i, task);
        match outcome {
            Ok(_) => {
                assert(self.tasks@ =~= with_event(before, i as int, event, now));
                Ok(i)
            },
            Err(e) => {
                assert(self.tasks@ =~= before);
                Err(e)
            },
        }
    }

    /// Schedules the task with the given id: it becomes `Running` and gets
    /// its start time. Returns the place of the task. An unknown id is
    /// reported as not found, a task that is no longer `Pending` as a defect.
    pub fn schedule(&mut self, id: u128, now: i64) -> (r: AppResult<usize>)
        requires
            old(self).wf(),
        ensures
            final(self).wf(),
            match r {
                Ok(i) => {
                    &&& i < old(self).tasks@.len()
                    &&& old(self).tasks@[i as int].id == id
                    &&& old(self).tasks@[i as int].status is Pending
                    &&& final(self).tasks@ == with_event(
                        old(self).tasks@,
                        i as int,
                        TaskEvent::Started,
                        now,
                    )
                },
                Err(e) => {
                    &&& final(self).tasks@ == old(self).tasks@
                    &&& if has_id(old(self).tasks@, id) {
                        &&& e is Internal
                        &&& e.message_spec() == "Task was already scheduled"@
                        &&& none_accepts(old(self).tasks@, id, TaskEvent::Started)
                    } else {
                        &&& e is NotFound
                        &&& e.message_spec() == "Task is not known"@
                    }
                },
            },
    {
        self.apply(id, TaskEvent::Started, now)
    }

    /// Rebuilds a registry from the snapshots that storage returned, in
    /// their order. A snapshot that is not well-formed, has not ended, or
    /// repeats an id is left out.
    pub fn restore(snapshots: Vec<Task<P, R>>) -> (r: TaskRegistry<P, R>)
        ensures
            r.wf(),
            r.tasks@ == restored(snapshots@, snapshots@.len()),
    {
        let ghost all = snapshots@;
        let total: usize = snapshots.len();
        let mut rest = snapshots;
        let mut registry: TaskRegistry<P, R> = TaskRegistry::new();
        let mut n: usize = 0;
        while rest.len() > 0
            invariant
                all.len() == total,
                n + rest@.len() == all.len(),
                rest@ =~= all.subrange(n as int, all.len() as int),
                registry.wf(),
                registry.tasks@ == restored(all, n as nat),
            decreases rest@.len(),
        {
            let t = rest.remove(0);
            assert(t == all[n as int]);
            let known = registry.position(t.id);
            if t.is_wf() && t.status.ended() && known.is_none() {
                registry.enter(t);
            }
            n = n + 1;
        }
        registry
    }
}

/// What the stream of snapshots meets while it waits.
pub enum StreamEvent<T> {
    /// The process is shutting down.
    Shutdown,
    /// The bus delivered a snapshot that can be written out.
    Snapshot(T),
    /// The bus delivered a snapshot that could not be written out.
    Unwritable,
    /// The bus is closed, or the subscriber fell behind its buffer.
    Lost,
}

/// What the stream does about an event.
pub enum StreamAction<T> {
    /// Send the snapshot to the subscriber.
    Send(T),
    /// Send nothing and go on waiting.
    Skip,
    /// End the stream.
    Stop,
}

/// The number of events that the bus holds for a slow subscriber.
pub const BUS_CAPACITY: usize = 1000;

/// What the stream does about an event: a snapshot is sent on, one that
/// cannot be written out is passed over, and a shutdown or a lost bus ends
/// the stream.
pub open spec fn action_for<T>(event: StreamEvent<T>) -> StreamAction<T> {
    match event {
        StreamEvent::Shutdown => StreamAction::Stop,
        StreamEvent::Snapshot(t) => StreamAction::Send(t),
        StreamEvent::Unwritable => StreamAction::Skip,
        StreamEvent::Lost => StreamAction::Stop,
    }
}

/// Decides what the stream does about an event.
pub fn stream_step<T>(event: StreamEvent<T>) -> (r: StreamAction<T>)
    ensures
        r == action_for(event),
{
    match event {
        StreamEvent::Shutdown => StreamAction::Stop,
        StreamEvent::Snapshot(t) => StreamAction::Send(t),
        StreamEvent::Unwritable => StreamAction::Skip,
        StreamEvent::Lost => StreamAction::Stop,
    }
}

/// What a subscriber receives of the first `n` events: every snapshot up to
/// the first event that ends the stream.
pub open spec fn live_output<T>(events: Seq<StreamEvent<T>>, n: nat) -> Seq<T>
    decreases n,
{
    if n == 0 || n > events.len() {
        Seq::empty()
    } else if stopped_within(events, (n - 1) as nat) {
        live_output(events, (n - 1) as nat)
    } else {
        match events[n - 1] {
            StreamEvent::Snapshot(t) => live_output(events, (n - 1) as nat).push(t),
            _ => live_output(events, (n - 1) as nat),
        }
    }
}

/// Whether one of the first `n` events ends the stream.
pub open spec fn stopped_within<T>(events: Seq<StreamEvent<T>>, n: nat) -> bool {
    exists|i: int|
        0 <= i < n && i < events.len() && action_for(#[trigger] events[i]) is Stop
}

/// Everything a subscriber receives: first the snapshots of the tasks known
/// when it subscribed, in registry order, then the live snapshots.
pub open spec fn stream_output<T>(initial: Seq<T>, events: Seq<StreamEvent<T>>) -> Seq<T> {
    initial + live_output(events, events.len())
}

/// Plays a stream over a given run of events: the subscriber first gets
/// `initial`, then what the events bring until one of them ends the stream.
pub fn replay_stream<T>(initial: Vec<T>, events: Vec<StreamEvent<T>>) -> (r: Vec<T>)
    ensures
        r@ == stream_output(initial@, events@),
        r@.len() >= initial@.len(),
        r@.subrange(0, initial@.len() as int) == initial@,
{
    let ghost all = events@;
    let ghost first = initial@;
    let total: usize = events.len();
    let mut out = initial;
    let mut rest = events;
    let mut n: usize = 0;
    let mut stopped = false;
    while rest.len() > 0
        invariant
            all.len() == total,
            n + rest@.len() == all.len(),
            rest@ =~= all.subrange(n as int, all.len() as int),
            stopped == stopped_within(all, n as nat),
            out@ == first + live_output(all, n as nat),
        decreases rest@.len(),
    {
        let event = rest.remove(0);
        assert(event == all[n as int]);
        let ghost before = out@;
        if !stopped {
            match stream_step(event) {
                StreamAction::Send(t) => {
                    out.push(t);
                    assert(out@ =~= first + live_output(all, n as nat).push(t));
                },
                StreamAction::Skip => {},
                StreamAction::Stop => {
                    stopped = true;
                },
            }
        }
        n = n + 1;
    }
    assert(out@.subrange(0, first.len() as int) =~= first);
    out
}

} // verus!
