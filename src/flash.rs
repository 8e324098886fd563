//! The tasks of one flashing run: each task's progress and terminal status,
//! the events that background writers send, and the progress fractions and
//! completion that the periodic monitor derives from them.

use vstd::prelude::*;

use crate::catalog::string_views;

verus! {

/// Where a task stands: still writing, or finished one way or the other.
#[derive(Clone, Debug)]
pub enum TaskStatus {
    Running,
    Succeeded,
    Failed(String),
}

/// One device being written: bytes written so far and how the write ended.
#[derive(Clone, Debug)]
pub struct FlashTask {
    pub device: String,
    pub progress: u64,
    pub status: TaskStatus,
}

/// What a background writer sends about the task at an index of the run.
#[derive(Debug)]
pub enum TaskEvent {
    /// The cumulative number of bytes written so far.
    Progress { task: usize, bytes: u64 },
    /// The write has ended: `Ok` on success, `Err` with the reason otherwise.
    Finished { task: usize, outcome: Result<(), String> },
}

/// A progress-bar value as an exact ratio: `done / total`, with
/// `0 < total` and `done <= total`.
#[derive(Clone, Copy, Debug, PartialEq, Eq, Structural)]
pub struct Fraction {
    pub done: u64,
    pub total: u64,
}

/// What a poll sees of one task: bytes written so far, and whether it has finished.
#[derive(Clone, Copy, Debug, PartialEq, Eq, Structural)]
pub struct TaskSnapshot {
    pub progress: u64,
    pub finished: bool,
}

/// What a monitor tick concludes.
#[derive(Clone, Debug)]
pub enum Tick {
    /// Nothing to watch: keep the timer running.
    Idle,
    /// The run goes on: here is each task's bar value; keep the timer running.
    Progress(Vec<Fraction>),
    /// Every task has finished: final bar values; stop the timer.
    Complete(Vec<Fraction>),
}

/// The tasks of one run, in the order their devices were selected.
pub struct TaskSupervisor {
    pub tasks: Vec<FlashTask>,
}

/// A task that has not finished.
pub open spec fn is_running(t: FlashTask) -> bool {
    t.status is Running
}

/// Every task has finished, successfully or not.
pub open spec fn all_finished(tasks: Seq<FlashTask>) -> bool {
    forall|i: int| 0 <= i < tasks.len() ==> !is_running(#[trigger] tasks[i])
}

/// The larger of two counts.
pub open spec fn max_u64(a: u64, b: u64) -> u64 {
    if a >= b { a } else { b }
}

/// The task after one event: progress only grows, a terminal status is
/// set once, and a finished task ignores further events.
pub open spec fn task_after(t: FlashTask, e: TaskEvent) -> FlashTask {
    if !is_running(t) {
        t
    } else {
        match e {
            TaskEvent::Progress { bytes, .. } => FlashTask {
                progress: max_u64(t.progress, bytes),
                ..t
            },
            TaskEvent::Finished { outcome, .. } => FlashTask {
                status: match outcome {
                    Ok(_) => TaskStatus::Succeeded,
                    Err(reason) => TaskStatus::Failed(reason),
                },
                ..t
            },
        }
    }
}

/// The index of the task that an event is about.
pub open spec fn event_task(e: TaskEvent) -> int {
    match e {
        TaskEvent::Progress { task, .. } => task as int,
        TaskEvent::Finished { task, .. } => task as int,
    }
}

/// The run after one event; a event about no task of the run changes nothing.
pub open spec fn tasks_after(tasks: Seq<FlashTask>, e: TaskEvent) -> Seq<FlashTask> {
    if 0 <= event_task(e) < tasks.len() {
        tasks.update(event_task(e), task_after(tasks[event_task(e)], e))
    } else {
        tasks
    }
}

/// The run after a sequence of events, in order.
pub open spec fn tasks_after_all(tasks: Seq<FlashTask>, events: Seq<TaskEvent>) -> Seq<FlashTask>
    decreases events.len(),
{
    if events.len() == 0 {
        tasks
    } else {
        tasks_after(tasks_after_all(tasks, events.drop_last()), events.last())
    }
}

/// The bar value of a task: full once it has finished, whether it succeeded
/// or failed; otherwise bytes written over image length, capped at full. An
/// empty image counts as one byte long.
pub open spec fn fraction_of(t: FlashTask, image_len: u64) -> Fraction {
    let total = if image_len == 0 { 1u64 } else { image_len };
    if !is_running(t) {
        Fraction { done: total, total }
    } else if t.progress >= total {
        Fraction { done: total, total }
    } else {
        Fraction { done: t.progress, total }
    }
}

/// The bar value of each task, in task order.
pub open spec fn fractions_of(tasks: Seq<FlashTask>, image_len: u64) -> Seq<Fraction> {
    Seq::new(tasks.len(), |i: int| fraction_of(tasks[i], image_len))
}

/// What a poll sees of each task, in task order.
pub open spec fn snapshots_of(tasks: Seq<FlashTask>) -> Seq<TaskSnapshot> {
    Seq::new(
        tasks.len(),
        |i: int| TaskSnapshot { progress: tasks[i].progress, finished: !is_running(tasks[i]) },
    )
}

/// A fresh task for each device, in order: nothing written, still running.
pub open spec fn fresh_tasks(devices: Seq<Seq<char>>) -> Seq<(Seq<char>, u64, TaskStatus)> {
    Seq::new(devices.len(), |i: int| (devices[i], 0u64, TaskStatus::Running))
}

/// Each task's device, progress and status.
pub open spec fn task_views(tasks: Seq<FlashTask>) -> Seq<(Seq<char>, u64, TaskStatus)> {
    Seq::new(tasks.len(), |i: int| (tasks[i].device@, tasks[i].progress, tasks[i].status))
}

proof fn lemma_one_event(tasks: Seq<FlashTask>, e: TaskEvent)
    ensures
        tasks_after(tasks, e).len() == tasks.len(),
        forall|k: int|
            0 <= k < tasks.len() ==> tasks[k].progress <= #[trigger] tasks_after(
                tasks,
                e,
            )[k].progress,
        forall|k: int|
            0 <= k < tasks.len() && !is_running(tasks[k]) ==> #[trigger] tasks_after(tasks, e)[k]
                == tasks[k],
{
}

proof fn lemma_events_prefix(tasks: Seq<FlashTask>, events: Seq<TaskEvent>, i: int, j: int)
    requires
        0 <= i <= j <= events.len(),
    ensures
        tasks_after_all(tasks, events.take(j)).len() == tasks.len(),
        forall|k: int|
            0 <= k < tasks.len() ==> tasks_after_all(tasks, events.take(i))[k].progress
                <= #[trigger] tasks_after_all(tasks, events.take(j))[k].progress,
        forall|k: int|
            0 <= k < tasks.len() && !is_running(tasks_after_all(tasks, events.take(i))[k])
                ==> #[trigger] tasks_after_all(tasks, events.take(j))[k] == tasks_after_all(
                tasks,
                events.take(i),
            )[k],
    decreases j,
{
    if j == 0 {
        assert(events.take(0) =~= Seq::<TaskEvent>::empty());
    } else {
        if i == j {
            lemma_events_prefix(tasks, events, j - 1, j - 1);
        } else {
            lemma_events_prefix(tasks, events, i, j - 1);
        }
        assert(events.take(j).drop_last() =~= events.take(j - 1));
        lemma_one_event(tasks_after_all(tasks, events.take(j - 1)), events[j - 1]);
    }
}

/// Progress never goes back: over any sequence of events, the progress
/// that the run shows for a task after the first `i` events is at most what
/// it shows after the first `j >= i`; and a task that has reached a terminal
/// status keeps it, progress included.
pub proof fn lemma_progress_monotone(
    tasks: Seq<FlashTask>,
    events: Seq<TaskEvent>,
    i: int,
    j: int,
    k: int,
)
    requires
        0 <= i <= j <= events.len(),
        0 <= k < tasks.len(),
    ensures
        tasks_after_all(tasks, events.take(i))[k].progress <= tasks_after_all(
            tasks,
            events.take(j),
        )[k].progress,
        !is_running(tasks_after_all(tasks, events.take(i))[k]) ==> tasks_after_all(
            tasks,
            events.take(j),
        )[k] == tasks_after_all(tasks, events.take(i))[k],
{
    lemma_events_prefix(tasks, events, i, j);
}

/// A run is complete exactly when no task is running: one running task
/// among any number keeps it incomplete.
pub proof fn lemma_running_task_blocks_completion(tasks: Seq<FlashTask>, k: int)
    requires
        0 <= k < tasks.len(),
        is_running(tasks[k]),
    ensures
        !all_finished(tasks),
{
}

impl Fraction {
    /// A well-formed ratio between zero and one.
    pub open spec fn wf(&self) -> bool {
        0 < self.total && self.done <= self.total
    }

    /// Whether the bar is full.
    pub fn is_full(&self) -> (r: bool)
        ensures
            r == (self.done == self.total),
    {
        self.done == self.total
    }
}

impl FlashTask {
    /// A task for `device` that has written nothing and is still running.
    pub fn new(device: String) -> (r: FlashTask)
        ensures
            r.device@ == device@,
            r.progress == 0,
            r.status is Running,
    {
        FlashTask { device, progress: 0, status: TaskStatus::Running }
    }

    /// Whether the task has reached a terminal status.
    pub fn is_finished(&self) -> (r: bool)
        ensures
            r == !is_running(*self),
    {
        match self.status {
            TaskStatus::Running => false,
            _ => true,
        }
    }

    /// Applies one event to a task of the run, given as `self`.
    pub fn apply(&mut self, event: TaskEvent)
        ensures
            *final(self) == task_after(*old(self), event),
    {
        if self.is_finished() {
            return;
        }
        match event {
            TaskEvent::Progress { bytes, .. } => {
                if bytes > self.progress {
                    self.progress = bytes;
                }
            },
            TaskEvent::Finished { outcome, .. } => {
                self.status = match outcome {
                    Ok(_) => TaskStatus::Succeeded,
                    Err(reason) => TaskStatus::Failed(reason),
                };
            },
        }
    }

    /// The task's bar value for an image of `image_len` bytes.
    pub fn fraction(&self, image_len: u64) -> (r: Fraction)
        ensures
            r == fraction_of(*self, image_len),
            r.wf(),
    {
        let total: u64 = if image_len == 0 { 1 } else { image_len };
        if self.is_finished() || self.progress >= total {
            Fraction { done: total, total }
        } else {
            Fraction { done: self.progress, total }
        }
    }
}

impl TaskSupervisor {
    /// A supervisor with no run.
    pub fn new() -> (r: TaskSupervisor)
        ensures
            r.tasks@.len() == 0,
    {
        TaskSupervisor { tasks: Vec::new() }
    }

    /// Whether a run is under way: some task has not finished.
    pub fn has_unfinished(&self) -> (r: bool)
        ensures
            r == !all_finished(self.tasks@),
    {
        !self.is_complete()
    }

    /// Replaces the finished run, if any, by a fresh task for each device, in
    /// order. While a task of the current run is unfinished, refuses and
    /// changes nothing. Returns whether the new run was started.
    pub fn start(&mut self, devices: Vec<String>) -> (r: bool)
        ensures
            r == all_finished(old(self).tasks@),
            r ==> task_views(final(self).tasks@) == fresh_tasks(string_views(devices@)),
            !r ==> *final(self) == *old(self),
    {
        if self.has_unfinished() {
            return false;
        }
        let ghost dv = string_views(devices@);
        let mut tasks: Vec<FlashTask> = Vec::new();
        let mut i: usize = 0;
        while i < devices.len()
            invariant
                i <= devices@.len(),
                dv == string_views(devices@),
                tasks@.len() == i,
                forall|k: int|
                    0 <= k < i ==> #[trigger] tasks@[k].device@ == dv[k] && tasks@[k].progress
                        == 0 && tasks@[k].status is Running,
            decreases devices@.len() - i,
        {
            let device = devices[i].clone();
            let ghost before = tasks@;
            tasks.push(FlashTask::new(device));
            assert forall|k: int| 0 <= k < i + 1 implies #[trigger] tasks@[k].device@ == dv[k]
                && tasks@[k].progress == 0 && tasks@[k].status is Running by {
                if k < i {
                    assert(tasks@[k] == before[k]);
                }
            }
            i = i + 1;
        }
        assert(task_views(tasks@) =~= fresh_tasks(dv));
        self.tasks = tasks;
        true
    }

    /// Applies one event; a event about no task of the run changes nothing.
    pub fn apply(&mut self, event: TaskEvent)
        ensures
            final(self).tasks@ == tasks_after(old(self).tasks@, event),
    {
        let index = match &event {
            TaskEvent::Progress { task, .. } => *task,
            TaskEvent::Finished { task, .. } => *task,
        };
        if index < self.tasks.len() {
            let mut t = self.tasks[index].clone_task();
            t.apply(event);
            self.tasks.set(index, t);
        }
    }

    /// Applies events in order.
    pub fn apply_all(&mut self, events: Vec<TaskEvent>)
        ensures
            final(self).tasks@ == tasks_after_all(old(self).tasks@, events@),
    {
        let mut i: usize = 0;
        while i < events.len()
            invariant
                i <= events@.len(),
                self.tasks@ == tasks_after_all(old(self).tasks@, events@.take(i as int)),
            decreases events@.len() - i,
        {
            assert(events@.take(i as int + 1).drop_last() =~= events@.take(i as int));
            let e = events[i].clone_event();
            self.apply(e);
            i = i + 1;
        }
        assert(events@.take(events@.len() as int) =~= events@);
    }

    /// Each task's progress and whether it has finished, in task order.
    pub fn snapshot(&self) -> (r: Vec<TaskSnapshot>)
        ensures
            r@ == snapshots_of(self.tasks@),
    {
        let mut r: Vec<TaskSnapshot> = Vec::new();
        let mut i: usize = 0;
        while i < self.tasks.len()
            invariant
                i <= self.tasks@.len(),
                r@ == snapshots_of(self.tasks@.take(i as int)),
            decreases self.tasks@.len() - i,
        {
            let t = &self.tasks[i];
            r.push(TaskSnapshot { progress: t.progress, finished: t.is_finished() });
            assert(r@ =~= snapshots_of(self.tasks@.take(i as int + 1)));
            i = i + 1;
        }
        assert(self.tasks@.take(self.tasks@.len() as int) =~= self.tasks@);
        r
    }

    /// Whether every task has finished.
    pub fn is_complete(&self) -> (r: bool)
        ensures
            r == all_finished(self.tasks@),
    {
        let mut i: usize = 0;
        while i < self.tasks.len()
            invariant
                i <= self.tasks@.len(),
                forall|k: int| 0 <= k < i ==> !is_running(#[trigger] self.tasks@[k]),
            decreases self.tasks@.len() - i,
        {
            if !self.tasks[i].is_finished() {
                return false;
            }
            i = i + 1;
        }
        true
    }

    /// Each task's bar value for an image of `image_len` bytes, in task order.
    pub fn fractions(&self, image_len: u64) -> (r: Vec<Fraction>)
        ensures
            r@ == fractions_of(self.tasks@, image_len),
    {
        let mut r: Vec<Fraction> = Vec::new();
        let mut i: usize = 0;
        while i < self.tasks.len()
            invariant
                i <= self.tasks@.len(),
                r@ == fractions_of(self.tasks@.take(i as int), image_len),
            decreases self.tasks@.len() - i,
        {
            r.push(self.tasks[i].fraction(image_len));
            assert(r@ =~= fractions_of(self.tasks@.take(i as int + 1), image_len));
            i = i + 1;
        }
        assert(self.tasks@.take(self.tasks@.len() as int) =~= self.tasks@);
        r
    }

    /// One monitor tick: idle without an image or a run; otherwise each
    /// task's bar value, and whether the run is complete.
    pub fn tick(&self, image_len: Option<u64>) -> (r: Tick)
        ensures
            (image_len is None || self.tasks@.len() == 0) ==> r is Idle,
            image_len is Some && self.tasks@.len() > 0 ==> match r {
                Tick::Idle => false,
                Tick::Progress(v) => !all_finished(self.tasks@) && v@ == fractions_of(
                    self.tasks@,
                    image_len->0,
                ),
                Tick::Complete(v) => all_finished(self.tasks@) && v@ == fractions_of(
                    self.tasks@,
                    image_len->0,
                ),
            },
    {
        match image_len {
            None => Tick::Idle,
            Some(len) => {
                if self.tasks.len() == 0 {
                    Tick::Idle
                } else {
                    let bars = self.fractions(len);
                    if self.is_complete() {
                        Tick::Complete(bars)
                    } else {
                        Tick::Progress(bars)
                    }
                }
            },
        }
    }
}

impl FlashTask {
    /// A copy of the task.
    pub fn clone_task(&self) -> (r: FlashTask)
        ensures
            r == *self,
    {
        FlashTask {
            device: self.device.clone(),
            progress: self.progress,
            status: match &self.status {
                TaskStatus::Running => TaskStatus::Running,
                TaskStatus::Succeeded => TaskStatus::Succeeded,
                TaskStatus::Failed(reason) => TaskStatus::Failed(reason.clone()),
            },
        }
    }
}

impl TaskEvent {
    /// A copy of the event.
    pub fn clone_event(&self) -> (r: TaskEvent)
        ensures
            r == *self,
    {
        match self {
            TaskEvent::Progress { task, bytes } => {
                TaskEvent::Progress { task: *task, bytes: *bytes }
            },
            TaskEvent::Finished { task, outcome } => {
                let outcome: Result<(), String> = match outcome {
                    Ok(u) => Ok(*u),
                    Err(reason) => Err(reason.clone()),
                };
                TaskEvent::Finished { task: *task, outcome }
            },
        }
    }
}

} // verus!
