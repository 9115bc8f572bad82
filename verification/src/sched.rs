//! The executor's scheduling state machine: the task lifecycle and the
//! shared FIFO queue of runnables.
//!
//! A spawned task is Scheduled (its runnable sits in the queue), Running (a
//! worker took it), Suspended (awaiting a wake), Completed, or Cancelled —
//! the one other way a task stops, entered when a non-detached handle is
//! dropped before completion. The invariant `wf` ties tasks and queue
//! together: the queue holds exactly the scheduled tasks, each at most once
//! — so a runnable, once enqueued, is taken and run by exactly one worker,
//! and none is silently lost. The worker loop in the surrounding program is
//! one `take_next`, a run of the task, and a `finish` (or, for a task whose
//! cancellation was requested, a `finish_cancelled`); a wake callback is one
//! `wake`; dropping a non-detached handle is one `cancel`.

use vstd::prelude::*;

verus! {

/// Where a task stands in its lifecycle.
#[derive(Clone, Copy, Debug, PartialEq, Eq, Structural)]
pub enum TaskState {
    /// Its runnable sits in the queue awaiting a worker.
    Scheduled,
    /// A worker took its runnable and is running it.
    Running,
    /// It yielded and awaits its next wake.
    Suspended,
    /// It ran to completion.
    Completed,
    /// It was stopped by its handle being dropped before completion.
    Cancelled,
}

/// One spawned task: its lifecycle state, whether its handle was detached —
/// detaching disclaims the result but never stops the task — and whether
/// cancellation was requested, for the worker holding its runnable to honour.
#[derive(Clone, Copy, Debug, PartialEq, Eq, Structural)]
pub struct TaskRecord {
    pub state: TaskState,
    pub detached: bool,
    pub cancel_requested: bool,
}

/// What `finish` does to the task records: the running task becomes
/// Completed or, if it yielded, Suspended; nothing else changes, and its
/// detached flag in particular is carried along untouched.
pub open spec fn spec_finish(tasks: Seq<TaskRecord>, id: int, completed: bool) -> Seq<TaskRecord> {
    tasks.update(
        id,
        TaskRecord {
            state: if completed {
                TaskState::Completed
            } else {
                TaskState::Suspended
            },
            detached: tasks[id].detached,
            cancel_requested: tasks[id].cancel_requested,
        },
    )
}

/// What `detach` does to the task records: one flag is set; no task's
/// lifecycle state moves.
pub open spec fn spec_detach(tasks: Seq<TaskRecord>, id: int) -> Seq<TaskRecord> {
    tasks.update(
        id,
        TaskRecord {
            state: tasks[id].state,
            detached: true,
            cancel_requested: tasks[id].cancel_requested,
        },
    )
}

/// What `cancel` does to the task records: the request is recorded; a
/// Suspended task — nothing holds its runnable — stops at once as
/// Cancelled, while any other task keeps its state, since its runnable, if
/// any, is still owed to exactly one worker.
pub open spec fn spec_cancel(tasks: Seq<TaskRecord>, id: int) -> Seq<TaskRecord> {
    tasks.update(
        id,
        TaskRecord {
            state: if tasks[id].state is Suspended {
                TaskState::Cancelled
            } else {
                tasks[id].state
            },
            detached: tasks[id].detached,
            cancel_requested: true,
        },
    )
}

/// The scheduler: all spawned tasks, and the FIFO queue of runnable ones.
pub struct Scheduler {
    tasks: Vec<TaskRecord>,
    queue: Vec<usize>,
}

impl Scheduler {
    /// Every task spawned so far, by id.
    pub closed spec fn spec_tasks(&self) -> Seq<TaskRecord> {
        self.tasks@
    }

    /// The queue of runnables, front first, as task ids.
    pub closed spec fn spec_queue(&self) -> Seq<usize> {
        self.queue@
    }

    /// Queued ids name spawned tasks, and each queued task is Scheduled.
    pub open spec fn queue_sound(&self) -> bool {
        forall|i: int|
            0 <= i < self.spec_queue().len() ==> (#[trigger] self.spec_queue()[i])
                < self.spec_tasks().len() && self.spec_tasks()[self.spec_queue()[i] as int].state
                is Scheduled
    }

    /// No runnable sits in the queue twice.
    pub open spec fn queue_unique(&self) -> bool {
        forall|i: int, j: int|
            0 <= i < self.spec_queue().len() && 0 <= j < self.spec_queue().len() && i != j
                ==> self.spec_queue()[i] != self.spec_queue()[j]
    }

    /// Every Scheduled task has its runnable in the queue: an enqueued
    /// runnable is never silently lost.
    pub open spec fn scheduled_queued(&self) -> bool {
        forall|t: int|
            0 <= t < self.spec_tasks().len() && (#[trigger] self.spec_tasks()[t]).state
                is Scheduled ==> exists|i: int|
                0 <= i < self.spec_queue().len() && self.spec_queue()[i] as int == t
    }

    /// The scheduler's invariant: established by `new`, preserved by every
    /// operation.
    pub open spec fn wf(&self) -> bool {
        self.queue_sound() && self.queue_unique() && self.scheduled_queued()
    }

    /// A scheduler with no tasks and an empty queue.
    pub fn new() -> (r: Scheduler)
        ensures
            r.wf(),
            r.spec_tasks() =~= Seq::<TaskRecord>::empty(),
            r.spec_queue() =~= Seq::<usize>::empty(),
    {
        Scheduler { tasks: Vec::new(), queue: Vec::new() }
    }

    /// Spawns a task: records it as Scheduled and enqueues its initial
    /// runnable at the tail. Returns the new task's id.
    pub fn spawn(&mut self) -> (id: usize)
        requires
            old(self).wf(),
        ensures
            final(self).wf(),
            id == old(self).spec_tasks().len(),
            final(self).spec_tasks() =~= old(self).spec_tasks().push(
                TaskRecord { state: TaskState::Scheduled, detached: false, cancel_requested: false },
            ),
            final(self).spec_queue() =~= old(self).spec_queue().push(id),
    {
        let id = self.tasks.len();
        self.tasks.push(
            TaskRecord { state: TaskState::Scheduled, detached: false, cancel_requested: false },
        );
        self.queue.push(id);
        proof {
            assert forall|t: int|
                0 <= t < self.spec_tasks().len() && (#[trigger] self.spec_tasks()[t]).state
                    is Scheduled implies exists|i: int|
                0 <= i < self.spec_queue().len() && self.spec_queue()[i] as int == t by {
                if t < old(self).spec_tasks().len() {
                    assert(old(self).spec_tasks()[t].state is Scheduled);
                    let i = choose|i: int|
                        0 <= i < old(self).spec_queue().len() && old(self).spec_queue()[i] as int
                            == t;
                    assert(self.spec_queue()[i] as int == t);
                } else {
                    assert(self.spec_queue()[old(self).spec_queue().len() as int] as int == t);
                }
            }
        }
        id
    }

    /// A worker takes the next runnable: dequeues the front task id and
    /// marks that task Running. Exactly one caller obtains each queued
    /// runnable; with an empty queue nothing changes and none is handed out.
    pub fn take_next(&mut self) -> (r: Option<usize>)
        requires
            old(self).wf(),
        ensures
            final(self).wf(),
            old(self).spec_queue().len() == 0 ==> r is None && *final(self) == *old(self),
            old(self).spec_queue().len() > 0 ==> (r matches Some(id)
                && id == old(self).spec_queue()[0]
                && final(self).spec_queue() =~= old(self).spec_queue().drop_first()
                && final(self).spec_tasks() =~= old(self).spec_tasks().update(
                id as int,
                TaskRecord {
                    state: TaskState::Running,
                    detached: old(self).spec_tasks()[id as int].detached,
                    cancel_requested: old(self).spec_tasks()[id as int].cancel_requested,
                },
            )),
    {
        if self.queue.len() == 0 {
            return None;
        }
        let id = self.queue.remove(0);
        proof {
            assert(old(self).spec_queue()[0] < old(self).spec_tasks().len());
        }
        let rec = self.tasks[id];
        self.tasks[id] = TaskRecord {
            state: TaskState::Running,
            detached: rec.detached,
            cancel_requested: rec.cancel_requested,
        };
        proof {
            assert forall|t: int|
                0 <= t < self.spec_tasks().len() && (#[trigger] self.spec_tasks()[t]).state
                    is Scheduled implies exists|i: int|
                0 <= i < self.spec_queue().len() && self.spec_queue()[i] as int == t by {
                assert(t != id as int);
                assert(old(self).spec_tasks()[t].state is Scheduled);
                let i = choose|i: int|
                    0 <= i < old(self).spec_queue().len() && old(self).spec_queue()[i] as int == t;
                assert(i != 0);
                assert(self.spec_queue()[i - 1] as int == t);
            }
        }
        Some(id)
    }

    /// A worker finishes one run of a task: the task either completed or
    /// yielded into Suspended. Its detached flag plays no part: a detached
    /// task is finished exactly as an attached one.
    pub fn finish(&mut self, id: usize, completed: bool)
        requires
            old(self).wf(),
            id < old(self).spec_tasks().len(),
            old(self).spec_tasks()[id as int].state is Running,
        ensures
            final(self).wf(),
            final(self).spec_queue() == old(self).spec_queue(),
            final(self).spec_tasks() =~= spec_finish(old(self).spec_tasks(), id as int, completed),
    {
        let rec = self.tasks[id];
        let state = if completed {
            TaskState::Completed
        } else {
            TaskState::Suspended
        };
        self.tasks[id] = TaskRecord {
            state,
            detached: rec.detached,
            cancel_requested: rec.cancel_requested,
        };
        proof {
            assert forall|t: int|
                0 <= t < self.spec_tasks().len() && (#[trigger] self.spec_tasks()[t]).state
                    is Scheduled implies exists|i: int|
                0 <= i < self.spec_queue().len() && self.spec_queue()[i] as int == t by {
                assert(old(self).spec_tasks()[t].state is Scheduled);
                let i = choose|i: int|
                    0 <= i < old(self).spec_queue().len() && old(self).spec_queue()[i] as int == t;
                assert(self.spec_queue()[i] as int == t);
            }
        }
    }

    /// A wake callback fires for a task: a Suspended task transitions back
    /// to Scheduled — exactly once per wake — and its runnable is re-created
    /// at the queue's tail. Waking a task in any other state is a no-op, so
    /// a callback that was already consumed cannot double-schedule.
    pub fn wake(&mut self, id: usize) -> (woke: bool)
        requires
            old(self).wf(),
            id < old(self).spec_tasks().len(),
        ensures
            final(self).wf(),
            woke == old(self).spec_tasks()[id as int].state is Suspended,
            woke ==> final(self).spec_tasks() =~= old(self).spec_tasks().update(
                id as int,
                TaskRecord {
                    state: TaskState::Scheduled,
                    detached: old(self).spec_tasks()[id as int].detached,
                    cancel_requested: old(self).spec_tasks()[id as int].cancel_requested,
                },
            ) && final(self).spec_queue() =~= old(self).spec_queue().push(id),
            !woke ==> *final(self) == *old(self),
    {
        let suspended = match self.tasks[id].state {
            TaskState::Suspended => true,
            _ => false,
        };
        if !suspended {
            return false;
        }
        let rec = self.tasks[id];
        self.tasks[id] = TaskRecord {
            state: TaskState::Scheduled,
            detached: rec.detached,
            cancel_requested: rec.cancel_requested,
        };
        self.queue.push(id);
        proof {
            assert forall|t: int|
                0 <= t < self.spec_tasks().len() && (#[trigger] self.spec_tasks()[t]).state
                    is Scheduled implies exists|i: int|
                0 <= i < self.spec_queue().len() && self.spec_queue()[i] as int == t by {
                if t == id as int {
                    assert(self.spec_queue()[old(self).spec_queue().len() as int] as int == t);
                } else {
                    assert(old(self).spec_tasks()[t].state is Scheduled);
                    let i = choose|i: int|
                        0 <= i < old(self).spec_queue().len() && old(self).spec_queue()[i] as int
                            == t;
                    assert(self.spec_queue()[i] as int == t);
                }
            }
        }
        true
    }

    /// Detaches a task's handle: the result is disclaimed, but no task's
    /// lifecycle state moves and the queue is untouched — the task still
    /// runs to completion.
    pub fn detach(&mut self, id: usize)
        requires
            old(self).wf(),
            id < old(self).spec_tasks().len(),
        ensures
            final(self).wf(),
            final(self).spec_queue() == old(self).spec_queue(),
            final(self).spec_tasks() =~= spec_detach(old(self).spec_tasks(), id as int),
            final(self).spec_tasks()[id as int].state == old(self).spec_tasks()[id as int].state,
    {
        let rec = self.tasks[id];
        self.tasks[id] = TaskRecord {
            state: rec.state,
            detached: true,
            cancel_requested: rec.cancel_requested,
        };
        proof {
            assert forall|t: int|
                0 <= t < self.spec_tasks().len() && (#[trigger] self.spec_tasks()[t]).state
                    is Scheduled implies exists|i: int|
                0 <= i < self.spec_queue().len() && self.spec_queue()[i] as int == t by {
                assert(old(self).spec_tasks()[t].state is Scheduled);
                let i = choose|i: int|
                    0 <= i < old(self).spec_queue().len() && old(self).spec_queue()[i] as int == t;
                assert(self.spec_queue()[i] as int == t);
            }
        }
    }

    /// A non-detached handle is dropped before its task completes:
    /// cancellation is requested. A Suspended task stops here and now —
    /// nothing holds its runnable, and it can never be woken again, since
    /// waking acts only on Suspended tasks. A Scheduled or Running task
    /// keeps its state: its runnable is still owed to exactly one worker,
    /// which honours the request with `finish_cancelled`. A finished task
    /// is beyond stopping. Returns whether the task stopped at once.
    pub fn cancel(&mut self, id: usize) -> (stopped: bool)
        requires
            old(self).wf(),
            id < old(self).spec_tasks().len(),
        ensures
            final(self).wf(),
            final(self).spec_queue() == old(self).spec_queue(),
            final(self).spec_tasks() =~= spec_cancel(old(self).spec_tasks(), id as int),
            stopped == old(self).spec_tasks()[id as int].state is Suspended,
    {
        let rec = self.tasks[id];
        let stopped = match rec.state {
            TaskState::Suspended => true,
            _ => false,
        };
        let state = if stopped {
            TaskState::Cancelled
        } else {
            rec.state
        };
        self.tasks[id] = TaskRecord { state, detached: rec.detached, cancel_requested: true };
        proof {
            assert forall|t: int|
                0 <= t < self.spec_tasks().len() && (#[trigger] self.spec_tasks()[t]).state
                    is Scheduled implies exists|i: int|
                0 <= i < self.spec_queue().len() && self.spec_queue()[i] as int == t by {
                assert(old(self).spec_tasks()[t].state is Scheduled);
                let i = choose|i: int|
                    0 <= i < old(self).spec_queue().len() && old(self).spec_queue()[i] as int == t;
                assert(self.spec_queue()[i] as int == t);
            }
        }
        stopped
    }

    /// The worker that took a runnable finds its task's cancellation was
    /// requested: the computation is dropped without being polled further
    /// and the task stops as Cancelled.
    pub fn finish_cancelled(&mut self, id: usize)
        requires
            old(self).wf(),
            id < old(self).spec_tasks().len(),
            old(self).spec_tasks()[id as int].state is Running,
            old(self).spec_tasks()[id as int].cancel_requested,
        ensures
            final(self).wf(),
            final(self).spec_queue() == old(self).spec_queue(),
            final(self).spec_tasks() =~= old(self).spec_tasks().update(
                id as int,
                TaskRecord {
                    state: TaskState::Cancelled,
                    detached: old(self).spec_tasks()[id as int].detached,
                    cancel_requested: true,
                },
            ),
    {
        let rec = self.tasks[id];
        self.tasks[id] = TaskRecord {
            state: TaskState::Cancelled,
            detached: rec.detached,
            cancel_requested: true,
        };
        proof {
            assert forall|t: int|
                0 <= t < self.spec_tasks().len() && (#[trigger] self.spec_tasks()[t]).state
                    is Scheduled implies exists|i: int|
                0 <= i < self.spec_queue().len() && self.spec_queue()[i] as int == t by {
                assert(old(self).spec_tasks()[t].state is Scheduled);
                let i = choose|i: int|
                    0 <= i < old(self).spec_queue().len() && old(self).spec_queue()[i] as int == t;
                assert(self.spec_queue()[i] as int == t);
            }
        }
    }

    /// How many tasks have been spawned.
    pub fn task_count(&self) -> (n: usize)
        ensures
            n == self.spec_tasks().len(),
    {
        self.tasks.len()
    }

    /// How many runnables sit in the queue.
    pub fn queue_len(&self) -> (n: usize)
        ensures
            n == self.spec_queue().len(),
    {
        self.queue.len()
    }

    /// The lifecycle state of one task.
    pub fn state_of(&self, id: usize) -> (s: TaskState)
        requires
            id < self.spec_tasks().len(),
        ensures
            s == self.spec_tasks()[id as int].state,
    {
        self.tasks[id].state
    }

    /// Whether one task's handle was detached.
    pub fn is_detached(&self, id: usize) -> (d: bool)
        requires
            id < self.spec_tasks().len(),
        ensures
            d == self.spec_tasks()[id as int].detached,
    {
        self.tasks[id].detached
    }

    /// Whether cancellation was requested for one task.
    pub fn is_cancel_requested(&self, id: usize) -> (c: bool)
        requires
            id < self.spec_tasks().len(),
        ensures
            c == self.spec_tasks()[id as int].cancel_requested,
    {
        self.tasks[id].cancel_requested
    }
}

/// Mutual exclusion of runnables: under the invariant no runnable sits in
/// the queue twice, and `take_next` removes the one it hands out, so no two
/// workers ever hold — let alone run — the same runnable at the same time.
pub proof fn lemma_runnable_never_queued_twice(s: Scheduler, i: int, j: int)
    requires
        s.wf(),
        0 <= i < s.spec_queue().len(),
        0 <= j < s.spec_queue().len(),
        i != j,
    ensures
        s.spec_queue()[i] != s.spec_queue()[j],
{
}

/// No lost wakeups: once the queue is drained and no task is suspended,
/// mid-run or stopped by cancellation, every spawned task has completed. A
/// task that increments a counter once when run therefore contributes
/// exactly once — none is lost from the queue and none runs twice.
pub proof fn lemma_drained_queue_all_completed(s: Scheduler)
    requires
        s.wf(),
        s.spec_queue().len() == 0,
        forall|t: int|
            0 <= t < s.spec_tasks().len() ==> !((#[trigger] s.spec_tasks()[t]).state is Suspended)
                && !(s.spec_tasks()[t].state is Running) && !(s.spec_tasks()[t].state
                is Cancelled),
    ensures
        forall|t: int|
            0 <= t < s.spec_tasks().len() ==> (#[trigger] s.spec_tasks()[t]).state is Completed,
{
    assert forall|t: int|
        0 <= t < s.spec_tasks().len() implies (#[trigger] s.spec_tasks()[t]).state
        is Completed by {
        if s.spec_tasks()[t].state is Scheduled {
            let i = choose|i: int|
                0 <= i < s.spec_queue().len() && s.spec_queue()[i] as int == t;
            assert(false);
        }
    }
}

/// Detach semantics: detaching a task and then finishing its run completes
/// it exactly as finishing an attached task would — every task's lifecycle
/// state comes out the same, so the detached task's side effects still
/// happen.
pub proof fn lemma_detached_task_still_completes(tasks: Seq<TaskRecord>, id: int, completed: bool)
    requires
        0 <= id < tasks.len(),
    ensures
        forall|t: int|
            0 <= t < tasks.len() ==> (#[trigger] spec_finish(
                spec_detach(tasks, id),
                id,
                completed,
            )[t]).state == spec_finish(tasks, id, completed)[t].state,
        completed ==> spec_finish(spec_detach(tasks, id), id, completed)[id].state
            is Completed,
{
}

} // verus!
