//! The modelled machine: the task table with the current-task handle, the
//! traced address space, the console byte sink, and the microsecond time
//! source.
//!
//! The scheduler's run queue and its fairness policy are outside the
//! core's contract; the model keeps only what the syscalls observe: which
//! tasks are runnable, which one is current, and that a hand-off always
//! lands on a runnable task when one exists.

use vstd::prelude::*;
use crate::counts::SyscallCountTable;
use crate::memory::AddressSpace;

verus! {

/// Whether a task may still be scheduled.
#[derive(Clone, Copy, Debug, PartialEq, Eq, Structural)]
pub enum TaskStatus {
    /// Runnable: the scheduler may hand the hart to it.
    Ready,
    /// Retired by `exit`; never scheduled again.
    Exited,
}

/// One task's control state, as far as this core reads it: whether the
/// task is runnable, and its syscall-invocation counts, owned by the task
/// alone.
pub struct Task {
    pub status: TaskStatus,
    pub syscall_counts: SyscallCountTable,
}

impl Task {
    /// A freshly created, runnable task with a zero-initialized table.
    pub fn new() -> (t: Self)
        ensures
            t.status is Ready,
            t.syscall_counts.wf(),
            t.syscall_counts@ == crate::counts::spec_zero_counts(),
    {
        Task { status: TaskStatus::Ready, syscall_counts: SyscallCountTable::new() }
    }
}

/// The machine state the syscall core runs against.
pub struct Kernel {
    /// All tasks ever created, indexed by task id.
    pub tasks: Vec<Task>,
    /// The task now holding the hart, if any.
    pub current: Option<usize>,
    /// The address space peek/poke and the console read through.
    pub mem: AddressSpace,
    /// Microseconds since boot, as the time source reports them.
    pub clock_us: usize,
    /// Every byte written to the console file descriptor, in order.
    pub console: Vec<u8>,
}

/// A mutable borrow of one task in the table, for in-place control-block
/// updates; every other entry stays as it was.
pub fn task_mut(tasks: &mut Vec<Task>, i: usize) -> (task: &mut Task)
    requires
        i < old(tasks).len(),
    ensures
        *task == old(tasks)@[i as int],
        final(tasks)@ == old(tasks)@.update(i as int, *final(task)),
{
    &mut tasks[i]
}

impl Kernel {
    /// The syscall counts of task `t`.
    pub open spec fn spec_counts_of(&self, t: int) -> Seq<u64> {
        self.tasks@[t].syscall_counts@
    }

    /// Well-formed: every task owns a well-formed table, and the current
    /// handle, when set, points at a runnable task.
    pub open spec fn wf(&self) -> bool {
        &&& forall|t: int| 0 <= t < self.tasks@.len() ==> (#[trigger] self.tasks@[t]).syscall_counts.wf()
        &&& match self.current {
            Some(c) => c < self.tasks@.len() && self.tasks@[c as int].status is Ready,
            None => true,
        }
    }

    /// The parts of the state no scheduling operation touches: memory,
    /// clock, console, and every task's counts.
    pub open spec fn sched_frame(pre: &Kernel, post: &Kernel) -> bool {
        &&& post.tasks@.len() == pre.tasks@.len()
        &&& forall|t: int|
            0 <= t < pre.tasks@.len() ==> #[trigger] post.spec_counts_of(t) == pre.spec_counts_of(t)
        &&& post.mem@ == pre.mem@
        &&& post.clock_us == pre.clock_us
        &&& post.console@ == pre.console@
    }

    /// A fresh machine: `n` runnable tasks with zeroed tables, task `0`
    /// current when there is one, nothing written to memory or console,
    /// the clock at boot.
    pub fn new(n: usize) -> (k: Self)
        ensures
            k.wf(),
            k.tasks@.len() == n,
            forall|t: int| 0 <= t < n ==> #[trigger] k.spec_counts_of(t)
                == crate::counts::spec_zero_counts(),
            forall|t: int| 0 <= t < n ==> (#[trigger] k.tasks@[t]).status is Ready,
            k.current == if n > 0 { Some(0usize) } else { Option::<usize>::None },
            k.mem@ == Map::<usize, u8>::empty(),
            k.clock_us == 0,
            k.console@ == Seq::<u8>::empty(),
    {
        let mut tasks: Vec<Task> = Vec::new();
        let mut i: usize = 0;
        while i < n
            invariant
                i <= n,
                tasks@.len() == i,
                forall|t: int| 0 <= t < i ==> (#[trigger] tasks@[t]).syscall_counts.wf(),
                forall|t: int| 0 <= t < i ==> (#[trigger] tasks@[t]).syscall_counts@
                    == crate::counts::spec_zero_counts(),
                forall|t: int| 0 <= t < i ==> (#[trigger] tasks@[t]).status is Ready,
            decreases n - i,
        {
            tasks.push(Task::new());
            i = i + 1;
        }
        let current = if n > 0 {
            Some(0usize)
        } else {
            None
        };
        Kernel {
            tasks,
            current,
            mem: AddressSpace::new(),
            clock_us: 0,
            console: Vec::new(),
        }
    }

    /// The handle of the task currently executing a syscall, `None` when
    /// no task is.
    pub fn current_task(&self) -> (r: Option<usize>)
        ensures
            r == self.current,
    {
        self.current
    }

    /// The time source: microseconds since boot.
    pub fn get_time_us(&self) -> (us: usize)
        ensures
            us == self.clock_us,
    {
        self.clock_us
    }

    /// Let time pass: move the clock forward by `delta` microseconds,
    /// saturating at the top of its range. The clock never goes back.
    pub fn advance_clock(&mut self, delta: usize)
        ensures
            final(self).clock_us == if old(self).clock_us + delta <= usize::MAX {
                (old(self).clock_us + delta) as usize
            } else {
                usize::MAX
            },
            old(self).clock_us <= final(self).clock_us,
            final(self).tasks@ == old(self).tasks@,
            final(self).current == old(self).current,
            final(self).mem@ == old(self).mem@,
            final(self).console@ == old(self).console@,
    {
        if delta <= usize::MAX - self.clock_us {
            self.clock_us = self.clock_us + delta;
        } else {
            self.clock_us = usize::MAX;
        }
    }

    /// Index of the first runnable task, if any.
    fn find_ready(&self) -> (r: Option<usize>)
        ensures
            match r {
                Some(i) => i < self.tasks@.len() && self.tasks@[i as int].status is Ready,
                None => forall|t: int|
                    0 <= t < self.tasks@.len() ==> !((#[trigger] self.tasks@[t]).status is Ready),
            },
    {
        let n = self.tasks.len();
        let mut i: usize = 0;
        while i < n
            invariant
                n == self.tasks@.len(),
                i <= n,
                forall|t: int| 0 <= t < i ==> !((#[trigger] self.tasks@[t]).status is Ready),
            decreases n - i,
        {
            if matches!(self.tasks[i].status, TaskStatus::Ready) {
                return Some(i);
            }
            i = i + 1;
        }
        None
    }

    /// Retire the current task and hand the hart to a runnable task, if
    /// one is left. The retired task is never scheduled again; nothing
    /// else — counts, memory, clock, console — changes. Which runnable
    /// task runs next is the scheduler's own policy, outside this
    /// contract. Without a current task there is nothing to retire and
    /// the state stays as it is.
    pub fn exit_current_and_run_next(&mut self)
        requires
            old(self).wf(),
        ensures
            final(self).wf(),
            Self::sched_frame(old(self), final(self)),
            match old(self).current {
                Some(c) => {
                    &&& final(self).tasks@[c as int].status is Exited
                    &&& forall|t: int|
                        0 <= t < old(self).tasks@.len() && t != c
                            ==> (#[trigger] final(self).tasks@[t]).status
                            == old(self).tasks@[t].status
                    &&& match final(self).current {
                        Some(d) => d < final(self).tasks@.len()
                            && final(self).tasks@[d as int].status is Ready,
                        None => forall|t: int|
                            0 <= t < final(self).tasks@.len()
                                ==> !((#[trigger] final(self).tasks@[t]).status is Ready),
                    }
                },
                None => *final(self) == *old(self),
            },
    {
        match self.current {
            Some(c) => {
                let task = task_mut(&mut self.tasks, c);
                task.status = TaskStatus::Exited;
                self.current = self.find_ready();
            },
            None => {},
        }
    }

    /// Give up the rest of the current task's slot: the task stays
    /// runnable, and the hart goes to a runnable task (possibly the same
    /// one). Which one is the scheduler's own policy, outside this
    /// contract. Nothing else changes. Without a current task the state
    /// stays as it is.
    pub fn suspend_current_and_run_next(&mut self)
        requires
            old(self).wf(),
        ensures
            final(self).wf(),
            Self::sched_frame(old(self), final(self)),
            final(self).tasks@ == old(self).tasks@,
            match old(self).current {
                Some(c) => match final(self).current {
                    Some(d) => d < final(self).tasks@.len()
                        && final(self).tasks@[d as int].status is Ready,
                    None => false,
                },
                None => final(self).current == old(self).current,
            },
    {
        match self.current {
            Some(_) => {
                self.current = self.find_ready();
            },
            None => {},
        }
    }
}

} // verus!
