//! Notifier/waiter decisions for the two kernel backends: a task's notification
//! slot, and a binary semaphore.
use vstd::prelude::*;

verus! {

/// The value a notifier leaves in the waiting task's notification slot.
pub const NOTIFIED: u32 = 1;

/// What a task-notification notifier asks of the kernel.
#[derive(Clone, Copy, Debug, PartialEq, Eq, Structural)]
pub enum TaskNotify {
    /// No task has waited on the pair yet: the signal is dropped.
    Dropped,
    /// Set the task's notification value, from task context.
    SetValue { task: usize, value: u32 },
    /// Overwrite the task's notification value, from an interrupt.
    OverwriteFromIsr { task: usize, value: u32 },
}

/// The kernel request with which a waiting task blocks on its notification slot.
#[derive(Clone, Copy, Debug, PartialEq, Eq, Structural)]
pub struct TaskWait {
    pub task: usize,
    /// Bits cleared in the slot before blocking.
    pub clear_on_entry: u32,
    /// Bits cleared in the slot once a value has been taken.
    pub clear_on_exit: u32,
    pub timeout_ms: u32,
}

/// What a semaphore notifier asks of the kernel.
#[derive(Clone, Copy, Debug, PartialEq, Eq, Structural)]
pub enum SemaphoreGive {
    /// Give the semaphore from task context.
    Give,
    /// Give the semaphore from an interrupt.
    GiveFromIsr,
}

/// The request a task-notification notifier makes, given the bound task.
pub open spec fn notify_spec(task: Option<usize>, in_isr: bool) -> TaskNotify {
    match task {
        None => TaskNotify::Dropped,
        Some(t) => if in_isr {
            TaskNotify::OverwriteFromIsr { task: t, value: NOTIFIED }
        } else {
            TaskNotify::SetValue { task: t, value: NOTIFIED }
        },
    }
}

/// The task a wait blocks as, given the bound task and the calling task; `None`
/// when the wait cannot block.
pub open spec fn wait_task_spec(bound: Option<usize>, current: Option<usize>) -> Option<usize> {
    match bound {
        None => current,
        Some(b) => match current {
            Some(c) => if c == b { Some(b) } else { None },
            None => Some(b),
        },
    }
}

impl TaskNotify {
    /// Whether the signal reached the task, given whether the kernel accepted the
    /// post from an interrupt.
    pub open spec fn delivered_spec(self, isr_post_ok: bool) -> bool {
        match self {
            TaskNotify::Dropped => false,
            TaskNotify::SetValue { .. } => true,
            TaskNotify::OverwriteFromIsr { .. } => isr_post_ok,
        }
    }

    /// Whether the signal reached the task, given whether the kernel accepted the
    /// post from an interrupt (only asked of `OverwriteFromIsr`).
    pub fn delivered(&self, isr_post_ok: bool) -> (r: bool)
        ensures
            r == self.delivered_spec(isr_post_ok),
    {
        match self {
            TaskNotify::Dropped => false,
            TaskNotify::SetValue { .. } => true,
            TaskNotify::OverwriteFromIsr { .. } => isr_post_ok,
        }
    }
}

/// The state a task-notification notifier and its waiter share: the task that
/// waits, unbound until the first wait.
#[derive(Debug)]
pub struct TaskSlot {
    task: Option<usize>,
}

impl TaskSlot {
    /// The bound task, if any.
    pub closed spec fn bound(self) -> Option<usize> {
        self.task
    }

    /// An unbound slot.
    pub fn new() -> (r: Self)
        ensures
            r.bound() is None,
    {
        TaskSlot { task: None }
    }

    /// The bound task, if any.
    pub fn task(&self) -> (r: Option<usize>)
        ensures
            r == self.bound(),
    {
        self.task
    }

    /// The kernel request for a signal sent from task context or, when `in_isr`,
    /// from an interrupt. Before any task has waited the signal is dropped.
    pub fn notify(&self, in_isr: bool) -> (r: TaskNotify)
        ensures
            r == notify_spec(self.bound(), in_isr),
    {
        match self.task {
            None => TaskNotify::Dropped,
            Some(t) => if in_isr {
                TaskNotify::OverwriteFromIsr { task: t, value: NOTIFIED }
            } else {
                TaskNotify::SetValue { task: t, value: NOTIFIED }
            },
        }
    }

    /// Binds the slot to the calling task `current` if it is still unbound, and
    /// returns the task the wait blocks as. A slot bound to another task refuses
    /// the caller: one pair has one waiter. To be called inside a critical section.
    pub fn bind(&mut self, current: Option<usize>) -> (r: Option<usize>)
        ensures
            r == wait_task_spec(old(self).bound(), current),
            old(self).bound() is None ==> final(self).bound() == current,
            old(self).bound() is Some ==> final(self).bound() == old(self).bound(),
    {
        match self.task {
            None => {
                self.task = current;
                current
            },
            Some(b) => match current {
                Some(c) => if c == b {
                    Some(b)
                } else {
                    None
                },
                None => Some(b),
            },
        }
    }
}

/// The kernel request with which `task` waits up to `timeout_ms` for a signal:
/// nothing is cleared before the wait and the whole value afterwards.
pub fn task_wait_request(task: usize, timeout_ms: u32) -> (r: TaskWait)
    ensures
        r == (TaskWait { task, clear_on_entry: 0, clear_on_exit: u32::MAX, timeout_ms }),
{
    TaskWait { task, clear_on_entry: 0, clear_on_exit: u32::MAX, timeout_ms }
}

/// Whether a task wait ended on a signal, given the notification value the kernel
/// returned (`None` when the kernel reported a failure). A zero value means the
/// wait timed out.
pub fn task_wait_outcome(value: Option<u32>) -> (r: bool)
    ensures
        r == (value matches Some(v) && v != 0),
{
    match value {
        Some(v) => v != 0,
        None => false,
    }
}

/// The kernel request for a semaphore signal from task context or, when `in_isr`,
/// from an interrupt.
pub fn semaphore_give(in_isr: bool) -> (r: SemaphoreGive)
    ensures
        in_isr ==> r == SemaphoreGive::GiveFromIsr,
        !in_isr ==> r == SemaphoreGive::Give,
{
    if in_isr {
        SemaphoreGive::GiveFromIsr
    } else {
        SemaphoreGive::Give
    }
}

/// The time a semaphore wait blocks for: the timeout, but never zero, since a
/// zero-length take is a poll and not a wait.
pub fn semaphore_wait_ms(timeout_ms: u32) -> (r: u32)
    ensures
        timeout_ms == 0 ==> r == 1,
        timeout_ms != 0 ==> r == timeout_ms,
{
    let mut t = timeout_ms;
    if t == 0 {
        t = 1;
    }
    t
}

/// A signal sent on a pair that no task has waited on yet is dropped and reported
/// as not delivered, from task context and from an interrupt alike.
pub proof fn lemma_notify_before_wait_dropped(in_isr: bool, isr_post_ok: bool)
    ensures
        notify_spec(None, in_isr) == TaskNotify::Dropped,
        !notify_spec(None, in_isr).delivered_spec(isr_post_ok),
{
}

} // verus!
