//! The place of a task that is polled by whoever wakes it up.
use vstd::prelude::*;

verus! {

/// What a poll of a task came to.
#[derive(Clone, Copy, PartialEq, Eq, Structural, Debug)]
pub enum Polled {
    /// The task is not done yet, and will wake up somebody when it can go on.
    NotReady,
    /// The task is done.
    Ready,
    /// The task is done, and has failed.
    Failed,
}

/// The place of a task until it is done.
#[derive(Debug)]
pub struct TaskSlot<S> {
    pub task: Option<S>,
}

/// Whether a notification leads from the slot `before` to the slot `after`, where `polled` is what
/// the poll came to, if there was one: a task that is there is polled, and it stays for as long as
/// it is not done.
pub open spec fn is_notified<S>(
    before: TaskSlot<S>,
    polled: Option<Polled>,
    after: TaskSlot<S>,
) -> bool {
    &&& polled is Some <==> before.task is Some
    &&& after.task is Some <==> polled == Some(Polled::NotReady)
}

impl<S> TaskSlot<S> {
    pub fn new(task: S) -> (slot: TaskSlot<S>)
        ensures
            slot.task == Some(task),
    {
        TaskSlot { task: Some(task) }
    }

    /// Polls the task once by `poll`, if it is not done yet, and says what that came to. A task
    /// that is done leaves the slot for good. One that is not stays as the poll has left it.
    pub fn notify<P: FnOnce(&mut S) -> Polled>(&mut self, poll: P) -> (polled: Option<Polled>)
        requires
            forall|m: &mut S| old(self).task == Some(*m) ==> #[trigger] call_requires(poll, (m,)),
        ensures
            is_notified(*old(self), polled, *final(self)),
            old(self).task matches Some(task) ==> exists|m: &mut S|
                *m == task && #[trigger] call_ensures(poll, (m,), polled->0) && (polled
                    == Some(Polled::NotReady) ==> final(self).task == Some(*final(m))),
    {
        let polled: Option<Polled> = match self.task.as_mut() {
            Some(task) => Some(poll(task)),
            None => None,
        };
        match polled {
            Some(Polled::NotReady) | None => {},
            _ => {
                self.task = None;
            },
        }
        polled
    }
}

/// A task is polled once at every notification until it is done, and never after that: the first
/// notification polls it, and each later one does exactly if all polls before have found it not
/// ready. The slot holds the task for just as long.
pub proof fn law_task_is_polled_until_done<S>(
    slots: Seq<TaskSlot<S>>,
    polls: Seq<Option<Polled>>,
    n: int,
)
    requires
        slots.len() == polls.len() + 1,
        slots[0].task is Some,
        forall|i: int|
            #![trigger polls[i]]
            0 <= i < polls.len() ==> is_notified(slots[i], polls[i], slots[i + 1]),
        0 <= n < polls.len(),
    ensures
        polls[n] is Some <==> forall|i: int|
            0 <= i < n ==> #[trigger] polls[i] == Some(Polled::NotReady),
        slots[n + 1].task is Some <==> forall|i: int|
            0 <= i <= n ==> #[trigger] polls[i] == Some(Polled::NotReady),
    decreases n,
{
    assert(is_notified(slots[n], polls[n], slots[n + 1]));
    if n > 0 {
        law_task_is_polled_until_done(slots, polls, n - 1);
        if forall|i: int| 0 <= i <= n - 1 ==> #[trigger] polls[i] == Some(Polled::NotReady) {
            assert(forall|i: int| 0 <= i < n ==> #[trigger] polls[i] == Some(Polled::NotReady));
        }
    }
}

} // verus!
