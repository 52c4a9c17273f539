//! The decisions of the task scheduler: what to do next with the queue of
//! tasks and the workers in flight.

use vstd::prelude::*;
use std::collections::VecDeque;
use crate::forge::{ForgeError, ForgeTask, ForgeTaskOutcome};

verus! {

/// How many workers the scheduler keeps in flight, unless told otherwise.
pub const DEFAULT_WORKERS: usize = 50;

/// How many tasks the rate limiter lets start in a second.
pub const PERMITS_PER_SECOND: u32 = 50;

/// The longest that a start is held back at random, in seconds.
pub const JITTER_SECONDS: u64 = 2;

/// What the scheduler does next.
#[derive(Debug)]
pub enum Action {
    /// Wait for a permit of the rate limiter, then start a worker on the
    /// task.
    Start(ForgeTask),
    /// Wait for a worker to finish.
    Wait,
    /// Nothing is queued and no worker is in flight: stop.
    Finish,
}

/// The queue of tasks and the number of workers in flight.
#[derive(Debug)]
pub struct Scheduler {
    queue: VecDeque<ForgeTask>,
    in_flight: usize,
    capacity: usize,
}

/// What a scheduler holds.
pub struct SchedulerView {
    /// The tasks that wait, the next one first.
    pub queue: Seq<ForgeTask>,
    /// How many workers are in flight.
    pub in_flight: nat,
    /// How many workers may be in flight at once.
    pub capacity: nat,
}

impl SchedulerView {
    /// No more workers are in flight than may be, and at least one may be.
    pub open spec fn wf(self) -> bool {
        0 < self.capacity && self.in_flight <= self.capacity
    }

    /// Nothing is queued and no worker is in flight.
    pub open spec fn quiescent(self) -> bool {
        self.queue.len() == 0 && self.in_flight == 0
    }

    /// Whether a worker can be started: a task waits and a worker is free.
    pub open spec fn can_start(self) -> bool {
        self.queue.len() > 0 && self.in_flight < self.capacity
    }

    /// The tasks that a finished worker adds to the queue: those of its
    /// outcome; none where it failed.
    pub open spec fn follow_ups(result: Result<ForgeTaskOutcome, ForgeError>) -> Seq<ForgeTask> {
        match result {
            Ok(outcome) => outcome.additional_tasks@,
            Err(_) => Seq::empty(),
        }
    }
}

impl View for Scheduler {
    type V = SchedulerView;

    closed spec fn view(&self) -> SchedulerView {
        SchedulerView {
            queue: self.queue@,
            in_flight: self.in_flight as nat,
            capacity: self.capacity as nat,
        }
    }
}

impl Scheduler {
    /// A scheduler without tasks that keeps at most `capacity` workers in
    /// flight.
    pub fn new(capacity: usize) -> (r: Self)
        requires
            capacity > 0,
        ensures
            r@ == (SchedulerView { queue: Seq::empty(), in_flight: 0, capacity: capacity as nat }),
            r@.wf(),
    {
        Scheduler { queue: VecDeque::new(), in_flight: 0, capacity }
    }

    /// Put a task at the end of the queue.
    pub fn enqueue(&mut self, task: ForgeTask)
        ensures
            final(self)@ == (SchedulerView { queue: old(self)@.queue.push(task), ..old(self)@ }),
    {
        self.queue.push_back(task);
    }

    /// How many tasks wait.
    pub fn queued(&self) -> (r: usize)
        ensures
            r == self@.queue.len(),
    {
        self.queue.len()
    }

    /// How many workers are in flight.
    pub fn in_flight(&self) -> (r: usize)
        ensures
            r == self@.in_flight,
    {
        self.in_flight
    }

    /// What to do next: start a worker on the first task of the queue where
    /// one is free; else wait for a worker; and stop once nothing is queued
    /// and no worker is in flight.
    pub fn next_action(&mut self) -> (r: Action)
        requires
            old(self)@.wf(),
        ensures
            final(self)@.wf(),
            match r {
                Action::Start(task) => old(self)@.can_start() && task == old(self)@.queue[0]
                    && final(self)@ == (SchedulerView {
                    queue: old(self)@.queue.subrange(1, old(self)@.queue.len() as int),
                    in_flight: old(self)@.in_flight + 1,
                    ..old(self)@
                }),
                Action::Wait => !old(self)@.can_start() && old(self)@.in_flight > 0 && final(self)@
                    == old(self)@,
                Action::Finish => old(self)@.quiescent() && final(self)@ == old(self)@,
            },
    {
        if self.in_flight < self.capacity {
            match self.queue.pop_front() {
                Some(task) => {
                    self.in_flight = self.in_flight + 1;
                    return Action::Start(task);
                },
                None => {},
            }
        }
        if self.in_flight > 0 {
            Action::Wait
        } else {
            Action::Finish
        }
    }

    /// Take note that a worker finished with `result`: the tasks of its
    /// outcome go to the end of the queue, in their order; a failure adds
    /// nothing.
    pub fn worker_done(&mut self, result: Result<ForgeTaskOutcome, ForgeError>)
        requires
            old(self)@.wf(),
            old(self)@.in_flight > 0,
        ensures
            final(self)@.wf(),
            final(self)@ == (SchedulerView {
                queue: old(self)@.queue + SchedulerView::follow_ups(result),
                in_flight: (old(self)@.in_flight - 1) as nat,
                ..old(self)@
            }),
    {
        self.in_flight = self.in_flight - 1;
        match result {
            Ok(outcome) => {
                let mut tasks = outcome.additional_tasks;
                let ghost all = tasks@;
                let ghost start = self.queue@;
                let mut rest: Vec<ForgeTask> = Vec::new();
                // The tasks are taken from the back, so turn them round first.
                while tasks.len() > 0
                    invariant
                        tasks@ + rest@.reverse() =~= all,
                    decreases tasks.len(),
                {
                    let ghost before = tasks@;
                    let ghost rest_before = rest@;
                    let task = tasks.pop().unwrap();
                    rest.push(task);
                    proof {
                        assert(before =~= tasks@.push(task));
                        assert(rest@.reverse() =~= seq![task] + rest_before.reverse());
                    }
                }
                let ghost mut done: Seq<ForgeTask> = Seq::empty();
                proof {
                    assert(tasks@ =~= Seq::<ForgeTask>::empty());
                    assert(start + done =~= start);
                }
                while rest.len() > 0
                    invariant
                        self.queue@ == start + done,
                        done + rest@.reverse() =~= all,
                        self.in_flight == old(self).in_flight - 1,
                        self.capacity == old(self).capacity,
                    decreases rest.len(),
                {
                    let ghost rest_before = rest@;
                    let task = rest.pop().unwrap();
                    self.queue.push_back(task);
                    proof {
                        let next = done.push(task);
                        assert(rest_before =~= rest@.push(task));
                        assert(rest_before.reverse() =~= seq![task] + rest@.reverse());
                        assert(self.queue@ =~= start + next);
                        assert(next + rest@.reverse() =~= all);
                        done = next;
                    }
                }
                proof {
                    assert(rest@.reverse() =~= Seq::<ForgeTask>::empty());
                    assert(done =~= all);
                }
            },
            Err(_) => {
                assert(self.queue@ + Seq::<ForgeTask>::empty() =~= self.queue@);
            },
        }
    }
}

/// Once the scheduler stops, nothing is queued and no worker is in flight;
/// and it does not stop before.
pub proof fn lemma_quiescence(state: SchedulerView)
    requires
        state.wf(),
    ensures
        state.quiescent() <==> !state.can_start() && state.in_flight == 0,
{
}

} // verus!
