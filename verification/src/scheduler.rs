//! The bounded pool of workers, as a state machine: a counting pool of
//! permits, one per running file task. It says which task starts next, when
//! the caller has to wait for one to end, and when the run is over.
//!
//! The caller performs what `Scheduler::step` asks for and reports each task
//! that has ended, however it ended, with `Scheduler::complete`.

use vstd::prelude::*;

verus! {

/// What the caller of a scheduler does next.
#[derive(Clone, Copy, Debug, PartialEq, Eq, Structural)]
pub enum Dispatch {
    /// Start the task with this number; a permit has been set aside for it.
    Start(usize),
    /// Every worker is busy, or every task has been started: wait for a task to end.
    Wait,
    /// Every task has ended.
    Finished,
}

/// The progress of a run over `total` file tasks with a bounded number of
/// workers: how many tasks have been started, and how many have ended.
#[derive(Debug)]
pub struct Scheduler {
    max_workers: usize,
    total: usize,
    started: usize,
    completed: usize,
}

impl Scheduler {
    /// The largest number of tasks that may run at a time.
    pub closed spec fn max_workers(self) -> nat {
        self.max_workers as nat
    }

    /// The number of tasks of the run.
    pub closed spec fn total(self) -> nat {
        self.total as nat
    }

    /// The number of tasks that have been started.
    pub closed spec fn started(self) -> nat {
        self.started as nat
    }

    /// The number of tasks that have ended.
    pub closed spec fn completed(self) -> nat {
        self.completed as nat
    }

    /// The number of tasks that have been started and have not ended.
    pub open spec fn in_flight(self) -> int {
        self.started() - self.completed()
    }

    /// No task ends before it is started, no more tasks are started than
    /// the run has, and no more run at a time than there are workers.
    #[verifier::type_invariant]
    pub closed spec fn consistent(self) -> bool {
        &&& self.completed <= self.started <= self.total
        &&& self.started - self.completed <= self.max_workers
    }

    /// A run over `total` tasks with at most `max_workers` of them at a
    /// time, none started yet.
    pub fn new(max_workers: usize, total: usize) -> (s: Self)
        ensures
            s.max_workers() == max_workers,
            s.total() == total,
            s.started() == 0,
            s.completed() == 0,
    {
        Scheduler { max_workers, total, started: 0, completed: 0 }
    }

    /// The number of tasks that are running now. It is never more than
    /// `max_workers`, whatever was done with the scheduler before.
    pub fn running(&self) -> (n: usize)
        ensures
            n == self.in_flight(),
            n <= self.max_workers(),
            self.completed() <= self.started() <= self.total(),
    {
        proof {
            use_type_invariant(self);
        }
        self.started - self.completed
    }

    /// The number of tasks that have been started; they are the tasks with
    /// the numbers below it.
    pub fn launched(&self) -> (n: usize)
        ensures
            n == self.started(),
            n <= self.total(),
    {
        proof {
            use_type_invariant(self);
        }
        self.started
    }

    /// Whether every task has ended.
    pub fn is_finished(&self) -> (b: bool)
        ensures
            b == (self.completed() == self.total()),
    {
        self.completed == self.total
    }

    /// Decides what to do next. A task is started where one is left and a
    /// worker is free. Otherwise the caller waits, and then some task is
    /// running whose end will be reported, unless no worker exists at all;
    /// or the run is over.
    pub fn step(&mut self) -> (next: Dispatch)
        ensures
            final(self).max_workers() == old(self).max_workers(),
            final(self).total() == old(self).total(),
            final(self).completed() == old(self).completed(),
            final(self).in_flight() <= final(self).max_workers(),
            match next {
                Dispatch::Start(task) => {
                    &&& old(self).started() < old(self).total()
                    &&& old(self).in_flight() < old(self).max_workers()
                    &&& task == old(self).started()
                    &&& final(self).started() == old(self).started() + 1
                },
                Dispatch::Wait => {
                    &&& old(self).completed() < old(self).total()
                    &&& old(self).started() == old(self).total() || old(self).in_flight()
                        == old(self).max_workers()
                    &&& final(self).started() == old(self).started()
                    &&& old(self).max_workers() > 0 ==> old(self).in_flight() > 0
                },
                Dispatch::Finished => {
                    &&& old(self).completed() == old(self).total()
                    &&& final(self).started() == old(self).started()
                },
            },
    {
        proof {
            use_type_invariant(&*self);
        }
        if self.completed == self.total {
            return Dispatch::Finished;
        }
        if self.started < self.total && self.started - self.completed < self.max_workers {
            let task = self.started;
            self.started = task + 1;
            return Dispatch::Start(task);
        }
        Dispatch::Wait
    }

    /// Records that a running task has ended, with whatever outcome: its
    /// permit is free again.
    pub fn complete(&mut self)
        requires
            old(self).in_flight() > 0,
        ensures
            final(self).max_workers() == old(self).max_workers(),
            final(self).total() == old(self).total(),
            final(self).started() == old(self).started(),
            final(self).completed() == old(self).completed() + 1,
            final(self).in_flight() <= final(self).max_workers(),
    {
        proof {
            use_type_invariant(&*self);
        }
        self.completed = self.completed + 1;
    }
}

} // verus!
