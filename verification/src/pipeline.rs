//! Bookkeeping for a batch whose tasks run with bounded concurrency.
//!
//! A [`Pipeline`] knows, for every task of a batch, whether it is waiting,
//! in flight or settled. It hands tasks out in input order, never lets more
//! than [`CEILING`] of them be in flight, and stops handing out once a task
//! has failed.

use vstd::prelude::*;

verus! {

/// The most tasks a batch keeps in flight at once.
pub const CEILING: usize = 5;

/// Where one task of a batch stands.
#[derive(Clone, Copy, Debug, PartialEq, Eq, Structural)]
pub enum TaskState {
    /// Not started yet.
    Pending,
    /// Started and not yet settled; it holds one of the slots.
    InFlight,
    /// Settled with success.
    Done,
    /// Settled with a failure.
    Failed,
}

/// The life of a task: it waits, then it is in flight, then it is settled,
/// done or failed, for good.
pub open spec fn may_follow(before: TaskState, after: TaskState) -> bool {
    ||| before == after
    ||| before == TaskState::Pending && after == TaskState::InFlight
    ||| before == TaskState::InFlight && (after == TaskState::Done || after == TaskState::Failed)
}

/// How many tasks of `states` are in state `which`.
pub open spec fn count(states: Seq<TaskState>, which: TaskState) -> nat
    decreases states.len(),
{
    if states.len() == 0 {
        0
    } else {
        count(states.drop_last(), which) + if states.last() == which {
            1nat
        } else {
            0nat
        }
    }
}

/// The mathematical model of a [`Pipeline`].
pub struct PipelineView {
    /// The state of every task, by index.
    pub states: Seq<TaskState>,
    /// The index of the task that starts next; every task before it has started.
    pub next: nat,
    /// Whether a failure has stopped the batch from starting further tasks.
    pub halted: bool,
}

impl PipelineView {
    /// A batch of `total` tasks, none of them started.
    pub open spec fn fresh(total: nat) -> PipelineView {
        PipelineView {
            states: Seq::new(total, |i: int| TaskState::Pending),
            next: 0,
            halted: false,
        }
    }

    /// The number of tasks in flight.
    pub open spec fn in_flight(self) -> nat {
        count(self.states, TaskState::InFlight)
    }

    /// Tasks start in input order, and at most [`CEILING`] are in flight.
    pub open spec fn wf(self) -> bool {
        &&& self.next <= self.states.len()
        &&& forall|i: int|
            0 <= i < self.states.len() ==> ((#[trigger] self.states[i] == TaskState::Pending)
                <==> i >= self.next)
        &&& self.in_flight() <= CEILING
    }

    /// Whether a further task may start now: the batch has not been halted,
    /// a task is still waiting, and a slot is free.
    pub open spec fn can_dispatch(self) -> bool {
        &&& !self.halted
        &&& self.next < self.states.len()
        &&& self.in_flight() < CEILING
    }

    /// Starts the next waiting task, if one may start.
    pub open spec fn dispatch(self) -> PipelineView {
        if self.can_dispatch() {
            PipelineView {
                states: self.states.update(self.next as int, TaskState::InFlight),
                next: self.next + 1,
                halted: self.halted,
            }
        } else {
            self
        }
    }

    /// Whether `task` is in flight, so that it can settle.
    pub open spec fn can_complete(self, task: int) -> bool {
        0 <= task < self.states.len() && self.states[task] == TaskState::InFlight
    }

    /// Settles `task` if it is in flight. A failure halts the batch.
    pub open spec fn complete(self, task: int, success: bool) -> PipelineView {
        if self.can_complete(task) {
            PipelineView {
                states: self.states.update(
                    task,
                    if success {
                        TaskState::Done
                    } else {
                        TaskState::Failed
                    },
                ),
                next: self.next,
                halted: self.halted || !success,
            }
        } else {
            self
        }
    }

    /// Stops the batch from starting further tasks.
    pub open spec fn halt(self) -> PipelineView {
        PipelineView { states: self.states, next: self.next, halted: true }
    }

    /// Whether `later` may come after this pipeline: it has the same
    /// tasks, each as it was or further along, and is still halted if this
    /// one is.
    pub open spec fn leads_to(self, later: PipelineView) -> bool {
        &&& later.states.len() == self.states.len()
        &&& forall|i: int|
            0 <= i < self.states.len() ==> may_follow(self.states[i], #[trigger] later.states[i])
        &&& self.next <= later.next
        &&& self.halted ==> later.halted
    }
}

/// Replacing one task's state moves one unit between the counts of the old
/// and of the new state.
pub proof fn lemma_count_update(states: Seq<TaskState>, i: int, to: TaskState, which: TaskState)
    requires
        0 <= i < states.len(),
    ensures
        count(states.update(i, to), which) + (if states[i] == which {
            1nat
        } else {
            0nat
        }) == count(states, which) + (if to == which {
            1nat
        } else {
            0nat
        }),
    decreases states.len(),
{
    let updated = states.update(i, to);
    if i == states.len() - 1 {
        assert(updated.drop_last() == states.drop_last());
    } else {
        assert(updated.drop_last() == states.drop_last().update(i, to));
        lemma_count_update(states.drop_last(), i, to, which);
    }
}

/// A batch in which nothing has started has nothing in any other state.
pub proof fn lemma_count_fresh(total: nat, which: TaskState)
    ensures
        count(PipelineView::fresh(total).states, which) == if which == TaskState::Pending {
            total
        } else {
            0
        },
    decreases total,
{
    let states = PipelineView::fresh(total).states;
    if total > 0 {
        assert(states.drop_last() == PipelineView::fresh((total - 1) as nat).states);
        lemma_count_fresh((total - 1) as nat, which);
    }
}

/// Every task is in exactly one state.
pub proof fn lemma_count_total(states: Seq<TaskState>)
    ensures
        count(states, TaskState::Pending) + count(states, TaskState::InFlight) + count(
            states,
            TaskState::Done,
        ) + count(states, TaskState::Failed) == states.len(),
    decreases states.len(),
{
    if states.len() > 0 {
        lemma_count_total(states.drop_last());
    }
}

/// In a well-formed pipeline the tasks that have not started are the
/// pending ones.
pub proof fn lemma_count_pending(states: Seq<TaskState>, next: nat)
    requires
        next <= states.len(),
        forall|i: int|
            0 <= i < states.len() ==> ((#[trigger] states[i] == TaskState::Pending) <==> i >= next),
    ensures
        count(states, TaskState::Pending) == states.len() - next,
    decreases states.len(),
{
    if next == states.len() {
        lemma_count_no_pending(states);
    } else {
        lemma_count_pending(states.drop_last(), next);
    }
}

proof fn lemma_count_no_pending(states: Seq<TaskState>)
    requires
        forall|i: int| 0 <= i < states.len() ==> #[trigger] states[i] != TaskState::Pending,
    ensures
        count(states, TaskState::Pending) == 0,
    decreases states.len(),
{
    if states.len() > 0 {
        lemma_count_no_pending(states.drop_last());
    }
}

/// A batch in which nothing has started is well-formed, with nothing in
/// flight.
pub proof fn lemma_fresh_is_wf(total: nat)
    ensures
        PipelineView::fresh(total).wf(),
        PipelineView::fresh(total).in_flight() == 0,
{
    lemma_count_fresh(total, TaskState::InFlight);
}

/// The concurrency ceiling is an invariant: no transition of a well-formed
/// pipeline leads to more than [`CEILING`] tasks in flight, nor lets a task
/// start out of order. And every transition moves the tasks forward only.
pub proof fn lemma_transitions_preserve_wf(pipeline: PipelineView, task: int, success: bool)
    requires
        pipeline.wf(),
    ensures
        pipeline.dispatch().wf(),
        pipeline.complete(task, success).wf(),
        pipeline.halt().wf(),
        pipeline.leads_to(pipeline.dispatch()),
        pipeline.leads_to(pipeline.complete(task, success)),
        pipeline.leads_to(pipeline.halt()),
{
    if pipeline.can_dispatch() {
        lemma_count_update(
            pipeline.states,
            pipeline.next as int,
            TaskState::InFlight,
            TaskState::InFlight,
        );
    }
    if pipeline.can_complete(task) {
        let to = if success {
            TaskState::Done
        } else {
            TaskState::Failed
        };
        lemma_count_update(pipeline.states, task, to, TaskState::InFlight);
    }
}

/// The tasks of one batch and the slots they hold.
pub struct Pipeline {
    states: Vec<TaskState>,
    next: usize,
    in_flight: usize,
    halted: bool,
}

impl View for Pipeline {
    type V = PipelineView;

    closed spec fn view(&self) -> PipelineView {
        PipelineView { states: self.states@, next: self.next as nat, halted: self.halted }
    }
}

impl Pipeline {
    #[verifier::type_invariant]
    spec fn inv(self) -> bool {
        &&& self@.wf()
        &&& self.in_flight == self@.in_flight()
    }

    /// A batch of `total` tasks, none of them started.
    pub fn new(total: usize) -> (pipeline: Pipeline)
        ensures
            pipeline@ == PipelineView::fresh(total as nat),
            pipeline@.wf(),
    {
        let mut states: Vec<TaskState> = Vec::new();
        let mut i: usize = 0;
        while i < total
            invariant
                i <= total,
                states@ == PipelineView::fresh(i as nat).states,
            decreases total - i,
        {
            states.push(TaskState::Pending);
            i = i + 1;
            assert(states@ == PipelineView::fresh(i as nat).states);
        }
        proof {
            lemma_fresh_is_wf(total as nat);
        }
        Pipeline { states, next: 0, in_flight: 0, halted: false }
    }

    /// Starts the next waiting task if the batch has not been halted and a
    /// slot is free, and returns its index.
    pub fn dispatch(self) -> (r: (Pipeline, Option<usize>))
        ensures
            r.0@ == self@.dispatch(),
            r.0@.wf(),
            r.1 == if self@.can_dispatch() {
                Some(self@.next as usize)
            } else {
                None
            },
    {
        proof {
            use_type_invariant(&self);
            lemma_transitions_preserve_wf(self@, 0, true);
        }
        let Pipeline { states, next, in_flight, halted } = self;
        if !halted && next < states.len() && in_flight < CEILING {
            let mut states = states;
            states.set(next, TaskState::InFlight);
            proof {
                lemma_count_update(
                    self.states@,
                    next as int,
                    TaskState::InFlight,
                    TaskState::InFlight,
                );
            }
            (Pipeline { states, next: next + 1, in_flight: in_flight + 1, halted }, Some(next))
        } else {
            (Pipeline { states, next, in_flight, halted }, None)
        }
    }

    /// Settles `task` with the given outcome if it is in flight, and says
    /// whether it was. A failure halts the batch.
    pub fn complete(self, task: usize, success: bool) -> (r: (Pipeline, bool))
        ensures
            r.0@ == self@.complete(task as int, success),
            r.0@.wf(),
            r.1 == self@.can_complete(task as int),
    {
        proof {
            use_type_invariant(&self);
            lemma_transitions_preserve_wf(self@, task as int, success);
        }
        let Pipeline { states, next, in_flight, halted } = self;
        if task < states.len() && states[task] == TaskState::InFlight {
            let to = if success {
                TaskState::Done
            } else {
                TaskState::Failed
            };
            let mut states = states;
            states.set(task, to);
            proof {
                lemma_count_update(self.states@, task as int, to, TaskState::InFlight);
            }
            (Pipeline { states, next, in_flight: in_flight - 1, halted: halted || !success }, true)
        } else {
            (Pipeline { states, next, in_flight, halted }, false)
        }
    }

    /// Stops the batch from starting further tasks.
    pub fn halt(self) -> (pipeline: Pipeline)
        ensures
            pipeline@ == self@.halt(),
            pipeline@.wf(),
    {
        proof {
            use_type_invariant(&self);
        }
        let Pipeline { states, next, in_flight, halted: _ } = self;
        Pipeline { states, next, in_flight, halted: true }
    }

    /// The number of tasks in flight; never more than [`CEILING`].
    pub fn in_flight(&self) -> (n: usize)
        ensures
            n == self@.in_flight(),
            n <= CEILING,
    {
        proof {
            use_type_invariant(self);
        }
        self.in_flight
    }

    /// The number of tasks in the batch.
    pub fn len(&self) -> (n: usize)
        ensures
            n == self@.states.len(),
    {
        self.states.len()
    }

    /// The state of `task`, if the batch has such a task.
    pub fn state(&self, task: usize) -> (state: Option<TaskState>)
        ensures
            state == if task < self@.states.len() {
                Some(self@.states[task as int])
            } else {
                None
            },
    {
        if task < self.states.len() {
            Some(self.states[task])
        } else {
            None
        }
    }
}

} // verus!
