//! Deferred tasks and their life.
//!
//! A task is one operation put off: it is created, queued for a worker, run
//! there, and its result is handed over on the host thread, once. The life is
//! written as a machine that takes one step per event and refuses a step that
//! is out of turn. Whoever schedules the work calls the steps: `start` and
//! `compute` on the worker, `resolve` on the host.

use vstd::prelude::*;
use crate::error::{model, Error, ErrorModel};

verus! {

/// An operation that can be put off: it says what its result is, given the
/// answer of the attribute store.
pub trait Task: Sized {
    /// The answer of the store to this operation.
    type Native;

    /// The result that the caller is given.
    type Output: DeepView;

    /// What the operation comes to, given the answer of the store.
    spec fn outcome(native: Self::Native) -> Result<<Self::Output as DeepView>::V, ErrorModel>;

    /// Makes the result of the answer of the store. The task itself is left as
    /// it was.
    fn compute(&mut self, native: Self::Native) -> (out: Result<Self::Output, Error>)
        ensures
            *final(self) == *old(self),
            model(out) == Self::outcome(native),
    ;
}

/// Where a task stands in its life, as mathematics. `V` is the content of a
/// result.
pub enum Stage<V> {
    /// Made, not yet handed to a worker.
    Created,
    /// Waiting for a worker.
    Queued,
    /// With a worker, which is calling the store.
    Running,
    /// Done, with a result that waits to be handed over.
    Completed(V),
    /// Done, with an error that waits to be handed over.
    Failed(ErrorModel),
    /// Handed over. Nothing follows.
    Resolved,
}

impl<V> Stage<V> {
    /// The task is handed to the workers.
    pub open spec fn submit(self) -> Self {
        if self is Created {
            Stage::Queued
        } else {
            self
        }
    }

    /// A worker takes the task.
    pub open spec fn start(self) -> Self {
        if self is Queued {
            Stage::Running
        } else {
            self
        }
    }

    /// The worker has the outcome.
    pub open spec fn finish(self, outcome: Result<V, ErrorModel>) -> Self {
        if self is Running {
            match outcome {
                Ok(value) => Stage::Completed(value),
                Err(error) => Stage::Failed(error),
            }
        } else {
            self
        }
    }

    /// The outcome that waits to be handed over, if one does.
    pub open spec fn pending(self) -> Option<Result<V, ErrorModel>> {
        match self {
            Stage::Completed(value) => Some(Ok(value)),
            Stage::Failed(error) => Some(Err(error)),
            _ => None,
        }
    }

    /// The host takes the outcome that waits.
    pub open spec fn resolve(self) -> Self {
        if self.pending() is Some {
            Stage::Resolved
        } else {
            self
        }
    }
}

/// Where a task stands in its life, with the result it holds.
pub enum TaskState<T> {
    Created,
    Queued,
    Running,
    Completed(T),
    Failed(Error),
    Resolved,
}

impl<T: DeepView> DeepView for TaskState<T> {
    type V = Stage<T::V>;

    open spec fn deep_view(&self) -> Stage<T::V> {
        match self {
            TaskState::Created => Stage::Created,
            TaskState::Queued => Stage::Queued,
            TaskState::Running => Stage::Running,
            TaskState::Completed(value) => Stage::Completed(value.deep_view()),
            TaskState::Failed(error) => Stage::Failed(error@),
            TaskState::Resolved => Stage::Resolved,
        }
    }
}

/// A stage without what it holds.
#[derive(Debug, Clone, Copy, PartialEq, Eq)]
pub enum Phase {
    Created,
    Queued,
    Running,
    Completed,
    Failed,
    Resolved,
}

impl<V> Stage<V> {
    /// The stage without what it holds.
    pub open spec fn phase(self) -> Phase {
        match self {
            Stage::Created => Phase::Created,
            Stage::Queued => Phase::Queued,
            Stage::Running => Phase::Running,
            Stage::Completed(_) => Phase::Completed,
            Stage::Failed(_) => Phase::Failed,
            Stage::Resolved => Phase::Resolved,
        }
    }
}

/// A task on its way: the operation and where it stands. It is moved from
/// thread to thread whole and never shared.
pub struct AsyncTask<T: Task> {
    inner: T,
    state: TaskState<T::Output>,
}

impl<T: Task> AsyncTask<T> {
    /// The operation that was put off.
    pub closed spec fn payload(&self) -> T {
        self.inner
    }

    /// Where the task stands.
    pub closed spec fn stage(&self) -> Stage<<T::Output as DeepView>::V> {
        self.state.deep_view()
    }

    /// Wraps an operation. Nothing has happened to it yet.
    pub fn new(task: T) -> (handle: Self)
        ensures
            handle.payload() == task,
            handle.stage() is Created,
    {
        AsyncTask { inner: task, state: TaskState::Created }
    }

    /// The operation that was put off.
    pub fn task(&self) -> (task: &T)
        ensures
            *task == self.payload(),
    {
        &self.inner
    }

    /// Where the task stands, without what it holds.
    pub fn phase(&self) -> (phase: Phase)
        ensures
            phase == self.stage().phase(),
    {
        match &self.state {
            TaskState::Created => Phase::Created,
            TaskState::Queued => Phase::Queued,
            TaskState::Running => Phase::Running,
            TaskState::Completed(_) => Phase::Completed,
            TaskState::Failed(_) => Phase::Failed,
            TaskState::Resolved => Phase::Resolved,
        }
    }

    /// Hands the task to the workers. Only a task that was just made can be
    /// handed over; any other is left as it is, and the answer is `false`.
    pub fn submit(&mut self) -> (accepted: bool)
        ensures
            accepted == (old(self).stage() is Created),
            final(self).stage() == old(self).stage().submit(),
            final(self).payload() == old(self).payload(),
    {
        match self.state {
            TaskState::Created => {
                self.state = TaskState::Queued;
                true
            },
            _ => false,
        }
    }

    /// A worker takes the task, and will now make the call of the store that the
    /// operation asks for. Only a queued task can be taken; any other is left as
    /// it is, and the answer is `false`.
    pub fn start(&mut self) -> (accepted: bool)
        ensures
            accepted == (old(self).stage() is Queued),
            final(self).stage() == old(self).stage().start(),
            final(self).payload() == old(self).payload(),
    {
        match self.state {
            TaskState::Queued => {
                self.state = TaskState::Running;
                true
            },
            _ => false,
        }
    }

    /// The worker hands in the answer of the store. The task makes its result
    /// of it and keeps that for the host. Only a running task takes an answer;
    /// any other is left as it is, and the answer is `false`.
    pub fn compute(&mut self, native: T::Native) -> (accepted: bool)
        ensures
            accepted == (old(self).stage() is Running),
            final(self).stage() == old(self).stage().finish(T::outcome(native)),
            final(self).payload() == old(self).payload(),
    {
        match self.state {
            TaskState::Running => {
                match self.inner.compute(native) {
                    Ok(value) => {
                        self.state = TaskState::Completed(value);
                    },
                    Err(error) => {
                        self.state = TaskState::Failed(error);
                    },
                }
                true
            },
            _ => false,
        }
    }

    /// The host takes what the task holds: the result, or the error. This ends
    /// the task. A task that holds nothing, because it is not done or was
    /// resolved before, is left as it is and gives `None`.
    pub fn resolve(&mut self) -> (delivered: Option<Result<T::Output, Error>>)
        ensures
            final(self).stage() == old(self).stage().resolve(),
            final(self).payload() == old(self).payload(),
            match delivered {
                Some(result) => old(self).stage().pending() == Some(model(result)),
                None => old(self).stage().pending() is None,
            },
    {
        let mut taken = TaskState::Resolved;
        std::mem::swap(&mut self.state, &mut taken);
        match taken {
            TaskState::Completed(value) => Some(Ok(value)),
            TaskState::Failed(error) => Some(Err(error)),
            other => {
                self.state = other;
                None
            },
        }
    }
}

} // verus!
