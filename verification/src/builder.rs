use vstd::prelude::*;

use crate::mode::Mode;

verus! {

/// The configuration a [`TaskBuilder`] has accumulated: the computation it
/// wraps, the execution mode, and the optional diagnostic name.
pub ghost struct BuilderConfig<C> {
    pub computation: C,
    pub mode: Mode,
    pub name: Option<String>,
}

/// Task builder that configures the settings of a new task.
///
/// A builder is consumed exactly once, either by attaching further
/// configuration or by turning it into a handle; nothing runs until the
/// resulting handle is driven.
#[derive(Debug)]
#[must_use]
pub struct TaskBuilder<C> {
    pub(crate) computation: C,
    pub(crate) mode: Mode,
    pub(crate) task_name: Option<String>,
}

impl<C> View for TaskBuilder<C> {
    type V = BuilderConfig<C>;

    closed spec fn view(&self) -> BuilderConfig<C> {
        BuilderConfig {
            computation: self.computation,
            mode: self.mode,
            name: self.task_name,
        }
    }
}

/// Extension methods that wrap a computation in a [`TaskBuilder`].
pub trait FutureExt: Sized {
    /// Begin configuring a task that will run on the shared worker pool.
    fn spawn(self) -> (b: TaskBuilder<Self>)
        ensures
            b@ == (BuilderConfig { computation: self, mode: Mode::Pooled, name: None::<String> }),
    ;

    /// Begin configuring a task that will run on the originating context.
    fn spawn_local(self) -> (b: TaskBuilder<Self>)
        ensures
            b@ == (BuilderConfig { computation: self, mode: Mode::SameContext, name: None::<String> }),
    ;
}

impl<C> FutureExt for C {
    fn spawn(self) -> (b: TaskBuilder<C>) {
        TaskBuilder { computation: self, mode: Mode::Pooled, task_name: None }
    }

    fn spawn_local(self) -> (b: TaskBuilder<C>) {
        TaskBuilder { computation: self, mode: Mode::SameContext, task_name: None }
    }
}

impl<C> TaskBuilder<C> {
    /// Set the name of the task.  The name is diagnostic metadata only: it is
    /// handed to the executor when the task is dispatched and has no effect
    /// on the result or on the handle's lifecycle.
    pub fn name(self, name: String) -> (b: TaskBuilder<C>)
        ensures
            b@ == (BuilderConfig { name: Some(name), ..self@ }),
    {
        TaskBuilder { computation: self.computation, mode: self.mode, task_name: Some(name) }
    }

    /// The execution mode this builder was created with.
    pub fn mode(&self) -> (m: Mode)
        ensures
            m == self@.mode,
    {
        self.mode
    }

    /// The name attached so far, if any.
    pub fn task_name(&self) -> (n: &Option<String>)
        ensures
            n == self@.name,
    {
        &self.task_name
    }
}

} // verus!
