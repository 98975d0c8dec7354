use vstd::prelude::*;

verus! {

#[derive(Clone, Copy, Debug, PartialEq, Eq, Structural)]
pub enum SchedulerRunnableType {
    OneShot,
    Periodic,
}

/// The runnables a task table entry can name.
#[derive(Clone, Copy, Debug, PartialEq, Eq, Structural)]
pub enum SchedulerRunnableFn {
    Runnable1ms,
    Runnable5ms,
    Runnable10ms,
    Runnable500ms,
    Runnable1000ms,
}

/// A task: its kind, its period and the runnable it runs.
#[derive(Clone, Copy, Debug, PartialEq, Eq, Structural)]
pub struct SchedulerRunnableConfig {
    pub task_type: SchedulerRunnableType,
    pub period_ms: u32,
    pub task_fn: SchedulerRunnableFn,
}

pub struct SchedulerTasksTable {
    pub tasks: Vec<SchedulerRunnableConfig>,
}

} // verus!
