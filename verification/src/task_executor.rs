use vstd::prelude::*;
use crate::synchronization_graph::{EdgeInfo, SynchronizationNode};
use crate::task::TaskControlFlow;

verus! {

/// One generation of runnable state: the tasks, and the runtime nodes their
/// claimed slots point into.
pub struct TaskExecutorInner<T> {
    pub task_list: Vec<T>,
    pub nodes: Vec<SynchronizationNode>,
}

impl<T> TaskExecutorInner<T> {
    pub fn new(task_list: Vec<T>, nodes: Vec<SynchronizationNode>) -> (r: Self)
        ensures
            r.task_list@ == task_list@,
            r.nodes@ == nodes@,
    {
        TaskExecutorInner { task_list, nodes }
    }
}

/// A validated graph ready to run: the current generation plus a record of
/// every wired edge.
pub struct TaskExecutor<T> {
    pub inner: TaskExecutorInner<T>,
    /// One entry per wired edge, in wiring order: the parent and child
    /// slots, and whether the edge was pre-charged with a token.
    pub edges: Vec<EdgeInfo>,
}

/// The control signal after a task published `outcome` into it: the first
/// non-continue publication sticks, later ones change nothing.
pub open spec fn publish_spec<T>(
    current: TaskControlFlow<T>,
    outcome: TaskControlFlow<T>,
) -> TaskControlFlow<T> {
    if current is Continue {
        outcome
    } else {
        current
    }
}

/// Publishes a task's tick outcome into the shared control signal. Only the
/// first non-continue publication takes effect.
pub fn publish_control<T>(control: &mut TaskControlFlow<T>, outcome: TaskControlFlow<T>)
    ensures
        *final(control) == publish_spec(*old(control), outcome),
{
    if control.is_continue() {
        *control = outcome;
    }
}

/// What the drain phase decides once every task thread has stopped.
pub enum ExecutionResolution<T> {
    /// The signal still reads continue although all threads stopped: an
    /// internal-consistency violation, fatal to the executor.
    ContinueViolation,
    /// Swap in the carried generation and start it from fresh inits.
    Rebuild(TaskExecutorInner<T>),
    /// Report the message and run nothing further.
    Stopped(String),
}

/// The drain decision for a final control signal.
pub open spec fn resolve_spec<T>(control: TaskControlFlow<T>) -> ExecutionResolution<T> {
    match control {
        TaskControlFlow::Continue => ExecutionResolution::ContinueViolation,
        TaskControlFlow::RebuildTasks(inner) => ExecutionResolution::Rebuild(inner),
        TaskControlFlow::Stop(message) => ExecutionResolution::Stopped(message),
    }
}

/// Interprets the control signal after all task threads were joined.
pub fn resolve_control<T>(control: TaskControlFlow<T>) -> (r: ExecutionResolution<T>)
    ensures
        r == resolve_spec(control),
{
    match control {
        TaskControlFlow::Continue => ExecutionResolution::ContinueViolation,
        TaskControlFlow::RebuildTasks(inner) => ExecutionResolution::Rebuild(inner),
        TaskControlFlow::Stop(message) => ExecutionResolution::Stopped(message),
    }
}

/// Once any task has published a non-continue signal, no later publication
/// changes it: the first writer wins, and every sibling that reads the
/// signal afterwards sees that first value.
pub proof fn lemma_first_publish_wins<T>(current: TaskControlFlow<T>, outcome: TaskControlFlow<T>)
    requires
        !(current is Continue),
    ensures
        publish_spec(current, outcome) == current,
{
}

/// A task stopping a running generation with a message resolves the drain to
/// exactly that message, and the published signal no longer reads continue,
/// so no sibling that checks it ticks again.
pub proof fn lemma_stop_resolution<T>(current: TaskControlFlow<T>, message: String)
    requires
        current is Continue,
    ensures
        resolve_spec(publish_spec(current, TaskControlFlow::<T>::Stop(message)))
            == ExecutionResolution::<T>::Stopped(message),
        !(publish_spec(current, TaskControlFlow::<T>::Stop(message)) is Continue),
{
}

/// A task replacing a running generation hands the replacement tasks and
/// nodes to the drain phase unchanged, to be run from their own fresh inits.
pub proof fn lemma_rebuild_resolution<T>(
    current: TaskControlFlow<T>,
    replacement: TaskExecutorInner<T>,
)
    requires
        current is Continue,
    ensures
        resolve_spec(publish_spec(current, TaskControlFlow::RebuildTasks(replacement)))
            == ExecutionResolution::Rebuild(replacement),
{
}

} // verus!
