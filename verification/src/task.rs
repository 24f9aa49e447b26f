use vstd::prelude::*;
use crate::molecule_objekt::MoleculeObjektValue;
use crate::synchronization_graph::{SynchronizationDependent, SynchronizationNode};
use crate::task_executor::TaskExecutorInner;

verus! {

/// What a task's tick asks of the executor: keep going, swap the whole
/// task and graph generation for the carried one, or stop every task with a
/// message. The first non-continue value any task returns is published to
/// all of its siblings.
pub enum TaskControlFlow<T> {
    Continue,
    RebuildTasks(TaskExecutorInner<T>),
    Stop(String),
}

impl<T> TaskControlFlow<T> {
    /// Whether this signal lets the tasks keep ticking.
    pub fn is_continue(&self) -> (r: bool)
        ensures
            r == (self is Continue),
    {
        match self {
            TaskControlFlow::Continue => true,
            _ => false,
        }
    }
}

/// A unit of concurrent work. Beyond the claim protocol it inherits, a task
/// is initialized once, with read access to the object registry, and then
/// ticked repeatedly; a tick coordinates with its siblings by waiting on and
/// releasing its claimed nodes, found by their slots in the executor's node
/// list.
pub trait Task: SynchronizationDependent {
    /// Called once, before any tick, on the orchestrating thread; the task
    /// resolves and clones the named objects it needs out of the registry.
    fn init(&mut self, objekt_list: &Vec<MoleculeObjektValue>);

    /// One round of work. Must be safe to call again right after it returns
    /// `Continue`.
    fn tick(&mut self, nodes: &Vec<SynchronizationNode>) -> TaskControlFlow<Self>;
}

} // verus!
