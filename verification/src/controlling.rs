use vstd::prelude::*;
use crate::synchronization_graph::{
    string_views, SubmissionResult, SynchronizationDependent, TemplateSynchronizationNode,
};

verus! {

/// A control-input participant. It claims no synchronization nodes at all,
/// so it is always complete, and it keeps the usual claim diary.
pub struct Controlling {
    pub name: String,
    pub submitted_node_list: Vec<String>,
}

impl SynchronizationDependent for Controlling {
    open spec fn name_spec(&self) -> Seq<char> {
        self.name@
    }

    open spec fn submitted_spec(&self) -> Seq<Seq<char>> {
        string_views(self.submitted_node_list@)
    }

    open spec fn values_filled_spec(&self) -> bool {
        true
    }

    fn name(&self) -> (r: String) {
        self.name.clone()
    }

    fn push_submitted_node_list(&mut self, name: String) {
        let ghost pre = self.submitted_node_list@;
        self.submitted_node_list.push(name);
        proof {
            assert(string_views(self.submitted_node_list@) =~= string_views(pre).push(
                self.submitted_node_list@.last()@,
            ));
            assert(self.values_filled_spec() == old(self).values_filled_spec());
        }
    }

    fn submit_node(&mut self, _node: &TemplateSynchronizationNode) -> (r: SubmissionResult) {
        SubmissionResult::NotFound
    }

    fn submitted_node_list(&self) -> (r: &Vec<String>) {
        &self.submitted_node_list
    }

    fn values_filled(&self) -> (r: bool) {
        true
    }
}

} // verus!
