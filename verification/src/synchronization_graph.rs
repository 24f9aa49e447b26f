use vstd::prelude::*;
use crossbeam::channel::{Receiver, Sender};
use crate::sync_channel::{new_edge_channel, recv_token, send_token};
use crate::task::Task;
use crate::task_executor::{TaskExecutor, TaskExecutorInner};

verus! {

/// The views of a sequence of strings.
pub open spec fn string_views(s: Seq<String>) -> Seq<Seq<char>> {
    s.map_values(|x: String| x@)
}

/// The views of a sequence of template nodes.
pub open spec fn template_views(
    s: Seq<TemplateSynchronizationNode>,
) -> Seq<TemplateNodeView> {
    s.map_values(|n: TemplateSynchronizationNode| n@)
}

/// An owned copy of a list of names.
pub(crate) fn clone_strings(v: &Vec<String>) -> (r: Vec<String>)
    ensures
        r@ == v@,
{
    let mut r: Vec<String> = Vec::new();
    let mut i: usize = 0;
    while i < v.len()
        invariant
            i <= v.len(),
            r@.len() == i,
            forall|k: int| 0 <= k < i ==> r@[k] == v@[k],
        decreases v.len() - i,
    {
        r.push(v[i].clone());
        i = i + 1;
    }
    proof {
        assert(r@ =~= v@);
    }
    r
}

/// Whether the list holds a string with this view.
pub(crate) fn contains_string(v: &Vec<String>, s: &String) -> (r: bool)
    ensures
        r == string_views(v@).contains(s@),
{
    let mut i: usize = 0;
    while i < v.len()
        invariant
            i <= v.len(),
            forall|k: int| 0 <= k < i ==> string_views(v@)[k] != s@,
        decreases v.len() - i,
    {
        proof {
            assert(string_views(v@)[i as int] == v@[i as int]@);
        }
        if v[i] == *s {
            return true;
        }
        i = i + 1;
    }
    proof {
        assert(forall|k: int| 0 <= k < v@.len() ==> string_views(v@)[k] != s@);
    }
    false
}

/// A failure while assembling or validating the synchronization graph. Each
/// variant names the offending node or task.
#[derive(Debug)]
pub enum GraphError {
    /// A node or task name was registered twice.
    DuplicateName(String),
    /// A node declared no children: tokens entering it could never leave.
    NoChildren(String),
    /// A node (the parent) declared a child name that no other node carries.
    UnresolvedChild { parent: String, child: String },
    /// A task finished claiming without all the nodes it requires; the list
    /// holds the names it did claim, in claim order.
    UnfilledDependency { task: String, submitted: Vec<String> },
}

/// The mathematical value of a `GraphError`.
#[verifier::ext_equal]
pub ghost enum GraphErrorView {
    DuplicateName(Seq<char>),
    NoChildren(Seq<char>),
    UnresolvedChild { parent: Seq<char>, child: Seq<char> },
    UnfilledDependency { task: Seq<char>, submitted: Seq<Seq<char>> },
}

impl View for GraphError {
    type V = GraphErrorView;

    open spec fn view(&self) -> GraphErrorView {
        match self {
            GraphError::DuplicateName(n) => GraphErrorView::DuplicateName(n@),
            GraphError::NoChildren(n) => GraphErrorView::NoChildren(n@),
            GraphError::UnresolvedChild { parent, child } => GraphErrorView::UnresolvedChild {
                parent: parent@,
                child: child@,
            },
            GraphError::UnfilledDependency { task, submitted } => {
                GraphErrorView::UnfilledDependency {
                    task: task@,
                    submitted: string_views(submitted@),
                }
            },
        }
    }
}

/// The mathematical value of a runtime node: how many parent and child
/// edges it carries. What travels over the edges is a property of the
/// channels, not of the node value.
#[verifier::ext_equal]
pub ghost struct SynchronizationNodeView {
    pub parents: nat,
    pub children: nat,
}

/// A node of the running graph: one single-slot receive endpoint per parent
/// edge and one single-slot send endpoint per child edge. Built once by the
/// graph builder and never changed afterwards.
pub struct SynchronizationNode {
    parents: Vec<Receiver<()>>,
    children: Vec<Sender<()>>,
}

impl View for SynchronizationNode {
    type V = SynchronizationNodeView;

    closed spec fn view(&self) -> SynchronizationNodeView {
        SynchronizationNodeView { parents: self.parents@.len(), children: self.children@.len() }
    }
}

/// A broken edge seen while waiting or releasing: the producer or consumer
/// on the far side is gone. The index names the edge within the node's own
/// parent or child list.
#[derive(Clone, Copy, PartialEq, Eq, Structural, Debug)]
pub enum SyncRuntimeError {
    BrokenParentEdge { index: usize },
    BrokenChildEdge { index: usize },
}

impl Default for SynchronizationNode {
    /// A node with no edges yet.
    fn default() -> (r: Self)
        ensures
            r@.parents == 0,
            r@.children == 0,
    {
        SynchronizationNode { parents: Vec::new(), children: Vec::new() }
    }
}

impl SynchronizationNode {
    /// Blocks until one token has arrived on every parent edge. An error
    /// names the first parent edge whose producer was dropped without
    /// sending; that is a bug in the graph's construction or in a sibling
    /// task, not a recoverable condition.
    pub fn wait_for_parents(&self) -> (r: Result<(), SyncRuntimeError>)
        ensures
            self@.parents == 0 ==> r is Ok,
            r matches Err(e) ==> e matches SyncRuntimeError::BrokenParentEdge { index }
                && index < self@.parents,
    {
        let mut k: usize = 0;
        while k < self.parents.len()
            invariant
                k <= self.parents@.len(),
            decreases self.parents@.len() - k,
        {
            if !recv_token(&self.parents[k]) {
                return Err(SyncRuntimeError::BrokenParentEdge { index: k });
            }
            k = k + 1;
        }
        Ok(())
    }

    /// Places one token on every child edge, blocking on an edge whose slot
    /// still holds the previous token until the consumer takes it. An error
    /// names the first child edge whose consumer was dropped.
    pub fn release_children(&self) -> (r: Result<(), SyncRuntimeError>)
        ensures
            self@.children == 0 ==> r is Ok,
            r matches Err(e) ==> e matches SyncRuntimeError::BrokenChildEdge { index }
                && index < self@.children,
    {
        let mut k: usize = 0;
        while k < self.children.len()
            invariant
                k <= self.children@.len(),
            decreases self.children@.len() - k,
        {
            if !send_token(&self.children[k]) {
                return Err(SyncRuntimeError::BrokenChildEdge { index: k });
            }
            k = k + 1;
        }
        Ok(())
    }
}

/// The mathematical value of a template node.
#[verifier::ext_equal]
pub ghost struct TemplateNodeView {
    pub name: Seq<char>,
    pub children: Seq<Seq<char>>,
    pub slot: int,
}

/// A named node as declared before the graph is built: its name, the names
/// of its children, and — once pushed into a builder — the slot its runtime
/// node will occupy in the executor's node list.
pub struct TemplateSynchronizationNode {
    children: Vec<String>,
    name: String,
    node: usize,
}

impl View for TemplateSynchronizationNode {
    type V = TemplateNodeView;

    closed spec fn view(&self) -> TemplateNodeView {
        TemplateNodeView {
            name: self.name@,
            children: string_views(self.children@),
            slot: self.node as int,
        }
    }
}

impl TemplateSynchronizationNode {
    /// A fresh declaration with no children; its runtime slot is assigned
    /// when it is pushed into a builder.
    pub fn new(name: String) -> (r: Self)
        ensures
            r@.name == name@,
            r@.children.len() == 0,
            r@.slot == 0,
    {
        Self { children: Vec::new(), name, node: 0 }
    }

    /// The node's name.
    pub fn name(&self) -> (r: String)
        ensures
            r@ == self@.name,
    {
        self.name.clone()
    }

    /// The slot the node's runtime half occupies in the executor's node
    /// list, assigned when the template was pushed into the builder.
    pub fn node(&self) -> (r: usize)
        ensures
            r == self@.slot,
    {
        self.node
    }

    /// Declares one more child edge, leaving this node for the node named
    /// `identifier`.
    pub fn push_child(&mut self, identifier: String)
        ensures
            final(self)@.name == old(self)@.name,
            final(self)@.slot == old(self)@.slot,
            final(self)@.children == old(self)@.children.push(identifier@),
    {
        let ghost pre = self.children@;
        self.children.push(identifier);
        proof {
            assert(string_views(self.children@) =~= string_views(pre).push(self.children@.last()@));
        }
    }
}

/// What a task answered when offered a node during claim resolution.
#[derive(Clone, Copy, PartialEq, Eq, Structural, Debug)]
pub enum SubmissionResult {
    Success,
    NotFound,
}

/// A sequence `a` that can be read out of `b` left to right, skipping
/// elements of `b` at will.
pub open spec fn subsequence_of(a: Seq<Seq<char>>, b: Seq<Seq<char>>) -> bool
    decreases a.len() + b.len(),
{
    if a.len() == 0 {
        true
    } else if b.len() == 0 {
        false
    } else if a.last() == b.last() {
        subsequence_of(a.drop_last(), b.drop_last())
    } else {
        subsequence_of(a, b.drop_last())
    }
}

/// Dropping the last element keeps a sequence a subsequence.
proof fn lemma_subsequence_drop_last(a: Seq<Seq<char>>, b: Seq<Seq<char>>)
    requires
        subsequence_of(a, b),
        a.len() > 0,
    ensures
        subsequence_of(a.drop_last(), b),
    decreases b.len(),
{
    if b.len() > 0 {
        let sa = a.drop_last();
        if a.last() == b.last() {
            if sa.len() > 0 {
                if sa.last() == b.last() {
                    lemma_subsequence_drop_last(a.drop_last(), b.drop_last());
                }
            }
        } else {
            lemma_subsequence_drop_last(a, b.drop_last());
            if sa.len() > 0 && sa.last() == b.last() {
                lemma_subsequence_drop_last(sa, b.drop_last());
            }
        }
    }
}

/// A subsequence of `b` is one of `b` extended by anything.
proof fn lemma_subsequence_grow(a: Seq<Seq<char>>, b: Seq<Seq<char>>, x: Seq<char>)
    requires
        subsequence_of(a, b),
    ensures
        subsequence_of(a, b.push(x)),
{
    assert(b.push(x).drop_last() =~= b);
    if a.len() != 0 && a.last() == x {
        lemma_subsequence_drop_last(a, b);
    }
}

/// Extending both sequences by the same element keeps the relation.
proof fn lemma_subsequence_extend(a: Seq<Seq<char>>, b: Seq<Seq<char>>, x: Seq<char>)
    requires
        subsequence_of(a, b),
    ensures
        subsequence_of(a.push(x), b.push(x)),
{
    assert(a.push(x).last() == b.push(x).last());
    assert(a.push(x).drop_last() =~= a);
    assert(b.push(x).drop_last() =~= b);
}

/// One wired edge of a built graph: the parent and child slots in the
/// executor's node list, and whether the edge was seeded with a token
/// because its parent is an entrypoint.
#[derive(Clone, Copy, PartialEq, Eq, Structural, Debug)]
pub struct EdgeInfo {
    pub parent: usize,
    pub child: usize,
    pub precharged: bool,
}

/// The slot of the first node other than `i`, at or after `j`, whose name is
/// `name`.
pub open spec fn find_child_from(
    nodes: Seq<TemplateNodeView>,
    i: int,
    name: Seq<char>,
    j: int,
) -> Option<int>
    decreases nodes.len() - j,
{
    if j < 0 || j >= nodes.len() {
        None
    } else if j != i && nodes[j].name == name {
        Some(j)
    } else {
        find_child_from(nodes, i, name, j + 1)
    }
}

/// The slot of the first node other than `i` whose name is `name`.
pub open spec fn find_child(nodes: Seq<TemplateNodeView>, i: int, name: Seq<char>) -> Option<int> {
    find_child_from(nodes, i, name, 0)
}

/// The edges contributed by node `i`'s children from position `k` on, or the
/// first wiring error among them.
pub open spec fn wire_children(
    nodes: Seq<TemplateNodeView>,
    entrypoints: Seq<Seq<char>>,
    i: int,
    k: int,
) -> Result<Seq<EdgeInfo>, GraphErrorView>
    decreases nodes[i].children.len() - k,
{
    if k < 0 || k >= nodes[i].children.len() {
        Ok(Seq::empty())
    } else {
        match find_child(nodes, i, nodes[i].children[k]) {
            Option::None => Err(
                GraphErrorView::UnresolvedChild {
                    parent: nodes[i].name,
                    child: nodes[i].children[k],
                },
            ),
            Option::Some(j) => match wire_children(nodes, entrypoints, i, k + 1) {
                Err(e) => Err(e),
                Ok(rest) => Ok(
                    seq![
                        EdgeInfo {
                            parent: i as usize,
                            child: j as usize,
                            precharged: entrypoints.contains(nodes[i].name),
                        },
                    ] + rest,
                ),
            },
        }
    }
}

/// The edges contributed by the nodes from `i` on, or the first validation
/// error among them: a node without children is refused, then each child
/// name must resolve to another node.
pub open spec fn wire_from(
    nodes: Seq<TemplateNodeView>,
    entrypoints: Seq<Seq<char>>,
    i: int,
) -> Result<Seq<EdgeInfo>, GraphErrorView>
    decreases nodes.len() - i,
{
    if i < 0 || i >= nodes.len() {
        Ok(Seq::empty())
    } else if nodes[i].children.len() == 0 {
        Err(GraphErrorView::NoChildren(nodes[i].name))
    } else {
        match wire_children(nodes, entrypoints, i, 0) {
            Err(e) => Err(e),
            Ok(own) => match wire_from(nodes, entrypoints, i + 1) {
                Err(e) => Err(e),
                Ok(rest) => Ok(own + rest),
            },
        }
    }
}

/// The full wiring of a declared graph: every edge in declaration order, or
/// the first validation error.
pub open spec fn build_edges(
    nodes: Seq<TemplateNodeView>,
    entrypoints: Seq<Seq<char>>,
) -> Result<Seq<EdgeInfo>, GraphErrorView> {
    wire_from(nodes, entrypoints, 0)
}

/// How many edges of the list enter node `t`.
pub open spec fn in_degree(edges: Seq<EdgeInfo>, t: int) -> nat
    decreases edges.len(),
{
    if edges.len() == 0 {
        0
    } else {
        in_degree(edges.drop_last(), t) + if edges.last().child == t {
            1nat
        } else {
            0nat
        }
    }
}

/// A successful scan names a slot in range, distinct from `i`, carrying the
/// searched name.
proof fn lemma_find_child_props(nodes: Seq<TemplateNodeView>, i: int, name: Seq<char>, j0: int)
    requires
        find_child_from(nodes, i, name, j0) is Some,
    ensures
        ({
            let j = find_child_from(nodes, i, name, j0)->Some_0;
            &&& j0 <= j < nodes.len()
            &&& j != i
            &&& nodes[j].name == name
        }),
    decreases nodes.len() - j0,
{
    if j0 < 0 || j0 >= nodes.len() {
    } else if j0 != i && nodes[j0].name == name {
    } else {
        lemma_find_child_props(nodes, i, name, j0 + 1);
    }
}

/// Every edge produced for node `i`'s children from `k` on leaves node `i`,
/// enters another node in range, and is pre-charged exactly when node `i` is
/// an entrypoint.
proof fn lemma_wire_children_edges(
    nodes: Seq<TemplateNodeView>,
    entrypoints: Seq<Seq<char>>,
    i: int,
    k: int,
)
    requires
        nodes.len() <= usize::MAX,
        0 <= i < nodes.len(),
        wire_children(nodes, entrypoints, i, k) is Ok,
    ensures
        ({
            let es = wire_children(nodes, entrypoints, i, k)->Ok_0;
            forall|x: int|
                0 <= x < es.len() ==> {
                    let e = #[trigger] es[x];
                    &&& e.parent == i
                    &&& 0 <= e.child < nodes.len()
                    &&& e.child != e.parent
                    &&& e.precharged == entrypoints.contains(nodes[i].name)
                }
        }),
    decreases nodes[i].children.len() - k,
{
    if k < 0 || k >= nodes[i].children.len() {
    } else {
        match find_child(nodes, i, nodes[i].children[k]) {
            Option::None => {},
            Option::Some(j) => {
                lemma_find_child_props(nodes, i, nodes[i].children[k], 0);
                match wire_children(nodes, entrypoints, i, k + 1) {
                    Err(_) => {},
                    Ok(rest) => {
                        lemma_wire_children_edges(nodes, entrypoints, i, k + 1);
                        let head = EdgeInfo {
                            parent: i as usize,
                            child: j as usize,
                            precharged: entrypoints.contains(nodes[i].name),
                        };
                        let es = seq![head] + rest;
                        assert forall|x: int| 0 <= x < es.len() implies {
                            let e = #[trigger] es[x];
                            &&& e.parent == i
                            &&& 0 <= e.child < nodes.len()
                            &&& e.child != e.parent
                            &&& e.precharged == entrypoints.contains(nodes[i].name)
                        } by {
                            if x == 0 {
                                assert(es[x] == head);
                            } else {
                                assert(es[x] == rest[x - 1]);
                            }
                        }
                    },
                }
            },
        }
    }
}

/// Every edge produced by wiring the nodes from `i` on leaves a node at or
/// after `i`, enters another node in range, and is pre-charged exactly when
/// its parent is an entrypoint.
proof fn lemma_wire_from_edges(nodes: Seq<TemplateNodeView>, entrypoints: Seq<Seq<char>>, i: int)
    requires
        nodes.len() <= usize::MAX,
        wire_from(nodes, entrypoints, i) is Ok,
    ensures
        ({
            let es = wire_from(nodes, entrypoints, i)->Ok_0;
            forall|x: int|
                0 <= x < es.len() ==> {
                    let e = #[trigger] es[x];
                    &&& i <= e.parent < nodes.len()
                    &&& 0 <= e.child < nodes.len()
                    &&& e.child != e.parent
                    &&& e.precharged == entrypoints.contains(nodes[e.parent as int].name)
                }
        }),
    decreases nodes.len() - i,
{
    if i < 0 || i >= nodes.len() {
    } else if nodes[i].children.len() == 0 {
    } else {
        match wire_children(nodes, entrypoints, i, 0) {
            Err(_) => {},
            Ok(own) => {
                lemma_wire_children_edges(nodes, entrypoints, i, 0);
                match wire_from(nodes, entrypoints, i + 1) {
                    Err(_) => {},
                    Ok(rest) => {
                        lemma_wire_from_edges(nodes, entrypoints, i + 1);
                        let es = own + rest;
                        assert forall|x: int| 0 <= x < es.len() implies {
                            let e = #[trigger] es[x];
                            &&& i <= e.parent < nodes.len()
                            &&& 0 <= e.child < nodes.len()
                            &&& e.child != e.parent
                            &&& e.precharged == entrypoints.contains(nodes[e.parent as int].name)
                        } by {
                            if x < own.len() {
                                assert(es[x] == own[x]);
                            } else {
                                assert(es[x] == rest[x - own.len()]);
                            }
                        }
                    },
                }
            },
        }
    }
}

/// Entrypoint pre-charge: in a graph that builds successfully, an edge is
/// seeded with a token exactly when the node it leaves is named among the
/// entrypoints, so the first wait of each entrypoint child can proceed
/// before anything has ticked. Every edge also runs between two distinct
/// nodes of the graph.
pub proof fn lemma_entrypoint_precharge(nodes: Seq<TemplateNodeView>, entrypoints: Seq<Seq<char>>)
    requires
        nodes.len() <= usize::MAX,
        build_edges(nodes, entrypoints) is Ok,
    ensures
        ({
            let es = build_edges(nodes, entrypoints)->Ok_0;
            forall|x: int|
                0 <= x < es.len() ==> {
                    let e = #[trigger] es[x];
                    &&& 0 <= e.parent < nodes.len()
                    &&& 0 <= e.child < nodes.len()
                    &&& e.child != e.parent
                    &&& e.precharged == entrypoints.contains(nodes[e.parent as int].name)
                }
        }),
{
    lemma_wire_from_edges(nodes, entrypoints, 0);
}

/// A wiring error among the nodes at or after `j` is a wiring error of the
/// whole graph: nothing an earlier node contributes can cancel it.
proof fn lemma_wire_from_err_propagates(
    nodes: Seq<TemplateNodeView>,
    entrypoints: Seq<Seq<char>>,
    j: int,
    i: int,
)
    requires
        0 <= j <= i,
        wire_from(nodes, entrypoints, i) is Err,
    ensures
        wire_from(nodes, entrypoints, j) is Err,
    decreases i - j,
{
    if j < i {
        lemma_wire_from_err_propagates(nodes, entrypoints, j + 1, i);
    }
}

/// Sink rejection: a node with an empty children list fails the build,
/// whatever the rest of the graph looks like.
pub proof fn lemma_sink_rejected(nodes: Seq<TemplateNodeView>, entrypoints: Seq<Seq<char>>, i: int)
    requires
        0 <= i < nodes.len(),
        nodes[i].children.len() == 0,
    ensures
        build_edges(nodes, entrypoints) is Err,
{
    assert(wire_from(nodes, entrypoints, i) is Err);
    lemma_wire_from_err_propagates(nodes, entrypoints, 0, i);
}

/// An unresolved child at or after position `k` fails the wiring of node
/// `i`'s whole child list.
proof fn lemma_wire_children_err_propagates(
    nodes: Seq<TemplateNodeView>,
    entrypoints: Seq<Seq<char>>,
    i: int,
    k0: int,
    k: int,
)
    requires
        0 <= i < nodes.len(),
        0 <= k0 <= k,
        wire_children(nodes, entrypoints, i, k) is Err,
    ensures
        wire_children(nodes, entrypoints, i, k0) is Err,
    decreases k - k0,
{
    if k0 < k {
        lemma_wire_children_err_propagates(nodes, entrypoints, i, k0 + 1, k);
    }
}

/// Dangling edge rejection: a declared child name that no other node
/// carries fails the build, whatever the rest of the graph looks like.
pub proof fn lemma_dangling_child_rejected(
    nodes: Seq<TemplateNodeView>,
    entrypoints: Seq<Seq<char>>,
    i: int,
    k: int,
)
    requires
        0 <= i < nodes.len(),
        0 <= k < nodes[i].children.len(),
        find_child(nodes, i, nodes[i].children[k]) is None,
    ensures
        build_edges(nodes, entrypoints) is Err,
{
    assert(wire_children(nodes, entrypoints, i, k) is Err);
    lemma_wire_children_err_propagates(nodes, entrypoints, i, 0, k);
    assert(wire_from(nodes, entrypoints, i) is Err);
    lemma_wire_from_err_propagates(nodes, entrypoints, 0, i);
}

/// Appending one edge raises exactly its child's in-degree by one.
proof fn lemma_in_degree_push(edges: Seq<EdgeInfo>, e: EdgeInfo, t: int)
    ensures
        in_degree(edges.push(e), t) == in_degree(edges, t) + if e.child == t {
            1nat
        } else {
            0nat
        },
{
    assert(edges.push(e).drop_last() =~= edges);
}

/// A participant in the synchronization graph: it carries a name, can be
/// offered candidate nodes to claim, remembers the names it claimed, and can
/// say whether everything it requires has been claimed.
pub trait SynchronizationDependent: Sized {
    /// The participant's name. The default stands for implementations
    /// outside the verified world; a verified participant overrides it.
    open spec fn name_spec(&self) -> Seq<char> {
        Seq::empty()
    }

    /// The names of the nodes claimed so far, in claim order. The default
    /// stands for implementations outside the verified world; a verified
    /// participant overrides it.
    open spec fn submitted_spec(&self) -> Seq<Seq<char>> {
        Seq::empty()
    }

    /// Whether every node this participant requires has been claimed. The
    /// default stands for implementations outside the verified world; a
    /// verified participant overrides it.
    open spec fn values_filled_spec(&self) -> bool {
        false
    }

    /// The participant's name.
    fn name(&self) -> (r: String)
        ensures
            r@ == self.name_spec(),
    ;

    /// Records one more claimed node name.
    fn push_submitted_node_list(&mut self, name: String)
        ensures
            final(self).name_spec() == old(self).name_spec(),
            final(self).submitted_spec() == old(self).submitted_spec().push(name@),
            final(self).values_filled_spec() == old(self).values_filled_spec(),
    ;

    /// Offers one candidate node. A participant that recognizes the node by
    /// name keeps the node's runtime slot and answers `Success`; any other
    /// node is answered `NotFound`. Claiming must neither rename the
    /// participant nor touch its claim diary.
    fn submit_node(&mut self, node: &TemplateSynchronizationNode) -> (r: SubmissionResult)
        ensures
            final(self).name_spec() == old(self).name_spec(),
            final(self).submitted_spec() == old(self).submitted_spec(),
    ;

    /// The names of the nodes claimed so far, in claim order.
    fn submitted_node_list(&self) -> (r: &Vec<String>)
        ensures
            string_views(r@) == self.submitted_spec(),
    ;

    /// Whether every node this participant requires has been claimed.
    fn values_filled(&self) -> (r: bool)
        ensures
            r == self.values_filled_spec(),
    ;

    /// Offers every node of the list, newest declaration first, recording
    /// the name of each successful claim. The claim diary grows by exactly
    /// the accepted names, read in that reverse declaration order.
    fn submit_nodes(&mut self, list: &Vec<TemplateSynchronizationNode>)
        ensures
            final(self).name_spec() == old(self).name_spec(),
            old(self).submitted_spec().is_prefix_of(final(self).submitted_spec()),
            subsequence_of(
                final(self).submitted_spec().skip(old(self).submitted_spec().len() as int),
                list@.map_values(|n: TemplateSynchronizationNode| n@.name).reverse(),
            ),
            list@.len() == 0 ==> *final(self) == *old(self),
    {
        let ghost names_rev = list@.map_values(|n: TemplateSynchronizationNode| n@.name).reverse();
        let ghost start = old(self).submitted_spec();
        let mut i: usize = list.len();
        proof {
            assert(start.skip(start.len() as int) =~= Seq::<Seq<char>>::empty());
            assert(names_rev.take(0) =~= Seq::<Seq<char>>::empty());
        }
        while i > 0
            invariant
                i <= list@.len(),
                list@.len() == 0 ==> *self == *old(self),
                names_rev == list@.map_values(|n: TemplateSynchronizationNode| n@.name).reverse(),
                start == old(self).submitted_spec(),
                self.name_spec() == old(self).name_spec(),
                start.is_prefix_of(self.submitted_spec()),
                subsequence_of(
                    self.submitted_spec().skip(start.len() as int),
                    names_rev.take(list@.len() - i),
                ),
            decreases i,
        {
            i = i - 1;
            let ghost before = self.submitted_spec();
            let verdict = self.submit_node(&list[i]);
            match verdict {
                SubmissionResult::Success => {
                    let claimed = list[i].name();
                    self.push_submitted_node_list(claimed);
                    proof {
                        let done = list@.len() - i;
                        assert(names_rev.take(done) =~= names_rev.take(done - 1).push(
                            names_rev[done - 1],
                        ));
                        assert(names_rev[done - 1] == list@[i as int]@.name);
                        assert(self.submitted_spec().skip(start.len() as int) =~= before.skip(
                            start.len() as int,
                        ).push(list@[i as int]@.name));
                        lemma_subsequence_extend(
                            before.skip(start.len() as int),
                            names_rev.take(done - 1),
                            list@[i as int]@.name,
                        );
                    }
                },
                SubmissionResult::NotFound => {
                    proof {
                        let done = list@.len() - i;
                        assert(names_rev.take(done) =~= names_rev.take(done - 1).push(
                            names_rev[done - 1],
                        ));
                        lemma_subsequence_grow(
                            self.submitted_spec().skip(start.len() as int),
                            names_rev.take(done - 1),
                            names_rev[done - 1],
                        );
                    }
                },
            }
        }
        proof {
            assert(names_rev.take(list@.len() as int) =~= names_rev);
        }
    }
}

/// The mathematical value of a graph builder: the declared nodes and the
/// registered tasks.
#[verifier::ext_equal]
pub ghost struct SynchronizationGraphTemplateView<T> {
    pub nodes: Seq<TemplateNodeView>,
    pub tasks: Seq<T>,
}

/// Accumulates named node declarations and task claims, validates the
/// resulting graph, wires its edges, and hands a runnable executor out.
pub struct SynchronizationGraphTemplate<T> {
    nodes: Vec<TemplateSynchronizationNode>,
    required_by: Vec<T>,
}

impl<T> View for SynchronizationGraphTemplate<T> {
    type V = SynchronizationGraphTemplateView<T>;

    closed spec fn view(&self) -> SynchronizationGraphTemplateView<T> {
        SynchronizationGraphTemplateView {
            nodes: template_views(self.nodes@),
            tasks: self.required_by@,
        }
    }
}

/// The names of a sequence of declared nodes.
pub open spec fn node_names(nodes: Seq<TemplateNodeView>) -> Seq<Seq<char>> {
    nodes.map_values(|n: TemplateNodeView| n.name)
}

/// The names of a sequence of tasks.
pub open spec fn task_names<T: SynchronizationDependent>(tasks: Seq<T>) -> Seq<Seq<char>> {
    tasks.map_values(|t: T| t.name_spec())
}

impl<T> Default for SynchronizationGraphTemplate<T> {
    /// A builder with no nodes and no tasks.
    fn default() -> (r: Self)
        ensures
            r@.nodes.len() == 0,
            r@.tasks.len() == 0,
    {
        SynchronizationGraphTemplate { nodes: Vec::new(), required_by: Vec::new() }
    }
}

/// The slot of the first node other than `i` named `name`, as a linear scan.
fn find_child_slot(
    nodes: &Vec<TemplateSynchronizationNode>,
    i: usize,
    name: &String,
) -> (r: Option<usize>)
    ensures
        ({
            let nv = template_views(nodes@);
            match r {
                Some(j) => find_child(nv, i as int, name@) == Some(j as int) && j < nodes@.len()
                    && j != i,
                None => find_child(nv, i as int, name@) is None,
            }
        }),
{
    let ghost nv = template_views(nodes@);
    let mut j: usize = 0;
    while j < nodes.len()
        invariant
            j <= nodes@.len(),
            nv == template_views(nodes@),
            find_child(nv, i as int, name@) == find_child_from(nv, i as int, name@, j as int),
        decreases nodes@.len() - j,
    {
        if j != i && nodes[j].name == *name {
            proof {
                assert(nv[j as int].name == name@);
            }
            return Some(j);
        }
        proof {
            assert(find_child_from(nv, i as int, name@, j as int) == find_child_from(
                nv,
                i as int,
                name@,
                j + 1,
            ));
        }
        j = j + 1;
    }
    None
}

impl<T: Task> SynchronizationGraphTemplate<T> {
    /// The declared nodes, in declaration order.
    pub fn node_list(&self) -> (r: &Vec<TemplateSynchronizationNode>)
        ensures
            template_views(r@) == self@.nodes,
    {
        &self.nodes
    }

    /// Registers a task. Fails, changing nothing, exactly when a task of the
    /// same name was registered before.
    pub fn push_dependency(&mut self, requirement: T) -> (r: Result<(), GraphError>)
        ensures
            match r {
                Ok(()) => {
                    &&& !task_names(old(self)@.tasks).contains(requirement.name_spec())
                    &&& final(self)@.nodes == old(self)@.nodes
                    &&& final(self)@.tasks == old(self)@.tasks.push(requirement)
                },
                Err(e) => {
                    &&& task_names(old(self)@.tasks).contains(requirement.name_spec())
                    &&& e@ == GraphErrorView::DuplicateName(requirement.name_spec())
                    &&& final(self)@ == old(self)@
                },
            },
    {
        let fresh_name = requirement.name();
        let mut i: usize = 0;
        while i < self.required_by.len()
            invariant
                i <= self.required_by@.len(),
                fresh_name@ == requirement.name_spec(),
                forall|k: int|
                    0 <= k < i ==> task_names(self@.tasks)[k] != requirement.name_spec(),
            decreases self.required_by@.len() - i,
        {
            if self.required_by[i].name() == fresh_name {
                proof {
                    assert(task_names(self@.tasks)[i as int] == requirement.name_spec());
                }
                return Err(GraphError::DuplicateName(fresh_name));
            }
            i = i + 1;
        }
        proof {
            assert(forall|k: int|
                0 <= k < task_names(self@.tasks).len() ==> task_names(self@.tasks)[k]
                    != requirement.name_spec());
        }
        self.required_by.push(requirement);
        Ok(())
    }

    /// Declares a node. Fails, changing nothing, exactly when a node of the
    /// same name was declared before; otherwise the node is appended and its
    /// runtime slot assigned.
    pub fn push_node(&mut self, node: TemplateSynchronizationNode) -> (r: Result<(), GraphError>)
        ensures
            match r {
                Ok(()) => {
                    &&& !node_names(old(self)@.nodes).contains(node@.name)
                    &&& final(self)@.tasks == old(self)@.tasks
                    &&& final(self)@.nodes == old(self)@.nodes.push(
                        TemplateNodeView {
                            name: node@.name,
                            children: node@.children,
                            slot: old(self)@.nodes.len() as int,
                        },
                    )
                },
                Err(e) => {
                    &&& node_names(old(self)@.nodes).contains(node@.name)
                    &&& e@ == GraphErrorView::DuplicateName(node@.name)
                    &&& final(self)@ == old(self)@
                },
            },
    {
        let fresh_name = node.name();
        let mut i: usize = 0;
        while i < self.nodes.len()
            invariant
                i <= self.nodes@.len(),
                fresh_name@ == node@.name,
                forall|k: int| 0 <= k < i ==> node_names(self@.nodes)[k] != node@.name,
            decreases self.nodes@.len() - i,
        {
            if self.nodes[i].name() == fresh_name {
                proof {
                    assert(node_names(self@.nodes)[i as int] == node@.name);
                }
                return Err(GraphError::DuplicateName(fresh_name));
            }
            i = i + 1;
        }
        proof {
            assert(forall|k: int|
                0 <= k < node_names(self@.nodes).len() ==> node_names(self@.nodes)[k]
                    != node@.name);
        }
        let mut node = node;
        let ghost incoming = node@;
        node.node = self.nodes.len();
        proof {
            assert(node@ =~= (TemplateNodeView {
                name: incoming.name,
                children: incoming.children,
                slot: self.nodes@.len() as int,
            }));
        }
        self.nodes.push(node);
        proof {
            assert(self@.nodes =~= old(self)@.nodes.push(node@));
        }
        Ok(())
    }

    /// Validates the declared graph, wires its edges, resolves every task's
    /// claims, and hands back a runnable executor. A node without children,
    /// a child name no other node carries, or a task that finishes claiming
    /// incomplete each fail the build; edges leaving a node named in
    /// `entrypoints` are seeded with one token so a cyclic graph can start.
    #[verifier::rlimit(60)]
    pub fn build_and_submit(self, entrypoints: Vec<String>) -> (r: Result<
        TaskExecutor<T>,
        GraphError,
    >)
        ensures
            ({
                let nodes_v = self@.nodes;
                let eps_v = string_views(entrypoints@);
                match build_edges(nodes_v, eps_v) {
                    Err(we) => r matches Err(e) && e@ == we,
                    Ok(edges) => match r {
                        Ok(ex) => {
                            &&& ex.edges@ == edges
                            &&& ex.inner.task_list@.len() == self@.tasks.len()
                            &&& forall|d: int|
                                0 <= d < self@.tasks.len()
                                    ==> #[trigger] ex.inner.task_list@[d].name_spec()
                                    == self@.tasks[d].name_spec()
                            &&& forall|d: int|
                                0 <= d < self@.tasks.len()
                                    ==> #[trigger] ex.inner.task_list@[d].values_filled_spec()
                            &&& forall|d: int|
                                0 <= d < self@.tasks.len()
                                    ==> self@.tasks[d].submitted_spec().is_prefix_of(
                                    #[trigger] ex.inner.task_list@[d].submitted_spec(),
                                )
                            &&& forall|d: int|
                                0 <= d < self@.tasks.len() ==> subsequence_of(
                                    (#[trigger] ex.inner.task_list@[d].submitted_spec()).skip(
                                        self@.tasks[d].submitted_spec().len() as int,
                                    ),
                                    node_names(nodes_v).reverse(),
                                )
                            &&& ex.inner.nodes@.len() == nodes_v.len()
                            &&& forall|q: int|
                                0 <= q < nodes_v.len() ==> (#[trigger] ex.inner.nodes@[q]@).children
                                    == nodes_v[q].children.len()
                            &&& forall|q: int|
                                0 <= q < nodes_v.len() ==> (#[trigger] ex.inner.nodes@[q]@).parents
                                    == in_degree(edges, q)
                        },
                        Err(e) => {
                            &&& e@ matches GraphErrorView::UnfilledDependency { task, submitted }
                            &&& exists|d: int|
                                0 <= d < self@.tasks.len()
                                    && e@->UnfilledDependency_task
                                    == #[trigger] self@.tasks[d].name_spec()
                                    && self@.tasks[d].submitted_spec().is_prefix_of(
                                    e@->UnfilledDependency_submitted,
                                )
                                    && subsequence_of(
                                    (e@->UnfilledDependency_submitted).skip(
                                        self@.tasks[d].submitted_spec().len() as int,
                                    ),
                                    node_names(nodes_v).reverse(),
                                )
                            &&& exists|tp: T|
                                #[trigger] tp.name_spec() == e@->UnfilledDependency_task
                                    && tp.submitted_spec() == e@->UnfilledDependency_submitted
                                    && !tp.values_filled_spec()
                        },
                    },
                }
            }),
    {
        let ghost self_view = self@;
        let SynchronizationGraphTemplate { nodes, required_by } = self;
        let ghost nodes_v = template_views(nodes@);
        let ghost eps_v = string_views(entrypoints@);
        proof {
            assert(nodes_v == self_view.nodes);
        }
        let n = nodes.len();

        let mut runtime: Vec<SynchronizationNode> = Vec::new();
        let mut t: usize = 0;
        while t < n
            invariant
                t <= n,
                runtime@.len() == t,
                forall|q: int|
                    0 <= q < t ==> (#[trigger] runtime@[q]@).parents == 0 && runtime@[q]@.children
                        == 0,
            decreases n - t,
        {
            runtime.push(SynchronizationNode::default());
            t = t + 1;
        }

        let mut edges: Vec<EdgeInfo> = Vec::new();
        proof {
            assert(forall|q: int| in_degree(edges@, q) == 0);
        }
        let mut i: usize = 0;
        while i < n
            invariant
                i <= n,
                n == nodes@.len(),
                nodes_v == template_views(nodes@),
                self_view == self@,
                nodes_v == self_view.nodes,
                eps_v == string_views(entrypoints@),
                runtime@.len() == n,
                forall|q: int|
                    0 <= q < n ==> (#[trigger] runtime@[q]@).parents == in_degree(edges@, q),
                forall|q: int|
                    0 <= q < i ==> (#[trigger] runtime@[q]@).children == nodes_v[q].children.len(),
                forall|q: int| i <= q < n ==> (#[trigger] runtime@[q]@).children == 0,
                match wire_from(nodes_v, eps_v, i as int) {
                    Ok(rest) => build_edges(nodes_v, eps_v) == Ok::<_, GraphErrorView>(
                        edges@ + rest,
                    ),
                    Err(e) => build_edges(nodes_v, eps_v) == Err::<Seq<EdgeInfo>, _>(e),
                },
            decreases n - i,
        {
            if nodes[i].children.len() == 0 {
                proof {
                    assert(nodes_v[i as int] == nodes@[i as int]@);
                    assert(wire_from(nodes_v, eps_v, i as int) == Err::<Seq<EdgeInfo>, _>(
                        GraphErrorView::NoChildren(nodes_v[i as int].name),
                    ));
                }
                return Err(GraphError::NoChildren(nodes[i].name()));
            }
            let ghost edges_at_start = edges@;
            let child_total = nodes[i].children.len();
            let mut k: usize = 0;
            while k < child_total
                invariant
                    i < n,
                    n == nodes@.len(),
                    nodes_v == template_views(nodes@),
                    self_view == self@,
                    nodes_v == self_view.nodes,
                    eps_v == string_views(entrypoints@),
                    child_total == nodes_v[i as int].children.len(),
                    child_total > 0,
                    k <= child_total,
                    runtime@.len() == n,
                    forall|q: int|
                        0 <= q < n ==> (#[trigger] runtime@[q]@).parents == in_degree(edges@, q),
                    forall|q: int|
                        0 <= q < i ==> (#[trigger] runtime@[q]@).children == nodes_v[q].children.len(),
                    runtime@[i as int]@.children == k,
                    forall|q: int|
                        i < q < n ==> (#[trigger] runtime@[q]@).children == 0,
                    edges_at_start.is_prefix_of(edges@),
                    match wire_children(nodes_v, eps_v, i as int, k as int) {
                        Ok(rest) => wire_children(nodes_v, eps_v, i as int, 0) == Ok::<
                            _,
                            GraphErrorView,
                        >(edges@.skip(edges_at_start.len() as int) + rest),
                        Err(e) => wire_children(nodes_v, eps_v, i as int, 0) == Err::<
                            Seq<EdgeInfo>,
                            _,
                        >(e),
                    },
                    match wire_from(nodes_v, eps_v, i as int) {
                        Ok(rest) => build_edges(nodes_v, eps_v) == Ok::<_, GraphErrorView>(
                            edges_at_start + rest,
                        ),
                        Err(e) => build_edges(nodes_v, eps_v) == Err::<Seq<EdgeInfo>, _>(e),
                    },
                decreases child_total - k,
            {
                proof {
                    assert(nodes_v[i as int].children[k as int] == nodes@[i as int].children@[k as int]@);
                }
                match find_child_slot(&nodes, i, &nodes[i].children[k]) {
                    None => {
                        proof {
                            let we = GraphErrorView::UnresolvedChild {
                                parent: nodes_v[i as int].name,
                                child: nodes_v[i as int].children[k as int],
                            };
                            assert(wire_children(nodes_v, eps_v, i as int, k as int) == Err::<
                                Seq<EdgeInfo>,
                                _,
                            >(we));
                            assert(wire_from(nodes_v, eps_v, i as int) == Err::<Seq<EdgeInfo>, _>(
                                we,
                            ));
                        }
                        let failed = GraphError::UnresolvedChild {
                            parent: nodes[i].name(),
                            child: nodes[i].children[k].clone(),
                        };
                        proof {
                            let we = GraphErrorView::UnresolvedChild {
                                parent: nodes_v[i as int].name,
                                child: nodes_v[i as int].children[k as int],
                            };
                            assert(build_edges(nodes_v, eps_v) == Err::<Seq<EdgeInfo>, _>(we));
                            assert(failed@ == we);
                        }
                        return Err(failed);
                    },
                    Some(j) => {
                        let (tx, rx) = new_edge_channel();
                        let pre = contains_string(&entrypoints, &nodes[i].name);
                        if pre {
                            // the channel is fresh and this function still
                            // holds its receiver, so the seed send cannot
                            // block or fail.
                            let _seeded = send_token(&tx);
                        }
                        let ghost runtime_before = runtime@;
                        let mut parent_node = runtime.remove(i);
                        parent_node.children.push(tx);
                        runtime.insert(i, parent_node);
                        proof {
                            assert(runtime@ =~= runtime_before.update(
                                i as int,
                                runtime@[i as int],
                            ));
                        }
                        let ghost runtime_mid = runtime@;
                        let mut child_node = runtime.remove(j);
                        child_node.parents.push(rx);
                        runtime.insert(j, child_node);
                        proof {
                            assert(runtime@ =~= runtime_mid.update(j as int, runtime@[j as int]));
                        }
                        let ghost edges_before = edges@;
                        let wired = EdgeInfo { parent: i, child: j, precharged: pre };
                        edges.push(wired);
                        proof {
                            assert(forall|q: int|
                                0 <= q < n && q != i && q != j ==> runtime@[q]
                                    == #[trigger] runtime_before[q]);
                            assert(runtime@[i as int]@.parents == runtime_before[i as int]@.parents);
                            assert(runtime@[i as int]@.children == runtime_before[i as int]@.children + 1);
                            assert(runtime@[j as int]@.parents == runtime_before[j as int]@.parents + 1);
                            assert(runtime@[j as int]@.children == runtime_before[j as int]@.children);
                            assert forall|q: int| 0 <= q < n implies (#[trigger] runtime@[q]@).parents
                                == in_degree(edges@, q) by {
                                lemma_in_degree_push(edges_before, wired, q);
                            }
                            assert(edges@.skip(edges_at_start.len() as int) =~= edges_before.skip(
                                edges_at_start.len() as int,
                            ).push(wired));
                            let spec_edge = EdgeInfo {
                                parent: i as usize,
                                child: j as usize,
                                precharged: eps_v.contains(nodes_v[i as int].name),
                            };
                            assert(wired == spec_edge);
                            match wire_children(nodes_v, eps_v, i as int, k + 1) {
                                Ok(rest) => {
                                    assert(wire_children(nodes_v, eps_v, i as int, k as int)
                                        == Ok::<_, GraphErrorView>(seq![spec_edge] + rest));
                                    assert(edges_before.skip(edges_at_start.len() as int) + (
                                    seq![spec_edge] + rest) =~= edges@.skip(
                                        edges_at_start.len() as int,
                                    ) + rest);
                                },
                                Err(_) => {
                                },
                            }
                        }
                    },
                }
                k = k + 1;
            }
            proof {
                assert(wire_children(nodes_v, eps_v, i as int, k as int) == Ok::<
                    _,
                    GraphErrorView,
                >(Seq::<EdgeInfo>::empty()));
                let own = edges@.skip(edges_at_start.len() as int);
                assert(edges@.skip(edges_at_start.len() as int) + Seq::<EdgeInfo>::empty()
                    =~= own);
                assert(wire_children(nodes_v, eps_v, i as int, 0) == Ok::<_, GraphErrorView>(own));
                match wire_from(nodes_v, eps_v, i + 1) {
                    Ok(rest) => {
                        assert(wire_from(nodes_v, eps_v, i as int) == Ok::<_, GraphErrorView>(
                            own + rest,
                        ));
                        assert(edges_at_start + (own + rest) =~= edges@ + rest);
                    },
                    Err(_) => {
                    },
                }
            }
            i = i + 1;
        }
        proof {
            assert(wire_from(nodes_v, eps_v, n as int) == Ok::<_, GraphErrorView>(
                Seq::<EdgeInfo>::empty(),
            ));
            assert(edges@ + Seq::<EdgeInfo>::empty() =~= edges@);
            assert(build_edges(nodes_v, eps_v) == Ok::<_, GraphErrorView>(edges@));
        }

        let ghost tasks0 = required_by@;
        let mut pending = required_by;
        let mut done: Vec<T> = Vec::new();
        while pending.len() > 0
            invariant
                build_edges(nodes_v, eps_v) == Ok::<_, GraphErrorView>(edges@),
                self_view == self@,
                nodes_v == self_view.nodes,
                nodes_v == template_views(nodes@),
                eps_v == string_views(entrypoints@),
                tasks0 == self_view.tasks,
                done@.len() + pending@.len() == tasks0.len(),
                forall|d: int|
                    0 <= d < done@.len() ==> (#[trigger] done@[d]).name_spec() == tasks0[d].name_spec() && done@[d].values_filled_spec(),
                forall|d: int|
                    0 <= d < done@.len() ==> tasks0[d].submitted_spec().is_prefix_of(
                        (#[trigger] done@[d]).submitted_spec(),
                    ) && subsequence_of(
                        done@[d].submitted_spec().skip(tasks0[d].submitted_spec().len() as int),
                        node_names(nodes_v).reverse(),
                    ),
                forall|d: int|
                    0 <= d < pending@.len() ==> #[trigger] pending@[d] == tasks0[done@.len() + d],
            decreases pending@.len(),
        {
            let ghost position = done@.len() as int;
            let mut task = pending.remove(0);
            proof {
                assert(task == tasks0[position]);
            }
            task.submit_nodes(&nodes);
            proof {
                assert(node_names(nodes_v) =~= nodes@.map_values(
                    |n: TemplateSynchronizationNode| n@.name,
                ));
            }
            if !task.values_filled() {
                let failed = GraphError::UnfilledDependency {
                    task: task.name(),
                    submitted: clone_strings(task.submitted_node_list()),
                };
                proof {
                    assert(task.name_spec() == self_view.tasks[position].name_spec());
                    // the task as the scan left it witnesses that the
                    // reported outcome really is an unfilled one.
                    assert(task.name_spec() == failed@->UnfilledDependency_task);
                    assert(task.submitted_spec() == failed@->UnfilledDependency_submitted);
                    assert(!task.values_filled_spec());
                }
                return Err(failed);
            }
            done.push(task);
        }
        let inner = TaskExecutorInner::new(done, runtime);
        Ok(TaskExecutor { inner, edges })
    }
}

} // verus!
