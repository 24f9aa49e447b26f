use std::time::Duration;

use molecule_engine::publish_control;
use molecule_engine::resolve_control;
use molecule_engine::Controlling;
use molecule_engine::EdgeInfo;
use molecule_engine::ExecutionResolution;
use molecule_engine::GraphError;
use molecule_engine::MoleculeObjektValue;
use molecule_engine::SubmissionResult;
use molecule_engine::SynchronizationDependent;
use molecule_engine::SynchronizationGraphTemplate;
use molecule_engine::SynchronizationNode;
use molecule_engine::Task;
use molecule_engine::TaskControlFlow;
use molecule_engine::TaskExecutor;
use molecule_engine::TaskExecutorInner;
use molecule_engine::TemplateSynchronizationNode;

const FLIP_PREPARE: &str = "flip_prepare";
const FLIP_BREAK_NECK: &str = "flip_break_neck";
const FLOP_READ_NIETZSCHE: &str = "flop_read_nietzsche";

struct FlipTask {
    name: String,
    node_a: Option<usize>,
    node_b: Option<usize>,
    submitted: Vec<String>,
}

impl FlipTask {
    fn new() -> Self {
        FlipTask {
            name: String::from("flipper"),
            node_a: None,
            node_b: None,
            submitted: Vec::new(),
        }
    }
}

impl SynchronizationDependent for FlipTask {
    fn name(&self) -> String {
        self.name.clone()
    }

    fn push_submitted_node_list(&mut self, name: String) {
        self.submitted.push(name);
    }

    fn submit_node(&mut self, node: &TemplateSynchronizationNode) -> SubmissionResult {
        let name = node.name();
        if name == FLIP_PREPARE {
            self.node_a = Some(node.node());
            SubmissionResult::Success
        } else if name == FLIP_BREAK_NECK {
            self.node_b = Some(node.node());
            SubmissionResult::Success
        } else {
            SubmissionResult::NotFound
        }
    }

    fn submitted_node_list(&self) -> &Vec<String> {
        &self.submitted
    }

    fn values_filled(&self) -> bool {
        self.node_a.is_some() && self.node_b.is_some()
    }
}

impl Task for FlipTask {
    fn init(&mut self, _objekt_list: &Vec<MoleculeObjektValue>) {}

    fn tick(&mut self, nodes: &Vec<SynchronizationNode>) -> TaskControlFlow<Self> {
        let a = &nodes[self.node_a.unwrap()];
        let b = &nodes[self.node_b.unwrap()];
        a.wait_for_parents().unwrap();
        b.wait_for_parents().unwrap();
        a.release_children().unwrap();
        b.release_children().unwrap();
        TaskControlFlow::Continue
    }
}

struct FlopTask {
    name: String,
    node_a: Option<usize>,
    submitted: Vec<String>,
}

impl FlopTask {
    fn new() -> Self {
        FlopTask { name: String::from("flopper"), node_a: None, submitted: Vec::new() }
    }
}

impl SynchronizationDependent for FlopTask {
    fn name(&self) -> String {
        self.name.clone()
    }

    fn push_submitted_node_list(&mut self, name: String) {
        self.submitted.push(name);
    }

    fn submit_node(&mut self, node: &TemplateSynchronizationNode) -> SubmissionResult {
        if node.name() == FLOP_READ_NIETZSCHE {
            self.node_a = Some(node.node());
            SubmissionResult::Success
        } else {
            SubmissionResult::NotFound
        }
    }

    fn submitted_node_list(&self) -> &Vec<String> {
        &self.submitted
    }

    fn values_filled(&self) -> bool {
        self.node_a.is_some()
    }
}

impl Task for FlopTask {
    fn init(&mut self, _objekt_list: &Vec<MoleculeObjektValue>) {}

    fn tick(&mut self, nodes: &Vec<SynchronizationNode>) -> TaskControlFlow<Self> {
        let a = &nodes[self.node_a.unwrap()];
        a.wait_for_parents().unwrap();
        a.release_children().unwrap();
        TaskControlFlow::Continue
    }
}

/// Claims every node it is offered; needs at least one claim.
struct GreedyTask {
    name: String,
    slots: Vec<usize>,
    submitted: Vec<String>,
}

impl SynchronizationDependent for GreedyTask {
    fn name(&self) -> String {
        self.name.clone()
    }

    fn push_submitted_node_list(&mut self, name: String) {
        self.submitted.push(name);
    }

    fn submit_node(&mut self, node: &TemplateSynchronizationNode) -> SubmissionResult {
        self.slots.push(node.node());
        SubmissionResult::Success
    }

    fn submitted_node_list(&self) -> &Vec<String> {
        &self.submitted
    }

    fn values_filled(&self) -> bool {
        !self.slots.is_empty()
    }
}

impl Task for GreedyTask {
    fn init(&mut self, _objekt_list: &Vec<MoleculeObjektValue>) {}

    fn tick(&mut self, _nodes: &Vec<SynchronizationNode>) -> TaskControlFlow<Self> {
        TaskControlFlow::Stop(String::from("idle"))
    }
}

fn node(name: &str, children: &[&str]) -> TemplateSynchronizationNode {
    let mut template = TemplateSynchronizationNode::new(name.to_string());
    for child in children {
        template.push_child(child.to_string());
    }
    template
}

fn names(list: &[&str]) -> Vec<String> {
    list.iter().map(|s| s.to_string()).collect()
}

#[test]
fn duplicate_node_names_rejected() {
    let mut graph = SynchronizationGraphTemplate::<FlipTask>::default();
    assert!(graph.push_node(node("a", &["b"])).is_ok());
    match graph.push_node(node("a", &["c"])) {
        Err(GraphError::DuplicateName(n)) => assert_eq!(n, "a"),
        _ => panic!("expected a duplicate-name failure"),
    }
    // another name still goes through after the refusal.
    assert!(graph.push_node(node("b", &["a"])).is_ok());
}

#[test]
fn duplicate_empty_node_names_rejected() {
    let mut graph = SynchronizationGraphTemplate::<FlipTask>::default();
    assert!(graph.push_node(node("", &["b"])).is_ok());
    match graph.push_node(node("", &[])) {
        Err(GraphError::DuplicateName(n)) => assert_eq!(n, ""),
        _ => panic!("expected a duplicate-name failure for the empty name"),
    }
}

#[test]
fn duplicate_task_names_rejected() {
    let mut graph = SynchronizationGraphTemplate::<FlipTask>::default();
    assert!(graph.push_dependency(FlipTask::new()).is_ok());
    match graph.push_dependency(FlipTask::new()) {
        Err(GraphError::DuplicateName(n)) => assert_eq!(n, "flipper"),
        _ => panic!("expected a duplicate-name failure"),
    }
}

#[test]
fn sink_node_rejected() {
    let mut graph = SynchronizationGraphTemplate::<FlipTask>::default();
    graph.push_node(node("a", &["b"])).unwrap();
    graph.push_node(node("b", &[])).unwrap();
    match graph.build_and_submit(names(&["a"])) {
        Err(GraphError::NoChildren(n)) => assert_eq!(n, "b"),
        _ => panic!("expected the childless node to be rejected"),
    }
}

#[test]
fn dangling_child_rejected() {
    let mut graph = SynchronizationGraphTemplate::<FlipTask>::default();
    graph.push_node(node("a", &["missing"])).unwrap();
    match graph.build_and_submit(names(&[])) {
        Err(GraphError::UnresolvedChild { parent, child }) => {
            assert_eq!(parent, "a");
            assert_eq!(child, "missing");
        }
        _ => panic!("expected the unresolved child to be rejected"),
    }
}

#[test]
fn self_loop_rejected() {
    // a node cannot resolve its own name: an edge needs two distinct nodes.
    let mut graph = SynchronizationGraphTemplate::<FlipTask>::default();
    graph.push_node(node("a", &["a"])).unwrap();
    match graph.build_and_submit(names(&[])) {
        Err(GraphError::UnresolvedChild { parent, child }) => {
            assert_eq!(parent, "a");
            assert_eq!(child, "a");
        }
        _ => panic!("expected the self loop to be rejected"),
    }
}

#[test]
fn unfilled_dependency_lists_claims_in_order() {
    let mut graph = SynchronizationGraphTemplate::<FlipTask>::default();
    // only one of the two nodes the flip task requires exists.
    graph.push_node(node(FLIP_PREPARE, &["helper"])).unwrap();
    graph.push_node(node("helper", &[FLIP_PREPARE])).unwrap();
    graph.push_dependency(FlipTask::new()).unwrap();
    match graph.build_and_submit(names(&[])) {
        Err(GraphError::UnfilledDependency { task, submitted }) => {
            assert_eq!(task, "flipper");
            assert_eq!(submitted, vec![FLIP_PREPARE.to_string()]);
        }
        _ => panic!("expected the unfilled task to be reported"),
    }
}

#[test]
fn claims_run_in_reverse_declaration_order() {
    let mut graph = SynchronizationGraphTemplate::<GreedyTask>::default();
    graph.push_node(node("n1", &["n2"])).unwrap();
    graph.push_node(node("n2", &["n3"])).unwrap();
    graph.push_node(node("n3", &["n1"])).unwrap();
    graph
        .push_dependency(GreedyTask {
            name: String::from("greedy"),
            slots: Vec::new(),
            submitted: Vec::new(),
        })
        .unwrap();
    let executor = graph.build_and_submit(names(&["n1"])).unwrap();
    assert_eq!(executor.inner.task_list[0].submitted, names(&["n3", "n2", "n1"]));
    assert_eq!(executor.inner.task_list[0].slots, vec![2, 1, 0]);
}

#[test]
fn entrypoint_edges_are_precharged() {
    let mut graph = SynchronizationGraphTemplate::<GreedyTask>::default();
    graph.push_node(node("a", &["b"])).unwrap();
    graph.push_node(node("b", &["a"])).unwrap();
    let executor = graph.build_and_submit(names(&["a"])).unwrap();
    assert_eq!(
        executor.edges,
        vec![
            EdgeInfo { parent: 0, child: 1, precharged: true },
            EdgeInfo { parent: 1, child: 0, precharged: false },
        ]
    );
    assert_eq!(executor.inner.nodes.len(), 2);

    // the pre-charged token lets the entrypoint's child pass its first wait
    // before anything has ticked, then drive the cycle a few turns alone.
    let nodes = &executor.inner.nodes;
    for _ in 0..3 {
        nodes[1].wait_for_parents().unwrap();
        nodes[1].release_children().unwrap();
        nodes[0].wait_for_parents().unwrap();
        nodes[0].release_children().unwrap();
    }
}

#[test]
fn cycle_makes_progress_for_a_thousand_ticks() {
    let mut graph = SynchronizationGraphTemplate::<SharedTask>::default();
    graph.push_dependency(SharedTask::flip()).unwrap();
    graph.push_dependency(SharedTask::flop()).unwrap();
    graph.push_node(node(FLIP_PREPARE, &[FLOP_READ_NIETZSCHE])).unwrap();
    graph.push_node(node(FLIP_BREAK_NECK, &[FLOP_READ_NIETZSCHE])).unwrap();
    graph
        .push_node(node(FLOP_READ_NIETZSCHE, &[FLIP_PREPARE, FLIP_BREAK_NECK]))
        .unwrap();
    let executor = graph
        .build_and_submit(names(&[FLIP_PREPARE, FLIP_BREAK_NECK]))
        .unwrap();

    let TaskExecutor { inner, edges: _ } = executor;
    let TaskExecutorInner { mut task_list, nodes } = inner;
    let mut flop = task_list.pop().unwrap();
    let mut flip = task_list.pop().unwrap();
    assert!(task_list.is_empty());

    crossbeam::thread::scope(|scope| {
        let nodes_for_flip = &nodes;
        let nodes_for_flop = &nodes;
        scope.spawn(move |_| {
            for _ in 0..1000 {
                match flip.tick(nodes_for_flip) {
                    TaskControlFlow::Continue => {}
                    _ => panic!("flip stopped early"),
                }
            }
        });
        scope.spawn(move |_| {
            for _ in 0..1000 {
                match flop.tick(nodes_for_flop) {
                    TaskControlFlow::Continue => {}
                    _ => panic!("flop stopped early"),
                }
            }
        });
    })
    .unwrap();
}

/// One task shape that can play either role of the flip/flop cycle.
struct SharedTask {
    name: String,
    wanted: Vec<&'static str>,
    slots: Vec<usize>,
    submitted: Vec<String>,
}

impl SharedTask {
    fn flip() -> Self {
        SharedTask {
            name: String::from("flipper"),
            wanted: vec![FLIP_PREPARE, FLIP_BREAK_NECK],
            slots: Vec::new(),
            submitted: Vec::new(),
        }
    }

    fn flop() -> Self {
        SharedTask {
            name: String::from("flopper"),
            wanted: vec![FLOP_READ_NIETZSCHE],
            slots: Vec::new(),
            submitted: Vec::new(),
        }
    }
}

impl SynchronizationDependent for SharedTask {
    fn name(&self) -> String {
        self.name.clone()
    }

    fn push_submitted_node_list(&mut self, name: String) {
        self.submitted.push(name);
    }

    fn submit_node(&mut self, node: &TemplateSynchronizationNode) -> SubmissionResult {
        let name = node.name();
        if self.wanted.iter().any(|w| *w == name) {
            self.slots.push(node.node());
            SubmissionResult::Success
        } else {
            SubmissionResult::NotFound
        }
    }

    fn submitted_node_list(&self) -> &Vec<String> {
        &self.submitted
    }

    fn values_filled(&self) -> bool {
        self.slots.len() == self.wanted.len()
    }
}

impl Task for SharedTask {
    fn init(&mut self, _objekt_list: &Vec<MoleculeObjektValue>) {}

    fn tick(&mut self, nodes: &Vec<SynchronizationNode>) -> TaskControlFlow<Self> {
        for slot in &self.slots {
            nodes[*slot].wait_for_parents().unwrap();
        }
        for slot in &self.slots {
            nodes[*slot].release_children().unwrap();
        }
        TaskControlFlow::Continue
    }
}

#[test]
fn second_release_blocks_until_consumed() {
    let mut graph = SynchronizationGraphTemplate::<GreedyTask>::default();
    graph.push_node(node("a", &["b"])).unwrap();
    graph.push_node(node("b", &["a"])).unwrap();
    let executor = graph.build_and_submit(names(&["a"])).unwrap();
    let nodes = executor.inner.nodes;

    let (started_tx, started_rx) = crossbeam::channel::bounded::<()>(1);
    let (released_tx, released_rx) = crossbeam::channel::bounded::<()>(1);

    crossbeam::thread::scope(|scope| {
        let producer_nodes = &nodes;
        scope.spawn(move |_| {
            started_tx.send(()).unwrap();
            // the edge leaving the entrypoint already holds its seed token,
            // so this release must block until the consumer takes that one.
            producer_nodes[0].release_children().unwrap();
            released_tx.send(()).unwrap();
        });

        started_rx.recv().unwrap();
        // the producer must still be stuck in its release: the single slot
        // is full and nothing may be dropped or overwritten.
        assert!(released_rx.recv_timeout(Duration::from_millis(300)).is_err());

        // consuming the seed token lets the blocked release go through.
        nodes[1].wait_for_parents().unwrap();
        assert!(released_rx.recv_timeout(Duration::from_secs(10)).is_ok());

        // exactly one token again: the consumer can wait once more.
        nodes[1].wait_for_parents().unwrap();
    })
    .unwrap();
}

#[test]
fn edgeless_sides_never_block() {
    // node c feeds the cycle but nothing feeds c: its wait has no edge to
    // wait on and must come back at once.
    let mut graph = SynchronizationGraphTemplate::<GreedyTask>::default();
    graph.push_node(node("a", &["b"])).unwrap();
    graph.push_node(node("b", &["a"])).unwrap();
    graph.push_node(node("c", &["a"])).unwrap();
    let executor = graph.build_and_submit(names(&[])).unwrap();
    assert!(executor.inner.nodes[2].wait_for_parents().is_ok());
}

#[test]
fn dropped_neighbour_breaks_the_edge() {
    let mut graph = SynchronizationGraphTemplate::<GreedyTask>::default();
    graph.push_node(node("a", &["b"])).unwrap();
    graph.push_node(node("b", &["a"])).unwrap();
    // no entrypoints: every slot starts empty.
    let executor = graph.build_and_submit(names(&[])).unwrap();
    let mut nodes = executor.inner.nodes;
    // dropping node a tears down its half of both edges.
    drop(nodes.remove(0));
    let b = &nodes[0];
    assert!(matches!(
        b.wait_for_parents(),
        Err(molecule_engine::SyncRuntimeError::BrokenParentEdge { index: 0 })
    ));
    assert!(matches!(
        b.release_children(),
        Err(molecule_engine::SyncRuntimeError::BrokenChildEdge { index: 0 })
    ));
}

#[test]
fn first_published_stop_wins_and_resolves() {
    let mut control: TaskControlFlow<u8> = TaskControlFlow::Continue;
    assert!(control.is_continue());
    publish_control(&mut control, TaskControlFlow::Stop(String::from("x")));
    assert!(!control.is_continue());
    publish_control(&mut control, TaskControlFlow::Stop(String::from("y")));
    match resolve_control(control) {
        ExecutionResolution::Stopped(message) => assert_eq!(message, "x"),
        _ => panic!("expected the first stop message to surface"),
    }
}

#[test]
fn rebuild_signal_hands_replacement_over_unchanged() {
    let replacement = TaskExecutorInner::new(vec![10u8, 20u8], Vec::new());
    let mut control: TaskControlFlow<u8> = TaskControlFlow::Continue;
    publish_control(&mut control, TaskControlFlow::RebuildTasks(replacement));
    match resolve_control(control) {
        ExecutionResolution::Rebuild(next) => {
            assert_eq!(next.task_list, vec![10u8, 20u8]);
            assert_eq!(next.nodes.len(), 0);
        }
        _ => panic!("expected the replacement generation back"),
    }
}

#[test]
fn continue_after_drain_is_a_violation() {
    match resolve_control(TaskControlFlow::<u8>::Continue) {
        ExecutionResolution::ContinueViolation => {}
        _ => panic!("expected the internal-consistency violation"),
    }
}

#[test]
fn publishing_continue_changes_nothing() {
    let mut control: TaskControlFlow<u8> = TaskControlFlow::Stop(String::from("done"));
    publish_control(&mut control, TaskControlFlow::Continue);
    match resolve_control(control) {
        ExecutionResolution::Stopped(message) => assert_eq!(message, "done"),
        _ => panic!("expected the stop to survive"),
    }
}

#[test]
fn controlling_is_always_filled() {
    let mut task = Controlling { name: String::from("control"), submitted_node_list: Vec::new() };
    assert!(task.values_filled());
    assert_eq!(task.name(), "control");
    assert!(matches!(
        task.submit_node(&node("a", &["b"])),
        SubmissionResult::NotFound
    ));
    task.push_submitted_node_list(String::from("a"));
    assert_eq!(task.submitted_node_list(), &vec![String::from("a")]);
}

#[test]
fn node_list_reflects_declarations() {
    let mut graph = SynchronizationGraphTemplate::<FlipTask>::default();
    graph.push_node(node("a", &["b"])).unwrap();
    graph.push_node(node("b", &["a"])).unwrap();
    let list = graph.node_list();
    assert_eq!(list.len(), 2);
    assert_eq!(list[0].name(), "a");
    assert_eq!(list[1].name(), "b");
    assert_eq!(list[0].node(), 0);
    assert_eq!(list[1].node(), 1);
}
