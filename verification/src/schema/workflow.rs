//! The document that describes a workflow: steps, and how the output of one
//! step feeds the input of another.

use vstd::prelude::*;
use crate::schema::command_line_tool::CommandLineTool;
use crate::schema::requirements::WorkflowRequirement;
use crate::schema::types::{sources_of, Any, CwlSchemaType, Documentation, Scatter, Source};
use crate::text::str_eq;

verus! {

/// The graph type of petgraph, held as it is.
#[verifier::external_type_specification]
#[verifier::external_body]
#[verifier::reject_recursive_types(N)]
#[verifier::reject_recursive_types(E)]
#[verifier::reject_recursive_types(Ty)]
#[verifier::reject_recursive_types(Ix)]
pub struct ExGraph<N, E, Ty, Ix>(petgraph::graph::Graph<N, E, Ty, Ix>);

/// The marker of petgraph for graphs whose edges have a direction.
#[verifier::external_type_specification]
#[verifier::external_body]
pub struct ExDirected(petgraph::Directed);

/// The graph of a workflow: one node for each step, named after the step,
/// and one edge for each input of a step that comes from another step.
pub type StepGraph = petgraph::graph::Graph<String, String, petgraph::Directed, u32>;

/// The names on the nodes of a graph, in the order of the nodes.
pub uninterp spec fn graph_nodes(graph: StepGraph) -> Seq<Seq<char>>;

/// The edges of a graph in the order in which they were added, each from
/// the position of one node to that of another.
pub uninterp spec fn graph_edges(graph: StepGraph) -> Seq<(int, int)>;

/// The labels on the edges of a graph, in the order in which the edges were
/// added.
pub uninterp spec fn graph_labels(graph: StepGraph) -> Seq<Seq<char>>;

/// The label on every edge of the graph of a workflow.
pub const EDGE_LABEL: &'static str = "depends_on";

/// The labels of `count` edges of the graph of a workflow.
pub open spec fn edge_labels(count: nat) -> Seq<Seq<char>> {
    Seq::new(count, |i: int| EDGE_LABEL@)
}

/// Whether `walk` follows the edges from node to node, over one edge at
/// least.
pub open spec fn is_walk(edges: Seq<(int, int)>, walk: Seq<int>) -> bool {
    walk.len() >= 2 && forall|i: int|
        0 <= i < walk.len() - 1 ==> edges.contains((#[trigger] walk[i], walk[i + 1]))
}

/// Whether the edges hold a cycle: a walk that ends where it began.
pub open spec fn has_cycle(edges: Seq<(int, int)>) -> bool {
    exists|walk: Seq<int>| is_walk(edges, walk) && walk.first() == walk.last()
}

/// Calls `Graph::new` of petgraph: a graph without nodes or edges.
#[verifier::external_body]
fn graph_new() -> (graph: StepGraph)
    ensures
        graph_nodes(graph) == Seq::<Seq<char>>::empty(),
        graph_edges(graph) == Seq::<(int, int)>::empty(),
        graph_labels(graph) == Seq::<Seq<char>>::empty(),
{
    petgraph::graph::Graph::new()
}

/// Calls `Graph::add_node` of petgraph: the node comes last, and its
/// position is handed back. petgraph panics where the graph holds as many
/// nodes as its index type can count; such graphs are left out.
#[verifier::external_body]
fn graph_add_node(graph: &mut StepGraph, name: String) -> (index: usize)
    requires
        graph_nodes(*old(graph)).len() < u32::MAX,
    ensures
        graph_nodes(*final(graph)) == graph_nodes(*old(graph)).push(name@),
        graph_edges(*final(graph)) == graph_edges(*old(graph)),
        graph_labels(*final(graph)) == graph_labels(*old(graph)),
        index == graph_nodes(*old(graph)).len(),
{
    graph.add_node(name).index()
}

/// Calls `Graph::add_edge` of petgraph: the edge comes last, and so does
/// its label. petgraph
/// panics where one of the nodes does not exist or the graph holds as many
/// edges as its index type can count; such calls are left out.
#[verifier::external_body]
fn graph_add_edge(graph: &mut StepGraph, from: usize, to: usize, label: String)
    requires
        from < graph_nodes(*old(graph)).len(),
        to < graph_nodes(*old(graph)).len(),
        graph_edges(*old(graph)).len() < u32::MAX,
    ensures
        graph_nodes(*final(graph)) == graph_nodes(*old(graph)),
        graph_edges(*final(graph)) == graph_edges(*old(graph)).push((from as int, to as int)),
        graph_labels(*final(graph)) == graph_labels(*old(graph)).push(label@),
{
    graph.add_edge(
        petgraph::graph::NodeIndex::new(from),
        petgraph::graph::NodeIndex::new(to),
        label,
    );
}

/// How many edges end in `node`.
pub open spec fn in_degree(edges: Seq<(int, int)>, node: int) -> nat
    decreases edges.len(),
{
    if edges.len() == 0 {
        0
    } else if edges.last().1 == node {
        in_degree(edges.drop_last(), node) + 1
    } else {
        in_degree(edges.drop_last(), node)
    }
}

/// Whether `order` lists each of `count` nodes once, every node before the
/// nodes that its edges lead to.
pub open spec fn is_topological(order: Seq<usize>, count: nat, edges: Seq<(int, int)>) -> bool {
    &&& order.len() == count
    &&& order.no_duplicates()
    &&& forall|i: int| 0 <= i < order.len() ==> (#[trigger] order[i]) < count
    &&& forall|i: int, j: int|
        0 <= i < order.len() && 0 <= j < order.len() && edges.contains(
            (order[i] as int, order[j] as int),
        ) ==> i < j
}

/// Calls `Graph::node_count` of petgraph.
#[verifier::external_body]
fn graph_node_count(graph: &StepGraph) -> (count: usize)
    ensures
        count == graph_nodes(*graph).len(),
{
    graph.node_count()
}

/// Reads the name on a node through the index operator of petgraph's
/// graph, which panics where the node does not exist; such calls are left
/// out.
#[verifier::external_body]
fn graph_node_name(graph: &StepGraph, node: usize) -> (name: String)
    requires
        node < graph_nodes(*graph).len(),
    ensures
        name@ == graph_nodes(*graph)[node as int],
{
    graph[petgraph::graph::NodeIndex::new(node)].clone()
}

/// Counts what `Graph::edges_directed` of petgraph lists for a node and
/// the incoming direction: the edges that end in the node.
#[verifier::external_body]
fn graph_in_degree(graph: &StepGraph, node: usize) -> (degree: usize)
    requires
        node < graph_nodes(*graph).len(),
    ensures
        degree == in_degree(graph_edges(*graph), node as int),
{
    graph.edges_directed(petgraph::graph::NodeIndex::new(node), petgraph::Direction::Incoming).count()
}

/// Calls `toposort` of petgraph. It fails on graphs with cycles, a node
/// with an edge to itself among them; on other graphs it hands back the
/// nodes in an order in which each comes before its successors.
#[verifier::external_body]
fn graph_toposort(graph: &StepGraph) -> (order: Option<Vec<usize>>)
    ensures
        order is None == has_cycle(graph_edges(*graph)),
        order matches Some(nodes) ==> is_topological(
            nodes@,
            graph_nodes(*graph).len(),
            graph_edges(*graph),
        ),
{
    petgraph::algo::toposort(graph, None).ok().map(
        |order| order.into_iter().map(|node| node.index()).collect(),
    )
}

/// Calls `is_cyclic_directed` of petgraph, which tells whether a directed
/// graph contains a cycle. petgraph follows the edges by recursion: how
/// long a chain of steps may be is a matter of the stack that the calling
/// thread has, and is not spoken of here.
#[verifier::external_body]
fn graph_is_cyclic(graph: &StepGraph) -> (cyclic: bool)
    ensures
        cyclic == has_cycle(graph_edges(*graph)),
{
    petgraph::algo::is_cyclic_directed(graph)
}

/// A workflow.
#[derive(Debug)]
pub struct Workflow {
    pub cwl_version: String,
    pub class: String,
    pub doc: Option<Documentation>,
    pub id: String,
    pub label: Option<String>,
    pub inputs: Vec<WorkflowInputParameter>,
    pub outputs: Vec<WorkflowOutputParameter>,
    pub steps: Vec<WorkflowStep>,
    pub requirements: Vec<WorkflowRequirement>,
}

impl Workflow {
    /// The version of a document that states none.
    pub fn default_cwl_version() -> (version: String)
        ensures
            version@ == "v1.2"@,
    {
        "v1.2".to_string()
    }

    /// The class of a document that states none.
    pub fn default_class() -> (class: String)
        ensures
            class@ == "Workflow"@,
    {
        "Workflow".to_string()
    }

    /// Whether a graph is free of cycles, so that its steps can be put in
    /// an order in which each step comes after those it depends on.
    pub fn is_dag(graph: StepGraph) -> (dag: bool)
        ensures
            dag == !has_cycle(graph_edges(graph)),
    {
        !graph_is_cyclic(&graph)
    }

    /// The steps that depend on no other step: the names on the nodes in
    /// which no edge ends, in the order of the nodes.
    pub fn entry_points(graph: &StepGraph) -> (names: Vec<String>)
        ensures
            names.deep_view() == entry_names(
                graph_nodes(*graph),
                graph_edges(*graph),
                graph_nodes(*graph).len() as int,
            ),
    {
        let count = graph_node_count(graph);
        let mut names: Vec<String> = Vec::new();
        let mut node: usize = 0;
        assert(names.deep_view() =~= Seq::<Seq<char>>::empty());
        while node < count
            invariant
                node <= count,
                count == graph_nodes(*graph).len(),
                names.deep_view() == entry_names(
                    graph_nodes(*graph),
                    graph_edges(*graph),
                    node as int,
                ),
            decreases count - node,
        {
            if graph_in_degree(graph, node) == 0 {
                let ghost before = names.deep_view();
                let name = graph_node_name(graph, node);
                names.push(name);
                assert(names.deep_view() =~= before.push(graph_nodes(*graph)[node as int]));
            }
            node += 1;
        }
        names
    }

    /// The names of the steps in an order in which they can run: each step
    /// after the steps that it depends on. There is none where the graph
    /// holds a cycle.
    pub fn step_order(graph: &StepGraph) -> (names: Option<Vec<String>>)
        ensures
            names is None == has_cycle(graph_edges(*graph)),
            names matches Some(listed) ==> exists|order: Seq<usize>| #[trigger]
                is_topological(order, graph_nodes(*graph).len(), graph_edges(*graph))
                    && listed.deep_view() == named(graph_nodes(*graph), order),
    {
        match graph_toposort(graph) {
            None => None,
            Some(order) => {
                let mut listed: Vec<String> = Vec::new();
                let mut i: usize = 0;
                while i < order.len()
                    invariant
                        i <= order.len(),
                        is_topological(order@, graph_nodes(*graph).len(), graph_edges(*graph)),
                        listed.len() == i,
                        forall|j: int|
                            0 <= j < i ==> listed[j]@ == graph_nodes(*graph)[order[j] as int],
                    decreases order.len() - i,
                {
                    let name = graph_node_name(graph, order[i]);
                    listed.push(name);
                    i += 1;
                }
                assert(listed.deep_view() =~= named(graph_nodes(*graph), order@));
                Some(listed)
            },
        }
    }

    /// The graph of this workflow. Each step is a node. Each source of an
    /// input of a step that is the name of a step is an edge from that step
    /// to the step with the input, labelled `depends_on`; other sources
    /// give no edge. Where several steps share a name, the name stands for
    /// the last of them. There is no graph where the workflow has more
    /// steps or more edges than a graph can hold.
    pub fn to_graph(&self) -> (graph: Option<StepGraph>)
        ensures
            graph is Some == fits_a_graph(self.steps@),
            graph matches Some(g) ==> graph_nodes(g) == step_ids(self.steps@) && graph_edges(g)
                == workflow_edges(step_ids(self.steps@), self.steps@) && graph_labels(g)
                == edge_labels(graph_edges(g).len()),
    {
        if self.steps.len() > u32::MAX as usize {
            return None;
        }
        let ghost all_ids = step_ids(self.steps@);
        let mut graph = graph_new();
        let mut ids: Vec<String> = Vec::new();
        let mut i: usize = 0;
        while i < self.steps.len()
            invariant
                i <= self.steps.len() <= u32::MAX,
                all_ids == step_ids(self.steps@),
                ids.deep_view() == all_ids.take(i as int),
                graph_nodes(graph) == all_ids.take(i as int),
                graph_edges(graph) == Seq::<(int, int)>::empty(),
                graph_labels(graph) == Seq::<Seq<char>>::empty(),
            decreases self.steps.len() - i,
        {
            let _ = graph_add_node(&mut graph, self.steps[i].id.clone());
            ids.push(self.steps[i].id.clone());
            proof {
                assert(all_ids.take(i + 1) =~= all_ids.take(i as int).push(self.steps[i as int].id@));
                assert(ids.deep_view() =~= all_ids.take(i + 1));
            }
            i += 1;
        }
        assert(all_ids.take(self.steps.len() as int) =~= all_ids);
        assert(graph_labels(graph) =~= edge_labels(0));
        let mut count: usize = 0;
        let mut k: usize = 0;
        assert(self.steps@.take(0) =~= Seq::<WorkflowStep>::empty());
        while k < self.steps.len()
            invariant
                k <= self.steps.len(),
                all_ids == step_ids(self.steps@),
                ids.deep_view() == all_ids,
                graph_nodes(graph) == all_ids,
                graph_edges(graph) == workflow_edges(all_ids, self.steps@.take(k as int)),
                graph_labels(graph) == edge_labels(graph_edges(graph).len()),
                count == graph_edges(graph).len(),
                count <= u32::MAX,
            decreases self.steps.len() - k,
        {
            let step = &self.steps[k];
            proof {
                let head = self.steps@.take(k + 1);
                assert(head.drop_last() =~= self.steps@.take(k as int));
                assert(head.last() == *step);
                lemma_edges_grow(all_ids, self.steps@, k + 1);
            }
            match find_node(&ids, step.id.as_str()) {
                Some(target) => {
                    let sources = sources_of_step(step);
                    match add_edges(&mut graph, &ids, &sources, target, count) {
                        Some(total) => {
                            count = total;
                        },
                        None => {
                            return None;
                        },
                    }
                },
                None => {
                    assert(workflow_edges(all_ids, self.steps@.take(k + 1)) =~= workflow_edges(
                        all_ids,
                        self.steps@.take(k as int),
                    ));
                },
            }
            k += 1;
        }
        assert(self.steps@.take(self.steps.len() as int) =~= self.steps@);
        Some(graph)
    }
}

/// The names on the first `upto` nodes in which no edge ends.
pub open spec fn entry_names(nodes: Seq<Seq<char>>, edges: Seq<(int, int)>, upto: int) -> Seq<
    Seq<char>,
>
    decreases upto,
{
    if upto <= 0 {
        Seq::empty()
    } else if in_degree(edges, upto - 1) == 0 {
        entry_names(nodes, edges, upto - 1).push(nodes[upto - 1])
    } else {
        entry_names(nodes, edges, upto - 1)
    }
}

/// The names on the nodes that `order` lists.
pub open spec fn named(nodes: Seq<Seq<char>>, order: Seq<usize>) -> Seq<Seq<char>> {
    Seq::new(order.len(), |i: int| nodes[order[i] as int])
}

/// The names of the steps, in their order.
pub open spec fn step_ids(steps: Seq<WorkflowStep>) -> Seq<Seq<char>> {
    Seq::new(steps.len(), |i: int| steps[i].id@)
}

/// The node that a name stands for: the position of the last step of that
/// name, if there is one.
pub open spec fn node_of(ids: Seq<Seq<char>>, id: Seq<char>) -> Option<int>
    decreases ids.len(),
{
    if ids.len() == 0 {
        None
    } else if ids.last() == id {
        Some(ids.len() - 1)
    } else {
        node_of(ids.drop_last(), id)
    }
}

/// All sources of the inputs of a step, input by input.
pub open spec fn input_sources(inputs: Seq<WorkflowStepInput>) -> Seq<Seq<char>>
    decreases inputs.len(),
{
    if inputs.len() == 0 {
        Seq::empty()
    } else {
        input_sources(inputs.drop_last()) + match inputs.last().source {
            Some(source) => sources_of(source),
            None => Seq::empty(),
        }
    }
}

/// The edges into the node `target` that `sources` give: one for each
/// source that is the name of a step.
pub open spec fn edges_into(ids: Seq<Seq<char>>, sources: Seq<Seq<char>>, target: int) -> Seq<
    (int, int),
>
    decreases sources.len(),
{
    if sources.len() == 0 {
        Seq::empty()
    } else {
        match node_of(ids, sources.last()) {
            Some(node) => edges_into(ids, sources.drop_last(), target).push((node, target)),
            None => edges_into(ids, sources.drop_last(), target),
        }
    }
}

/// The edges that one step gives.
pub open spec fn step_edges(ids: Seq<Seq<char>>, step: WorkflowStep) -> Seq<(int, int)> {
    match node_of(ids, step.id@) {
        Some(target) => edges_into(ids, input_sources(step.in_@), target),
        None => Seq::empty(),
    }
}

/// The edges that the steps give, step by step.
pub open spec fn workflow_edges(ids: Seq<Seq<char>>, steps: Seq<WorkflowStep>) -> Seq<(int, int)>
    decreases steps.len(),
{
    if steps.len() == 0 {
        Seq::empty()
    } else {
        workflow_edges(ids, steps.drop_last()) + step_edges(ids, steps.last())
    }
}

/// Whether a graph can hold the steps and their edges: it counts both
/// with 32 bits.
pub open spec fn fits_a_graph(steps: Seq<WorkflowStep>) -> bool {
    steps.len() <= u32::MAX && workflow_edges(step_ids(steps), steps).len() <= u32::MAX
}

/// The edges of the first steps of a workflow are among the edges of all.
proof fn lemma_edges_grow(ids: Seq<Seq<char>>, steps: Seq<WorkflowStep>, k: int)
    requires
        0 <= k <= steps.len(),
    ensures
        workflow_edges(ids, steps.take(k)).len() <= workflow_edges(ids, steps).len(),
    decreases steps.len() - k,
{
    if k == steps.len() {
        assert(steps.take(k) =~= steps);
    } else {
        lemma_edges_grow(ids, steps, k + 1);
        assert(steps.take(k + 1).drop_last() =~= steps.take(k));
    }
}

/// The edges of the first sources of a step are among the edges of all.
proof fn lemma_edges_into_grow(
    ids: Seq<Seq<char>>,
    sources: Seq<Seq<char>>,
    target: int,
    k: int,
)
    requires
        0 <= k <= sources.len(),
    ensures
        edges_into(ids, sources.take(k), target).len() <= edges_into(ids, sources, target).len(),
    decreases sources.len() - k,
{
    if k == sources.len() {
        assert(sources.take(k) =~= sources);
    } else {
        lemma_edges_into_grow(ids, sources, target, k + 1);
        assert(sources.take(k + 1).drop_last() =~= sources.take(k));
    }
}

/// The node that `id` stands for.
fn find_node(ids: &Vec<String>, id: &str) -> (node: Option<usize>)
    ensures
        match node_of(ids.deep_view(), id@) {
            Some(n) => node == Some(n as usize) && 0 <= n < ids.len(),
            None => node is None,
        },
{
    let ghost all = ids.deep_view();
    let mut i: usize = ids.len();
    assert(all.take(i as int) =~= all);
    while i > 0
        invariant
            i <= ids.len(),
            all == ids.deep_view(),
            node_of(all, id@) == node_of(all.take(i as int), id@),
        decreases i,
    {
        proof {
            let head = all.take(i as int);
            assert(head.last() == ids[i - 1]@);
            assert(head.drop_last() =~= all.take(i - 1));
        }
        if str_eq(ids[i - 1].as_str(), id) {
            return Some(i - 1);
        }
        i -= 1;
    }
    None
}

/// All sources of the inputs of a step.
fn sources_of_step(step: &WorkflowStep) -> (sources: Vec<String>)
    ensures
        sources.deep_view() == input_sources(step.in_@),
{
    let mut sources: Vec<String> = Vec::new();
    let mut i: usize = 0;
    assert(step.in_@.take(0) =~= Seq::<WorkflowStepInput>::empty());
    assert(sources.deep_view() =~= Seq::<Seq<char>>::empty());
    while i < step.in_.len()
        invariant
            i <= step.in_.len(),
            sources.deep_view() == input_sources(step.in_@.take(i as int)),
        decreases step.in_.len() - i,
    {
        let ghost before = sources.deep_view();
        proof {
            let head = step.in_@.take(i + 1);
            assert(head.drop_last() =~= step.in_@.take(i as int));
            assert(head.last() == step.in_[i as int]);
        }
        match &step.in_[i].source {
            Some(source) => {
                let mut found = source.to_vec();
                let ghost added = found.deep_view();
                sources.append(&mut found);
                assert(sources.deep_view() =~= before + added);
            },
            None => {
                assert(before + Seq::<Seq<char>>::empty() =~= before);
            },
        }
        i += 1;
    }
    assert(step.in_@.take(step.in_.len() as int) =~= step.in_@);
    sources
}

/// Adds the edges into `target` that `sources` give, and hands back the
/// number of edges that the graph then has; adds what fits and hands back
/// nothing where the graph cannot hold them all.
fn add_edges(
    graph: &mut StepGraph,
    ids: &Vec<String>,
    sources: &Vec<String>,
    target: usize,
    count: usize,
) -> (total: Option<usize>)
    requires
        graph_nodes(*old(graph)) == ids.deep_view(),
        target < ids.len(),
        count == graph_edges(*old(graph)).len(),
        count <= u32::MAX,
        graph_labels(*old(graph)) == edge_labels(count as nat),
    ensures
        graph_nodes(*final(graph)) == graph_nodes(*old(graph)),
        total matches Some(n) ==> graph_labels(*final(graph)) == edge_labels(n as nat),
        total is Some == (count + edges_into(
            ids.deep_view(),
            sources.deep_view(),
            target as int,
        ).len() <= u32::MAX),
        total matches Some(n) ==> graph_edges(*final(graph)) == graph_edges(*old(graph))
            + edges_into(ids.deep_view(), sources.deep_view(), target as int) && n
            == graph_edges(*final(graph)).len(),
{
    let ghost before = graph_edges(*graph);
    let ghost names = ids.deep_view();
    let ghost all = sources.deep_view();
    let mut total: usize = count;
    let mut i: usize = 0;
    assert(all.take(0) =~= Seq::<Seq<char>>::empty());
    assert(before + Seq::<(int, int)>::empty() =~= before);
    while i < sources.len()
        invariant
            i <= sources.len(),
            names == ids.deep_view(),
            all == sources.deep_view(),
            target < ids.len(),
            graph_nodes(*graph) == names,
            graph_nodes(*old(graph)) == names,
            graph_edges(*graph) == before + edges_into(names, all.take(i as int), target as int),
            total == graph_edges(*graph).len(),
            total <= u32::MAX,
            graph_labels(*graph) == edge_labels(total as nat),
            count == before.len(),
        decreases sources.len() - i,
    {
        proof {
            let head = all.take(i + 1);
            assert(head.drop_last() =~= all.take(i as int));
            assert(head.last() == sources[i as int]@);
            lemma_edges_into_grow(names, all, target as int, i + 1);
        }
        match find_node(ids, sources[i].as_str()) {
            Some(node) => {
                if total >= u32::MAX as usize {
                    return None;
                }
                graph_add_edge(graph, node, target, EDGE_LABEL.to_string());
                total = total + 1;
                assert(graph_labels(*graph) =~= edge_labels(total as nat));
                assert(graph_edges(*graph) =~= before + edges_into(
                    names,
                    all.take(i + 1),
                    target as int,
                ));
            },
            None => {},
        }
        i += 1;
    }
    assert(all.take(sources.len() as int) =~= all);
    Some(total)
}

/// An input of a workflow.
#[derive(Debug)]
pub struct WorkflowInputParameter {
    pub type_: CwlSchemaType,
    pub label: Option<String>,
    pub default: Option<Any>,
    pub id: Option<String>,
}

/// An output of a workflow.
#[derive(Debug)]
pub struct WorkflowOutputParameter {
    pub type_: CwlSchemaType,
    pub label: Option<String>,
    pub doc: Option<Documentation>,
    pub id: Option<String>,
    pub output_source: Option<WorkflowOutputParameterOutputSource>,
}

/// The step outputs that an output of a workflow is taken from: one or
/// several.
#[derive(Clone, Debug, PartialEq, Eq)]
pub enum WorkflowOutputParameterOutputSource {
    OutputSource(String),
    OutputSourceArray(Vec<String>),
}

/// A step of a workflow: a tool, and where its inputs come from.
#[derive(Debug)]
pub struct WorkflowStep {
    pub in_: Vec<WorkflowStepInput>,
    pub out: Vec<WorkflowStepOutput>,
    pub run: CommandLineTool,
    pub id: String,
    pub label: Option<String>,
    pub doc: Option<Documentation>,
    pub scatter: Option<Scatter>,
    pub scatter_method: Option<String>,
}

/// An input of a step.
#[derive(Debug)]
pub struct WorkflowStepInput {
    pub id: String,
    pub source: Option<Source>,
    pub label: Option<String>,
    pub default: Option<Any>,
    pub value_from: Option<String>,
}

/// An output of a step.
#[derive(Clone, Debug, PartialEq, Eq)]
pub struct WorkflowStepOutput {
    pub id: String,
}

} // verus!
