use zefiro::js::init_script;
use zefiro::schema::command_line_tool::CommandLineTool;
use zefiro::schema::types::Source;
use zefiro::schema::workflow::{StepGraph, Workflow, WorkflowStep, WorkflowStepInput};

fn tool() -> CommandLineTool {
    CommandLineTool {
        cwl_version: CommandLineTool::default_cwl_version(),
        class: CommandLineTool::default_class(),
        doc: None,
        id: "tool".to_string(),
        label: None,
        inputs: vec![],
        outputs: vec![],
        requirements: vec![],
    }
}

fn step(id: &str, sources: Vec<Option<Source>>) -> WorkflowStep {
    WorkflowStep {
        in_: sources
            .into_iter()
            .enumerate()
            .map(|(i, source)| WorkflowStepInput {
                id: format!("in_{i}"),
                source,
                label: None,
                default: None,
                value_from: None,
            })
            .collect(),
        out: vec![],
        run: tool(),
        id: id.to_string(),
        label: None,
        doc: None,
        scatter: None,
        scatter_method: None,
    }
}

fn workflow(steps: Vec<WorkflowStep>) -> Workflow {
    Workflow {
        cwl_version: Workflow::default_cwl_version(),
        class: Workflow::default_class(),
        doc: None,
        id: "wf".to_string(),
        label: None,
        inputs: vec![],
        outputs: vec![],
        steps,
        requirements: vec![],
    }
}

fn one(source: &str) -> Option<Source> {
    Some(Source::SingleSource(source.to_string()))
}

fn many(sources: &[&str]) -> Option<Source> {
    Some(Source::MultiSources(sources.iter().map(|s| s.to_string()).collect()))
}

fn nodes(graph: &StepGraph) -> Vec<String> {
    graph.node_weights().cloned().collect()
}

fn edges(graph: &StepGraph) -> Vec<(usize, usize, String)> {
    graph
        .edge_indices()
        .map(|e| {
            let (a, b) = graph.edge_endpoints(e).expect("endpoints");
            (a.index(), b.index(), graph[e].clone())
        })
        .collect()
}

#[test]
fn steps_become_nodes_and_sources_become_edges() {
    let wf = workflow(vec![
        step("align", vec![one("reads"), None]),
        step("sort", vec![one("align")]),
        step("report", vec![many(&["align", "sort", "reference"]), one("sort")]),
    ]);
    let graph = wf.to_graph().expect("graph");
    assert_eq!(nodes(&graph), vec!["align".to_string(), "sort".to_string(), "report".to_string()]);
    assert_eq!(
        edges(&graph),
        vec![
            (0, 1, "depends_on".to_string()),
            (0, 2, "depends_on".to_string()),
            (1, 2, "depends_on".to_string()),
            (1, 2, "depends_on".to_string()),
        ]
    );
    assert!(Workflow::is_dag(graph));
}

#[test]
fn steps_that_feed_each_other_are_no_dag() {
    let wf = workflow(vec![step("a", vec![one("b")]), step("b", vec![one("a")])]);
    let graph = wf.to_graph().expect("graph");
    assert_eq!(edges(&graph), vec![(1, 0, "depends_on".to_string()), (0, 1, "depends_on".to_string())]);
    assert!(!Workflow::is_dag(graph));
}

#[test]
fn a_step_that_feeds_itself_is_no_dag() {
    let wf = workflow(vec![step("a", vec![one("a")])]);
    let graph = wf.to_graph().expect("graph");
    assert_eq!(edges(&graph), vec![(0, 0, "depends_on".to_string())]);
    assert!(!Workflow::is_dag(graph));
}

#[test]
fn a_workflow_without_steps_is_an_empty_dag() {
    let graph = workflow(vec![]).to_graph().expect("graph");
    assert_eq!(graph.node_count(), 0);
    assert_eq!(graph.edge_count(), 0);
    assert!(Workflow::is_dag(graph));
}

#[test]
fn a_name_that_several_steps_share_stands_for_the_last_of_them() {
    let wf = workflow(vec![step("a", vec![]), step("b", vec![one("a")]), step("a", vec![one("b")])]);
    let graph = wf.to_graph().expect("graph");
    assert_eq!(nodes(&graph), vec!["a".to_string(), "b".to_string(), "a".to_string()]);
    assert_eq!(edges(&graph), vec![(2, 1, "depends_on".to_string()), (1, 2, "depends_on".to_string())]);
    assert!(!Workflow::is_dag(graph));
}

#[test]
fn session_script_binds_inputs_outputs_and_self() {
    assert_eq!(
        init_script("{\"a\":1}", "{}", "[]"),
        "const inputs = {\"a\":1};const outputs = {};const self = [];"
    );
    assert_eq!(init_script("", "", ""), "const inputs = ;const outputs = ;const self = ;");
}

#[test]
fn entry_points_are_the_steps_that_depend_on_none() {
    let wf = workflow(vec![
        step("align", vec![one("reads")]),
        step("sort", vec![one("align")]),
        step("index", vec![]),
        step("report", vec![many(&["sort", "index"])]),
    ]);
    let graph = wf.to_graph().expect("graph");
    assert_eq!(Workflow::entry_points(&graph), vec!["align".to_string(), "index".to_string()]);
    let empty = workflow(vec![]).to_graph().expect("graph");
    assert!(Workflow::entry_points(&empty).is_empty());
}

#[test]
fn steps_are_ordered_after_those_they_depend_on() {
    let wf = workflow(vec![
        step("report", vec![many(&["sort", "index"])]),
        step("sort", vec![one("align")]),
        step("index", vec![one("align")]),
        step("align", vec![one("reads")]),
    ]);
    let graph = wf.to_graph().expect("graph");
    let order = Workflow::step_order(&graph).expect("order");
    let position = |name: &str| order.iter().position(|n| n == name).expect("listed");
    assert_eq!(order.len(), 4);
    assert!(position("align") < position("sort"));
    assert!(position("align") < position("index"));
    assert!(position("sort") < position("report"));
    assert!(position("index") < position("report"));
}

#[test]
fn steps_in_a_cycle_have_no_order() {
    let wf = workflow(vec![step("a", vec![one("b")]), step("b", vec![one("a")]), step("c", vec![])]);
    let graph = wf.to_graph().expect("graph");
    assert_eq!(Workflow::step_order(&graph), None);
    assert_eq!(Workflow::entry_points(&graph), vec!["c".to_string()]);
    let own = workflow(vec![step("a", vec![one("a")])]).to_graph().expect("graph");
    assert_eq!(Workflow::step_order(&own), None);
}
