use petgraph::graph::DiGraph;
use petgraph::visit::EdgeRef;
use rust_code_visualizer::analyze_source_code;
use rust_code_visualizer::funcs::{add_edges_for_graph, create_nodes_for_graph};
use rust_code_visualizer::generate_dependency_diagram;

fn edges_of(code: &str) -> (usize, Vec<(usize, usize)>) {
    let elements = analyze_source_code(code).unwrap();
    let mut graph = DiGraph::<String, ()>::new();
    let node_indices = create_nodes_for_graph(&elements, &mut graph);
    add_edges_for_graph(&elements, &mut graph, &node_indices);
    let edges = graph
        .edge_references()
        .map(|e| (e.source().index(), e.target().index()))
        .collect();
    (graph.node_count(), edges)
}

#[test]
fn seven_records_give_six_edges_in_order() {
    let code = "
        pub struct A { b: B, c: C }
        pub struct B { d: D, e: E }
        pub struct C { f: F, g: Vec<G> }
        pub struct D {}
        pub struct E {}
        pub struct F {}
        pub struct G {}
    ";
    let (nodes, edges) = edges_of(code);
    assert_eq!(nodes, 7);
    assert_eq!(edges, vec![(0, 1), (0, 2), (1, 3), (1, 4), (2, 5), (2, 6)]);
}

#[test]
fn three_records_give_two_edges() {
    let code = "
        pub struct C { f: F, g: Vec<G> }
        pub struct F {}
        pub struct G {}
    ";
    let (nodes, edges) = edges_of(code);
    assert_eq!(nodes, 3);
    assert_eq!(edges, vec![(0, 1), (0, 2)]);
}

#[test]
fn sum_type_resolves_only_its_bare_case() {
    let code = "
        pub enum Shape { Known(Target), Pair((u32, bool)) }
        pub struct Target {}
    ";
    let (nodes, edges) = edges_of(code);
    assert_eq!(nodes, 2);
    assert_eq!(edges, vec![(0, 1)]);
}

#[test]
fn nested_containers_resolve_nothing() {
    let code = "
        pub struct A { x: Vec<Vec<B>> }
        pub struct B {}
    ";
    let (nodes, edges) = edges_of(code);
    assert_eq!(nodes, 2);
    assert_eq!(edges, vec![]);
}

#[test]
fn unknown_names_resolve_nothing() {
    let code = "pub struct A { x: u32 }";
    let (nodes, edges) = edges_of(code);
    assert_eq!(nodes, 1);
    assert_eq!(edges, vec![]);
}

#[test]
fn unrecognized_wrappers_resolve_nothing() {
    let code = "
        pub struct A { x: Option<B> }
        pub struct B {}
    ";
    let (nodes, edges) = edges_of(code);
    assert_eq!(nodes, 2);
    assert_eq!(edges, vec![]);
}

#[test]
fn one_malformed_field_drops_only_itself() {
    let code = "
        pub struct A { good: B, bad: &'static str }
        pub struct B {}
    ";
    let elements = analyze_source_code(code).unwrap();
    assert_eq!(elements.len(), 2);
    let (nodes, edges) = edges_of(code);
    assert_eq!(nodes, 2);
    assert_eq!(edges, vec![(0, 1)]);
}

#[test]
fn functions_and_impls_are_not_nodes() {
    let code = "
        pub struct A { b: B }
        pub struct B {}
        pub fn helper() {}
        impl A { pub fn touch(&self) {} }
    ";
    let (nodes, edges) = edges_of(code);
    assert_eq!(nodes, 2);
    assert_eq!(edges, vec![(0, 1)]);
}

#[test]
fn arrays_resolve_like_containers() {
    let code = "
        pub struct A { x: [B; 4] }
        pub struct B {}
    ";
    let (nodes, edges) = edges_of(code);
    assert_eq!(nodes, 2);
    assert_eq!(edges, vec![(0, 1)]);
}

#[test]
fn multi_argument_generics_are_dropped() {
    let code = "
        pub struct A { x: Pair<B, B> }
        pub struct B {}
    ";
    let elements = analyze_source_code(code).unwrap();
    assert_eq!(elements.len(), 2);
    match &elements[0] {
        rust_code_visualizer::structures::Element::Struct(se) => {
            assert_eq!(se.fields.len(), 0);
        }
        _ => panic!("expected a record element"),
    }
    let (nodes, edges) = edges_of(code);
    assert_eq!(nodes, 2);
    assert_eq!(edges, vec![]);
}

#[test]
fn repeated_references_keep_every_edge() {
    let code = "
        pub struct A { x: B, y: B }
        pub struct B {}
    ";
    let (nodes, edges) = edges_of(code);
    assert_eq!(nodes, 2);
    assert_eq!(edges, vec![(0, 1), (0, 1)]);
}

#[test]
fn diagram_text_matches_the_writer_format() {
    let elements = analyze_source_code("pub struct A { pub b: B } pub struct B {}").unwrap();
    let text = generate_dependency_diagram(elements).unwrap();
    let expected = "digraph {\n    0 [ label = \"\\\"A\\\"\" ]\n    1 [ label = \"\\\"B\\\"\" ]\n    0 -> 1 [ ]\n}\n";
    assert_eq!(text, expected);
}

#[test]
fn empty_input_gives_an_empty_diagram() {
    let elements = analyze_source_code("").unwrap();
    assert_eq!(elements.len(), 0);
    let text = generate_dependency_diagram(elements).unwrap();
    assert_eq!(text, "digraph {\n}\n");
}

#[test]
fn repeated_runs_give_identical_bytes() {
    let code = "
        pub struct A { b: B, c: C }
        pub struct B { d: D, e: E }
        pub struct C { f: F, g: Vec<G> }
        pub struct D {}
        pub struct E {}
        pub struct F {}
        pub struct G {}
    ";
    let first = generate_dependency_diagram(analyze_source_code(code).unwrap()).unwrap();
    let second = generate_dependency_diagram(analyze_source_code(code).unwrap()).unwrap();
    assert_eq!(first.into_bytes(), second.into_bytes());
}
