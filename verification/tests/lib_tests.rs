use petgraph::graph::DiGraph;
use rust_code_visualizer::funcs::{
    add_edges_for_graph, create_nodes_for_graph, filter_structs, from_item_to_structs,
};
use rust_code_visualizer::syn_ast::{extract_decls, parse_rust_code};
use rust_code_visualizer::MmlError;
use rust_code_visualizer::analyze_source_code;

const TEST_CODE: &str = r#"
        #[derive(Clone, Debug, PartialEq, Eq)]
        pub struct A {
            pub b: B,
            pub c: C,
        }

        #[derive(Clone, Debug, PartialEq, Eq)]
        pub struct B {
            pub d: D,
            pub e: E,
        }

        #[derive(Clone, Debug, PartialEq, Eq)]
        pub struct C {
            pub f: F,
            pub g: Vec<G>,
        }

        #[derive(Clone, Debug, PartialEq, Eq)]
        pub struct D {}

        #[derive(Clone, Debug, PartialEq, Eq)]
        pub struct E {}

        #[derive(Clone, Debug, PartialEq, Eq)]
        pub struct F {}

        #[derive(Clone, Debug, PartialEq, Eq)]
        pub struct G {}
    "#;

#[test]
fn lib_test_parse_rust_code() {
    let parsed = parse_rust_code(TEST_CODE).unwrap();
    assert_eq!(parsed.items.len(), 7);
}

#[test]
fn lib_test_filter_structs() {
    let parsed = parse_rust_code(TEST_CODE).unwrap();
    let structs = filter_structs(extract_decls(parsed));
    assert_eq!(structs.len(), 7);
}

#[test]
fn lib_test_create_nodes_for_graph() {
    let parsed = parse_rust_code(TEST_CODE).unwrap();
    let items = filter_structs(extract_decls(parsed));
    let elements = from_item_to_structs(items);

    let mut graph = DiGraph::<String, ()>::new();
    let node_indices = create_nodes_for_graph(&elements, &mut graph);

    assert_eq!(graph.node_count(), 7);
    assert_eq!(graph.edge_count(), 0);
    assert_eq!(node_indices.len(), 7);
}

#[test]
fn lib_test_add_edges_for_graph() {
    let parsed = parse_rust_code(TEST_CODE).unwrap();
    let items = filter_structs(extract_decls(parsed));
    let elements = from_item_to_structs(items);

    let mut graph = DiGraph::<String, ()>::new();
    let node_indices = create_nodes_for_graph(&elements, &mut graph);
    println!("node_indices:{:?}", node_indices);

    add_edges_for_graph(&elements, &mut graph, &node_indices);
    println!("\ngraph:{:?}", graph);

    assert_eq!(graph.node_count(), 7);
    assert_eq!(graph.edge_count(), 6);
}

#[test]
fn analyze_source_code_reduces_the_declarations() {
    let elements = analyze_source_code(TEST_CODE).unwrap();
    assert_eq!(elements.len(), 7);
}

#[test]
fn analyze_source_code_rejects_bad_syntax() {
    let result = analyze_source_code("pub struct {{{");
    assert!(matches!(result, Err(MmlError::Parse(_))));
}
