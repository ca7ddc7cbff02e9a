//! Extracts a type-dependency graph from source code that declares
//! record-like and sum-like types, and renders it in a directed-graph text
//! notation.

use vstd::prelude::*;

pub mod funcs;
pub mod graphviz;
pub mod hdl;
pub mod impls;
pub mod laws;
pub mod raw;
pub mod structures;
pub mod syn_ast;

use crate::funcs::{
    add_edges_for_graph, create_nodes_for_graph, edges_spec, filter_structs, from_item_to_structs,
    node_names,
};
use crate::graphviz::{dot_of, new_graph, render_dot};
use crate::impls::elements_spec;
use crate::structures::{Element, ElementV, elements_view};
use crate::syn_ast::{extract_decls, parse_ok, parse_rust_code, parsed_decls, syn_error_message};

verus! {

/// Errors of the whole analysis run.
#[derive(Debug)]
pub enum MmlError {
    /// The source buffer is not valid host syntax; carries the parser's
    /// message.
    Parse(String),
}

/// What the whole analysis yields for a source text: nothing when the
/// parser rejects the text, otherwise the reduction of the parsed
/// declarations.
pub open spec fn analysis_spec(code: Seq<char>) -> Option<Seq<ElementV>> {
    if parse_ok(code) {
        Some(elements_spec(parsed_decls(code)))
    } else {
        None
    }
}

/// Reduces a source buffer to its normalized type declarations: parse,
/// keep the record-like and sum-like declarations, and reduce them. An
/// error comes exactly when the parser rejects the text; on success the
/// element list is exactly the reduction of the text's declarations.
pub fn analyze_source_code(source_code: &str) -> (r: Result<Vec<Element>, MmlError>)
    ensures
        r is Ok <==> parse_ok(source_code@),
        r matches Ok(es) ==> elements_view(es@) == analysis_spec(source_code@)->Some_0,
        r is Err ==> r matches Err(MmlError::Parse(_)),
{
    match parse_rust_code(source_code) {
        Ok(file) => {
            let elements = from_item_to_structs(filter_structs(extract_decls(file)));
            proof {
                crate::laws::lemma_filter_then_reduce(parsed_decls(source_code@));
            }
            Ok(elements)
        },
        Err(e) => Err(MmlError::Parse(syn_error_message(&e))),
    }
}

/// Builds the dependency graph of the given elements and renders it: one
/// node per element in input order, one edge per owned field whose type
/// resolves to a declared name, and the text that the graph writer prints
/// for exactly that node and edge list. The bounds keep the node and edge
/// counts inside the graph's index type.
pub fn generate_dependency_diagram(elements: Vec<Element>) -> (r: Result<String, MmlError>)
    requires
        elements@.len() <= 0xFFFF_FFFF,
        edges_spec(elements_view(elements@)).len() < 0xFFFF_FFFF,
    ensures
        r is Ok,
        r is Ok ==> r->Ok_0@ == dot_of(
            node_names(elements_view(elements@)),
            edges_spec(elements_view(elements@)),
        ),
{
    let mut graph = new_graph();
    let node_indices = create_nodes_for_graph(&elements, &mut graph);
    add_edges_for_graph(&elements, &mut graph, &node_indices);
    Ok(render_dot(&graph))
}

} // verus!
