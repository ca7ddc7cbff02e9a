//! The library's stated laws: determinism of the rendered diagram, node
//! completeness, edge soundness, the one-level resolution limit, and the
//! per-field leniency of the reducer.

use vstd::prelude::*;

use crate::analysis_spec;
use crate::funcs::{
    candidate, edges_spec, edges_upto, element_edges, element_name, field_edge, fields_edges,
    first_index, lemma_first_index, node_names, owned_fields, type_decls,
};
use crate::graphviz::dot_of;
use crate::impls::{element_spec, elements_spec, field_spec, fields_spec};
use crate::raw::{RawDeclV, RawFieldV};
use crate::structures::{ElementV, FieldV, TypeV};

verus! {

/// The text of the whole pipeline, from raw declarations to the rendered
/// diagram.
pub open spec fn diagram_spec(ds: Seq<RawDeclV>) -> Seq<char> {
    let es = elements_spec(ds);
    dot_of(node_names(es), edges_spec(es))
}

/// Determinism: the rendered diagram is a function of the declaration
/// list alone, so equal inputs yield byte-identical output text.
pub proof fn lemma_determinism(a: Seq<RawDeclV>, b: Seq<RawDeclV>)
    requires
        a == b,
    ensures
        diagram_spec(a) == diagram_spec(b),
{
}

/// Determinism from the source text: the whole analysis — acceptance and
/// the element list alike — is a function of the text alone; its force for
/// a run lies in the contract of `analyze_source_code`, which equates each
/// run's result with `analysis_spec` of the input text.
pub proof fn lemma_analysis_deterministic(a: Seq<char>, b: Seq<char>)
    requires
        a == b,
    ensures
        analysis_spec(a) == analysis_spec(b),
{
}

/// The names of the record-like and sum-like declarations, in order.
pub open spec fn type_decl_names(ds: Seq<RawDeclV>) -> Seq<Seq<char>>
    decreases ds.len(),
{
    if ds.len() == 0 {
        Seq::empty()
    } else {
        let rest = type_decl_names(ds.drop_last());
        match ds.last() {
            RawDeclV::Record { name, .. } => rest.push(name),
            RawDeclV::Sum { name, .. } => rest.push(name),
            RawDeclV::Other => rest,
        }
    }
}

/// Node completeness: the node labels are exactly the names of the
/// record-like and sum-like declarations, in declaration order; a
/// declaration never disappears because of its fields.
pub proof fn lemma_node_completeness(ds: Seq<RawDeclV>)
    ensures
        node_names(elements_spec(ds)) == type_decl_names(ds),
    decreases ds.len(),
{
    if ds.len() == 0 {
        assert(node_names(elements_spec(ds)) =~= type_decl_names(ds));
    } else {
        lemma_node_completeness(ds.drop_last());
        assert(node_names(elements_spec(ds)) =~= type_decl_names(ds));
    }
}

/// Filtering first changes nothing: the reducer skips exactly the
/// declarations that the filter discards, so the pipeline's two stages
/// agree.
pub proof fn lemma_filter_then_reduce(ds: Seq<RawDeclV>)
    ensures
        elements_spec(type_decls(ds)) == elements_spec(ds),
    decreases ds.len(),
{
    if ds.len() > 0 {
        lemma_filter_then_reduce(ds.drop_last());
        if ds.last() is Other {
            assert(type_decls(ds) == type_decls(ds.drop_last()));
        } else {
            assert(type_decls(ds).drop_last() =~= type_decls(ds.drop_last()));
            assert(type_decls(ds).last() == ds.last());
        }
    }
}

/// One field whose candidate name resolves to the node at `target`.
pub open spec fn field_resolves(names: Seq<Seq<char>>, f: FieldV, target: int) -> bool {
    &&& candidate(f.ty) is Some
    &&& first_index(names, candidate(f.ty)->Some_0) == Some(target)
}

/// The element at the edge's source declares a field that resolves to the
/// edge's target.
pub open spec fn element_declares_edge(
    names: Seq<Seq<char>>,
    e: ElementV,
    edge: (int, int),
) -> bool {
    &&& first_index(names, element_name(e)) == Some(edge.0)
    &&& exists|fi: int|
        0 <= fi < owned_fields(e).len() && field_resolves(
            names,
            #[trigger] owned_fields(e)[fi],
            edge.1,
        )
}

/// Both endpoints are nodes, and some element with the source's label
/// declares a field resolving to the target.
pub open spec fn edge_sound(es: Seq<ElementV>, edge: (int, int)) -> bool {
    &&& 0 <= edge.0 < node_names(es).len()
    &&& 0 <= edge.1 < node_names(es).len()
    &&& exists|m: int|
        0 <= m < es.len() && element_declares_edge(node_names(es), #[trigger] es[m], edge)
}

proof fn lemma_fields_edges_sound(names: Seq<Seq<char>>, src: int, fs: Seq<FieldV>)
    ensures
        forall|x: int|
            0 <= x < fields_edges(names, src, fs).len() ==> {
                let edge = #[trigger] fields_edges(names, src, fs)[x];
                &&& edge.0 == src
                &&& 0 <= edge.1 < names.len()
                &&& exists|fi: int|
                    0 <= fi < fs.len() && field_resolves(names, #[trigger] fs[fi], edge.1)
            },
    decreases fs.len(),
{
    if fs.len() > 0 {
        let rest = fs.drop_last();
        let prior = fields_edges(names, src, rest);
        lemma_fields_edges_sound(names, src, rest);
        match candidate(fs.last().ty) {
            Some(c) => {
                lemma_first_index(names, c);
            },
            None => {},
        }
        assert forall|x: int| 0 <= x < fields_edges(names, src, fs).len() implies {
            let edge = #[trigger] fields_edges(names, src, fs)[x];
            &&& edge.0 == src
            &&& 0 <= edge.1 < names.len()
            &&& exists|fi: int|
                0 <= fi < fs.len() && field_resolves(names, #[trigger] fs[fi], edge.1)
        } by {
            let edge = fields_edges(names, src, fs)[x];
            if x < prior.len() {
                assert(edge == prior[x]);
                let fi = choose|fi: int|
                    0 <= fi < rest.len() && field_resolves(names, #[trigger] rest[fi], edge.1);
                assert(rest[fi] == fs[fi]);
                assert(field_resolves(names, fs[fi], edge.1));
            } else {
                let last_i = fs.len() - 1;
                assert(fs.last() == fs[last_i]);
                assert(field_resolves(names, fs[last_i], edge.1));
            }
        }
    }
}

proof fn lemma_element_edges_sound(names: Seq<Seq<char>>, e: ElementV)
    ensures
        forall|x: int|
            0 <= x < element_edges(names, e).len() ==> {
                let edge = #[trigger] element_edges(names, e)[x];
                &&& 0 <= edge.0 < names.len()
                &&& 0 <= edge.1 < names.len()
                &&& element_declares_edge(names, e, edge)
            },
{
    lemma_first_index(names, element_name(e));
    match first_index(names, element_name(e)) {
        Some(src) => {
            lemma_fields_edges_sound(names, src, owned_fields(e));
        },
        None => {},
    }
}

proof fn lemma_edges_upto_sound(names: Seq<Seq<char>>, es: Seq<ElementV>, k: int)
    requires
        0 <= k <= es.len(),
        names == node_names(es),
    ensures
        forall|x: int|
            0 <= x < edges_upto(names, es, k).len() ==> edge_sound(
                es,
                #[trigger] edges_upto(names, es, k)[x],
            ),
    decreases k,
{
    if k > 0 {
        lemma_edges_upto_sound(names, es, k - 1);
        lemma_element_edges_sound(names, es[k - 1]);
        let prior = edges_upto(names, es, k - 1);
        assert forall|x: int| 0 <= x < edges_upto(names, es, k).len() implies edge_sound(
            es,
            #[trigger] edges_upto(names, es, k)[x],
        ) by {
            let edge = edges_upto(names, es, k)[x];
            if x < prior.len() {
                assert(edge == prior[x]);
                assert(edge_sound(es, edge));
            } else {
                assert(edge == element_edges(names, es[k - 1])[x - prior.len()]);
                assert(element_declares_edge(names, es[k - 1], edge));
            }
        }
    }
}

/// Edge soundness: every edge points from a node carrying some element's
/// name to a node that one of that element's owned fields resolves to,
/// under the one-level resolution rules.
pub proof fn lemma_edge_soundness(es: Seq<ElementV>)
    ensures
        forall|x: int|
            0 <= x < edges_spec(es).len() ==> edge_sound(es, #[trigger] edges_spec(es)[x]),
{
    lemma_edges_upto_sound(node_names(es), es, es.len() as int);
}

/// No over-resolution: a tuple-typed field, a container wrapping anything
/// but a bare name, and an unrecognized wrapper yield no candidate, so
/// such a field contributes no edge, whatever names occur inside it.
pub proof fn lemma_no_over_resolution(names: Seq<Seq<char>>, src: int, f: FieldV)
    ensures
        f.ty is Tuple ==> candidate(f.ty) is None,
        f.ty is Other ==> candidate(f.ty) is None,
        (f.ty matches TypeV::Vec(inner) && !(*inner is Simple)) ==> candidate(f.ty) is None,
        candidate(f.ty) is None ==> field_edge(names, src, f) == Seq::<(int, int)>::empty(),
{
}

proof fn lemma_fields_spec_skip_malformed(fs: Seq<RawFieldV>, k: int)
    requires
        0 <= k < fs.len(),
        field_spec(fs[k]) is None,
    ensures
        fields_spec(fs) == fields_spec(fs.remove(k)),
    decreases fs.len(),
{
    if k == fs.len() - 1 {
        assert(fs.remove(k) =~= fs.drop_last());
    } else {
        assert(fs.drop_last()[k] == fs[k]);
        lemma_fields_spec_skip_malformed(fs.drop_last(), k);
        assert(fs.remove(k).drop_last() =~= fs.drop_last().remove(k));
        assert(fs.remove(k).last() == fs.last());
    }
}

/// Leniency: a record-like declaration with one malformed field reduces
/// to exactly the element that the same declaration without that field
/// reduces to — it is never dropped, and the well-formed fields all stay.
pub proof fn lemma_leniency(name: Seq<char>, fields: Seq<RawFieldV>, k: int)
    requires
        0 <= k < fields.len(),
        field_spec(fields[k]) is None,
    ensures
        element_spec(RawDeclV::Record { name, fields }) is Some,
        element_spec(RawDeclV::Record { name, fields }) == element_spec(
            RawDeclV::Record { name, fields: fields.remove(k) },
        ),
{
    lemma_fields_spec_skip_malformed(fields, k);
}

} // verus!
