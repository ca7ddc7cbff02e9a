//! The pipeline steps: filtering raw declarations, reducing them to
//! elements, and building and populating the dependency graph.

use vstd::prelude::*;

use crate::graphviz::{graph_add_edge, graph_add_node, graph_edges, graph_nodes};
use crate::impls::{element_spec, elements_spec};
use crate::raw::{RawDecl, RawDeclV, raw_decl_view, raw_decls_view};
use crate::structures::{
    Element, ElementV, Field, FieldV, Type, TypeV, VariantV, element_view, elements_view,
    field_view, fields_view, type_view, variants_view,
};

verus! {

broadcast use vstd::seq::axiom_seq_index_decreases, vstd::std_specs::vec::axiom_vec_index_decreases, vstd::std_specs::vec::axiom_vec_decreases_to_view;

/// The declared name of an element.
pub open spec fn element_name(e: ElementV) -> Seq<char> {
    match e {
        ElementV::Struct(s) => s.name,
        ElementV::Enum(en) => en.name,
    }
}

/// The node labels of the graph: one per element, in input order.
pub open spec fn node_names(es: Seq<ElementV>) -> Seq<Seq<char>> {
    es.map_values(|e: ElementV| element_name(e))
}

/// The concatenation of the field lists of a variant list, in order.
pub open spec fn variants_fields(vs: Seq<VariantV>) -> Seq<FieldV>
    decreases vs.len(),
{
    if vs.len() == 0 {
        Seq::empty()
    } else {
        variants_fields(vs.drop_last()) + vs.last().fields
    }
}

/// The fields an element owns: a record's own fields, or every variant's
/// fields of a sum type, concatenated.
pub open spec fn owned_fields(e: ElementV) -> Seq<FieldV> {
    match e {
        ElementV::Struct(s) => s.fields,
        ElementV::Enum(en) => variants_fields(en.variants),
    }
}

/// The candidate referenced-type name of a field type: a bare name, or the
/// name inside exactly one container level; everything else resolves to
/// nothing.
pub open spec fn candidate(t: TypeV) -> Option<Seq<char>> {
    match t {
        TypeV::Simple(name) => Some(name),
        TypeV::Vec(inner) => match *inner {
            TypeV::Simple(name) => Some(name),
            _ => None,
        },
        TypeV::Tuple(_) => None,
        TypeV::Other(_) => None,
    }
}

/// The position of the first occurrence of `target` in `names`.
pub open spec fn first_index(names: Seq<Seq<char>>, target: Seq<char>) -> Option<int>
    decreases names.len(),
{
    if names.len() == 0 {
        None
    } else if names[0] == target {
        Some(0)
    } else {
        match first_index(names.drop_first(), target) {
            Some(i) => Some(i + 1),
            None => None,
        }
    }
}

/// The edge contributed by one field, if its candidate name matches a node.
pub open spec fn field_edge(names: Seq<Seq<char>>, src: int, f: FieldV) -> Seq<(int, int)> {
    match candidate(f.ty) {
        Some(c) => match first_index(names, c) {
            Some(j) => seq![(src, j)],
            None => Seq::empty(),
        },
        None => Seq::empty(),
    }
}

/// The edges contributed by a field list, in field order.
pub open spec fn fields_edges(names: Seq<Seq<char>>, src: int, fs: Seq<FieldV>) -> Seq<(int, int)>
    decreases fs.len(),
{
    if fs.len() == 0 {
        Seq::empty()
    } else {
        fields_edges(names, src, fs.drop_last()) + field_edge(names, src, fs.last())
    }
}

/// The edges contributed by one element, from the node that first carries
/// its name.
pub open spec fn element_edges(names: Seq<Seq<char>>, e: ElementV) -> Seq<(int, int)> {
    match first_index(names, element_name(e)) {
        Some(src) => fields_edges(names, src, owned_fields(e)),
        None => Seq::empty(),
    }
}

/// The edges contributed by the first `k` elements, in element order.
pub open spec fn edges_upto(names: Seq<Seq<char>>, es: Seq<ElementV>, k: int) -> Seq<(int, int)>
    decreases k,
{
    if k <= 0 {
        Seq::empty()
    } else {
        edges_upto(names, es, k - 1) + element_edges(names, es[k - 1])
    }
}

/// All edges of the dependency graph of an element list.
pub open spec fn edges_spec(es: Seq<ElementV>) -> Seq<(int, int)> {
    edges_upto(node_names(es), es, es.len() as int)
}

/// `first_index` finds the first occurrence, and only fails when no
/// occurrence exists.
pub proof fn lemma_first_index(names: Seq<Seq<char>>, target: Seq<char>)
    ensures
        match first_index(names, target) {
            Some(i) => 0 <= i < names.len() && names[i] == target && (forall|j: int|
                0 <= j < i ==> names[j] != target),
            None => forall|j: int| 0 <= j < names.len() ==> names[j] != target,
        },
    decreases names.len(),
{
    if names.len() > 0 && names[0] != target {
        let rest = names.drop_first();
        lemma_first_index(rest, target);
        assert(forall|j: int| 0 <= j < rest.len() ==> rest[j] == names[j + 1]);
        match first_index(rest, target) {
            Some(i) => {
                assert forall|j: int| 0 <= j < i + 1 implies names[j] != target by {
                    if j > 0 {
                        assert(rest[j - 1] != target);
                    }
                }
            },
            None => {
                assert forall|j: int| 0 <= j < names.len() implies names[j] != target by {
                    if j > 0 {
                        assert(rest[j - 1] != target);
                    }
                }
            },
        }
    }
}

/// A field-list prefix contributes at most as many edges as the whole list.
pub proof fn lemma_fields_edges_take(names: Seq<Seq<char>>, src: int, fs: Seq<FieldV>, j: int)
    requires
        0 <= j <= fs.len(),
    ensures
        fields_edges(names, src, fs.take(j)).len() <= fields_edges(names, src, fs).len(),
    decreases fs.len() - j,
{
    if j == fs.len() {
        assert(fs.take(j) =~= fs);
    } else {
        assert(fs.take(j + 1).drop_last() =~= fs.take(j));
        lemma_fields_edges_take(names, src, fs, j + 1);
    }
}

/// Edges over a concatenation are the concatenation of the edges.
pub proof fn lemma_fields_edges_add(names: Seq<Seq<char>>, src: int, a: Seq<FieldV>, b: Seq<FieldV>)
    ensures
        fields_edges(names, src, a + b) == fields_edges(names, src, a) + fields_edges(
            names,
            src,
            b,
        ),
    decreases b.len(),
{
    if b.len() == 0 {
        assert(a + b =~= a);
        assert(fields_edges(names, src, a) + fields_edges(names, src, b) =~= fields_edges(
            names,
            src,
            a,
        ));
    } else {
        assert((a + b).drop_last() =~= a + b.drop_last());
        lemma_fields_edges_add(names, src, a, b.drop_last());
        assert(fields_edges(names, src, a + b) =~= fields_edges(names, src, a) + fields_edges(
            names,
            src,
            b,
        ));
    }
}

/// Earlier elements contribute a prefix of the edge list.
pub proof fn lemma_edges_upto_mono(names: Seq<Seq<char>>, es: Seq<ElementV>, k: int, n: int)
    requires
        0 <= k <= n,
    ensures
        edges_upto(names, es, k).len() <= edges_upto(names, es, n).len(),
    decreases n - k,
{
    if k < n {
        lemma_edges_upto_mono(names, es, k, n - 1);
    }
}

/// Keeps only the record-like and sum-like raw declarations, in order.
pub open spec fn type_decls(ds: Seq<RawDeclV>) -> Seq<RawDeclV>
    decreases ds.len(),
{
    if ds.len() == 0 {
        Seq::empty()
    } else {
        let rest = type_decls(ds.drop_last());
        if ds.last() is Other {
            rest
        } else {
            rest.push(ds.last())
        }
    }
}

/// Discards every raw declaration that is neither record-like nor
/// sum-like.
#[verifier::loop_isolation(false)]
pub fn filter_structs(parsed: Vec<RawDecl>) -> (r: Vec<RawDecl>)
    ensures
        raw_decls_view(r@) == type_decls(raw_decls_view(parsed@)),
{
    let ghost orig = parsed@;
    let mut input = parsed;
    let mut out: Vec<RawDecl> = Vec::new();
    while input.len() > 0
        invariant
            input@.len() <= orig.len(),
            orig.skip(orig.len() - input@.len()) =~= input@,
            raw_decls_view(out@) == type_decls(
                raw_decls_view(orig.take(orig.len() - input@.len())),
            ),
        decreases input@.len(),
    {
        let ghost k = orig.len() - input@.len();
        let d = input.remove(0);
        proof {
            assert(orig[k as int] == d);
            assert(orig.skip(k as int).remove(0) =~= orig.skip(k + 1));
            assert(orig.take(k + 1).drop_last() =~= orig.take(k as int));
            assert(raw_decls_view(orig.take(k + 1)).drop_last() =~= raw_decls_view(
                orig.take(k as int),
            ));
            assert(raw_decls_view(orig.take(k + 1)).last() == raw_decl_view(orig[k as int]));
        }
        match d {
            RawDecl::Other => {
                proof {
                    assert(raw_decls_view(out@) =~= type_decls(raw_decls_view(orig.take(k + 1))));
                }
            },
            other_decl => {
                out.push(other_decl);
                proof {
                    assert(raw_decls_view(out@) =~= type_decls(raw_decls_view(orig.take(k + 1))));
                }
            },
        }
    }
    proof {
        assert(orig.take(orig.len() as int) =~= orig);
    }
    out
}

/// Reduces raw declarations to elements, skipping the ones that do not
/// convert.
#[verifier::loop_isolation(false)]
pub fn from_item_to_structs(input: Vec<RawDecl>) -> (r: Vec<Element>)
    ensures
        elements_view(r@) == elements_spec(raw_decls_view(input@)),
{
    let mut output: Vec<Element> = Vec::new();
    let mut i: usize = 0;
    while i < input.len()
        invariant
            i <= input@.len(),
            elements_view(output@) == elements_spec(raw_decls_view(input@.take(i as int))),
        decreases input@.len() - i,
    {
        proof {
            assert(raw_decls_view(input@.take(i + 1)).drop_last() =~= raw_decls_view(
                input@.take(i as int),
            ));
            assert(raw_decls_view(input@.take(i + 1)).last() == raw_decl_view(input@[i as int]));
        }
        match Element::try_from_decl(&input[i]) {
            Ok(val) => {
                output.push(val);
                proof {
                    assert(elements_view(output@) =~= elements_spec(
                        raw_decls_view(input@.take(i + 1)),
                    ));
                }
            },
            Err(_) => {
                proof {
                    assert(elements_view(output@) =~= elements_spec(
                        raw_decls_view(input@.take(i + 1)),
                    ));
                }
            },
        }
        i += 1;
    }
    proof {
        assert(input@.take(input@.len() as int) =~= input@);
    }
    output
}

/// Finds the first node whose label equals `name`.
#[verifier::loop_isolation(false)]
fn position_of_name(elements: &Vec<Element>, name: &String) -> (r: Option<usize>)
    ensures
        ({
            let fi = first_index(node_names(elements_view(elements@)), name@);
            &&& r is Some <==> fi is Some
            &&& r is Some ==> fi is Some && r->Some_0 as int == fi->Some_0 && r->Some_0
                < elements@.len()
        }),
{
    let ghost names = node_names(elements_view(elements@));
    proof {
        lemma_first_index(names, name@);
    }
    let mut i: usize = 0;
    while i < elements.len()
        invariant
            i <= elements@.len(),
            forall|j: int| 0 <= j < i ==> names[j] != name@,
        decreases elements@.len() - i,
    {
        let here = match &elements[i] {
            Element::Struct(s) => *name == s.name,
            Element::Enum(e) => *name == e.name,
        };
        if here {
            proof {
                assert(names[i as int] == name@);
            }
            return Some(i);
        }
        i += 1;
    }
    None
}

/// Adds one node per element, labeled with the element's name, and returns
/// the node indices in element order.
#[verifier::loop_isolation(false)]
pub fn create_nodes_for_graph(
    structs: &Vec<Element>,
    graph: &mut petgraph::graph::DiGraph<String, ()>,
) -> (r: Vec<usize>)
    requires
        graph_nodes(*old(graph)).len() + structs@.len() <= 0xFFFF_FFFF,
    ensures
        graph_nodes(*final(graph)) == graph_nodes(*old(graph)) + node_names(
            elements_view(structs@),
        ),
        graph_edges(*final(graph)) == graph_edges(*old(graph)),
        r@.len() == structs@.len(),
        forall|i: int|
            0 <= i < r@.len() ==> r@[i] == graph_nodes(*old(graph)).len() + i,
{
    let ghost ev = elements_view(structs@);
    let mut out: Vec<usize> = Vec::new();
    let mut i: usize = 0;
    while i < structs.len()
        invariant
            i <= structs@.len(),
            graph_nodes(*graph) == graph_nodes(*old(graph)) + node_names(ev.take(i as int)),
            graph_edges(*graph) == graph_edges(*old(graph)),
            out@.len() == i,
            forall|j: int| 0 <= j < i ==> out@[j] == graph_nodes(*old(graph)).len() + j,
        decreases structs@.len() - i,
    {
        let name = match &structs[i] {
            Element::Struct(s) => s.name.clone(),
            Element::Enum(e) => e.name.clone(),
        };
        proof {
            assert(name@ == element_name(ev[i as int]));
        }
        let ix = graph_add_node(graph, name);
        out.push(ix);
        proof {
            assert(graph_nodes(*graph) =~= graph_nodes(*old(graph)) + node_names(
                ev.take(i + 1),
            ));
        }
        i += 1;
    }
    proof {
        assert(ev.take(ev.len() as int) =~= ev);
    }
    out
}

/// Adds the edge of one bare-named field type, when the name matches a
/// node.
#[verifier::loop_isolation(false)]
fn add_edge_for_simple_type(
    graph: &mut petgraph::graph::DiGraph<String, ()>,
    elements: &Vec<Element>,
    src: usize,
    field_type: &String,
)
    requires
        graph_nodes(*old(graph)) == node_names(elements_view(elements@)),
        src < node_names(elements_view(elements@)).len(),
        graph_edges(*old(graph)).len() < 0xFFFF_FFFF,
    ensures
        graph_nodes(*final(graph)) == graph_nodes(*old(graph)),
        graph_edges(*final(graph)) == graph_edges(*old(graph)) + (match first_index(
            node_names(elements_view(elements@)),
            field_type@,
        ) {
            Some(j) => seq![(src as int, j)],
            None => Seq::<(int, int)>::empty(),
        }),
{
    let ghost names = node_names(elements_view(elements@));
    proof {
        lemma_first_index(names, field_type@);
    }
    match position_of_name(elements, field_type) {
        Some(target) => {
            graph_add_edge(graph, src, target);
            proof {
                assert(graph_edges(*graph) =~= graph_edges(*old(graph)) + seq![
                    (src as int, first_index(names, field_type@)->Some_0),
                ]);
            }
        },
        None => {
            proof {
                assert(graph_edges(*graph) =~= graph_edges(*old(graph))
                    + Seq::<(int, int)>::empty());
            }
        },
    }
}

/// Adds the edge of one container-wrapped field type: only a directly
/// wrapped bare name resolves; deeper nesting contributes nothing.
#[verifier::loop_isolation(false)]
fn add_edge_for_vec_type(
    graph: &mut petgraph::graph::DiGraph<String, ()>,
    elements: &Vec<Element>,
    src: usize,
    field_type: &Type,
)
    requires
        graph_nodes(*old(graph)) == node_names(elements_view(elements@)),
        src < node_names(elements_view(elements@)).len(),
        graph_edges(*old(graph)).len() < 0xFFFF_FFFF,
    ensures
        graph_nodes(*final(graph)) == graph_nodes(*old(graph)),
        graph_edges(*final(graph)) == graph_edges(*old(graph)) + (match candidate(
            TypeV::Vec(Box::new(type_view(*field_type))),
        ) {
            Some(c) => match first_index(node_names(elements_view(elements@)), c) {
                Some(j) => seq![(src as int, j)],
                None => Seq::<(int, int)>::empty(),
            },
            None => Seq::<(int, int)>::empty(),
        }),
{
    match field_type {
        Type::Simple(inner_type) => {
            add_edge_for_simple_type(graph, elements, src, inner_type);
        },
        _ => {
            proof {
                assert(graph_edges(*graph) =~= graph_edges(*old(graph))
                    + Seq::<(int, int)>::empty());
            }
        },
    }
}

/// Adds the edges of one field list, owned by the node at `src`.
#[verifier::loop_isolation(false)]
fn add_edges_for_fields(
    graph: &mut petgraph::graph::DiGraph<String, ()>,
    elements: &Vec<Element>,
    src: usize,
    fields: &Vec<Field>,
)
    requires
        graph_nodes(*old(graph)) == node_names(elements_view(elements@)),
        src < node_names(elements_view(elements@)).len(),
        graph_edges(*old(graph)).len() + fields_edges(
            node_names(elements_view(elements@)),
            src as int,
            fields_view(fields@),
        ).len() < 0xFFFF_FFFF,
    ensures
        graph_nodes(*final(graph)) == graph_nodes(*old(graph)),
        graph_edges(*final(graph)) == graph_edges(*old(graph)) + fields_edges(
            node_names(elements_view(elements@)),
            src as int,
            fields_view(fields@),
        ),
{
    let ghost names = node_names(elements_view(elements@));
    let ghost fs = fields_view(fields@);
    let mut j: usize = 0;
    while j < fields.len()
        invariant
            j <= fields@.len(),
            graph_nodes(*graph) == names,
            graph_edges(*graph) == graph_edges(*old(graph)) + fields_edges(
                names,
                src as int,
                fs.take(j as int),
            ),
        decreases fields@.len() - j,
    {
        proof {
            lemma_fields_edges_take(names, src as int, fs, j + 1);
            assert(fs.take(j + 1).drop_last() =~= fs.take(j as int));
            assert(fs.take(j + 1).last() == fs[j as int]);
            assert(fs[j as int] == field_view(fields@[j as int]));
        }
        match &fields[j].ty {
            Type::Simple(field_type) => {
                add_edge_for_simple_type(graph, elements, src, field_type);
            },
            Type::Vec(field_type) => {
                add_edge_for_vec_type(graph, elements, src, &**field_type);
            },
            _ => {
                proof {
                    assert(field_edge(names, src as int, fs[j as int]) =~= Seq::<(
                        int,
                        int,
                    )>::empty());
                }
            },
        }
        proof {
            assert(graph_edges(*graph) =~= graph_edges(*old(graph)) + fields_edges(
                names,
                src as int,
                fs.take(j + 1),
            ));
        }
        j += 1;
    }
    proof {
        assert(fs.take(fs.len() as int) =~= fs);
    }
}

/// Walks every element and adds one directed edge for every owned field
/// whose type resolves to a known node name.
#[verifier::loop_isolation(false)]
pub fn add_edges_for_graph(
    elements: &Vec<Element>,
    graph: &mut petgraph::graph::DiGraph<String, ()>,
    node_indices: &Vec<usize>,
)
    requires
        graph_nodes(*old(graph)) == node_names(elements_view(elements@)),
        node_indices@.len() == elements@.len(),
        forall|i: int| 0 <= i < node_indices@.len() ==> node_indices@[i] == i,
        graph_edges(*old(graph)).len() + edges_spec(elements_view(elements@)).len()
            < 0xFFFF_FFFF,
    ensures
        graph_nodes(*final(graph)) == graph_nodes(*old(graph)),
        graph_edges(*final(graph)) == graph_edges(*old(graph)) + edges_spec(
            elements_view(elements@),
        ),
{
    let ghost ev = elements_view(elements@);
    let ghost names = node_names(ev);
    let mut k: usize = 0;
    while k < elements.len()
        invariant
            k <= elements@.len(),
            graph_nodes(*graph) == names,
            graph_edges(*graph) == graph_edges(*old(graph)) + edges_upto(names, ev, k as int),
        decreases elements@.len() - k,
    {
        proof {
            lemma_edges_upto_mono(names, ev, k + 1, ev.len() as int);
            lemma_first_index(names, element_name(ev[k as int]));
            assert(names[k as int] == element_name(ev[k as int]));
        }
        let element_name_str = match &elements[k] {
            Element::Struct(s) => &s.name,
            Element::Enum(e) => &e.name,
        };
        proof {
            assert(element_name_str@ == element_name(ev[k as int]));
        }
        match position_of_name(elements, element_name_str) {
            Some(src) => {
                let ghost src_i = src as int;
                proof {
                    assert(first_index(names, element_name(ev[k as int])) == Some(src_i));
                }
                match &elements[k] {
                    Element::Struct(struct_element) => {
                        proof {
                            assert(owned_fields(ev[k as int]) == fields_view(
                                struct_element.fields@,
                            ));
                        }
                        add_edges_for_fields(graph, elements, src, &struct_element.fields);
                    },
                    Element::Enum(enum_element) => {
                        let ghost vs = variants_view(enum_element.variants@);
                        let mut m: usize = 0;
                        while m < enum_element.variants.len()
                            invariant
                                m <= enum_element.variants@.len(),
                                vs == variants_view(enum_element.variants@),
                                vs.len() == enum_element.variants@.len(),
                                graph_nodes(*graph) == names,
                                src_i == first_index(names, element_name(ev[k as int]))->Some_0,
                                0 <= src_i < names.len(),
                                graph_edges(*graph) == graph_edges(*old(graph)) + edges_upto(
                                    names,
                                    ev,
                                    k as int,
                                ) + fields_edges(names, src_i, variants_fields(vs.take(m as int))),
                            decreases enum_element.variants@.len() - m,
                        {
                            proof {
                                assert(vs.take(m + 1).drop_last() =~= vs.take(m as int));
                                assert(variants_fields(vs.take(m + 1)) == variants_fields(
                                    vs.take(m as int),
                                ) + vs[m as int].fields);
                                lemma_fields_edges_add(
                                    names,
                                    src_i,
                                    variants_fields(vs.take(m as int)),
                                    vs[m as int].fields,
                                );
                                assert(vs[m as int].fields == fields_view(
                                    enum_element.variants@[m as int].fields@,
                                ));
                                // capacity: edges added so far plus this
                                // variant's stay within the element's total
                                lemma_variants_fields_take_prefix(vs, m + 1);
                                lemma_fields_edges_add(
                                    names,
                                    src_i,
                                    variants_fields(vs.take(m + 1)),
                                    variants_fields(vs).skip(
                                        variants_fields(vs.take(m + 1)).len() as int,
                                    ),
                                );
                                assert(owned_fields(ev[k as int]) == variants_fields(vs));
                            }
                            add_edges_for_fields(
                                graph,
                                elements,
                                src,
                                &enum_element.variants[m].fields,
                            );
                            proof {
                                assert(graph_edges(*graph) == graph_edges(*old(graph))
                                    + edges_upto(names, ev, k as int) + fields_edges(
                                    names,
                                    src_i,
                                    variants_fields(vs.take(m + 1)),
                                ));
                            }
                            m += 1;
                        }
                        proof {
                            assert(vs.take(vs.len() as int) =~= vs);
                            assert(owned_fields(ev[k as int]) == variants_fields(vs));
                        }
                    },
                }
            },
            None => {
                proof {
                    assert(false);
                }
            },
        }
        proof {
            assert(graph_edges(*graph) =~= graph_edges(*old(graph)) + edges_upto(
                names,
                ev,
                k + 1,
            ));
        }
        k += 1;
    }
}

/// A prefix of a variant list contributes a prefix of the concatenated
/// fields.
pub proof fn lemma_variants_fields_take_prefix(vs: Seq<VariantV>, m: int)
    requires
        0 <= m <= vs.len(),
    ensures
        variants_fields(vs.take(m)).len() <= variants_fields(vs).len(),
        variants_fields(vs) == variants_fields(vs.take(m)) + variants_fields(vs).skip(
            variants_fields(vs.take(m)).len() as int,
        ),
    decreases vs.len() - m,
{
    if m == vs.len() {
        assert(vs.take(m) =~= vs);
        assert(variants_fields(vs) =~= variants_fields(vs.take(m)) + variants_fields(vs).skip(
            variants_fields(vs.take(m)).len() as int,
        ));
    } else {
        lemma_variants_fields_take_prefix(vs, m + 1);
        assert(vs.take(m + 1).drop_last() =~= vs.take(m));
        assert(variants_fields(vs.take(m + 1)) == variants_fields(vs.take(m)) + vs[m].fields);
        assert(variants_fields(vs) =~= variants_fields(vs.take(m)) + variants_fields(vs).skip(
            variants_fields(vs.take(m)).len() as int,
        ));
    }
}

} // verus!
