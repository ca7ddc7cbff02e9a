//! The host-syntax boundary: parsing and the reshaping of the external
//! parser's syntax tree into raw declarations.
//!
//! Each wrapper reads exactly one layer of the external tree. What a layer
//! holds is given a name (`file_view`, `item_view`, `syn_type_view`, ...),
//! the way the graph's contents are named in `graphviz`; the wrappers'
//! contracts speak over those names, and the verified reshaping functions
//! below prove, layer by layer, that the raw declarations they build are
//! exactly the named content of the parsed tree. Termination of the
//! reshaping rests on named depths of the tree nodes, which every wrapper
//! that hands out a subterm shrinks.

use vstd::prelude::*;

use crate::impls::ConversionError;
use crate::raw::{
    RawDecl, RawDeclV, RawField, RawFieldV, RawType, RawTypeV, RawVariant, RawVariantV,
    raw_decl_view, raw_decls_view, raw_field_view, raw_fields_view, raw_type_view,
    raw_variant_view, raw_variants_view,
};
use syn::Field as SynField;
use syn::Type as SynType;
use syn::TypePath as SynTypePath;
use syn::Variant as SynVariant;

verus! {

#[verifier::external_type_specification]
#[verifier::external_body]
pub struct ExSynFile(syn::File);

#[verifier::external_type_specification]
#[verifier::external_body]
pub struct ExSynItem(syn::Item);

#[verifier::external_type_specification]
#[verifier::external_body]
pub struct ExSynField(SynField);

#[verifier::external_type_specification]
#[verifier::external_body]
pub struct ExSynVariant(SynVariant);

#[verifier::external_type_specification]
#[verifier::external_body]
pub struct ExSynType(SynType);

#[verifier::external_type_specification]
#[verifier::external_body]
pub struct ExSynTypePath(SynTypePath);

#[verifier::external_type_specification]
#[verifier::external_body]
pub struct ExSynGenericArgument(syn::GenericArgument);

#[verifier::external_type_specification]
#[verifier::external_body]
pub struct ExSynError(syn::Error);

#[verifier::external_type_specification]
#[verifier::external_body]
pub struct ExIdent(proc_macro2::Ident);

/// Whether the parser accepts the text; parsing is a function of the text
/// alone.
pub uninterp spec fn parse_ok(code: Seq<char>) -> bool;

/// The raw declarations of the text's parse tree, in source order; a
/// function of the text alone.
pub uninterp spec fn parsed_decls(code: Seq<char>) -> Seq<RawDeclV>;

/// What a parsed file holds: its top-level items as raw declarations, in
/// order.
pub uninterp spec fn file_view(f: syn::File) -> Seq<RawDeclV>;

/// What one top-level item holds, as a raw declaration.
pub uninterp spec fn item_view(i: syn::Item) -> RawDeclV;

/// What one field node holds, as a raw field.
pub uninterp spec fn syn_field_view(f: SynField) -> RawFieldV;

/// What one variant node holds, as a raw variant.
pub uninterp spec fn syn_variant_view(v: SynVariant) -> RawVariantV;

/// What one type expression holds, as a raw type.
pub uninterp spec fn syn_type_view(t: SynType) -> RawTypeV;

/// The nesting depth of a type expression; subterms sit strictly below it.
pub uninterp spec fn syn_type_depth(t: SynType) -> nat;

/// What one type path holds, as a raw type.
pub uninterp spec fn type_path_view(p: SynTypePath) -> RawTypeV;

/// The nesting depth of a type path within its type expression.
pub uninterp spec fn type_path_depth(p: SynTypePath) -> nat;

/// What one generic argument holds: its type as a raw type, or
/// `Unsupported` for a non-type argument.
pub uninterp spec fn generic_arg_view(a: syn::GenericArgument) -> RawTypeV;

/// The nesting depth of a generic argument within its type path.
pub uninterp spec fn generic_arg_depth(a: syn::GenericArgument) -> nat;

/// The rendered text of an identifier; a function of the identifier alone.
pub uninterp spec fn ident_text(i: proc_macro2::Ident) -> Seq<char>;

pub open spec fn items_view(items: Seq<syn::Item>) -> Seq<RawDeclV> {
    items.map_values(|i: syn::Item| item_view(i))
}

pub open spec fn syn_fields_view(fs: Seq<SynField>) -> Seq<RawFieldV> {
    fs.map_values(|f: SynField| syn_field_view(f))
}

pub open spec fn syn_variants_view(vs: Seq<SynVariant>) -> Seq<RawVariantV> {
    vs.map_values(|v: SynVariant| syn_variant_view(v))
}

pub open spec fn syn_types_view(ts: Seq<SynType>) -> Seq<RawTypeV> {
    ts.map_values(|t: SynType| syn_type_view(t))
}

pub open spec fn generic_args_view(args: Seq<syn::GenericArgument>) -> Seq<RawTypeV> {
    args.map_values(|a: syn::GenericArgument| generic_arg_view(a))
}

/// One top-level item, told apart by kind, with its name and payload moved
/// out.
pub enum ItemData {
    Record { name: String, fields: Vec<SynField> },
    Sum { name: String, variants: Vec<SynVariant> },
    Other,
}

/// One type expression, told apart by shape.
pub enum TypeShape {
    Path(SynTypePath),
    Array(Box<SynType>),
    Tuple(Vec<SynType>),
    Unsupported,
}

/// One type path, told apart by its last segment's arguments.
pub enum PathShape {
    Bare(String),
    Generic(String, Vec<syn::GenericArgument>),
    Unsupported,
}

/// Relies on syn's parse_str for syn::File: parses a whole source buffer.
/// Both the outcome and the tree's content are functions of the text.
#[verifier::external_body]
pub fn parse_rust_code(code: &str) -> (r: Result<syn::File, syn::Error>)
    ensures
        r is Ok <==> parse_ok(code@),
        r matches Ok(f) ==> file_view(f) == parsed_decls(code@),
{
    syn::parse_str::<syn::File>(code)
}

/// Relies on syn's Error and its Display implementation: renders the parse
/// error's message.
#[verifier::external_body]
pub(crate) fn syn_error_message(e: &syn::Error) -> String {
    e.to_string()
}

/// Relies on syn's File: moves out its item list, whose items carry the
/// file's declarations in order.
#[verifier::external_body]
fn file_items(f: syn::File) -> (r: Vec<syn::Item>)
    ensures
        items_view(r@) == file_view(f),
{
    f.items
}

/// Relies on syn's Item, ItemStruct and ItemEnum: tells struct and enum
/// items apart and moves out their names and payloads.
#[verifier::external_body]
fn item_data(item: syn::Item) -> (r: ItemData)
    ensures
        r matches ItemData::Record { name, fields } ==> item_view(item) == (RawDeclV::Record {
            name: name@,
            fields: syn_fields_view(fields@),
        }),
        r matches ItemData::Sum { name, variants } ==> item_view(item) == (RawDeclV::Sum {
            name: name@,
            variants: syn_variants_view(variants@),
        }),
        r is Other ==> item_view(item) == RawDeclV::Other,
{
    match item {
        syn::Item::Struct(s) => ItemData::Record {
            name: s.ident.to_string(),
            fields: s.fields.into_iter().collect(),
        },
        syn::Item::Enum(e) => ItemData::Sum {
            name: e.ident.to_string(),
            variants: e.variants.into_iter().collect(),
        },
        _ => ItemData::Other,
    }
}

/// Relies on syn's Field: moves out its optional name and its type.
#[verifier::external_body]
fn field_data(f: SynField) -> (r: (Option<String>, SynType))
    ensures
        syn_field_view(f) == (RawFieldV {
            name: match r.0 {
                Some(n) => Some(n@),
                None => None,
            },
            ty: syn_type_view(r.1),
        }),
{
    let name = match f.ident {
        Some(ident) => Some(ident.to_string()),
        None => None,
    };
    (name, f.ty)
}

/// Relies on syn's Variant: moves out its name and its field list.
#[verifier::external_body]
fn variant_data(v: SynVariant) -> (r: (String, Vec<SynField>))
    ensures
        syn_variant_view(v) == (RawVariantV { name: r.0@, fields: syn_fields_view(r.1@) }),
{
    (v.ident.to_string(), v.fields.into_iter().collect())
}

/// Relies on syn's Type: tells the recognized shapes apart and moves out
/// their payloads, which are strict subterms.
#[verifier::external_body]
fn type_shape(t: SynType) -> (r: TypeShape)
    ensures
        r matches TypeShape::Path(tp) ==> syn_type_view(t) == type_path_view(tp)
            && type_path_depth(tp) < syn_type_depth(t),
        r matches TypeShape::Array(elem) ==> syn_type_view(t) == RawTypeV::Array(
            Box::new(syn_type_view(*elem)),
        ) && syn_type_depth(*elem) < syn_type_depth(t),
        r matches TypeShape::Tuple(elems) ==> syn_type_view(t) == RawTypeV::Tuple(
            syn_types_view(elems@),
        ) && (forall|i: int|
            0 <= i < elems@.len() ==> syn_type_depth(#[trigger] elems@[i]) < syn_type_depth(t)),
        r is Unsupported ==> syn_type_view(t) == RawTypeV::Unsupported,
{
    match t {
        SynType::Path(tp) => TypeShape::Path(tp),
        SynType::Array(a) => TypeShape::Array(a.elem),
        SynType::Tuple(tu) => TypeShape::Tuple(tu.elems.into_iter().collect()),
        _ => TypeShape::Unsupported,
    }
}

/// Relies on syn's TypePath, PathSegment and PathArguments: moves out the
/// last segment's identifier and its angle-bracketed arguments, which are
/// strict subterms.
#[verifier::external_body]
fn path_shape(p: SynTypePath) -> (r: PathShape)
    ensures
        r matches PathShape::Bare(name) ==> type_path_view(p) == RawTypeV::Bare(name@),
        r matches PathShape::Generic(name, args) ==> type_path_view(p) == RawTypeV::Generic(
            name@,
            generic_args_view(args@),
        ) && (forall|i: int|
            0 <= i < args@.len() ==> generic_arg_depth(#[trigger] args@[i]) < type_path_depth(
                p,
            )),
        r is Unsupported ==> type_path_view(p) == RawTypeV::Unsupported,
{
    match p.path.segments.last() {
        None => PathShape::Unsupported,
        Some(seg) => match &seg.arguments {
            syn::PathArguments::None => PathShape::Bare(seg.ident.to_string()),
            syn::PathArguments::AngleBracketed(ab) => PathShape::Generic(
                seg.ident.to_string(),
                ab.args.iter().cloned().collect(),
            ),
            syn::PathArguments::Parenthesized(_) => PathShape::Unsupported,
        },
    }
}

/// Relies on syn's GenericArgument: moves out the argument's type, when it
/// is one; the type sits no deeper than the argument.
#[verifier::external_body]
fn generic_arg_type(a: syn::GenericArgument) -> (r: Option<SynType>)
    ensures
        r matches Some(inner) ==> generic_arg_view(a) == syn_type_view(inner)
            && syn_type_depth(inner) <= generic_arg_depth(a),
        r is None ==> generic_arg_view(a) == RawTypeV::Unsupported,
{
    match a {
        syn::GenericArgument::Type(t) => Some(t),
        _ => None,
    }
}

/// Relies on proc-macro2's Ident and its Display implementation: renders
/// the identifier as text, which is a function of the identifier alone.
#[verifier::external_body]
pub fn try_convert_ident_to_string(value: proc_macro2::Ident) -> (r: Result<
    String,
    ConversionError,
>)
    ensures
        r is Ok,
        r matches Ok(s) ==> s@ == ident_text(value),
{
    Ok(value.to_string())
}

/// Relies on proc-macro2's Ident and its Display implementation: renders
/// the identifier as text, when one is present.
#[verifier::external_body]
pub fn try_convert_option_ident_to_option_string(value: Option<proc_macro2::Ident>) -> (r:
    Option<String>)
    ensures
        r is Some <==> value is Some,
        r matches Some(s) ==> value matches Some(i) && s@ == ident_text(i),
{
    match value {
        Some(ident) => Some(ident.to_string()),
        None => None,
    }
}

/// Reshapes one type expression, layer by layer, into exactly the raw type
/// that the tree holds.
#[verifier::loop_isolation(false)]
pub(crate) fn raw_of_syn_type(t: SynType) -> (r: RawType)
    ensures
        raw_type_view(r) == syn_type_view(t),
    decreases syn_type_depth(t),
{
    match type_shape(t) {
        TypeShape::Path(tp) => {
            match path_shape(tp) {
                PathShape::Bare(name) => RawType::Bare(name),
                PathShape::Generic(name, args) => {
                    let ghost orig = args@;
                    let mut rest = args;
                    let mut out: Vec<RawType> = Vec::new();
                    while rest.len() > 0
                        invariant
                            rest@.len() <= orig.len(),
                            orig.skip(orig.len() - rest@.len()) =~= rest@,
                            out@.len() == orig.len() - rest@.len(),
                            forall|j: int|
                                0 <= j < out@.len() ==> raw_type_view(#[trigger] out@[j])
                                    == generic_arg_view(orig[j]),
                        decreases rest@.len(),
                    {
                        let ghost k = orig.len() - rest@.len();
                        let arg = rest.remove(0);
                        proof {
                            assert(orig[k as int] == arg);
                            assert(orig.skip(k as int).remove(0) =~= orig.skip(k + 1));
                            assert(generic_arg_depth(orig[k as int]) < type_path_depth(tp));
                        }
                        match generic_arg_type(arg) {
                            Some(inner) => out.push(raw_of_syn_type(inner)),
                            None => out.push(RawType::Unsupported),
                        }
                    }
                    let result = RawType::Generic(name, out);
                    proof {
                        assert(raw_type_view(result)->Generic_1 =~= generic_args_view(orig));
                    }
                    result
                },
                PathShape::Unsupported => RawType::Unsupported,
            }
        },
        TypeShape::Array(elem) => RawType::Array(Box::new(raw_of_syn_type(*elem))),
        TypeShape::Tuple(elems) => {
            let ghost orig = elems@;
            let mut rest = elems;
            let mut out: Vec<RawType> = Vec::new();
            while rest.len() > 0
                invariant
                    rest@.len() <= orig.len(),
                    orig.skip(orig.len() - rest@.len()) =~= rest@,
                    out@.len() == orig.len() - rest@.len(),
                    forall|j: int|
                        0 <= j < out@.len() ==> raw_type_view(#[trigger] out@[j])
                            == syn_type_view(orig[j]),
                decreases rest@.len(),
            {
                let ghost k = orig.len() - rest@.len();
                let elem = rest.remove(0);
                proof {
                    assert(orig[k as int] == elem);
                    assert(orig.skip(k as int).remove(0) =~= orig.skip(k + 1));
                    assert(syn_type_depth(orig[k as int]) < syn_type_depth(t));
                }
                out.push(raw_of_syn_type(elem));
            }
            let result = RawType::Tuple(out);
            proof {
                assert(raw_type_view(result)->Tuple_0 =~= syn_types_view(orig));
            }
            result
        },
        TypeShape::Unsupported => RawType::Unsupported,
    }
}

/// Reshapes one generic argument into exactly the raw type it holds; a
/// non-type argument is an unsupported shape.
pub fn raw_of_generic_argument(a: syn::GenericArgument) -> (r: RawType)
    ensures
        raw_type_view(r) == generic_arg_view(a),
{
    match generic_arg_type(a) {
        Some(t) => raw_of_syn_type(t),
        None => RawType::Unsupported,
    }
}

/// Reshapes one field into exactly the raw field the tree holds.
pub fn raw_field_of(f: SynField) -> (r: RawField)
    ensures
        raw_field_view(r) == syn_field_view(f),
{
    let (name, ty) = field_data(f);
    RawField { name, ty: raw_of_syn_type(ty) }
}

#[verifier::loop_isolation(false)]
fn raw_fields_of(fields: Vec<SynField>) -> (r: Vec<RawField>)
    ensures
        raw_fields_view(r@) == syn_fields_view(fields@),
{
    let ghost orig = fields@;
    let mut rest = fields;
    let mut out: Vec<RawField> = Vec::new();
    while rest.len() > 0
        invariant
            rest@.len() <= orig.len(),
            orig.skip(orig.len() - rest@.len()) =~= rest@,
            out@.len() == orig.len() - rest@.len(),
            forall|j: int|
                0 <= j < out@.len() ==> raw_field_view(#[trigger] out@[j]) == syn_field_view(
                    orig[j],
                ),
        decreases rest@.len(),
    {
        let ghost k = orig.len() - rest@.len();
        let f = rest.remove(0);
        proof {
            assert(orig[k as int] == f);
            assert(orig.skip(k as int).remove(0) =~= orig.skip(k + 1));
        }
        out.push(raw_field_of(f));
    }
    proof {
        assert(raw_fields_view(out@) =~= syn_fields_view(orig));
    }
    out
}

/// Reshapes one variant into exactly the raw variant the tree holds.
pub fn raw_variant_of(v: SynVariant) -> (r: RawVariant)
    ensures
        raw_variant_view(r) == syn_variant_view(v),
{
    let (name, fields) = variant_data(v);
    RawVariant { name, fields: raw_fields_of(fields) }
}

/// Reshapes one top-level item into exactly the raw declaration it holds.
#[verifier::loop_isolation(false)]
pub fn raw_decl_of_item(item: syn::Item) -> (r: RawDecl)
    ensures
        raw_decl_view(r) == item_view(item),
{
    match item_data(item) {
        ItemData::Record { name, fields } => RawDecl::Record {
            name,
            fields: raw_fields_of(fields),
        },
        ItemData::Sum { name, variants } => {
            let ghost orig = variants@;
            let mut rest = variants;
            let mut out: Vec<RawVariant> = Vec::new();
            while rest.len() > 0
                invariant
                    rest@.len() <= orig.len(),
                    orig.skip(orig.len() - rest@.len()) =~= rest@,
                    out@.len() == orig.len() - rest@.len(),
                    forall|j: int|
                        0 <= j < out@.len() ==> raw_variant_view(#[trigger] out@[j])
                            == syn_variant_view(orig[j]),
                decreases rest@.len(),
            {
                let ghost k = orig.len() - rest@.len();
                let v = rest.remove(0);
                proof {
                    assert(orig[k as int] == v);
                    assert(orig.skip(k as int).remove(0) =~= orig.skip(k + 1));
                }
                out.push(raw_variant_of(v));
            }
            proof {
                assert(raw_variants_view(out@) =~= syn_variants_view(orig));
            }
            RawDecl::Sum { name, variants: out }
        },
        ItemData::Other => RawDecl::Other,
    }
}

/// Reshapes a whole parsed file into exactly the raw declarations it
/// holds, in source order.
#[verifier::loop_isolation(false)]
pub fn extract_decls(file: syn::File) -> (r: Vec<RawDecl>)
    ensures
        raw_decls_view(r@) == file_view(file),
{
    let mut rest = file_items(file);
    let ghost orig = rest@;
    let mut out: Vec<RawDecl> = Vec::new();
    while rest.len() > 0
        invariant
            rest@.len() <= orig.len(),
            orig.skip(orig.len() - rest@.len()) =~= rest@,
            out@.len() == orig.len() - rest@.len(),
            forall|j: int|
                0 <= j < out@.len() ==> raw_decl_view(#[trigger] out@[j]) == item_view(orig[j]),
        decreases rest@.len(),
    {
        let ghost k = orig.len() - rest@.len();
        let item = rest.remove(0);
        proof {
            assert(orig[k as int] == item);
            assert(orig.skip(k as int).remove(0) =~= orig.skip(k + 1));
        }
        out.push(raw_decl_of_item(item));
    }
    proof {
        assert(raw_decls_view(out@) =~= items_view(orig));
    }
    out
}

} // verus!
