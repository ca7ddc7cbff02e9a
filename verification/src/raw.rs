//! The parsing boundary: raw top-level declarations as plain values.
//!
//! The external parser's syntax tree is reshaped, one syntax node at a time,
//! into these types; everything downstream of them is ordinary verified
//! logic over plain values.

use vstd::prelude::*;

verus! {

broadcast use vstd::seq::axiom_seq_index_decreases, vstd::std_specs::vec::axiom_vec_index_decreases, vstd::std_specs::vec::axiom_vec_decreases_to_view;

/// One raw field-type expression, as the host syntax wrote it.
#[derive(Debug, Eq, PartialEq)]
pub enum RawType {
    /// A path with no angle-bracketed arguments; carries the last segment's
    /// identifier.
    Bare(String),
    /// A path with angle-bracketed arguments; carries the last segment's
    /// identifier and the arguments. An argument that is not itself a type
    /// is recorded as `Unsupported`.
    Generic(String, Vec<RawType>),
    /// A fixed-size array-of-T expression; the length is discarded.
    Array(Box<RawType>),
    /// A fixed-size grouping of sub-expressions.
    Tuple(Vec<RawType>),
    /// Any other shape: a reference, a function type, a path with
    /// parenthesized arguments, and so on.
    Unsupported,
}

/// One raw field: an optional name and a raw type expression.
#[derive(Debug, Eq, PartialEq)]
pub struct RawField {
    pub name: Option<String>,
    pub ty: RawType,
}

/// One raw case of a sum-like declaration.
#[derive(Debug, Eq, PartialEq)]
pub struct RawVariant {
    pub name: String,
    pub fields: Vec<RawField>,
}

/// One raw top-level declaration, tagged by kind.
#[derive(Debug, Eq, PartialEq)]
pub enum RawDecl {
    /// A record-like declaration.
    Record { name: String, fields: Vec<RawField> },
    /// A sum-like declaration.
    Sum { name: String, variants: Vec<RawVariant> },
    /// Any other declaration kind: a function, a trait, an implementation
    /// block, and so on.
    Other,
}

/// Mathematical view of `RawType`.
pub enum RawTypeV {
    Bare(Seq<char>),
    Generic(Seq<char>, Seq<RawTypeV>),
    Array(Box<RawTypeV>),
    Tuple(Seq<RawTypeV>),
    Unsupported,
}

/// Mathematical view of `RawField`.
pub struct RawFieldV {
    pub name: Option<Seq<char>>,
    pub ty: RawTypeV,
}

/// Mathematical view of `RawVariant`.
pub struct RawVariantV {
    pub name: Seq<char>,
    pub fields: Seq<RawFieldV>,
}

/// Mathematical view of `RawDecl`.
pub enum RawDeclV {
    Record { name: Seq<char>, fields: Seq<RawFieldV> },
    Sum { name: Seq<char>, variants: Seq<RawVariantV> },
    Other,
}

pub open spec fn raw_type_view(t: RawType) -> RawTypeV
    decreases t,
{
    match t {
        RawType::Bare(name) => RawTypeV::Bare(name@),
        RawType::Generic(name, args) => RawTypeV::Generic(
            name@,
            Seq::new(
                args@.len(),
                |i: int|
                    if 0 <= i < args@.len() {
                        raw_type_view(args@[i])
                    } else {
                        RawTypeV::Unsupported
                    },
            ),
        ),
        RawType::Array(inner) => RawTypeV::Array(Box::new(raw_type_view(*inner))),
        RawType::Tuple(elems) => RawTypeV::Tuple(
            Seq::new(
                elems@.len(),
                |i: int|
                    if 0 <= i < elems@.len() {
                        raw_type_view(elems@[i])
                    } else {
                        RawTypeV::Unsupported
                    },
            ),
        ),
        RawType::Unsupported => RawTypeV::Unsupported,
    }
}

pub open spec fn raw_field_view(f: RawField) -> RawFieldV {
    RawFieldV {
        name: match f.name {
            Some(n) => Some(n@),
            None => None,
        },
        ty: raw_type_view(f.ty),
    }
}

pub open spec fn raw_fields_view(fs: Seq<RawField>) -> Seq<RawFieldV> {
    fs.map_values(|f: RawField| raw_field_view(f))
}

pub open spec fn raw_variant_view(v: RawVariant) -> RawVariantV {
    RawVariantV { name: v.name@, fields: raw_fields_view(v.fields@) }
}

pub open spec fn raw_variants_view(vs: Seq<RawVariant>) -> Seq<RawVariantV> {
    vs.map_values(|v: RawVariant| raw_variant_view(v))
}

pub open spec fn raw_decl_view(d: RawDecl) -> RawDeclV {
    match d {
        RawDecl::Record { name, fields } => RawDeclV::Record {
            name: name@,
            fields: raw_fields_view(fields@),
        },
        RawDecl::Sum { name, variants } => RawDeclV::Sum {
            name: name@,
            variants: raw_variants_view(variants@),
        },
        RawDecl::Other => RawDeclV::Other,
    }
}

pub open spec fn raw_decls_view(ds: Seq<RawDecl>) -> Seq<RawDeclV> {
    ds.map_values(|d: RawDecl| raw_decl_view(d))
}

} // verus!
