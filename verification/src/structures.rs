//! The normalized type-declaration model: elements, variants, fields and
//! field-type shapes, together with their mathematical views.

use vstd::prelude::*;

verus! {

broadcast use vstd::seq::axiom_seq_index_decreases, vstd::std_specs::vec::axiom_vec_index_decreases, vstd::std_specs::vec::axiom_vec_decreases_to_view;

/// The shape of one field's declared type.
#[derive(Debug, Eq, PartialEq)]
pub enum Type {
    /// A bare named type, such as a reference to another declared type or a
    /// primitive.
    Simple(String),
    /// The reserved single-parameter container (a homogeneous sequence)
    /// wrapping one inner type.
    Vec(Box<Type>),
    /// A fixed-size heterogeneous grouping.
    Tuple(Vec<Type>),
    /// Any other single-parameter wrapper; carried along but never unwrapped
    /// during edge resolution.
    Other(Box<Type>),
}

/// One field of a record or of a variant. `name` is `None` when the field
/// belongs to a variant with a positional payload.
#[derive(Debug, Eq, PartialEq)]
pub struct Field {
    pub name: Option<String>,
    pub ty: Type,
}

/// One case of a sum-type declaration.
#[derive(Debug, Eq, PartialEq)]
pub struct Variant {
    pub name: String,
    pub fields: Vec<Field>,
}

/// A record-like declaration: a named, fixed set of fields.
#[derive(Debug, Eq, PartialEq)]
pub struct StructElement {
    pub name: String,
    pub fields: Vec<Field>,
}

/// A sum-like declaration: a closed set of named variants.
#[derive(Debug, Eq, PartialEq)]
pub struct EnumElement {
    pub name: String,
    pub variants: Vec<Variant>,
}

/// A normalized top-level type declaration.
#[derive(Debug, Eq, PartialEq)]
pub enum Element {
    Struct(StructElement),
    Enum(EnumElement),
}

/// Mathematical view of `Type`.
pub enum TypeV {
    Simple(Seq<char>),
    Vec(Box<TypeV>),
    Tuple(Seq<TypeV>),
    Other(Box<TypeV>),
}

/// Mathematical view of `Field`.
pub struct FieldV {
    pub name: Option<Seq<char>>,
    pub ty: TypeV,
}

/// Mathematical view of `Variant`.
pub struct VariantV {
    pub name: Seq<char>,
    pub fields: Seq<FieldV>,
}

/// Mathematical view of `StructElement`.
pub struct StructElementV {
    pub name: Seq<char>,
    pub fields: Seq<FieldV>,
}

/// Mathematical view of `EnumElement`.
pub struct EnumElementV {
    pub name: Seq<char>,
    pub variants: Seq<VariantV>,
}

/// Mathematical view of `Element`.
pub enum ElementV {
    Struct(StructElementV),
    Enum(EnumElementV),
}

pub open spec fn type_view(t: Type) -> TypeV
    decreases t,
{
    match t {
        Type::Simple(name) => TypeV::Simple(name@),
        Type::Vec(inner) => TypeV::Vec(Box::new(type_view(*inner))),
        Type::Tuple(elems) => TypeV::Tuple(
            // The guard keeps the recursion within the sequence, where the
            // elements are structurally smaller; out-of-range positions are
            // never read by `Seq::new`.
            Seq::new(
                elems@.len(),
                |i: int|
                    if 0 <= i < elems@.len() {
                        type_view(elems@[i])
                    } else {
                        TypeV::Tuple(Seq::empty())
                    },
            ),
        ),
        Type::Other(inner) => TypeV::Other(Box::new(type_view(*inner))),
    }
}

pub open spec fn field_view(f: Field) -> FieldV {
    FieldV {
        name: match f.name {
            Some(n) => Some(n@),
            None => None,
        },
        ty: type_view(f.ty),
    }
}

pub open spec fn fields_view(fs: Seq<Field>) -> Seq<FieldV> {
    fs.map_values(|f: Field| field_view(f))
}

pub open spec fn variant_view(v: Variant) -> VariantV {
    VariantV { name: v.name@, fields: fields_view(v.fields@) }
}

pub open spec fn variants_view(vs: Seq<Variant>) -> Seq<VariantV> {
    vs.map_values(|v: Variant| variant_view(v))
}

pub open spec fn struct_element_view(s: StructElement) -> StructElementV {
    StructElementV { name: s.name@, fields: fields_view(s.fields@) }
}

pub open spec fn enum_element_view(e: EnumElement) -> EnumElementV {
    EnumElementV { name: e.name@, variants: variants_view(e.variants@) }
}

pub open spec fn element_view(e: Element) -> ElementV {
    match e {
        Element::Struct(s) => ElementV::Struct(struct_element_view(s)),
        Element::Enum(en) => ElementV::Enum(enum_element_view(en)),
    }
}

pub open spec fn elements_view(es: Seq<Element>) -> Seq<ElementV> {
    es.map_values(|e: Element| element_view(e))
}

} // verus!
