//! Reduction of raw declarations into the normalized model: the type
//! classifier and the element reducer, with their specifications.

use vstd::prelude::*;

use crate::raw::{
    RawDecl, RawDeclV, RawField, RawFieldV, RawType, RawTypeV, RawVariant, RawVariantV,
    raw_decl_view, raw_field_view, raw_fields_view, raw_type_view, raw_variant_view,
    raw_variants_view,
};
use crate::structures::{
    Element, ElementV, EnumElement, EnumElementV, Field, FieldV, StructElement, StructElementV,
    Type, TypeV, Variant, VariantV, element_view, enum_element_view, field_view, fields_view,
    struct_element_view, type_view, variant_view, variants_view,
};

verus! {

broadcast use vstd::seq::axiom_seq_index_decreases, vstd::std_specs::vec::axiom_vec_index_decreases, vstd::std_specs::vec::axiom_vec_decreases_to_view;

/// Error of a single conversion step.
#[derive(Debug, Clone)]
pub enum ConversionError {
    /// The raw expression's shape is not one of the recognized forms.
    UnsupportedType,
}

/// The reserved identifier of the single-parameter container type.
pub open spec fn container_name() -> Seq<char> {
    "Vec"@
}

/// What the classifier produces for one raw type expression: `None` means
/// the shape is not recognized and the field carrying it is dropped.
pub open spec fn classify_spec(r: RawTypeV) -> Option<TypeV>
    decreases r,
{
    match r {
        RawTypeV::Bare(name) => Some(TypeV::Simple(name)),
        RawTypeV::Generic(name, args) => {
            if args.len() == 1 {
                match classify_spec(args[0]) {
                    Some(inner) => {
                        if name == container_name() {
                            Some(TypeV::Vec(Box::new(inner)))
                        } else {
                            Some(TypeV::Other(Box::new(inner)))
                        }
                    },
                    None => None,
                }
            } else {
                None
            }
        },
        RawTypeV::Array(inner) => {
            match classify_spec(*inner) {
                Some(t) => Some(TypeV::Vec(Box::new(t))),
                None => None,
            }
        },
        RawTypeV::Tuple(elems) => {
            if forall|i: int| 0 <= i < elems.len() ==> classify_spec(elems[i]) is Some {
                Some(
                    TypeV::Tuple(
                        Seq::new(
                            elems.len(),
                            |i: int|
                                if 0 <= i < elems.len() {
                                    classify_spec(elems[i])->Some_0
                                } else {
                                    TypeV::Tuple(Seq::empty())
                                },
                        ),
                    ),
                )
            } else {
                None
            }
        },
        RawTypeV::Unsupported => None,
    }
}

/// What the reducer produces for one raw field.
pub open spec fn field_spec(f: RawFieldV) -> Option<FieldV> {
    match classify_spec(f.ty) {
        Some(t) => Some(FieldV { name: f.name, ty: t }),
        None => None,
    }
}

/// The silent-drop field policy: fields whose type fails to classify are
/// left out, in order.
pub open spec fn fields_spec(fs: Seq<RawFieldV>) -> Seq<FieldV>
    decreases fs.len(),
{
    if fs.len() == 0 {
        Seq::empty()
    } else {
        let rest = fields_spec(fs.drop_last());
        match field_spec(fs.last()) {
            Some(f) => rest.push(f),
            None => rest,
        }
    }
}

pub open spec fn variant_spec(v: RawVariantV) -> VariantV {
    VariantV { name: v.name, fields: fields_spec(v.fields) }
}

pub open spec fn variants_spec(vs: Seq<RawVariantV>) -> Seq<VariantV> {
    vs.map_values(|v: RawVariantV| variant_spec(v))
}

/// What the reducer produces for one raw declaration: `None` only for
/// declarations that are neither record-like nor sum-like.
pub open spec fn element_spec(d: RawDeclV) -> Option<ElementV> {
    match d {
        RawDeclV::Record { name, fields } => Some(
            ElementV::Struct(StructElementV { name, fields: fields_spec(fields) }),
        ),
        RawDeclV::Sum { name, variants } => Some(
            ElementV::Enum(EnumElementV { name, variants: variants_spec(variants) }),
        ),
        RawDeclV::Other => None,
    }
}

/// Reduction of a whole declaration list, skipping non-type declarations.
pub open spec fn elements_spec(ds: Seq<RawDeclV>) -> Seq<ElementV>
    decreases ds.len(),
{
    if ds.len() == 0 {
        Seq::empty()
    } else {
        let rest = elements_spec(ds.drop_last());
        match element_spec(ds.last()) {
            Some(e) => rest.push(e),
            None => rest,
        }
    }
}

impl Type {
    /// The type classifier: one raw type expression becomes exactly one
    /// `Type`, or the conversion fails with `UnsupportedType`.
    #[verifier::loop_isolation(false)]
    pub fn try_from_raw(raw: &RawType) -> (r: Result<Type, ConversionError>)
        ensures
            r is Ok <==> classify_spec(raw_type_view(*raw)) is Some,
            r is Ok ==> type_view(r->Ok_0) == classify_spec(raw_type_view(*raw))->Some_0,
        decreases raw,
    {
        match raw {
            RawType::Bare(name) => Ok(Type::Simple(name.clone())),
            RawType::Generic(name, args) => {
                if args.len() != 1 {
                    return Err(ConversionError::UnsupportedType);
                }
                let inner = match Type::try_from_raw(&args[0]) {
                    Ok(t) => t,
                    Err(e) => {
                        return Err(e);
                    },
                };
                if *name == "Vec".to_owned() {
                    Ok(Type::Vec(Box::new(inner)))
                } else {
                    Ok(Type::Other(Box::new(inner)))
                }
            },
            RawType::Array(inner) => {
                match Type::try_from_raw(inner) {
                    Ok(t) => Ok(Type::Vec(Box::new(t))),
                    Err(e) => Err(e),
                }
            },
            RawType::Tuple(elems) => {
                let ghost elems_v = raw_type_view(*raw)->Tuple_0;
                let mut out: Vec<Type> = Vec::new();
                let mut i: usize = 0;
                while i < elems.len()
                    invariant
                        i <= elems@.len(),
                        elems_v == raw_type_view(RawType::Tuple(*elems))->Tuple_0,
                        elems_v.len() == elems@.len(),
                        forall|j: int| 0 <= j < elems@.len() ==> elems_v[j] == raw_type_view(elems@[j]),
                        out@.len() == i,
                        forall|j: int| 0 <= j < i ==> classify_spec(elems_v[j]) is Some,
                        forall|j: int|
                            0 <= j < i ==> type_view(out@[j]) == classify_spec(elems_v[j])->Some_0,
                    decreases elems@.len() - i,
                {
                    match Type::try_from_raw(&elems[i]) {
                        Ok(t) => out.push(t),
                        Err(e) => {
                            proof {
                                assert(elems_v[i as int] == raw_type_view(elems@[i as int]));
                                assert(classify_spec(elems_v[i as int]) is None);
                                assert(!(forall|j: int|
                                    0 <= j < elems_v.len() ==> classify_spec(elems_v[j]) is Some));
                                assert(classify_spec(raw_type_view(*raw)) is None);
                            }
                            return Err(e);
                        },
                    }
                    i += 1;
                }
                let result = Type::Tuple(out);
                proof {
                    let c = classify_spec(raw_type_view(*raw));
                    assert(c is Some);
                    assert(type_view(result)->Tuple_0 =~= c->Some_0->Tuple_0);
                }
                Ok(result)
            },
            RawType::Unsupported => Err(ConversionError::UnsupportedType),
        }
    }
}

impl Field {
    /// One raw field becomes a `Field` when its type classifies.
    pub fn try_from_raw(f: &RawField) -> (r: Result<Field, ConversionError>)
        ensures
            r is Ok <==> field_spec(raw_field_view(*f)) is Some,
            r is Ok ==> field_view(r->Ok_0) == field_spec(raw_field_view(*f))->Some_0,
    {
        let ty = match Type::try_from_raw(&f.ty) {
            Ok(t) => t,
            Err(e) => {
                return Err(e);
            },
        };
        let name = match &f.name {
            Some(n) => Some(n.clone()),
            None => None,
        };
        Ok(Field { name, ty })
    }
}

/// Reduces a raw field list with the silent-drop policy.
#[verifier::loop_isolation(false)]
pub fn fields_from_raw(fields: &Vec<RawField>) -> (r: Vec<Field>)
    ensures
        fields_view(r@) == fields_spec(raw_fields_view(fields@)),
{
    let mut out: Vec<Field> = Vec::new();
    let mut i: usize = 0;
    while i < fields.len()
        invariant
            i <= fields@.len(),
            fields_view(out@) == fields_spec(raw_fields_view(fields@.take(i as int))),
        decreases fields@.len() - i,
    {
        let ghost prefix = raw_fields_view(fields@.take(i as int));
        let ghost prefix1 = raw_fields_view(fields@.take(i as int + 1));
        proof {
            assert(prefix1.drop_last() =~= prefix);
            assert(prefix1.last() == raw_field_view(fields@[i as int]));
        }
        match Field::try_from_raw(&fields[i]) {
            Ok(field) => {
                out.push(field);
                proof {
                    assert(fields_view(out@) =~= fields_spec(prefix1));
                }
            },
            Err(_) => {
                proof {
                    assert(fields_view(out@) =~= fields_spec(prefix1));
                }
            },
        }
        i += 1;
    }
    proof {
        assert(fields@.take(fields@.len() as int) =~= fields@);
    }
    out
}

impl Variant {
    /// One raw case becomes a `Variant`; malformed fields are dropped, the
    /// case itself is kept.
    pub fn from_raw(v: &RawVariant) -> (r: Variant)
        ensures
            variant_view(r) == variant_spec(raw_variant_view(*v)),
    {
        Variant { name: v.name.clone(), fields: fields_from_raw(&v.fields) }
    }
}

impl StructElement {
    /// A record-like declaration keeps its name and its classifiable fields.
    pub fn from_record(name: String, fields: &Vec<RawField>) -> (r: StructElement)
        ensures
            struct_element_view(r) == (StructElementV {
                name: name@,
                fields: fields_spec(raw_fields_view(fields@)),
            }),
    {
        StructElement { name, fields: fields_from_raw(fields) }
    }
}

impl EnumElement {
    /// A sum-like declaration keeps its name and all of its variants.
    #[verifier::loop_isolation(false)]
    pub fn from_sum(name: String, variants: &Vec<RawVariant>) -> (r: EnumElement)
        ensures
            enum_element_view(r) == (EnumElementV {
                name: name@,
                variants: variants_spec(raw_variants_view(variants@)),
            }),
    {
        let mut out: Vec<Variant> = Vec::new();
        let mut i: usize = 0;
        while i < variants.len()
            invariant
                i <= variants@.len(),
                out@.len() == i,
                forall|j: int|
                    0 <= j < i ==> variant_view(out@[j]) == variant_spec(
                        raw_variant_view(variants@[j]),
                    ),
            decreases variants@.len() - i,
        {
            out.push(Variant::from_raw(&variants[i]));
            i += 1;
        }
        let r = EnumElement { name, variants: out };
        proof {
            assert(variants_view(r.variants@) =~= variants_spec(raw_variants_view(variants@)));
        }
        r
    }
}

impl Element {
    /// One raw declaration becomes an `Element`; declarations that are
    /// neither record-like nor sum-like fail with `UnsupportedType`.
    pub fn try_from_decl(d: &RawDecl) -> (r: Result<Element, ConversionError>)
        ensures
            r is Ok <==> element_spec(raw_decl_view(*d)) is Some,
            r is Ok ==> element_view(r->Ok_0) == element_spec(raw_decl_view(*d))->Some_0,
    {
        match d {
            RawDecl::Record { name, fields } => Ok(
                Element::Struct(StructElement::from_record(name.clone(), fields)),
            ),
            RawDecl::Sum { name, variants } => Ok(
                Element::Enum(EnumElement::from_sum(name.clone(), variants)),
            ),
            RawDecl::Other => Err(ConversionError::UnsupportedType),
        }
    }
}

} // verus!
