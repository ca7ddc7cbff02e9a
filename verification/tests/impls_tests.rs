use rust_code_visualizer::impls::ConversionError;
use rust_code_visualizer::raw::RawType;
use rust_code_visualizer::structures::{Element, Field, StructElement, Type, Variant};
use rust_code_visualizer::syn_ast::{
    raw_decl_of_item, raw_field_of, raw_of_generic_argument, raw_variant_of,
    try_convert_ident_to_string, try_convert_option_ident_to_option_string,
};
use syn::parse_str;

#[test]
fn test_struct_element_from() {
    let code = "pub struct TestStruct { field1: u32, field2: String }";
    let item_struct: syn::ItemStruct = parse_str(code).unwrap();
    let raw = raw_decl_of_item(syn::Item::Struct(item_struct));
    let struct_element = match Element::try_from_decl(&raw).unwrap() {
        Element::Struct(se) => se,
        Element::Enum(_) => panic!("expected a record element"),
    };

    assert_eq!(struct_element.name, "TestStruct");
    assert_eq!(struct_element.fields.len(), 2);
    assert_eq!(struct_element.fields[0].name, Some("field1".to_string()));
    assert_eq!(struct_element.fields[0].ty, Type::Simple("u32".to_string()));
    assert_eq!(struct_element.fields[1].name, Some("field2".to_string()));
    assert_eq!(
        struct_element.fields[1].ty,
        Type::Simple("String".to_string())
    );
}

#[test]
fn test_enum_element_from() {
    let code = "
        pub enum TestEnum {
            Variant1(u32),
            Variant2 { field: String },
        }
    ";
    let item_enum: syn::ItemEnum = parse_str(code).unwrap();
    let raw = raw_decl_of_item(syn::Item::Enum(item_enum));
    let enum_element = match Element::try_from_decl(&raw).unwrap() {
        Element::Enum(ee) => ee,
        Element::Struct(_) => panic!("expected a sum element"),
    };

    assert_eq!(enum_element.name, "TestEnum");
    assert_eq!(enum_element.variants.len(), 2);
    assert_eq!(enum_element.variants[0].name, "Variant1");
    assert_eq!(enum_element.variants[0].fields.len(), 1);
    assert_eq!(enum_element.variants[1].name, "Variant2");
    assert_eq!(enum_element.variants[1].fields.len(), 1);
}

#[test]
fn test_field_from() {
    let code = "pub struct TestStruct { field1: u32 }";
    let item_struct: syn::ItemStruct = parse_str(code).unwrap();
    let syn_field = item_struct.fields.into_iter().next().unwrap();
    let field = Field::try_from_raw(&raw_field_of(syn_field));

    match field {
        Ok(field) => {
            assert_eq!(field.name, Some("field1".to_string()));
            assert_eq!(field.ty, Type::Simple("u32".to_string()));
        }
        Err(_) => {
            panic!("Error field conversion")
        }
    }
}

#[test]
fn test_field_vec() {
    let code = r#"
        pub struct C {
            pub f: F,
            pub g: Vec<G>,
        }
    "#;

    let parsed: syn::Item = parse_str(code).unwrap();
    let element = Element::try_from_decl(&raw_decl_of_item(parsed)).unwrap();

    let expected_element = Element::Struct(StructElement {
        name: "C".to_string(),
        fields: vec![
            Field {
                name: Some("f".to_string()),
                ty: Type::Simple("F".to_string()),
            },
            Field {
                name: Some("g".to_string()),
                ty: Type::Vec(Box::new(Type::Simple("G".to_string()))),
            },
        ],
    });

    assert_eq!(element, expected_element);
}

#[test]
fn test_variant_from() {
    let code = "
        pub enum TestEnum {
            Variant1(u32),
        }
    ";
    let item_enum: syn::ItemEnum = parse_str(code).unwrap();
    let syn_variant = item_enum.variants.into_iter().next().unwrap();
    let variant = Variant::from_raw(&raw_variant_of(syn_variant));

    assert_eq!(variant.name, "Variant1");
    assert_eq!(variant.fields.len(), 1);
    assert_eq!(variant.fields[0].name, None);
    assert_eq!(variant.fields[0].ty, Type::Simple("u32".to_string()));
}

#[test]
fn test_element_from() {
    let code = "pub struct TestStruct { field1: u32 }";
    let item: syn::Item = parse_str(code).unwrap();
    let element = Element::try_from_decl(&raw_decl_of_item(item));

    match element {
        Ok(element) => match element {
            Element::Struct(struct_element) => {
                assert_eq!(struct_element.name, "TestStruct");
                assert_eq!(struct_element.fields.len(), 1);
            }
            _ => panic!("Expected Element::Struct"),
        },
        _ => panic!("Expected Element::Struct"),
    }
}

#[test]
fn test_try_convert_option_ident_to_option_string() {
    let opt_ident: Option<proc_macro2::Ident> = Some(parse_str("test_ident").unwrap());
    let opt_string = try_convert_option_ident_to_option_string(opt_ident);

    assert_eq!(opt_string, Some("test_ident".to_string()));
}

#[test]
fn test_try_convert_ident_to_string() {
    let ident: proc_macro2::Ident = parse_str("test_ident").unwrap();
    let result = try_convert_ident_to_string(ident);

    match result {
        Ok(s) => assert_eq!(s, "test_ident".to_string()),
        Err(_) => panic!("Unexpected error"),
    }
}

#[test]
fn test_type_try_from_angle_bracketed_generic_arguments() {
    let generic_args_str = "<u32>";
    let angle_bracketed_generic_args: syn::AngleBracketedGenericArguments =
        parse_str(generic_args_str).unwrap();
    let first_arg = angle_bracketed_generic_args.args.into_iter().next().unwrap();
    let ty = Type::try_from_raw(&raw_of_generic_argument(first_arg));

    match ty {
        Ok(t) => assert_eq!(t, Type::Simple("u32".to_string())),
        Err(_) => panic!("Unexpected error"),
    }
}

#[test]
fn test_type_from_generic_argument() {
    let generic_arg_str = "u32";
    let generic_arg: syn::GenericArgument = parse_str(generic_arg_str).unwrap();
    let ty = Type::try_from_raw(&raw_of_generic_argument(generic_arg)).unwrap();

    assert_eq!(ty, Type::Simple("u32".to_string()));
}

#[test]
fn test_unsupported_raw_type_is_an_error() {
    let r = Type::try_from_raw(&RawType::Unsupported);
    assert!(matches!(r, Err(ConversionError::UnsupportedType)));
}
