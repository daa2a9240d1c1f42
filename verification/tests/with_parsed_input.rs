use builder::classify::{classify, Classification, FieldKind};
use builder::error::GenerationError;
use builder::record::{DeriveInput, Field, ItemShape};
use builder::synth::impl_derive_builder;
use builder::type_expr::{
    GenericArgument, PathArguments, PathSegment, TypeExpr, TypePath, TypeShape,
};
use quote::ToTokens;

fn read_argument(argument: &syn::GenericArgument) -> GenericArgument {
    match argument {
        syn::GenericArgument::Type(ty) => GenericArgument::Type(read_type(ty)),
        _ => GenericArgument::Other,
    }
}

fn read_segment(segment: &syn::PathSegment) -> PathSegment {
    let arguments = match &segment.arguments {
        syn::PathArguments::None => PathArguments::Absent,
        syn::PathArguments::AngleBracketed(list) => {
            PathArguments::AngleBracketed(list.args.iter().map(read_argument).collect())
        }
        syn::PathArguments::Parenthesized(_) => PathArguments::Parenthesized,
    };
    PathSegment { ident: segment.ident.to_string(), arguments }
}

fn read_type(ty: &syn::Type) -> TypeExpr {
    let shape = match ty {
        syn::Type::Path(path) => TypeShape::Path(TypePath {
            qualified_self: path.qself.is_some(),
            leading_colon: path.path.leading_colon.is_some(),
            segments: path.path.segments.iter().map(read_segment).collect(),
        }),
        _ => TypeShape::Other,
    };
    TypeExpr { spelling: ty.to_token_stream().to_string(), shape }
}

fn read_definition(source: &str) -> DeriveInput {
    let ast: syn::DeriveInput = syn::parse_str(source).expect("the source is a type definition");
    let shape = match &ast.data {
        syn::Data::Struct(data) => match &data.fields {
            syn::Fields::Named(fields) => ItemShape::Record(
                fields
                    .named
                    .iter()
                    .map(|field| Field {
                        name: field.ident.as_ref().unwrap().to_string(),
                        ty: read_type(&field.ty),
                    })
                    .collect(),
            ),
            syn::Fields::Unnamed(_) => ItemShape::TupleStruct,
            syn::Fields::Unit => ItemShape::UnitStruct,
        },
        syn::Data::Enum(_) => ItemShape::Enum,
        syn::Data::Union(_) => ItemShape::Union,
    };
    DeriveInput { name: ast.ident.to_string(), shape }
}

fn type_from(source: &str) -> TypeExpr {
    match syn::parse_str::<syn::Type>(source) {
        Ok(ty) => read_type(&ty),
        Err(error) => panic!("`{}` is no type: {}", source, error),
    }
}

fn same_tokens(left: &str, right: &str) -> bool {
    let strip = |text: &str| text.chars().filter(|c| !c.is_whitespace()).collect::<String>();
    strip(left) == strip(right)
}

#[test]
fn parsed_option_is_optional() {
    let ty = type_from("Option<u32>");
    match classify(&ty) {
        Classification::Optional(inner) => assert_eq!(inner, &type_from("u32")),
        Classification::Required(_) => panic!("Option<u32> is optional"),
    }
}

#[test]
fn parsed_option_of_a_generic_type_keeps_the_whole_inner_type() {
    let ty = type_from("Option<std::collections::HashMap<String, Vec<u8>>>");
    match classify(&ty) {
        Classification::Optional(inner) => {
            assert_eq!(inner, &type_from("std::collections::HashMap<String, Vec<u8>>"))
        }
        Classification::Required(_) => panic!("an Option is optional"),
    }
}

#[test]
fn parsed_types_on_the_required_side_of_the_boundary() {
    let sources = [
        "std::option::Option<u32>",
        "core::option::Option<u32>",
        "::std::option::Option<u32>",
        "::Option<u32>",
        "<T as Source>::Option<u32>",
        "<Option<u32>>::Item",
        "Option",
        "Option<>",
        "Option<u32, u8>",
        "Option<'a>",
        "Option<3>",
        "Option<Item = u32>",
        "option<u32>",
        "Optional<u32>",
        "MyOption<u32>",
        "Vec<Option<u32>>",
        "&Option<u32>",
        "(Option<u32>)",
        "(Option<u32>,)",
        "[Option<u32>; 2]",
        "String",
        "u32",
        "()",
    ];
    for source in sources {
        let ty = type_from(source);
        assert_eq!(classify(&ty), Classification::Required(&ty), "{}", source);
        assert!(same_tokens(&classify(&ty).value_type().spelling, source), "{}", source);
    }
}

#[test]
fn parsed_path_is_judged_by_its_first_segment() {
    let ty = type_from("Option<u32>::Item");
    assert_eq!(classify(&ty), Classification::Optional(&type_from("u32")));
}

#[test]
fn parsed_record_is_classified_field_by_field() {
    let input = read_definition(
        "pub struct Command {
            executable: String,
            args: Vec<String>,
            env: std::option::Option<String>,
            current_dir: Option<String>,
        }",
    );
    let defs = impl_derive_builder(&input).unwrap();
    assert_eq!(defs.builder_name, "CommandBuilder");
    let steps: Vec<(&str, FieldKind)> =
        defs.finalizer.iter().map(|step| (step.field.as_str(), step.kind)).collect();
    assert_eq!(
        steps,
        vec![
            ("executable", FieldKind::Required),
            ("args", FieldKind::Required),
            ("env", FieldKind::Required),
            ("current_dir", FieldKind::Optional),
        ]
    );
    let held: Vec<&TypeExpr> = defs.slots.iter().map(|slot| slot.value_type).collect();
    assert_eq!(
        held,
        vec![
            &type_from("String"),
            &type_from("Vec<String>"),
            &type_from("std::option::Option<String>"),
            &type_from("String"),
        ]
    );
}

#[test]
fn parsed_record_gives_items_that_parse_again() {
    let input = read_definition(
        "struct Job<'a> {
            name: &'a str,
            retries: Option<u8>,
            r#type: Option<Vec<(String, u64)>>,
            hook: Box<dyn Fn(u8) -> u8>,
        }",
    );
    let text = impl_derive_builder(&input).unwrap().render();
    let file: syn::File = syn::parse_str(&text).expect("the generated text is a sequence of items");
    assert_eq!(file.items.len(), 3);
    let builder = match &file.items[0] {
        syn::Item::Struct(item) => item,
        _ => panic!("the first item is the builder type"),
    };
    let slots: Vec<(String, String)> = builder
        .fields
        .iter()
        .map(|field| {
            (field.ident.as_ref().unwrap().to_string(), field.ty.to_token_stream().to_string())
        })
        .collect();
    let expected = [
        ("name", "std::option::Option<&'a str>"),
        ("retries", "std::option::Option<u8>"),
        ("r#type", "std::option::Option<Vec<(String, u64)>>"),
        ("hook", "std::option::Option<Box<dyn Fn(u8) -> u8>>"),
    ];
    assert_eq!(slots.len(), expected.len());
    for ((name, ty), (expected_name, expected_ty)) in slots.iter().zip(expected) {
        assert_eq!(name, expected_name);
        assert!(same_tokens(ty, expected_ty), "{} against {}", ty, expected_ty);
    }
}

#[test]
fn parsed_setters_take_the_value_type() {
    let input = read_definition("struct Person { name: String, age: Option<u32> }");
    let text = impl_derive_builder(&input).unwrap().render();
    let file: syn::File = syn::parse_str(&text).unwrap();
    let methods = match &file.items[1] {
        syn::Item::Impl(item) => &item.items,
        _ => panic!("the second item holds the methods of the builder"),
    };
    let parameters: Vec<(String, String)> = methods
        .iter()
        .filter_map(|member| match member {
            syn::ImplItem::Fn(method) => match method.sig.inputs.last() {
                Some(syn::FnArg::Typed(parameter)) => Some((
                    method.sig.ident.to_string(),
                    parameter.ty.to_token_stream().to_string(),
                )),
                _ => None,
            },
            _ => None,
        })
        .collect();
    assert_eq!(
        parameters,
        vec![("name".to_string(), "String".to_string()), ("age".to_string(), "u32".to_string())]
    );
}

#[test]
fn parsed_definitions_that_are_no_records_are_rejected() {
    let sources = [
        "struct Pair(u8, u8);",
        "struct Marker;",
        "enum Choice { Left, Right }",
        "union Bits { whole: u32, parts: [u8; 4] }",
    ];
    for source in sources {
        let input = read_definition(source);
        assert_eq!(
            impl_derive_builder(&input),
            Err(GenerationError::UnsupportedShape),
            "{}",
            source
        );
    }
}

#[test]
fn parsed_record_without_fields_is_accepted() {
    let input = read_definition("struct Empty {}");
    let defs = impl_derive_builder(&input).unwrap();
    assert!(defs.slots.is_empty());
    let file: syn::File = syn::parse_str(&defs.render()).unwrap();
    assert_eq!(file.items.len(), 3);
}
