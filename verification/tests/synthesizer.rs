use builder::classify::{Classification, FieldKind};
use builder::error::GenerationError;
use builder::record::{DeriveInput, Field, ItemShape};
use builder::synth::{classify_fields, impl_derive_builder, synthesize, ClassifiedField};
use builder::type_expr::{
    GenericArgument, PathArguments, PathSegment, TypeExpr, TypePath, TypeShape,
};

fn simple(name: &str) -> TypeExpr {
    TypeExpr {
        spelling: name.to_string(),
        shape: TypeShape::Path(TypePath {
            qualified_self: false,
            leading_colon: false,
            segments: vec![PathSegment { ident: name.to_string(), arguments: PathArguments::Absent }],
        }),
    }
}

fn generic(head: &str, argument: TypeExpr) -> TypeExpr {
    TypeExpr {
        spelling: format!("{}<{}>", head, argument.spelling),
        shape: TypeShape::Path(TypePath {
            qualified_self: false,
            leading_colon: false,
            segments: vec![PathSegment {
                ident: head.to_string(),
                arguments: PathArguments::AngleBracketed(vec![GenericArgument::Type(argument)]),
            }],
        }),
    }
}

fn field(name: &str, ty: TypeExpr) -> Field {
    Field { name: name.to_string(), ty }
}

fn command() -> DeriveInput {
    DeriveInput {
        name: "Command".to_string(),
        shape: ItemShape::Record(vec![
            field("executable", simple("String")),
            field("args", generic("Vec", simple("String"))),
            field("current_dir", generic("Option", simple("String"))),
        ]),
    }
}

#[test]
fn builder_is_named_after_the_record() {
    let input = command();
    let defs = impl_derive_builder(&input).unwrap();
    assert_eq!(defs.record_name, "Command");
    assert_eq!(defs.builder_name, "CommandBuilder");
}

#[test]
fn one_slot_per_field_in_declaration_order() {
    let input = command();
    let defs = impl_derive_builder(&input).unwrap();
    let names: Vec<&str> = defs.slots.iter().map(|slot| slot.name.as_str()).collect();
    assert_eq!(names, vec!["executable", "args", "current_dir"]);
}

#[test]
fn slot_of_a_required_field_holds_the_declared_type() {
    let input = command();
    let defs = impl_derive_builder(&input).unwrap();
    assert_eq!(defs.slots[0].value_type.spelling, "String");
    assert_eq!(defs.slots[1].value_type.spelling, "Vec<String>");
}

#[test]
fn slot_of_an_optional_field_holds_the_inner_type() {
    let input = command();
    let defs = impl_derive_builder(&input).unwrap();
    assert_eq!(defs.slots[2].value_type, &simple("String"));
}

#[test]
fn setters_are_named_after_fields_and_take_the_value_type() {
    let input = command();
    let defs = impl_derive_builder(&input).unwrap();
    let setters: Vec<(&str, &str)> = defs
        .setters
        .iter()
        .map(|setter| (setter.name.as_str(), setter.parameter_type.spelling.as_str()))
        .collect();
    assert_eq!(
        setters,
        vec![("executable", "String"), ("args", "Vec<String>"), ("current_dir", "String")]
    );
}

#[test]
fn finalizer_steps_follow_the_classification() {
    let input = command();
    let defs = impl_derive_builder(&input).unwrap();
    let steps: Vec<(&str, FieldKind)> =
        defs.finalizer.iter().map(|step| (step.field.as_str(), step.kind)).collect();
    assert_eq!(
        steps,
        vec![
            ("executable", FieldKind::Required),
            ("args", FieldKind::Required),
            ("current_dir", FieldKind::Optional),
        ]
    );
}

#[test]
fn record_without_fields_gets_an_empty_builder() {
    let input = DeriveInput { name: "Empty".to_string(), shape: ItemShape::Record(vec![]) };
    let defs = impl_derive_builder(&input).unwrap();
    assert_eq!(defs.builder_name, "EmptyBuilder");
    assert!(defs.slots.is_empty());
    assert!(defs.setters.is_empty());
    assert!(defs.finalizer.is_empty());
}

#[test]
fn tuple_struct_is_rejected() {
    let input = DeriveInput { name: "Pair".to_string(), shape: ItemShape::TupleStruct };
    assert_eq!(impl_derive_builder(&input), Err(GenerationError::UnsupportedShape));
}

#[test]
fn unit_struct_is_rejected() {
    let input = DeriveInput { name: "Marker".to_string(), shape: ItemShape::UnitStruct };
    assert_eq!(impl_derive_builder(&input), Err(GenerationError::UnsupportedShape));
}

#[test]
fn enum_is_rejected() {
    let input = DeriveInput { name: "Choice".to_string(), shape: ItemShape::Enum };
    assert_eq!(impl_derive_builder(&input), Err(GenerationError::UnsupportedShape));
}

#[test]
fn union_is_rejected() {
    let input = DeriveInput { name: "Bits".to_string(), shape: ItemShape::Union };
    assert_eq!(impl_derive_builder(&input), Err(GenerationError::UnsupportedShape));
}

#[test]
fn classify_fields_keeps_names_and_order() {
    let fields = vec![field("name", simple("String")), field("age", generic("Option", simple("u32")))];
    let classified = classify_fields(&fields);
    let inner = simple("u32");
    assert_eq!(
        classified,
        vec![
            ClassifiedField { name: &fields[0].name, class: Classification::Required(&fields[0].ty) },
            ClassifiedField { name: &fields[1].name, class: Classification::Optional(&inner) },
        ]
    );
}

#[test]
fn synthesize_goes_by_the_given_classification() {
    let record = "Person".to_string();
    let name = "nickname".to_string();
    let ty = generic("Option", simple("String"));
    let classified = vec![ClassifiedField { name: &name, class: Classification::Required(&ty) }];
    let defs = synthesize(&record, &classified);
    assert_eq!(defs.builder_name, "PersonBuilder");
    assert_eq!(defs.slots[0].value_type.spelling, "Option<String>");
    assert_eq!(defs.setters[0].parameter_type.spelling, "Option<String>");
    assert_eq!(defs.finalizer[0].kind, FieldKind::Required);
}

#[test]
fn derive_is_classification_followed_by_synthesis() {
    let input = command();
    let fields = match &input.shape {
        ItemShape::Record(fields) => fields,
        _ => unreachable!(),
    };
    let by_hand = synthesize(&input.name, &classify_fields(fields));
    assert_eq!(impl_derive_builder(&input), Ok(by_hand));
}
