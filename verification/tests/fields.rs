use starlark_derive::annotation::{Annotation, Token};
use starlark_derive::declaration::{FieldDescriptor, Shape};
use starlark_derive::error::{Expectation, GenerationError};
use starlark_derive::fields::{freeze_enum, freeze_impl, freeze_struct, FieldAction, FieldFragment, StructBody};

fn marked() -> Vec<Annotation> {
    vec![Annotation { name: "freeze".to_string(), arguments: Some(vec![Token::Ident("identity".to_string())]) }]
}

fn broken() -> Vec<Annotation> {
    vec![Annotation { name: "freeze".to_string(), arguments: Some(vec![Token::Other]) }]
}

fn named_field(name: &str, annotations: Vec<Annotation>) -> FieldDescriptor {
    FieldDescriptor { name: Some(name.to_string()), annotations }
}

fn positional_field(annotations: Vec<Annotation>) -> FieldDescriptor {
    FieldDescriptor { name: None, annotations }
}

fn fragment(member: &str, action: FieldAction) -> FieldFragment {
    FieldFragment { member: member.to_string(), action }
}

#[test]
fn named_fields_are_planned_in_declaration_order() {
    let shape = Shape::NamedFields(vec![
        named_field("zeta", vec![]),
        named_field("alpha", marked()),
        named_field("mid", vec![]),
    ]);
    assert!(shape.is_struct());
    assert!(shape.is_well_formed());
    let body = freeze_struct(&shape).unwrap();
    assert_eq!(
        body,
        StructBody::Named(vec![
            fragment("zeta", FieldAction::Freeze),
            fragment("alpha", FieldAction::Identity),
            fragment("mid", FieldAction::Freeze),
        ])
    );
    assert_eq!(
        body.to_source("Record"),
        "std::result::Result::Ok(Record { \
         zeta: starlark::values::Freeze::freeze(self.zeta, freezer)?, \
         alpha: self.alpha, \
         mid: starlark::values::Freeze::freeze(self.mid, freezer)?, })"
    );
    assert_eq!(freeze_impl(&shape), Ok(body));
}

#[test]
fn frozen_and_moved_field_side_by_side() {
    let shape = Shape::NamedFields(vec![named_field("a", vec![]), named_field("b", marked())]);
    assert_eq!(
        freeze_struct(&shape).unwrap().to_source("S"),
        "std::result::Result::Ok(S { a: starlark::values::Freeze::freeze(self.a, freezer)?, b: self.b, })"
    );
}

#[test]
fn positional_fields_are_planned_by_ascending_index() {
    let shape = Shape::PositionalFields(vec![
        positional_field(vec![]),
        positional_field(marked()),
        positional_field(vec![]),
    ]);
    assert!(shape.is_well_formed());
    let body = freeze_struct(&shape).unwrap();
    assert_eq!(
        body,
        StructBody::Positional(vec![
            fragment("0", FieldAction::Freeze),
            fragment("1", FieldAction::Identity),
            fragment("2", FieldAction::Freeze),
        ])
    );
    assert_eq!(
        body.to_source("Pair"),
        "std::result::Result::Ok(Pair(\
         starlark::values::FreezeField::freeze_field(self.0, freezer)?, \
         self.1, \
         starlark::values::FreezeField::freeze_field(self.2, freezer)?))"
    );
}

#[test]
fn positional_indices_beyond_nine() {
    let fields: Vec<FieldDescriptor> = (0..12).map(|_| positional_field(marked())).collect();
    let body = freeze_struct(&Shape::PositionalFields(fields)).unwrap();
    match body {
        StructBody::Positional(fragments) => {
            assert_eq!(fragments.len(), 12);
            assert_eq!(fragments[9].member, "9");
            assert_eq!(fragments[10].member, "10");
            assert_eq!(fragments[11].member, "11");
        }
        _ => panic!("positional fields give a positional body"),
    }
}

#[test]
fn struct_without_fields_has_an_empty_body() {
    assert_eq!(freeze_struct(&Shape::UnitFields), Ok(StructBody::Unit));
    assert_eq!(freeze_impl(&Shape::UnitFields), Ok(StructBody::Unit));
    assert_eq!(StructBody::Unit.to_source("Marker"), "");
}

#[test]
fn struct_with_braces_and_no_fields() {
    let body = freeze_struct(&Shape::NamedFields(vec![])).unwrap();
    assert_eq!(body, StructBody::Named(vec![]));
    assert_eq!(body.to_source("Empty"), "std::result::Result::Ok(Empty {  })");
    let body = freeze_struct(&Shape::PositionalFields(vec![])).unwrap();
    assert_eq!(body.to_source("Empty"), "std::result::Result::Ok(Empty())");
}

#[test]
fn first_malformed_field_decides_the_error() {
    let shape = Shape::NamedFields(vec![
        named_field("good", marked()),
        named_field(
            "bad",
            vec![Annotation {
                name: "freeze".to_string(),
                arguments: Some(vec![Token::Ident("identity".to_string()), Token::Other]),
            }],
        ),
        named_field("worse", broken()),
    ]);
    assert_eq!(
        freeze_struct(&shape),
        Err(GenerationError::Malformed { annotation: 0, position: 1, expected: Expectation::End })
    );
}

#[test]
fn enums_and_unions_are_refused() {
    assert_eq!(freeze_enum(), Err(GenerationError::EnumShape));
    assert_eq!(freeze_impl(&Shape::EnumVariants), Err(GenerationError::EnumShape));
    assert_eq!(freeze_impl(&Shape::UnionFields), Err(GenerationError::UnionShape));
    assert!(!Shape::EnumVariants.is_struct());
    assert!(!Shape::UnionFields.is_struct());
    assert!(Shape::EnumVariants.is_well_formed());
}

#[test]
fn names_must_fit_the_shape() {
    assert!(!Shape::NamedFields(vec![named_field("a", vec![]), positional_field(vec![])]).is_well_formed());
    assert!(!Shape::PositionalFields(vec![positional_field(vec![]), named_field("a", vec![])]).is_well_formed());
    assert!(Shape::NamedFields(vec![]).is_well_formed());
    assert!(Shape::PositionalFields(vec![positional_field(vec![])]).is_well_formed());
}
