use starlark_derive::annotation::{Annotation, Token};
use starlark_derive::declaration::{FieldDescriptor, GenericParameter, Shape, TypeDeclaration};
use starlark_derive::error::{Expectation, GenerationError, OptionKey};
use starlark_derive::fields::{FieldAction, StructBody};
use starlark_derive::options::{bounds_in_question, PredicateAnswer};
use starlark_derive::synthesis::{derive_freeze, GeneratedImplementation};

fn word(text: &str) -> Token {
    Token::Ident(text.to_string())
}

fn freeze(tokens: Vec<Token>) -> Annotation {
    Annotation { name: "freeze".to_string(), arguments: Some(tokens) }
}

fn validator(name: &str) -> Vec<Token> {
    vec![word("validator"), Token::Punct('='), word(name)]
}

fn bounds(text: &str) -> Vec<Token> {
    vec![word("bounds"), Token::Punct('='), Token::Str(text.to_string())]
}

fn field(name: &str, annotations: Vec<Annotation>) -> FieldDescriptor {
    FieldDescriptor { name: Some(name.to_string()), annotations }
}

fn type_parameter(name: &str, bounds: &[&str]) -> GenericParameter {
    GenericParameter::Type {
        name: name.to_string(),
        bounds: bounds.iter().map(|bound| bound.to_string()).collect(),
    }
}

fn record(generics: Vec<GenericParameter>, annotations: Vec<Annotation>, shape: Shape) -> TypeDeclaration {
    TypeDeclaration { name: "Record".to_string(), generics, annotations, shape }
}

fn parse(text: &str) -> PredicateAnswer {
    let reading = match syn::parse_str::<syn::WherePredicate>(text) {
        Ok(predicate) => Ok(quote::ToTokens::to_token_stream(&predicate).to_string()),
        Err(error) => Err(error.to_string()),
    };
    PredicateAnswer { text: text.to_string(), reading }
}

fn derive(declaration: &TypeDeclaration) -> Result<GeneratedImplementation, GenerationError> {
    let answer = bounds_in_question(&declaration.annotations).map(|text| parse(&text));
    derive_freeze(declaration, &answer)
}

fn tokens(source: &str) -> String {
    source.parse::<proc_macro2::TokenStream>().unwrap().to_string()
}

fn duplicate() -> Vec<Annotation> {
    vec![freeze(validator("first")), freeze(validator("second"))]
}

fn broken_field() -> Shape {
    Shape::NamedFields(vec![field("bad", vec![freeze(vec![Token::Other])])])
}

#[test]
fn every_field_is_frozen_in_declaration_order() {
    let names = ["e", "d", "c", "b", "a"];
    let declaration = record(
        vec![type_parameter("A", &[]), type_parameter("B", &["Clone"]), type_parameter("C", &[])],
        vec![],
        Shape::NamedFields(names.iter().map(|name| field(name, vec![])).collect()),
    );
    let implementation = derive(&declaration).unwrap();
    match &implementation.body {
        StructBody::Named(fragments) => {
            assert_eq!(fragments.len(), names.len());
            for (fragment, name) in fragments.iter().zip(names.iter()) {
                assert_eq!(fragment.member, *name);
                assert_eq!(fragment.action, FieldAction::Freeze);
            }
        }
        _ => panic!("named fields give a named body"),
    }
    assert_eq!(
        implementation.procedure(),
        "std::result::Result::Ok(Record { \
         e: starlark::values::Freeze::freeze(self.e, freezer)?, \
         d: starlark::values::Freeze::freeze(self.d, freezer)?, \
         c: starlark::values::Freeze::freeze(self.c, freezer)?, \
         b: starlark::values::Freeze::freeze(self.b, freezer)?, \
         a: starlark::values::Freeze::freeze(self.a, freezer)?, })"
    );
    assert!(syn::parse_str::<syn::ItemImpl>(&implementation.to_source()).is_ok());
}

#[test]
fn validator_is_called_before_any_field() {
    let declaration = record(
        vec![],
        vec![freeze(validator("check"))],
        Shape::NamedFields(vec![field("first", vec![]), field("second", vec![])]),
    );
    let implementation = derive(&declaration).unwrap();
    assert_eq!(implementation.validator, Some("check".to_string()));
    let procedure = implementation.procedure();
    assert_eq!(
        procedure,
        "check(&self)?; std::result::Result::Ok(Record { \
         first: starlark::values::Freeze::freeze(self.first, freezer)?, \
         second: starlark::values::Freeze::freeze(self.second, freezer)?, })"
    );
    assert!(procedure.find("check(&self)?").unwrap() < procedure.find("self.first").unwrap());
    assert!(syn::parse_str::<syn::ItemImpl>(&implementation.to_source()).is_ok());
}

#[test]
fn bounds_replace_the_added_capability() {
    let declaration = record(
        vec![
            GenericParameter::Lifetime { name: "v".to_string(), bounds: vec![] },
            type_parameter("V", &["ValueLike<'v>"]),
        ],
        vec![freeze(bounds("V::Frozen: ValueLike<'static>"))],
        Shape::PositionalFields(vec![FieldDescriptor { name: None, annotations: vec![] }]),
    );
    let answer = Some(PredicateAnswer {
        text: "V::Frozen: ValueLike<'static>".to_string(),
        reading: Ok("V :: Frozen : ValueLike < 'static >".to_string()),
    });
    let implementation = derive_freeze(&declaration, &answer).unwrap();
    assert_eq!(implementation.impl_params, "<'freeze, 'v, V: ValueLike<'v>,>");
    assert_eq!(implementation.bounds, Some("V :: Frozen : ValueLike < 'static >".to_string()));
    assert_eq!(
        implementation.header(),
        "impl<'freeze, 'v, V: ValueLike<'v>,> starlark::values::Freeze for Record<'v, V,> \
         where V :: Frozen : ValueLike < 'static >"
    );
    assert_eq!(implementation.frozen_form(), "Record<'static, V::Frozen,>");
    assert_eq!(
        implementation.to_source(),
        "impl<'freeze, 'v, V: ValueLike<'v>,> starlark::values::Freeze for Record<'v, V,> \
         where V :: Frozen : ValueLike < 'static > \
         { type Frozen = Record<'static, V::Frozen,>; \
         fn freeze(self, freezer: &starlark::values::Freezer) -> anyhow::Result<Self::Frozen> \
         { std::result::Result::Ok(Record(starlark::values::FreezeField::freeze_field(self.0, freezer)?)) } }"
    );
    assert!(syn::parse_str::<syn::ItemImpl>(&implementation.to_source()).is_ok());
    assert_eq!(derive(&declaration), Ok(implementation));
}

#[test]
fn bounds_replace_the_capability_in_the_header() {
    let declaration = TypeDeclaration {
        name: "S".to_string(),
        generics: vec![type_parameter("T", &[])],
        annotations: vec![freeze(bounds("T: Foo"))],
        shape: Shape::NamedFields(vec![field("a", vec![])]),
    };
    let implementation = derive(&declaration).unwrap();
    assert_eq!(
        tokens(&implementation.header()),
        tokens("impl<'freeze, T,> starlark::values::Freeze for S<T,> where T: Foo")
    );
    assert!(!implementation.header().contains("T: starlark::values::Freeze"));
}

#[test]
fn comment_in_the_bounds_does_not_reach_the_source() {
    let declaration = record(
        vec![type_parameter("T", &[])],
        vec![freeze(bounds("T: Foo // note"))],
        Shape::NamedFields(vec![field("a", vec![])]),
    );
    let source = derive(&declaration).unwrap().to_source();
    assert!(!source.contains("//"));
    assert!(syn::parse_str::<syn::ItemImpl>(&source).is_ok());
}

#[test]
fn bounds_want_an_answer() {
    let declaration = record(vec![], vec![freeze(bounds("T: Foo"))], Shape::EnumVariants);
    assert_eq!(
        derive_freeze(&declaration, &None),
        Err(GenerationError::BoundsUnread { annotation: 0, position: 2, text: "T: Foo".to_string() })
    );
    assert_eq!(derive(&declaration), Err(GenerationError::EnumShape));
    let declaration = record(vec![], vec![freeze(bounds("T"))], Shape::UnitFields);
    assert_eq!(
        derive(&declaration),
        Err(GenerationError::InvalidBounds { annotation: 0, position: 2, message: "expected `:`".to_string() })
    );
}

#[test]
fn struct_without_parameters_and_fields() {
    let implementation = derive(&record(vec![], vec![], Shape::UnitFields)).unwrap();
    assert_eq!(
        implementation,
        GeneratedImplementation {
            name: "Record".to_string(),
            impl_params: "<'freeze,>".to_string(),
            input_params: "".to_string(),
            output_params: "".to_string(),
            bounds: None,
            validator: None,
            body: StructBody::Unit,
        }
    );
    assert_eq!(implementation.procedure(), "");
    assert_eq!(
        implementation.to_source(),
        "impl<'freeze,> starlark::values::Freeze for Record \
         { type Frozen = Record; \
         fn freeze(self, freezer: &starlark::values::Freezer) -> anyhow::Result<Self::Frozen> {  } }"
    );
}

#[test]
fn enum_is_refused_whatever_else_is_declared() {
    let error = derive(&record(vec![type_parameter("V", &[])], vec![], Shape::EnumVariants))
        .unwrap_err();
    assert_eq!(error, GenerationError::EnumShape);
    assert_eq!(error.message(), "cannot derive for enums");
    assert_eq!(
        derive(&record(vec![], vec![freeze(validator("check"))], Shape::EnumVariants)),
        Err(GenerationError::EnumShape)
    );
}

#[test]
fn union_is_refused() {
    let error = derive(&record(vec![], vec![], Shape::UnionFields)).unwrap_err();
    assert_eq!(error, GenerationError::UnionShape);
    assert_eq!(error.message(), "cannot derive for unions");
}

#[test]
fn const_parameter_is_refused_whatever_the_fields_hold() {
    let generics = vec![type_parameter("V", &[]), GenericParameter::Const { name: "N".to_string() }];
    for shape in [
        Shape::UnitFields,
        Shape::NamedFields(vec![field("a", vec![])]),
        broken_field(),
        Shape::EnumVariants,
        Shape::UnionFields,
    ] {
        let error = derive(&record(generics.clone(), vec![], shape)).unwrap_err();
        assert_eq!(error, GenerationError::ConstGeneric);
        assert_eq!(error.message(), "const generics not supported");
    }
}

#[test]
fn option_set_twice_ends_generation_before_anything_else() {
    let generics = vec![GenericParameter::Const { name: "N".to_string() }];
    for shape in [Shape::UnitFields, broken_field(), Shape::EnumVariants, Shape::UnionFields] {
        assert_eq!(
            derive(&record(generics.clone(), duplicate(), shape.clone())),
            Err(GenerationError::SetTwice(OptionKey::Validator))
        );
        assert_eq!(
            derive(&record(vec![], vec![freeze(bounds("V: A")), freeze(bounds("V: B"))], shape)),
            Err(GenerationError::SetTwice(OptionKey::Bounds))
        );
    }
}

#[test]
fn malformed_annotation_on_the_type_comes_first() {
    assert_eq!(
        derive(&record(vec![], vec![freeze(vec![word("identity")])], Shape::EnumVariants)),
        Err(GenerationError::Malformed { annotation: 0, position: 0, expected: Expectation::Keyword })
    );
}

#[test]
fn malformed_annotation_on_a_field_ends_generation() {
    assert_eq!(
        derive(&record(vec![type_parameter("V", &[])], vec![freeze(validator("check"))], broken_field())),
        Err(GenerationError::Malformed { annotation: 0, position: 0, expected: Expectation::End })
    );
}

#[test]
fn declaration_checks_its_own_shape() {
    assert!(record(vec![], vec![], Shape::NamedFields(vec![field("a", vec![])])).is_well_formed());
    assert!(
        !record(
            vec![],
            vec![],
            Shape::NamedFields(vec![FieldDescriptor { name: None, annotations: vec![] }])
        )
        .is_well_formed()
    );
}
