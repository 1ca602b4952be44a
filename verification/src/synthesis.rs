//! The generated implementation: its parts, how they follow from a
//! declaration, and its source text.

use vstd::prelude::*;
use crate::declaration::{TypeDeclaration, TypeDeclarationView};
use crate::error::{GenerationError, GenerationErrorView};
use crate::fields::{body_text, freeze_impl, planned_body, StructBody, StructBodyView};
use crate::generics::{formatted_generics, Input};
use crate::options::{declared_options, extract_options, optional_answer, optional_text, PredicateAnswer, PredicateAnswerView};

verus! {

/// An implementation of `starlark::values::Freeze` for a declared struct.
#[derive(Clone, Debug, PartialEq, Eq)]
pub struct GeneratedImplementation {
    /// The name of the declared type.
    pub name: String,
    /// The parameters that the implementation declares, between angle
    /// brackets.
    pub impl_params: String,
    /// The arguments of the type before freezing, between angle brackets.
    pub input_params: String,
    /// The arguments of the frozen type, between angle brackets.
    pub output_params: String,
    /// The where-predicate of the implementation, where one was configured,
    /// as the parser read it.
    pub bounds: Option<String>,
    /// The procedure called on the value before any field is frozen, where
    /// one was configured.
    pub validator: Option<String>,
    /// What the procedure does with the fields.
    pub body: StructBody,
}

/// The mathematical value of a [`GeneratedImplementation`].
pub struct GeneratedImplementationView {
    pub name: Seq<char>,
    pub impl_params: Seq<char>,
    pub input_params: Seq<char>,
    pub output_params: Seq<char>,
    pub bounds: Option<Seq<char>>,
    pub validator: Option<Seq<char>>,
    pub body: StructBodyView,
}

impl View for GeneratedImplementation {
    type V = GeneratedImplementationView;

    open spec fn view(&self) -> GeneratedImplementationView {
        GeneratedImplementationView {
            name: self.name@,
            impl_params: self.impl_params@,
            input_params: self.input_params@,
            output_params: self.output_params@,
            bounds: optional_text(self.bounds),
            validator: optional_text(self.validator),
            body: self.body@,
        }
    }
}

/// The implementation generated for a declaration, given what the parser
/// answered of the text for `bounds`. The annotations of the type are read
/// first, then its generic parameters, then its shape and fields; the first
/// of them that is refused decides the error. The capability is added to the
/// type parameters unless `bounds` was configured.
pub open spec fn generated(
    declaration: TypeDeclarationView,
    answer: Option<PredicateAnswerView>,
) -> Result<GeneratedImplementationView, GenerationErrorView> {
    match declared_options(declaration.annotations, answer) {
        Err(error) => Err(error),
        Ok(options) => match formatted_generics(declaration.generics, options.bounds is None) {
            Err(error) => Err(error),
            Ok((impl_params, input_params, output_params)) => match planned_body(declaration.shape) {
                Err(error) => Err(error),
                Ok(body) => Ok(
                    GeneratedImplementationView {
                        name: declaration.name,
                        impl_params,
                        input_params,
                        output_params,
                        bounds: options.bounds,
                        validator: options.validator,
                        body,
                    },
                ),
            },
        },
    }
}

/// The where-clause of the implementation.
pub open spec fn where_text(bounds: Option<Seq<char>>) -> Seq<char> {
    match bounds {
        Some(predicate) => " where "@ + predicate,
        None => Seq::empty(),
    }
}

/// The statement that calls the validator.
pub open spec fn validation_text(validator: Option<Seq<char>>) -> Seq<char> {
    match validator {
        Some(procedure) => procedure + "(&self)?; "@,
        None => Seq::empty(),
    }
}

/// The header of the implementation, up to the opening brace.
pub open spec fn header_text(implementation: GeneratedImplementationView) -> Seq<char> {
    "impl"@ + implementation.impl_params + " starlark::values::Freeze for "@ + implementation.name
        + implementation.input_params + where_text(implementation.bounds)
}

/// The frozen form of the type.
pub open spec fn frozen_text(implementation: GeneratedImplementationView) -> Seq<char> {
    implementation.name + implementation.output_params
}

/// The body of the procedure: the call of the validator, then the
/// expression that builds the frozen value.
pub open spec fn procedure_text(implementation: GeneratedImplementationView) -> Seq<char> {
    validation_text(implementation.validator) + body_text(implementation.body, implementation.name)
}

/// The source text of the implementation.
pub open spec fn source_text(implementation: GeneratedImplementationView) -> Seq<char> {
    header_text(implementation) + " { type Frozen = "@ + frozen_text(implementation)
        + "; fn freeze(self, freezer: &starlark::values::Freezer) -> anyhow::Result<Self::Frozen> { "@
        + procedure_text(implementation) + " } }"@
}

impl GeneratedImplementation {
    /// Writes the header of the implementation, up to the opening brace.
    pub fn header(&self) -> (r: String)
        ensures
            r@ == header_text(self@),
    {
        let mut text = "impl".to_owned();
        text.append(self.impl_params.as_str());
        text.append(" starlark::values::Freeze for ");
        text.append(self.name.as_str());
        text.append(self.input_params.as_str());
        match &self.bounds {
            Some(predicate) => {
                text.append(" where ");
                text.append(predicate.as_str());
            },
            None => {},
        }
        text
    }

    /// Writes the frozen form of the type.
    pub fn frozen_form(&self) -> (r: String)
        ensures
            r@ == frozen_text(self@),
    {
        let mut text = self.name.clone();
        text.append(self.output_params.as_str());
        text
    }

    /// Writes the body of the procedure.
    pub fn procedure(&self) -> (r: String)
        ensures
            r@ == procedure_text(self@),
    {
        let mut text = String::new();
        match &self.validator {
            Some(procedure) => {
                text.append(procedure.as_str());
                text.append("(&self)?; ");
            },
            None => {},
        }
        let body = self.body.to_source(self.name.as_str());
        text.append(body.as_str());
        text
    }

    /// Writes the implementation as source text.
    pub fn to_source(&self) -> (r: String)
        ensures
            r@ == source_text(self@),
    {
        let mut text = self.header();
        let frozen = self.frozen_form();
        let procedure = self.procedure();
        text.append(" { type Frozen = ");
        text.append(frozen.as_str());
        text.append("; fn freeze(self, freezer: &starlark::values::Freezer) -> anyhow::Result<Self::Frozen> { ");
        text.append(procedure.as_str());
        text.append(" } }");
        text
    }
}

/// Generates the implementation of `starlark::values::Freeze` for a
/// declaration, or says why there is none. Where the declaration sets
/// `bounds`, `answer` holds what the parser said of the text; an error of
/// the kind `BoundsUnread` names the text that an answer is wanted for.
pub fn derive_freeze(declaration: &TypeDeclaration, answer: &Option<PredicateAnswer>) -> (r: Result<
    GeneratedImplementation,
    GenerationError,
>)
    requires
        declaration@.well_formed(),
    ensures
        match r {
            Ok(implementation) => generated(declaration@, optional_answer(*answer)) == Ok::<
                GeneratedImplementationView,
                GenerationErrorView,
            >(implementation@),
            Err(error) => generated(declaration@, optional_answer(*answer)) == Err::<
                GeneratedImplementationView,
                GenerationErrorView,
            >(error@),
        },
{
    let options = match extract_options(&declaration.annotations, answer) {
        Ok(options) => options,
        Err(error) => {
            return Err(error);
        },
    };
    let input = Input { input: declaration };
    let (impl_params, input_params, output_params) = match input.format_impl_generics(
        options.bounds.is_none(),
    ) {
        Ok(formatted) => formatted,
        Err(error) => {
            return Err(error);
        },
    };
    let body = match freeze_impl(&declaration.shape) {
        Ok(body) => body,
        Err(error) => {
            return Err(error);
        },
    };
    Ok(
        GeneratedImplementation {
            name: declaration.name.clone(),
            impl_params,
            input_params,
            output_params,
            bounds: options.bounds,
            validator: options.validator,
            body,
        },
    )
}

} // verus!
