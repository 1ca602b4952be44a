//! The generic signature of the generated implementation: the parameters
//! that the implementation declares, those that name the type before
//! freezing and those that name it after.

use vstd::prelude::*;
use crate::declaration::{generics_view, GenericParameter, GenericParameterView, TypeDeclaration};
use crate::error::{GenerationError, GenerationErrorView};
use crate::text::{copy_texts, join, joined, list, listed, texts};

verus! {

/// The lifetime that the implementation declares for the call itself.
pub open spec fn call_lifetime() -> Seq<char> {
    "'freeze"@
}

/// The trait that a type parameter must have for its values to be frozen.
pub open spec fn capability() -> Seq<char> {
    "starlark::values::Freeze"@
}

/// The bounds of a type parameter on the implementation: those of the
/// declaration and, where `capable` holds, the capability after them.
pub open spec fn impl_bounds(bounds: Seq<Seq<char>>, capable: bool) -> Seq<Seq<char>> {
    if capable {
        bounds.push(capability())
    } else {
        bounds
    }
}

/// A lifetime by its name.
pub open spec fn lifetime(name: Seq<char>) -> Seq<char> {
    "'"@ + name
}

/// A parameter with its bounds behind it; the bare parameter where it has
/// none.
pub open spec fn bounded(parameter: Seq<char>, bounds: Seq<Seq<char>>) -> Seq<char> {
    if bounds.len() == 0 {
        parameter
    } else {
        parameter + ": "@ + joined(bounds, " + "@)
    }
}

/// How the implementation declares a parameter: a type parameter with its
/// bounds and the capability, a lifetime as the declaration has it.
pub open spec fn impl_parameter(parameter: GenericParameterView, capable: bool) -> Seq<char> {
    match parameter {
        GenericParameterView::Type { name, bounds } => bounded(name, impl_bounds(bounds, capable)),
        GenericParameterView::Lifetime { name, bounds } => bounded(
            lifetime(name),
            bounds.map_values(|bound: Seq<char>| lifetime(bound)),
        ),
        GenericParameterView::Const { name } => name,
    }
}

/// How a parameter appears in the name of the type before freezing: by its
/// bare name.
pub open spec fn input_parameter(parameter: GenericParameterView) -> Seq<char> {
    match parameter {
        GenericParameterView::Type { name, .. } => name,
        GenericParameterView::Lifetime { name, .. } => lifetime(name),
        GenericParameterView::Const { name } => name,
    }
}

/// How a parameter appears in the name of the frozen type: a type parameter
/// by its frozen form, every lifetime as `'static`.
pub open spec fn output_parameter(parameter: GenericParameterView) -> Seq<char> {
    match parameter {
        GenericParameterView::Type { name, .. } => name + "::Frozen"@,
        GenericParameterView::Lifetime { .. } => "'static"@,
        GenericParameterView::Const { name } => name,
    }
}

/// Whether one of the parameters is a const parameter.
pub open spec fn has_const(generics: Seq<GenericParameterView>) -> bool {
    exists|i: int| 0 <= i < generics.len() && (#[trigger] generics[i]) is Const
}

/// The three parameter lists of an implementation.
#[derive(Clone, Debug, PartialEq, Eq)]
pub struct ParameterLists {
    /// What the implementation declares: the lifetime of the call, then the
    /// declared parameters.
    pub impl_params: Vec<String>,
    /// The arguments of the type before freezing.
    pub input_params: Vec<String>,
    /// The arguments of the frozen type.
    pub output_params: Vec<String>,
}

/// The mathematical value of a [`ParameterLists`].
pub struct ParameterListsView {
    pub impl_params: Seq<Seq<char>>,
    pub input_params: Seq<Seq<char>>,
    pub output_params: Seq<Seq<char>>,
}

impl View for ParameterLists {
    type V = ParameterListsView;

    open spec fn view(&self) -> ParameterListsView {
        ParameterListsView {
            impl_params: texts(self.impl_params@),
            input_params: texts(self.input_params@),
            output_params: texts(self.output_params@),
        }
    }
}

/// The parameter lists for parameters without a const among them.
pub open spec fn lists_of(generics: Seq<GenericParameterView>, capable: bool) -> ParameterListsView {
    ParameterListsView {
        impl_params: seq![call_lifetime()] + generics.map_values(
            |parameter: GenericParameterView| impl_parameter(parameter, capable),
        ),
        input_params: generics.map_values(|parameter: GenericParameterView| input_parameter(parameter)),
        output_params: generics.map_values(|parameter: GenericParameterView| output_parameter(parameter)),
    }
}

/// The parameter lists of a declaration, refused where it has a const
/// parameter.
pub open spec fn parameter_lists(generics: Seq<GenericParameterView>, capable: bool) -> Result<
    ParameterListsView,
    GenerationErrorView,
> {
    if has_const(generics) {
        Err(GenerationErrorView::ConstGeneric)
    } else {
        Ok(lists_of(generics, capable))
    }
}

/// A parameter list between angle brackets, a comma behind every item;
/// nothing where the list is empty.
pub open spec fn bracketed(items: Seq<Seq<char>>) -> Seq<char> {
    if items.len() == 0 {
        Seq::empty()
    } else {
        "<"@ + listed(items) + ">"@
    }
}

/// The three parameter lists, each between angle brackets.
pub open spec fn formatted_generics(generics: Seq<GenericParameterView>, capable: bool) -> Result<
    (Seq<char>, Seq<char>, Seq<char>),
    GenerationErrorView,
> {
    match parameter_lists(generics, capable) {
        Err(error) => Err(error),
        Ok(lists) => Ok(
            (bracketed(lists.impl_params), bracketed(lists.input_params), bracketed(lists.output_params)),
        ),
    }
}

/// Writes a parameter with its bounds behind it.
fn bounded_source(parameter: String, bounds: &Vec<String>) -> (r: String)
    ensures
        r@ == bounded(parameter@, texts(bounds@)),
{
    let mut text = parameter;
    if bounds.len() > 0 {
        let all = join(bounds, " + ");
        text.append(": ");
        text.append(all.as_str());
    }
    text
}

/// Writes the declaration of a type parameter on the implementation.
fn type_parameter_source(name: &String, bounds: &Vec<String>, capable: bool) -> (r: String)
    ensures
        r@ == impl_parameter(GenericParameterView::Type { name: name@, bounds: texts(bounds@) }, capable),
{
    let mut all = copy_texts(bounds);
    if capable {
        all.push("starlark::values::Freeze".to_owned());
    }
    assert(texts(all@) =~= impl_bounds(texts(bounds@), capable));
    bounded_source(name.clone(), &all)
}

/// Writes a lifetime with its apostrophe.
fn lifetime_source(name: &String) -> (r: String)
    ensures
        r@ == lifetime(name@),
{
    let mut text = "'".to_owned();
    text.append(name.as_str());
    text
}

/// Writes the declaration of a lifetime parameter on the implementation.
fn lifetime_parameter_source(name: &String, bounds: &Vec<String>) -> (r: String)
    ensures
        r@ == impl_parameter(GenericParameterView::Lifetime { name: name@, bounds: texts(bounds@) }, true),
        r@ == impl_parameter(GenericParameterView::Lifetime { name: name@, bounds: texts(bounds@) }, false),
{
    let mut all: Vec<String> = Vec::new();
    let mut index: usize = 0;
    while index < bounds.len()
        invariant
            index <= bounds.len(),
            all@.len() == index,
            forall|k: int| 0 <= k < index ==> (#[trigger] all@[k])@ == lifetime(bounds@[k]@),
        decreases bounds.len() - index,
    {
        all.push(lifetime_source(&bounds[index]));
        index += 1;
    }
    assert(texts(all@) =~= texts(bounds@).map_values(|bound: Seq<char>| lifetime(bound)));
    bounded_source(lifetime_source(name), &all)
}

/// The declaration whose implementation is generated.
pub struct Input<'a> {
    pub input: &'a TypeDeclaration,
}

impl<'a> Input<'a> {
    /// Writes a parameter list between angle brackets, a comma behind every
    /// item; nothing where the list is empty.
    pub fn angle_brackets(items: &Vec<String>) -> (r: String)
        ensures
            r@ == bracketed(texts(items@)),
    {
        let mut text = String::new();
        if items.len() > 0 {
            let inner = list(items);
            text.append("<");
            text.append(inner.as_str());
            text.append(">");
        }
        text
    }

    /// Computes the three parameter lists. The implementation declares the
    /// lifetime of the call and then every declared parameter, a lifetime
    /// with its bounds, a type parameter with its bounds and, where `capable`
    /// holds, the capability;
    /// the type before freezing takes the parameters by name; the frozen
    /// type takes the frozen form of each type parameter and `'static` for
    /// each lifetime. A const parameter is refused.
    pub fn parameter_lists(&self, capable: bool) -> (r: Result<ParameterLists, GenerationError>)
        ensures
            match r {
                Ok(lists) => parameter_lists(self.input@.generics, capable) == Ok::<
                    ParameterListsView,
                    GenerationErrorView,
                >(lists@),
                Err(error) => parameter_lists(self.input@.generics, capable) == Err::<
                    ParameterListsView,
                    GenerationErrorView,
                >(error@),
            },
    {
        let generics = &self.input.generics;
        let ghost list = generics_view(generics@);
        let mut impl_params: Vec<String> = Vec::new();
        let mut input_params: Vec<String> = Vec::new();
        let mut output_params: Vec<String> = Vec::new();
        impl_params.push("'freeze".to_owned());
        let mut index: usize = 0;
        while index < generics.len()
            invariant
                list == generics_view(generics@),
                list == self.input@.generics,
                index <= generics.len(),
                impl_params@.len() == index + 1,
                input_params@.len() == index,
                output_params@.len() == index,
                impl_params@[0]@ == call_lifetime(),
                forall|k: int| 0 <= k < index ==> !((#[trigger] list[k]) is Const),
                forall|k: int|
                    0 <= k < index ==> (#[trigger] impl_params@[k + 1])@ == impl_parameter(list[k], capable),
                forall|k: int| 0 <= k < index ==> (#[trigger] input_params@[k])@ == input_parameter(list[k]),
                forall|k: int| 0 <= k < index ==> (#[trigger] output_params@[k])@ == output_parameter(list[k]),
            decreases generics.len() - index,
        {
            assert(list[index as int] == generics@[index as int]@);
            match &generics[index] {
                GenericParameter::Type { name, bounds } => {
                    impl_params.push(type_parameter_source(name, bounds, capable));
                    input_params.push(name.clone());
                    let mut frozen = name.clone();
                    frozen.append("::Frozen");
                    output_params.push(frozen);
                },
                GenericParameter::Lifetime { name, bounds } => {
                    impl_params.push(lifetime_parameter_source(name, bounds));
                    input_params.push(lifetime_source(name));
                    output_params.push("'static".to_owned());
                },
                GenericParameter::Const { .. } => {
                    return Err(GenerationError::ConstGeneric);
                },
            }
            index += 1;
        }
        let lists = ParameterLists { impl_params, input_params, output_params };
        proof {
            let expected = lists_of(list, capable);
            assert(lists@.impl_params =~= expected.impl_params) by {
                assert forall|k: int| 0 <= k < expected.impl_params.len() implies lists@.impl_params[k]
                    == expected.impl_params[k] by {
                    if k > 0 {
                        assert(lists.impl_params@[(k - 1) + 1]@ == impl_parameter(list[k - 1], capable));
                    }
                }
            }
            assert(lists@.input_params =~= expected.input_params);
            assert(lists@.output_params =~= expected.output_params);
        }
        Ok(lists)
    }

    /// Computes the three parameter lists and writes each between angle
    /// brackets: those of the implementation, those of the type before
    /// freezing and those of the frozen type.
    pub fn format_impl_generics(&self, capable: bool) -> (r: Result<(String, String, String), GenerationError>)
        ensures
            match r {
                Ok((impl_params, input_params, output_params)) => formatted_generics(
                    self.input@.generics,
                    capable,
                ) == Ok::<(Seq<char>, Seq<char>, Seq<char>), GenerationErrorView>(
                    (impl_params@, input_params@, output_params@),
                ),
                Err(error) => formatted_generics(self.input@.generics, capable) == Err::<
                    (Seq<char>, Seq<char>, Seq<char>),
                    GenerationErrorView,
                >(error@),
            },
    {
        match self.parameter_lists(capable) {
            Err(error) => Err(error),
            Ok(lists) => Ok(
                (
                    Self::angle_brackets(&lists.impl_params),
                    Self::angle_brackets(&lists.input_params),
                    Self::angle_brackets(&lists.output_params),
                ),
            ),
        }
    }
}

} // verus!
