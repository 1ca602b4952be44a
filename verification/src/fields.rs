//! The plan for the fields of a struct: which are frozen and which pass
//! through unchanged, and the expression that builds the frozen value.

use vstd::prelude::*;
use vstd::pervasive::unreached;
use crate::declaration::{all_named, fields_view, FieldDescriptor, FieldDescriptorView, Shape, ShapeView};
use crate::error::{GenerationError, GenerationErrorView};
use crate::options::{is_identity, marked_identity};
use crate::text::{decimal, decimal_text, join, joined, list, listed, texts};

verus! {

/// What the generated procedure does with a field.
#[derive(Clone, Copy, Debug, PartialEq, Eq, Structural)]
pub enum FieldAction {
    /// The field's value is frozen; a failure ends the procedure.
    Freeze,
    /// The field's value is moved into the result as it is.
    Identity,
}

/// The part of the plan that concerns one field. `member` is the field's name
/// or, for a positional field, its index in decimal notation.
#[derive(Clone, Debug, PartialEq, Eq)]
pub struct FieldFragment {
    pub member: String,
    pub action: FieldAction,
}

/// The mathematical value of a [`FieldFragment`].
pub struct FieldFragmentView {
    pub member: Seq<char>,
    pub action: FieldAction,
}

impl View for FieldFragment {
    type V = FieldFragmentView;

    open spec fn view(&self) -> FieldFragmentView {
        FieldFragmentView { member: self.member@, action: self.action }
    }
}

/// The values of a list of fragments.
pub open spec fn fragments_view(fragments: Seq<FieldFragment>) -> Seq<FieldFragmentView> {
    fragments.map_values(|fragment: FieldFragment| fragment@)
}

/// The plan for a struct: one fragment per field, in declaration order.
#[derive(Clone, Debug, PartialEq, Eq)]
pub enum StructBody {
    Named(Vec<FieldFragment>),
    Positional(Vec<FieldFragment>),
    Unit,
}

/// The mathematical value of a [`StructBody`].
pub enum StructBodyView {
    Named(Seq<FieldFragmentView>),
    Positional(Seq<FieldFragmentView>),
    Unit,
}

impl View for StructBody {
    type V = StructBodyView;

    open spec fn view(&self) -> StructBodyView {
        match self {
            StructBody::Named(fragments) => StructBodyView::Named(fragments_view(fragments@)),
            StructBody::Positional(fragments) => StructBodyView::Positional(fragments_view(fragments@)),
            StructBody::Unit => StructBodyView::Unit,
        }
    }
}

impl StructBodyView {
    /// The fragments of the plan; none for a struct without fields.
    pub open spec fn fragments(self) -> Seq<FieldFragmentView> {
        match self {
            StructBodyView::Named(fragments) => fragments,
            StructBodyView::Positional(fragments) => fragments,
            StructBodyView::Unit => Seq::empty(),
        }
    }
}

/// How the generated code refers to the field at `index`.
pub open spec fn member_of(field: FieldDescriptorView, index: int, named: bool) -> Seq<char> {
    if named {
        field.name->0
    } else {
        decimal(index as nat)
    }
}

/// The fragment for the field at `index`, given whether it is marked as
/// identity.
pub open spec fn fragment_of(field: FieldDescriptorView, index: int, named: bool, mark: bool) -> FieldFragmentView {
    FieldFragmentView {
        member: member_of(field, index, named),
        action: if mark {
            FieldAction::Identity
        } else {
            FieldAction::Freeze
        },
    }
}

/// The fragments for the first `count` fields, in declaration order, or the
/// error of the first among them whose annotations leave the grammar.
pub open spec fn fragments_of(fields: Seq<FieldDescriptorView>, named: bool, count: int) -> Result<
    Seq<FieldFragmentView>,
    GenerationErrorView,
>
    decreases count,
{
    if count <= 0 {
        Ok(Seq::empty())
    } else {
        match fragments_of(fields, named, count - 1) {
            Err(error) => Err(error),
            Ok(before) => match marked_identity(fields[count - 1].annotations) {
                Err(error) => Err(error),
                Ok(mark) => Ok(before.push(fragment_of(fields[count - 1], count - 1, named, mark))),
            },
        }
    }
}

/// The plan for a declaration of the given shape.
pub open spec fn planned_body(shape: ShapeView) -> Result<StructBodyView, GenerationErrorView> {
    match shape {
        ShapeView::NamedFields(fields) => match fragments_of(fields, true, fields.len() as int) {
            Ok(fragments) => Ok(StructBodyView::Named(fragments)),
            Err(error) => Err(error),
        },
        ShapeView::PositionalFields(fields) => match fragments_of(fields, false, fields.len() as int) {
            Ok(fragments) => Ok(StructBodyView::Positional(fragments)),
            Err(error) => Err(error),
        },
        ShapeView::UnitFields => Ok(StructBodyView::Unit),
        ShapeView::EnumVariants => Err(GenerationErrorView::EnumShape),
        ShapeView::UnionFields => Err(GenerationErrorView::UnionShape),
    }
}

/// The procedure that freezes the value of a field.
pub open spec fn freeze_call(named: bool) -> Seq<char> {
    if named {
        "starlark::values::Freeze::freeze"@
    } else {
        "starlark::values::FreezeField::freeze_field"@
    }
}

/// The expression for the new value of a field.
pub open spec fn fragment_value(fragment: FieldFragmentView, named: bool) -> Seq<char> {
    match fragment.action {
        FieldAction::Identity => "self."@ + fragment.member,
        FieldAction::Freeze => freeze_call(named) + "(self."@ + fragment.member + ", freezer)?"@,
    }
}

/// The text of a fragment inside the expression that builds the result.
pub open spec fn fragment_text(fragment: FieldFragmentView, named: bool) -> Seq<char> {
    if named {
        fragment.member + ": "@ + fragment_value(fragment, named)
    } else {
        fragment_value(fragment, named)
    }
}

/// The texts of a list of fragments.
pub open spec fn fragment_texts(fragments: Seq<FieldFragmentView>, named: bool) -> Seq<Seq<char>> {
    fragments.map_values(|fragment: FieldFragmentView| fragment_text(fragment, named))
}

/// The expression that builds the frozen value of a struct called `name`:
/// named fields with a comma behind each, positional fields with commas
/// between them; empty for a struct without fields.
pub open spec fn body_text(body: StructBodyView, name: Seq<char>) -> Seq<char> {
    match body {
        StructBodyView::Named(fragments) => "std::result::Result::Ok("@ + name + " { "@ + listed(
            fragment_texts(fragments, true),
        ) + " })"@,
        StructBodyView::Positional(fragments) => "std::result::Result::Ok("@ + name + "("@ + joined(
            fragment_texts(fragments, false),
            ", "@,
        ) + "))"@,
        StructBodyView::Unit => Seq::empty(),
    }
}

/// Where generation succeeds there is one fragment per field, and each says
/// of its own field how it is called and whether it is marked.
pub proof fn lemma_fragments_of(fields: Seq<FieldDescriptorView>, named: bool, count: int)
    requires
        0 <= count <= fields.len(),
    ensures
        match fragments_of(fields, named, count) {
            Ok(fragments) => {
                &&& fragments.len() == count
                &&& forall|i: int|
                    0 <= i < count ==> marked_identity((#[trigger] fields[i]).annotations) is Ok
                        && fragments[i] == fragment_of(
                        fields[i],
                        i,
                        named,
                        marked_identity(fields[i].annotations)->Ok_0,
                    )
            },
            Err(error) => exists|i: int|
                0 <= i < count && marked_identity((#[trigger] fields[i]).annotations) == Err::<
                    bool,
                    GenerationErrorView,
                >(error) && forall|k: int| 0 <= k < i ==> marked_identity((#[trigger] fields[k]).annotations) is Ok,
        },
    decreases count,
{
    if count > 0 {
        lemma_fragments_of(fields, named, count - 1);
        match fragments_of(fields, named, count - 1) {
            Err(error) => {},
            Ok(before) => {
                match marked_identity(fields[count - 1].annotations) {
                    Err(error) => {
                        assert(marked_identity(fields[count - 1].annotations) == Err::<
                            bool,
                            GenerationErrorView,
                        >(error));
                    },
                    Ok(mark) => {},
                }
            },
        }
    }
}

/// Plans the fields of a struct in declaration order.
fn plan_fields(fields: &Vec<FieldDescriptor>, named: bool) -> (r: Result<
    Vec<FieldFragment>,
    GenerationError,
>)
    requires
        named ==> all_named(fields_view(fields@)),
    ensures
        match r {
            Ok(fragments) => fragments_of(fields_view(fields@), named, fields.len() as int) == Ok::<
                Seq<FieldFragmentView>,
                GenerationErrorView,
            >(fragments_view(fragments@)),
            Err(error) => fragments_of(fields_view(fields@), named, fields.len() as int) == Err::<
                Seq<FieldFragmentView>,
                GenerationErrorView,
            >(error@),
        },
{
    let ghost list = fields_view(fields@);
    let mut fragments: Vec<FieldFragment> = Vec::new();
    let mut index: usize = 0;
    assert(fragments_view(fragments@) =~= Seq::<FieldFragmentView>::empty());
    while index < fields.len()
        invariant
            list == fields_view(fields@),
            named ==> all_named(list),
            index <= fields.len(),
            fragments_of(list, named, index as int) == Ok::<Seq<FieldFragmentView>, GenerationErrorView>(
                fragments_view(fragments@),
            ),
        decreases fields.len() - index,
    {
        let field = &fields[index];
        let mark = match is_identity(&field.annotations) {
            Ok(mark) => mark,
            Err(error) => {
                proof {
                    lemma_error_stays(list, named, index + 1, fields.len() as int);
                }
                return Err(error);
            },
        };
        let member = if named {
            match &field.name {
                Some(name) => name.clone(),
                None => unreached(),
            }
        } else {
            decimal_text(index)
        };
        let action = if mark {
            FieldAction::Identity
        } else {
            FieldAction::Freeze
        };
        let ghost before = fragments_view(fragments@);
        fragments.push(FieldFragment { member, action });
        assert(fragments_view(fragments@) =~= before.push(
            fragment_of(list[index as int], index as int, named, mark),
        ));
        index += 1;
    }
    Ok(fragments)
}

/// An error among the first `count` fields is the error of every longer
/// prefix.
proof fn lemma_error_stays(fields: Seq<FieldDescriptorView>, named: bool, count: int, longer: int)
    requires
        0 <= count <= longer,
        fragments_of(fields, named, count) is Err,
    ensures
        fragments_of(fields, named, longer) == fragments_of(fields, named, count),
    decreases longer - count,
{
    if count < longer {
        lemma_error_stays(fields, named, count, longer - 1);
    }
}

/// Plans the fields of a struct: each field is frozen unless its annotations
/// mark it as identity.
pub fn freeze_struct(shape: &Shape) -> (r: Result<StructBody, GenerationError>)
    requires
        shape@.is_struct(),
        shape@.well_formed(),
    ensures
        match r {
            Ok(body) => planned_body(shape@) == Ok::<StructBodyView, GenerationErrorView>(body@),
            Err(error) => planned_body(shape@) == Err::<StructBodyView, GenerationErrorView>(error@),
        },
{
    match shape {
        Shape::NamedFields(fields) => match plan_fields(fields, true) {
            Ok(fragments) => Ok(StructBody::Named(fragments)),
            Err(error) => Err(error),
        },
        Shape::PositionalFields(fields) => match plan_fields(fields, false) {
            Ok(fragments) => Ok(StructBody::Positional(fragments)),
            Err(error) => Err(error),
        },
        Shape::UnitFields => Ok(StructBody::Unit),
        _ => unreached(),
    }
}

/// Refuses an enum.
pub fn freeze_enum() -> (r: Result<StructBody, GenerationError>)
    ensures
        r == Err::<StructBody, GenerationError>(GenerationError::EnumShape),
{
    Err(GenerationError::EnumShape)
}

/// Plans the body for a declaration of the given shape, or refuses the shape.
pub fn freeze_impl(shape: &Shape) -> (r: Result<StructBody, GenerationError>)
    requires
        shape@.well_formed(),
    ensures
        match r {
            Ok(body) => planned_body(shape@) == Ok::<StructBodyView, GenerationErrorView>(body@),
            Err(error) => planned_body(shape@) == Err::<StructBodyView, GenerationErrorView>(error@),
        },
{
    match shape {
        Shape::EnumVariants => freeze_enum(),
        Shape::UnionFields => Err(GenerationError::UnionShape),
        _ => freeze_struct(shape),
    }
}

/// Writes the text of one fragment.
fn fragment_source(fragment: &FieldFragment, named: bool) -> (r: String)
    ensures
        r@ == fragment_text(fragment@, named),
{
    let mut text = String::new();
    if named {
        text.append(fragment.member.as_str());
        text.append(": ");
    }
    match fragment.action {
        FieldAction::Identity => {
            text.append("self.");
            text.append(fragment.member.as_str());
        },
        FieldAction::Freeze => {
            if named {
                text.append("starlark::values::Freeze::freeze");
            } else {
                text.append("starlark::values::FreezeField::freeze_field");
            }
            text.append("(self.");
            text.append(fragment.member.as_str());
            text.append(", freezer)?");
        },
    }
    text
}

/// Writes the texts of the fragments, each for itself.
fn fragment_sources(fragments: &Vec<FieldFragment>, named: bool) -> (r: Vec<String>)
    ensures
        texts(r@) == fragment_texts(fragments_view(fragments@), named),
{
    let mut parts: Vec<String> = Vec::new();
    let mut index: usize = 0;
    while index < fragments.len()
        invariant
            index <= fragments.len(),
            parts@.len() == index,
            forall|k: int| 0 <= k < index ==> (#[trigger] parts@[k])@ == fragment_text(fragments@[k]@, named),
        decreases fragments.len() - index,
    {
        parts.push(fragment_source(&fragments[index], named));
        index += 1;
    }
    assert(texts(parts@) =~= fragment_texts(fragments_view(fragments@), named));
    parts
}

impl StructBody {
    /// Writes the expression that builds the frozen value of a struct called
    /// `name`.
    pub fn to_source(&self, name: &str) -> (r: String)
        ensures
            r@ == body_text(self@, name@),
    {
        let mut text = String::new();
        match self {
            StructBody::Named(fragments) => {
                let inner = list(&fragment_sources(fragments, true));
                text.append("std::result::Result::Ok(");
                text.append(name);
                text.append(" { ");
                text.append(inner.as_str());
                text.append(" })");
            },
            StructBody::Positional(fragments) => {
                let inner = join(&fragment_sources(fragments, false), ", ");
                text.append("std::result::Result::Ok(");
                text.append(name);
                text.append("(");
                text.append(inner.as_str());
                text.append("))");
            },
            StructBody::Unit => {},
        }
        text
    }
}

} // verus!
