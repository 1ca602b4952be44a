//! The declaration that an implementation is generated for.

use vstd::prelude::*;
use crate::annotation::{annotations_view, Annotation, AnnotationView};
use crate::options::optional_text;
use crate::text::texts;

verus! {

/// A generic parameter of the declaration.
#[derive(Clone, Debug, PartialEq, Eq)]
pub enum GenericParameter {
    /// A type parameter with the bounds that the declaration gives it.
    Type { name: String, bounds: Vec<String> },
    /// A lifetime parameter with the lifetimes that it must outlive. Names
    /// of lifetimes stand without the apostrophe.
    Lifetime { name: String, bounds: Vec<String> },
    /// A const parameter.
    Const { name: String },
}

/// The mathematical value of a [`GenericParameter`].
pub enum GenericParameterView {
    Type { name: Seq<char>, bounds: Seq<Seq<char>> },
    Lifetime { name: Seq<char>, bounds: Seq<Seq<char>> },
    Const { name: Seq<char> },
}

impl View for GenericParameter {
    type V = GenericParameterView;

    open spec fn view(&self) -> GenericParameterView {
        match self {
            GenericParameter::Type { name, bounds } => GenericParameterView::Type {
                name: name@,
                bounds: texts(bounds@),
            },
            GenericParameter::Lifetime { name, bounds } => GenericParameterView::Lifetime {
                name: name@,
                bounds: texts(bounds@),
            },
            GenericParameter::Const { name } => GenericParameterView::Const { name: name@ },
        }
    }
}

/// The values of a list of generic parameters.
pub open spec fn generics_view(generics: Seq<GenericParameter>) -> Seq<GenericParameterView> {
    generics.map_values(|parameter: GenericParameter| parameter@)
}

/// A field of a struct: its name, where the struct names its fields, and the
/// annotations attached to it.
#[derive(Clone, Debug, PartialEq, Eq)]
pub struct FieldDescriptor {
    pub name: Option<String>,
    pub annotations: Vec<Annotation>,
}

/// The mathematical value of a [`FieldDescriptor`].
pub struct FieldDescriptorView {
    pub name: Option<Seq<char>>,
    pub annotations: Seq<AnnotationView>,
}

impl View for FieldDescriptor {
    type V = FieldDescriptorView;

    open spec fn view(&self) -> FieldDescriptorView {
        FieldDescriptorView {
            name: optional_text(self.name),
            annotations: annotations_view(self.annotations@),
        }
    }
}

/// The values of a list of fields.
pub open spec fn fields_view(fields: Seq<FieldDescriptor>) -> Seq<FieldDescriptorView> {
    fields.map_values(|field: FieldDescriptor| field@)
}

/// The shape of the declaration.
#[derive(Clone, Debug, PartialEq, Eq)]
pub enum Shape {
    /// A struct with named fields, in declaration order.
    NamedFields(Vec<FieldDescriptor>),
    /// A struct with positional fields, in declaration order.
    PositionalFields(Vec<FieldDescriptor>),
    /// A struct without fields.
    UnitFields,
    /// An enum.
    EnumVariants,
    /// A union.
    UnionFields,
}

/// The mathematical value of a [`Shape`].
pub enum ShapeView {
    NamedFields(Seq<FieldDescriptorView>),
    PositionalFields(Seq<FieldDescriptorView>),
    UnitFields,
    EnumVariants,
    UnionFields,
}

impl View for Shape {
    type V = ShapeView;

    open spec fn view(&self) -> ShapeView {
        match self {
            Shape::NamedFields(fields) => ShapeView::NamedFields(fields_view(fields@)),
            Shape::PositionalFields(fields) => ShapeView::PositionalFields(fields_view(fields@)),
            Shape::UnitFields => ShapeView::UnitFields,
            Shape::EnumVariants => ShapeView::EnumVariants,
            Shape::UnionFields => ShapeView::UnionFields,
        }
    }
}

/// Whether every field of the list has a name.
pub open spec fn all_named(fields: Seq<FieldDescriptorView>) -> bool {
    forall|i: int| 0 <= i < fields.len() ==> (#[trigger] fields[i]).name is Some
}

/// Whether no field of the list has a name.
pub open spec fn none_named(fields: Seq<FieldDescriptorView>) -> bool {
    forall|i: int| 0 <= i < fields.len() ==> (#[trigger] fields[i]).name is None
}

impl ShapeView {
    /// Whether the shape is that of a struct.
    pub open spec fn is_struct(self) -> bool {
        self is NamedFields || self is PositionalFields || self is UnitFields
    }

    /// The fields of the shape; none where it is no struct.
    pub open spec fn fields(self) -> Seq<FieldDescriptorView> {
        match self {
            ShapeView::NamedFields(fields) => fields,
            ShapeView::PositionalFields(fields) => fields,
            _ => Seq::empty(),
        }
    }

    /// Named fields have a name, positional fields have none.
    pub open spec fn well_formed(self) -> bool {
        match self {
            ShapeView::NamedFields(fields) => all_named(fields),
            ShapeView::PositionalFields(fields) => none_named(fields),
            _ => true,
        }
    }
}

/// Whether every field has a name, or none has, as `named` says.
fn names_agree(fields: &Vec<FieldDescriptor>, named: bool) -> (r: bool)
    ensures
        r == if named {
            all_named(fields_view(fields@))
        } else {
            none_named(fields_view(fields@))
        },
{
    let ghost list = fields_view(fields@);
    let mut index: usize = 0;
    while index < fields.len()
        invariant
            list == fields_view(fields@),
            index <= fields.len(),
            forall|i: int| 0 <= i < index ==> (#[trigger] list[i]).name.is_some() == named,
        decreases fields.len() - index,
    {
        if fields[index].name.is_some() != named {
            assert(list[index as int].name.is_some() != named);
            return false;
        }
        index += 1;
    }
    true
}

impl Shape {
    /// Whether the shape is that of a struct.
    pub fn is_struct(&self) -> (r: bool)
        ensures
            r == self@.is_struct(),
    {
        match self {
            Shape::NamedFields(_) => true,
            Shape::PositionalFields(_) => true,
            Shape::UnitFields => true,
            _ => false,
        }
    }

    /// Whether named fields have a name and positional fields have none.
    pub fn is_well_formed(&self) -> (r: bool)
        ensures
            r == self@.well_formed(),
    {
        match self {
            Shape::NamedFields(fields) => names_agree(fields, true),
            Shape::PositionalFields(fields) => names_agree(fields, false),
            _ => true,
        }
    }
}

/// A declared data type: its name, its generic parameters in declaration
/// order, the annotations attached to it, and its shape.
#[derive(Clone, Debug, PartialEq, Eq)]
pub struct TypeDeclaration {
    pub name: String,
    pub generics: Vec<GenericParameter>,
    pub annotations: Vec<Annotation>,
    pub shape: Shape,
}

/// The mathematical value of a [`TypeDeclaration`].
pub struct TypeDeclarationView {
    pub name: Seq<char>,
    pub generics: Seq<GenericParameterView>,
    pub annotations: Seq<AnnotationView>,
    pub shape: ShapeView,
}

impl View for TypeDeclaration {
    type V = TypeDeclarationView;

    open spec fn view(&self) -> TypeDeclarationView {
        TypeDeclarationView {
            name: self.name@,
            generics: generics_view(self.generics@),
            annotations: annotations_view(self.annotations@),
            shape: self.shape@,
        }
    }
}

impl TypeDeclarationView {
    /// The shape keeps the rule on the names of its fields.
    pub open spec fn well_formed(self) -> bool {
        self.shape.well_formed()
    }
}

impl TypeDeclaration {
    /// Whether the shape keeps the rule on the names of its fields.
    pub fn is_well_formed(&self) -> (r: bool)
        ensures
            r == self@.well_formed(),
    {
        self.shape.is_well_formed()
    }
}

} // verus!
