//! The structural data model: descriptors for the input definition and the
//! validation errors, together with their mathematical models (views).

use vstd::prelude::*;

verus! {

/// Visibility of a field in the input definition. The pipeline accepts only
/// module-private fields.
#[derive(Clone, Copy, Debug, PartialEq, Eq, Structural)]
pub enum Visibility {
    Private,
    Public,
}

/// The declared type of a field, as far as the transformation reads it.
///
/// A reference type carries its lifetime annotation (if any) so that the
/// synthesis stage can substitute the single fresh lifetime; every other
/// declared type is carried as plain text and copied unchanged. The synthetic
/// cache field's own type, an optional opaque text, has a variant of its own.
#[derive(Debug, PartialEq, Eq)]
pub enum FieldType {
    Plain { name: String },
    Reference { lifetime: Option<String>, target: String },
    OptionText,
}

/// Mathematical model of a `FieldType`.
#[verifier::ext_equal]
pub enum TypeModel {
    Plain { name: Seq<char> },
    Reference { lifetime: Option<Seq<char>>, target: Seq<char> },
    OptionText,
}

impl View for FieldType {
    type V = TypeModel;

    open spec fn view(&self) -> TypeModel {
        match self {
            FieldType::Plain { name } => TypeModel::Plain { name: name@ },
            FieldType::Reference { lifetime, target } => TypeModel::Reference {
                lifetime: match lifetime {
                    Some(l) => Some(l@),
                    None => None,
                },
                target: target@,
            },
            FieldType::OptionText => TypeModel::OptionText,
        }
    }
}

impl DeepView for FieldType {
    type V = TypeModel;

    open spec fn deep_view(&self) -> TypeModel {
        self.view()
    }
}

/// One field of the input definition: its name, declared type, visibility,
/// and whether it is excluded from generic structural serialization (true
/// only of the synthetic cache field).
#[derive(Debug, PartialEq, Eq)]
pub struct FieldDescriptor {
    pub name: String,
    pub ty: FieldType,
    pub vis: Visibility,
    pub skip_serialization: bool,
}

/// Mathematical model of a `FieldDescriptor`.
#[verifier::ext_equal]
pub struct FieldModel {
    pub name: Seq<char>,
    pub ty: TypeModel,
    pub vis: Visibility,
    pub skip_serialization: bool,
}

impl View for FieldDescriptor {
    type V = FieldModel;

    open spec fn view(&self) -> FieldModel {
        FieldModel {
            name: self.name@,
            ty: self.ty@,
            vis: self.vis,
            skip_serialization: self.skip_serialization,
        }
    }
}

impl DeepView for FieldDescriptor {
    type V = FieldModel;

    open spec fn deep_view(&self) -> FieldModel {
        self.view()
    }
}

/// The polymorphic tag of the input definition: a named-field record carries
/// its fields; every other shape is unsupported and carries nothing the
/// pipeline would read.
#[derive(Debug, PartialEq, Eq)]
pub enum Shape {
    NamedFields { fields: Vec<FieldDescriptor> },
    TupleFields,
    UnitFields,
    Enumeration,
    UnionShape,
}

/// Mathematical model of a `Shape`.
#[verifier::ext_equal]
pub enum ShapeModel {
    NamedFields { fields: Seq<FieldModel> },
    TupleFields,
    UnitFields,
    Enumeration,
    UnionShape,
}

impl View for Shape {
    type V = ShapeModel;

    open spec fn view(&self) -> ShapeModel {
        match self {
            Shape::NamedFields { fields } => ShapeModel::NamedFields {
                fields: fields.deep_view(),
            },
            Shape::TupleFields => ShapeModel::TupleFields,
            Shape::UnitFields => ShapeModel::UnitFields,
            Shape::Enumeration => ShapeModel::Enumeration,
            Shape::UnionShape => ShapeModel::UnionShape,
        }
    }
}

impl DeepView for Shape {
    type V = ShapeModel;

    open spec fn deep_view(&self) -> ShapeModel {
        self.view()
    }
}

/// The structural description of one annotated type definition.
#[derive(Debug, PartialEq, Eq)]
pub struct StructDescriptor {
    pub name: String,
    pub shape: Shape,
}

/// Mathematical model of a `StructDescriptor`.
#[verifier::ext_equal]
pub struct StructModel {
    pub name: Seq<char>,
    pub shape: ShapeModel,
}

impl View for StructDescriptor {
    type V = StructModel;

    open spec fn view(&self) -> StructModel {
        StructModel { name: self.name@, shape: self.shape@ }
    }
}

impl DeepView for StructDescriptor {
    type V = StructModel;

    open spec fn deep_view(&self) -> StructModel {
        self.view()
    }
}

/// The validation errors. Every error is fatal to the whole pass: the
/// pipeline emits either a full artifact or exactly one of these.
///
/// `NameCollisionExhausted` is part of the error taxonomy but is never
/// produced: the unique-name search always finds a free name, which
/// `crate::names::lemma_free_candidate_exists` guarantees.
#[derive(Debug, PartialEq, Eq)]
pub enum ValidationError {
    UnsupportedShape,
    PublicFieldNotAllowed { field: String },
    EmptyStruct,
    NameCollisionExhausted,
}

/// Mathematical model of a `ValidationError`.
#[verifier::ext_equal]
pub enum ErrorModel {
    UnsupportedShape,
    PublicFieldNotAllowed { field: Seq<char> },
    EmptyStruct,
    NameCollisionExhausted,
}

impl View for ValidationError {
    type V = ErrorModel;

    open spec fn view(&self) -> ErrorModel {
        match self {
            ValidationError::UnsupportedShape => ErrorModel::UnsupportedShape,
            ValidationError::PublicFieldNotAllowed { field } => ErrorModel::PublicFieldNotAllowed {
                field: field@,
            },
            ValidationError::EmptyStruct => ErrorModel::EmptyStruct,
            ValidationError::NameCollisionExhausted => ErrorModel::NameCollisionExhausted,
        }
    }
}

impl DeepView for ValidationError {
    type V = ErrorModel;

    open spec fn deep_view(&self) -> ErrorModel {
        self.view()
    }
}

/// The names of a field sequence, in declaration order.
pub open spec fn field_names(fields: Seq<FieldModel>) -> Seq<Seq<char>> {
    fields.map_values(|f: FieldModel| f.name)
}

/// Every field of the sequence is module-private.
pub open spec fn all_private(fields: Seq<FieldModel>) -> bool {
    forall|i: int| 0 <= i < fields.len() ==> fields[i].vis is Private
}

/// The fields of a shape (empty for every shape without named fields).
pub open spec fn shape_fields(s: ShapeModel) -> Seq<FieldModel> {
    match s {
        ShapeModel::NamedFields { fields } => fields,
        _ => Seq::empty(),
    }
}

/// Some field of the sequence is public.
pub open spec fn has_public(fields: Seq<FieldModel>) -> bool {
    exists|i: int| 0 <= i < fields.len() && #[trigger] fields[i].vis is Public
}

/// `i` indexes the first public field of the sequence.
pub open spec fn is_first_public(fields: Seq<FieldModel>, i: int) -> bool {
    &&& 0 <= i < fields.len()
    &&& fields[i].vis is Public
    &&& forall|j: int| 0 <= j < i ==> fields[j].vis is Private
}

/// The index of the first public field (meaningful only when one exists).
pub open spec fn first_public(fields: Seq<FieldModel>) -> int {
    choose|i: int| is_first_public(fields, i)
}

/// When some field is public, a first public field exists.
pub proof fn lemma_first_public_exists(fields: Seq<FieldModel>, w: int)
    requires
        0 <= w < fields.len(),
        fields[w].vis is Public,
    ensures
        exists|i: int| is_first_public(fields, i),
    decreases w,
{
    if forall|j: int| 0 <= j < w ==> fields[j].vis is Private {
        assert(is_first_public(fields, w));
    } else {
        let v = choose|j: int| 0 <= j < w && !(fields[j].vis is Private);
        lemma_first_public_exists(fields, v);
    }
}

/// At most one index can be the first public field.
pub proof fn lemma_first_public_unique(fields: Seq<FieldModel>, i1: int, i2: int)
    requires
        is_first_public(fields, i1),
        is_first_public(fields, i2),
    ensures
        i1 == i2,
{
    if i1 < i2 {
        assert(fields[i1].vis is Private);
    }
    if i2 < i1 {
        assert(fields[i2].vis is Private);
    }
}

} // verus!
