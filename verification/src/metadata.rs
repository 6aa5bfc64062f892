//! Token metadata and its validation.
//!
//! A collection commits to one metadata kind when it is installed. The kind
//! decides what the bytes that come with a mint must look like, and what
//! structured form is kept for the token.

use vstd::prelude::*;

use crate::error::MetadataError;
use crate::notation::{fields_view, lookup, parse_record, Field, FieldValueView, FieldView};

verus! {

/// The primitive types that a field's value can have.
#[derive(Clone, Copy, Debug, PartialEq, Eq, Structural)]
pub enum PrimitiveType {
    /// A text.
    Text,
    /// A number.
    Number,
    /// A flag.
    Flag,
}

/// A property that a schema declares.
#[derive(Clone, Debug, PartialEq, Eq)]
pub struct Property {
    /// The name of the field that holds the property.
    pub name: Vec<u8>,
    /// The primitive type of its value.
    pub kind: PrimitiveType,
    /// Whether every token must have it.
    pub required: bool,
    /// Whether its value may change after the mint.
    pub mutable: bool,
}

/// What a declared property stands for.
pub struct PropertyView {
    /// The name of the field that holds the property.
    pub name: Seq<u8>,
    /// The primitive type of its value.
    pub kind: PrimitiveType,
    /// Whether every token must have it.
    pub required: bool,
    /// Whether its value may change after the mint.
    pub mutable: bool,
}

/// The declared schema of a collection's metadata.
#[derive(Clone, Debug, PartialEq, Eq)]
pub struct MetadataSchema {
    /// The declared properties.
    pub properties: Vec<Property>,
    /// Whether a token may have fields that are not declared.
    pub allow_extensions: bool,
    /// Whether a minter may supply the name under which a token is
    /// identified.
    pub allow_names: bool,
}

/// What a schema stands for.
pub struct SchemaView {
    /// The declared properties.
    pub properties: Seq<PropertyView>,
    /// Whether a token may have fields that are not declared.
    pub allow_extensions: bool,
    /// Whether a minter may supply the name under which a token is
    /// identified.
    pub allow_names: bool,
}

/// A rule of a collection's own rule set.
#[derive(Clone, Debug, PartialEq, Eq)]
pub enum Rule {
    /// The field is a text of at least `min` and at most `max` bytes.
    TextLength { field: Vec<u8>, min: u64, max: u64 },
    /// The field is a number of at least `min` and at most `max`.
    NumberRange { field: Vec<u8>, min: u64, max: u64 },
}

/// What a rule stands for.
pub enum RuleView {
    /// The field is a text of at least `min` and at most `max` bytes.
    TextLength { field: Seq<u8>, min: u64, max: u64 },
    /// The field is a number of at least `min` and at most `max`.
    NumberRange { field: Seq<u8>, min: u64, max: u64 },
}

/// How a collection checks the metadata of its tokens.
#[derive(Clone, Debug, PartialEq, Eq)]
pub enum MetadataKind {
    /// Any bytes are accepted and kept as they are.
    Raw,
    /// A record whose values are all texts.
    Cep47,
    /// A record that conforms to a declared schema.
    Cep78(MetadataSchema),
    /// A record that passes every rule of a rule set.
    CustomValidated(Vec<Rule>),
}

/// What a metadata kind stands for.
pub enum MetadataKindView {
    /// Any bytes are accepted and kept as they are.
    Raw,
    /// A record whose values are all texts.
    Cep47,
    /// A record that conforms to a declared schema.
    Cep78(SchemaView),
    /// A record that passes every rule of a rule set.
    CustomValidated(Seq<RuleView>),
}

/// The structured form of a token's metadata.
#[derive(Clone, Debug, PartialEq, Eq)]
pub enum StructuredMetadata {
    /// The bytes as they came.
    Raw(Vec<u8>),
    /// The fields of the record that the bytes are.
    Record(Vec<Field>),
}

/// What structured metadata stands for.
pub enum MetadataView {
    /// The bytes as they came.
    Raw(Seq<u8>),
    /// The fields of the record that the bytes are.
    Record(Seq<FieldView>),
}

impl View for Property {
    type V = PropertyView;

    open spec fn view(&self) -> PropertyView {
        PropertyView {
            name: self.name@,
            kind: self.kind,
            required: self.required,
            mutable: self.mutable,
        }
    }
}

impl View for MetadataSchema {
    type V = SchemaView;

    open spec fn view(&self) -> SchemaView {
        SchemaView {
            properties: self.properties@.map_values(|p: Property| p@),
            allow_extensions: self.allow_extensions,
            allow_names: self.allow_names,
        }
    }
}

impl View for Rule {
    type V = RuleView;

    open spec fn view(&self) -> RuleView {
        match self {
            Rule::TextLength { field, min, max } => RuleView::TextLength {
                field: field@,
                min: *min,
                max: *max,
            },
            Rule::NumberRange { field, min, max } => RuleView::NumberRange {
                field: field@,
                min: *min,
                max: *max,
            },
        }
    }
}

impl View for MetadataKind {
    type V = MetadataKindView;

    open spec fn view(&self) -> MetadataKindView {
        match self {
            MetadataKind::Raw => MetadataKindView::Raw,
            MetadataKind::Cep47 => MetadataKindView::Cep47,
            MetadataKind::Cep78(schema) => MetadataKindView::Cep78(schema@),
            MetadataKind::CustomValidated(rules) => MetadataKindView::CustomValidated(
                rules@.map_values(|r: Rule| r@),
            ),
        }
    }
}

impl View for StructuredMetadata {
    type V = MetadataView;

    open spec fn view(&self) -> MetadataView {
        match self {
            StructuredMetadata::Raw(bytes) => MetadataView::Raw(bytes@),
            StructuredMetadata::Record(fields) => MetadataView::Record(fields_view(fields@)),
        }
    }
}

impl FieldValueView {
    /// The primitive type of this value.
    pub open spec fn kind(self) -> PrimitiveType {
        match self {
            FieldValueView::Text(_) => PrimitiveType::Text,
            FieldValueView::Number(_) => PrimitiveType::Number,
            FieldValueView::Flag(_) => PrimitiveType::Flag,
        }
    }
}

impl PropertyView {
    /// The property is required and `fields` has no field for it.
    pub open spec fn is_missing_in(self, fields: Seq<FieldView>) -> bool {
        self.required && lookup(fields, self.name) is None
    }

    /// `fields` has a field for the property, with a value of another type
    /// than was declared.
    pub open spec fn is_mistyped_in(self, fields: Seq<FieldView>) -> bool {
        match lookup(fields, self.name) {
            Some(value) => value.kind() != self.kind,
            None => false,
        }
    }

    /// The property may change, or has the same value, or none, in both
    /// records.
    pub open spec fn is_kept(self, before: Seq<FieldView>, after: Seq<FieldView>) -> bool {
        self.mutable || lookup(before, self.name) == lookup(after, self.name)
    }
}

impl SchemaView {
    /// A required property has no field in `fields`.
    pub open spec fn misses_required(self, fields: Seq<FieldView>) -> bool {
        exists|j: int|
            0 <= j < self.properties.len() && (#[trigger] self.properties[j]).is_missing_in(fields)
    }

    /// A field of `fields` holds a value of another type than was declared
    /// for it.
    pub open spec fn mistypes(self, fields: Seq<FieldView>) -> bool {
        exists|j: int|
            0 <= j < self.properties.len() && (#[trigger] self.properties[j]).is_mistyped_in(
                fields,
            )
    }

    /// A property named `name` is declared.
    pub open spec fn declares(self, name: Seq<u8>) -> bool {
        exists|j: int|
            0 <= j < self.properties.len() && (#[trigger] self.properties[j]).name == name
    }

    /// A field of `fields` is not declared.
    pub open spec fn holds_undeclared(self, fields: Seq<FieldView>) -> bool {
        exists|i: int| 0 <= i < fields.len() && !self.declares((#[trigger] fields[i]).name)
    }

    /// Every immutable property has the same value, or none, in both
    /// records.
    pub open spec fn keeps_immutable(self, before: Seq<FieldView>, after: Seq<FieldView>) -> bool {
        forall|j: int|
            0 <= j < self.properties.len() ==> (#[trigger] self.properties[j]).is_kept(
                before,
                after,
            )
    }
}

/// Every value of `fields` is a text.
pub open spec fn all_text(fields: Seq<FieldView>) -> bool {
    forall|i: int| 0 <= i < fields.len() ==> (#[trigger] fields[i]).value is Text
}

impl RuleView {
    /// Why `fields` does not pass this rule, if it does not: the field is
    /// missing, is of another type than the rule is about, or is out of the
    /// rule's bounds.
    pub open spec fn violation(self, fields: Seq<FieldView>) -> Option<MetadataError> {
        match self {
            RuleView::TextLength { field, min, max } => match lookup(fields, field) {
                None => Some(MetadataError::MissingRequiredField),
                Some(FieldValueView::Text(t)) => if min <= t.len() <= max {
                    None
                } else {
                    Some(MetadataError::InvalidFormat)
                },
                Some(_) => Some(MetadataError::TypeMismatch),
            },
            RuleView::NumberRange { field, min, max } => match lookup(fields, field) {
                None => Some(MetadataError::MissingRequiredField),
                Some(FieldValueView::Number(n)) => if min <= n <= max {
                    None
                } else {
                    Some(MetadataError::InvalidFormat)
                },
                Some(_) => Some(MetadataError::TypeMismatch),
            },
        }
    }
}

/// Why `fields` does not pass the first rule of `rules` that it does not
/// pass, if there is one.
pub open spec fn first_violation(rules: Seq<RuleView>, fields: Seq<FieldView>) -> Option<
    MetadataError,
>
    decreases rules.len(),
{
    if rules.len() == 0 {
        None
    } else {
        match rules[0].violation(fields) {
            Some(e) => Some(e),
            None => first_violation(rules.drop_first(), fields),
        }
    }
}

/// What validation makes of the bytes `raw` under the kind `kind`.
///
/// Raw bytes are kept as they are. Under every other kind the bytes must be
/// a record. Under a schema, the first of these that applies is reported: a
/// required property is missing, a field is of another type than declared,
/// a field is not declared where extensions are not allowed.
pub open spec fn validate_spec(kind: MetadataKindView, raw: Seq<u8>) -> Result<
    MetadataView,
    MetadataError,
> {
    match kind {
        MetadataKindView::Raw => Ok(MetadataView::Raw(raw)),
        MetadataKindView::Cep47 => match parse_record(raw) {
            None => Err(MetadataError::InvalidFormat),
            Some(fields) => if all_text(fields) {
                Ok(MetadataView::Record(fields))
            } else {
                Err(MetadataError::TypeMismatch)
            },
        },
        MetadataKindView::Cep78(schema) => match parse_record(raw) {
            None => Err(MetadataError::InvalidFormat),
            Some(fields) => if schema.misses_required(fields) {
                Err(MetadataError::MissingRequiredField)
            } else if schema.mistypes(fields) {
                Err(MetadataError::TypeMismatch)
            } else if !schema.allow_extensions && schema.holds_undeclared(fields) {
                Err(MetadataError::UnknownField)
            } else {
                Ok(MetadataView::Record(fields))
            },
        },
        MetadataKindView::CustomValidated(rules) => match parse_record(raw) {
            None => Err(MetadataError::InvalidFormat),
            Some(fields) => match first_violation(rules, fields) {
                Some(e) => Err(e),
                None => Ok(MetadataView::Record(fields)),
            },
        },
    }
}

/// What the outcome of a validation stands for.
pub open spec fn metadata_outcome(r: Result<StructuredMetadata, MetadataError>) -> Result<
    MetadataView,
    MetadataError,
> {
    match r {
        Ok(m) => Ok(m@),
        Err(e) => Err(e),
    }
}

/// Whether metadata `after` may take the place of `before` under the kind
/// `kind`: under a schema, no immutable property may differ between two
/// records.
pub open spec fn update_allowed_spec(
    kind: MetadataKindView,
    before: MetadataView,
    after: MetadataView,
) -> bool {
    match (kind, before, after) {
        (
            MetadataKindView::Cep78(schema),
            MetadataView::Record(b),
            MetadataView::Record(a),
        ) => schema.keeps_immutable(b, a),
        _ => true,
    }
}

} // verus!
