//! The metadata validator: from the bytes that come with a mint to the
//! structured form that is kept, or to the reason for refusing them.

use vstd::prelude::*;

use crate::error::MetadataError;
use crate::metadata::{
    all_text, first_violation, metadata_outcome, update_allowed_spec, validate_spec, MetadataKind,
    MetadataSchema, PrimitiveType, Property, Rule, StructuredMetadata,
};
use crate::notation::{fields_view, lookup, Field, FieldValue};
use crate::reader::{copy_range, read_record, same_bytes};

verus! {

/// The value of the first field of `fields` that is named `name`.
pub fn find_field<'a>(fields: &'a Vec<Field>, name: &[u8]) -> (r: Option<&'a FieldValue>)
    ensures
        match r {
            Some(value) => lookup(fields_view(fields@), name@) == Some(value@),
            None => lookup(fields_view(fields@), name@) is None,
        },
{
    let ghost all = fields_view(fields@);
    let mut i: usize = 0;
    assert(all.subrange(0, all.len() as int) =~= all);
    while i < fields.len()
        invariant
            i <= fields@.len(),
            all == fields_view(fields@),
            lookup(all, name@) == lookup(all.subrange(i as int, all.len() as int), name@),
        decreases fields@.len() - i,
    {
        proof {
            let rest = all.subrange(i as int, all.len() as int);
            assert(rest[0] == fields@[i as int]@);
            assert(rest.drop_first() =~= all.subrange(i + 1, all.len() as int));
        }
        if same_bytes(fields[i].name.as_slice(), name) {
            return Some(&fields[i].value);
        }
        i += 1;
    }
    proof {
        assert(all.subrange(i as int, all.len() as int).len() == 0);
    }
    None
}

/// Whether two values are the same.
pub fn same_value(a: &FieldValue, b: &FieldValue) -> (r: bool)
    ensures
        r == (a@ == b@),
{
    match (a, b) {
        (FieldValue::Text(x), FieldValue::Text(y)) => same_bytes(x.as_slice(), y.as_slice()),
        (FieldValue::Number(x), FieldValue::Number(y)) => *x == *y,
        (FieldValue::Flag(x), FieldValue::Flag(y)) => *x == *y,
        _ => false,
    }
}

/// Whether every value of `fields` is a text.
fn only_texts(fields: &Vec<Field>) -> (r: bool)
    ensures
        r == all_text(fields_view(fields@)),
{
    let mut i: usize = 0;
    while i < fields.len()
        invariant
            i <= fields@.len(),
            forall|j: int| 0 <= j < i ==> (#[trigger] fields_view(fields@)[j]).value is Text,
        decreases fields@.len() - i,
    {
        match &fields[i].value {
            FieldValue::Text(_) => {},
            _ => {
                assert(!(fields_view(fields@)[i as int].value is Text));
                return false;
            },
        }
        i += 1;
    }
    true
}

/// Whether a required property of `schema` has no field in `fields`.
fn misses_required(schema: &MetadataSchema, fields: &Vec<Field>) -> (r: bool)
    ensures
        r == schema@.misses_required(fields_view(fields@)),
{
    let mut j: usize = 0;
    while j < schema.properties.len()
        invariant
            j <= schema.properties@.len(),
            forall|k: int|
                0 <= k < j ==> !(#[trigger] schema@.properties[k]).is_missing_in(
                    fields_view(fields@),
                ),
        decreases schema.properties@.len() - j,
    {
        let p = &schema.properties[j];
        assert(schema@.properties[j as int] == p@);
        if p.required && find_field(fields, p.name.as_slice()).is_none() {
            return true;
        }
        j += 1;
    }
    false
}

/// The primitive type of `value` is `kind`.
fn has_kind(value: &FieldValue, kind: PrimitiveType) -> (r: bool)
    ensures
        r == (value@.kind() == kind),
{
    match (value, kind) {
        (FieldValue::Text(_), PrimitiveType::Text) => true,
        (FieldValue::Number(_), PrimitiveType::Number) => true,
        (FieldValue::Flag(_), PrimitiveType::Flag) => true,
        _ => false,
    }
}

/// Whether a field of `fields` is of another type than `schema` declares.
fn mistypes(schema: &MetadataSchema, fields: &Vec<Field>) -> (r: bool)
    ensures
        r == schema@.mistypes(fields_view(fields@)),
{
    let mut j: usize = 0;
    while j < schema.properties.len()
        invariant
            j <= schema.properties@.len(),
            forall|k: int|
                0 <= k < j ==> !(#[trigger] schema@.properties[k]).is_mistyped_in(
                    fields_view(fields@),
                ),
        decreases schema.properties@.len() - j,
    {
        let p = &schema.properties[j];
        assert(schema@.properties[j as int] == p@);
        match find_field(fields, p.name.as_slice()) {
            Some(value) => {
                if !has_kind(value, p.kind) {
                    return true;
                }
            },
            None => {},
        }
        j += 1;
    }
    false
}

/// Whether `schema` declares a property named `name`.
fn declares(schema: &MetadataSchema, name: &[u8]) -> (r: bool)
    ensures
        r == schema@.declares(name@),
{
    let mut j: usize = 0;
    while j < schema.properties.len()
        invariant
            j <= schema.properties@.len(),
            forall|k: int| 0 <= k < j ==> (#[trigger] schema@.properties[k]).name != name@,
        decreases schema.properties@.len() - j,
    {
        assert(schema@.properties[j as int] == schema.properties@[j as int]@);
        if same_bytes(schema.properties[j].name.as_slice(), name) {
            return true;
        }
        j += 1;
    }
    false
}

/// Whether a field of `fields` is not declared by `schema`.
fn holds_undeclared(schema: &MetadataSchema, fields: &Vec<Field>) -> (r: bool)
    ensures
        r == schema@.holds_undeclared(fields_view(fields@)),
{
    let mut i: usize = 0;
    while i < fields.len()
        invariant
            i <= fields@.len(),
            forall|k: int|
                0 <= k < i ==> schema@.declares((#[trigger] fields_view(fields@)[k]).name),
        decreases fields@.len() - i,
    {
        assert(fields_view(fields@)[i as int] == fields@[i as int]@);
        if !declares(schema, fields[i].name.as_slice()) {
            return true;
        }
        i += 1;
    }
    false
}

/// Why `fields` does not pass `rule`, if it does not.
fn violation(rule: &Rule, fields: &Vec<Field>) -> (r: Option<MetadataError>)
    ensures
        r == rule@.violation(fields_view(fields@)),
{
    match rule {
        Rule::TextLength { field, min, max } => match find_field(fields, field.as_slice()) {
            None => Some(MetadataError::MissingRequiredField),
            Some(FieldValue::Text(t)) => {
                let n = t.len();
                if *min <= n as u64 && n as u64 <= *max {
                    None
                } else {
                    Some(MetadataError::InvalidFormat)
                }
            },
            Some(_) => Some(MetadataError::TypeMismatch),
        },
        Rule::NumberRange { field, min, max } => match find_field(fields, field.as_slice()) {
            None => Some(MetadataError::MissingRequiredField),
            Some(FieldValue::Number(n)) => {
                if *min <= *n && *n <= *max {
                    None
                } else {
                    Some(MetadataError::InvalidFormat)
                }
            },
            Some(_) => Some(MetadataError::TypeMismatch),
        },
    }
}

/// Why `fields` does not pass the first rule of `rules` that it does not
/// pass, if there is one.
fn check_rules(rules: &Vec<Rule>, fields: &Vec<Field>) -> (r: Option<MetadataError>)
    ensures
        r == first_violation(rules@.map_values(|r: Rule| r@), fields_view(fields@)),
{
    let ghost all = rules@.map_values(|r: Rule| r@);
    let ghost fs = fields_view(fields@);
    let mut i: usize = 0;
    assert(all.subrange(0, all.len() as int) =~= all);
    while i < rules.len()
        invariant
            i <= rules@.len(),
            all == rules@.map_values(|r: Rule| r@),
            fs == fields_view(fields@),
            first_violation(all, fs) == first_violation(all.subrange(i as int, all.len() as int), fs),
        decreases rules@.len() - i,
    {
        proof {
            let rest = all.subrange(i as int, all.len() as int);
            assert(rest[0] == rules@[i as int]@);
            assert(rest.drop_first() =~= all.subrange(i + 1, all.len() as int));
        }
        match violation(&rules[i], fields) {
            Some(e) => {
                return Some(e);
            },
            None => {},
        }
        i += 1;
    }
    proof {
        assert(all.subrange(i as int, all.len() as int).len() == 0);
    }
    None
}

/// Validates the bytes `raw` under the kind `kind`.
pub fn validate(kind: &MetadataKind, raw: &[u8]) -> (r: Result<StructuredMetadata, MetadataError>)
    ensures
        metadata_outcome(r) == validate_spec(kind@, raw@),
{
    match kind {
        MetadataKind::Raw => {
            let bytes = copy_range(raw, 0, raw.len());
            assert(bytes@ =~= raw@);
            Ok(StructuredMetadata::Raw(bytes))
        },
        MetadataKind::Cep47 => match read_record(raw) {
            None => Err(MetadataError::InvalidFormat),
            Some(fields) => {
                if only_texts(&fields) {
                    Ok(StructuredMetadata::Record(fields))
                } else {
                    Err(MetadataError::TypeMismatch)
                }
            },
        },
        MetadataKind::Cep78(schema) => match read_record(raw) {
            None => Err(MetadataError::InvalidFormat),
            Some(fields) => {
                if misses_required(schema, &fields) {
                    Err(MetadataError::MissingRequiredField)
                } else if mistypes(schema, &fields) {
                    Err(MetadataError::TypeMismatch)
                } else if !schema.allow_extensions && holds_undeclared(schema, &fields) {
                    Err(MetadataError::UnknownField)
                } else {
                    Ok(StructuredMetadata::Record(fields))
                }
            },
        },
        MetadataKind::CustomValidated(rules) => match read_record(raw) {
            None => Err(MetadataError::InvalidFormat),
            Some(fields) => match check_rules(rules, &fields) {
                Some(e) => Err(e),
                None => Ok(StructuredMetadata::Record(fields)),
            },
        },
    }
}

/// Whether `property` may change, or has the same value, or none, in both
/// records.
fn is_kept(property: &Property, before: &Vec<Field>, after: &Vec<Field>) -> (r: bool)
    ensures
        r == property@.is_kept(fields_view(before@), fields_view(after@)),
{
    if property.mutable {
        return true;
    }
    match (find_field(before, property.name.as_slice()), find_field(after, property.name.as_slice())) {
        (Some(x), Some(y)) => same_value(x, y),
        (None, None) => true,
        _ => false,
    }
}

/// Whether every immutable property of `schema` has the same value, or
/// none, in both records.
fn keeps_immutable(schema: &MetadataSchema, before: &Vec<Field>, after: &Vec<Field>) -> (r: bool)
    ensures
        r == schema@.keeps_immutable(fields_view(before@), fields_view(after@)),
{
    let mut j: usize = 0;
    while j < schema.properties.len()
        invariant
            j <= schema.properties@.len(),
            forall|k: int|
                0 <= k < j ==> (#[trigger] schema@.properties[k]).is_kept(
                    fields_view(before@),
                    fields_view(after@),
                ),
        decreases schema.properties@.len() - j,
    {
        assert(schema@.properties[j as int] == schema.properties@[j as int]@);
        if !is_kept(&schema.properties[j], before, after) {
            return false;
        }
        j += 1;
    }
    true
}

/// Whether metadata `after` may take the place of `before` under the kind
/// `kind`.
pub fn update_allowed(
    kind: &MetadataKind,
    before: &StructuredMetadata,
    after: &StructuredMetadata,
) -> (r: bool)
    ensures
        r == update_allowed_spec(kind@, before@, after@),
{
    match (kind, before, after) {
        (
            MetadataKind::Cep78(schema),
            StructuredMetadata::Record(b),
            StructuredMetadata::Record(a),
        ) => keeps_immutable(schema, b, a),
        _ => true,
    }
}

} // verus!
