use nft_registry::error::MetadataError;
use nft_registry::metadata::{
    MetadataKind, MetadataSchema, PrimitiveType, Property, Rule, StructuredMetadata,
};
use nft_registry::notation::{ByteClass, Field, FieldValue};
use nft_registry::reader::{
    copy_range, names, read_member, read_members, read_number, read_record, read_text, read_value,
    same_bytes, scan,
};
use nft_registry::validator::{find_field, same_value, update_allowed, validate};

fn text(name: &str, value: &str) -> Field {
    Field { name: name.as_bytes().to_vec(), value: FieldValue::Text(value.as_bytes().to_vec()) }
}

fn number(name: &str, value: u64) -> Field {
    Field { name: name.as_bytes().to_vec(), value: FieldValue::Number(value) }
}

fn flag(name: &str, value: bool) -> Field {
    Field { name: name.as_bytes().to_vec(), value: FieldValue::Flag(value) }
}

fn property(name: &str, kind: PrimitiveType, required: bool, mutable: bool) -> Property {
    Property { name: name.as_bytes().to_vec(), kind, required, mutable }
}

fn schema(allow_extensions: bool) -> MetadataSchema {
    MetadataSchema {
        properties: vec![
            property("name", PrimitiveType::Text, true, false),
            property("edition", PrimitiveType::Number, true, true),
            property("signed", PrimitiveType::Flag, false, false),
        ],
        allow_extensions,
        allow_names: false,
    }
}

#[test]
fn reads_an_empty_record() {
    assert_eq!(read_record(b"{}"), Some(vec![]));
    assert_eq!(read_record(b" \t\r\n{ \n } \n"), Some(vec![]));
}

#[test]
fn reads_fields_of_every_type() {
    assert_eq!(
        read_record(br#"{"name":"Ada","edition":3,"signed":true,"sold":false}"#),
        Some(vec![
            text("name", "Ada"),
            number("edition", 3),
            flag("signed", true),
            flag("sold", false)
        ])
    );
    assert_eq!(
        read_record(b"\n{\n\t\"name\" : \"Ada Lovelace\" ,\r\n\t\"edition\" : 12\n}\n"),
        Some(vec![text("name", "Ada Lovelace"), number("edition", 12)])
    );
    assert_eq!(read_record(br#"{"":""}"#), Some(vec![text("", "")]));
}

#[test]
fn refuses_what_is_not_a_record() {
    let bad: Vec<&[u8]> = vec![
        b"",
        b" ",
        b"{",
        b"}",
        b"[]",
        b"{}{}",
        b"{} x",
        b"x {}",
        br#"{"a"}"#,
        br#"{"a":}"#,
        br#"{"a":1,}"#,
        br#"{,"a":1}"#,
        br#"{"a":1 "b":2}"#,
        br#"{"a":1,,"b":2}"#,
        br#"{"a" 1}"#,
        br#"{a:1}"#,
        br#"{"a":1"#,
        br#"{"a":"b}"#,
        br#"{"a":tru}"#,
        br#"{"a":truex}"#,
        br#"{"a":True}"#,
        br#"{"a":null}"#,
        br#"{"a":-1}"#,
        br#"{"a":1.5}"#,
        br#"{"a":{}}"#,
        br#"{"a":1}}"#,
        br#"{1:"a"}"#,
    ];
    for raw in bad {
        assert_eq!(read_record(raw), None, "{:?}", String::from_utf8_lossy(raw));
    }
}

#[test]
fn refuses_a_name_that_occurs_twice() {
    assert_eq!(read_record(br#"{"a":1,"a":1}"#), None);
    assert_eq!(read_record(br#"{"a":1,"b":2,"a":"x"}"#), None);
    assert_eq!(read_record(br#"{"a":1,"A":1}"#), Some(vec![number("a", 1), number("A", 1)]));
}

#[test]
fn texts_hold_plain_bytes_only() {
    assert_eq!(read_text(br#""abc" rest"#, 0), Some((b"abc".to_vec(), 5)));
    assert_eq!(read_text(br#"x"abc""#, 1), Some((b"abc".to_vec(), 6)));
    assert_eq!(read_text(br#""""#, 0), Some((vec![], 2)));
    assert_eq!(read_text(b"\"caf\xc3\xa9\"", 0), Some((b"caf\xc3\xa9".to_vec(), 7)));
    assert_eq!(read_text(br#"abc"#, 0), None);
    assert_eq!(read_text(br#""abc"#, 0), None);
    assert_eq!(read_text(br#""a\"b""#, 0), None);
    assert_eq!(read_text(br#""a\\b""#, 0), None);
    assert_eq!(read_text(b"\"a\nb\"", 0), None);
    assert_eq!(read_text(b"\"a\x1fb\"", 0), None);
    assert_eq!(read_text(br#""abc""#, 5), None);
}

#[test]
fn numbers_are_canonical_and_fit() {
    assert_eq!(read_number(b"0", 0), Some((0, 1)));
    assert_eq!(read_number(b"7,", 0), Some((7, 1)));
    assert_eq!(read_number(b"1234567890}", 0), Some((1234567890, 10)));
    assert_eq!(read_number(b"18446744073709551615", 0), Some((u64::MAX, 20)));
    assert_eq!(read_number(b"18446744073709551616", 0), None);
    assert_eq!(read_number(b"99999999999999999999", 0), None);
    assert_eq!(read_number(b"184467440737095516150", 0), None);
    assert_eq!(read_number(b"00", 0), None);
    assert_eq!(read_number(b"01", 0), None);
    assert_eq!(read_number(b"", 0), None);
    assert_eq!(read_number(b"x1", 0), None);
    assert_eq!(read_number(b"x1", 1), Some((1, 2)));
    assert_eq!(read_number(b"12", 2), None);
}

#[test]
fn values_and_members() {
    assert_eq!(read_value(b"true", 0), Some((FieldValue::Flag(true), 4)));
    assert_eq!(read_value(b"false", 0), Some((FieldValue::Flag(false), 5)));
    assert_eq!(read_value(b"fals", 0), None);
    assert_eq!(read_value(b"42 ", 0), Some((FieldValue::Number(42), 2)));
    assert_eq!(read_value(br#""x""#, 0), Some((FieldValue::Text(b"x".to_vec()), 3)));
    assert_eq!(read_value(b"", 0), None);
    assert_eq!(read_member(br#""a" : 1 ,"#, 0), Some((number("a", 1), 7)));
    assert_eq!(read_member(br#""a" 1"#, 0), None);
    assert_eq!(
        read_members(br#""a":1, "b":true } tail"#, 0),
        Some((vec![number("a", 1), flag("b", true)], 17))
    );
    assert_eq!(read_members(br#""a":1, "b":true"#, 0), None);
}

#[test]
fn small_helpers() {
    assert_eq!(scan(b"  \t\nx ", 0, ByteClass::Space), 4);
    assert_eq!(scan(b"  x", 2, ByteClass::Space), 2);
    assert_eq!(scan(b"   ", 1, ByteClass::Space), 3);
    assert_eq!(scan(b"123a", 0, ByteClass::Digit), 3);
    assert_eq!(scan(b"ab\"c", 0, ByteClass::Plain), 2);
    assert!(ByteClass::Digit.holds(b'0') && ByteClass::Digit.holds(b'9'));
    assert!(!ByteClass::Digit.holds(b'/') && !ByteClass::Digit.holds(b':'));
    assert!(!ByteClass::Plain.holds(b'\\') && !ByteClass::Plain.holds(b'"'));
    assert!(ByteClass::Plain.holds(b' ') && !ByteClass::Plain.holds(0x1f));
    assert!(same_bytes(b"abc", b"abc"));
    assert!(!same_bytes(b"abc", b"abd"));
    assert!(!same_bytes(b"abc", b"ab"));
    assert!(same_bytes(b"", b""));
    assert_eq!(copy_range(b"abcdef", 2, 4), b"cd".to_vec());
    assert_eq!(copy_range(b"abcdef", 3, 3), Vec::<u8>::new());
    let fields = vec![number("a", 1), text("b", "x")];
    assert!(names(&fields, b"b"));
    assert!(!names(&fields, b"c"));
    assert_eq!(find_field(&fields, b"b"), Some(&FieldValue::Text(b"x".to_vec())));
    assert_eq!(find_field(&fields, b"c"), None);
    assert!(same_value(&FieldValue::Number(1), &FieldValue::Number(1)));
    assert!(!same_value(&FieldValue::Number(1), &FieldValue::Flag(true)));
    assert!(!same_value(&FieldValue::Text(b"a".to_vec()), &FieldValue::Text(b"b".to_vec())));
}

#[test]
fn raw_metadata_is_kept_as_it_is() {
    assert_eq!(validate(&MetadataKind::Raw, b""), Ok(StructuredMetadata::Raw(vec![])));
    assert_eq!(
        validate(&MetadataKind::Raw, b"\x00not a record\xff"),
        Ok(StructuredMetadata::Raw(b"\x00not a record\xff".to_vec()))
    );
}

#[test]
fn legacy_metadata_is_a_record_of_texts() {
    let kind = MetadataKind::Cep47;
    assert_eq!(
        validate(&kind, br#"{"colour":"red","anything":"goes"}"#),
        Ok(StructuredMetadata::Record(vec![text("colour", "red"), text("anything", "goes")]))
    );
    assert_eq!(validate(&kind, b"{}"), Ok(StructuredMetadata::Record(vec![])));
    assert_eq!(validate(&kind, b""), Err(MetadataError::InvalidFormat));
    assert_eq!(validate(&kind, b"colour=red"), Err(MetadataError::InvalidFormat));
    assert_eq!(validate(&kind, br#"{"colour":"red","n":1}"#), Err(MetadataError::TypeMismatch));
    assert_eq!(validate(&kind, br#"{"ok":true}"#), Err(MetadataError::TypeMismatch));
}

#[test]
fn schema_metadata_reports_each_fault() {
    let kind = MetadataKind::Cep78(schema(false));
    assert_eq!(
        validate(&kind, br#"{"name":"Ada","edition":1}"#),
        Ok(StructuredMetadata::Record(vec![text("name", "Ada"), number("edition", 1)]))
    );
    assert_eq!(
        validate(&kind, br#"{"signed":false,"edition":1,"name":"Ada"}"#),
        Ok(StructuredMetadata::Record(vec![
            flag("signed", false),
            number("edition", 1),
            text("name", "Ada")
        ]))
    );
    assert_eq!(validate(&kind, br#"{"name":"Ada","edition":1"#), Err(MetadataError::InvalidFormat));
    assert_eq!(validate(&kind, br#"{"name":"Ada"}"#), Err(MetadataError::MissingRequiredField));
    assert_eq!(validate(&kind, b"{}"), Err(MetadataError::MissingRequiredField));
    assert_eq!(
        validate(&kind, br#"{"name":"Ada","edition":"1"}"#),
        Err(MetadataError::TypeMismatch)
    );
    assert_eq!(
        validate(&kind, br#"{"name":"Ada","edition":1,"signed":1}"#),
        Err(MetadataError::TypeMismatch)
    );
    assert_eq!(
        validate(&kind, br#"{"name":"Ada","edition":1,"colour":"red"}"#),
        Err(MetadataError::UnknownField)
    );
}

#[test]
fn schema_faults_are_reported_in_order() {
    let kind = MetadataKind::Cep78(schema(false));
    // Missing before mistyped before unknown.
    assert_eq!(
        validate(&kind, br#"{"edition":"1","colour":"red"}"#),
        Err(MetadataError::MissingRequiredField)
    );
    assert_eq!(
        validate(&kind, br#"{"name":1,"edition":1,"colour":"red"}"#),
        Err(MetadataError::TypeMismatch)
    );
}

#[test]
fn a_schema_may_allow_extensions() {
    let kind = MetadataKind::Cep78(schema(true));
    assert_eq!(
        validate(&kind, br#"{"name":"Ada","edition":1,"colour":"red"}"#),
        Ok(StructuredMetadata::Record(vec![
            text("name", "Ada"),
            number("edition", 1),
            text("colour", "red")
        ]))
    );
    assert_eq!(validate(&kind, br#"{"colour":"red"}"#), Err(MetadataError::MissingRequiredField));
}

#[test]
fn custom_rules_must_all_pass() {
    let rules = vec![
        Rule::TextLength { field: b"name".to_vec(), min: 1, max: 5 },
        Rule::NumberRange { field: b"level".to_vec(), min: 10, max: 20 },
    ];
    let kind = MetadataKind::CustomValidated(rules);
    assert_eq!(
        validate(&kind, br#"{"name":"Ada","level":10,"more":true}"#),
        Ok(StructuredMetadata::Record(vec![
            text("name", "Ada"),
            number("level", 10),
            flag("more", true)
        ]))
    );
    assert_eq!(
        validate(&kind, br#"{"name":"Grace","level":20}"#),
        Ok(StructuredMetadata::Record(vec![text("name", "Grace"), number("level", 20)]))
    );
    assert_eq!(validate(&kind, br#"{"name":"Ada","level":10"#), Err(MetadataError::InvalidFormat));
    assert_eq!(validate(&kind, br#"{"level":10}"#), Err(MetadataError::MissingRequiredField));
    assert_eq!(validate(&kind, br#"{"name":"Ada"}"#), Err(MetadataError::MissingRequiredField));
    assert_eq!(validate(&kind, br#"{"name":7,"level":10}"#), Err(MetadataError::TypeMismatch));
    assert_eq!(validate(&kind, br#"{"name":"Ada","level":"10"}"#), Err(MetadataError::TypeMismatch));
    assert_eq!(validate(&kind, br#"{"name":"","level":10}"#), Err(MetadataError::InvalidFormat));
    assert_eq!(validate(&kind, br#"{"name":"Hopper","level":10}"#), Err(MetadataError::InvalidFormat));
    assert_eq!(validate(&kind, br#"{"name":"Ada","level":9}"#), Err(MetadataError::InvalidFormat));
    assert_eq!(validate(&kind, br#"{"name":"Ada","level":21}"#), Err(MetadataError::InvalidFormat));
    // The first rule that fails is reported.
    assert_eq!(validate(&kind, br#"{"name":7}"#), Err(MetadataError::TypeMismatch));
    assert_eq!(validate(&kind, br#"{"level":"x"}"#), Err(MetadataError::MissingRequiredField));
    // No rule, no fault.
    assert_eq!(
        validate(&MetadataKind::CustomValidated(vec![]), b"{}"),
        Ok(StructuredMetadata::Record(vec![]))
    );
}

#[test]
fn immutable_properties_stay() {
    let kind = MetadataKind::Cep78(schema(true));
    let before = StructuredMetadata::Record(vec![text("name", "Ada"), number("edition", 1)]);
    let same = StructuredMetadata::Record(vec![number("edition", 2), text("name", "Ada")]);
    let renamed = StructuredMetadata::Record(vec![text("name", "Eve"), number("edition", 1)]);
    let signed = StructuredMetadata::Record(vec![
        text("name", "Ada"),
        number("edition", 1),
        flag("signed", true),
    ]);
    let extended = StructuredMetadata::Record(vec![
        text("name", "Ada"),
        number("edition", 1),
        text("colour", "red"),
    ]);
    assert!(update_allowed(&kind, &before, &before));
    assert!(update_allowed(&kind, &before, &same));
    assert!(!update_allowed(&kind, &before, &renamed));
    // An immutable property can neither appear nor go.
    assert!(!update_allowed(&kind, &before, &signed));
    assert!(!update_allowed(&kind, &signed, &before));
    assert!(update_allowed(&kind, &before, &extended));
    // Without a schema nothing is immutable.
    assert!(update_allowed(&MetadataKind::Cep47, &before, &renamed));
    assert!(update_allowed(
        &MetadataKind::Raw,
        &StructuredMetadata::Raw(b"a".to_vec()),
        &StructuredMetadata::Raw(b"b".to_vec())
    ));
}
