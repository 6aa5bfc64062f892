//! The notation in which structured metadata is written.
//!
//! A record is a flat list of named fields between braces:
//!
//! ```text
//! { "name": "Ada", "edition": 3, "signed": true }
//! ```
//!
//! A name and a text value are runs of plain bytes between double quotes: any
//! byte from the space upwards but the double quote and the backslash. A
//! number is a decimal numeral below two to the sixty-fourth, without leading
//! zeros. A flag is `true` or `false`. Fields are separated by commas; spaces,
//! tabs and line ends may stand between any two of these parts. No name may
//! occur twice.

use vstd::prelude::*;

verus! {

/// The double quote that opens and closes a text.
pub const QUOTE: u8 = 0x22;

/// The backslash, which no text may hold.
pub const BACKSLASH: u8 = 0x5c;

/// The brace that opens a record.
pub const OPEN: u8 = 0x7b;

/// The brace that closes a record.
pub const CLOSE: u8 = 0x7d;

/// The colon between a field's name and its value.
pub const COLON: u8 = 0x3a;

/// The comma between two fields.
pub const COMMA: u8 = 0x2c;

/// The digit zero.
pub const ZERO: u8 = 0x30;

/// The value of a field.
#[derive(Clone, Debug, PartialEq, Eq)]
pub enum FieldValue {
    /// A text, as its bytes.
    Text(Vec<u8>),
    /// A number.
    Number(u64),
    /// A flag.
    Flag(bool),
}

/// What the value of a field stands for.
pub enum FieldValueView {
    /// A text, as its bytes.
    Text(Seq<u8>),
    /// A number.
    Number(u64),
    /// A flag.
    Flag(bool),
}

/// A named field of a record.
#[derive(Clone, Debug, PartialEq, Eq)]
pub struct Field {
    /// The field's name, as its bytes.
    pub name: Vec<u8>,
    /// The field's value.
    pub value: FieldValue,
}

/// What a field stands for.
pub struct FieldView {
    /// The field's name, as its bytes.
    pub name: Seq<u8>,
    /// The field's value.
    pub value: FieldValueView,
}

impl View for FieldValue {
    type V = FieldValueView;

    open spec fn view(&self) -> FieldValueView {
        match self {
            FieldValue::Text(t) => FieldValueView::Text(t@),
            FieldValue::Number(n) => FieldValueView::Number(*n),
            FieldValue::Flag(b) => FieldValueView::Flag(*b),
        }
    }
}

impl View for Field {
    type V = FieldView;

    open spec fn view(&self) -> FieldView {
        FieldView { name: self.name@, value: self.value@ }
    }
}

/// What a list of fields stands for.
pub open spec fn fields_view(fields: Seq<Field>) -> Seq<FieldView> {
    fields.map_values(|f: Field| f@)
}

/// Whether a field of `fields` is named `name`.
pub open spec fn has_name(fields: Seq<FieldView>, name: Seq<u8>) -> bool {
    exists|i: int| 0 <= i < fields.len() && #[trigger] fields[i].name == name
}

/// The value of the first field of `fields` that is named `name`.
pub open spec fn lookup(fields: Seq<FieldView>, name: Seq<u8>) -> Option<FieldValueView>
    decreases fields.len(),
{
    if fields.len() == 0 {
        None
    } else if fields[0].name == name {
        Some(fields[0].value)
    } else {
        lookup(fields.drop_first(), name)
    }
}

/// No two fields of `fields` have the same name.
pub open spec fn distinct_names(fields: Seq<FieldView>) -> bool {
    forall|i: int, j: int|
        0 <= i < j < fields.len() ==> #[trigger] fields[i].name != #[trigger] fields[j].name
}

/// The kinds of byte that the notation tells apart when it reads a run.
#[derive(Clone, Copy, Debug, PartialEq, Eq, Structural)]
pub enum ByteClass {
    /// A space, a tab, a line feed or a carriage return.
    Space,
    /// A byte that may stand inside a text.
    Plain,
    /// A decimal digit.
    Digit,
}

impl ByteClass {
    /// Whether `b` belongs to this class.
    pub open spec fn spec_holds(self, b: u8) -> bool {
        match self {
            ByteClass::Space => b == 0x20 || b == 0x09 || b == 0x0a || b == 0x0d,
            ByteClass::Plain => b >= 0x20 && b != QUOTE && b != BACKSLASH,
            ByteClass::Digit => 0x30 <= b <= 0x39,
        }
    }

    /// Whether `b` belongs to this class.
    #[verifier::when_used_as_spec(spec_holds)]
    pub fn holds(self, b: u8) -> (r: bool)
        ensures
            r == self.spec_holds(b),
    {
        match self {
            ByteClass::Space => b == 0x20 || b == 0x09 || b == 0x0a || b == 0x0d,
            ByteClass::Plain => b >= 0x20 && b != QUOTE && b != BACKSLASH,
            ByteClass::Digit => 0x30 <= b && b <= 0x39,
        }
    }
}

/// Where the run of bytes of class `class` that starts at `i` ends: the
/// first position from `i` on that holds no byte of the class.
pub open spec fn run_end(s: Seq<u8>, i: int, class: ByteClass) -> int
    decreases s.len() - i,
{
    if 0 <= i < s.len() && class.holds(s[i]) {
        run_end(s, i + 1, class)
    } else {
        i
    }
}

/// A run ends at or after its start, within the bytes, before a byte that
/// is not of its class, and holds bytes of its class only.
pub proof fn lemma_run_end(s: Seq<u8>, i: int, class: ByteClass)
    requires
        0 <= i <= s.len(),
    ensures
        i <= run_end(s, i, class) <= s.len(),
        run_end(s, i, class) < s.len() ==> !class.holds(s[run_end(s, i, class)]),
        forall|k: int| i <= k < run_end(s, i, class) ==> class.holds(#[trigger] s[k]),
    decreases s.len() - i,
{
    if i < s.len() && class.holds(s[i]) {
        lemma_run_end(s, i + 1, class);
    }
}

/// The number that a run of decimal digits stands for.
pub open spec fn digits_value(digits: Seq<u8>) -> nat
    decreases digits.len(),
{
    if digits.len() == 0 {
        0
    } else {
        digits_value(digits.drop_last()) * 10 + (digits.last() - ZERO) as nat
    }
}

/// The text that starts at `i`, and where it ends: an opening quote, a run
/// of plain bytes, a closing quote.
pub open spec fn parse_text(s: Seq<u8>, i: int) -> Option<(Seq<u8>, int)> {
    if 0 <= i < s.len() && s[i] == QUOTE {
        let e = run_end(s, i + 1, ByteClass::Plain);
        if e < s.len() && s[e] == QUOTE {
            Some((s.subrange(i + 1, e), e + 1))
        } else {
            None
        }
    } else {
        None
    }
}

/// The number that starts at `i`, and where it ends: a run of digits that
/// does not start with a needless zero and stays below two to the
/// sixty-fourth.
pub open spec fn parse_number(s: Seq<u8>, i: int) -> Option<(u64, int)> {
    let e = run_end(s, i, ByteClass::Digit);
    if 0 <= i < e <= s.len() && (e == i + 1 || s[i] != ZERO) && digits_value(s.subrange(i, e))
        <= u64::MAX {
        Some((digits_value(s.subrange(i, e)) as u64, e))
    } else {
        None
    }
}

/// The bytes of the word `true`.
pub open spec fn word_true() -> Seq<u8> {
    seq![0x74u8, 0x72u8, 0x75u8, 0x65u8]
}

/// The bytes of the word `false`.
pub open spec fn word_false() -> Seq<u8> {
    seq![0x66u8, 0x61u8, 0x6cu8, 0x73u8, 0x65u8]
}

/// Whether the bytes of `word` stand at `i`.
pub open spec fn stands_at(s: Seq<u8>, i: int, word: Seq<u8>) -> bool {
    0 <= i && i + word.len() <= s.len() && s.subrange(i, i + word.len()) == word
}

/// The value that starts at `i`, and where it ends.
pub open spec fn parse_value(s: Seq<u8>, i: int) -> Option<(FieldValueView, int)> {
    if 0 <= i < s.len() && s[i] == QUOTE {
        match parse_text(s, i) {
            Some((t, e)) => Some((FieldValueView::Text(t), e)),
            None => None,
        }
    } else if stands_at(s, i, word_true()) {
        Some((FieldValueView::Flag(true), i + 4))
    } else if stands_at(s, i, word_false()) {
        Some((FieldValueView::Flag(false), i + 5))
    } else {
        match parse_number(s, i) {
            Some((n, e)) => Some((FieldValueView::Number(n), e)),
            None => None,
        }
    }
}

/// The field that starts at `i`, and where it ends: a name, a colon, a
/// value.
pub open spec fn parse_member(s: Seq<u8>, i: int) -> Option<(FieldView, int)> {
    match parse_text(s, i) {
        None => None,
        Some((name, e)) => {
            let c = run_end(s, e, ByteClass::Space);
            if c < s.len() && s[c] == COLON {
                match parse_value(s, run_end(s, c + 1, ByteClass::Space)) {
                    Some((value, end)) => Some((FieldView { name, value }, end)),
                    None => None,
                }
            } else {
                None
            }
        },
    }
}

/// A text, a value and a field end after they start, within the bytes.
pub proof fn lemma_parse_bounds(s: Seq<u8>, i: int)
    ensures
        parse_text(s, i) is Some ==> i + 2 <= parse_text(s, i)->Some_0.1 <= s.len(),
        parse_number(s, i) is Some ==> i < parse_number(s, i)->Some_0.1 <= s.len(),
        parse_value(s, i) is Some ==> i < parse_value(s, i)->Some_0.1 <= s.len(),
        parse_member(s, i) is Some ==> i + 2 < parse_member(s, i)->Some_0.1 <= s.len(),
{
    if 0 <= i < s.len() {
        lemma_run_end(s, i + 1, ByteClass::Plain);
    }
    if parse_text(s, i) is Some {
        let e = parse_text(s, i)->Some_0.1;
        lemma_run_end(s, e, ByteClass::Space);
        let c = run_end(s, e, ByteClass::Space);
        if c < s.len() {
            lemma_run_end(s, c + 1, ByteClass::Space);
            let v = run_end(s, c + 1, ByteClass::Space);
            if 0 <= v < s.len() {
                lemma_run_end(s, v + 1, ByteClass::Plain);
            }
        }
    }
}

/// The fields from `i` to the closing brace, after the fields `seen`, and
/// where the record ends. Position `i` is where a field must start.
pub open spec fn parse_members(s: Seq<u8>, i: int, seen: Seq<FieldView>) -> Option<
    (Seq<FieldView>, int),
>
    decreases s.len() - i,
{
    match parse_member(s, i) {
        None => None,
        Some((field, e)) => {
            if has_name(seen, field.name) {
                None
            } else {
                let c = run_end(s, e, ByteClass::Space);
                if c < s.len() && s[c] == COMMA {
                    proof {
                        lemma_parse_bounds(s, i);
                        lemma_run_end(s, e, ByteClass::Space);
                        lemma_run_end(s, c + 1, ByteClass::Space);
                    }
                    parse_members(s, run_end(s, c + 1, ByteClass::Space), seen.push(field))
                } else if c < s.len() && s[c] == CLOSE {
                    Some((seen.push(field), c + 1))
                } else {
                    None
                }
            }
        },
    }
}

/// The fields of the record that `s` is, if it is one: an opening brace,
/// fields with commas between them, a closing brace, and nothing but white
/// space around them.
pub open spec fn parse_record(s: Seq<u8>) -> Option<Seq<FieldView>> {
    let o = run_end(s, 0, ByteClass::Space);
    if o < s.len() && s[o] == OPEN {
        let m = run_end(s, o + 1, ByteClass::Space);
        if m < s.len() && s[m] == CLOSE {
            if run_end(s, m + 1, ByteClass::Space) == s.len() {
                Some(Seq::empty())
            } else {
                None
            }
        } else {
            match parse_members(s, m, Seq::empty()) {
                Some((fields, e)) => if run_end(s, e, ByteClass::Space) == s.len() {
                    Some(fields)
                } else {
                    None
                },
                None => None,
            }
        }
    } else {
        None
    }
}

/// A field is found under a name exactly when a field has that name.
pub proof fn lemma_lookup_finds_names(fields: Seq<FieldView>, name: Seq<u8>)
    ensures
        lookup(fields, name) is Some <==> has_name(fields, name),
        distinct_names(fields) ==> forall|i: int|
            0 <= i < fields.len() && (#[trigger] fields[i]).name == name ==> lookup(fields, name)
                == Some(fields[i].value),
    decreases fields.len(),
{
    if fields.len() > 0 {
        let rest = fields.drop_first();
        lemma_lookup_finds_names(rest, name);
        if fields[0].name != name {
            if has_name(fields, name) {
                let i = choose|i: int| 0 <= i < fields.len() && #[trigger] fields[i].name == name;
                assert(rest[i - 1].name == name);
            }
            if has_name(rest, name) {
                let i = choose|i: int| 0 <= i < rest.len() && #[trigger] rest[i].name == name;
                assert(fields[i + 1].name == name);
            }
        }
        if distinct_names(fields) {
            assert(distinct_names(rest)) by {
                assert forall|i: int, j: int| 0 <= i < j < rest.len() implies #[trigger] rest[i].name
                    != #[trigger] rest[j].name by {
                    assert(fields[i + 1].name != fields[j + 1].name);
                }
            }
            assert forall|i: int|
                0 <= i < fields.len() && (#[trigger] fields[i]).name == name implies lookup(
                fields,
                name,
            ) == Some(fields[i].value) by {
                if i > 0 {
                    assert(rest[i - 1].name == name);
                    assert(fields[0].name != fields[i].name);
                }
            }
        }
    }
}

/// The fields that are read after fields with distinct names have distinct
/// names.
pub proof fn lemma_members_are_distinct(s: Seq<u8>, i: int, seen: Seq<FieldView>)
    requires
        distinct_names(seen),
        parse_members(s, i, seen) is Some,
    ensures
        distinct_names(parse_members(s, i, seen)->Some_0.0),
    decreases s.len() - i,
{
    let (field, e) = parse_member(s, i)->Some_0;
    let next = seen.push(field);
    assert(distinct_names(next)) by {
        assert forall|a: int, b: int| 0 <= a < b < next.len() implies #[trigger] next[a].name
            != #[trigger] next[b].name by {
            if b < seen.len() {
                assert(seen[a].name != seen[b].name);
            } else {
                assert(seen[a].name == next[a].name);
            }
        }
    }
    let c = run_end(s, e, ByteClass::Space);
    if c < s.len() && s[c] == COMMA {
        lemma_parse_bounds(s, i);
        lemma_run_end(s, e, ByteClass::Space);
        lemma_run_end(s, c + 1, ByteClass::Space);
        lemma_members_are_distinct(s, run_end(s, c + 1, ByteClass::Space), next);
    }
}

/// No name occurs twice in a record.
pub proof fn lemma_record_names_are_distinct(s: Seq<u8>)
    requires
        parse_record(s) is Some,
    ensures
        distinct_names(parse_record(s)->Some_0),
{
    let o = run_end(s, 0, ByteClass::Space);
    let m = run_end(s, o + 1, ByteClass::Space);
    if !(m < s.len() && s[m] == CLOSE) {
        lemma_members_are_distinct(s, m, Seq::empty());
    }
}

} // verus!
