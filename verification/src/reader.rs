//! The reader of the record notation: from bytes to fields.

use vstd::prelude::*;

use crate::notation::{
    digits_value, fields_view, has_name, lemma_parse_bounds, lemma_run_end, parse_member,
    parse_members, parse_number, parse_record, parse_text, parse_value, run_end, stands_at,
    word_false, word_true, ByteClass, Field, FieldValue, CLOSE, COLON, COMMA, OPEN, QUOTE, ZERO,
};

verus! {

/// Whether two byte strings are the same.
pub fn same_bytes(a: &[u8], b: &[u8]) -> (r: bool)
    ensures
        r == (a@ == b@),
{
    if a.len() != b.len() {
        return false;
    }
    let mut i: usize = 0;
    while i < a.len()
        invariant
            i <= a@.len(),
            a@.len() == b@.len(),
            forall|j: int| 0 <= j < i ==> a@[j] == b@[j],
        decreases a@.len() - i,
    {
        if a[i] != b[i] {
            return false;
        }
        i += 1;
    }
    assert(a@ =~= b@);
    true
}

/// The bytes of `s` from `from` up to `to`.
pub fn copy_range(s: &[u8], from: usize, to: usize) -> (v: Vec<u8>)
    requires
        from <= to <= s@.len(),
    ensures
        v@ == s@.subrange(from as int, to as int),
{
    let mut v: Vec<u8> = Vec::new();
    let mut i: usize = from;
    while i < to
        invariant
            from <= i <= to <= s@.len(),
            v@ == s@.subrange(from as int, i as int),
        decreases to - i,
    {
        v.push(s[i]);
        i += 1;
        assert(v@ =~= s@.subrange(from as int, i as int));
    }
    v
}

/// Where the run of bytes of class `class` that starts at `start` ends.
pub fn scan(s: &[u8], start: usize, class: ByteClass) -> (end: usize)
    requires
        start <= s@.len(),
    ensures
        end == run_end(s@, start as int, class),
        start <= end <= s@.len() <= usize::MAX,
{
    let mut i: usize = start;
    while i < s.len() && class.holds(s[i])
        invariant
            start <= i <= s@.len(),
            run_end(s@, start as int, class) == run_end(s@, i as int, class),
        decreases s@.len() - i,
    {
        i += 1;
    }
    i
}

/// Whether the byte `b` stands at `i`.
fn byte_at(s: &[u8], i: usize, b: u8) -> (r: bool)
    ensures
        r == (i < s@.len() && s@[i as int] == b),
        s@.len() <= usize::MAX,
{
    i < s.len() && s[i] == b
}

/// Reads the text that starts at `i`.
pub fn read_text(s: &[u8], i: usize) -> (r: Option<(Vec<u8>, usize)>)
    requires
        i <= s@.len(),
    ensures
        match r {
            Some((text, end)) => parse_text(s@, i as int) == Some((text@, end as int)) && end
                <= s@.len(),
            None => parse_text(s@, i as int) is None,
        },
{
    if !byte_at(s, i, QUOTE) {
        return None;
    }
    let e = scan(s, i + 1, ByteClass::Plain);
    if byte_at(s, e, QUOTE) {
        Some((copy_range(s, i + 1, e), e + 1))
    } else {
        None
    }
}

/// The number of a run of digits grows with every digit that is added.
proof fn lemma_digits_value_grows(digits: Seq<u8>, k: int)
    requires
        0 <= k <= digits.len(),
        forall|j: int| 0 <= j < digits.len() ==> ByteClass::Digit.holds(#[trigger] digits[j]),
    ensures
        digits_value(digits.subrange(0, k)) <= digits_value(digits),
    decreases digits.len() - k,
{
    if k < digits.len() {
        let longer = digits.subrange(0, k + 1);
        assert(longer.drop_last() =~= digits.subrange(0, k));
        assert(digits_value(longer) == digits_value(digits.subrange(0, k)) * 10 + (longer.last()
            - ZERO) as nat);
        lemma_digits_value_grows(digits, k + 1);
    } else {
        assert(digits.subrange(0, k) =~= digits);
    }
}

/// Reads the number that starts at `i`.
pub fn read_number(s: &[u8], i: usize) -> (r: Option<(u64, usize)>)
    requires
        i <= s@.len(),
    ensures
        r == match parse_number(s@, i as int) {
            Some((n, end)) => Some((n, end as usize)),
            None => None,
        },
        parse_number(s@, i as int) is Some ==> parse_number(s@, i as int)->Some_0.1 <= s@.len(),
{
    let e = scan(s, i, ByteClass::Digit);
    proof {
        lemma_run_end(s@, i as int, ByteClass::Digit);
    }
    if e == i {
        return None;
    }
    if e > i + 1 && s[i] == ZERO {
        return None;
    }
    let ghost digits = s@.subrange(i as int, e as int);
    proof {
        assert forall|j: int| 0 <= j < digits.len() implies ByteClass::Digit.holds(
            #[trigger] digits[j],
        ) by {
            assert(digits[j] == s@[i + j]);
        }
        assert(digits.subrange(0, 0) =~= Seq::empty());
    }
    let mut value: u64 = 0;
    let mut k: usize = i;
    while k < e
        invariant
            i <= k <= e <= s@.len(),
            e == run_end(s@, i as int, ByteClass::Digit),
            digits == s@.subrange(i as int, e as int),
            forall|j: int| 0 <= j < digits.len() ==> ByteClass::Digit.holds(#[trigger] digits[j]),
            value == digits_value(digits.subrange(0, k - i)),
        decreases e - k,
    {
        proof {
            let longer = digits.subrange(0, k + 1 - i);
            assert(longer.drop_last() =~= digits.subrange(0, k - i));
            assert(longer.last() == s@[k as int]);
            assert(ByteClass::Digit.holds(digits[k - i]));
            assert(digits[k - i] == s@[k as int]);
            lemma_digits_value_grows(digits, k + 1 - i);
        }
        let d: u64 = (s[k] - ZERO) as u64;
        if value > (u64::MAX - d) / 10 {
            assert(digits_value(digits.subrange(0, k + 1 - i)) > u64::MAX);
            return None;
        }
        value = value * 10 + d;
        k += 1;
    }
    proof {
        assert(digits.subrange(0, e - i) =~= digits);
    }
    Some((value, e))
}

/// Whether the word `true` stands at `i`.
fn reads_true(s: &[u8], i: usize) -> (r: bool)
    requires
        i <= s@.len(),
    ensures
        r == stands_at(s@, i as int, word_true()),
{
    if s.len() - i < 4 {
        return false;
    }
    let r = s[i] == 0x74 && s[i + 1] == 0x72 && s[i + 2] == 0x75 && s[i + 3] == 0x65;
    proof {
        let part = s@.subrange(i as int, i + 4);
        if r {
            assert(part =~= word_true());
        } else {
            assert(part[0] == s@[i as int]);
            assert(part[1] == s@[i + 1]);
            assert(part[2] == s@[i + 2]);
            assert(part[3] == s@[i + 3]);
        }
    }
    r
}

/// Whether the word `false` stands at `i`.
fn reads_false(s: &[u8], i: usize) -> (r: bool)
    requires
        i <= s@.len(),
    ensures
        r == stands_at(s@, i as int, word_false()),
{
    if s.len() - i < 5 {
        return false;
    }
    let r = s[i] == 0x66 && s[i + 1] == 0x61 && s[i + 2] == 0x6c && s[i + 3] == 0x73 && s[i + 4]
        == 0x65;
    proof {
        let part = s@.subrange(i as int, i + 5);
        if r {
            assert(part =~= word_false());
        } else {
            assert(part[0] == s@[i as int]);
            assert(part[1] == s@[i + 1]);
            assert(part[2] == s@[i + 2]);
            assert(part[3] == s@[i + 3]);
            assert(part[4] == s@[i + 4]);
        }
    }
    r
}

/// Reads the value that starts at `i`.
pub fn read_value(s: &[u8], i: usize) -> (r: Option<(FieldValue, usize)>)
    requires
        i <= s@.len(),
    ensures
        match r {
            Some((value, end)) => parse_value(s@, i as int) == Some((value@, end as int)) && end
                <= s@.len(),
            None => parse_value(s@, i as int) is None,
        },
{
    if byte_at(s, i, QUOTE) {
        match read_text(s, i) {
            Some((text, end)) => Some((FieldValue::Text(text), end)),
            None => None,
        }
    } else if reads_true(s, i) {
        Some((FieldValue::Flag(true), i + 4))
    } else if reads_false(s, i) {
        Some((FieldValue::Flag(false), i + 5))
    } else {
        match read_number(s, i) {
            Some((n, end)) => Some((FieldValue::Number(n), end)),
            None => None,
        }
    }
}

/// Reads the field that starts at `i`.
pub fn read_member(s: &[u8], i: usize) -> (r: Option<(Field, usize)>)
    requires
        i <= s@.len(),
    ensures
        match r {
            Some((field, end)) => parse_member(s@, i as int) == Some((field@, end as int)) && i
                < end <= s@.len(),
            None => parse_member(s@, i as int) is None,
        },
{
    proof {
        lemma_parse_bounds(s@, i as int);
    }
    match read_text(s, i) {
        None => None,
        Some((name, e)) => {
            let c = scan(s, e, ByteClass::Space);
            if !byte_at(s, c, COLON) {
                return None;
            }
            let v = scan(s, c + 1, ByteClass::Space);
            match read_value(s, v) {
                Some((value, end)) => Some((Field { name, value }, end)),
                None => None,
            }
        },
    }
}

/// Whether a field of `fields` is named `name`.
pub fn names(fields: &Vec<Field>, name: &[u8]) -> (r: bool)
    ensures
        r == has_name(fields_view(fields@), name@),
{
    let mut i: usize = 0;
    while i < fields.len()
        invariant
            i <= fields@.len(),
            forall|j: int| 0 <= j < i ==> (#[trigger] fields_view(fields@)[j]).name != name@,
        decreases fields@.len() - i,
    {
        if same_bytes(fields[i].name.as_slice(), name) {
            assert(fields_view(fields@)[i as int].name == name@);
            return true;
        }
        i += 1;
    }
    false
}

/// Reads the fields from `start` to the closing brace.
pub fn read_members(s: &[u8], start: usize) -> (r: Option<(Vec<Field>, usize)>)
    requires
        start <= s@.len(),
    ensures
        match r {
            Some((fields, end)) => parse_members(s@, start as int, Seq::empty()) == Some(
                (fields_view(fields@), end as int),
            ) && end <= s@.len(),
            None => parse_members(s@, start as int, Seq::empty()) is None,
        },
{
    let mut seen: Vec<Field> = Vec::new();
    let mut i: usize = start;
    assert(fields_view(seen@) =~= Seq::empty());
    loop
        invariant
            i <= s@.len(),
            parse_members(s@, start as int, Seq::empty()) == parse_members(
                s@,
                i as int,
                fields_view(seen@),
            ),
        decreases s@.len() - i,
    {
        match read_member(s, i) {
            None => {
                return None;
            },
            Some((field, e)) => {
                if names(&seen, field.name.as_slice()) {
                    return None;
                }
                proof {
                    assert(fields_view(seen@.push(field)) =~= fields_view(seen@).push(field@));
                }
                seen.push(field);
                let c = scan(s, e, ByteClass::Space);
                if byte_at(s, c, COMMA) {
                    i = scan(s, c + 1, ByteClass::Space);
                } else if byte_at(s, c, CLOSE) {
                    return Some((seen, c + 1));
                } else {
                    return None;
                }
            },
        }
    }
}

/// Reads the record that `s` is.
pub fn read_record(s: &[u8]) -> (r: Option<Vec<Field>>)
    ensures
        match r {
            Some(fields) => parse_record(s@) == Some(fields_view(fields@)),
            None => parse_record(s@) is None,
        },
{
    let o = scan(s, 0, ByteClass::Space);
    if !byte_at(s, o, OPEN) {
        return None;
    }
    let m = scan(s, o + 1, ByteClass::Space);
    if byte_at(s, m, CLOSE) {
        let e = scan(s, m + 1, ByteClass::Space);
        if e == s.len() {
            let fields: Vec<Field> = Vec::new();
            assert(fields_view(fields@) =~= Seq::empty());
            Some(fields)
        } else {
            None
        }
    } else {
        match read_members(s, m) {
            Some((fields, end)) => {
                let e = scan(s, end, ByteClass::Space);
                if e == s.len() {
                    Some(fields)
                } else {
                    None
                }
            },
            None => None,
        }
    }
}

} // verus!
