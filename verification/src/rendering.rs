//! The notation the other way round: how a record is written out, and the
//! law that what is written out is read back as it was.

use vstd::prelude::*;

use crate::notation::{
    digits_value, distinct_names, has_name, parse_member, parse_members, parse_number,
    parse_record, parse_text, parse_value, run_end, stands_at, word_false, word_true, ByteClass,
    FieldValueView, FieldView, CLOSE, COLON, COMMA, OPEN, QUOTE, ZERO,
};

verus! {

/// The digits of `n` in decimal, without leading zeros.
pub open spec fn decimal_bytes(n: nat) -> Seq<u8>
    decreases n,
{
    if n < 10 {
        seq![(ZERO + n) as u8]
    } else {
        decimal_bytes(n / 10).push((ZERO + n % 10) as u8)
    }
}

/// The bytes `text` between double quotes.
pub open spec fn quoted(text: Seq<u8>) -> Seq<u8> {
    seq![QUOTE] + text + seq![QUOTE]
}

/// A value as it is written out.
pub open spec fn render_value(value: FieldValueView) -> Seq<u8> {
    match value {
        FieldValueView::Text(t) => quoted(t),
        FieldValueView::Number(n) => decimal_bytes(n as nat),
        FieldValueView::Flag(b) => if b {
            word_true()
        } else {
            word_false()
        },
    }
}

/// A field as it is written out: the name, a colon, the value.
pub open spec fn render_member(field: FieldView) -> Seq<u8> {
    quoted(field.name) + seq![COLON] + render_value(field.value)
}

/// Fields as they are written out, with commas between them.
pub open spec fn render_members(fields: Seq<FieldView>) -> Seq<u8>
    decreases fields.len(),
{
    if fields.len() == 0 {
        Seq::empty()
    } else if fields.len() == 1 {
        render_member(fields[0])
    } else {
        render_member(fields[0]) + seq![COMMA] + render_members(fields.drop_first())
    }
}

/// A record as it is written out: its fields between braces, without any
/// white space.
pub open spec fn render(fields: Seq<FieldView>) -> Seq<u8> {
    seq![OPEN] + render_members(fields) + seq![CLOSE]
}

/// Every byte of `text` may stand inside a text.
pub open spec fn is_plain(text: Seq<u8>) -> bool {
    forall|j: int| 0 <= j < text.len() ==> ByteClass::Plain.holds(#[trigger] text[j])
}

/// The name of `field`, and its value if that is a text, hold plain bytes
/// only.
pub open spec fn is_writable(field: FieldView) -> bool {
    &&& is_plain(field.name)
    &&& field.value matches FieldValueView::Text(t) ==> is_plain(t)
}

/// Every field of `fields` can be written out.
pub open spec fn all_writable(fields: Seq<FieldView>) -> bool {
    forall|k: int| 0 <= k < fields.len() ==> is_writable(#[trigger] fields[k])
}

/// The bytes `x` stand in `s` from position `i` on.
pub open spec fn occurs_at(s: Seq<u8>, i: int, x: Seq<u8>) -> bool {
    &&& 0 <= i
    &&& i + x.len() <= s.len()
    &&& forall|j: int| 0 <= j < x.len() ==> #[trigger] x[j] == s[i + j]
}

proof fn lemma_occurs_split(s: Seq<u8>, i: int, a: Seq<u8>, b: Seq<u8>)
    ensures
        occurs_at(s, i, a + b) <==> (occurs_at(s, i, a) && occurs_at(s, i + a.len(), b)),
{
    if occurs_at(s, i, a + b) {
        assert forall|j: int| 0 <= j < a.len() implies #[trigger] a[j] == s[i + j] by {
            assert((a + b)[j] == a[j]);
        }
        assert forall|j: int| 0 <= j < b.len() implies #[trigger] b[j] == s[i + a.len() + j] by {
            assert((a + b)[a.len() + j] == b[j]);
        }
    }
    if occurs_at(s, i, a) && occurs_at(s, i + a.len(), b) {
        assert forall|j: int| 0 <= j < (a + b).len() implies #[trigger] (a + b)[j] == s[i + j] by {
            if j < a.len() {
                assert(a[j] == s[i + j]);
            } else {
                assert(b[j - a.len()] == s[i + a.len() + (j - a.len())]);
            }
        }
    }
}

proof fn lemma_occurs_subrange(s: Seq<u8>, i: int, x: Seq<u8>)
    requires
        occurs_at(s, i, x),
    ensures
        s.subrange(i, i + x.len()) == x,
{
    assert forall|j: int| 0 <= j < x.len() implies s.subrange(i, i + x.len())[j] == x[j] by {
        assert(x[j] == s[i + j]);
    }
    assert(s.subrange(i, i + x.len()) =~= x);
}

proof fn lemma_run(s: Seq<u8>, i: int, k: int, class: ByteClass)
    requires
        0 <= i,
        0 <= k,
        i + k <= s.len(),
        forall|j: int| i <= j < i + k ==> class.holds(#[trigger] s[j]),
        i + k < s.len() ==> !class.holds(s[i + k]),
    ensures
        run_end(s, i, class) == i + k,
    decreases k,
{
    if k > 0 {
        assert(class.holds(s[i]));
        lemma_run(s, i + 1, k - 1, class);
    }
}

proof fn lemma_text(s: Seq<u8>, i: int, text: Seq<u8>)
    requires
        is_plain(text),
        occurs_at(s, i, quoted(text)),
    ensures
        parse_text(s, i) == Some((text, i + text.len() + 2)),
{
    let q = quoted(text);
    assert(q[0] == QUOTE);
    assert(q[text.len() as int + 1] == QUOTE);
    assert(s[i] == QUOTE);
    assert(s[i + text.len() + 1] == QUOTE);
    assert forall|j: int| i + 1 <= j < i + 1 + text.len() implies ByteClass::Plain.holds(
        #[trigger] s[j],
    ) by {
        assert(q[j - i] == s[i + (j - i)]);
        assert(q[j - i] == text[j - i - 1]);
    }
    lemma_run(s, i + 1, text.len() as int, ByteClass::Plain);
    assert forall|j: int| 0 <= j < text.len() implies s.subrange(i + 1, i + 1 + text.len())[j]
        == text[j] by {
        assert(q[j + 1] == s[i + (j + 1)]);
    }
    assert(s.subrange(i + 1, i + 1 + text.len()) =~= text);
}

/// A decimal numeral is a run of digits, starts with a zero only if it is
/// the numeral of zero, and stands for its number.
pub proof fn lemma_decimal_bytes(n: nat)
    ensures
        decimal_bytes(n).len() >= 1,
        forall|j: int|
            0 <= j < decimal_bytes(n).len() ==> ByteClass::Digit.holds(
                #[trigger] decimal_bytes(n)[j],
            ),
        n >= 1 ==> decimal_bytes(n)[0] != ZERO,
        n == 0 ==> decimal_bytes(n).len() == 1,
        digits_value(decimal_bytes(n)) == n,
    decreases n,
{
    let d = decimal_bytes(n);
    if n < 10 {
        assert(d.len() == 1);
        assert(d[0] == (ZERO + n) as u8);
        assert(d.drop_last() =~= Seq::<u8>::empty());
        assert(digits_value(d.drop_last()) == 0);
        assert(d.last() == d[0]);
    } else {
        let front = decimal_bytes(n / 10);
        lemma_decimal_bytes(n / 10);
        assert(d.drop_last() =~= front);
        assert(d.last() == (ZERO + n % 10) as u8);
        assert(d[0] == front[0]);
        assert forall|j: int| 0 <= j < d.len() implies ByteClass::Digit.holds(#[trigger] d[j]) by {
            if j < front.len() {
                assert(d[j] == front[j]);
            }
        }
    }
}

proof fn lemma_number(s: Seq<u8>, i: int, n: u64)
    requires
        occurs_at(s, i, decimal_bytes(n as nat)),
        i + decimal_bytes(n as nat).len() < s.len() ==> !ByteClass::Digit.holds(
            s[i + decimal_bytes(n as nat).len()],
        ),
    ensures
        parse_number(s, i) == Some((n, i + decimal_bytes(n as nat).len())),
{
    let d = decimal_bytes(n as nat);
    lemma_decimal_bytes(n as nat);
    assert forall|j: int| i <= j < i + d.len() implies ByteClass::Digit.holds(#[trigger] s[j]) by {
        assert(d[j - i] == s[i + (j - i)]);
    }
    lemma_run(s, i, d.len() as int, ByteClass::Digit);
    lemma_occurs_subrange(s, i, d);
    assert(d[0] == s[i + 0]);
}

proof fn lemma_value_starts(value: FieldValueView)
    ensures
        render_value(value).len() >= 1,
        !ByteClass::Space.holds(render_value(value)[0]),
{
    match value {
        FieldValueView::Text(t) => {
            assert(quoted(t)[0] == QUOTE);
        },
        FieldValueView::Number(n) => {
            lemma_decimal_bytes(n as nat);
            assert(ByteClass::Digit.holds(decimal_bytes(n as nat)[0]));
        },
        FieldValueView::Flag(b) => {},
    }
}

proof fn lemma_value(s: Seq<u8>, i: int, value: FieldValueView)
    requires
        value matches FieldValueView::Text(t) ==> is_plain(t),
        occurs_at(s, i, render_value(value)),
        i + render_value(value).len() < s.len(),
        s[i + render_value(value).len()] == COMMA || s[i + render_value(value).len()] == CLOSE,
    ensures
        parse_value(s, i) == Some((value, i + render_value(value).len())),
{
    let r = render_value(value);
    lemma_value_starts(value);
    assert(r[0] == s[i + 0]);
    match value {
        FieldValueView::Text(t) => {
            lemma_text(s, i, t);
        },
        FieldValueView::Number(n) => {
            lemma_decimal_bytes(n as nat);
            assert(ByteClass::Digit.holds(r[0]));
            if stands_at(s, i, word_true()) {
                assert(s.subrange(i, i + 4)[0] == word_true()[0]);
            }
            if stands_at(s, i, word_false()) {
                assert(s.subrange(i, i + 5)[0] == word_false()[0]);
            }
            lemma_number(s, i, n);
        },
        FieldValueView::Flag(b) => {
            lemma_occurs_subrange(s, i, r);
            if !b {
                if stands_at(s, i, word_true()) {
                    assert(s.subrange(i, i + 4)[0] == word_true()[0]);
                }
            }
        },
    }
}

proof fn lemma_member(s: Seq<u8>, i: int, field: FieldView)
    requires
        is_writable(field),
        occurs_at(s, i, render_member(field)),
        i + render_member(field).len() < s.len(),
        s[i + render_member(field).len()] == COMMA || s[i + render_member(field).len()]
            == CLOSE,
    ensures
        parse_member(s, i) == Some((field, i + render_member(field).len())),
{
    let name = quoted(field.name);
    let value = render_value(field.value);
    lemma_occurs_split(s, i, name + seq![COLON], value);
    lemma_occurs_split(s, i, name, seq![COLON]);
    lemma_text(s, i, field.name);
    let e = i + name.len();
    assert(seq![COLON][0] == s[e + 0]);
    lemma_run(s, e, 0, ByteClass::Space);
    lemma_value_starts(field.value);
    assert(value[0] == s[e + 1 + 0]);
    lemma_run(s, e + 1, 0, ByteClass::Space);
    lemma_value(s, e + 1, field.value);
}

proof fn lemma_members_start(fields: Seq<FieldView>)
    requires
        fields.len() >= 1,
    ensures
        render_members(fields).len() >= 1,
        render_members(fields)[0] == QUOTE,
{
    let m = render_member(fields[0]);
    assert(m[0] == QUOTE);
}

proof fn lemma_members(s: Seq<u8>, i: int, fields: Seq<FieldView>, seen: Seq<FieldView>)
    requires
        fields.len() >= 1,
        all_writable(fields),
        distinct_names(seen + fields),
        occurs_at(s, i, render_members(fields)),
        i + render_members(fields).len() < s.len(),
        s[i + render_members(fields).len()] == CLOSE,
    ensures
        parse_members(s, i, seen) == Some(
            (seen + fields, i + render_members(fields).len() + 1),
        ),
    decreases fields.len(),
{
    let first = fields[0];
    let member = render_member(first);
    let all = seen + fields;
    assert(is_writable(first));
    assert(!has_name(seen, first.name)) by {
        if has_name(seen, first.name) {
            let k = choose|k: int| 0 <= k < seen.len() && #[trigger] seen[k].name == first.name;
            assert(all[k] == seen[k]);
            assert(all[seen.len() as int] == first);
            assert(all[k].name != all[seen.len() as int].name);
        }
    }
    let e = i + member.len();
    if fields.len() == 1 {
        lemma_member(s, i, first);
        lemma_run(s, e, 0, ByteClass::Space);
        assert(seen.push(first) =~= seen + fields);
    } else {
        let rest = fields.drop_first();
        let tail = render_members(rest);
        lemma_occurs_split(s, i, member + seq![COMMA], tail);
        lemma_occurs_split(s, i, member, seq![COMMA]);
        assert(seq![COMMA][0] == s[e + 0]);
        lemma_member(s, i, first);
        lemma_run(s, e, 0, ByteClass::Space);
        lemma_members_start(rest);
        assert(tail[0] == s[e + 1 + 0]);
        lemma_run(s, e + 1, 0, ByteClass::Space);
        let next = seen.push(first);
        assert(next + rest =~= seen + fields);
        assert(all_writable(rest)) by {
            assert forall|k: int| 0 <= k < rest.len() implies is_writable(#[trigger] rest[k]) by {
                assert(rest[k] == fields[k + 1]);
            }
        }
        lemma_members(s, e + 1, rest, next);
    }
}

/// What is written out is read back as it was: a record whose names are
/// distinct and whose names and texts hold plain bytes only is the record
/// that its rendering is read as.
pub proof fn lemma_read_what_was_written(fields: Seq<FieldView>)
    requires
        distinct_names(fields),
        all_writable(fields),
    ensures
        parse_record(render(fields)) == Some(fields),
{
    let body = render_members(fields);
    let s = render(fields);
    assert(s[0] == OPEN);
    assert(s[body.len() as int + 1] == CLOSE);
    lemma_run(s, 0, 0, ByteClass::Space);
    if fields.len() == 0 {
        lemma_run(s, 1, 0, ByteClass::Space);
        lemma_run(s, 2, 0, ByteClass::Space);
        assert(fields =~= Seq::empty());
    } else {
        lemma_members_start(fields);
        assert(s[1] == body[0]);
        lemma_run(s, 1, 0, ByteClass::Space);
        assert(occurs_at(s, 1, body)) by {
            assert forall|j: int| 0 <= j < body.len() implies #[trigger] body[j] == s[1 + j] by {}
        }
        assert(Seq::<FieldView>::empty() + fields =~= fields);
        lemma_members(s, 1, fields, Seq::empty());
        lemma_run(s, body.len() as int + 2, 0, ByteClass::Space);
    }
}

} // verus!
