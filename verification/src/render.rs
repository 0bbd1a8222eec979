//! Serialization of the attribution list as pretty-printed JSON.
//!
//! The output is a JSON array with one object per record, two-space
//! indentation, the five fields in a fixed order, and `null` for a field
//! whose metadata was never set. String content is escaped as JSON asks:
//! quote, backslash, and the control characters, the latter with their
//! short forms where JSON has one and `\u00` plus two hex digits
//! otherwise. The whole document is pinned down, character by character,
//! by `spec_attribution_json`.

use vstd::prelude::*;
use vstd::string::*;
use crate::report::{DependencyRecord, RecordView};

verus! {

/// The lower-case hex digit for a value below sixteen.
pub open spec fn spec_hex_digit(v: u32) -> char {
    if v == 0 {
        '0'
    } else if v == 1 {
        '1'
    } else if v == 2 {
        '2'
    } else if v == 3 {
        '3'
    } else if v == 4 {
        '4'
    } else if v == 5 {
        '5'
    } else if v == 6 {
        '6'
    } else if v == 7 {
        '7'
    } else if v == 8 {
        '8'
    } else if v == 9 {
        '9'
    } else if v == 10 {
        'a'
    } else if v == 11 {
        'b'
    } else if v == 12 {
        'c'
    } else if v == 13 {
        'd'
    } else if v == 14 {
        'e'
    } else {
        'f'
    }
}

fn hex_digit(v: u32) -> (c: char)
    requires
        v < 16,
    ensures
        c == spec_hex_digit(v),
{
    if v == 0 {
        '0'
    } else if v == 1 {
        '1'
    } else if v == 2 {
        '2'
    } else if v == 3 {
        '3'
    } else if v == 4 {
        '4'
    } else if v == 5 {
        '5'
    } else if v == 6 {
        '6'
    } else if v == 7 {
        '7'
    } else if v == 8 {
        '8'
    } else if v == 9 {
        '9'
    } else if v == 10 {
        'a'
    } else if v == 11 {
        'b'
    } else if v == 12 {
        'c'
    } else if v == 13 {
        'd'
    } else if v == 14 {
        'e'
    } else {
        'f'
    }
}

/// How one character appears inside a JSON string literal.
pub open spec fn spec_escape_char(c: char) -> Seq<char> {
    if c == '"' {
        "\\\""@
    } else if c == '\\' {
        "\\\\"@
    } else if c == '\u{8}' {
        "\\b"@
    } else if c == '\t' {
        "\\t"@
    } else if c == '\n' {
        "\\n"@
    } else if c == '\u{c}' {
        "\\f"@
    } else if c == '\r' {
        "\\r"@
    } else if (c as u32) < 32 {
        "\\u00"@ + seq![spec_hex_digit((c as u32) / 16), spec_hex_digit((c as u32) % 16)]
    } else {
        seq![c]
    }
}

/// A text with every character escaped for a JSON string literal.
pub open spec fn spec_escape(s: Seq<char>) -> Seq<char>
    decreases s.len(),
{
    if s.len() == 0 {
        Seq::empty()
    } else {
        spec_escape(s.drop_last()) + spec_escape_char(s.last())
    }
}

/// A JSON string literal: the escaped text between quotes.
pub open spec fn spec_quoted(s: Seq<char>) -> Seq<char> {
    seq!['"'] + spec_escape(s) + seq!['"']
}

/// An optional field's value: a JSON string literal, or `null` when unset.
pub open spec fn spec_opt_value(v: Option<Seq<char>>) -> Seq<char> {
    match v {
        Some(s) => spec_quoted(s),
        None => "null"@,
    }
}

/// One record as a pretty-printed JSON object, indented for its place
/// inside the array.
pub open spec fn spec_record_json(r: RecordView) -> Seq<char> {
    "  {\n    \"name\": "@ + spec_quoted(r.name) + ",\n    \"version\": "@ + spec_quoted(r.version)
        + ",\n    \"description\": "@ + spec_opt_value(r.description) + ",\n    \"url\": "@
        + spec_opt_value(r.url) + ",\n    \"license\": "@ + spec_opt_value(r.license) + "\n  }"@
}

/// The records' objects joined by a comma and a line break.
pub open spec fn spec_joined_records(rs: Seq<RecordView>) -> Seq<char>
    decreases rs.len(),
{
    if rs.len() == 0 {
        Seq::empty()
    } else if rs.len() == 1 {
        spec_record_json(rs[0])
    } else {
        spec_joined_records(rs.drop_last()) + ",\n"@ + spec_record_json(rs.last())
    }
}

/// The whole document: an empty array stays on one line, a non-empty one
/// holds one object per record.
pub open spec fn spec_attribution_json(rs: Seq<RecordView>) -> Seq<char> {
    if rs.len() == 0 {
        "[]"@
    } else {
        "[\n"@ + spec_joined_records(rs) + "\n]"@
    }
}

/// Relies on String::push: appends exactly the one character to the end.
#[verifier::external_body]
fn push_char(out: &mut String, c: char)
    ensures
        final(out)@ == old(out)@ + seq![c],
{
    out.push(c);
}

fn append_escaped_char(out: &mut String, c: char)
    ensures
        final(out)@ == old(out)@ + spec_escape_char(c),
{
    if c == '"' {
        out.append("\\\"");
    } else if c == '\\' {
        out.append("\\\\");
    } else if c == '\u{8}' {
        out.append("\\b");
    } else if c == '\t' {
        out.append("\\t");
    } else if c == '\n' {
        out.append("\\n");
    } else if c == '\u{c}' {
        out.append("\\f");
    } else if c == '\r' {
        out.append("\\r");
    } else {
        let v = c as u32;
        if v < 32 {
            out.append("\\u00");
            push_char(out, hex_digit(v / 16));
            push_char(out, hex_digit(v % 16));
            proof {
                assert(out@ =~= old(out)@ + spec_escape_char(c));
            }
        } else {
            push_char(out, c);
        }
    }
}

fn append_escaped(out: &mut String, s: &str)
    ensures
        final(out)@ == old(out)@ + spec_escape(s@),
{
    let n = s.unicode_len();
    let mut i: usize = 0;
    proof {
        assert(old(out)@ + spec_escape(s@.take(0)) =~= old(out)@);
    }
    while i < n
        invariant
            n == s@.len(),
            i <= n,
            out@ == old(out)@ + spec_escape(s@.take(i as int)),
        decreases n - i,
    {
        let c = s.get_char(i);
        append_escaped_char(out, c);
        i += 1;
        proof {
            assert(s@.take(i as int).drop_last() =~= s@.take(i as int - 1));
            assert(out@ =~= old(out)@ + spec_escape(s@.take(i as int)));
        }
    }
    proof {
        assert(s@.take(n as int) =~= s@);
    }
}

fn append_quoted(out: &mut String, s: &str)
    ensures
        final(out)@ == old(out)@ + spec_quoted(s@),
{
    push_char(out, '"');
    append_escaped(out, s);
    push_char(out, '"');
    proof {
        assert(out@ =~= old(out)@ + spec_quoted(s@));
    }
}

fn append_opt_value(out: &mut String, v: &Option<String>)
    ensures
        final(out)@ == old(out)@ + spec_opt_value(v.deep_view()),
{
    match v {
        Some(s) => append_quoted(out, s.as_str()),
        None => out.append("null"),
    }
}

fn append_record(out: &mut String, rec: &DependencyRecord)
    ensures
        final(out)@ == old(out)@ + spec_record_json(rec.deep_view()),
{
    out.append("  {\n    \"name\": ");
    append_quoted(out, rec.name.as_str());
    out.append(",\n    \"version\": ");
    append_quoted(out, rec.version.as_str());
    out.append(",\n    \"description\": ");
    append_opt_value(out, &rec.description);
    out.append(",\n    \"url\": ");
    append_opt_value(out, &rec.url);
    out.append(",\n    \"license\": ");
    append_opt_value(out, &rec.license);
    out.append("\n  }");
    proof {
        assert(out@ =~= old(out)@ + spec_record_json(rec.deep_view()));
    }
}

/// Serializes the attribution list exactly as `spec_attribution_json`
/// describes it.
pub fn render_attribution_list(records: &Vec<DependencyRecord>) -> (r: String)
    ensures
        r@ == spec_attribution_json(records.deep_view()),
{
    if records.len() == 0 {
        return String::from_str("[]");
    }
    let mut out = String::from_str("[\n");
    let mut i: usize = 0;
    while i < records.len()
        invariant
            0 < records@.len(),
            i <= records@.len(),
            i == 0 ==> out@ == "[\n"@,
            0 < i ==> out@ == "[\n"@ + spec_joined_records(records.deep_view().take(i as int)),
        decreases records@.len() - i,
    {
        if i > 0 {
            out.append(",\n");
        }
        append_record(&mut out, &records[i]);
        i += 1;
        proof {
            let rvs = records.deep_view();
            assert(rvs.take(i as int).drop_last() =~= rvs.take(i as int - 1));
            assert(out@ =~= "[\n"@ + spec_joined_records(rvs.take(i as int)));
        }
    }
    out.append("\n]");
    proof {
        assert(records.deep_view().take(records@.len() as int) =~= records.deep_view());
        assert(out@ =~= "[\n"@ + spec_joined_records(records.deep_view()) + "\n]"@);
    }
    out
}

} // verus!
