//! JSON output.

use vstd::prelude::*;

use super::{file_name_for, file_name_view, OutputMetadata};
use crate::config::pipeline::OutputConfig;
use crate::query::sparql::{QueryOutput, QueryResultsData, ResultsView};
use crate::text::{bool_string, bool_text, concat_all, decimal, decimal_text, joined, push_char};

verus! {

/// The lowercase hexadecimal digit of `d` (below 16).
pub open spec fn hex_digit(d: int) -> char {
    if d == 0 { '0' } else if d == 1 { '1' } else if d == 2 { '2' } else if d == 3 { '3' }
    else if d == 4 { '4' } else if d == 5 { '5' } else if d == 6 { '6' } else if d == 7 { '7' }
    else if d == 8 { '8' } else if d == 9 { '9' } else if d == 10 { 'a' } else if d == 11 { 'b' }
    else if d == 12 { 'c' } else if d == 13 { 'd' } else if d == 14 { 'e' } else { 'f' }
}

/// The value of a hexadecimal digit (either case); `None` for another
/// character.
pub open spec fn hex_value(c: char) -> Option<int> {
    if '0' <= c && c <= '9' {
        Some(c as int - '0' as int)
    } else if 'a' <= c && c <= 'f' {
        Some(c as int - 'a' as int + 10)
    } else if 'A' <= c && c <= 'F' {
        Some(c as int - 'A' as int + 10)
    } else {
        None
    }
}

/// How a character is written inside a JSON string: `\"` and `\\` for a
/// quote and a backslash, `\n`, `\r` and `\t` for those controls,
/// `\u00XX` for every other character below U+0020, the character itself
/// otherwise.
pub open spec fn json_char_escape(c: char) -> Seq<char> {
    if c == '"' || c == '\\' {
        seq!['\\', c]
    } else if c == '\n' {
        seq!['\\', 'n']
    } else if c == '\r' {
        seq!['\\', 'r']
    } else if c == '\t' {
        seq!['\\', 't']
    } else if (c as int) < 0x20 {
        seq!['\\', 'u', '0', '0', hex_digit(c as int / 16), hex_digit(c as int % 16)]
    } else {
        seq![c]
    }
}

/// A value escaped for a JSON string, character by character.
pub open spec fn json_escaped(s: Seq<char>) -> Seq<char>
    decreases s.len(),
{
    if s.len() == 0 {
        Seq::empty()
    } else {
        json_escaped(s.drop_last()) + json_char_escape(s.last())
    }
}

/// The text of a JSON string read back, as a JSON parser reads it: `\"`,
/// `\\`, `\/`, `\n`, `\r`, `\t`, `\b`, `\f` and `\uXXXX` stand for one
/// character each; any other character stands for itself.
pub open spec fn json_unescaped(e: Seq<char>) -> Seq<char>
    decreases e.len(),
{
    if e.len() == 0 {
        Seq::empty()
    } else if e[0] == '\\' && e.len() >= 2 {
        let c = e[1];
        if c == '"' || c == '\\' || c == '/' {
            seq![c] + json_unescaped(e.subrange(2, e.len() as int))
        } else if c == 'n' {
            seq!['\n'] + json_unescaped(e.subrange(2, e.len() as int))
        } else if c == 'r' {
            seq!['\r'] + json_unescaped(e.subrange(2, e.len() as int))
        } else if c == 't' {
            seq!['\t'] + json_unescaped(e.subrange(2, e.len() as int))
        } else if c == 'b' {
            seq!['\x08'] + json_unescaped(e.subrange(2, e.len() as int))
        } else if c == 'f' {
            seq!['\x0c'] + json_unescaped(e.subrange(2, e.len() as int))
        } else if c == 'u' && e.len() >= 6 && hex_value(e[2]) is Some && hex_value(e[3]) is Some
            && hex_value(e[4]) is Some && hex_value(e[5]) is Some {
            let code = hex_value(e[2])->0 * 4096 + hex_value(e[3])->0 * 256 + hex_value(e[4])->0 * 16
                + hex_value(e[5])->0;
            seq![code as char] + json_unescaped(e.subrange(6, e.len() as int))
        } else {
            seq![e[0]] + json_unescaped(e.drop_first())
        }
    } else {
        seq![e[0]] + json_unescaped(e.drop_first())
    }
}

/// Escaping reads from the front as well: the first character's escape,
/// then the rest escaped.
proof fn lemma_json_escaped_front(s: Seq<char>)
    requires
        s.len() > 0,
    ensures
        json_escaped(s) == json_char_escape(s[0]) + json_escaped(s.drop_first()),
    decreases s.len(),
{
    if s.len() > 1 {
        lemma_json_escaped_front(s.drop_last());
        assert(s.drop_last().drop_first() =~= s.drop_first().drop_last());
        assert(s.drop_last()[0] == s[0]);
        assert(s.drop_first().last() == s.last());
    } else {
        assert(s.drop_first() =~= Seq::<char>::empty());
        assert(s.drop_last() =~= Seq::<char>::empty());
    }
}

/// Reading back a character's escape followed by more text gives the
/// character followed by that text read back.
proof fn lemma_json_char_reads_back(c: char, t: Seq<char>)
    ensures
        json_unescaped(json_char_escape(c) + t) == seq![c] + json_unescaped(t),
{
    let x = json_char_escape(c);
    let e = x + t;
    if c == '"' || c == '\\' || c == '\n' || c == '\r' || c == '\t' {
        assert(e.subrange(2, e.len() as int) =~= t);
    } else if (c as int) < 0x20 {
        let code = c as int;
        assert(code / 16 == 0 || code / 16 == 1);
        assert(hex_value(e[4]) == Some(code / 16));
        assert(hex_value(e[5]) == Some(code % 16));
        assert(e.subrange(6, e.len() as int) =~= t);
        assert((code as char) == c);
    } else {
        assert(e[0] == c);
        assert(e.drop_first() =~= t);
    }
}

/// Escaping a value for a JSON string loses nothing: a JSON parser reads
/// the escaped text back as the value.
pub proof fn law_json_escape_reads_back(s: Seq<char>)
    ensures
        json_unescaped(json_escaped(s)) == s,
    decreases s.len(),
{
    if s.len() > 0 {
        lemma_json_escaped_front(s);
        law_json_escape_reads_back(s.drop_first());
        lemma_json_char_reads_back(s[0], json_escaped(s.drop_first()));
        assert(seq![s[0]] + s.drop_first() =~= s);
    }
}

/// Escaping leaves no control character (below U+0020) and no unescaped
/// quote in the text, so the string stays one valid JSON string.
pub proof fn law_json_escape_has_no_controls(s: Seq<char>)
    ensures
        forall|i: int| 0 <= i < json_escaped(s).len() ==> (json_escaped(s)[i] as int) >= 0x20,
    decreases s.len(),
{
    if s.len() > 0 {
        law_json_escape_has_no_controls(s.drop_last());
        let p = json_escaped(s.drop_last());
        let x = json_char_escape(s.last());
        assert forall|i: int| 0 <= i < x.len() implies (x[i] as int) >= 0x20 by {
            let c = s.last();
            if (c as int) < 0x20 && c != '\n' && c != '\r' && c != '\t' {
                let d = c as int % 16;
                assert(0 <= d < 16);
            }
        }
        assert forall|i: int| 0 <= i < json_escaped(s).len() implies (json_escaped(s)[i] as int) >= 0x20 by {
            if i < p.len() {
                assert(json_escaped(s)[i] == p[i]);
            } else {
                assert(json_escaped(s)[i] == x[i - p.len()]);
            }
        }
    }
}

/// Different values escape differently.
pub proof fn law_json_escape_injective(a: Seq<char>, b: Seq<char>)
    requires
        json_escaped(a) == json_escaped(b),
    ensures
        a == b,
{
    law_json_escape_reads_back(a);
    law_json_escape_reads_back(b);
}

/// A list of names as a JSON array of strings: `[`, the quoted escaped
/// names separated by `, `, `]`.
pub open spec fn json_string_list(items: Seq<Seq<char>>) -> Seq<char> {
    "["@ + joined(items.map_values(|s: Seq<char>| "\""@ + json_escaped(s) + "\""@), ", "@) + "]"@
}

/// `"var": "value"`, both escaped.
pub open spec fn json_pair(var: Seq<char>, value: Seq<char>) -> Seq<char> {
    "\""@ + json_escaped(var) + "\": \""@ + json_escaped(value) + "\""@
}

/// The smaller of two lengths.
pub open spec fn shorter(a: nat, b: nat) -> nat {
    if a < b {
        a
    } else {
        b
    }
}

/// The object of one row: the variables paired with the row's values (as
/// far as both go), then a comma unless it is the last row.
pub open spec fn json_row(variables: Seq<Seq<char>>, row: Seq<Seq<char>>, last: bool) -> Seq<char> {
    let pairs = Seq::new(shorter(variables.len(), row.len()), |j: int| json_pair(variables[j], row[j]));
    "    {"@ + joined(pairs, ", "@) + (if last {
        "}\n"@
    } else {
        "},\n"@
    })
}

/// The object of one triple, then a comma unless it is the last.
pub open spec fn json_triple(t: (Seq<char>, Seq<char>, Seq<char>), last: bool) -> Seq<char> {
    "    {\"subject\": \""@ + json_escaped(t.0) + "\", \"predicate\": \""@ + json_escaped(t.1)
        + "\", \"object\": \""@ + json_escaped(t.2) + "\"}"@ + (if last {
        "\n"@
    } else {
        ",\n"@
    })
}

/// The JSON text of the results, with the given count.
pub open spec fn json_text(results: ResultsView, count: nat) -> Seq<char> {
    match results {
        ResultsView::Solutions { variables, rows } => "{\n  \"type\": \"solutions\",\n  \"variables\": "@
            + json_string_list(variables) + ",\n  \"results\": [\n"@ + concat_all(
            Seq::new(rows.len(), |i: int| json_row(variables, rows[i], i == rows.len() - 1)),
        ) + "  ],\n  \"count\": "@ + decimal(count) + "\n}\n"@,
        ResultsView::Boolean(b) => "{\n  \"type\": \"boolean\",\n  \"result\": "@ + bool_text(b) + "\n}\n"@,
        ResultsView::Graph { triples } => "{\n  \"type\": \"graph\",\n  \"triples\": [\n"@ + concat_all(
            Seq::new(triples.len(), |i: int| json_triple(triples[i], i == triples.len() - 1)),
        ) + "  ],\n  \"count\": "@ + decimal(count) + "\n}\n"@,
    }
}

/// The hexadecimal digit of `d` (below 16).
fn hex_char(d: u32) -> (r: char)
    requires
        d < 16,
    ensures
        r == hex_digit(d as int),
{
    match d {
        0 => '0',
        1 => '1',
        2 => '2',
        3 => '3',
        4 => '4',
        5 => '5',
        6 => '6',
        7 => '7',
        8 => '8',
        9 => '9',
        10 => 'a',
        11 => 'b',
        12 => 'c',
        13 => 'd',
        14 => 'e',
        _ => 'f',
    }
}

/// Appends a character escaped for a JSON string.
fn append_char_escaped(out: &mut String, ch: char)
    ensures
        final(out)@ == old(out)@ + json_char_escape(ch),
{
    let ghost start = out@;
    let code = ch as u32;
    if ch == '"' || ch == '\\' {
        push_char(out, '\\');
        push_char(out, ch);
    } else if ch == '\n' {
        push_char(out, '\\');
        push_char(out, 'n');
    } else if ch == '\r' {
        push_char(out, '\\');
        push_char(out, 'r');
    } else if ch == '\t' {
        push_char(out, '\\');
        push_char(out, 't');
    } else if code < 0x20 {
        push_char(out, '\\');
        push_char(out, 'u');
        push_char(out, '0');
        push_char(out, '0');
        push_char(out, hex_char(code / 16));
        push_char(out, hex_char(code % 16));
    } else {
        push_char(out, ch);
    }
    assert(out@ =~= start + json_char_escape(ch));
}

/// Appends a value escaped for a JSON string.
fn append_escaped(out: &mut String, s: &str)
    ensures
        final(out)@ == old(out)@ + json_escaped(s@),
{
    let ghost start = out@;
    for ch in it: s.chars()
        invariant
            it.seq() == s@,
            out@ == start + json_escaped(it.seq().take(it.index() as int)),
    {
        let ghost i = it.index() as int;
        assert(s@.take(i + 1).drop_last() =~= s@.take(i));
        append_char_escaped(out, ch);
        assert(out@ =~= start + json_escaped(s@.take(i + 1)));
    }
    assert(s@.take(s@.len() as int) =~= s@);
}

/// Appends a list of names as a JSON array of strings.
fn append_string_list(out: &mut String, items: &Vec<String>)
    ensures
        final(out)@ == old(out)@ + json_string_list(items@.map_values(|v: String| v@)),
{
    let ghost start = out@;
    let ghost all = items@.map_values(|v: String| v@).map_values(
        |s: Seq<char>| "\""@ + json_escaped(s) + "\""@,
    );
    out.append("[");
    let mut i: usize = 0;
    while i < items.len()
        invariant
            i <= items@.len(),
            all == items@.map_values(|v: String| v@).map_values(|s: Seq<char>| "\""@ + json_escaped(s) + "\""@),
            out@ == start + "["@ + joined(all.take(i as int), ", "@),
        decreases items.len() - i,
    {
        assert(all.take(i as int + 1).drop_last() =~= all.take(i as int));
        if i > 0 {
            out.append(", ");
        }
        out.append("\"");
        append_escaped(out, items[i].as_str());
        out.append("\"");
        proof {
            if i == 0 {
                assert(all.take(1)[0] == all[0]);
                assert(joined(all.take(0), ", "@) =~= Seq::<char>::empty());
            }
        }
        assert(out@ =~= start + "["@ + joined(all.take(i as int + 1), ", "@));
        i = i + 1;
    }
    assert(all.take(items@.len() as int) =~= all);
    out.append("]");
}

/// Appends the object of one row.
fn append_json_row(out: &mut String, variables: &Vec<String>, row: &Vec<String>, last: bool)
    ensures
        final(out)@ == old(out)@ + json_row(
            variables@.map_values(|v: String| v@),
            row@.map_values(|c: String| c@),
            last,
        ),
{
    let ghost before = out@;
    let ghost vars = variables@.map_values(|v: String| v@);
    let ghost rv = row@.map_values(|c: String| c@);
    out.append("    {");
    let n = if variables.len() < row.len() {
        variables.len()
    } else {
        row.len()
    };
    let ghost pairs = Seq::new(n as nat, |j: int| json_pair(vars[j], rv[j]));
    let mut j: usize = 0;
    while j < n
        invariant
            j <= n,
            n <= variables@.len(),
            n <= row@.len(),
            vars == variables@.map_values(|v: String| v@),
            rv == row@.map_values(|c: String| c@),
            pairs == Seq::new(n as nat, |j: int| json_pair(vars[j], rv[j])),
            out@ == before + "    {"@ + joined(pairs.take(j as int), ", "@),
        decreases n - j,
    {
        assert(pairs.take(j as int + 1).drop_last() =~= pairs.take(j as int));
        if j > 0 {
            out.append(", ");
        }
        out.append("\"");
        append_escaped(out, variables[j].as_str());
        out.append("\": \"");
        append_escaped(out, row[j].as_str());
        out.append("\"");
        proof {
            if j == 0 {
                assert(pairs.take(1)[0] == pairs[0]);
                assert(joined(pairs.take(0), ", "@) =~= Seq::<char>::empty());
            }
        }
        assert(out@ =~= before + "    {"@ + joined(pairs.take(j as int + 1), ", "@));
        j = j + 1;
    }
    assert(pairs.take(n as int) =~= pairs);
    if last {
        out.append("}\n");
    } else {
        out.append("},\n");
    }
}

/// Appends the object of one triple.
fn append_json_triple(out: &mut String, t: &(String, String, String), last: bool)
    ensures
        final(out)@ == old(out)@ + json_triple((t.0@, t.1@, t.2@), last),
{
    let ghost before = out@;
    out.append("    {\"subject\": \"");
    append_escaped(out, t.0.as_str());
    out.append("\", \"predicate\": \"");
    append_escaped(out, t.1.as_str());
    out.append("\", \"object\": \"");
    append_escaped(out, t.2.as_str());
    out.append("\"}");
    if last {
        out.append("\n");
    } else {
        out.append(",\n");
    }
    assert(out@ =~= before + json_triple((t.0@, t.1@, t.2@), last));
}

/// JSON output writer.
pub struct JsonWriter;

impl JsonWriter {
    /// The name of the JSON file: `<prefix>_<timestamp>.json`.
    pub fn file_name(&self, metadata: &OutputMetadata, config: &OutputConfig) -> (r: String)
        ensures
            r@ == file_name_view(*metadata, *config, "json"@),
    {
        file_name_for(metadata, config, "json")
    }

    /// The JSON text of the results.
    pub fn render(&self, output: &QueryOutput) -> (r: String)
        ensures
            r@ == json_text(output.results@, output.count as nat),
    {
        let mut out = String::new();
        match &output.results {
            QueryResultsData::Solutions { variables, rows } => {
                out.append("{\n  \"type\": \"solutions\",\n  \"variables\": ");
                append_string_list(&mut out, variables);
                out.append(",\n  \"results\": [\n");
                let ghost head = out@;
                let ghost vars = variables@.map_values(|v: String| v@);
                let ghost rv = rows@.map_values(|row: Vec<String>| row@.map_values(|c: String| c@));
                let ghost parts = Seq::new(rv.len(), |k: int| json_row(vars, rv[k], k == rv.len() - 1));
                let mut i: usize = 0;
                while i < rows.len()
                    invariant
                        i <= rows@.len(),
                        vars == variables@.map_values(|v: String| v@),
                        rv == rows@.map_values(|row: Vec<String>| row@.map_values(|c: String| c@)),
                        parts == Seq::new(rv.len(), |k: int| json_row(vars, rv[k], k == rv.len() - 1)),
                        out@ == head + concat_all(parts.take(i as int)),
                    decreases rows.len() - i,
                {
                    append_json_row(&mut out, variables, &rows[i], i + 1 == rows.len());
                    assert(parts.take(i as int + 1).drop_last() =~= parts.take(i as int));
                    assert(out@ =~= head + concat_all(parts.take(i as int + 1)));
                    i = i + 1;
                }
                assert(parts.take(rows@.len() as int) =~= parts);
                out.append("  ],\n  \"count\": ");
                let c = decimal_text(output.count as u128);
                out.append(c.as_str());
                out.append("\n}\n");
            },
            QueryResultsData::Boolean(b) => {
                out.append("{\n  \"type\": \"boolean\",\n  \"result\": ");
                let t = bool_string(*b);
                out.append(t.as_str());
                out.append("\n}\n");
            },
            QueryResultsData::Graph { triples } => {
                out.append("{\n  \"type\": \"graph\",\n  \"triples\": [\n");
                let ghost head = out@;
                let ghost tv = triples@.map_values(|t: (String, String, String)| (t.0@, t.1@, t.2@));
                let ghost parts = Seq::new(tv.len(), |k: int| json_triple(tv[k], k == tv.len() - 1));
                let mut i: usize = 0;
                while i < triples.len()
                    invariant
                        i <= triples@.len(),
                        tv == triples@.map_values(|t: (String, String, String)| (t.0@, t.1@, t.2@)),
                        parts == Seq::new(tv.len(), |k: int| json_triple(tv[k], k == tv.len() - 1)),
                        out@ == head + concat_all(parts.take(i as int)),
                    decreases triples.len() - i,
                {
                    append_json_triple(&mut out, &triples[i], i + 1 == triples.len());
                    assert(parts.take(i as int + 1).drop_last() =~= parts.take(i as int));
                    assert(out@ =~= head + concat_all(parts.take(i as int + 1)));
                    i = i + 1;
                }
                assert(parts.take(triples@.len() as int) =~= parts);
                out.append("  ],\n  \"count\": ");
                let c = decimal_text(output.count as u128);
                out.append(c.as_str());
                out.append("\n}\n");
            },
        }
        out
    }
}

// ---------------------------------------------------------------------
// The layout of the JSON text, as JSON
// ---------------------------------------------------------------------

/// A JSON string: the text quoted, escaped.
pub open spec fn json_string(s: Seq<char>) -> Seq<char> {
    "\""@ + json_escaped(s) + "\""@
}

/// A JSON object member `"key": value`, the value already JSON text.
pub open spec fn json_member(key: Seq<char>, value: Seq<char>) -> Seq<char> {
    json_string(key) + ": "@ + value
}

/// A JSON object on one line, its members separated by `, `.
pub open spec fn json_object(members: Seq<Seq<char>>) -> Seq<char> {
    "{"@ + joined(members, ", "@) + "}"@
}

/// The elements of a JSON array, one per line after four spaces, each but
/// the last followed by a comma; nothing for no elements.
pub open spec fn json_array_lines(items: Seq<Seq<char>>) -> Seq<char> {
    if items.len() == 0 {
        Seq::empty()
    } else {
        joined(items.map_values(|x: Seq<char>| "    "@ + x), ",\n"@) + "\n"@
    }
}

/// The JSON object of a triple: its subject, predicate and object as
/// strings.
pub open spec fn triple_object(t: (Seq<char>, Seq<char>, Seq<char>)) -> Seq<char> {
    json_object(
        seq![
            json_member("subject"@, json_string(t.0)),
            json_member("predicate"@, json_string(t.1)),
            json_member("object"@, json_string(t.2)),
        ],
    )
}

/// The JSON object of a row: each variable (as far as the row goes) with
/// its value as a string.
pub open spec fn row_object(variables: Seq<Seq<char>>, row: Seq<Seq<char>>) -> Seq<char> {
    json_object(
        Seq::new(
            if variables.len() < row.len() { variables.len() } else { row.len() },
            |j: int| json_member(variables[j], json_string(row[j])),
        ),
    )
}

/// Lines each ending with a comma join up to the lines joined by commas.
proof fn lemma_comma_lines(y: Seq<Seq<char>>, m: int)
    requires
        1 <= m <= y.len(),
    ensures
        concat_all(Seq::new(m as nat, |i: int| y[i] + ",\n"@)) == joined(y.take(m), ",\n"@) + ",\n"@,
    decreases m,
{
    let sep = ",\n"@;
    let parts = Seq::new(m as nat, |i: int| y[i] + sep);
    let prev = Seq::new((m - 1) as nat, |i: int| y[i] + sep);
    assert(parts.drop_last() =~= prev);
    assert(parts.last() == y[m - 1] + sep);
    assert(concat_all(parts) == concat_all(prev) + (y[m - 1] + sep));
    if m == 1 {
        assert(prev =~= Seq::<Seq<char>>::empty());
        assert(concat_all(prev) == Seq::<char>::empty());
        assert(y.take(1)[0] == y[0]);
        assert(joined(y.take(1), sep) == y[0]);
        assert(concat_all(parts) =~= y[0] + sep);
    } else {
        lemma_comma_lines(y, m - 1);
        assert(y.take(m).drop_last() =~= y.take(m - 1));
        assert(y.take(m).last() == y[m - 1]);
        assert(joined(y.take(m), sep) == joined(y.take(m - 1), sep) + sep + y[m - 1]);
        assert(concat_all(parts) =~= joined(y.take(m), sep) + sep);
    }
}

/// Elements written one per line, each but the last followed by a comma,
/// are the elements of a JSON array.
proof fn lemma_array_lines(x: Seq<Seq<char>>, parts: Seq<Seq<char>>)
    requires
        parts.len() == x.len(),
        forall|i: int| 0 <= i < x.len() ==> #[trigger] parts[i] == "    "@ + x[i] + (if i == x.len() - 1 {
            "\n"@
        } else {
            ",\n"@
        }),
    ensures
        concat_all(parts) == json_array_lines(x),
{
    let n = x.len() as int;
    let y = x.map_values(|e: Seq<char>| "    "@ + e);
    if n == 0 {
        assert(parts =~= Seq::<Seq<char>>::empty());
    } else {
        let sep = ",\n"@;
        let nl = "\n"@;
        assert(parts.last() == y[n - 1] + nl);
        assert(concat_all(parts) == concat_all(parts.drop_last()) + (y[n - 1] + nl));
        if n == 1 {
            assert(parts.drop_last() =~= Seq::<Seq<char>>::empty());
            assert(concat_all(parts.drop_last()) == Seq::<char>::empty());
            assert(joined(y, sep) == y[0]);
            assert(concat_all(parts) =~= joined(y, sep) + nl);
        } else {
            assert(parts.drop_last() =~= Seq::new((n - 1) as nat, |i: int| y[i] + sep));
            lemma_comma_lines(y, n - 1);
            assert(y.drop_last() =~= y.take(n - 1));
            assert(joined(y, sep) == joined(y.drop_last(), sep) + sep + y.last());
            assert(concat_all(parts) =~= joined(y, sep) + nl);
        }
    }
}

/// A value without quotes, backslashes or control characters escapes to
/// itself.
proof fn lemma_plain_escapes_to_itself(s: Seq<char>)
    requires
        forall|i: int| 0 <= i < s.len() ==> #[trigger] s[i] != '"' && s[i] != '\\' && (s[i] as int) >= 0x20,
    ensures
        json_escaped(s) == s,
    decreases s.len(),
{
    if s.len() > 0 {
        lemma_plain_escapes_to_itself(s.drop_last());
        assert(s.drop_last().push(s.last()) =~= s);
    }
}

/// A triple is written as its JSON object, then a comma unless it is the
/// last.
proof fn lemma_triple_line(t: (Seq<char>, Seq<char>, Seq<char>), last: bool)
    ensures
        json_triple(t, last) == "    "@ + triple_object(t) + (if last { "\n"@ } else { ",\n"@ }),
{
    reveal_strlit("subject");
    reveal_strlit("predicate");
    reveal_strlit("object");
    lemma_plain_escapes_to_itself("subject"@);
    lemma_plain_escapes_to_itself("predicate"@);
    lemma_plain_escapes_to_itself("object"@);
    let members = seq![
        json_member("subject"@, json_string(t.0)),
        json_member("predicate"@, json_string(t.1)),
        json_member("object"@, json_string(t.2)),
    ];
    assert(joined(members, ", "@) == members[0] + ", "@ + members[1] + ", "@ + members[2]) by {
        let two = members.drop_last();
        assert(two =~= seq![members[0], members[1]]);
        assert(two.drop_last() =~= seq![members[0]]);
        assert(joined(two.drop_last(), ", "@) == members[0]);
        assert(joined(two, ", "@) == members[0] + ", "@ + members[1]);
        assert(joined(members, ", "@) == joined(two, ", "@) + ", "@ + members[2]);
    }
    reveal_strlit("    {\"subject\": \"");
    reveal_strlit("\", \"predicate\": \"");
    reveal_strlit("\", \"object\": \"");
    reveal_strlit("\"}");
    reveal_strlit("\n");
    reveal_strlit(",\n");
    reveal_strlit("    ");
    reveal_strlit("{");
    reveal_strlit("}");
    reveal_strlit(", ");
    reveal_strlit(": ");
    reveal_strlit("\"");
    assert(json_triple(t, last) =~= "    "@ + triple_object(t) + (if last { "\n"@ } else { ",\n"@ }));
}

/// A row is written as its JSON object, then a comma unless it is the last.
proof fn lemma_row_line(variables: Seq<Seq<char>>, row: Seq<Seq<char>>, last: bool)
    ensures
        json_row(variables, row, last) == "    "@ + row_object(variables, row) + (if last { "\n"@ } else { ",\n"@ }),
{
    let n = shorter(variables.len(), row.len());
    reveal_strlit("\": \"");
    reveal_strlit(": ");
    reveal_strlit("\"");
    assert forall|j: int| 0 <= j < n implies #[trigger] json_pair(variables[j], row[j]) == json_member(
        variables[j],
        json_string(row[j]),
    ) by {
        assert(json_pair(variables[j], row[j]) =~= json_member(variables[j], json_string(row[j])));
    }
    assert(Seq::new(n, |j: int| json_pair(variables[j], row[j])) =~= Seq::new(
        if variables.len() < row.len() { variables.len() } else { row.len() },
        |j: int| json_member(variables[j], json_string(row[j])),
    ));
    reveal_strlit("    {");
    reveal_strlit("}\n");
    reveal_strlit("},\n");
    reveal_strlit("\n");
    reveal_strlit(",\n");
    reveal_strlit("    ");
    reveal_strlit("{");
    reveal_strlit("}");
    assert(json_row(variables, row, last) =~= "    "@ + row_object(variables, row) + (if last { "\n"@ } else {
        ",\n"@
    }));
}

/// The JSON text of a graph is a JSON document: an object whose `triples`
/// array holds one object per triple, in order, with the subject,
/// predicate and object as strings (every element but the last followed by
/// a comma), then the count.
pub proof fn law_json_graph_is_an_array_of_triples(triples: Seq<(Seq<char>, Seq<char>, Seq<char>)>, count: nat)
    ensures
        json_text(ResultsView::Graph { triples }, count) == "{\n  \"type\": \"graph\",\n  \"triples\": [\n"@
            + json_array_lines(Seq::new(triples.len(), |i: int| triple_object(triples[i])))
            + "  ],\n  \"count\": "@ + decimal(count) + "\n}\n"@,
{
    let x = Seq::new(triples.len(), |i: int| triple_object(triples[i]));
    let parts = Seq::new(triples.len(), |i: int| json_triple(triples[i], i == triples.len() - 1));
    assert forall|i: int| 0 <= i < x.len() implies #[trigger] parts[i] == "    "@ + x[i] + (if i == x.len() - 1 {
        "\n"@
    } else {
        ",\n"@
    }) by {
        lemma_triple_line(triples[i], i == triples.len() - 1);
    }
    lemma_array_lines(x, parts);
}

/// The JSON text of solutions is a JSON document: an object with the
/// variables as an array of strings, then a `results` array holding one
/// object per row, in order, that maps each variable to the row's value as
/// a string (every element but the last followed by a comma), then the
/// count.
pub proof fn law_json_solutions_are_an_array_of_rows(
    variables: Seq<Seq<char>>,
    rows: Seq<Seq<Seq<char>>>,
    count: nat,
)
    ensures
        json_text(ResultsView::Solutions { variables, rows }, count)
            == "{\n  \"type\": \"solutions\",\n  \"variables\": "@ + "["@ + joined(
            variables.map_values(|v: Seq<char>| json_string(v)),
            ", "@,
        ) + "]"@ + ",\n  \"results\": [\n"@ + json_array_lines(
            Seq::new(rows.len(), |i: int| row_object(variables, rows[i])),
        ) + "  ],\n  \"count\": "@ + decimal(count) + "\n}\n"@,
{
    let x = Seq::new(rows.len(), |i: int| row_object(variables, rows[i]));
    let parts = Seq::new(rows.len(), |i: int| json_row(variables, rows[i], i == rows.len() - 1));
    assert forall|i: int| 0 <= i < x.len() implies #[trigger] parts[i] == "    "@ + x[i] + (if i == x.len() - 1 {
        "\n"@
    } else {
        ",\n"@
    }) by {
        lemma_row_line(variables, rows[i], i == rows.len() - 1);
    }
    lemma_array_lines(x, parts);
    assert(variables.map_values(|v: Seq<char>| json_string(v)) =~= variables.map_values(
        |s: Seq<char>| "\""@ + json_escaped(s) + "\""@,
    ));
}

} // verus!
