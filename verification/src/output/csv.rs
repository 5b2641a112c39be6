//! CSV output: a header line, then one line per result.

use vstd::prelude::*;

use super::{file_name_for, file_name_view, OutputMetadata};
use crate::config::pipeline::OutputConfig;
use crate::query::sparql::{QueryOutput, QueryResultsData, ResultsView};
use crate::text::{
    append_joined, bool_string, bool_text, concat_all, contains_char, has_char, joined, push_char,
    texts_view,
};

verus! {

/// `c` with every double quote doubled.
pub open spec fn doubled_quotes(c: Seq<char>) -> Seq<char>
    decreases c.len(),
{
    if c.len() == 0 {
        Seq::empty()
    } else if c.last() == '"' {
        doubled_quotes(c.drop_last()) + seq!['"', '"']
    } else {
        doubled_quotes(c.drop_last()).push(c.last())
    }
}

/// A cell with a comma, a double quote or a newline is quoted.
pub open spec fn needs_quoting(c: Seq<char>) -> bool {
    has_char(c, ',') || has_char(c, '"') || has_char(c, '\n')
}

/// A cell as written in a row: where it needs quoting, wrapped in double
/// quotes with its own double quotes doubled; as it is otherwise.
pub open spec fn csv_cell(c: Seq<char>) -> Seq<char> {
    if needs_quoting(c) {
        seq!['"'] + doubled_quotes(c) + seq!['"']
    } else {
        c
    }
}

/// A row of cells as a line.
pub open spec fn csv_row(row: Seq<Seq<char>>) -> Seq<char> {
    joined(row.map_values(|c: Seq<char>| csv_cell(c)), ","@) + "\n"@
}

/// A triple as a line, each term written as a cell.
pub open spec fn csv_triple(t: (Seq<char>, Seq<char>, Seq<char>)) -> Seq<char> {
    csv_cell(t.0) + ","@ + csv_cell(t.1) + ","@ + csv_cell(t.2) + "\n"@
}

/// The CSV text of the results: the variables then the rows; `result`
/// then `true` or `false`; or `subject,predicate,object` then the triples.
pub open spec fn csv_text(results: ResultsView) -> Seq<char> {
    match results {
        ResultsView::Solutions { variables, rows } => joined(variables, ","@) + "\n"@ + concat_all(
            rows.map_values(|row: Seq<Seq<char>>| csv_row(row)),
        ),
        ResultsView::Boolean(b) => "result\n"@ + bool_text(b) + "\n"@,
        ResultsView::Graph { triples } => "subject,predicate,object\n"@ + concat_all(
            triples.map_values(|t: (Seq<char>, Seq<char>, Seq<char>)| csv_triple(t)),
        ),
    }
}

/// A written cell read back: where it is wrapped in double quotes, the
/// inside with each doubled quote made single; as it is otherwise.
pub open spec fn csv_unquoted(e: Seq<char>) -> Seq<char> {
    if e.len() >= 2 && e[0] == '"' && e.last() == '"' {
        undoubled(e.subrange(1, e.len() - 1))
    } else {
        e
    }
}

/// `e` with each pair of double quotes (read from the end) made one.
pub open spec fn undoubled(e: Seq<char>) -> Seq<char>
    decreases e.len(),
{
    if e.len() == 0 {
        Seq::empty()
    } else if e.len() >= 2 && e.last() == '"' && e[e.len() - 2] == '"' {
        undoubled(e.subrange(0, e.len() - 2)).push('"')
    } else {
        undoubled(e.drop_last()).push(e.last())
    }
}

proof fn lemma_undoubled_doubled(c: Seq<char>)
    ensures
        undoubled(doubled_quotes(c)) == c,
    decreases c.len(),
{
    if c.len() > 0 {
        lemma_undoubled_doubled(c.drop_last());
        let d = doubled_quotes(c);
        let p = doubled_quotes(c.drop_last());
        if c.last() == '"' {
            assert(d.subrange(0, d.len() - 2) =~= p);
        } else {
            assert(d.drop_last() =~= p);
        }
        assert(c.drop_last().push(c.last()) =~= c);
    }
}

/// Writing a cell loses nothing: reading the written cell back gives the
/// value, whether it was quoted or not.
pub proof fn law_csv_cell_reads_back(c: Seq<char>)
    ensures
        csv_unquoted(csv_cell(c)) == c,
{
    if needs_quoting(c) {
        let e = csv_cell(c);
        lemma_undoubled_doubled(c);
        assert(e.subrange(1, e.len() - 1) =~= doubled_quotes(c));
    } else {
        if c.len() >= 2 && c[0] == '"' {
            assert(has_char(c, '"'));
        }
    }
}

/// The CSV text is one line per result, in order: for solutions the
/// variables' line, then for each row its cells, each written as a cell,
/// separated by commas; for a graph the header, then for each triple its
/// three terms written as cells; every line ends with a newline.
pub proof fn law_csv_one_line_per_result(
    variables: Seq<Seq<char>>,
    rows: Seq<Seq<Seq<char>>>,
    triples: Seq<(Seq<char>, Seq<char>, Seq<char>)>,
)
    ensures
        csv_text(ResultsView::Solutions { variables, rows }) == joined(variables, ","@) + "\n"@ + concat_all(
            Seq::new(
                rows.len(),
                |i: int| joined(Seq::new(rows[i].len(), |j: int| csv_cell(rows[i][j])), ","@) + "\n"@,
            ),
        ),
        csv_text(ResultsView::Graph { triples }) == "subject,predicate,object\n"@ + concat_all(
            Seq::new(
                triples.len(),
                |i: int| csv_cell(triples[i].0) + ","@ + csv_cell(triples[i].1) + ","@ + csv_cell(triples[i].2)
                    + "\n"@,
            ),
        ),
{
    assert forall|i: int| 0 <= i < rows.len() implies csv_row(#[trigger] rows[i]) == joined(
        Seq::new(rows[i].len(), |j: int| csv_cell(rows[i][j])),
        ","@,
    ) + "\n"@ by {
        assert(rows[i].map_values(|c: Seq<char>| csv_cell(c)) =~= Seq::new(rows[i].len(), |j: int| csv_cell(rows[i][j])));
    }
    assert(rows.map_values(|row: Seq<Seq<char>>| csv_row(row)) =~= Seq::new(
        rows.len(),
        |i: int| joined(Seq::new(rows[i].len(), |j: int| csv_cell(rows[i][j])), ","@) + "\n"@,
    ));
    assert(triples.map_values(|t: (Seq<char>, Seq<char>, Seq<char>)| csv_triple(t)) =~= Seq::new(
        triples.len(),
        |i: int| csv_cell(triples[i].0) + ","@ + csv_cell(triples[i].1) + ","@ + csv_cell(triples[i].2) + "\n"@,
    ));
}

/// Writes a cell for a row, quoting it where it needs quoting.
pub fn csv_escape(c: &str) -> (r: String)
    ensures
        r@ == csv_cell(c@),
{
    if contains_char(c, ',') || contains_char(c, '"') || contains_char(c, '\n') {
        let mut r = String::new();
        push_char(&mut r, '"');
        for ch in it: c.chars()
            invariant
                it.seq() == c@,
                r@ == seq!['"'] + doubled_quotes(it.seq().take(it.index() as int)),
        {
            let ghost i = it.index() as int;
            assert(c@.take(i + 1).drop_last() =~= c@.take(i));
            if ch == '"' {
                push_char(&mut r, '"');
                push_char(&mut r, '"');
            } else {
                push_char(&mut r, ch);
            }
            assert(r@ =~= seq!['"'] + doubled_quotes(c@.take(i + 1)));
        }
        assert(c@.take(c@.len() as int) =~= c@);
        push_char(&mut r, '"');
        r
    } else {
        String::from_str(c)
    }
}

/// Writes a triple as a line, each term written as a cell.
fn triple_line(t: &(String, String, String)) -> (r: String)
    ensures
        r@ == csv_triple((t.0@, t.1@, t.2@)),
{
    let mut out = csv_escape(t.0.as_str());
    let p = csv_escape(t.1.as_str());
    let o = csv_escape(t.2.as_str());
    out.append(",");
    out.append(p.as_str());
    out.append(",");
    out.append(o.as_str());
    out.append("\n");
    out
}

/// CSV output writer.
pub struct CsvWriter;

impl CsvWriter {
    /// The name of the CSV file: `<prefix>_<timestamp>.csv`.
    pub fn file_name(&self, metadata: &OutputMetadata, config: &OutputConfig) -> (r: String)
        ensures
            r@ == file_name_view(*metadata, *config, "csv"@),
    {
        file_name_for(metadata, config, "csv")
    }

    /// The CSV text of the results.
    pub fn render(&self, output: &QueryOutput) -> (r: String)
        ensures
            r@ == csv_text(output.results@),
    {
        let mut out = String::new();
        match &output.results {
            QueryResultsData::Solutions { variables, rows } => {
                append_joined(&mut out, variables, ",");
                out.append("\n");
                let ghost head = out@;
                let ghost parts = rows@.map_values(
                    |row: Vec<String>| csv_row(row@.map_values(|c: String| c@)),
                );
                let mut i: usize = 0;
                while i < rows.len()
                    invariant
                        i <= rows@.len(),
                        parts == rows@.map_values(|row: Vec<String>| csv_row(row@.map_values(|c: String| c@))),
                        out@ == head + concat_all(parts.take(i as int)),
                    decreases rows.len() - i,
                {
                    let row = &rows[i];
                    let mut cells: Vec<String> = Vec::new();
                    let mut j: usize = 0;
                    while j < row.len()
                        invariant
                            j <= row@.len(),
                            cells@.len() == j,
                            forall|k: int| 0 <= k < j ==> (#[trigger] cells@[k])@ == csv_cell(row@[k]@),
                        decreases row.len() - j,
                    {
                        cells.push(csv_escape(row[j].as_str()));
                        j = j + 1;
                    }
                    let ghost before = out@;
                    append_joined(&mut out, &cells, ",");
                    out.append("\n");
                    assert(texts_view(cells@) =~= row@.map_values(|c: String| c@).map_values(
                        |c: Seq<char>| csv_cell(c),
                    ));
                    assert(parts.take(i as int + 1).drop_last() =~= parts.take(i as int));
                    assert(out@ =~= head + concat_all(parts.take(i as int + 1)));
                    i = i + 1;
                }
                assert(parts.take(rows@.len() as int) =~= parts);
                assert(rows@.map_values(|row: Vec<String>| csv_row(row@.map_values(|c: String| c@)))
                    =~= rows@.map_values(|row: Vec<String>| row@.map_values(|c: String| c@)).map_values(
                    |row: Seq<Seq<char>>| csv_row(row),
                ));
                assert(texts_view(variables@) =~= variables@.map_values(|v: String| v@));
            },
            QueryResultsData::Boolean(b) => {
                out.append("result\n");
                let t = bool_string(*b);
                out.append(t.as_str());
                out.append("\n");
            },
            QueryResultsData::Graph { triples } => {
                out.append("subject,predicate,object\n");
                let ghost head = out@;
                let ghost parts = triples@.map_values(
                    |t: (String, String, String)| csv_triple((t.0@, t.1@, t.2@)),
                );
                let mut i: usize = 0;
                while i < triples.len()
                    invariant
                        i <= triples@.len(),
                        parts == triples@.map_values(|t: (String, String, String)| csv_triple((t.0@, t.1@, t.2@))),
                        out@ == head + concat_all(parts.take(i as int)),
                    decreases triples.len() - i,
                {
                    let line = triple_line(&triples[i]);
                    assert(line@ == parts[i as int]);
                    out.append(line.as_str());
                    assert(parts.take(i as int + 1).drop_last() =~= parts.take(i as int));
                    assert(out@ =~= head + concat_all(parts.take(i as int + 1)));
                    i = i + 1;
                }
                assert(parts.take(triples@.len() as int) =~= parts);
                assert(triples@.map_values(|t: (String, String, String)| csv_triple((t.0@, t.1@, t.2@)))
                    =~= triples@.map_values(|t: (String, String, String)| (t.0@, t.1@, t.2@)).map_values(
                    |t: (Seq<char>, Seq<char>, Seq<char>)| csv_triple(t),
                ));
            },
        }
        out
    }
}

} // verus!
