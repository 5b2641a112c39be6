//! Terminal output: tab-separated values, for piping.

use vstd::prelude::*;

use crate::query::sparql::{QueryOutput, QueryResultsData, ResultsView};
use crate::text::{append_joined, bool_string, bool_text, concat_all, joined, texts_view};

verus! {

/// A row as a tab-separated line.
pub open spec fn tsv_row(row: Seq<Seq<char>>) -> Seq<char> {
    joined(row, "\t"@) + "\n"@
}

/// A triple as a tab-separated line.
pub open spec fn tsv_triple(t: (Seq<char>, Seq<char>, Seq<char>)) -> Seq<char> {
    t.0 + "\t"@ + t.1 + "\t"@ + t.2 + "\n"@
}

/// The tab-separated text of the results: the variables then the rows;
/// `true` or `false`; or `subject`, `predicate`, `object` then the triples.
pub open spec fn tsv_text(results: ResultsView) -> Seq<char> {
    match results {
        ResultsView::Solutions { variables, rows } => joined(variables, "\t"@) + "\n"@ + concat_all(
            rows.map_values(|row: Seq<Seq<char>>| tsv_row(row)),
        ),
        ResultsView::Boolean(b) => bool_text(b) + "\n"@,
        ResultsView::Graph { triples } => "subject\tpredicate\tobject\n"@ + concat_all(
            triples.map_values(|t: (Seq<char>, Seq<char>, Seq<char>)| tsv_triple(t)),
        ),
    }
}

/// Writes query results as tab-separated text for standard output.
pub struct TerminalWriter;

impl TerminalWriter {
    /// The tab-separated text of the results.
    pub fn render(&self, output: &QueryOutput) -> (r: String)
        ensures
            r@ == tsv_text(output.results@),
    {
        let mut out = String::new();
        match &output.results {
            QueryResultsData::Solutions { variables, rows } => {
                append_joined(&mut out, variables, "\t");
                out.append("\n");
                let ghost head = out@;
                let ghost parts = rows@.map_values(|row: Vec<String>| tsv_row(texts_view(row@)));
                let mut i: usize = 0;
                while i < rows.len()
                    invariant
                        i <= rows@.len(),
                        parts == rows@.map_values(|row: Vec<String>| tsv_row(texts_view(row@))),
                        out@ == head + concat_all(parts.take(i as int)),
                    decreases rows.len() - i,
                {
                    append_joined(&mut out, &rows[i], "\t");
                    out.append("\n");
                    assert(parts.take(i as int + 1).drop_last() =~= parts.take(i as int));
                    assert(out@ =~= head + concat_all(parts.take(i as int + 1)));
                    i = i + 1;
                }
                assert(parts.take(rows@.len() as int) =~= parts);
                assert(parts =~= rows@.map_values(|row: Vec<String>| row@.map_values(|c: String| c@)).map_values(
                    |row: Seq<Seq<char>>| tsv_row(row),
                ));
                assert(texts_view(variables@) =~= variables@.map_values(|v: String| v@));
            },
            QueryResultsData::Boolean(b) => {
                let t = bool_string(*b);
                out.append(t.as_str());
                out.append("\n");
            },
            QueryResultsData::Graph { triples } => {
                out.append("subject\tpredicate\tobject\n");
                let ghost head = out@;
                let ghost parts = triples@.map_values(
                    |t: (String, String, String)| tsv_triple((t.0@, t.1@, t.2@)),
                );
                let mut i: usize = 0;
                while i < triples.len()
                    invariant
                        i <= triples@.len(),
                        parts == triples@.map_values(|t: (String, String, String)| tsv_triple((t.0@, t.1@, t.2@))),
                        out@ == head + concat_all(parts.take(i as int)),
                    decreases triples.len() - i,
                {
                    let t = &triples[i];
                    out.append(t.0.as_str());
                    out.append("\t");
                    out.append(t.1.as_str());
                    out.append("\t");
                    out.append(t.2.as_str());
                    out.append("\n");
                    assert(parts.take(i as int + 1).drop_last() =~= parts.take(i as int));
                    assert(out@ =~= head + concat_all(parts.take(i as int + 1)));
                    i = i + 1;
                }
                assert(parts.take(triples@.len() as int) =~= parts);
                assert(parts =~= triples@.map_values(|t: (String, String, String)| (t.0@, t.1@, t.2@)).map_values(
                    |t: (Seq<char>, Seq<char>, Seq<char>)| tsv_triple(t),
                ));
            },
        }
        out
    }
}

} // verus!
