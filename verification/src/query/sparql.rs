//! SPARQL query engine over an in-memory Oxigraph store.

use vstd::prelude::*;
use oxigraph::model::Term;
use oxigraph::sparql::{QueryResults, QuerySolutionIter, QueryTripleIter};
use oxigraph::store::Store;
use vstd::set_lib::lemma_len_subset;

use crate::config::pipeline::QueryConfig;
use crate::error::{PipelineError, Result};
use crate::processors::{file_views, ProcessedFile};
use crate::sources::FileView;
use crate::text::{ends_with_text, has_prefix, has_suffix};

verus! {

// ---------------------------------------------------------------------
// Values of the query engine
// ---------------------------------------------------------------------

/// An RDF term as the results show it.
#[derive(Debug)]
pub enum RdfTerm {
    /// An IRI.
    Iri(String),
    /// A blank node, by its identifier.
    Blank(String),
    /// A literal: its lexical value, its datatype IRI and its language tag.
    Literal { value: String, datatype: String, language: Option<String> },
    /// A quoted triple (RDF-star).
    Triple(Box<RdfTerm>, Box<RdfTerm>, Box<RdfTerm>),
}

/// How a term is written in the results: an IRI without angle brackets, a
/// literal by its value alone (no quotes, datatype or language tag), a blank node as `_:id`, and a
/// quoted triple as `<<s p o>>`.
pub open spec fn term_text(t: RdfTerm) -> Seq<char>
    decreases t,
{
    match t {
        RdfTerm::Iri(s) => s@,
        RdfTerm::Blank(id) => "_:"@ + id@,
        RdfTerm::Literal { value, .. } => value@,
        RdfTerm::Triple(s, p, o) => "<<"@ + term_text(*s) + " "@ + term_text(*p) + " "@ + term_text(*o)
            + ">>"@,
    }
}

/// Formats an RDF term for CSV/JSON output.
pub fn format_term(term: &RdfTerm) -> (r: String)
    ensures
        r@ == term_text(*term),
    decreases term,
{
    match term {
        RdfTerm::Iri(s) => s.clone(),
        RdfTerm::Blank(id) => {
            let mut r = String::from_str("_:");
            r.append(id.as_str());
            r
        },
        RdfTerm::Literal { value, .. } => value.clone(),
        RdfTerm::Triple(s, p, o) => {
            let mut r = String::from_str("<<");
            let a = format_term(s);
            r.append(a.as_str());
            r.append(" ");
            let b = format_term(p);
            r.append(b.as_str());
            r.append(" ");
            let c = format_term(o);
            r.append(c.as_str());
            r.append(">>");
            r
        },
    }
}

/// The answer of the store to a query, with terms as values of the
/// library. A row holds the value bound to each variable, in the order of
/// the variables; an unbound variable is `None`.
pub enum QueryAnswer {
    Solutions { variables: Vec<String>, rows: Vec<Vec<Option<RdfTerm>>> },
    Boolean(bool),
    Graph { triples: Vec<(RdfTerm, RdfTerm, RdfTerm)> },
}

/// Simplified query results for output.
#[derive(Debug)]
pub enum QueryResultsData {
    /// SELECT query results with variable names and rows.
    Solutions { variables: Vec<String>, rows: Vec<Vec<String>> },
    /// ASK query result.
    Boolean(bool),
    /// CONSTRUCT/DESCRIBE query results.
    Graph { triples: Vec<(String, String, String)> },
}

/// The results as text.
pub ghost enum ResultsView {
    Solutions { variables: Seq<Seq<char>>, rows: Seq<Seq<Seq<char>>> },
    Boolean(bool),
    Graph { triples: Seq<(Seq<char>, Seq<char>, Seq<char>)> },
}

impl View for QueryResultsData {
    type V = ResultsView;

    open spec fn view(&self) -> ResultsView {
        match self {
            QueryResultsData::Solutions { variables, rows } => ResultsView::Solutions {
                variables: variables@.map_values(|v: String| v@),
                rows: rows@.map_values(|row: Vec<String>| row@.map_values(|c: String| c@)),
            },
            QueryResultsData::Boolean(b) => ResultsView::Boolean(*b),
            QueryResultsData::Graph { triples } => ResultsView::Graph {
                triples: triples@.map_values(|t: (String, String, String)| (t.0@, t.1@, t.2@)),
            },
        }
    }
}

/// How many results there are: the rows, the triples, or one answer.
pub open spec fn result_count(results: ResultsView) -> int {
    match results {
        ResultsView::Solutions { rows, .. } => rows.len() as int,
        ResultsView::Boolean(_) => 1,
        ResultsView::Graph { triples } => triples.len() as int,
    }
}

/// The text of a possibly unbound value: empty where unbound.
pub open spec fn cell_text(v: Option<RdfTerm>) -> Seq<char> {
    match v {
        Some(t) => term_text(t),
        None => Seq::empty(),
    }
}

/// A row of an answer as text: one cell per variable, in the order of the
/// variables, empty where the variable is unbound.
pub open spec fn row_text(n: nat, row: Seq<Option<RdfTerm>>) -> Seq<Seq<char>> {
    Seq::new(n, |j: int| if j < row.len() { cell_text(row[j]) } else { Seq::empty() })
}

/// The results an answer is shown as.
pub open spec fn answer_results(answer: QueryAnswer) -> ResultsView {
    match answer {
        QueryAnswer::Solutions { variables, rows } => ResultsView::Solutions {
            variables: variables@.map_values(|v: String| v@),
            rows: Seq::new(rows@.len(), |i: int| row_text(variables@.len(), rows@[i]@)),
        },
        QueryAnswer::Boolean(b) => ResultsView::Boolean(b),
        QueryAnswer::Graph { triples } => ResultsView::Graph {
            triples: triples@.map_values(
                |t: (RdfTerm, RdfTerm, RdfTerm)| (term_text(t.0), term_text(t.1), term_text(t.2)),
            ),
        },
    }
}

/// Time that has passed, as whole seconds and the nanoseconds beyond them.
#[derive(Debug, Clone, Copy)]
pub struct Elapsed {
    pub secs: u64,
    pub nanos: u32,
}

impl Elapsed {
    /// The time in whole milliseconds.
    pub open spec fn millis(&self) -> int {
        self.secs * 1000 + self.nanos / 1_000_000
    }

    /// The time in whole milliseconds.
    pub fn as_millis(&self) -> (r: u128)
        ensures
            r == self.millis(),
    {
        (self.secs as u128) * 1000 + (self.nanos as u128) / 1_000_000
    }
}

/// Output from a query execution.
#[derive(Debug)]
pub struct QueryOutput {
    /// Query results.
    pub results: QueryResultsData,
    /// Number of results.
    pub count: usize,
    /// Time to load data into the store.
    pub load_time: Elapsed,
    /// Time to execute the query.
    pub query_time: Elapsed,
    /// Number of files loaded.
    pub files_loaded: usize,
    /// Number of triples loaded.
    pub triples_loaded: usize,
    /// Peak memory usage in bytes (physical memory).
    pub peak_memory_bytes: Option<usize>,
}

/// The RDF syntaxes the engine reads.
#[derive(Debug, Clone, Copy, PartialEq, Eq, Structural)]
pub enum RdfSyntax {
    RdfXml,
    Turtle,
    NTriples,
    NQuads,
    TriG,
}

/// The syntax a file is read in, by its name: `.xml` and `.rdf` are
/// RDF/XML, `.ttl` Turtle, `.nt` N-Triples, `.nq` N-Quads, `.trig` TriG,
/// and anything else RDF/XML (the syntax of CIM data).
pub open spec fn syntax_for(filename: Seq<char>) -> RdfSyntax {
    if has_suffix(filename, ".xml"@) || has_suffix(filename, ".rdf"@) {
        RdfSyntax::RdfXml
    } else if has_suffix(filename, ".ttl"@) {
        RdfSyntax::Turtle
    } else if has_suffix(filename, ".nt"@) {
        RdfSyntax::NTriples
    } else if has_suffix(filename, ".nq"@) {
        RdfSyntax::NQuads
    } else if has_suffix(filename, ".trig"@) {
        RdfSyntax::TriG
    } else {
        RdfSyntax::RdfXml
    }
}

/// Chooses the syntax of a file by its name.
pub fn syntax_of(filename: &str) -> (r: RdfSyntax)
    ensures
        r == syntax_for(filename@),
{
    if ends_with_text(filename, ".xml") || ends_with_text(filename, ".rdf") {
        RdfSyntax::RdfXml
    } else if ends_with_text(filename, ".ttl") {
        RdfSyntax::Turtle
    } else if ends_with_text(filename, ".nt") {
        RdfSyntax::NTriples
    } else if ends_with_text(filename, ".nq") {
        RdfSyntax::NQuads
    } else if ends_with_text(filename, ".trig") {
        RdfSyntax::TriG
    } else {
        RdfSyntax::RdfXml
    }
}

// ---------------------------------------------------------------------
// The store and the parser
// ---------------------------------------------------------------------

/// Oxigraph's store, carried opaque; what it holds is named by `store_quads`.
#[verifier::external_type_specification]
#[verifier::external_body]
pub struct ExStore(oxigraph::store::Store);

/// Oxigraph's RDF term, converted to `RdfTerm` as soon as it is read.
#[verifier::external_type_specification]
#[verifier::external_body]
pub struct ExTerm(oxigraph::model::Term);

/// One solution of a query, converted to its values as soon as it is read.
#[verifier::external_type_specification]
#[verifier::external_body]
pub struct ExQuerySolution(oxigraph::sparql::QuerySolution);

/// One triple of a query's graph, converted to terms as soon as it is read.
#[verifier::external_type_specification]
#[verifier::external_body]
pub struct ExTriple(oxigraph::model::Triple);

/// Oxigraph's evaluation error, the error type of the answer iterators.
#[verifier::external_type_specification]
#[verifier::external_body]
pub struct ExEvaluationError(oxigraph::sparql::EvaluationError);

/// The solutions of a query, collected as soon as the query answers.
#[verifier::external_type_specification]
#[verifier::external_body]
pub struct ExQuerySolutionIter(oxigraph::sparql::QuerySolutionIter);

/// The triples of a query, collected as soon as the query answers.
#[verifier::external_type_specification]
#[verifier::external_body]
pub struct ExQueryTripleIter(oxigraph::sparql::QueryTripleIter);

/// A point in time, for measuring how long loading and querying take.
#[verifier::external_type_specification]
#[verifier::external_body]
pub struct ExInstant(std::time::Instant);

/// The quads a store holds, each written as its N-Quads line.
pub uninterp spec fn store_quads(store: oxigraph::store::Store) -> Set<Seq<char>>;

/// Whether a text is an IRI that `oxiri` parses (as a parser's base IRI).
pub uninterp spec fn base_iri_parses(iri: Seq<char>) -> bool;

/// The kind of answer a query asks for, as far as its text decides it.
pub ghost enum QueryShape {
    /// `SELECT`: solutions over these variables (by name, without `?`), in
    /// this order.
    Solutions { variables: Seq<Seq<char>> },
    /// `ASK`: a boolean.
    Boolean,
    /// `CONSTRUCT` or `DESCRIBE`: a graph.
    Graph,
}

/// What `Store::query` makes of a SPARQL text before it reads any data:
/// `None` where `spargebra`'s `Query::parse` (without a base IRI) refuses
/// it; otherwise the shape of the answer, with the variables of a `SELECT`
/// as the evaluator lists them for the parsed query (its projection).
pub uninterp spec fn query_shape(query: Seq<char>) -> Option<QueryShape>;

/// Whether a SPARQL text parses as a query.
pub open spec fn sparql_parses(query: Seq<char>) -> bool {
    query_shape(query) is Some
}

/// The shape of an answer: its kind, and for solutions its variables.
pub open spec fn answer_shape(answer: QueryAnswer) -> QueryShape {
    match answer {
        QueryAnswer::Solutions { variables, .. } => QueryShape::Solutions {
            variables: variables@.map_values(|v: String| v@),
        },
        QueryAnswer::Boolean(_) => QueryShape::Boolean,
        QueryAnswer::Graph { .. } => QueryShape::Graph,
    }
}

/// Whether the bytes parse as RDF in the given syntax with the given base
/// IRI (`RdfParser::for_reader` reads them to the end without an error).
pub uninterp spec fn rdf_parses(syntax: RdfSyntax, base: Seq<char>, content: Seq<u8>) -> bool;

/// Whether a parser of the syntax takes the base IRI: N-Triples and N-Quads
/// ignore it, the others need one that parses.
pub open spec fn base_accepted(syntax: RdfSyntax, base: Seq<char>) -> bool {
    syntax == RdfSyntax::NTriples || syntax == RdfSyntax::NQuads || base_iri_parses(base)
}

/// Why loading a file failed: the base IRI was refused, or the bytes did
/// not parse. Each holds the parser's message.
enum LoadFailure {
    BaseIri(String),
    Syntax(String),
}

/// Calls `oxigraph::store::Store::new`. Without the `rocksdb` feature the
/// store lives in memory and is made without fail.
/// Claims: it succeeds, and the store holds no quads.
#[verifier::external_body]
fn new_store() -> (r: core::result::Result<oxigraph::store::Store, String>)
    ensures
        r is Ok,
        r matches Ok(s) ==> store_quads(s) == Set::<Seq<char>>::empty(),
{
    oxigraph::store::Store::new().map_err(|e| e.to_string())
}

/// Calls `oxigraph::store::Store::len`; an in-memory store counts without
/// fail.
/// Claims: it succeeds with the number of quads the store holds, which are
/// finitely many.
#[verifier::external_body]
fn store_len(store: &oxigraph::store::Store) -> (r: core::result::Result<usize, String>)
    ensures
        r is Ok,
        r matches Ok(n) ==> store_quads(*store).finite() && n == store_quads(*store).len(),
{
    store.len().map_err(|e| e.to_string())
}

/// Builds an `oxigraph::io::RdfParser` for the syntax (`from_format`,
/// `with_base_iri`) and calls `oxigraph::store::Store::load_from_reader` on
/// the bytes.
/// Claims: the base IRI is refused exactly where `base_accepted` says so;
/// otherwise the load succeeds exactly where the bytes parse (the loader
/// reads the whole file before it inserts, and inserting into memory does
/// not fail). A load only adds quads, and a failed one changes nothing.
/// Which quads are added (blank nodes get fresh random names) and the
/// error texts are not described. The store changes behind a shared
/// reference; the wrapper takes it mutably so that proofs see the change.
#[verifier::external_body]
fn load_into(
    store: &mut oxigraph::store::Store,
    syntax: RdfSyntax,
    base_iri: &str,
    content: &[u8],
) -> (r: core::result::Result<(), LoadFailure>)
    ensures
        !(syntax == RdfSyntax::NTriples || syntax == RdfSyntax::NQuads || base_iri_parses(base_iri@))
            ==> r matches Err(LoadFailure::BaseIri(_)),
        base_accepted(syntax, base_iri@) ==> (r is Ok <==> rdf_parses(syntax, base_iri@, content@)),
        base_accepted(syntax, base_iri@) && r is Err ==> r matches Err(LoadFailure::Syntax(_)),
        r is Ok ==> store_quads(*old(store)).subset_of(store_quads(*final(store))),
        r is Err ==> store_quads(*final(store)) == store_quads(*old(store)),
{
    let format = match syntax {
        RdfSyntax::RdfXml => oxigraph::io::RdfFormat::RdfXml,
        RdfSyntax::Turtle => oxigraph::io::RdfFormat::Turtle,
        RdfSyntax::NTriples => oxigraph::io::RdfFormat::NTriples,
        RdfSyntax::NQuads => oxigraph::io::RdfFormat::NQuads,
        RdfSyntax::TriG => oxigraph::io::RdfFormat::TriG,
    };
    let parser = oxigraph::io::RdfParser::from_format(format).with_base_iri(base_iri);
    let parser = parser.map_err(|e| LoadFailure::BaseIri(e.to_string()))?;
    store.load_from_reader(parser, content).map_err(|e| LoadFailure::Syntax(e.to_string()))
}

/// Converts an Oxigraph term to the library's term, variant for variant.
#[verifier::external_body]
fn term_of(term: Term) -> (r: RdfTerm) {
    match term {
        Term::NamedNode(n) => RdfTerm::Iri(n.into_string()),
        Term::BlankNode(b) => RdfTerm::Blank(b.into_string()),
        Term::Literal(l) => RdfTerm::Literal {
            value: l.value().to_string(),
            datatype: l.datatype().as_str().to_string(),
            language: l.language().map(|t| t.to_string()),
        },
        Term::Triple(t) => RdfTerm::Triple(
            Box::new(term_of(t.subject.into())),
            Box::new(term_of(t.predicate.into())),
            Box::new(term_of(t.object)),
        ),
    }
}

/// The values of a solution, in the order of its variables
/// (`QuerySolution::values`), converted term by term.
#[verifier::external_body]
fn solution_values(solution: &oxigraph::sparql::QuerySolution) -> (r: Vec<Option<RdfTerm>>) {
    solution.values().iter().map(|v| v.clone().map(term_of)).collect()
}

/// The subject, predicate and object of a triple, converted.
#[verifier::external_body]
fn triple_terms(triple: oxigraph::model::Triple) -> (r: (RdfTerm, RdfTerm, RdfTerm)) {
    (term_of(triple.subject.into()), term_of(triple.predicate.into()), term_of(triple.object))
}

/// Collects the solutions of a `QuerySolutionIter`: its variables' names
/// and each solution's values, stopping at the first error. What the
/// evaluation yields is not described.
#[verifier::external_body]
fn solutions_answer(solutions: QuerySolutionIter) -> (r: core::result::Result<QueryAnswer, String>) {
    let variables = solutions.variables().iter().map(|v| v.as_str().to_string()).collect();
    let rows = solutions.map(|s| s.map(|s| solution_values(&s))).collect::<core::result::Result<_, _>>();
    Ok(QueryAnswer::Solutions { variables, rows: rows.map_err(|e| e.to_string())? })
}

/// Collects the triples of a `QueryTripleIter`, stopping at the first
/// error. What the evaluation yields is not described.
#[verifier::external_body]
fn graph_answer(triples: QueryTripleIter) -> (r: core::result::Result<QueryAnswer, String>) {
    let triples = triples.map(|t| t.map(triple_terms)).collect::<core::result::Result<_, _>>();
    Ok(QueryAnswer::Graph { triples: triples.map_err(|e| e.to_string())? })
}

/// Calls `oxigraph::store::Store::query` and collects the answer.
/// Claims: it fails where the text does not parse as a query, which it
/// checks first; an answer has the shape the text asks for (solutions with
/// the query's variables in order for `SELECT`, a boolean for `ASK`, a
/// graph for `CONSTRUCT` and `DESCRIBE`). Which solutions, which boolean
/// or which triples come back is not described: that depends on the store,
/// and a query may read the clock or draw random numbers.
#[verifier::external_body]
fn run_query(store: &Store, query: &str) -> (r: core::result::Result<QueryAnswer, String>)
    ensures
        r matches Ok(a) ==> query_shape(query@) == Some(answer_shape(a)),
        query_shape(query@) is None ==> r is Err,
{
    match store.query(query).map_err(|e| e.to_string())? {
        QueryResults::Boolean(b) => Ok(QueryAnswer::Boolean(b)),
        QueryResults::Solutions(s) => solutions_answer(s),
        QueryResults::Graph(g) => graph_answer(g),
    }
}

/// Calls `std::time::Instant::now`.
#[verifier::external_body]
fn now() -> (r: std::time::Instant) {
    std::time::Instant::now()
}

/// Calls `std::time::Instant::elapsed`.
/// Claims: the nanoseconds beyond the whole seconds are fewer than a
/// second's (as `Duration::subsec_nanos` documents).
#[verifier::external_body]
fn elapsed_since(start: &std::time::Instant) -> (r: Elapsed)
    ensures
        r.nanos < 1_000_000_000,
{
    let d = start.elapsed();
    Elapsed { secs: d.as_secs(), nanos: d.subsec_nanos() }
}

/// Calls `memory_stats::memory_stats` and keeps the physical memory in use.
#[verifier::external_body]
fn physical_memory() -> (r: Option<usize>) {
    memory_stats::memory_stats().map(|s| s.physical_mem)
}

// ---------------------------------------------------------------------
// The engine
// ---------------------------------------------------------------------

/// Turns the store's answer into results: each term written as
/// `term_text` says, an unbound variable as an empty cell.
pub fn results_of_answer(answer: QueryAnswer) -> (r: (QueryResultsData, usize))
    ensures
        r.0@ == answer_results(answer),
        r.1 == result_count(r.0@),
{
    match answer {
        QueryAnswer::Solutions { variables, rows } => {
            let ghost want = answer_results(QueryAnswer::Solutions { variables, rows });
            let n = variables.len();
            let mut out: Vec<Vec<String>> = Vec::new();
            let mut i: usize = 0;
            while i < rows.len()
                invariant
                    i <= rows@.len(),
                    n == variables@.len(),
                    out@.len() == i,
                    forall|k: int| 0 <= k < i ==> (#[trigger] out@[k])@.map_values(|c: String| c@)
                        == row_text(n as nat, rows@[k]@),
                decreases rows.len() - i,
            {
                let row = &rows[i];
                let mut cells: Vec<String> = Vec::new();
                let mut j: usize = 0;
                while j < n
                    invariant
                        j <= n,
                        cells@.len() == j,
                        forall|m: int| 0 <= m < j ==> (#[trigger] cells@[m])@ == row_text(n as nat, row@)[m],
                    decreases n - j,
                {
                    let cell = if j < row.len() {
                        match &row[j] {
                            Some(t) => format_term(t),
                            None => String::new(),
                        }
                    } else {
                        String::new()
                    };
                    cells.push(cell);
                    j = j + 1;
                }
                assert(cells@.map_values(|c: String| c@) =~= row_text(n as nat, row@));
                out.push(cells);
                i = i + 1;
            }
            let count = out.len();
            let results = QueryResultsData::Solutions { variables, rows: out };
            assert(results@ == want) by {
                if let ResultsView::Solutions { rows: got, .. } = results@ {
                    if let ResultsView::Solutions { rows: w, .. } = want {
                        assert(got =~= w);
                    }
                }
            }
            (results, count)
        },
        QueryAnswer::Boolean(b) => (QueryResultsData::Boolean(b), 1),
        QueryAnswer::Graph { triples } => {
            let ghost want = answer_results(QueryAnswer::Graph { triples });
            let mut out: Vec<(String, String, String)> = Vec::new();
            let mut i: usize = 0;
            while i < triples.len()
                invariant
                    i <= triples@.len(),
                    out@.len() == i,
                    forall|k: int| 0 <= k < i ==> {
                        let t = #[trigger] out@[k];
                        let s = triples@[k];
                        t.0@ == term_text(s.0) && t.1@ == term_text(s.1) && t.2@ == term_text(s.2)
                    },
                decreases triples.len() - i,
            {
                let t = &triples[i];
                out.push((format_term(&t.0), format_term(&t.1), format_term(&t.2)));
                i = i + 1;
            }
            let count = out.len();
            let results = QueryResultsData::Graph { triples: out };
            assert(results@ == want) by {
                if let ResultsView::Graph { triples: got } = results@ {
                    if let ResultsView::Graph { triples: w } = want {
                        assert(got =~= w);
                    }
                }
            }
            (results, count)
        },
    }
}

/// The base IRI a file is parsed with: the configured one followed by the
/// file's name.
pub open spec fn file_base_iri(config_base: Seq<char>, filename: Seq<char>) -> Seq<char> {
    config_base + filename
}

/// Whether a file loads: in the syntax its name selects, with its base IRI,
/// the parser takes the base IRI and parses the bytes.
pub open spec fn file_loads(config_base: Seq<char>, f: FileView) -> bool {
    let syntax = syntax_for(f.filename);
    let base = file_base_iri(config_base, f.filename);
    base_accepted(syntax, base) && rdf_parses(syntax, base, f.content)
}

/// Whether every file loads.
pub open spec fn all_files_load(config_base: Seq<char>, files: Seq<FileView>) -> bool {
    forall|i: int| 0 <= i < files.len() ==> file_loads(config_base, #[trigger] files[i])
}

/// The error of the first file that does not load: an RDF parse error,
/// which begins with the file's name and `: ` where its base IRI was
/// taken and its bytes did not parse.
pub open spec fn first_load_failure(config_base: Seq<char>, files: Seq<FileView>, e: PipelineError) -> bool {
    exists|k: int|
        #![trigger files[k]]
        {
            &&& 0 <= k < files.len()
            &&& !file_loads(config_base, files[k])
            &&& forall|j: int| 0 <= j < k ==> file_loads(config_base, #[trigger] files[j])
            &&& e matches PipelineError::RdfParse(m)
            &&& base_accepted(syntax_for(files[k].filename), file_base_iri(config_base, files[k].filename))
                ==> has_prefix(e->RdfParse_0@, files[k].filename + ": "@)
        }
}

/// Loads files into a store, in order, each in the syntax its name selects
/// (`syntax_for`) with `base_iri` followed by its name as base IRI, and
/// counts the quads they added: loading only adds quads, so the count is
/// how many more quads the store holds than before. The first file that
/// does not load stops the loading, and its error is returned.
pub fn load_files(store: &mut Store, files: &Vec<ProcessedFile>, base_iri: &str) -> (r: Result<usize>)
    ensures
        r is Ok <==> all_files_load(base_iri@, file_views(files@)),
        r matches Err(e) ==> first_load_failure(base_iri@, file_views(files@), e),
        r matches Ok(t) ==> {
            &&& store_quads(*old(store)).subset_of(store_quads(*final(store)))
            &&& (files@.len() > 0 ==> store_quads(*final(store)).finite())
            &&& (files@.len() == 0 ==> store_quads(*final(store)) == store_quads(*old(store)))
            &&& t == store_quads(*final(store)).len() - store_quads(*old(store)).len()
        },
{
    let ghost views = file_views(files@);
    let ghost initial = store_quads(*store);
    let mut triples_loaded: usize = 0;
    let mut i: usize = 0;
    while i < files.len()
        invariant
            i <= files@.len(),
            views == file_views(files@),
            initial == store_quads(*old(store)),
            initial.subset_of(store_quads(*store)),
            i == 0 ==> store_quads(*store) == initial,
            i > 0 ==> store_quads(*store).finite(),
            i > 0 ==> triples_loaded == store_quads(*store).len() - initial.len(),
            i == 0 ==> triples_loaded == 0,
            forall|k: int| 0 <= k < i ==> file_loads(base_iri@, #[trigger] views[k]),
        decreases files.len() - i,
    {
        let file = &files[i];
        assert(views[i as int] == file@);
        let syntax = syntax_of(file.filename.as_str());
        let mut base = String::from_str(base_iri);
        base.append(file.filename.as_str());
        let count_before = match store_len(store) {
            Ok(n) => n,
            Err(e) => return Err(PipelineError::Query(e)),
        };
        let ghost quads_before = store_quads(*store);
        match load_into(store, syntax, base.as_str(), file.content.as_slice()) {
            Ok(()) => {},
            Err(LoadFailure::BaseIri(e)) => {
                let err = PipelineError::RdfParse(e);
                assert(first_load_failure(base_iri@, views, err)) by {
                    assert(!file_loads(base_iri@, views[i as int]));
                }
                return Err(err);
            },
            Err(LoadFailure::Syntax(e)) => {
                let mut m = file.filename.clone();
                m.append(": ");
                let ghost prefix = m@;
                m.append(e.as_str());
                assert(m@.subrange(0, prefix.len() as int) =~= prefix);
                let err = PipelineError::RdfParse(m);
                assert(first_load_failure(base_iri@, views, err)) by {
                    assert(!file_loads(base_iri@, views[i as int]));
                }
                return Err(err);
            },
        }
        let count_after = match store_len(store) {
            Ok(n) => n,
            Err(e) => return Err(PipelineError::Query(e)),
        };
        proof {
            lemma_len_subset(quads_before, store_quads(*store));
            lemma_len_subset(initial, quads_before);
        }
        let loaded = count_after - count_before;
        assert(triples_loaded + loaded <= count_after);
        triples_loaded = triples_loaded + loaded;
        i = i + 1;
    }
    proof {
        if files@.len() == 0 {
            assert(store_quads(*store) == initial);
        }
    }
    Ok(triples_loaded)
}

/// What the engine gives for files, a configured base IRI and the query
/// text the configuration names. An answer comes only where every file
/// loads and the text parses as a query: it counts every file, its results
/// are the rendering (one cell per variable, empty where unbound) of an
/// answer of the shape the query text asks for (a `SELECT` gives solutions
/// over its variables in order, an `ASK` a boolean, a `CONSTRUCT` or
/// `DESCRIBE` a graph), its count is theirs, and the quads loaded are
/// counted as the quads the store holds after loading (which it started
/// without), none without files. Otherwise the error is, in this order: the first file that
/// does not load; the error of reading the query text; a SPARQL error.
pub open spec fn engine_outcome(
    config_base: Seq<char>,
    files: Seq<FileView>,
    query_text: Result<String>,
    r: Result<QueryOutput>,
) -> bool {
    match r {
        Ok(out) => {
            &&& all_files_load(config_base, files)
            &&& query_text is Ok
            &&& out.files_loaded == files.len()
            &&& exists|a: QueryAnswer|
                query_shape(query_text->Ok_0@) == Some(answer_shape(a)) && out.results@
                    == #[trigger] answer_results(a)
            &&& out.count == result_count(out.results@)
            &&& exists|loaded: Set<Seq<char>>|
                #![trigger loaded.len()]
                loaded.finite() && out.triples_loaded == loaded.len() && (files.len() == 0 ==> loaded
                    == Set::<Seq<char>>::empty())
        },
        Err(e) => if !all_files_load(config_base, files) {
            first_load_failure(config_base, files, e)
        } else {
            match query_text {
                Err(e0) => e == e0,
                Ok(_) => e is Sparql,
            }
        },
    }
}

/// An engine that loads processed files and answers a query on them.
pub trait QueryEngine {
    /// Loads the files and runs the query text (read by the caller from the
    /// configuration; where that read failed, its error is returned once
    /// the files are loaded).
    fn execute(&self, files: Vec<ProcessedFile>, config: &QueryConfig, query_text: Result<String>) -> (r:
        Result<QueryOutput>)
        ensures
            engine_outcome(config.base_iri@, file_views(files@), query_text, r),
    ;
}

/// SPARQL query engine using Oxigraph.
pub struct SparqlEngine {
    base_iri: String,
}

impl SparqlEngine {
    /// The base IRI the engine was made with.
    pub closed spec fn base_iri_view(&self) -> Seq<char> {
        self.base_iri@
    }

    pub fn new(base_iri: String) -> (r: SparqlEngine)
        ensures
            r.base_iri_view() == base_iri@,
    {
        SparqlEngine { base_iri }
    }

    /// An engine with the base IRI `http://example.org/`.
    pub fn default() -> (r: SparqlEngine)
        ensures
            r.base_iri_view() == "http://example.org/"@,
    {
        SparqlEngine::new(String::from_str("http://example.org/"))
    }
}

/// `SparqlEngine::default()` is the engine `SparqlEngine::new` makes with
/// `http://example.org/`: an engine holds nothing but its base IRI, and
/// the two hold the same one. (What `execute` gives does not depend on the
/// engine at all: it reads the configuration's base IRI.)
pub proof fn law_default_engine_is_example_engine(d: SparqlEngine, n: SparqlEngine)
    requires
        d.base_iri_view() == "http://example.org/"@,
        n.base_iri_view() == "http://example.org/"@,
    ensures
        d.base_iri_view() == n.base_iri_view(),
{
}

impl QueryEngine for SparqlEngine {
    /// Loads the files into a fresh store and runs the query on it.
    ///
    /// Each file is parsed in the syntax its name selects (`syntax_for`),
    /// with the configured base IRI followed by its name as base IRI. Every
    /// file is loaded before the query runs, so a result counts them all.
    fn execute(&self, files: Vec<ProcessedFile>, config: &QueryConfig, query_text: Result<String>) -> (r:
        Result<QueryOutput>) {
        let mut store = match new_store() {
            Ok(s) => s,
            Err(e) => return Err(PipelineError::Query(e)),
        };
        let load_start = now();
        let ghost empty = store_quads(store);
        let triples_loaded = match load_files(&mut store, &files, config.base_iri.as_str()) {
            Ok(t) => t,
            Err(e) => return Err(e),
        };
        let ghost loaded = store_quads(store);
        proof {
            if files@.len() == 0 {
                assert(loaded == empty);
            }
            assert(loaded.finite());
            assert(triples_loaded == loaded.len());
        }
        let files_loaded = files.len();
        let load_time = elapsed_since(&load_start);
        let query_str = match query_text {
            Ok(q) => q,
            Err(e) => return Err(e),
        };
        let query_start = now();
        let answer = match run_query(&store, query_str.as_str()) {
            Ok(a) => a,
            Err(e) => return Err(PipelineError::Sparql(e)),
        };
        let query_time = elapsed_since(&query_start);
        let ghost a = answer;
        let (results, count) = results_of_answer(answer);
        assert(results@ == answer_results(a));
        let peak_memory_bytes = physical_memory();
        Ok(QueryOutput { results, count, load_time, query_time, files_loaded, triples_loaded, peak_memory_bytes })
    }
}

} // verus!
