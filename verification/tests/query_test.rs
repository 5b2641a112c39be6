use cimishi::config::pipeline::QueryConfig;
use cimishi::error::PipelineError;
use cimishi::processors::ProcessedFile;
use cimishi::query::sparql::{load_files, results_of_answer, syntax_of};
use cimishi::query::{format_term, QueryAnswer, QueryEngine, QueryResultsData, RdfSyntax, RdfTerm, SparqlEngine};

fn file(name: &str, content: &str) -> ProcessedFile {
    ProcessedFile { path: name.to_string(), filename: name.to_string(), content: content.as_bytes().to_vec(), source: "t".to_string() }
}

fn config() -> QueryConfig {
    QueryConfig { file: None, query: None, base_iri: "http://example.org/".to_string() }
}

const NT: &str = "<http://e/s> <http://e/p> \"v\" .\n<http://e/s> <http://e/q> <http://e/o> .\n";

#[test]
fn terms_are_formatted_plainly() {
    assert_eq!(format_term(&RdfTerm::Iri("http://e/x".to_string())), "http://e/x");
    assert_eq!(format_term(&RdfTerm::Blank("b0".to_string())), "_:b0");
    assert_eq!(format_term(&RdfTerm::Literal { value: "42".to_string(), datatype: "http://www.w3.org/2001/XMLSchema#integer".to_string(), language: None }), "42");
    let t = RdfTerm::Triple(
        Box::new(RdfTerm::Iri("s".to_string())),
        Box::new(RdfTerm::Iri("p".to_string())),
        Box::new(RdfTerm::Literal { value: "o".to_string(), datatype: "http://www.w3.org/1999/02/22-rdf-syntax-ns#langString".to_string(), language: Some("en".to_string()) }),
    );
    assert_eq!(format_term(&t), "<<s p o>>");
}

#[test]
fn syntax_follows_extension() {
    assert_eq!(syntax_of("a.xml"), RdfSyntax::RdfXml);
    assert_eq!(syntax_of("a.rdf"), RdfSyntax::RdfXml);
    assert_eq!(syntax_of("a.ttl"), RdfSyntax::Turtle);
    assert_eq!(syntax_of("a.nt"), RdfSyntax::NTriples);
    assert_eq!(syntax_of("a.nq"), RdfSyntax::NQuads);
    assert_eq!(syntax_of("a.trig"), RdfSyntax::TriG);
    assert_eq!(syntax_of("a.data"), RdfSyntax::RdfXml);
}

#[test]
fn answers_become_text_rows() {
    let answer = QueryAnswer::Solutions {
        variables: vec!["x".to_string(), "y".to_string()],
        rows: vec![vec![Some(RdfTerm::Iri("i".to_string())), None], vec![Some(RdfTerm::Literal { value: "l".to_string(), datatype: "http://www.w3.org/2001/XMLSchema#string".to_string(), language: None })]],
    };
    let (results, count) = results_of_answer(answer);
    assert_eq!(count, 2);
    match results {
        QueryResultsData::Solutions { variables, rows } => {
            assert_eq!(variables, vec!["x".to_string(), "y".to_string()]);
            assert_eq!(rows, vec![vec!["i".to_string(), String::new()], vec!["l".to_string(), String::new()]]);
        }
        _ => panic!("expected solutions"),
    }
    let (b, n) = results_of_answer(QueryAnswer::Boolean(true));
    assert!(matches!(b, QueryResultsData::Boolean(true)));
    assert_eq!(n, 1);
}

#[test]
fn select_query_over_loaded_files() {
    let engine = SparqlEngine::new("http://example.org/".to_string());
    let out = engine
        .execute(
            vec![file("a.nt", NT)],
            &config(),
            Ok("SELECT ?o WHERE { <http://e/s> <http://e/p> ?o }".to_string()),
        )
        .unwrap();
    assert_eq!(out.files_loaded, 1);
    assert_eq!(out.triples_loaded, 2);
    assert_eq!(out.count, 1);
    match out.results {
        QueryResultsData::Solutions { variables, rows } => {
            assert_eq!(variables, vec!["o".to_string()]);
            assert_eq!(rows, vec![vec!["v".to_string()]]);
        }
        _ => panic!("expected solutions"),
    }
}

#[test]
fn ask_and_construct_queries() {
    let engine = SparqlEngine::default();
    let out = engine.execute(vec![file("a.nt", NT)], &config(), Ok("ASK { ?s ?p ?o }".to_string())).unwrap();
    assert!(matches!(out.results, QueryResultsData::Boolean(true)));
    let out = engine
        .execute(vec![file("a.nt", NT)], &config(), Ok("CONSTRUCT { ?s <http://e/q> ?o } WHERE { ?s <http://e/q> ?o }".to_string()))
        .unwrap();
    match out.results {
        QueryResultsData::Graph { triples } => {
            assert_eq!(triples, vec![("http://e/s".to_string(), "http://e/q".to_string(), "http://e/o".to_string())]);
        }
        _ => panic!("expected a graph"),
    }
}

#[test]
fn duplicate_triples_are_counted_once() {
    let engine = SparqlEngine::default();
    let out = engine
        .execute(vec![file("a.nt", NT), file("b.nt", NT)], &config(), Ok("ASK {}".to_string()))
        .unwrap();
    assert_eq!(out.files_loaded, 2);
    assert_eq!(out.triples_loaded, 2);
}

#[test]
fn turtle_is_parsed_with_file_base_iri() {
    let engine = SparqlEngine::default();
    let out = engine
        .execute(vec![file("doc.ttl", "<#me> <#name> \"x\" .")], &config(), Ok("SELECT ?s WHERE { ?s ?p ?o }".to_string()))
        .unwrap();
    match out.results {
        QueryResultsData::Solutions { rows, .. } => assert_eq!(rows, vec![vec!["http://example.org/doc.ttl#me".to_string()]]),
        _ => panic!("expected solutions"),
    }
}

#[test]
fn parse_errors_and_query_errors() {
    let engine = SparqlEngine::default();
    match engine.execute(vec![file("bad.nt", "not rdf")], &config(), Ok("ASK {}".to_string())) {
        Err(PipelineError::RdfParse(m)) => assert!(m.starts_with("bad.nt: ")),
        other => panic!("expected an RDF error, got {:?}", other.map(|o| o.count)),
    }
    assert!(matches!(
        engine.execute(vec![file("a.nt", NT)], &config(), Ok("SELEKT".to_string())),
        Err(PipelineError::Sparql(_))
    ));
    assert!(matches!(
        engine.execute(vec![file("a.nt", NT)], &config(), Err(PipelineError::Config("no query".to_string()))),
        Err(PipelineError::Config(_))
    ));
    let bad_base = QueryConfig { file: None, query: None, base_iri: "not an iri".to_string() };
    assert!(matches!(
        engine.execute(vec![file("a.ttl", "")], &bad_base, Ok("ASK {}".to_string())),
        Err(PipelineError::RdfParse(_))
    ));
}

#[test]
fn loading_counts_new_quads() {
    let mut store = oxigraph::store::Store::new().unwrap();
    let files = vec![file("a.nt", NT)];
    assert_eq!(load_files(&mut store, &files, "http://example.org/").unwrap(), 2);
    // Loading the same triples again adds nothing.
    assert_eq!(load_files(&mut store, &files, "http://example.org/").unwrap(), 0);
    assert_eq!(store.len().unwrap(), 2);
    // A file that does not parse leaves the store as it was.
    assert!(load_files(&mut store, &vec![file("b.nt", "<broken")], "http://example.org/").is_err());
    assert_eq!(store.len().unwrap(), 2);
}

#[test]
fn select_renders_typed_literals_by_value_in_order() {
    let engine = SparqlEngine::default();
    let content = "<http://e/s> <http://e/p> <http://e/o> .\n<http://e/s> <http://e/q> \"42\"^^<http://www.w3.org/2001/XMLSchema#integer> .\n";
    let cfg = QueryConfig {
        file: None,
        query: Some("SELECT ?p ?o WHERE { <http://e/s> ?p ?o } ORDER BY ?p".to_string()),
        base_iri: "http://example.org/".to_string(),
    };
    let out = engine
        .execute(vec![file("t.nt", content)], &cfg, Ok("SELECT ?p ?o WHERE { <http://e/s> ?p ?o } ORDER BY ?p".to_string()))
        .unwrap();
    assert_eq!(out.count, 2);
    assert_eq!(out.files_loaded, 1);
    assert_eq!(out.triples_loaded, 2);
    match out.results {
        QueryResultsData::Solutions { variables, rows } => {
            assert_eq!(variables, vec!["p".to_string(), "o".to_string()]);
            assert_eq!(
                rows,
                vec![
                    vec!["http://e/p".to_string(), "http://e/o".to_string()],
                    vec!["http://e/q".to_string(), "42".to_string()],
                ]
            );
        }
        _ => panic!("expected solutions"),
    }
}

#[test]
fn first_failing_file_stops_the_load() {
    let engine = SparqlEngine::default();
    let files = vec![file("a.nt", NT), file("bad.xml", "not rdf"), file("worse.ttl", "<<<")];
    match engine.execute(files, &config(), Ok("ASK {}".to_string())) {
        Err(PipelineError::RdfParse(m)) => assert!(m.starts_with("bad.xml: ")),
        other => panic!("expected an RDF error, got {:?}", other.map(|o| o.count)),
    }
}

#[test]
fn no_files_load_no_quads() {
    let engine = SparqlEngine::default();
    let out = engine.execute(vec![], &config(), Ok("ASK { ?s ?p ?o }".to_string())).unwrap();
    assert_eq!(out.files_loaded, 0);
    assert_eq!(out.triples_loaded, 0);
    assert!(matches!(out.results, QueryResultsData::Boolean(false)));
}

#[test]
fn default_engine_answers_as_the_example_engine() {
    let a = SparqlEngine::default();
    let b = SparqlEngine::new("http://example.org/".to_string());
    let q = "SELECT ?s ?o WHERE { ?s <http://e/q> ?o }";
    let ra = a.execute(vec![file("a.nt", NT)], &config(), Ok(q.to_string())).unwrap();
    let rb = b.execute(vec![file("a.nt", NT)], &config(), Ok(q.to_string())).unwrap();
    assert_eq!(format!("{:?}", ra.results), format!("{:?}", rb.results));
    assert_eq!(ra.count, rb.count);
    assert_eq!(ra.triples_loaded, rb.triples_loaded);
}

#[test]
fn answer_shape_follows_the_query_form() {
    let engine = SparqlEngine::default();
    let out = engine
        .execute(vec![file("a.nt", NT)], &config(), Ok("SELECT ?o ?s WHERE { ?s ?p ?o } ORDER BY ?o".to_string()))
        .unwrap();
    match out.results {
        QueryResultsData::Solutions { variables, rows } => {
            assert_eq!(variables, vec!["o".to_string(), "s".to_string()]);
            assert!(rows.iter().all(|r| r.len() == 2));
        }
        _ => panic!("expected solutions"),
    }
    let out = engine
        .execute(vec![file("a.nt", NT)], &config(), Ok("DESCRIBE <http://e/s>".to_string()))
        .unwrap();
    assert!(matches!(out.results, QueryResultsData::Graph { .. }));
}
