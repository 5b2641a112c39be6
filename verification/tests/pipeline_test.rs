use cimishi::config::pipeline::{
    default_config, FilterProcessorConfig, PipelineConfig, ProcessorConfig, UnzipProcessorConfig,
};
use cimishi::error::PipelineError;
use cimishi::pipeline::Pipeline;
use cimishi::processors::ProcessedFile;
use cimishi::query::QueryResultsData;
use cimishi::sources::FetchedFile;

fn fetched(name: &str, content: &str) -> FetchedFile {
    FetchedFile { path: name.to_string(), filename: name.to_string(), content: content.as_bytes().to_vec(), source: "s".to_string() }
}

fn processed(name: &str, content: &str) -> ProcessedFile {
    ProcessedFile::from(fetched(name, content))
}

fn config_with(processors: Vec<ProcessorConfig>) -> PipelineConfig {
    let mut c = default_config();
    c.processors = processors;
    c
}

#[test]
fn fetched_files_are_gathered_in_source_order() {
    let results = vec![
        Ok(vec![fetched("a", ""), fetched("b", "")]),
        Err(PipelineError::Source { source_name: "x".to_string(), message: "down".to_string() }),
        Ok(vec![fetched("c", "")]),
    ];
    let files = Pipeline::gather_fetched(results);
    let names: Vec<&str> = files.iter().map(|f| f.filename.as_str()).collect();
    assert_eq!(names, vec!["a", "b", "c"]);
}

#[test]
fn processors_run_in_order() {
    let filter_xml = ProcessorConfig::Filter(FilterProcessorConfig { included: vec!["*.nt".to_string()], exclude: vec![] });
    let filter_b = ProcessorConfig::Filter(FilterProcessorConfig { included: vec![], exclude: vec!["b*".to_string()] });
    let p = Pipeline::new(config_with(vec![filter_xml, filter_b]));
    let out = p.process_all(vec![processed("a.nt", ""), processed("b.nt", ""), processed("c.txt", "")]).unwrap();
    let names: Vec<&str> = out.iter().map(|f| f.filename.as_str()).collect();
    assert_eq!(names, vec!["a.nt"]);
    let none = Pipeline::new(config_with(vec![]));
    assert_eq!(none.process_all(vec![processed("c.txt", "")]).unwrap().len(), 1);
}

#[test]
fn query_stage_stops_when_nothing_is_left() {
    let p = Pipeline::new(config_with(vec![ProcessorConfig::Filter(FilterProcessorConfig {
        included: vec!["*.xml".to_string()],
        exclude: vec![],
    })]));
    assert!(matches!(p.query_fetched(vec![], Ok("ASK {}".to_string())), Ok(None)));
    assert!(matches!(p.query_fetched(vec![processed("a.nt", "")], Ok("ASK {}".to_string())), Ok(None)));
}

#[test]
fn query_stage_loads_and_queries() {
    let unzip = ProcessorConfig::Unzip(UnzipProcessorConfig {
        patterns: vec![],
        archive_patterns: vec!["*.zip".to_string()],
        gzip_patterns: vec![],
    });
    let p = Pipeline::new(config_with(vec![unzip]));
    let out = p
        .query_fetched(
            vec![processed("a.nt", "<http://e/s> <http://e/p> <http://e/o> .\n")],
            Ok("SELECT ?s WHERE { ?s ?p ?o }".to_string()),
        )
        .unwrap()
        .unwrap();
    assert_eq!(out.files_loaded, 1);
    match out.results {
        QueryResultsData::Solutions { rows, .. } => assert_eq!(rows, vec![vec!["http://e/s".to_string()]]),
        _ => panic!("expected solutions"),
    }
    assert_eq!(p.config().pipeline.name, "default");
}
