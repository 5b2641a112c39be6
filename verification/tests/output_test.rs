use cimishi::config::pipeline::{OutputConfig, OutputFormat};
use cimishi::output::{
    create_writers, CsvWriter, JsonWriter, MetadataFigures, MetadataWriter, OutputMetadata, OutputWriter,
    TerminalWriter, Timestamp,
};
use cimishi::query::{Elapsed, QueryOutput, QueryResultsData};

fn make_test_output(results: QueryResultsData, count: usize) -> QueryOutput {
    QueryOutput {
        results,
        count,
        load_time: Elapsed { secs: 0, nanos: 100_000_000 },
        query_time: Elapsed { secs: 0, nanos: 50_000_000 },
        files_loaded: 1,
        triples_loaded: 10,
        peak_memory_bytes: Some(1024),
    }
}

fn make_test_metadata() -> OutputMetadata {
    OutputMetadata { pipeline_name: "test".to_string(), timestamp: Timestamp::from_unix(1431648000, 0).unwrap() }
}

fn make_test_config(formats: Vec<OutputFormat>) -> OutputConfig {
    OutputConfig { dir: "out".to_string(), formats, metadata: false, prefix: Some("test".to_string()) }
}

fn figures() -> MetadataFigures {
    MetadataFigures {
        load_time_secs: "0.100".to_string(),
        query_time_secs: "0.050".to_string(),
        peak_memory_mb: "0.00".to_string(),
    }
}

fn solutions(vars: &[&str], rows: &[&[&str]]) -> QueryResultsData {
    QueryResultsData::Solutions {
        variables: vars.iter().map(|v| v.to_string()).collect(),
        rows: rows.iter().map(|r| r.iter().map(|c| c.to_string()).collect()).collect(),
    }
}

fn graph() -> QueryResultsData {
    QueryResultsData::Graph {
        triples: vec![(
            "http://example.org/s".to_string(),
            "http://example.org/p".to_string(),
            "http://example.org/o".to_string(),
        )],
    }
}

#[test]
fn test_csv_solutions_output() {
    let output = make_test_output(solutions(&["name", "value"], &[&["alice", "42"], &["bob", "99"]]), 2);
    let content = CsvWriter.render(&output);
    let lines: Vec<&str> = content.lines().collect();
    assert_eq!(lines[0], "name,value");
    assert_eq!(lines.len(), 3);
    assert_eq!(lines[1], "alice,42");
    assert_eq!(lines[2], "bob,99");
}

#[test]
fn test_csv_escaping() {
    let output = make_test_output(solutions(&["col"], &[&["has,comma"], &["has\"quote"], &["has\nnewline"]]), 3);
    let content = CsvWriter.render(&output);
    assert!(content.contains("\"has,comma\""));
    assert!(content.contains("\"has\"\"quote\""));
    assert!(content.contains("\"has\nnewline\""));
}

#[test]
fn test_csv_boolean_output() {
    let output = make_test_output(QueryResultsData::Boolean(true), 1);
    let content = CsvWriter.render(&output);
    let lines: Vec<&str> = content.lines().collect();
    assert_eq!(lines[0], "result");
    assert_eq!(lines[1], "true");
}

#[test]
fn test_csv_graph_output() {
    let output = make_test_output(graph(), 1);
    let content = CsvWriter.render(&output);
    let lines: Vec<&str> = content.lines().collect();
    assert_eq!(lines[0], "subject,predicate,object");
    assert_eq!(lines.len(), 2);
    assert_eq!(lines[1], "http://example.org/s,http://example.org/p,http://example.org/o");
}

#[test]
fn csv_cell_quoting_exact() {
    assert_eq!(cimishi::output::csv::csv_escape("plain"), "plain");
    assert_eq!(cimishi::output::csv::csv_escape("a\"b"), "\"a\"\"b\"");
    assert_eq!(cimishi::output::csv::csv_escape("a,b"), "\"a,b\"");
    assert_eq!(CsvWriter.render(&make_test_output(solutions(&[], &[]), 0)), "\n");
}

#[test]
fn test_json_solutions_output() {
    let output = make_test_output(solutions(&["name", "value"], &[&["alice", "42"], &["bob", "99"]]), 2);
    let content = JsonWriter.render(&output);
    let parsed: serde_json::Value = serde_json::from_str(&content).unwrap();
    assert_eq!(parsed["type"], "solutions");
    assert_eq!(parsed["count"], 2);
    assert!(parsed["results"].is_array());
    assert_eq!(parsed["results"].as_array().unwrap().len(), 2);
}

#[test]
fn test_json_boolean_output() {
    let output = make_test_output(QueryResultsData::Boolean(false), 1);
    let content = JsonWriter.render(&output);
    let parsed: serde_json::Value = serde_json::from_str(&content).unwrap();
    assert_eq!(parsed["type"], "boolean");
    assert_eq!(parsed["result"], false);
}

#[test]
fn test_json_graph_output() {
    let output = make_test_output(graph(), 1);
    let content = JsonWriter.render(&output);
    let parsed: serde_json::Value = serde_json::from_str(&content).unwrap();
    assert_eq!(parsed["type"], "graph");
    assert!(parsed["triples"].is_array());
    assert_eq!(parsed["triples"].as_array().unwrap().len(), 1);
}

#[test]
fn test_json_escaping() {
    let output = make_test_output(solutions(&["col"], &[&["back\\slash"], &["has\"quote"]]), 2);
    let content = JsonWriter.render(&output);
    let parsed: serde_json::Value = serde_json::from_str(&content).unwrap();
    let results = parsed["results"].as_array().unwrap();
    assert_eq!(results[0]["col"], "back\\slash");
    assert_eq!(results[1]["col"], "has\"quote");
}

#[test]
fn json_solutions_exact_text() {
    let output = make_test_output(solutions(&["a", "b"], &[&["1", "2"]]), 1);
    assert_eq!(
        JsonWriter.render(&output),
        "{\n  \"type\": \"solutions\",\n  \"variables\": [\"a\", \"b\"],\n  \"results\": [\n    {\"a\": \"1\", \"b\": \"2\"}\n  ],\n  \"count\": 1\n}\n"
    );
}

#[test]
fn terminal_output_is_tab_separated() {
    let t = TerminalWriter;
    assert_eq!(t.render(&make_test_output(solutions(&["a", "b"], &[&["1", "2"]]), 1)), "a\tb\n1\t2\n");
    assert_eq!(t.render(&make_test_output(QueryResultsData::Boolean(true), 1)), "true\n");
    assert_eq!(
        t.render(&make_test_output(graph(), 1)),
        "subject\tpredicate\tobject\nhttp://example.org/s\thttp://example.org/p\thttp://example.org/o\n"
    );
}

#[test]
fn metadata_report_lines() {
    let output = make_test_output(QueryResultsData::Boolean(true), 1);
    let text = MetadataWriter.render(&output, &make_test_metadata(), &figures());
    assert_eq!(
        text,
        "pipeline_name: test\ntimestamp: 2015-05-15T00:00:00+00:00\nfiles_loaded: 1\ntriples_loaded: 10\n\
load_time_ms: 100\nload_time_secs: 0.100\nquery_time_ms: 50\nquery_time_secs: 0.050\nresult_count: 1\n\
peak_memory_bytes: 1024\npeak_memory_mb: 0.00\n"
    );
    let mut no_mem = make_test_output(QueryResultsData::Boolean(true), 1);
    no_mem.peak_memory_bytes = None;
    assert!(!MetadataWriter.render(&no_mem, &make_test_metadata(), &figures()).contains("peak_memory"));
}

#[test]
fn output_file_names_use_prefix_and_timestamp() {
    let md = make_test_metadata();
    let config = make_test_config(vec![OutputFormat::Csv]);
    assert_eq!(CsvWriter.file_name(&md, &config), "test_20150515_000000.csv");
    assert_eq!(JsonWriter.file_name(&md, &config), "test_20150515_000000.json");
    let no_prefix = OutputConfig { prefix: None, ..config };
    assert_eq!(MetadataWriter.file_name(&md, &no_prefix), "results_20150515_000000.metadata");
}

#[test]
fn timestamp_out_of_range_is_refused() {
    assert!(Timestamp::from_unix(i64::MAX, 0).is_none());
    assert_eq!(Timestamp::from_unix(0, 0).unwrap().compact(), "19700101_000000");
}

#[test]
fn writers_follow_formats_then_metadata() {
    let mut config = make_test_config(vec![OutputFormat::Json, OutputFormat::Terminal, OutputFormat::Csv]);
    config.metadata = true;
    let writers = create_writers(&config);
    assert_eq!(writers.len(), 4);
    assert!(matches!(writers[0], OutputWriter::Json(_)));
    assert!(matches!(writers[1], OutputWriter::Terminal(_)));
    assert!(matches!(writers[2], OutputWriter::Csv(_)));
    assert!(matches!(writers[3], OutputWriter::Metadata(_)));
    let output = make_test_output(QueryResultsData::Boolean(true), 1);
    let r = writers[1].render(&output, &make_test_metadata(), &config, &figures());
    assert!(r.file_name.is_none());
    assert_eq!(r.content, "true\n");
    let r = writers[2].render(&output, &make_test_metadata(), &config, &figures());
    assert_eq!(r.file_name.as_deref(), Some("test_20150515_000000.csv"));
}

#[test]
fn csv_graph_cells_are_quoted_like_row_cells() {
    let output = make_test_output(
        QueryResultsData::Graph { triples: vec![("a,b".to_string(), "p".to_string(), "say \"o\"".to_string())] },
        1,
    );
    let content = CsvWriter.render(&output);
    let lines: Vec<&str> = content.lines().collect();
    assert_eq!(lines, vec!["subject,predicate,object", "\"a,b\",p,\"say \"\"o\"\"\""]);
}

#[test]
fn json_control_characters_are_escaped() {
    let output = make_test_output(solutions(&["col"], &[&["line\nbreak\ttab\r\u{1}end"]]), 1);
    let content = JsonWriter.render(&output);
    assert!(content.contains("line\\nbreak\\ttab\\r\\u0001end"));
    let parsed: serde_json::Value = serde_json::from_str(&content).unwrap();
    assert_eq!(parsed["variables"][0], "col");
    assert_eq!(parsed["results"][0]["col"], "line\nbreak\ttab\r\u{1}end");
    assert_eq!(parsed["count"], 1);
    let graph = make_test_output(
        QueryResultsData::Graph { triples: vec![("s\u{1f}".to_string(), "p".to_string(), "o\n".to_string())] },
        1,
    );
    let parsed: serde_json::Value = serde_json::from_str(&JsonWriter.render(&graph)).unwrap();
    assert_eq!(parsed["triples"][0]["subject"], "s\u{1f}");
    assert_eq!(parsed["triples"][0]["object"], "o\n");
}
