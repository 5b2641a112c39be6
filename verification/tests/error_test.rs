use cimishi::error::PipelineError;

#[test]
fn test_config_error_display() {
    let err = PipelineError::Config("bad config".to_string());
    assert_eq!(err.to_string(), "Configuration error: bad config");
}

#[test]
fn test_source_error_display() {
    let err = PipelineError::Source { source_name: "s3:bucket".to_string(), message: "connection failed".to_string() };
    assert_eq!(err.to_string(), "Source error: s3:bucket - connection failed");
}

#[test]
fn test_processor_error_display() {
    let err = PipelineError::Processor { processor_name: "unzip".to_string(), message: "corrupt archive".to_string() };
    assert_eq!(err.to_string(), "Processor error: unzip - corrupt archive");
}

#[test]
fn test_query_error_display() {
    let err = PipelineError::Query("timeout".to_string());
    assert_eq!(err.to_string(), "Query error: timeout");
}

#[test]
fn test_output_error_display() {
    let err = PipelineError::Output("disk full".to_string());
    assert_eq!(err.to_string(), "Output error: disk full");
}

#[test]
fn test_rdf_parse_error_display() {
    let err = PipelineError::RdfParse("invalid XML".to_string());
    assert_eq!(err.to_string(), "RDF parsing error: invalid XML");
}

#[test]
fn test_sparql_error_display() {
    let err = PipelineError::Sparql("syntax error".to_string());
    assert_eq!(err.to_string(), "SPARQL error: syntax error");
}

#[test]
fn test_zip_error_display() {
    let err = PipelineError::Zip("bad archive".to_string());
    assert_eq!(err.to_string(), "Zip error: bad archive");
}

#[test]
fn other_errors_display() {
    assert_eq!(PipelineError::Io("x".to_string()).to_string(), "IO error: x");
    assert_eq!(PipelineError::ObjectStore("x".to_string()).to_string(), "Object store error: x");
    assert_eq!(PipelineError::UrlParse("x".to_string()).to_string(), "URL parse error: x");
    assert_eq!(PipelineError::TomlParse("x".to_string()).to_string(), "TOML parse error: x");
    assert_eq!(PipelineError::YamlParse("x".to_string()).to_string(), "YAML parse error: x");
    assert_eq!(PipelineError::JsonParse("x".to_string()).to_string(), "JSON parse error: x");
}
