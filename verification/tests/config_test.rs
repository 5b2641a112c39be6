use cimishi::config::pipeline::{
    default_config, ConfigFormat, OutputFormat, PipelineConfig, ProcessorConfig, QueryConfig, SourceConfig,
    DEFAULT_QUERY,
};
use cimishi::error::PipelineError;

#[test]
fn test_parse_config() {
    let config_str = r#"
[pipeline]
name = "test-pipeline"
parallel = true

[[sources]]
type = "local"
path = "./input"
patterns = ["*.xml"]

[[processors]]
type = "unzip"
patterns = ["*.xml"]

[query]
file = "./query.sparql"

[output]
dir = "./output"
formats = ["csv", "json"]
metadata = true
"#;

    let config = PipelineConfig::from_str(config_str).unwrap();
    assert_eq!(config.pipeline.name, "test-pipeline");
    assert!(config.pipeline.parallel);
    assert_eq!(config.sources.len(), 1);
    assert_eq!(config.processors.len(), 1);
}

#[test]
fn parse_config_fills_defaults() {
    let config = PipelineConfig::from_toml(
        r#"
[pipeline]
name = "p"

[[sources]]
type = "local"
path = "./input"

[[processors]]
type = "unzip"

[query]
query = "ASK {}"

[output]
dir = "./out"
"#,
    )
    .unwrap();
    assert!(config.pipeline.parallel);
    assert_eq!(config.pipeline.max_concurrent, 10);
    match &config.sources[0] {
        SourceConfig::Local(l) => {
            assert_eq!(l.path, "./input");
            assert!(l.files.is_empty());
            assert_eq!(l.patterns, vec!["*.xml".to_string(), "*.rdf".to_string()]);
            assert!(l.recursive);
        }
        _ => panic!("expected a local source"),
    }
    match &config.processors[0] {
        ProcessorConfig::Unzip(u) => {
            assert_eq!(u.patterns, vec!["*.xml".to_string(), "*.rdf".to_string()]);
            assert_eq!(u.archive_patterns, vec!["*.zip".to_string()]);
            assert_eq!(u.gzip_patterns, vec!["*.gz".to_string(), "*.gzip".to_string()]);
        }
        _ => panic!("expected an unzip processor"),
    }
    assert_eq!(config.query.base_iri, "http://example.org/");
    assert_eq!(config.output.formats, vec![OutputFormat::Csv]);
    assert!(config.output.metadata);
    assert!(config.output.prefix.is_none());
}

#[test]
fn parse_config_reads_each_source_kind() {
    let config = PipelineConfig::from_toml(
        r#"
[pipeline]
name = "kinds"

[[sources]]
type = "s3"
bucket = "b"
prefix = "p/"
region = "eu-west-1"

[[sources]]
type = "azure"
account = "acct"
container = "c"
skip_signature = true

[[sources]]
type = "gcs"
bucket = "g"

[[processors]]
type = "filter"
include = ["*.xml"]
exclude = ["*_BD_*"]

[query]

[output]
dir = "o"
formats = ["terminal"]
prefix = "r"
"#,
    )
    .unwrap();
    assert!(matches!(&config.sources[0], SourceConfig::S3(s) if s.bucket == "b" && s.region == "eu-west-1"));
    assert!(matches!(&config.sources[1], SourceConfig::Azure(a) if a.skip_signature && a.container == "c"));
    assert!(matches!(&config.sources[2], SourceConfig::Gcs(g) if g.bucket == "g" && g.prefix.is_empty()));
    match &config.processors[0] {
        ProcessorConfig::Filter(f) => {
            assert_eq!(f.included, vec!["*.xml".to_string()]);
            assert_eq!(f.exclude, vec!["*_BD_*".to_string()]);
        }
        _ => panic!("expected a filter"),
    }
    assert_eq!(config.output.formats, vec![OutputFormat::Terminal]);
    assert_eq!(config.output.prefix.as_deref(), Some("r"));
}

#[test]
fn parse_config_rejects_missing_pipeline_name() {
    let r = PipelineConfig::from_toml("[pipeline]\n[query]\n[output]\ndir = \"o\"\n");
    assert!(matches!(r, Err(PipelineError::TomlParse(_))));
}

#[test]
fn parse_config_rejects_unknown_source_type() {
    let r = PipelineConfig::from_toml(
        "[pipeline]\nname = \"x\"\n[[sources]]\ntype = \"ftp\"\n[query]\n[output]\ndir = \"o\"\n",
    );
    assert!(matches!(r, Err(PipelineError::TomlParse(_))));
}

#[test]
fn parse_config_rejects_broken_toml() {
    assert!(matches!(PipelineConfig::from_toml("[pipeline"), Err(PipelineError::TomlParse(_))));
}

#[test]
fn parse_yaml_and_json_configs() {
    let yaml = "pipeline:\n  name: y\nquery: {}\noutput:\n  dir: out\n  formats: [json]\n";
    let c = PipelineConfig::from_yaml(yaml).unwrap();
    assert_eq!(c.pipeline.name, "y");
    assert_eq!(c.output.formats, vec![OutputFormat::Json]);
    assert!(matches!(PipelineConfig::from_yaml("pipeline: ["), Err(PipelineError::YamlParse(_))));

    let json = r#"{"pipeline": {"name": "j", "max_concurrent": 3}, "query": {}, "output": {"dir": "o"}}"#;
    let c = PipelineConfig::from_json(json).unwrap();
    assert_eq!(c.pipeline.name, "j");
    assert_eq!(c.pipeline.max_concurrent, 3);
    assert!(matches!(PipelineConfig::from_json("{"), Err(PipelineError::JsonParse(_))));
}

#[test]
fn file_content_is_read_in_the_syntax_of_its_extension() {
    assert_eq!(ConfigFormat::of_path("a/b.YAML"), ConfigFormat::Yaml);
    assert_eq!(ConfigFormat::of_path("b.yml"), ConfigFormat::Yaml);
    assert_eq!(ConfigFormat::of_path("b.json"), ConfigFormat::Json);
    assert_eq!(ConfigFormat::of_path("b.toml"), ConfigFormat::Toml);
    assert_eq!(ConfigFormat::of_path("pipeline"), ConfigFormat::Toml);
    let json = r#"{"pipeline": {"name": "j"}, "query": {}, "output": {"dir": "o"}}"#;
    assert!(PipelineConfig::from_file_content("x.json", json).is_ok());
    assert!(matches!(PipelineConfig::from_file_content("x.toml", json), Err(PipelineError::TomlParse(_))));
}

#[test]
fn query_text_comes_from_file_then_inline_then_default() {
    let from_file = QueryConfig { file: Some("q.sparql".to_string()), query: Some("ASK {}".to_string()), base_iri: String::new() };
    assert_eq!(from_file.get_query(Some(Ok("SELECT * {}".to_string()))).unwrap(), "SELECT * {}");
    match from_file.get_query(Some(Err("not found".to_string()))) {
        Err(e) => assert_eq!(e.to_string(), "Configuration error: Failed to read query file 'q.sparql': not found"),
        Ok(_) => panic!("expected an error"),
    }
    let inline = QueryConfig { file: None, query: Some("ASK {}".to_string()), base_iri: String::new() };
    assert_eq!(inline.get_query(None).unwrap(), "ASK {}");
    let neither = QueryConfig { file: None, query: None, base_iri: String::new() };
    assert_eq!(neither.get_query(None).unwrap(), DEFAULT_QUERY);
    assert!(DEFAULT_QUERY.contains("LIMIT 100"));
}

#[test]
fn default_config_reads_input_and_writes_output() {
    let c = default_config();
    assert_eq!(c.pipeline.name, "default");
    assert!(c.pipeline.parallel);
    assert_eq!(c.pipeline.max_concurrent, 10);
    match &c.sources[0] {
        SourceConfig::Local(l) => {
            assert_eq!(l.path, "/input");
            assert_eq!(l.patterns, vec!["*.xml".to_string(), "*.rdf".to_string()]);
        }
        _ => panic!("expected a local source"),
    }
    assert!(c.processors.is_empty());
    assert_eq!(c.query.file.as_deref(), Some("/input/query.sparql"));
    assert_eq!(c.output.dir, "/output");
    assert_eq!(c.output.formats, vec![OutputFormat::Csv]);
    assert_eq!(c.output.prefix.as_deref(), Some("results"));
}

#[test]
fn yaml_plain_numbers_read_as_text_fields() {
    let yaml = "pipeline:\n  name: 123\n  max_concurrent: 4\nquery: {}\noutput:\n  dir: out\n  prefix: 2026\n";
    let c = PipelineConfig::from_yaml(yaml).unwrap();
    assert_eq!(c.pipeline.name, "123");
    assert_eq!(c.pipeline.max_concurrent, 4);
    assert_eq!(c.output.prefix, Some("2026".to_string()));
    // JSON and TOML numbers are not text.
    let json = r#"{"pipeline": {"name": 123}, "query": {}, "output": {"dir": "o"}}"#;
    assert!(matches!(PipelineConfig::from_json(json), Err(PipelineError::JsonParse(_))));
    assert!(matches!(
        PipelineConfig::from_toml("[pipeline]\nname = 123\n[query]\n[output]\ndir = \"o\"\n"),
        Err(PipelineError::TomlParse(_))
    ));
}
