use cimishi::config::pipeline::{PipelineConfig, ProcessorConfig, SourceConfig};
use cimishi::wizard::blueprint::{blueprint_from_text, download_plan, is_web_source, BlueprintFile, FileCategory};
use cimishi::wizard::example::{example_downloads, normalize_path, pipeline_config_json, BASE_URL};
use cimishi::wizard::flow::{
    auth_hint, selected_formats, validate_config_name, wizard_file_names, write_step, WriteStep,
};
use cimishi::wizard::templates::{config_toml, sparql_query};

#[test]
fn blueprint_file_names() {
    let named = BlueprintFile { url: "https://x/y/z.toml".to_string(), filename: Some("mine.toml".to_string()) };
    assert_eq!(named.resolved_filename(), "mine.toml");
    let unnamed = BlueprintFile { url: "https://x/y/z.toml".to_string(), filename: None };
    assert_eq!(unnamed.resolved_filename(), "z.toml");
}

#[test]
fn blueprint_is_read_in_each_syntax() {
    let toml = "[blueprint]\nname = \"b\"\ndescription = \"d\"\n[[configs]]\nurl = \"https://h/c.toml\"\n[[data]]\nurl = \"https://h/d.zip\"\nfilename = \"data.zip\"\n";
    let b = blueprint_from_text("bp.toml", toml).unwrap();
    assert_eq!(b.blueprint.name, "b");
    assert_eq!(b.blueprint.description.as_deref(), Some("d"));
    assert_eq!(b.configs.len(), 1);
    assert!(b.queries.is_empty());
    assert_eq!(b.data[0].filename.as_deref(), Some("data.zip"));
    let json = r#"{"blueprint": {"name": "j"}, "queries": [{"url": "https://h/q.sparql"}]}"#;
    let j = blueprint_from_text("https://h/bp.json", json).unwrap();
    assert_eq!(j.queries.len(), 1);
    let yaml = "blueprint:\n  name: y\n";
    assert_eq!(blueprint_from_text("bp.yml", yaml).unwrap().blueprint.name, "y");
    assert!(blueprint_from_text("bp.toml", "[blueprint]\n").is_err());
    assert!(blueprint_from_text("bp.json", "{").is_err());
}

#[test]
fn blueprint_downloads_are_planned_in_order() {
    let toml = "[blueprint]\nname = \"b\"\n[[data]]\nurl = \"https://h/d.zip\"\n[[configs]]\nurl = \"https://h/c.toml\"\n[[queries]]\nurl = \"https://h/q.sparql\"\nfilename = \"main.sparql\"\n";
    let b = blueprint_from_text("bp.toml", toml).unwrap();
    let plan = download_plan(&b);
    let got: Vec<(FileCategory, &str)> = plan.iter().map(|d| (d.category, d.file_name.as_str())).collect();
    assert_eq!(got, vec![(FileCategory::Configs, "c.toml"), (FileCategory::Queries, "main.sparql"), (FileCategory::Data, "d.zip")]);
    assert!(is_web_source("https://h/bp.toml"));
    assert!(is_web_source("http://h/bp.toml"));
    assert!(!is_web_source("./bp.toml"));
}

#[test]
fn example_paths_and_config() {
    assert_eq!(normalize_path("C:\\data\\x"), "C:/data/x");
    assert_eq!(normalize_path(&normalize_path("a\\b/c")), normalize_path("a\\b/c"));
    let json = pipeline_config_json(".cimishi\\data", ".cimishi/query/example-query.sparql");
    let config = PipelineConfig::from_json(&json).unwrap();
    assert_eq!(config.pipeline.name, "example-pipeline");
    match &config.sources[0] {
        SourceConfig::Local(l) => assert_eq!(l.path, ".cimishi/data"),
        _ => panic!("expected a local source"),
    }
    assert!(matches!(&config.processors[0], ProcessorConfig::Unzip(_)));
    assert!(matches!(&config.processors[1], ProcessorConfig::Filter(_)));
    assert_eq!(config.query.file.as_deref(), Some(".cimishi/query/example-query.sparql"));
    assert_eq!(config.output.prefix.as_deref(), Some("example-results"));
    let downloads = example_downloads();
    assert_eq!(downloads[0].url, format!("{}/examples/data/SampleData.zip", BASE_URL));
    assert_eq!(downloads[1].file_name, "example-query.sparql");
}

#[test]
fn wizard_checks() {
    assert_eq!(validate_config_name("").unwrap_err(), "Name cannot be empty");
    assert_eq!(
        validate_config_name("my config").unwrap_err(),
        "Only alphanumeric characters, hyphens, and underscores are allowed"
    );
    assert!(validate_config_name("daily_run-2").is_ok());
    assert_eq!(selected_formats(&vec![]).unwrap_err(), "At least one output format must be selected");
    assert_eq!(selected_formats(&vec![0, 2]).unwrap(), vec!["csv".to_string(), "terminal".to_string()]);
    assert_eq!(wizard_file_names("daily"), ("daily.toml".to_string(), "daily.sparql".to_string()));
    assert!(auth_hint("local").is_none());
    assert!(auth_hint("s3").unwrap().starts_with("S3 auth"));
}

#[test]
fn wizard_config_template_is_a_valid_config() {
    let formats = vec!["csv".to_string(), "json".to_string()];
    let text = config_toml("daily", "s3", "file", &formats, "/q/daily.sparql");
    let config = PipelineConfig::from_toml(&text).unwrap();
    assert_eq!(config.pipeline.name, "daily");
    assert!(matches!(&config.sources[0], SourceConfig::S3(s) if s.bucket == "my-bucket"));
    assert_eq!(config.query.file.as_deref(), Some("/q/daily.sparql"));
    assert_eq!(config.output.formats.len(), 2);
    let inline = config_toml("x", "local", "inline", &vec!["terminal".to_string()], "");
    let config = PipelineConfig::from_toml(&inline).unwrap();
    assert!(config.query.query.unwrap().contains("SELECT ?subject ?predicate ?object"));
    assert!(sparql_query().contains("LIMIT 100"));
}

#[test]
fn existing_files_are_overwritten_only_on_yes() {
    assert_eq!(write_step(false, None), WriteStep::Write);
    assert_eq!(write_step(true, None), WriteStep::AskOverwrite);
    assert_eq!(write_step(true, Some(0)), WriteStep::Write);
    assert_eq!(write_step(true, Some(1)), WriteStep::Skip);
}
