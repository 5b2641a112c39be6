//! The error type of the pipeline.

use vstd::prelude::*;

verus! {

/// Errors of pipeline operations.
///
/// Every payload is plain text: where an outside library reported the
/// failure, its message is kept as a `String`.
#[derive(Debug)]
pub enum PipelineError {
    Config(String),
    Source { source_name: String, message: String },
    Processor { processor_name: String, message: String },
    Query(String),
    Output(String),
    Io(String),
    RdfParse(String),
    Sparql(String),
    ObjectStore(String),
    UrlParse(String),
    TomlParse(String),
    YamlParse(String),
    JsonParse(String),
    Zip(String),
}

/// Result type of pipeline operations.
pub type Result<T> = core::result::Result<T, PipelineError>;

impl PipelineError {
    /// The text a user sees for this error.
    pub open spec fn message(&self) -> Seq<char> {
        match self {
            PipelineError::Config(m) => "Configuration error: "@ + m@,
            PipelineError::Source { source_name, message } =>
                "Source error: "@ + source_name@ + " - "@ + message@,
            PipelineError::Processor { processor_name, message } =>
                "Processor error: "@ + processor_name@ + " - "@ + message@,
            PipelineError::Query(m) => "Query error: "@ + m@,
            PipelineError::Output(m) => "Output error: "@ + m@,
            PipelineError::Io(m) => "IO error: "@ + m@,
            PipelineError::RdfParse(m) => "RDF parsing error: "@ + m@,
            PipelineError::Sparql(m) => "SPARQL error: "@ + m@,
            PipelineError::ObjectStore(m) => "Object store error: "@ + m@,
            PipelineError::UrlParse(m) => "URL parse error: "@ + m@,
            PipelineError::TomlParse(m) => "TOML parse error: "@ + m@,
            PipelineError::YamlParse(m) => "YAML parse error: "@ + m@,
            PipelineError::JsonParse(m) => "JSON parse error: "@ + m@,
            PipelineError::Zip(m) => "Zip error: "@ + m@,
        }
    }

    /// Renders the error for a user (the type's display text).
    pub fn to_string(&self) -> (r: String)
        ensures
            r@ == self.message(),
    {
        match self {
            PipelineError::Config(m) => prefixed("Configuration error: ", m),
            PipelineError::Source { source_name, message } => {
                let mut r = prefixed("Source error: ", source_name);
                r.append(" - ");
                r.append(message.as_str());
                r
            },
            PipelineError::Processor { processor_name, message } => {
                let mut r = prefixed("Processor error: ", processor_name);
                r.append(" - ");
                r.append(message.as_str());
                r
            },
            PipelineError::Query(m) => prefixed("Query error: ", m),
            PipelineError::Output(m) => prefixed("Output error: ", m),
            PipelineError::Io(m) => prefixed("IO error: ", m),
            PipelineError::RdfParse(m) => prefixed("RDF parsing error: ", m),
            PipelineError::Sparql(m) => prefixed("SPARQL error: ", m),
            PipelineError::ObjectStore(m) => prefixed("Object store error: ", m),
            PipelineError::UrlParse(m) => prefixed("URL parse error: ", m),
            PipelineError::TomlParse(m) => prefixed("TOML parse error: ", m),
            PipelineError::YamlParse(m) => prefixed("YAML parse error: ", m),
            PipelineError::JsonParse(m) => prefixed("JSON parse error: ", m),
            PipelineError::Zip(m) => prefixed("Zip error: ", m),
        }
    }
}

fn prefixed(prefix: &str, m: &String) -> (r: String)
    ensures
        r@ == prefix@ + m@,
{
    let mut r = String::from_str(prefix);
    r.append(m.as_str());
    r
}

} // verus!
