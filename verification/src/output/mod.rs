//! Writing query results: what each output format holds and what its file
//! is called. Creating the directory and the files is left to the caller.

pub mod csv;
pub mod json;
pub mod metadata;
pub mod terminal;

use vstd::prelude::*;

use crate::config::pipeline::{OutputConfig, OutputFormat, OutputView};
use crate::config::value::opt_text;
use crate::query::QueryOutput;

pub use self::csv::CsvWriter;
pub use self::json::JsonWriter;
pub use self::metadata::{MetadataFigures, MetadataWriter};
pub use self::terminal::TerminalWriter;

verus! {

// ---------------------------------------------------------------------
// Timestamps
// ---------------------------------------------------------------------

/// Whether `chrono::DateTime::<Utc>::from_timestamp` accepts these seconds
/// and nanoseconds since the Unix epoch.
pub uninterp spec fn utc_instant_valid(secs: i64, nanos: u32) -> bool;

/// What `chrono` writes for a UTC instant with the format `%Y%m%d_%H%M%S`.
pub uninterp spec fn compact_timestamp(secs: i64, nanos: u32) -> Seq<char>;

/// What `chrono`'s `DateTime::<Utc>::to_rfc3339` writes for a UTC instant.
pub uninterp spec fn rfc3339_timestamp(secs: i64, nanos: u32) -> Seq<char>;

/// Calls `chrono::DateTime::<Utc>::from_timestamp` and reports whether it
/// gave an instant.
/// Claims: the answer is `utc_instant_valid` of the arguments.
#[verifier::external_body]
fn utc_in_range(secs: i64, nanos: u32) -> (r: bool)
    ensures
        r == utc_instant_valid(secs, nanos),
{
    chrono::DateTime::from_timestamp(secs, nanos).is_some()
}

/// Makes the instant with `chrono::DateTime::<Utc>::from_timestamp` and
/// formats it with `%Y%m%d_%H%M%S`.
/// Claims: the text is `compact_timestamp` of the arguments.
#[verifier::external_body]
fn compact_stamp(secs: i64, nanos: u32) -> (r: String)
    requires
        utc_instant_valid(secs, nanos),
    ensures
        r@ == compact_timestamp(secs, nanos),
{
    chrono::DateTime::from_timestamp(secs, nanos).map(|d| d.format("%Y%m%d_%H%M%S").to_string()).unwrap_or_default()
}

/// Makes the instant with `chrono::DateTime::<Utc>::from_timestamp` and
/// writes it with `to_rfc3339`.
/// Claims: the text is `rfc3339_timestamp` of the arguments.
#[verifier::external_body]
fn rfc3339_stamp(secs: i64, nanos: u32) -> (r: String)
    requires
        utc_instant_valid(secs, nanos),
    ensures
        r@ == rfc3339_timestamp(secs, nanos),
{
    chrono::DateTime::from_timestamp(secs, nanos).map(|d| d.to_rfc3339()).unwrap_or_default()
}

/// A UTC instant: seconds and nanoseconds since the Unix epoch, within the
/// range `chrono` represents.
#[derive(Debug, Clone, Copy)]
pub struct Timestamp {
    secs: i64,
    nanos: u32,
}

impl Timestamp {
    #[verifier::type_invariant]
    spec fn in_range(&self) -> bool {
        utc_instant_valid(self.secs, self.nanos)
    }

    /// Seconds since the Unix epoch.
    pub closed spec fn secs(&self) -> i64 {
        self.secs
    }

    /// Nanoseconds beyond the seconds.
    pub closed spec fn nanos(&self) -> u32 {
        self.nanos
    }

    /// The instant `secs` seconds and `nanos` nanoseconds after the Unix
    /// epoch, where `chrono` represents it.
    pub fn from_unix(secs: i64, nanos: u32) -> (r: Option<Timestamp>)
        ensures
            r is Some == utc_instant_valid(secs, nanos),
            r matches Some(t) ==> t.secs() == secs && t.nanos() == nanos,
    {
        if utc_in_range(secs, nanos) {
            Some(Timestamp { secs, nanos })
        } else {
            None
        }
    }

    /// The instant as `%Y%m%d_%H%M%S`.
    pub fn compact(&self) -> (r: String)
        ensures
            r@ == compact_timestamp(self.secs(), self.nanos()),
    {
        proof {
            use_type_invariant(self);
        }
        compact_stamp(self.secs, self.nanos)
    }

    /// The instant in RFC 3339.
    pub fn rfc3339(&self) -> (r: String)
        ensures
            r@ == rfc3339_timestamp(self.secs(), self.nanos()),
    {
        proof {
            use_type_invariant(self);
        }
        rfc3339_stamp(self.secs, self.nanos)
    }
}

/// Metadata for output writing.
#[derive(Debug, Clone)]
pub struct OutputMetadata {
    pub pipeline_name: String,
    pub timestamp: Timestamp,
}

// ---------------------------------------------------------------------
// File names
// ---------------------------------------------------------------------

/// The name of an output file: the configured prefix (else `results`), an
/// underscore, the compact timestamp, a dot and the extension.
pub open spec fn output_file_name(prefix: Option<Seq<char>>, stamp: Seq<char>, ext: Seq<char>) -> Seq<char> {
    let p = match prefix {
        Some(p) => p,
        None => "results"@,
    };
    p + "_"@ + stamp + "."@ + ext
}

/// The name of the output file with extension `ext` for these metadata and
/// this configuration.
pub open spec fn file_name_view(metadata: OutputMetadata, config: OutputConfig, ext: Seq<char>) -> Seq<char> {
    output_file_name(
        opt_text(config.prefix),
        compact_timestamp(metadata.timestamp.secs(), metadata.timestamp.nanos()),
        ext,
    )
}

/// The name of an output file with the given extension.
pub fn file_name_for(metadata: &OutputMetadata, config: &OutputConfig, ext: &str) -> (r: String)
    ensures
        r@ == file_name_view(*metadata, *config, ext@),
{
    let mut r = match &config.prefix {
        Some(p) => p.clone(),
        None => String::from_str("results"),
    };
    r.append("_");
    let stamp = metadata.timestamp.compact();
    r.append(stamp.as_str());
    r.append(".");
    r.append(ext);
    r
}

// ---------------------------------------------------------------------
// Writers
// ---------------------------------------------------------------------

/// An output writer.
pub enum OutputWriter {
    Csv(CsvWriter),
    Json(JsonWriter),
    Terminal(TerminalWriter),
    Metadata(MetadataWriter),
}

/// The kinds of output writer.
#[derive(Debug, Clone, Copy, PartialEq, Eq, Structural)]
pub enum WriterKind {
    Csv,
    Json,
    Terminal,
    Metadata,
}

impl OutputWriter {
    /// The kind of this writer.
    pub open spec fn kind(&self) -> WriterKind {
        match self {
            OutputWriter::Csv(_) => WriterKind::Csv,
            OutputWriter::Json(_) => WriterKind::Json,
            OutputWriter::Terminal(_) => WriterKind::Terminal,
            OutputWriter::Metadata(_) => WriterKind::Metadata,
        }
    }
}

/// The writer kind of an output format.
pub open spec fn kind_of_format(f: OutputFormat) -> WriterKind {
    match f {
        OutputFormat::Csv => WriterKind::Csv,
        OutputFormat::Json => WriterKind::Json,
        OutputFormat::Terminal => WriterKind::Terminal,
    }
}

/// The writers an output configuration asks for: one per format, in
/// order, then the metadata writer where metadata is on.
pub open spec fn writer_kinds(config: OutputView) -> Seq<WriterKind> {
    let by_format = config.formats.map_values(|f: OutputFormat| kind_of_format(f));
    if config.metadata {
        by_format.push(WriterKind::Metadata)
    } else {
        by_format
    }
}

/// The kinds of a list of writers.
pub open spec fn kinds(writers: Seq<OutputWriter>) -> Seq<WriterKind> {
    writers.map_values(|w: OutputWriter| w.kind())
}

/// Creates the output writers a configuration asks for.
pub fn create_writers(config: &OutputConfig) -> (r: Vec<OutputWriter>)
    ensures
        kinds(r@) == writer_kinds(config@),
{
    let mut writers: Vec<OutputWriter> = Vec::new();
    let mut i: usize = 0;
    while i < config.formats.len()
        invariant
            i <= config.formats@.len(),
            writers@.len() == i,
            kinds(writers@) == config.formats@.take(i as int).map_values(|f: OutputFormat| kind_of_format(f)),
        decreases config.formats.len() - i,
    {
        let w = match config.formats[i] {
            OutputFormat::Csv => OutputWriter::Csv(CsvWriter),
            OutputFormat::Json => OutputWriter::Json(JsonWriter),
            OutputFormat::Terminal => OutputWriter::Terminal(TerminalWriter),
        };
        assert(w.kind() == kind_of_format(config.formats@[i as int]));
        let ghost old_w = writers@;
        writers.push(w);
        assert forall|k: int| 0 <= k < i + 1 implies #[trigger] kinds(writers@)[k] == kind_of_format(
            config.formats@[k],
        ) by {
            if k < i {
                assert(writers@[k] == old_w[k]);
                assert(kinds(old_w)[k] == config.formats@.take(i as int).map_values(
                    |f: OutputFormat| kind_of_format(f),
                )[k]);
            }
        }
        assert(kinds(writers@) =~= config.formats@.take(i as int + 1).map_values(
            |f: OutputFormat| kind_of_format(f),
        ));
        i = i + 1;
    }
    assert(config.formats@.take(config.formats@.len() as int) =~= config.formats@);
    if config.metadata {
        writers.push(OutputWriter::Metadata(MetadataWriter));
        assert(kinds(writers@) =~= writer_kinds(config@));
    }
    writers
}

/// What a writer produces: the text, and the name of the file it goes to
/// (none for the terminal).
pub struct Rendered {
    pub file_name: Option<String>,
    pub content: String,
}

impl OutputWriter {
    /// Renders the results for this writer.
    pub fn render(
        &self,
        output: &QueryOutput,
        metadata: &OutputMetadata,
        config: &OutputConfig,
        figures: &MetadataFigures,
    ) -> (r: Rendered)
        ensures
            match self {
                OutputWriter::Csv(_) => opt_text(r.file_name) == Some(file_name_view(*metadata, *config, "csv"@))
                    && r.content@ == csv::csv_text(output.results@),
                OutputWriter::Json(_) => opt_text(r.file_name) == Some(file_name_view(*metadata, *config, "json"@))
                    && r.content@ == json::json_text(output.results@, output.count as nat),
                OutputWriter::Terminal(_) => r.file_name is None
                    && r.content@ == terminal::tsv_text(output.results@),
                OutputWriter::Metadata(_) => opt_text(r.file_name) == Some(
                    file_name_view(*metadata, *config, "metadata"@),
                ) && r.content@ == metadata::metadata_text(*output, *metadata, *figures),
            },
    {
        match self {
            OutputWriter::Csv(w) => Rendered { file_name: Some(w.file_name(metadata, config)), content: w.render(output) },
            OutputWriter::Json(w) => Rendered { file_name: Some(w.file_name(metadata, config)), content: w.render(output) },
            OutputWriter::Terminal(w) => Rendered { file_name: None, content: w.render(output) },
            OutputWriter::Metadata(w) => Rendered {
                file_name: Some(w.file_name(metadata, config)),
                content: w.render(output, metadata, figures),
            },
        }
    }
}

} // verus!
