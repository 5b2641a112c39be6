//! Pipeline configuration structures, their mathematical views, and the
//! decoding of a configuration document into them.

use vstd::prelude::*;

use super::value::{
    ConfigValue, as_text, count_or, field_count_or, field_flag_or, field_optional_text,
    field_text, field_text_list_or, field_text_or, find_field, flag_or, invalid, json_document,
    lookup, missing, opt_text, optional_text, parse_json, parse_toml, parse_yaml, read_text,
    required_text, text_list_or, text_or, texts, toml_document, yaml_document,
};
use crate::error::{PipelineError, Result};
use crate::paths::{extension_of, lowercase, path_extension, to_lowercase};
use crate::text::text_equals;

verus! {

// ---------------------------------------------------------------------
// Types
// ---------------------------------------------------------------------

/// Root configuration for a pipeline.
#[derive(Debug)]
pub struct PipelineConfig {
    /// Pipeline metadata.
    pub pipeline: PipelineMetadata,
    /// Data sources to fetch from.
    pub sources: Vec<SourceConfig>,
    /// Processors to apply to fetched data.
    pub processors: Vec<ProcessorConfig>,
    /// Query configuration.
    pub query: QueryConfig,
    /// Output configuration.
    pub output: OutputConfig,
}

/// Pipeline metadata.
#[derive(Debug)]
pub struct PipelineMetadata {
    /// Name of the pipeline.
    pub name: String,
    /// Whether to run stages in parallel where possible.
    pub parallel: bool,
    /// Maximum concurrent operations.
    pub max_concurrent: usize,
}

/// Configuration for a data source.
#[derive(Debug)]
pub enum SourceConfig {
    /// Local filesystem source.
    Local(LocalSourceConfig),
    /// S3-compatible object storage.
    S3(S3SourceConfig),
    /// Azure Blob Storage.
    Azure(AzureSourceConfig),
    /// Google Cloud Storage.
    Gcs(GcsSourceConfig),
}

/// Local filesystem source configuration.
#[derive(Debug)]
pub struct LocalSourceConfig {
    /// Path to the directory (for pattern matching).
    pub path: String,
    /// Explicit list of file paths to fetch.
    pub files: Vec<String>,
    /// Glob patterns to match files within the path.
    pub patterns: Vec<String>,
    /// Whether to search recursively.
    pub recursive: bool,
}

/// S3 source configuration.
#[derive(Debug)]
pub struct S3SourceConfig {
    /// S3 bucket name.
    pub bucket: String,
    /// Prefix (folder path) within the bucket.
    pub prefix: String,
    /// AWS region.
    pub region: String,
    /// Optional endpoint URL (for S3-compatible services like MinIO).
    pub endpoint: Option<String>,
    /// Explicit list of object keys to fetch.
    pub files: Vec<String>,
    /// Glob patterns to match files.
    pub patterns: Vec<String>,
}

/// Azure Blob Storage source configuration.
#[derive(Debug)]
pub struct AzureSourceConfig {
    /// Storage account name.
    pub account: String,
    /// Container name.
    pub container: String,
    /// Prefix (folder path) within the container.
    pub prefix: String,
    /// Optional endpoint URL (for the Azurite emulator).
    pub endpoint: Option<String>,
    /// Skip request signing (for emulators like Azurite).
    pub skip_signature: bool,
    /// Explicit list of blob paths to fetch.
    pub files: Vec<String>,
    /// Glob patterns to match files.
    pub patterns: Vec<String>,
}

/// Google Cloud Storage source configuration.
#[derive(Debug)]
pub struct GcsSourceConfig {
    /// GCS bucket name.
    pub bucket: String,
    /// Prefix (folder path) within the bucket.
    pub prefix: String,
    /// Custom endpoint URL (for emulators).
    pub endpoint: Option<String>,
    /// Custom service account key JSON.
    pub service_account_key: Option<String>,
    /// Explicit list of object paths to fetch.
    pub files: Vec<String>,
    /// Glob patterns to match files.
    pub patterns: Vec<String>,
}

/// Configuration for a processor.
#[derive(Debug)]
pub enum ProcessorConfig {
    /// Unzip/decompress processor for extracting archives.
    Unzip(UnzipProcessorConfig),
    /// Filter processor for filtering files by pattern.
    Filter(FilterProcessorConfig),
}

/// Unzip/decompress processor configuration (ZIP archives and GZIP files).
#[derive(Debug)]
pub struct UnzipProcessorConfig {
    /// Patterns for files to extract (within archives).
    pub patterns: Vec<String>,
    /// ZIP archive patterns to process.
    pub archive_patterns: Vec<String>,
    /// GZIP file patterns to decompress.
    pub gzip_patterns: Vec<String>,
}

/// Filter processor configuration.
#[derive(Debug)]
pub struct FilterProcessorConfig {
    /// Include patterns (files matching any pattern are kept).
    pub included: Vec<String>,
    /// Exclude patterns (files matching any pattern are removed).
    pub exclude: Vec<String>,
}

/// Query configuration.
#[derive(Debug)]
pub struct QueryConfig {
    /// Path to SPARQL query file.
    pub file: Option<String>,
    /// Inline SPARQL query (used if file is not specified).
    pub query: Option<String>,
    /// Base IRI for RDF parsing.
    pub base_iri: String,
}

/// Output configuration.
#[derive(Debug)]
pub struct OutputConfig {
    /// Output directory.
    pub dir: String,
    /// Output formats to generate.
    pub formats: Vec<OutputFormat>,
    /// Whether to write metadata file.
    pub metadata: bool,
    /// Custom filename prefix.
    pub prefix: Option<String>,
}

/// Output format options.
#[derive(Debug, Clone, Copy, PartialEq, Eq, Structural)]
pub enum OutputFormat {
    Csv,
    Json,
    Terminal,
}

// ---------------------------------------------------------------------
// Views
// ---------------------------------------------------------------------

pub ghost struct PipelineMetadataView {
    pub name: Seq<char>,
    pub parallel: bool,
    pub max_concurrent: usize,
}

pub ghost struct LocalSourceView {
    pub path: Seq<char>,
    pub files: Seq<Seq<char>>,
    pub patterns: Seq<Seq<char>>,
    pub recursive: bool,
}

pub ghost struct S3SourceView {
    pub bucket: Seq<char>,
    pub prefix: Seq<char>,
    pub region: Seq<char>,
    pub endpoint: Option<Seq<char>>,
    pub files: Seq<Seq<char>>,
    pub patterns: Seq<Seq<char>>,
}

pub ghost struct AzureSourceView {
    pub account: Seq<char>,
    pub container: Seq<char>,
    pub prefix: Seq<char>,
    pub endpoint: Option<Seq<char>>,
    pub skip_signature: bool,
    pub files: Seq<Seq<char>>,
    pub patterns: Seq<Seq<char>>,
}

pub ghost struct GcsSourceView {
    pub bucket: Seq<char>,
    pub prefix: Seq<char>,
    pub endpoint: Option<Seq<char>>,
    pub service_account_key: Option<Seq<char>>,
    pub files: Seq<Seq<char>>,
    pub patterns: Seq<Seq<char>>,
}

pub ghost enum SourceView {
    Local(LocalSourceView),
    S3(S3SourceView),
    Azure(AzureSourceView),
    Gcs(GcsSourceView),
}

pub ghost struct UnzipView {
    pub patterns: Seq<Seq<char>>,
    pub archive_patterns: Seq<Seq<char>>,
    pub gzip_patterns: Seq<Seq<char>>,
}

pub ghost struct FilterView {
    pub included: Seq<Seq<char>>,
    pub exclude: Seq<Seq<char>>,
}

pub ghost enum ProcessorView {
    Unzip(UnzipView),
    Filter(FilterView),
}

pub ghost struct QueryView {
    pub file: Option<Seq<char>>,
    pub query: Option<Seq<char>>,
    pub base_iri: Seq<char>,
}

pub ghost struct OutputView {
    pub dir: Seq<char>,
    pub formats: Seq<OutputFormat>,
    pub metadata: bool,
    pub prefix: Option<Seq<char>>,
}

pub ghost struct PipelineConfigView {
    pub pipeline: PipelineMetadataView,
    pub sources: Seq<SourceView>,
    pub processors: Seq<ProcessorView>,
    pub query: QueryView,
    pub output: OutputView,
}

impl View for PipelineMetadata {
    type V = PipelineMetadataView;

    open spec fn view(&self) -> PipelineMetadataView {
        PipelineMetadataView {
            name: self.name@,
            parallel: self.parallel,
            max_concurrent: self.max_concurrent,
        }
    }
}

impl View for LocalSourceConfig {
    type V = LocalSourceView;

    open spec fn view(&self) -> LocalSourceView {
        LocalSourceView {
            path: self.path@,
            files: texts(self.files@),
            patterns: texts(self.patterns@),
            recursive: self.recursive,
        }
    }
}

impl View for S3SourceConfig {
    type V = S3SourceView;

    open spec fn view(&self) -> S3SourceView {
        S3SourceView {
            bucket: self.bucket@,
            prefix: self.prefix@,
            region: self.region@,
            endpoint: opt_text(self.endpoint),
            files: texts(self.files@),
            patterns: texts(self.patterns@),
        }
    }
}

impl View for AzureSourceConfig {
    type V = AzureSourceView;

    open spec fn view(&self) -> AzureSourceView {
        AzureSourceView {
            account: self.account@,
            container: self.container@,
            prefix: self.prefix@,
            endpoint: opt_text(self.endpoint),
            skip_signature: self.skip_signature,
            files: texts(self.files@),
            patterns: texts(self.patterns@),
        }
    }
}

impl View for GcsSourceConfig {
    type V = GcsSourceView;

    open spec fn view(&self) -> GcsSourceView {
        GcsSourceView {
            bucket: self.bucket@,
            prefix: self.prefix@,
            endpoint: opt_text(self.endpoint),
            service_account_key: opt_text(self.service_account_key),
            files: texts(self.files@),
            patterns: texts(self.patterns@),
        }
    }
}

impl View for SourceConfig {
    type V = SourceView;

    open spec fn view(&self) -> SourceView {
        match self {
            SourceConfig::Local(c) => SourceView::Local(c@),
            SourceConfig::S3(c) => SourceView::S3(c@),
            SourceConfig::Azure(c) => SourceView::Azure(c@),
            SourceConfig::Gcs(c) => SourceView::Gcs(c@),
        }
    }
}

impl View for UnzipProcessorConfig {
    type V = UnzipView;

    open spec fn view(&self) -> UnzipView {
        UnzipView {
            patterns: texts(self.patterns@),
            archive_patterns: texts(self.archive_patterns@),
            gzip_patterns: texts(self.gzip_patterns@),
        }
    }
}

impl View for FilterProcessorConfig {
    type V = FilterView;

    open spec fn view(&self) -> FilterView {
        FilterView { included: texts(self.included@), exclude: texts(self.exclude@) }
    }
}

impl View for ProcessorConfig {
    type V = ProcessorView;

    open spec fn view(&self) -> ProcessorView {
        match self {
            ProcessorConfig::Unzip(c) => ProcessorView::Unzip(c@),
            ProcessorConfig::Filter(c) => ProcessorView::Filter(c@),
        }
    }
}

impl View for QueryConfig {
    type V = QueryView;

    open spec fn view(&self) -> QueryView {
        QueryView { file: opt_text(self.file), query: opt_text(self.query), base_iri: self.base_iri@ }
    }
}

impl View for OutputConfig {
    type V = OutputView;

    open spec fn view(&self) -> OutputView {
        OutputView {
            dir: self.dir@,
            formats: self.formats@,
            metadata: self.metadata,
            prefix: opt_text(self.prefix),
        }
    }
}

impl View for PipelineConfig {
    type V = PipelineConfigView;

    open spec fn view(&self) -> PipelineConfigView {
        PipelineConfigView {
            pipeline: self.pipeline@,
            sources: source_views(self.sources@),
            processors: processor_views(self.processors@),
            query: self.query@,
            output: self.output@,
        }
    }
}

/// The views of a list of sources.
pub open spec fn source_views(v: Seq<SourceConfig>) -> Seq<SourceView> {
    v.map_values(|s: SourceConfig| s@)
}

/// The views of a list of processors.
pub open spec fn processor_views(v: Seq<ProcessorConfig>) -> Seq<ProcessorView> {
    v.map_values(|p: ProcessorConfig| p@)
}

// ---------------------------------------------------------------------
// Copies
// ---------------------------------------------------------------------

/// A copy of a list of strings.
pub fn copy_texts(v: &Vec<String>) -> (r: Vec<String>)
    ensures
        r@ == v@,
        texts(r@) == texts(v@),
{
    let mut r: Vec<String> = Vec::new();
    let mut i: usize = 0;
    while i < v.len()
        invariant
            i <= v@.len(),
            r@ == v@.take(i as int),
        decreases v.len() - i,
    {
        r.push(v[i].clone());
        assert(r@ =~= v@.take(i as int + 1));
        i = i + 1;
    }
    assert(v@.take(v@.len() as int) =~= v@);
    r
}

/// A copy of an optional string.
pub fn copy_opt_text(o: &Option<String>) -> (r: Option<String>)
    ensures
        r == *o,
        opt_text(r) == opt_text(*o),
{
    match o {
        Some(s) => Some(s.clone()),
        None => None,
    }
}

impl PipelineMetadata {
    /// A copy of this metadata.
    pub fn clone_config(&self) -> (r: PipelineMetadata)
        ensures
            r@ == self@,
    {
        PipelineMetadata { name: self.name.clone(), parallel: self.parallel, max_concurrent: self.max_concurrent }
    }
}

impl LocalSourceConfig {
    /// A copy of this configuration.
    pub fn clone_config(&self) -> (r: LocalSourceConfig)
        ensures
            r@ == self@,
    {
        LocalSourceConfig {
            path: self.path.clone(),
            files: copy_texts(&self.files),
            patterns: copy_texts(&self.patterns),
            recursive: self.recursive,
        }
    }
}

impl S3SourceConfig {
    /// A copy of this configuration.
    pub fn clone_config(&self) -> (r: S3SourceConfig)
        ensures
            r@ == self@,
    {
        S3SourceConfig {
            bucket: self.bucket.clone(),
            prefix: self.prefix.clone(),
            region: self.region.clone(),
            endpoint: copy_opt_text(&self.endpoint),
            files: copy_texts(&self.files),
            patterns: copy_texts(&self.patterns),
        }
    }
}

impl AzureSourceConfig {
    /// A copy of this configuration.
    pub fn clone_config(&self) -> (r: AzureSourceConfig)
        ensures
            r@ == self@,
    {
        AzureSourceConfig {
            account: self.account.clone(),
            container: self.container.clone(),
            prefix: self.prefix.clone(),
            endpoint: copy_opt_text(&self.endpoint),
            skip_signature: self.skip_signature,
            files: copy_texts(&self.files),
            patterns: copy_texts(&self.patterns),
        }
    }
}

impl GcsSourceConfig {
    /// A copy of this configuration.
    pub fn clone_config(&self) -> (r: GcsSourceConfig)
        ensures
            r@ == self@,
    {
        GcsSourceConfig {
            bucket: self.bucket.clone(),
            prefix: self.prefix.clone(),
            endpoint: copy_opt_text(&self.endpoint),
            service_account_key: copy_opt_text(&self.service_account_key),
            files: copy_texts(&self.files),
            patterns: copy_texts(&self.patterns),
        }
    }
}

impl UnzipProcessorConfig {
    /// A copy of this configuration.
    pub fn clone_config(&self) -> (r: UnzipProcessorConfig)
        ensures
            r@ == self@,
    {
        UnzipProcessorConfig {
            patterns: copy_texts(&self.patterns),
            archive_patterns: copy_texts(&self.archive_patterns),
            gzip_patterns: copy_texts(&self.gzip_patterns),
        }
    }
}

impl FilterProcessorConfig {
    /// A copy of this configuration.
    pub fn clone_config(&self) -> (r: FilterProcessorConfig)
        ensures
            r@ == self@,
    {
        FilterProcessorConfig { included: copy_texts(&self.included), exclude: copy_texts(&self.exclude) }
    }
}

impl QueryConfig {
    /// A copy of this configuration.
    pub fn clone_config(&self) -> (r: QueryConfig)
        ensures
            r@ == self@,
    {
        QueryConfig {
            file: copy_opt_text(&self.file),
            query: copy_opt_text(&self.query),
            base_iri: self.base_iri.clone(),
        }
    }
}

impl OutputConfig {
    /// A copy of this configuration.
    pub fn clone_config(&self) -> (r: OutputConfig)
        ensures
            r@ == self@,
    {
        let mut formats: Vec<OutputFormat> = Vec::new();
        let mut i: usize = 0;
        while i < self.formats.len()
            invariant
                i <= self.formats@.len(),
                formats@ == self.formats@.take(i as int),
            decreases self.formats.len() - i,
        {
            formats.push(self.formats[i]);
            assert(formats@ =~= self.formats@.take(i as int + 1));
            i = i + 1;
        }
        assert(self.formats@.take(self.formats@.len() as int) =~= self.formats@);
        OutputConfig {
            dir: self.dir.clone(),
            formats,
            metadata: self.metadata,
            prefix: copy_opt_text(&self.prefix),
        }
    }
}

// ---------------------------------------------------------------------
// Defaults
// ---------------------------------------------------------------------

/// Default file patterns: `*.xml` and `*.rdf`.
pub open spec fn default_patterns_view() -> Seq<Seq<char>> {
    seq!["*.xml"@, "*.rdf"@]
}

/// Default ZIP archive patterns: `*.zip`.
pub open spec fn default_archive_patterns_view() -> Seq<Seq<char>> {
    seq!["*.zip"@]
}

/// Default GZIP patterns: `*.gz` and `*.gzip`.
pub open spec fn default_gzip_patterns_view() -> Seq<Seq<char>> {
    seq!["*.gz"@, "*.gzip"@]
}

/// Default base IRI.
pub open spec fn default_base_iri_view() -> Seq<char> {
    "http://example.org/"@
}

pub fn default_parallel() -> (r: bool)
    ensures
        r,
{
    true
}

pub fn default_max_concurrent() -> (r: usize)
    ensures
        r == 10,
{
    10
}

pub fn default_patterns() -> (r: Vec<String>)
    ensures
        texts(r@) == default_patterns_view(),
{
    let r = vec![String::from_str("*.xml"), String::from_str("*.rdf")];
    assert(texts(r@) =~= default_patterns_view());
    r
}

pub fn default_recursive() -> (r: bool)
    ensures
        r,
{
    true
}

pub fn default_archive_patterns() -> (r: Vec<String>)
    ensures
        texts(r@) == default_archive_patterns_view(),
{
    let r = vec![String::from_str("*.zip")];
    assert(texts(r@) =~= default_archive_patterns_view());
    r
}

pub fn default_gzip_patterns() -> (r: Vec<String>)
    ensures
        texts(r@) == default_gzip_patterns_view(),
{
    let r = vec![String::from_str("*.gz"), String::from_str("*.gzip")];
    assert(texts(r@) =~= default_gzip_patterns_view());
    r
}

pub fn default_base_iri() -> (r: String)
    ensures
        r@ == default_base_iri_view(),
{
    String::from_str("http://example.org/")
}

pub fn default_formats() -> (r: Vec<OutputFormat>)
    ensures
        r@ == seq![OutputFormat::Csv],
{
    let r = vec![OutputFormat::Csv];
    assert(r@ =~= seq![OutputFormat::Csv]);
    r
}

fn no_texts() -> (r: Vec<String>)
    ensures
        texts(r@) == Seq::<Seq<char>>::empty(),
{
    let r: Vec<String> = Vec::new();
    assert(texts(r@) =~= Seq::<Seq<char>>::empty());
    r
}

pub fn default_metadata() -> (r: bool)
    ensures
        r,
{
    true
}

// ---------------------------------------------------------------------
// Decoding a document (what each field reads as, and its default)
// ---------------------------------------------------------------------

/// The `[pipeline]` table.
pub open spec fn metadata_from(v: ConfigValue) -> Option<PipelineMetadataView> {
    match v {
        ConfigValue::Table(t) => match (
            required_text(t@, "name"@),
            flag_or(t@, "parallel"@, true),
            count_or(t@, "max_concurrent"@, 10),
        ) {
            (Some(name), Some(parallel), Some(max_concurrent)) => Some(
                PipelineMetadataView { name, parallel, max_concurrent },
            ),
            _ => None,
        },
        _ => None,
    }
}

/// A `type = "local"` source table.
pub open spec fn local_from(t: Seq<(ConfigValue, ConfigValue)>) -> Option<LocalSourceView> {
    match (
        text_or(t, "path"@, Seq::empty()),
        text_list_or(t, "files"@, Seq::empty()),
        text_list_or(t, "patterns"@, default_patterns_view()),
        flag_or(t, "recursive"@, true),
    ) {
        (Some(path), Some(files), Some(patterns), Some(recursive)) => Some(
            LocalSourceView { path, files, patterns, recursive },
        ),
        _ => None,
    }
}

/// A `type = "s3"` source table.
pub open spec fn s3_from(t: Seq<(ConfigValue, ConfigValue)>) -> Option<S3SourceView> {
    match (
        required_text(t, "bucket"@),
        text_or(t, "prefix"@, Seq::empty()),
        required_text(t, "region"@),
        optional_text(t, "endpoint"@),
        text_list_or(t, "files"@, Seq::empty()),
        text_list_or(t, "patterns"@, default_patterns_view()),
    ) {
        (Some(bucket), Some(prefix), Some(region), Some(endpoint), Some(files), Some(patterns)) =>
            Some(S3SourceView { bucket, prefix, region, endpoint, files, patterns }),
        _ => None,
    }
}

/// A `type = "azure"` source table.
pub open spec fn azure_from(t: Seq<(ConfigValue, ConfigValue)>) -> Option<AzureSourceView> {
    match (
        required_text(t, "account"@),
        required_text(t, "container"@),
        text_or(t, "prefix"@, Seq::empty()),
        optional_text(t, "endpoint"@),
        flag_or(t, "skip_signature"@, false),
        text_list_or(t, "files"@, Seq::empty()),
        text_list_or(t, "patterns"@, default_patterns_view()),
    ) {
        (
            Some(account),
            Some(container),
            Some(prefix),
            Some(endpoint),
            Some(skip_signature),
            Some(files),
            Some(patterns),
        ) => Some(
            AzureSourceView { account, container, prefix, endpoint, skip_signature, files, patterns },
        ),
        _ => None,
    }
}

/// A `type = "gcs"` source table.
pub open spec fn gcs_from(t: Seq<(ConfigValue, ConfigValue)>) -> Option<GcsSourceView> {
    match (
        required_text(t, "bucket"@),
        text_or(t, "prefix"@, Seq::empty()),
        optional_text(t, "endpoint"@),
        optional_text(t, "service_account_key"@),
        text_list_or(t, "files"@, Seq::empty()),
        text_list_or(t, "patterns"@, default_patterns_view()),
    ) {
        (
            Some(bucket),
            Some(prefix),
            Some(endpoint),
            Some(service_account_key),
            Some(files),
            Some(patterns),
        ) => Some(GcsSourceView { bucket, prefix, endpoint, service_account_key, files, patterns }),
        _ => None,
    }
}

/// A source table, chosen by its `type` tag.
pub open spec fn source_from(v: ConfigValue) -> Option<SourceView> {
    match v {
        ConfigValue::Table(t) => match required_text(t@, "type"@) {
            Some(tag) => if tag == "local"@ {
                match local_from(t@) {
                    Some(c) => Some(SourceView::Local(c)),
                    None => None,
                }
            } else if tag == "s3"@ {
                match s3_from(t@) {
                    Some(c) => Some(SourceView::S3(c)),
                    None => None,
                }
            } else if tag == "azure"@ {
                match azure_from(t@) {
                    Some(c) => Some(SourceView::Azure(c)),
                    None => None,
                }
            } else if tag == "gcs"@ {
                match gcs_from(t@) {
                    Some(c) => Some(SourceView::Gcs(c)),
                    None => None,
                }
            } else {
                None
            },
            None => None,
        },
        _ => None,
    }
}

/// A `type = "unzip"` processor table.
pub open spec fn unzip_from(t: Seq<(ConfigValue, ConfigValue)>) -> Option<UnzipView> {
    match (
        text_list_or(t, "patterns"@, default_patterns_view()),
        text_list_or(t, "archive_patterns"@, default_archive_patterns_view()),
        text_list_or(t, "gzip_patterns"@, default_gzip_patterns_view()),
    ) {
        (Some(patterns), Some(archive_patterns), Some(gzip_patterns)) => Some(
            UnzipView { patterns, archive_patterns, gzip_patterns },
        ),
        _ => None,
    }
}

/// A `type = "filter"` processor table.
pub open spec fn filter_from(t: Seq<(ConfigValue, ConfigValue)>) -> Option<FilterView> {
    match (text_list_or(t, "include"@, Seq::empty()), text_list_or(t, "exclude"@, Seq::empty())) {
        (Some(included), Some(exclude)) => Some(FilterView { included, exclude }),
        _ => None,
    }
}

/// A processor table, chosen by its `type` tag.
pub open spec fn processor_from(v: ConfigValue) -> Option<ProcessorView> {
    match v {
        ConfigValue::Table(t) => match required_text(t@, "type"@) {
            Some(tag) => if tag == "unzip"@ {
                match unzip_from(t@) {
                    Some(c) => Some(ProcessorView::Unzip(c)),
                    None => None,
                }
            } else if tag == "filter"@ {
                match filter_from(t@) {
                    Some(c) => Some(ProcessorView::Filter(c)),
                    None => None,
                }
            } else {
                None
            },
            None => None,
        },
        _ => None,
    }
}

/// The `[query]` table.
pub open spec fn query_from(v: ConfigValue) -> Option<QueryView> {
    match v {
        ConfigValue::Table(t) => match (
            optional_text(t@, "file"@),
            optional_text(t@, "query"@),
            text_or(t@, "base_iri"@, default_base_iri_view()),
        ) {
            (Some(file), Some(query), Some(base_iri)) => Some(QueryView { file, query, base_iri }),
            _ => None,
        },
        _ => None,
    }
}

/// An output format name.
pub open spec fn format_from(v: ConfigValue) -> Option<OutputFormat> {
    match as_text(v) {
        Some(s) => if s == "csv"@ {
            Some(OutputFormat::Csv)
        } else if s == "json"@ {
            Some(OutputFormat::Json)
        } else if s == "terminal"@ {
            Some(OutputFormat::Terminal)
        } else {
            None
        },
        None => None,
    }
}

/// Each item of a list read by `source_from`.
pub open spec fn sources_from(items: Seq<ConfigValue>) -> Option<Seq<SourceView>>
    decreases items.len(),
{
    if items.len() == 0 {
        Some(Seq::empty())
    } else {
        match (sources_from(items.drop_last()), source_from(items.last())) {
            (Some(front), Some(x)) => Some(front.push(x)),
            _ => None,
        }
    }
}

/// Each item of a list read by `processor_from`.
pub open spec fn processors_from(items: Seq<ConfigValue>) -> Option<Seq<ProcessorView>>
    decreases items.len(),
{
    if items.len() == 0 {
        Some(Seq::empty())
    } else {
        match (processors_from(items.drop_last()), processor_from(items.last())) {
            (Some(front), Some(x)) => Some(front.push(x)),
            _ => None,
        }
    }
}

/// Each item of a list read by `format_from`.
pub open spec fn formats_from(items: Seq<ConfigValue>) -> Option<Seq<OutputFormat>>
    decreases items.len(),
{
    if items.len() == 0 {
        Some(Seq::empty())
    } else {
        match (formats_from(items.drop_last()), format_from(items.last())) {
            (Some(front), Some(x)) => Some(front.push(x)),
            _ => None,
        }
    }
}

/// The `[output]` table.
pub open spec fn output_from(v: ConfigValue) -> Option<OutputView> {
    match v {
        ConfigValue::Table(t) => match (
            required_text(t@, "dir"@),
            match lookup(t@, "formats"@) {
                None => Some(seq![OutputFormat::Csv]),
                Some(ConfigValue::List(items)) => formats_from(items@),
                Some(_) => None,
            },
            flag_or(t@, "metadata"@, true),
            optional_text(t@, "prefix"@),
        ) {
            (Some(dir), Some(formats), Some(metadata), Some(prefix)) => Some(
                OutputView { dir, formats, metadata, prefix },
            ),
            _ => None,
        },
        _ => None,
    }
}

/// A whole configuration document.
pub open spec fn config_from(v: ConfigValue) -> Option<PipelineConfigView> {
    match v {
        ConfigValue::Table(t) => match (
            match lookup(t@, "pipeline"@) {
                Some(p) => metadata_from(p),
                None => None,
            },
            match lookup(t@, "sources"@) {
                None => Some(Seq::empty()),
                Some(ConfigValue::List(items)) => sources_from(items@),
                Some(_) => None,
            },
            match lookup(t@, "processors"@) {
                None => Some(Seq::empty()),
                Some(ConfigValue::List(items)) => processors_from(items@),
                Some(_) => None,
            },
            match lookup(t@, "query"@) {
                Some(q) => query_from(q),
                None => None,
            },
            match lookup(t@, "output"@) {
                Some(o) => output_from(o),
                None => None,
            },
        ) {
            (Some(pipeline), Some(sources), Some(processors), Some(query), Some(output)) => Some(
                PipelineConfigView { pipeline, sources, processors, query, output },
            ),
            _ => None,
        },
        _ => None,
    }
}

/// The configuration a parsed document gives, if any.
pub open spec fn config_from_document(doc: Option<ConfigValue>) -> Option<PipelineConfigView> {
    match doc {
        Some(v) => config_from(v),
        None => None,
    }
}


fn local_from_table(t: &Vec<(ConfigValue, ConfigValue)>) -> (r: core::result::Result<LocalSourceConfig, String>)
    ensures
        r matches Ok(c) ==> local_from(t@) == Some(c@),
        r is Err ==> local_from(t@) is None,
{
    proof {
        reveal_strlit("");
    }
    let path = field_text_or(t, "path", "")?;
    let files = field_text_list_or(t, "files", no_texts())?;
    let patterns = field_text_list_or(t, "patterns", default_patterns())?;
    let recursive = field_flag_or(t, "recursive", default_recursive())?;
    assert(text_or(t@, "path"@, Seq::empty()) == Some(path@));
    assert(text_list_or(t@, "files"@, Seq::empty()) == Some(texts(files@)));
    assert(text_list_or(t@, "patterns"@, default_patterns_view()) == Some(texts(patterns@)));
    assert(flag_or(t@, "recursive"@, true) == Some(recursive));
    Ok(LocalSourceConfig { path, files, patterns, recursive })
}


fn metadata_from_value(v: &ConfigValue) -> (r: core::result::Result<PipelineMetadata, String>)
    ensures
        r matches Ok(c) ==> metadata_from(*v) == Some(c@),
        r is Err ==> metadata_from(*v) is None,
{
    match v {
        ConfigValue::Table(t) => {
            let name = field_text(t, "name")?;
            let parallel = field_flag_or(t, "parallel", default_parallel())?;
            let max_concurrent = field_count_or(t, "max_concurrent", default_max_concurrent())?;
            assert(required_text(t@, "name"@) == Some(name@));
            assert(flag_or(t@, "parallel"@, true) == Some(parallel));
            assert(count_or(t@, "max_concurrent"@, 10) == Some(max_concurrent));
            Ok(PipelineMetadata { name, parallel, max_concurrent })
        },
        _ => Err(invalid("pipeline")),
    }
}

fn s3_from_table(t: &Vec<(ConfigValue, ConfigValue)>) -> (r: core::result::Result<S3SourceConfig, String>)
    ensures
        r matches Ok(c) ==> s3_from(t@) == Some(c@),
        r is Err ==> s3_from(t@) is None,
{
    proof {
        reveal_strlit("");
    }
    let bucket = field_text(t, "bucket")?;
    let prefix = field_text_or(t, "prefix", "")?;
    let region = field_text(t, "region")?;
    let endpoint = field_optional_text(t, "endpoint")?;
    let files = field_text_list_or(t, "files", no_texts())?;
    let patterns = field_text_list_or(t, "patterns", default_patterns())?;
    assert(required_text(t@, "bucket"@) == Some(bucket@));
    assert(text_or(t@, "prefix"@, Seq::empty()) == Some(prefix@));
    assert(required_text(t@, "region"@) == Some(region@));
    assert(optional_text(t@, "endpoint"@) == Some(opt_text(endpoint)));
    assert(text_list_or(t@, "files"@, Seq::empty()) == Some(texts(files@)));
    assert(text_list_or(t@, "patterns"@, default_patterns_view()) == Some(texts(patterns@)));
    Ok(S3SourceConfig { bucket, prefix, region, endpoint, files, patterns })
}

fn azure_from_table(t: &Vec<(ConfigValue, ConfigValue)>) -> (r: core::result::Result<AzureSourceConfig, String>)
    ensures
        r matches Ok(c) ==> azure_from(t@) == Some(c@),
        r is Err ==> azure_from(t@) is None,
{
    proof {
        reveal_strlit("");
    }
    let account = field_text(t, "account")?;
    let container = field_text(t, "container")?;
    let prefix = field_text_or(t, "prefix", "")?;
    let endpoint = field_optional_text(t, "endpoint")?;
    let skip_signature = field_flag_or(t, "skip_signature", false)?;
    let files = field_text_list_or(t, "files", no_texts())?;
    let patterns = field_text_list_or(t, "patterns", default_patterns())?;
    assert(required_text(t@, "account"@) == Some(account@));
    assert(required_text(t@, "container"@) == Some(container@));
    assert(text_or(t@, "prefix"@, Seq::empty()) == Some(prefix@));
    assert(optional_text(t@, "endpoint"@) == Some(opt_text(endpoint)));
    assert(flag_or(t@, "skip_signature"@, false) == Some(skip_signature));
    assert(text_list_or(t@, "files"@, Seq::empty()) == Some(texts(files@)));
    assert(text_list_or(t@, "patterns"@, default_patterns_view()) == Some(texts(patterns@)));
    Ok(AzureSourceConfig { account, container, prefix, endpoint, skip_signature, files, patterns })
}

fn gcs_from_table(t: &Vec<(ConfigValue, ConfigValue)>) -> (r: core::result::Result<GcsSourceConfig, String>)
    ensures
        r matches Ok(c) ==> gcs_from(t@) == Some(c@),
        r is Err ==> gcs_from(t@) is None,
{
    proof {
        reveal_strlit("");
    }
    let bucket = field_text(t, "bucket")?;
    let prefix = field_text_or(t, "prefix", "")?;
    let endpoint = field_optional_text(t, "endpoint")?;
    let service_account_key = field_optional_text(t, "service_account_key")?;
    let files = field_text_list_or(t, "files", no_texts())?;
    let patterns = field_text_list_or(t, "patterns", default_patterns())?;
    assert(required_text(t@, "bucket"@) == Some(bucket@));
    assert(text_or(t@, "prefix"@, Seq::empty()) == Some(prefix@));
    assert(optional_text(t@, "endpoint"@) == Some(opt_text(endpoint)));
    assert(optional_text(t@, "service_account_key"@) == Some(opt_text(service_account_key)));
    assert(text_list_or(t@, "files"@, Seq::empty()) == Some(texts(files@)));
    assert(text_list_or(t@, "patterns"@, default_patterns_view()) == Some(texts(patterns@)));
    Ok(GcsSourceConfig { bucket, prefix, endpoint, service_account_key, files, patterns })
}

fn source_from_value(v: &ConfigValue) -> (r: core::result::Result<SourceConfig, String>)
    ensures
        r matches Ok(c) ==> source_from(*v) == Some(c@),
        r is Err ==> source_from(*v) is None,
{
    match v {
        ConfigValue::Table(t) => {
            let tag = field_text(t, "type")?;
            if text_equals(tag.as_str(), "local") {
                Ok(SourceConfig::Local(local_from_table(t)?))
            } else if text_equals(tag.as_str(), "s3") {
                Ok(SourceConfig::S3(s3_from_table(t)?))
            } else if text_equals(tag.as_str(), "azure") {
                Ok(SourceConfig::Azure(azure_from_table(t)?))
            } else if text_equals(tag.as_str(), "gcs") {
                Ok(SourceConfig::Gcs(gcs_from_table(t)?))
            } else {
                Err(invalid("type"))
            }
        },
        _ => Err(invalid("sources")),
    }
}

fn unzip_from_table(t: &Vec<(ConfigValue, ConfigValue)>) -> (r: core::result::Result<UnzipProcessorConfig, String>)
    ensures
        r matches Ok(c) ==> unzip_from(t@) == Some(c@),
        r is Err ==> unzip_from(t@) is None,
{
    let patterns = field_text_list_or(t, "patterns", default_patterns())?;
    let archive_patterns = field_text_list_or(t, "archive_patterns", default_archive_patterns())?;
    let gzip_patterns = field_text_list_or(t, "gzip_patterns", default_gzip_patterns())?;
    assert(text_list_or(t@, "patterns"@, default_patterns_view()) == Some(texts(patterns@)));
    assert(text_list_or(t@, "archive_patterns"@, default_archive_patterns_view()) == Some(
        texts(archive_patterns@),
    ));
    assert(text_list_or(t@, "gzip_patterns"@, default_gzip_patterns_view()) == Some(
        texts(gzip_patterns@),
    ));
    Ok(UnzipProcessorConfig { patterns, archive_patterns, gzip_patterns })
}

fn filter_from_table(t: &Vec<(ConfigValue, ConfigValue)>) -> (r: core::result::Result<FilterProcessorConfig, String>)
    ensures
        r matches Ok(c) ==> filter_from(t@) == Some(c@),
        r is Err ==> filter_from(t@) is None,
{
    let included = field_text_list_or(t, "include", no_texts())?;
    let exclude = field_text_list_or(t, "exclude", no_texts())?;
    assert(text_list_or(t@, "include"@, Seq::empty()) == Some(texts(included@)));
    assert(text_list_or(t@, "exclude"@, Seq::empty()) == Some(texts(exclude@)));
    Ok(FilterProcessorConfig { included, exclude })
}

fn processor_from_value(v: &ConfigValue) -> (r: core::result::Result<ProcessorConfig, String>)
    ensures
        r matches Ok(c) ==> processor_from(*v) == Some(c@),
        r is Err ==> processor_from(*v) is None,
{
    match v {
        ConfigValue::Table(t) => {
            let tag = field_text(t, "type")?;
            if text_equals(tag.as_str(), "unzip") {
                Ok(ProcessorConfig::Unzip(unzip_from_table(t)?))
            } else if text_equals(tag.as_str(), "filter") {
                Ok(ProcessorConfig::Filter(filter_from_table(t)?))
            } else {
                Err(invalid("type"))
            }
        },
        _ => Err(invalid("processors")),
    }
}

fn query_from_value(v: &ConfigValue) -> (r: core::result::Result<QueryConfig, String>)
    ensures
        r matches Ok(c) ==> query_from(*v) == Some(c@),
        r is Err ==> query_from(*v) is None,
{
    match v {
        ConfigValue::Table(t) => {
            let file = field_optional_text(t, "file")?;
            let query = field_optional_text(t, "query")?;
            let base_iri = field_text_or(t, "base_iri", "http://example.org/")?;
            assert(optional_text(t@, "file"@) == Some(opt_text(file)));
            assert(optional_text(t@, "query"@) == Some(opt_text(query)));
            assert(text_or(t@, "base_iri"@, default_base_iri_view()) == Some(base_iri@));
            Ok(QueryConfig { file, query, base_iri })
        },
        _ => Err(invalid("query")),
    }
}

fn format_from_value(v: &ConfigValue) -> (r: core::result::Result<OutputFormat, String>)
    ensures
        r matches Ok(f) ==> format_from(*v) == Some(f),
        r is Err ==> format_from(*v) is None,
{
    let s = read_text(v, "formats")?;
    if text_equals(s.as_str(), "csv") {
        Ok(OutputFormat::Csv)
    } else if text_equals(s.as_str(), "json") {
        Ok(OutputFormat::Json)
    } else if text_equals(s.as_str(), "terminal") {
        Ok(OutputFormat::Terminal)
    } else {
        Err(invalid("formats"))
    }
}

proof fn lemma_sources_prefix_none(items: Seq<ConfigValue>, k: int)
    requires
        0 <= k <= items.len(),
        sources_from(items.take(k)) is None,
    ensures
        sources_from(items) is None,
    decreases items.len() - k,
{
    if k < items.len() {
        assert(items.take(k + 1).drop_last() =~= items.take(k));
        lemma_sources_prefix_none(items, k + 1);
    } else {
        assert(items.take(k) =~= items);
    }
}

proof fn lemma_processors_prefix_none(items: Seq<ConfigValue>, k: int)
    requires
        0 <= k <= items.len(),
        processors_from(items.take(k)) is None,
    ensures
        processors_from(items) is None,
    decreases items.len() - k,
{
    if k < items.len() {
        assert(items.take(k + 1).drop_last() =~= items.take(k));
        lemma_processors_prefix_none(items, k + 1);
    } else {
        assert(items.take(k) =~= items);
    }
}

proof fn lemma_formats_prefix_none(items: Seq<ConfigValue>, k: int)
    requires
        0 <= k <= items.len(),
        formats_from(items.take(k)) is None,
    ensures
        formats_from(items) is None,
    decreases items.len() - k,
{
    if k < items.len() {
        assert(items.take(k + 1).drop_last() =~= items.take(k));
        lemma_formats_prefix_none(items, k + 1);
    } else {
        assert(items.take(k) =~= items);
    }
}

fn sources_from_list(items: &Vec<ConfigValue>) -> (r: core::result::Result<Vec<SourceConfig>, String>)
    ensures
        r matches Ok(l) ==> sources_from(items@) == Some(source_views(l@)),
        r is Err ==> sources_from(items@) is None,
{
    let mut out: Vec<SourceConfig> = Vec::new();
    let n = items.len();
    let mut i: usize = 0;
    assert(source_views(out@) =~= Seq::empty());
    while i < n
        invariant
            n == items@.len(),
            i <= n,
            sources_from(items@.take(i as int)) == Some(source_views(out@)),
        decreases n - i,
    {
        assert(items@.take(i + 1).drop_last() =~= items@.take(i as int));
        match source_from_value(&items[i]) {
            Ok(c) => {
                let ghost before = out@;
                let ghost cv = c@;
                out.push(c);
                assert(source_views(out@) =~= source_views(before).push(cv));
            },
            Err(e) => {
                proof {
                    lemma_sources_prefix_none(items@, i + 1);
                }
                return Err(e);
            },
        }
        i = i + 1;
    }
    assert(items@.take(n as int) =~= items@);
    Ok(out)
}

fn processors_from_list(items: &Vec<ConfigValue>) -> (r: core::result::Result<Vec<ProcessorConfig>, String>)
    ensures
        r matches Ok(l) ==> processors_from(items@) == Some(processor_views(l@)),
        r is Err ==> processors_from(items@) is None,
{
    let mut out: Vec<ProcessorConfig> = Vec::new();
    let n = items.len();
    let mut i: usize = 0;
    assert(processor_views(out@) =~= Seq::empty());
    while i < n
        invariant
            n == items@.len(),
            i <= n,
            processors_from(items@.take(i as int)) == Some(processor_views(out@)),
        decreases n - i,
    {
        assert(items@.take(i + 1).drop_last() =~= items@.take(i as int));
        match processor_from_value(&items[i]) {
            Ok(c) => {
                let ghost before = out@;
                let ghost cv = c@;
                out.push(c);
                assert(processor_views(out@) =~= processor_views(before).push(cv));
            },
            Err(e) => {
                proof {
                    lemma_processors_prefix_none(items@, i + 1);
                }
                return Err(e);
            },
        }
        i = i + 1;
    }
    assert(items@.take(n as int) =~= items@);
    Ok(out)
}

fn formats_from_list(items: &Vec<ConfigValue>) -> (r: core::result::Result<Vec<OutputFormat>, String>)
    ensures
        r matches Ok(l) ==> formats_from(items@) == Some(l@),
        r is Err ==> formats_from(items@) is None,
{
    let mut out: Vec<OutputFormat> = Vec::new();
    let n = items.len();
    let mut i: usize = 0;
    assert(out@ =~= Seq::<OutputFormat>::empty());
    while i < n
        invariant
            n == items@.len(),
            i <= n,
            formats_from(items@.take(i as int)) == Some(out@),
        decreases n - i,
    {
        assert(items@.take(i + 1).drop_last() =~= items@.take(i as int));
        match format_from_value(&items[i]) {
            Ok(f) => {
                out.push(f);
            },
            Err(e) => {
                proof {
                    lemma_formats_prefix_none(items@, i + 1);
                }
                return Err(e);
            },
        }
        i = i + 1;
    }
    assert(items@.take(n as int) =~= items@);
    Ok(out)
}

fn output_from_value(v: &ConfigValue) -> (r: core::result::Result<OutputConfig, String>)
    ensures
        r matches Ok(c) ==> output_from(*v) == Some(c@),
        r is Err ==> output_from(*v) is None,
{
    match v {
        ConfigValue::Table(t) => {
            let dir = field_text(t, "dir")?;
            let formats = match find_field(t, "formats") {
                None => default_formats(),
                Some(ConfigValue::List(items)) => formats_from_list(items)?,
                Some(_) => {
                    return Err(invalid("formats"));
                },
            };
            let metadata = field_flag_or(t, "metadata", default_metadata())?;
            let prefix = field_optional_text(t, "prefix")?;
            assert(required_text(t@, "dir"@) == Some(dir@));
            assert(flag_or(t@, "metadata"@, true) == Some(metadata));
            assert(optional_text(t@, "prefix"@) == Some(opt_text(prefix)));
            Ok(OutputConfig { dir, formats, metadata, prefix })
        },
        _ => Err(invalid("output")),
    }
}

fn config_from_value(v: &ConfigValue) -> (r: core::result::Result<PipelineConfig, String>)
    ensures
        r matches Ok(c) ==> config_from(*v) == Some(c@),
        r is Err ==> config_from(*v) is None,
{
    match v {
        ConfigValue::Table(t) => {
            let pipeline = match find_field(t, "pipeline") {
                Some(p) => metadata_from_value(p)?,
                None => {
                    return Err(missing("pipeline"));
                },
            };
            let sources = match find_field(t, "sources") {
                None => Vec::new(),
                Some(ConfigValue::List(items)) => sources_from_list(items)?,
                Some(_) => {
                    return Err(invalid("sources"));
                },
            };
            let processors = match find_field(t, "processors") {
                None => Vec::new(),
                Some(ConfigValue::List(items)) => processors_from_list(items)?,
                Some(_) => {
                    return Err(invalid("processors"));
                },
            };
            let query = match find_field(t, "query") {
                Some(q) => query_from_value(q)?,
                None => {
                    return Err(missing("query"));
                },
            };
            let output = match find_field(t, "output") {
                Some(o) => output_from_value(o)?,
                None => {
                    return Err(missing("output"));
                },
            };
            let r = PipelineConfig { pipeline, sources, processors, query, output };
            assert(source_views(r.sources@) =~= match lookup(t@, "sources"@) {
                None => Seq::empty(),
                Some(ConfigValue::List(items)) => sources_from(items@)->0,
                Some(_) => Seq::empty(),
            });
            assert(processor_views(r.processors@) =~= match lookup(t@, "processors"@) {
                None => Seq::empty(),
                Some(ConfigValue::List(items)) => processors_from(items@)->0,
                Some(_) => Seq::empty(),
            });
            Ok(r)
        },
        _ => Err(invalid("document")),
    }
}

impl PipelineConfig {
    /// Decodes a parsed document: unknown fields are ignored, absent fields
    /// take their defaults, and each source or processor is chosen by its
    /// `type` tag. The error text is not described.
    pub fn from_document(doc: &ConfigValue) -> (r: core::result::Result<PipelineConfig, String>)
        ensures
            r matches Ok(c) ==> config_from(*doc) == Some(c@),
            r is Err ==> config_from(*doc) is None,
    {
        config_from_value(doc)
    }

    /// Load configuration from a TOML string.
    pub fn from_toml(content: &str) -> (r: Result<PipelineConfig>)
        ensures
            loaded_config(r) == config_in(ConfigFormat::Toml, content@),
            r matches Err(e) ==> is_parse_error_of(ConfigFormat::Toml, e),
    {
        match parse_toml(content) {
            Ok(doc) => match config_from_value(&doc) {
                Ok(c) => Ok(c),
                Err(m) => Err(PipelineError::TomlParse(m)),
            },
            Err(m) => Err(PipelineError::TomlParse(m)),
        }
    }

    /// Load configuration from a YAML string.
    pub fn from_yaml(content: &str) -> (r: Result<PipelineConfig>)
        ensures
            loaded_config(r) == config_in(ConfigFormat::Yaml, content@),
            r matches Err(e) ==> is_parse_error_of(ConfigFormat::Yaml, e),
    {
        match parse_yaml(content) {
            Ok(doc) => match config_from_value(&doc) {
                Ok(c) => Ok(c),
                Err(m) => Err(PipelineError::YamlParse(m)),
            },
            Err(m) => Err(PipelineError::YamlParse(m)),
        }
    }

    /// Load configuration from a JSON string.
    pub fn from_json(content: &str) -> (r: Result<PipelineConfig>)
        ensures
            loaded_config(r) == config_in(ConfigFormat::Json, content@),
            r matches Err(e) ==> is_parse_error_of(ConfigFormat::Json, e),
    {
        match parse_json(content) {
            Ok(doc) => match config_from_value(&doc) {
                Ok(c) => Ok(c),
                Err(m) => Err(PipelineError::JsonParse(m)),
            },
            Err(m) => Err(PipelineError::JsonParse(m)),
        }
    }

    /// Alias for `from_toml`.
    pub fn from_str(content: &str) -> (r: Result<PipelineConfig>)
        ensures
            loaded_config(r) == config_in(ConfigFormat::Toml, content@),
            r matches Err(e) ==> is_parse_error_of(ConfigFormat::Toml, e),
    {
        Self::from_toml(content)
    }
}


/// The syntax of a configuration file.
#[derive(Debug, Clone, Copy, PartialEq, Eq, Structural)]
pub enum ConfigFormat {
    Toml,
    Yaml,
    Json,
}

/// The syntax a lowercased extension selects: `yaml` and `yml` are YAML,
/// `json` is JSON, anything else is TOML.
pub open spec fn format_for_extension(ext: Seq<char>) -> ConfigFormat {
    if ext == "yaml"@ || ext == "yml"@ {
        ConfigFormat::Yaml
    } else if ext == "json"@ {
        ConfigFormat::Json
    } else {
        ConfigFormat::Toml
    }
}

/// The syntax of the file at `path`, by its extension (case-insensitive).
pub open spec fn format_of_path(path: Seq<char>) -> ConfigFormat {
    match path_extension(path) {
        Some(e) => format_for_extension(lowercase(e)),
        None => format_for_extension(Seq::empty()),
    }
}

/// The parsed document of a text in a given syntax.
pub open spec fn document_in(format: ConfigFormat, text: Seq<char>) -> Option<ConfigValue> {
    match format {
        ConfigFormat::Toml => toml_document(text),
        ConfigFormat::Yaml => yaml_document(text),
        ConfigFormat::Json => json_document(text),
    }
}

/// The configuration a text gives in a syntax: its parsed document,
/// decoded; `None` where either step fails.
pub open spec fn config_in(format: ConfigFormat, text: Seq<char>) -> Option<PipelineConfigView> {
    config_from_document(document_in(format, text))
}

/// What loading gave: the configuration, or `None` for an error.
pub open spec fn loaded_config(r: Result<PipelineConfig>) -> Option<PipelineConfigView> {
    match r {
        Ok(c) => Some(c@),
        Err(_) => None,
    }
}

/// The error a syntax reports its failures with.
pub open spec fn is_parse_error_of(format: ConfigFormat, e: PipelineError) -> bool {
    match format {
        ConfigFormat::Toml => e is TomlParse,
        ConfigFormat::Yaml => e is YamlParse,
        ConfigFormat::Json => e is JsonParse,
    }
}

/// Loading a configuration file is parsing its text in the syntax its
/// lowercased extension names: YAML for `yaml` and `yml`, JSON for `json`,
/// TOML for any other extension.
pub proof fn law_config_syntax_by_extension(path: Seq<char>, ext: Seq<char>)
    requires
        path_extension(path) == Some(ext),
    ensures
        format_of_path(path) == ConfigFormat::Yaml <==> (lowercase(ext) == "yaml"@ || lowercase(ext) == "yml"@),
        format_of_path(path) == ConfigFormat::Json <==> lowercase(ext) == "json"@,
        format_of_path(path) == ConfigFormat::Toml <==> !(lowercase(ext) == "yaml"@ || lowercase(ext) == "yml"@
            || lowercase(ext) == "json"@),
{
    reveal_strlit("yaml");
    reveal_strlit("yml");
    reveal_strlit("json");
    assert("json"@[0] != "yaml"@[0] && "json"@[0] != "yml"@[0]);
}

impl ConfigFormat {
    /// Detects the syntax of a configuration file from its extension.
    pub fn of_path(path: &str) -> (r: ConfigFormat)
        ensures
            r == format_of_path(path@),
    {
        let ext = match extension_of(path) {
            Some(e) => to_lowercase(e.as_str()),
            None => String::new(),
        };
        if text_equals(ext.as_str(), "yaml") || text_equals(ext.as_str(), "yml") {
            ConfigFormat::Yaml
        } else if text_equals(ext.as_str(), "json") {
            ConfigFormat::Json
        } else {
            ConfigFormat::Toml
        }
    }
}

impl PipelineConfig {
    /// Loads a configuration from the text of the file at `path`, in the
    /// syntax its extension names (TOML unless `.yaml`, `.yml` or `.json`).
    pub fn from_file_content(path: &str, content: &str) -> (r: Result<PipelineConfig>)
        ensures
            loaded_config(r) == config_in(format_of_path(path@), content@),
            r matches Err(e) ==> is_parse_error_of(format_of_path(path@), e),
    {
        match ConfigFormat::of_path(path) {
            ConfigFormat::Yaml => Self::from_yaml(content),
            ConfigFormat::Json => Self::from_json(content),
            ConfigFormat::Toml => Self::from_toml(content),
        }
    }
}


// ---------------------------------------------------------------------
// The query text and the built-in configuration
// ---------------------------------------------------------------------

/// Default SPARQL query for CIM/IGM data.
pub const DEFAULT_QUERY: &'static str = "
PREFIX rdf: <http://www.w3.org/1999/02/22-rdf-syntax-ns#>
PREFIX cim: <http://iec.ch/TC57/CIM100#>
PREFIX md: <http://iec.ch/TC57/61970-552/ModelDescription/1#>

SELECT ?subject ?predicate ?object
WHERE {
    ?subject ?predicate ?object .
}
LIMIT 100
";

impl QueryConfig {
    /// Get the SPARQL query string: the text of the configured query file
    /// (read by the caller, who hands in what the read gave), else the
    /// inline query, else `DEFAULT_QUERY`.
    pub fn get_query(&self, file_text: Option<core::result::Result<String, String>>) -> (r: Result<String>)
        requires
            self.file is Some ==> file_text is Some,
        ensures
            match self.file {
                Some(f) => match file_text {
                    Some(Ok(t)) => r matches Ok(q) && q@ == t@,
                    Some(Err(e)) => r matches Err(PipelineError::Config(m))
                        && m@ == "Failed to read query file '"@ + f@ + "': "@ + e@,
                    None => false,
                },
                None => match self.query {
                    Some(q0) => r matches Ok(q) && q@ == q0@,
                    None => r matches Ok(q) && q@ == DEFAULT_QUERY@,
                },
            },
    {
        match &self.file {
            Some(f) => match file_text {
                Some(Ok(t)) => Ok(t),
                Some(Err(e)) => {
                    let mut m = String::from_str("Failed to read query file '");
                    m.append(f.as_str());
                    m.append("': ");
                    m.append(e.as_str());
                    Err(PipelineError::Config(m))
                },
                None => Err(PipelineError::Config(String::new())),
            },
            None => match &self.query {
                Some(q) => Ok(q.clone()),
                None => Ok(String::from_str(DEFAULT_QUERY)),
            },
        }
    }
}

/// The configuration used where no configuration file exists (for Docker):
/// XML and RDF files under `/input`, the query in `/input/query.sparql`,
/// CSV results and metadata under `/output`.
pub open spec fn default_config_view() -> PipelineConfigView {
    PipelineConfigView {
        pipeline: PipelineMetadataView { name: "default"@, parallel: true, max_concurrent: 10 },
        sources: seq![SourceView::Local(LocalSourceView {
            path: "/input"@,
            files: Seq::empty(),
            patterns: seq!["*.xml"@, "*.rdf"@],
            recursive: true,
        })],
        processors: Seq::empty(),
        query: QueryView { file: Some("/input/query.sparql"@), query: None, base_iri: "http://example.org/"@ },
        output: OutputView {
            dir: "/output"@,
            formats: seq![OutputFormat::Csv],
            metadata: true,
            prefix: Some("results"@),
        },
    }
}

/// Creates the built-in configuration.
pub fn default_config() -> (r: PipelineConfig)
    ensures
        r@ == default_config_view(),
{
    let mut patterns: Vec<String> = Vec::new();
    patterns.push(String::from_str("*.xml"));
    patterns.push(String::from_str("*.rdf"));
    let local = LocalSourceConfig {
        path: String::from_str("/input"),
        files: Vec::new(),
        patterns,
        recursive: true,
    };
    assert(texts(local.files@) =~= Seq::<Seq<char>>::empty());
    assert(texts(local.patterns@) =~= seq!["*.xml"@, "*.rdf"@]);
    let mut sources: Vec<SourceConfig> = Vec::new();
    sources.push(SourceConfig::Local(local));
    let mut formats: Vec<OutputFormat> = Vec::new();
    formats.push(OutputFormat::Csv);
    let r = PipelineConfig {
        pipeline: PipelineMetadata { name: String::from_str("default"), parallel: true, max_concurrent: 10 },
        sources,
        processors: Vec::new(),
        query: QueryConfig {
            file: Some(String::from_str("/input/query.sparql")),
            query: None,
            base_iri: String::from_str("http://example.org/"),
        },
        output: OutputConfig {
            dir: String::from_str("/output"),
            formats,
            metadata: true,
            prefix: Some(String::from_str("results")),
        },
    };
    assert(r@.sources =~= default_config_view().sources);
    assert(r@.processors =~= default_config_view().processors);
    assert(r@.output.formats =~= default_config_view().output.formats);
    r
}

} // verus!
