//! Processors: steps that transform the fetched files before they are
//! loaded (decompressing archives, filtering by name).

pub mod filter;
pub mod unzip;

use vstd::prelude::*;

use crate::config::pipeline::{ProcessorConfig, ProcessorView};
use crate::error::Result;
use crate::sources::{FetchedFile, FileView};

pub use filter::FilterProcessor;
pub use unzip::UnzipProcessor;

verus! {

/// A file after processing.
#[derive(Debug, Clone)]
pub struct ProcessedFile {
    /// Path/identifier of the file.
    pub path: String,
    /// Filename (without directory).
    pub filename: String,
    /// File content as bytes.
    pub content: Vec<u8>,
    /// Source that originally provided this file.
    pub source: String,
}

impl View for ProcessedFile {
    type V = FileView;

    open spec fn view(&self) -> FileView {
        FileView { path: self.path@, filename: self.filename@, content: self.content@, source: self.source@ }
    }
}

/// The views of a list of processed files.
pub open spec fn file_views(files: Seq<ProcessedFile>) -> Seq<FileView> {
    Seq::new(files.len(), |i: int| files[i]@)
}

impl From<FetchedFile> for ProcessedFile {
    fn from(f: FetchedFile) -> (r: ProcessedFile) {
        ProcessedFile { path: f.path, filename: f.filename, content: f.content, source: f.source }
    }
}

impl vstd::std_specs::convert::FromSpecImpl<FetchedFile> for ProcessedFile {
    open spec fn obeys_from_spec() -> bool {
        true
    }

    open spec fn from_spec(v: FetchedFile) -> ProcessedFile {
        ProcessedFile { path: v.path, filename: v.filename, content: v.content, source: v.source }
    }
}


/// A processor built from its configuration.
pub enum Processor {
    Unzip(UnzipProcessor),
    Filter(FilterProcessor),
}

/// What a processor of the given configuration makes of a list of files.
pub open spec fn processed_by(config: ProcessorView, files: Seq<FileView>) -> Seq<FileView> {
    match config {
        ProcessorView::Unzip(u) => unzip::unzip_files(u, files),
        ProcessorView::Filter(f) => filter::filter_files(f, files),
    }
}

impl Processor {
    /// The configuration this processor was built from.
    pub open spec fn config_view(&self) -> ProcessorView {
        match self {
            Processor::Unzip(p) => ProcessorView::Unzip(p.config_view()),
            Processor::Filter(p) => ProcessorView::Filter(p.config_view()),
        }
    }

    /// Processes files, transforming or filtering them.
    pub fn process(&self, files: Vec<ProcessedFile>) -> (r: Result<Vec<ProcessedFile>>)
        ensures
            r matches Ok(v) && file_views(v@) == processed_by(self.config_view(), file_views(files@)),
    {
        match self {
            Processor::Unzip(p) => p.process(files),
            Processor::Filter(p) => p.process(files),
        }
    }

    /// The name of this processor, for logging.
    pub fn name(&self) -> (r: &'static str)
        ensures
            r@ == (match self {
                Processor::Unzip(_) => "decompress"@,
                Processor::Filter(_) => "filter"@,
            }),
    {
        match self {
            Processor::Unzip(p) => p.name(),
            Processor::Filter(p) => p.name(),
        }
    }
}

/// Builds the processor a configuration describes.
pub fn create_processor(config: &ProcessorConfig) -> (r: Processor)
    ensures
        r.config_view() == config@,
{
    match config {
        ProcessorConfig::Unzip(cfg) => Processor::Unzip(UnzipProcessor::new(cfg.clone_config())),
        ProcessorConfig::Filter(cfg) => Processor::Filter(FilterProcessor::new(cfg.clone_config())),
    }
}

} // verus!
