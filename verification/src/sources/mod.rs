//! Data sources: where files come from before they are processed.

pub mod local;
pub mod object_store_source;

use vstd::prelude::*;

pub use local::LocalSource;
pub use object_store_source::ObjectStoreSource;


use crate::config::pipeline::{SourceConfig, SourceView};

verus! {

/// A file fetched from a source.
#[derive(Debug, Clone)]
pub struct FetchedFile {
    /// Original path/key of the file.
    pub path: String,
    /// Filename (without directory).
    pub filename: String,
    /// File content as bytes.
    pub content: Vec<u8>,
    /// Source name that provided this file.
    pub source: String,
}

/// A file as the pipeline sees it: where it came from, its name, its bytes
/// and the source that provided it.
pub ghost struct FileView {
    pub path: Seq<char>,
    pub filename: Seq<char>,
    pub content: Seq<u8>,
    pub source: Seq<char>,
}

impl View for FetchedFile {
    type V = FileView;

    open spec fn view(&self) -> FileView {
        FileView { path: self.path@, filename: self.filename@, content: self.content@, source: self.source@ }
    }
}

/// The views of a list of fetched files.
pub open spec fn fetched_views(files: Seq<FetchedFile>) -> Seq<FileView> {
    Seq::new(files.len(), |i: int| files[i]@)
}


/// A source built from its configuration.
pub enum Source {
    Local(LocalSource),
    ObjectStore(ObjectStoreSource),
}

/// The name a source of the given configuration goes by.
pub open spec fn source_name_for(config: SourceView) -> Seq<char> {
    match config {
        SourceView::Local(c) => local::local_source_name(c),
        SourceView::S3(c) => object_store_source::store_source_name("s3://"@, c.bucket, c.prefix, c.files.len()),
        SourceView::Azure(c) => object_store_source::store_source_name(
            "azure://"@,
            c.container,
            c.prefix,
            c.files.len(),
        ),
        SourceView::Gcs(c) => object_store_source::store_source_name("gs://"@, c.bucket, c.prefix, c.files.len()),
    }
}

impl Source {
    /// The name of the source.
    pub open spec fn name_view(&self) -> Seq<char> {
        match self {
            Source::Local(s) => s.name_view(),
            Source::ObjectStore(s) => s.name_view(),
        }
    }

    /// The name of the source, for logging.
    pub fn name(&self) -> (r: &str)
        ensures
            r@ == self.name_view(),
    {
        match self {
            Source::Local(s) => s.name(),
            Source::ObjectStore(s) => s.name(),
        }
    }
}

/// Creates the source a configuration describes.
pub fn create_source(config: &SourceConfig) -> (r: Source)
    ensures
        r.name_view() == source_name_for(config@),
        config is Local <==> r is Local,
        r matches Source::Local(l) ==> config@ == SourceView::Local(l.config_view()),
{
    match config {
        SourceConfig::Local(c) => Source::Local(LocalSource::new(c.clone_config())),
        SourceConfig::S3(c) => Source::ObjectStore(ObjectStoreSource::s3(c.clone_config())),
        SourceConfig::Azure(c) => Source::ObjectStore(ObjectStoreSource::azure(c.clone_config())),
        SourceConfig::Gcs(c) => Source::ObjectStore(ObjectStoreSource::gcs(c.clone_config())),
    }
}

} // verus!
