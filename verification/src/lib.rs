//! Fetch, decompress, filter and query RDF data with SPARQL, then render the
//! results as CSV, JSON, tab-separated text or a metadata report.

pub mod config;
pub mod error;
pub mod glob;
pub mod paths;
pub mod text;
pub mod processors;
pub mod sources;
pub mod query;
pub mod output;
pub mod pipeline;
pub mod interactive;
pub mod wizard;
