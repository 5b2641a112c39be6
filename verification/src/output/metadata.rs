//! Metadata output: how the run went, one `key: value` line each.

use vstd::prelude::*;

use super::{file_name_for, file_name_view, rfc3339_timestamp, OutputMetadata};
use crate::config::pipeline::OutputConfig;
use crate::query::sparql::QueryOutput;
use crate::text::{decimal, decimal_text};

verus! {

/// The figures of the metadata report that are written with decimals:
/// the load and query times in seconds (three decimals) and the peak
/// memory in MiB (two decimals), as the caller formats them.
pub struct MetadataFigures {
    pub load_time_secs: String,
    pub query_time_secs: String,
    pub peak_memory_mb: String,
}

/// The metadata report.
pub open spec fn metadata_text(output: QueryOutput, metadata: OutputMetadata, figures: MetadataFigures) -> Seq<char> {
    "pipeline_name: "@ + metadata.pipeline_name@ + "\n"@
        + "timestamp: "@ + rfc3339_timestamp(metadata.timestamp.secs(), metadata.timestamp.nanos()) + "\n"@
        + "files_loaded: "@ + decimal(output.files_loaded as nat) + "\n"@
        + "triples_loaded: "@ + decimal(output.triples_loaded as nat) + "\n"@
        + "load_time_ms: "@ + decimal(output.load_time.millis() as nat) + "\n"@
        + "load_time_secs: "@ + figures.load_time_secs@ + "\n"@
        + "query_time_ms: "@ + decimal(output.query_time.millis() as nat) + "\n"@
        + "query_time_secs: "@ + figures.query_time_secs@ + "\n"@
        + "result_count: "@ + decimal(output.count as nat) + "\n"@
        + match output.peak_memory_bytes {
        Some(m) => "peak_memory_bytes: "@ + decimal(m as nat) + "\n"@ + "peak_memory_mb: "@
            + figures.peak_memory_mb@ + "\n"@,
        None => Seq::empty(),
    }
}

/// Metadata output writer.
pub struct MetadataWriter;

impl MetadataWriter {
    /// The name of the metadata file: `<prefix>_<timestamp>.metadata`.
    pub fn file_name(&self, metadata: &OutputMetadata, config: &OutputConfig) -> (r: String)
        ensures
            r@ == file_name_view(*metadata, *config, "metadata"@),
    {
        file_name_for(metadata, config, "metadata")
    }

    /// The metadata report of a run.
    pub fn render(&self, output: &QueryOutput, metadata: &OutputMetadata, figures: &MetadataFigures) -> (r: String)
        ensures
            r@ == metadata_text(*output, *metadata, *figures),
    {
        let mut out = String::from_str("pipeline_name: ");
        out.append(metadata.pipeline_name.as_str());
        out.append("\ntimestamp: ");
        let t = metadata.timestamp.rfc3339();
        out.append(t.as_str());
        out.append("\nfiles_loaded: ");
        let a = decimal_text(output.files_loaded as u128);
        out.append(a.as_str());
        out.append("\ntriples_loaded: ");
        let b = decimal_text(output.triples_loaded as u128);
        out.append(b.as_str());
        out.append("\nload_time_ms: ");
        let c = decimal_text(output.load_time.as_millis());
        out.append(c.as_str());
        out.append("\nload_time_secs: ");
        out.append(figures.load_time_secs.as_str());
        out.append("\nquery_time_ms: ");
        let d = decimal_text(output.query_time.as_millis());
        out.append(d.as_str());
        out.append("\nquery_time_secs: ");
        out.append(figures.query_time_secs.as_str());
        out.append("\nresult_count: ");
        let e = decimal_text(output.count as u128);
        out.append(e.as_str());
        out.append("\n");
        match output.peak_memory_bytes {
            Some(m) => {
                out.append("peak_memory_bytes: ");
                let f = decimal_text(m as u128);
                out.append(f.as_str());
                out.append("\npeak_memory_mb: ");
                out.append(figures.peak_memory_mb.as_str());
                out.append("\n");
            },
            None => {},
        }
        proof {
            reveal_strlit("\ntimestamp: ");
            reveal_strlit("timestamp: ");
            reveal_strlit("\n");
            reveal_strlit("\nfiles_loaded: ");
            reveal_strlit("files_loaded: ");
            reveal_strlit("\ntriples_loaded: ");
            reveal_strlit("triples_loaded: ");
            reveal_strlit("\nload_time_ms: ");
            reveal_strlit("load_time_ms: ");
            reveal_strlit("\nload_time_secs: ");
            reveal_strlit("load_time_secs: ");
            reveal_strlit("\nquery_time_ms: ");
            reveal_strlit("query_time_ms: ");
            reveal_strlit("\nquery_time_secs: ");
            reveal_strlit("query_time_secs: ");
            reveal_strlit("\nresult_count: ");
            reveal_strlit("result_count: ");
            reveal_strlit("\npeak_memory_mb: ");
            reveal_strlit("peak_memory_mb: ");
        }
        assert(out@ =~= metadata_text(*output, *metadata, *figures));
        out
    }
}

} // verus!
