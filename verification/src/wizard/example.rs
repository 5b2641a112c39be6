//! The example project: what is downloaded, and the pipeline
//! configuration written for it.

use vstd::prelude::*;

use super::blueprint::{FileCategory, PlannedDownload};
use crate::text::push_char;

verus! {

/// Where the example files are downloaded from.
pub const BASE_URL: &'static str = "https://raw.githubusercontent.com/TopSwagCode/cimishi/refs/heads/master";

/// `p` with each backslash made a slash.
pub open spec fn forward_slashes(p: Seq<char>) -> Seq<char> {
    Seq::new(p.len(), |i: int| if p[i] == '\\' { '/' } else { p[i] })
}

/// Makes every backslash of a path a slash.
pub fn normalize_path(p: &str) -> (r: String)
    ensures
        r@ == forward_slashes(p@),
{
    let mut r = String::new();
    for c in it: p.chars()
        invariant
            it.seq() == p@,
            r@ == forward_slashes(p@.take(it.index() as int)),
    {
        let ghost i = it.index() as int;
        if c == '\\' {
            push_char(&mut r, '/');
        } else {
            push_char(&mut r, c);
        }
        assert(r@ =~= forward_slashes(p@.take(i + 1)));
    }
    assert(p@.take(p@.len() as int) =~= p@);
    r
}

/// The text before the data directory in the example configuration.
pub open spec fn example_head() -> Seq<char> {
    "{\n  \"pipeline\": {\n    \"name\": \"example-pipeline\",\n    \"parallel\": true,\n    \"max_concurrent\": 10\n  },\n  \"sources\": [\n    {\n      \"type\": \"local\",\n      \"path\": \""@
}

/// The text between the data directory and the query file.
pub open spec fn example_middle() -> Seq<char> {
    "\",\n      \"patterns\": [\"*.xml\", \"*.rdf\", \"*.zip\", \"*.gz\"],\n      \"recursive\": true\n    }\n  ],\n  \"processors\": [\n    {\n      \"type\": \"unzip\",\n      \"archive_patterns\": [\"*.zip\"],\n      \"gzip_patterns\": [\"*.gz\", \"*.gzip\"],\n      \"patterns\": [\"*.xml\", \"*.rdf\"]\n    },\n    {\n      \"type\": \"filter\",\n      \"exclude\": [\"._*\", \"__MACOSX/*\"]\n    }\n  ],\n  \"query\": {\n    \"file\": \""@
}

/// The text after the query file.
pub open spec fn example_tail() -> Seq<char> {
    "\",\n    \"base_iri\": \"http://example.org/\"\n  },\n  \"output\": {\n    \"dir\": \"./.cimishi/output\",\n    \"formats\": [\"csv\", \"json\", \"terminal\"],\n    \"metadata\": true,\n    \"prefix\": \"example-results\"\n  }\n}"@
}

/// The example's pipeline configuration (JSON): the example data under
/// `data_dir` is unzipped and queried with the query at `query_path`
/// (both written with forward slashes), and the results go to
/// `./.cimishi/output`.
pub fn pipeline_config_json(data_dir: &str, query_path: &str) -> (r: String)
    ensures
        r@ == example_head() + forward_slashes(data_dir@) + example_middle() + forward_slashes(query_path@)
            + example_tail(),
{
    let data_dir = normalize_path(data_dir);
    let query_path = normalize_path(query_path);
    let mut r = String::from_str(
        "{\n  \"pipeline\": {\n    \"name\": \"example-pipeline\",\n    \"parallel\": true,\n    \"max_concurrent\": 10\n  },\n  \"sources\": [\n    {\n      \"type\": \"local\",\n      \"path\": \"",
    );
    r.append(data_dir.as_str());
    r.append(
        "\",\n      \"patterns\": [\"*.xml\", \"*.rdf\", \"*.zip\", \"*.gz\"],\n      \"recursive\": true\n    }\n  ],\n  \"processors\": [\n    {\n      \"type\": \"unzip\",\n      \"archive_patterns\": [\"*.zip\"],\n      \"gzip_patterns\": [\"*.gz\", \"*.gzip\"],\n      \"patterns\": [\"*.xml\", \"*.rdf\"]\n    },\n    {\n      \"type\": \"filter\",\n      \"exclude\": [\"._*\", \"__MACOSX/*\"]\n    }\n  ],\n  \"query\": {\n    \"file\": \"",
    );
    r.append(query_path.as_str());
    r.append(
        "\",\n    \"base_iri\": \"http://example.org/\"\n  },\n  \"output\": {\n    \"dir\": \"./.cimishi/output\",\n    \"formats\": [\"csv\", \"json\", \"terminal\"],\n    \"metadata\": true,\n    \"prefix\": \"example-results\"\n  }\n}",
    );
    r
}

/// The files of the example: the sample data (a ZIP archive) and the
/// query, each as its URL under `BASE_URL` and the name it is saved under.
pub fn example_downloads() -> (r: Vec<PlannedDownload>)
    ensures
        r@.map_values(|d: PlannedDownload| (d.category, d.url@, d.file_name@)) == seq![
            (FileCategory::Data, BASE_URL@ + "/examples/data/SampleData.zip"@, "example-data.zip"@),
            (FileCategory::Queries, BASE_URL@ + "/examples/queries/query.sparql"@, "example-query.sparql"@),
        ],
{
    let mut data_url = String::from_str(BASE_URL);
    data_url.append("/examples/data/SampleData.zip");
    let mut query_url = String::from_str(BASE_URL);
    query_url.append("/examples/queries/query.sparql");
    let mut r: Vec<PlannedDownload> = Vec::new();
    r.push(PlannedDownload {
        category: FileCategory::Data,
        url: data_url,
        file_name: String::from_str("example-data.zip"),
    });
    r.push(PlannedDownload {
        category: FileCategory::Queries,
        url: query_url,
        file_name: String::from_str("example-query.sparql"),
    });
    assert(r@.map_values(|d: PlannedDownload| (d.category, d.url@, d.file_name@)) =~= seq![
        (FileCategory::Data, BASE_URL@ + "/examples/data/SampleData.zip"@, "example-data.zip"@),
        (FileCategory::Queries, BASE_URL@ + "/examples/queries/query.sparql"@, "example-query.sparql"@),
    ]);
    r
}

/// After normalizing, a path holds no backslash.
pub proof fn law_normalized_has_no_backslash(p: Seq<char>)
    ensures
        forall|i: int| 0 <= i < forward_slashes(p).len() ==> #[trigger] forward_slashes(p)[i] != '\\',
{
}

/// Normalizing a normalized path changes nothing.
pub proof fn law_normalize_idempotent(p: Seq<char>)
    ensures
        forward_slashes(forward_slashes(p)) == forward_slashes(p),
{
    assert(forward_slashes(forward_slashes(p)) =~= forward_slashes(p));
}

} // verus!
