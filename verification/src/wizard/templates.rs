//! The files the configuration wizard writes: a pipeline configuration in
//! the format of the configuration reference, and a starting query.

use vstd::prelude::*;

use crate::config::pipeline::DEFAULT_QUERY;
use crate::text::{joined, text_equals};

verus! {

/// The source section the wizard writes for a source type: a local
/// directory, or a bucket or container with example names to edit.
pub open spec fn source_section(source_type: Seq<char>) -> Seq<char> {
    if source_type == "s3"@ {
        "bucket = \"my-bucket\"\nprefix = \"\"\nregion = \"eu-west-1\"\npatterns = [\"*.xml\"]\n"@
    } else if source_type == "azure"@ {
        "account = \"mystorageaccount\"\ncontainer = \"rdf-data\"\nprefix = \"\"\npatterns = [\"*.xml\"]\n"@
    } else if source_type == "gcs"@ {
        "bucket = \"my-gcs-bucket\"\nprefix = \"\"\npatterns = [\"*.xml\"]\n"@
    } else {
        "path = \"./data\"\npatterns = [\"*.xml\", \"*.rdf\"]\nrecursive = true\n"@
    }
}

/// The query section: the query file, or the starting query inline.
pub open spec fn query_section(query_type: Seq<char>, query_path: Seq<char>) -> Seq<char> {
    if query_type == "inline"@ {
        "query = \"\"\""@ + DEFAULT_QUERY@ + "\"\"\"\n"@
    } else {
        "file = \""@ + query_path + "\"\n"@
    }
}

/// The formats as a TOML list of strings.
pub open spec fn format_list(formats: Seq<Seq<char>>) -> Seq<char> {
    "["@ + joined(formats.map_values(|f: Seq<char>| "\""@ + f + "\""@), ", "@) + "]"@
}

/// The configuration the wizard writes.
pub open spec fn config_text(
    name: Seq<char>,
    source_type: Seq<char>,
    query_type: Seq<char>,
    formats: Seq<Seq<char>>,
    query_path: Seq<char>,
) -> Seq<char> {
    "[pipeline]\nname = \""@ + name + "\"\n\n[[sources]]\ntype = \""@ + source_type + "\"\n"@
        + source_section(source_type) + "\n[query]\n"@ + query_section(query_type, query_path)
        + "base_iri = \"http://example.org/\"\n\n[output]\ndir = \"./output\"\nformats = "@
        + format_list(formats) + "\nmetadata = true\n"@
}

/// Writes the pipeline configuration for the wizard's answers: the name,
/// the source type (`local`, `s3`, `azure` or `gcs`), the query type
/// (`file`, with the query at `query_path`, or `inline`) and the output
/// formats.
pub fn config_toml(name: &str, source_type: &str, query_type: &str, formats: &Vec<String>, query_path: &str) -> (r: String)
    ensures
        r@ == config_text(name@, source_type@, query_type@, formats@.map_values(|f: String| f@), query_path@),
{
    let mut r = String::from_str("[pipeline]\nname = \"");
    r.append(name);
    r.append("\"\n\n[[sources]]\ntype = \"");
    r.append(source_type);
    r.append("\"\n");
    proof {
        reveal_strlit("s3");
        reveal_strlit("azure");
        reveal_strlit("gcs");
        assert("s3"@.len() == 2 && "azure"@.len() == 5 && "gcs"@.len() == 3);
    }
    if text_equals(source_type, "s3") {
        r.append("bucket = \"my-bucket\"\nprefix = \"\"\nregion = \"eu-west-1\"\npatterns = [\"*.xml\"]\n");
    } else if text_equals(source_type, "azure") {
        r.append("account = \"mystorageaccount\"\ncontainer = \"rdf-data\"\nprefix = \"\"\npatterns = [\"*.xml\"]\n");
    } else if text_equals(source_type, "gcs") {
        r.append("bucket = \"my-gcs-bucket\"\nprefix = \"\"\npatterns = [\"*.xml\"]\n");
    } else {
        r.append("path = \"./data\"\npatterns = [\"*.xml\", \"*.rdf\"]\nrecursive = true\n");
    }
    r.append("\n[query]\n");
    if text_equals(query_type, "inline") {
        r.append("query = \"\"\"");
        r.append(DEFAULT_QUERY);
        r.append("\"\"\"\n");
    } else {
        r.append("file = \"");
        r.append(query_path);
        r.append("\"\n");
    }
    r.append("base_iri = \"http://example.org/\"\n\n[output]\ndir = \"./output\"\nformats = ");
    let ghost before = r@;
    let ghost items = formats@.map_values(|f: String| f@).map_values(|f: Seq<char>| "\""@ + f + "\""@);
    r.append("[");
    let mut i: usize = 0;
    while i < formats.len()
        invariant
            i <= formats@.len(),
            items == formats@.map_values(|f: String| f@).map_values(|f: Seq<char>| "\""@ + f + "\""@),
            r@ == before + "["@ + joined(items.take(i as int), ", "@),
        decreases formats.len() - i,
    {
        assert(items.take(i as int + 1).drop_last() =~= items.take(i as int));
        if i > 0 {
            r.append(", ");
        }
        r.append("\"");
        r.append(formats[i].as_str());
        r.append("\"");
        proof {
            if i == 0 {
                assert(items.take(1)[0] == items[0]);
                assert(joined(items.take(0), ", "@) =~= Seq::<char>::empty());
            }
        }
        assert(r@ =~= before + "["@ + joined(items.take(i as int + 1), ", "@));
        i = i + 1;
    }
    assert(items.take(formats@.len() as int) =~= items);
    r.append("]");
    r.append("\nmetadata = true\n");
    assert(r@ =~= config_text(name@, source_type@, query_type@, formats@.map_values(|f: String| f@), query_path@));
    r
}

/// The query file the wizard writes: the default query.
pub fn sparql_query() -> (r: &'static str)
    ensures
        r@ == DEFAULT_QUERY@,
{
    DEFAULT_QUERY
}

} // verus!
