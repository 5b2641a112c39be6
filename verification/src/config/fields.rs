//! What decoding a configuration does with each field: every decoded
//! setting is the value its key holds in the document, or the documented
//! default where the key is absent.

use vstd::prelude::*;

use super::pipeline::{
    local_from, metadata_from, output_from, processor_from, query_from, source_from, OutputFormat,
    ProcessorView, SourceView,
};
use super::value::{
    as_text, count_or, entries_of, flag_or, lookup, optional_text, required_text, text_list_or,
    text_or, texts_of, ConfigValue,
};

verus! {

// ---------------------------------------------------------------------
// What a key holds
// ---------------------------------------------------------------------

/// A value read as text is `s`: a text, or a YAML number or boolean
/// written as `s`.
pub open spec fn holds_text(v: ConfigValue, s: Seq<char>) -> bool {
    match v {
        ConfigValue::Text(x) => x@ == s,
        ConfigValue::Number(_, _, Some(x)) => x@ == s,
        ConfigValue::Bool(_, Some(x)) => x@ == s,
        _ => false,
    }
}

/// A value is a list whose items read as the texts of `l`, one for one.
pub open spec fn holds_texts(v: ConfigValue, l: Seq<Seq<char>>) -> bool {
    match v {
        ConfigValue::List(items) => items@.len() == l.len() && forall|i: int|
            0 <= i < l.len() ==> holds_text(#[trigger] items@[i], l[i]),
        _ => false,
    }
}

/// A text setting read from the key `name`: the key's text, or `default`
/// where the key is absent (`None`: the key is required).
pub open spec fn text_setting(t: Seq<(ConfigValue, ConfigValue)>, name: Seq<char>, default: Option<Seq<char>>, s: Seq<
    char,
>) -> bool {
    match lookup(t, name) {
        None => default == Some(s),
        Some(v) => holds_text(v, s),
    }
}

/// A list-of-texts setting read from the key `name`: the key's list, or
/// `default` where the key is absent.
pub open spec fn texts_setting(
    t: Seq<(ConfigValue, ConfigValue)>,
    name: Seq<char>,
    default: Seq<Seq<char>>,
    l: Seq<Seq<char>>,
) -> bool {
    match lookup(t, name) {
        None => l == default,
        Some(v) => holds_texts(v, l),
    }
}

/// A boolean setting read from the key `name`: the key's boolean, or
/// `default` where the key is absent.
pub open spec fn flag_setting(t: Seq<(ConfigValue, ConfigValue)>, name: Seq<char>, default: bool, b: bool) -> bool {
    match lookup(t, name) {
        None => b == default,
        Some(v) => v matches ConfigValue::Bool(x, _) && x == b,
    }
}

/// A count setting read from the key `name`: the key's integer, or
/// `default` where the key is absent.
pub open spec fn count_setting(t: Seq<(ConfigValue, ConfigValue)>, name: Seq<char>, default: usize, n: usize) -> bool {
    match lookup(t, name) {
        None => n == default,
        Some(ConfigValue::Integer(i)) => i == n,
        Some(ConfigValue::Number(Some(i), _, _)) => i == n,
        Some(ConfigValue::Number(None, Some(u), _)) => u == n,
        Some(_) => false,
    }
}

/// An optional text setting read from the key `name`: nothing where the key
/// is absent or null, the key's text otherwise.
pub open spec fn optional_text_setting(t: Seq<(ConfigValue, ConfigValue)>, name: Seq<char>, o: Option<Seq<char>>) -> bool {
    match lookup(t, name) {
        None => o is None,
        Some(ConfigValue::Null) => o is None,
        Some(v) => o matches Some(s) && holds_text(v, s),
    }
}

// ---------------------------------------------------------------------
// The field readers read what the key holds
// ---------------------------------------------------------------------

proof fn lemma_as_text(v: ConfigValue, s: Seq<char>)
    requires
        as_text(v) == Some(s),
    ensures
        holds_text(v, s),
{
}

proof fn lemma_texts_of(items: Seq<ConfigValue>, l: Seq<Seq<char>>)
    requires
        texts_of(items) == Some(l),
    ensures
        items.len() == l.len(),
        forall|i: int| 0 <= i < l.len() ==> holds_text(#[trigger] items[i], l[i]),
    decreases items.len(),
{
    if items.len() > 0 {
        let front = texts_of(items.drop_last())->0;
        lemma_texts_of(items.drop_last(), front);
        lemma_as_text(items.last(), as_text(items.last())->0);
        assert forall|i: int| 0 <= i < l.len() implies holds_text(#[trigger] items[i], l[i]) by {
            if i < l.len() - 1 {
                assert(items[i] == items.drop_last()[i]);
            }
        }
    }
}

proof fn lemma_text_or(t: Seq<(ConfigValue, ConfigValue)>, name: Seq<char>, d: Seq<char>, s: Seq<char>)
    requires
        text_or(t, name, d) == Some(s),
    ensures
        text_setting(t, name, Some(d), s),
{
}

proof fn lemma_required_text(t: Seq<(ConfigValue, ConfigValue)>, name: Seq<char>, s: Seq<char>)
    requires
        required_text(t, name) == Some(s),
    ensures
        text_setting(t, name, None, s),
{
}

proof fn lemma_text_list_or(t: Seq<(ConfigValue, ConfigValue)>, name: Seq<char>, d: Seq<Seq<char>>, l: Seq<Seq<char>>)
    requires
        text_list_or(t, name, d) == Some(l),
    ensures
        texts_setting(t, name, d, l),
{
    if let Some(ConfigValue::List(items)) = lookup(t, name) {
        lemma_texts_of(items@, l);
    }
}

proof fn lemma_flag_or(t: Seq<(ConfigValue, ConfigValue)>, name: Seq<char>, d: bool, b: bool)
    requires
        flag_or(t, name, d) == Some(b),
    ensures
        flag_setting(t, name, d, b),
{
}

proof fn lemma_count_or(t: Seq<(ConfigValue, ConfigValue)>, name: Seq<char>, d: usize, n: usize)
    requires
        count_or(t, name, d) == Some(n),
    ensures
        count_setting(t, name, d, n),
{
}

proof fn lemma_optional_text(t: Seq<(ConfigValue, ConfigValue)>, name: Seq<char>, o: Option<Seq<char>>)
    requires
        optional_text(t, name) == Some(o),
    ensures
        optional_text_setting(t, name, o),
{
}

// ---------------------------------------------------------------------
// Laws: each decoded setting is what its key holds
// ---------------------------------------------------------------------

/// A local source reads each setting from its key: `path` (default empty),
/// `files` (default none), `patterns` (default `*.xml`, `*.rdf`) and
/// `recursive` (default `true`: the default applies only where the key is
/// absent, so `recursive = false` gives a source that does not descend).
pub proof fn law_local_source_settings(v: ConfigValue)
    ensures
        source_from(v) matches Some(SourceView::Local(src)) ==> {
            let t = entries_of(v);
            &&& text_setting(t, "type"@, None, "local"@)
            &&& text_setting(t, "path"@, Some(Seq::empty()), src.path)
            &&& texts_setting(t, "files"@, Seq::empty(), src.files)
            &&& texts_setting(t, "patterns"@, seq!["*.xml"@, "*.rdf"@], src.patterns)
            &&& flag_setting(t, "recursive"@, true, src.recursive)
        },
{
    if let ConfigValue::Table(tv) = v {
        let t = tv@;
        if let Some(tag) = required_text(t, "type"@) {
            lemma_required_text(t, "type"@, tag);
            if tag == "local"@ {
                if let Some(src) = local_from(t) {
                    lemma_text_or(t, "path"@, Seq::empty(), src.path);
                    lemma_text_list_or(t, "files"@, Seq::empty(), src.files);
                    lemma_text_list_or(t, "patterns"@, seq!["*.xml"@, "*.rdf"@], src.patterns);
                    lemma_flag_or(t, "recursive"@, true, src.recursive);
                }
            }
        }
    }
}

/// An S3, Azure or GCS source reads each setting from its key: the bucket
/// (or account and container), region, prefix (default empty), endpoint,
/// service-account key and signature skipping (default `false`), and the
/// file and pattern lists (defaults: none; `*.xml`, `*.rdf`).
pub proof fn law_object_source_settings(v: ConfigValue)
    ensures
        source_from(v) matches Some(SourceView::S3(src)) ==> {
            let t = entries_of(v);
            &&& text_setting(t, "type"@, None, "s3"@)
            &&& text_setting(t, "bucket"@, None, src.bucket)
            &&& text_setting(t, "prefix"@, Some(Seq::empty()), src.prefix)
            &&& text_setting(t, "region"@, None, src.region)
            &&& optional_text_setting(t, "endpoint"@, src.endpoint)
            &&& texts_setting(t, "files"@, Seq::empty(), src.files)
            &&& texts_setting(t, "patterns"@, seq!["*.xml"@, "*.rdf"@], src.patterns)
        },
        source_from(v) matches Some(SourceView::Azure(src)) ==> {
            let t = entries_of(v);
            &&& text_setting(t, "type"@, None, "azure"@)
            &&& text_setting(t, "account"@, None, src.account)
            &&& text_setting(t, "container"@, None, src.container)
            &&& text_setting(t, "prefix"@, Some(Seq::empty()), src.prefix)
            &&& optional_text_setting(t, "endpoint"@, src.endpoint)
            &&& flag_setting(t, "skip_signature"@, false, src.skip_signature)
            &&& texts_setting(t, "files"@, Seq::empty(), src.files)
            &&& texts_setting(t, "patterns"@, seq!["*.xml"@, "*.rdf"@], src.patterns)
        },
        source_from(v) matches Some(SourceView::Gcs(src)) ==> {
            let t = entries_of(v);
            &&& text_setting(t, "type"@, None, "gcs"@)
            &&& text_setting(t, "bucket"@, None, src.bucket)
            &&& text_setting(t, "prefix"@, Some(Seq::empty()), src.prefix)
            &&& optional_text_setting(t, "endpoint"@, src.endpoint)
            &&& optional_text_setting(t, "service_account_key"@, src.service_account_key)
            &&& texts_setting(t, "files"@, Seq::empty(), src.files)
            &&& texts_setting(t, "patterns"@, seq!["*.xml"@, "*.rdf"@], src.patterns)
        },
{
    if let ConfigValue::Table(tv) = v {
        let t = tv@;
        if let Some(tag) = required_text(t, "type"@) {
            lemma_required_text(t, "type"@, tag);
            match source_from(v) {
                Some(SourceView::S3(src)) => {
                    lemma_required_text(t, "bucket"@, src.bucket);
                    lemma_text_or(t, "prefix"@, Seq::empty(), src.prefix);
                    lemma_required_text(t, "region"@, src.region);
                    lemma_optional_text(t, "endpoint"@, src.endpoint);
                    lemma_text_list_or(t, "files"@, Seq::empty(), src.files);
                    lemma_text_list_or(t, "patterns"@, seq!["*.xml"@, "*.rdf"@], src.patterns);
                },
                Some(SourceView::Azure(src)) => {
                    lemma_required_text(t, "account"@, src.account);
                    lemma_required_text(t, "container"@, src.container);
                    lemma_text_or(t, "prefix"@, Seq::empty(), src.prefix);
                    lemma_optional_text(t, "endpoint"@, src.endpoint);
                    lemma_flag_or(t, "skip_signature"@, false, src.skip_signature);
                    lemma_text_list_or(t, "files"@, Seq::empty(), src.files);
                    lemma_text_list_or(t, "patterns"@, seq!["*.xml"@, "*.rdf"@], src.patterns);
                },
                Some(SourceView::Gcs(src)) => {
                    lemma_required_text(t, "bucket"@, src.bucket);
                    lemma_text_or(t, "prefix"@, Seq::empty(), src.prefix);
                    lemma_optional_text(t, "endpoint"@, src.endpoint);
                    lemma_optional_text(t, "service_account_key"@, src.service_account_key);
                    lemma_text_list_or(t, "files"@, Seq::empty(), src.files);
                    lemma_text_list_or(t, "patterns"@, seq!["*.xml"@, "*.rdf"@], src.patterns);
                },
                _ => {},
            }
        }
    }
}

/// A processor reads each setting from its key: an unzip processor its
/// extract, archive and GZIP patterns (defaults `*.xml`, `*.rdf`; `*.zip`;
/// `*.gz`, `*.gzip`), a filter its `include` and `exclude` lists (default
/// none).
pub proof fn law_processor_settings(v: ConfigValue)
    ensures
        processor_from(v) matches Some(ProcessorView::Unzip(p)) ==> {
            let t = entries_of(v);
            &&& text_setting(t, "type"@, None, "unzip"@)
            &&& texts_setting(t, "patterns"@, seq!["*.xml"@, "*.rdf"@], p.patterns)
            &&& texts_setting(t, "archive_patterns"@, seq!["*.zip"@], p.archive_patterns)
            &&& texts_setting(t, "gzip_patterns"@, seq!["*.gz"@, "*.gzip"@], p.gzip_patterns)
        },
        processor_from(v) matches Some(ProcessorView::Filter(p)) ==> {
            let t = entries_of(v);
            &&& text_setting(t, "type"@, None, "filter"@)
            &&& texts_setting(t, "include"@, Seq::empty(), p.included)
            &&& texts_setting(t, "exclude"@, Seq::empty(), p.exclude)
        },
{
    if let ConfigValue::Table(tv) = v {
        let t = tv@;
        if let Some(tag) = required_text(t, "type"@) {
            lemma_required_text(t, "type"@, tag);
            match processor_from(v) {
                Some(ProcessorView::Unzip(p)) => {
                    lemma_text_list_or(t, "patterns"@, seq!["*.xml"@, "*.rdf"@], p.patterns);
                    lemma_text_list_or(t, "archive_patterns"@, seq!["*.zip"@], p.archive_patterns);
                    lemma_text_list_or(t, "gzip_patterns"@, seq!["*.gz"@, "*.gzip"@], p.gzip_patterns);
                },
                Some(ProcessorView::Filter(p)) => {
                    lemma_text_list_or(t, "include"@, Seq::empty(), p.included);
                    lemma_text_list_or(t, "exclude"@, Seq::empty(), p.exclude);
                },
                _ => {},
            }
        }
    }
}

/// The `[pipeline]`, `[query]` and `[output]` tables read each setting from
/// its key: the name, `parallel` (default `true`), `max_concurrent`
/// (default 10); the query file and inline query, `base_iri` (default
/// `http://example.org/`); the output directory, `metadata` (default
/// `true`) and prefix.
pub proof fn law_table_settings(p: ConfigValue, q: ConfigValue, o: ConfigValue)
    ensures
        metadata_from(p) matches Some(m) ==> {
            let t = entries_of(p);
            &&& text_setting(t, "name"@, None, m.name)
            &&& flag_setting(t, "parallel"@, true, m.parallel)
            &&& count_setting(t, "max_concurrent"@, 10, m.max_concurrent)
        },
        query_from(q) matches Some(c) ==> {
            let t = entries_of(q);
            &&& optional_text_setting(t, "file"@, c.file)
            &&& optional_text_setting(t, "query"@, c.query)
            &&& text_setting(t, "base_iri"@, Some("http://example.org/"@), c.base_iri)
        },
        output_from(o) matches Some(c) ==> {
            let t = entries_of(o);
            &&& text_setting(t, "dir"@, None, c.dir)
            &&& flag_setting(t, "metadata"@, true, c.metadata)
            &&& optional_text_setting(t, "prefix"@, c.prefix)
            &&& (lookup(t, "formats"@) is None ==> c.formats == seq![OutputFormat::Csv])
        },
{
    if let Some(m) = metadata_from(p) {
        let t = entries_of(p);
        lemma_required_text(t, "name"@, m.name);
        lemma_flag_or(t, "parallel"@, true, m.parallel);
        lemma_count_or(t, "max_concurrent"@, 10, m.max_concurrent);
    }
    if let Some(c) = query_from(q) {
        let t = entries_of(q);
        lemma_optional_text(t, "file"@, c.file);
        lemma_optional_text(t, "query"@, c.query);
        lemma_text_or(t, "base_iri"@, "http://example.org/"@, c.base_iri);
    }
    if let Some(c) = output_from(o) {
        let t = entries_of(o);
        lemma_required_text(t, "dir"@, c.dir);
        lemma_flag_or(t, "metadata"@, true, c.metadata);
        lemma_optional_text(t, "prefix"@, c.prefix);
    }
}

} // verus!
