//! Blueprints: lists of configurations, queries and data files to install
//! into the project's `.cimishi/` directories.

use vstd::prelude::*;

use crate::config::value::{
    as_text, field_optional_text, field_text, invalid, json_document, lookup, opt_text, optional_text,
    parse_json, parse_toml, parse_yaml, required_text, toml_document, yaml_document, ConfigValue,
};
use crate::text::{after_last, ends_with_text, has_suffix, text_after_last};

verus! {

/// A blueprint.
#[derive(Debug)]
pub struct BlueprintConfig {
    pub blueprint: BlueprintMetadata,
    pub configs: Vec<BlueprintFile>,
    pub queries: Vec<BlueprintFile>,
    pub data: Vec<BlueprintFile>,
}

/// The name and description of a blueprint.
#[derive(Debug)]
pub struct BlueprintMetadata {
    pub name: String,
    pub description: Option<String>,
}

/// A file a blueprint installs: where to download it from, and optionally
/// what to call it.
#[derive(Debug)]
pub struct BlueprintFile {
    pub url: String,
    pub filename: Option<String>,
}

/// A blueprint file as text.
pub ghost struct BlueprintFileView {
    pub url: Seq<char>,
    pub filename: Option<Seq<char>>,
}

/// A blueprint as text.
pub ghost struct BlueprintView {
    pub name: Seq<char>,
    pub description: Option<Seq<char>>,
    pub configs: Seq<BlueprintFileView>,
    pub queries: Seq<BlueprintFileView>,
    pub data: Seq<BlueprintFileView>,
}

impl View for BlueprintFile {
    type V = BlueprintFileView;

    open spec fn view(&self) -> BlueprintFileView {
        BlueprintFileView { url: self.url@, filename: opt_text(self.filename) }
    }
}

/// The views of a list of blueprint files.
pub open spec fn file_list_views(files: Seq<BlueprintFile>) -> Seq<BlueprintFileView> {
    Seq::new(files.len(), |i: int| files[i]@)
}

impl View for BlueprintConfig {
    type V = BlueprintView;

    open spec fn view(&self) -> BlueprintView {
        BlueprintView {
            name: self.blueprint.name@,
            description: opt_text(self.blueprint.description),
            configs: file_list_views(self.configs@),
            queries: file_list_views(self.queries@),
            data: file_list_views(self.data@),
        }
    }
}

/// The name a downloaded file is saved under: its configured name, else
/// the last part of its URL.
pub open spec fn resolved_name(file: BlueprintFileView) -> Seq<char> {
    match file.filename {
        Some(n) => n,
        None => after_last(file.url, '/'),
    }
}

impl BlueprintFile {
    /// The name the file is saved under.
    pub fn resolved_filename(&self) -> (r: String)
        ensures
            r@ == resolved_name(self@),
    {
        match &self.filename {
            Some(n) => n.clone(),
            None => text_after_last(self.url.as_str(), '/'),
        }
    }
}

// ---------------------------------------------------------------------
// Reading a blueprint
// ---------------------------------------------------------------------

/// A blueprint file entry of a document: a table with a `url` and an
/// optional `filename`.
pub open spec fn blueprint_file_from(v: ConfigValue) -> Option<BlueprintFileView> {
    match v {
        ConfigValue::Table(t) => match (required_text(t@, "url"@), optional_text(t@, "filename"@)) {
            (Some(url), Some(filename)) => Some(BlueprintFileView { url, filename }),
            _ => None,
        },
        _ => None,
    }
}

/// The entries of a list of blueprint files.
pub open spec fn blueprint_files_from(items: Seq<ConfigValue>) -> Option<Seq<BlueprintFileView>>
    decreases items.len(),
{
    if items.len() == 0 {
        Some(Seq::empty())
    } else {
        match (blueprint_files_from(items.drop_last()), blueprint_file_from(items.last())) {
            (Some(front), Some(x)) => Some(front.push(x)),
            _ => None,
        }
    }
}

/// A list field of blueprint files: absent is empty.
pub open spec fn file_list_field(t: Seq<(ConfigValue, ConfigValue)>, name: Seq<char>) -> Option<Seq<BlueprintFileView>> {
    match lookup(t, name) {
        None => Some(Seq::empty()),
        Some(ConfigValue::List(items)) => blueprint_files_from(items@),
        Some(_) => None,
    }
}

/// The blueprint a document describes: a `blueprint` table with a `name`
/// and an optional `description`, and the lists `configs`, `queries` and
/// `data` (each empty where absent). Other fields are ignored.
pub open spec fn blueprint_from(v: ConfigValue) -> Option<BlueprintView> {
    match v {
        ConfigValue::Table(t) => match lookup(t@, "blueprint"@) {
            Some(ConfigValue::Table(m)) => match (
                required_text(m@, "name"@),
                optional_text(m@, "description"@),
                file_list_field(t@, "configs"@),
                file_list_field(t@, "queries"@),
                file_list_field(t@, "data"@),
            ) {
                (Some(name), Some(description), Some(configs), Some(queries), Some(data)) => Some(
                    BlueprintView { name, description, configs, queries, data },
                ),
                _ => None,
            },
            _ => None,
        },
        _ => None,
    }
}

/// The syntax of a blueprint, by the end of its location: JSON for
/// `.json`, YAML for `.yaml` or `.yml`, TOML otherwise.
pub open spec fn blueprint_document(source: Seq<char>, content: Seq<char>) -> Option<ConfigValue> {
    if has_suffix(source, ".json"@) {
        json_document(content)
    } else if has_suffix(source, ".yaml"@) || has_suffix(source, ".yml"@) {
        yaml_document(content)
    } else {
        toml_document(content)
    }
}

/// Whether a blueprint location is a web address (`http://` or
/// `https://`), to be downloaded rather than read from disk.
pub open spec fn is_web_location(source: Seq<char>) -> bool {
    (source.len() >= 7 && source.subrange(0, 7) == "http://"@) || (source.len() >= 8 && source.subrange(0, 8)
        == "https://"@)
}

/// Whether a blueprint location is a web address.
pub fn is_web_source(source: &str) -> (r: bool)
    ensures
        r == is_web_location(source@),
{
    proof {
        reveal_strlit("http://");
        reveal_strlit("https://");
    }
    starts_with_text(source, "http://") || starts_with_text(source, "https://")
}

fn starts_with_text(s: &str, prefix: &str) -> (r: bool)
    ensures
        r == (prefix@.len() <= s@.len() && s@.subrange(0, prefix@.len() as int) == prefix@),
{
    let x = crate::text::chars_of(s);
    let y = crate::text::chars_of(prefix);
    if y.len() > x.len() {
        return false;
    }
    let mut i: usize = 0;
    while i < y.len()
        invariant
            x@ == s@,
            y@ == prefix@,
            y@.len() <= x@.len(),
            i <= y@.len(),
            forall|j: int| 0 <= j < i ==> x@[j] == y@[j],
        decreases y.len() - i,
    {
        if x[i] != y[i] {
            assert(s@.subrange(0, prefix@.len() as int)[i as int] != prefix@[i as int]);
            return false;
        }
        i = i + 1;
    }
    assert(s@.subrange(0, prefix@.len() as int) =~= prefix@);
    true
}

fn blueprint_file_from_value(v: &ConfigValue) -> (r: core::result::Result<BlueprintFile, String>)
    ensures
        r matches Ok(f) ==> blueprint_file_from(*v) == Some(f@),
        r is Err ==> blueprint_file_from(*v) is None,
{
    match v {
        ConfigValue::Table(t) => {
            let url = field_text(t, "url")?;
            let filename = field_optional_text(t, "filename")?;
            Ok(BlueprintFile { url, filename })
        },
        _ => Err(invalid("blueprint file")),
    }
}

proof fn lemma_files_prefix_none(items: Seq<ConfigValue>, k: int)
    requires
        0 <= k <= items.len(),
        blueprint_files_from(items.take(k)) is None,
    ensures
        blueprint_files_from(items) is None,
    decreases items.len() - k,
{
    if k < items.len() {
        assert(items.take(k + 1).drop_last() =~= items.take(k));
        lemma_files_prefix_none(items, k + 1);
    } else {
        assert(items.take(k) =~= items);
    }
}

fn file_list_from(t: &Vec<(ConfigValue, ConfigValue)>, name: &str) -> (r: core::result::Result<Vec<BlueprintFile>, String>)
    ensures
        r matches Ok(l) ==> file_list_field(t@, name@) == Some(file_list_views(l@)),
        r is Err ==> file_list_field(t@, name@) is None,
{
    let items = match crate::config::value::find_field(t, name) {
        None => {
            let empty: Vec<BlueprintFile> = Vec::new();
            assert(file_list_views(empty@) =~= Seq::empty());
            return Ok(empty);
        },
        Some(ConfigValue::List(items)) => items,
        Some(_) => return Err(invalid(name)),
    };
    let mut out: Vec<BlueprintFile> = Vec::new();
    let n = items.len();
    let mut i: usize = 0;
    assert(file_list_views(out@) =~= Seq::empty());
    while i < n
        invariant
            n == items@.len(),
            i <= n,
            file_list_field(t@, name@) == blueprint_files_from(items@),
            blueprint_files_from(items@.take(i as int)) == Some(file_list_views(out@)),
        decreases n - i,
    {
        assert(items@.take(i + 1).drop_last() =~= items@.take(i as int));
        match blueprint_file_from_value(&items[i]) {
            Ok(f) => {
                let ghost before = out@;
                let ghost fv = f@;
                out.push(f);
                assert(file_list_views(out@) =~= file_list_views(before).push(fv));
            },
            Err(e) => {
                proof {
                    lemma_files_prefix_none(items@, i + 1);
                }
                return Err(e);
            },
        }
        i = i + 1;
    }
    assert(items@.take(n as int) =~= items@);
    Ok(out)
}

/// Decodes a parsed blueprint document. The error text is not described.
pub fn blueprint_from_document(doc: &ConfigValue) -> (r: core::result::Result<BlueprintConfig, String>)
    ensures
        r matches Ok(b) ==> blueprint_from(*doc) == Some(b@),
        r is Err ==> blueprint_from(*doc) is None,
{
    match doc {
        ConfigValue::Table(t) => {
            let meta = match crate::config::value::find_field(t, "blueprint") {
                Some(ConfigValue::Table(m)) => m,
                _ => return Err(invalid("blueprint")),
            };
            let name = field_text(meta, "name")?;
            let description = field_optional_text(meta, "description")?;
            let configs = file_list_from(t, "configs")?;
            let queries = file_list_from(t, "queries")?;
            let data = file_list_from(t, "data")?;
            Ok(BlueprintConfig { blueprint: BlueprintMetadata { name, description }, configs, queries, data })
        },
        _ => Err(invalid("document")),
    }
}

/// Reads a blueprint from the text found at `source` (a path or a URL), in
/// the syntax the end of `source` names. The error text is not described.
pub fn blueprint_from_text(source: &str, content: &str) -> (r: core::result::Result<BlueprintConfig, String>)
    ensures
        r matches Ok(b) ==> blueprint_document(source@, content@) matches Some(d) && blueprint_from(d) == Some(b@),
        r is Err ==> match blueprint_document(source@, content@) {
            Some(d) => blueprint_from(d) is None,
            None => true,
        },
        blueprint_document(source@, content@) is None ==> r is Err,
{
    let doc = if ends_with_text(source, ".json") {
        parse_json(content)
    } else if ends_with_text(source, ".yaml") || ends_with_text(source, ".yml") {
        parse_yaml(content)
    } else {
        parse_toml(content)
    };
    match doc {
        Ok(d) => blueprint_from_document(&d),
        Err(e) => Err(e),
    }
}

/// Where each file of a blueprint goes: the project's configuration,
/// query or data directory.
#[derive(Debug, Clone, Copy, PartialEq, Eq, Structural)]
pub enum FileCategory {
    Configs,
    Queries,
    Data,
}

/// A download a blueprint asks for.
pub struct PlannedDownload {
    pub category: FileCategory,
    pub url: String,
    pub file_name: String,
}

/// The downloads of a blueprint, in the order they are made: its
/// configurations, then its queries, then its data files.
pub open spec fn planned(b: BlueprintView) -> Seq<(FileCategory, Seq<char>, Seq<char>)> {
    b.configs.map_values(|f: BlueprintFileView| (FileCategory::Configs, f.url, resolved_name(f)))
        + b.queries.map_values(|f: BlueprintFileView| (FileCategory::Queries, f.url, resolved_name(f)))
        + b.data.map_values(|f: BlueprintFileView| (FileCategory::Data, f.url, resolved_name(f)))
}

fn plan_category(out: &mut Vec<PlannedDownload>, files: &Vec<BlueprintFile>, category: FileCategory)
    ensures
        final(out)@.map_values(|d: PlannedDownload| (d.category, d.url@, d.file_name@)) == old(out)@.map_values(
            |d: PlannedDownload| (d.category, d.url@, d.file_name@),
        ) + file_list_views(files@).map_values(|f: BlueprintFileView| (category, f.url, resolved_name(f))),
{
    let ghost start = out@.map_values(|d: PlannedDownload| (d.category, d.url@, d.file_name@));
    let ghost want = file_list_views(files@).map_values(|f: BlueprintFileView| (category, f.url, resolved_name(f)));
    let mut i: usize = 0;
    while i < files.len()
        invariant
            i <= files@.len(),
            want == file_list_views(files@).map_values(|f: BlueprintFileView| (category, f.url, resolved_name(f))),
            out@.map_values(|d: PlannedDownload| (d.category, d.url@, d.file_name@)) == start + want.take(i as int),
        decreases files.len() - i,
    {
        let f = &files[i];
        let d = PlannedDownload { category, url: f.url.clone(), file_name: f.resolved_filename() };
        assert(want[i as int] == (d.category, d.url@, d.file_name@));
        let ghost prev = out@;
        out.push(d);
        assert(out@.map_values(|d: PlannedDownload| (d.category, d.url@, d.file_name@)) =~= prev.map_values(
            |d: PlannedDownload| (d.category, d.url@, d.file_name@),
        ).push((d.category, d.url@, d.file_name@)));
        assert(want.take(i as int + 1) =~= want.take(i as int).push(want[i as int]));
        assert(out@.map_values(|d: PlannedDownload| (d.category, d.url@, d.file_name@)) =~= start + want.take(
            i as int + 1,
        ));
        i = i + 1;
    }
    assert(want.take(files@.len() as int) =~= want);
}

/// The downloads a blueprint asks for, in order.
pub fn download_plan(config: &BlueprintConfig) -> (r: Vec<PlannedDownload>)
    ensures
        r@.map_values(|d: PlannedDownload| (d.category, d.url@, d.file_name@)) == planned(config@),
{
    let mut out: Vec<PlannedDownload> = Vec::new();
    assert(out@.map_values(|d: PlannedDownload| (d.category, d.url@, d.file_name@)) =~= Seq::empty());
    plan_category(&mut out, &config.configs, FileCategory::Configs);
    plan_category(&mut out, &config.queries, FileCategory::Queries);
    plan_category(&mut out, &config.data, FileCategory::Data);
    assert(out@.map_values(|d: PlannedDownload| (d.category, d.url@, d.file_name@)) =~= planned(config@));
    out
}

} // verus!
