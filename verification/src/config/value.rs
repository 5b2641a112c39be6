//! A plain document tree for configuration files, the three parsers that
//! produce it (TOML, YAML, JSON), and the field readers that the typed
//! configuration decoders are built from.

use vstd::prelude::*;

use serde_json::Value as JsonValue;
use serde_yaml::Value as YamlValue;
use toml::Value as TomlValue;

use crate::text::{text_equals, concat3};

verus! {

/// A parsed configuration document.
///
/// Floating-point numbers are kept only as the fact that a float stood
/// there: no configuration field holds a float, so a float is always a
/// type error. A YAML or JSON number is kept as what it reports of itself:
/// its value as a signed and as an unsigned 64-bit integer, where it has
/// one (both are `None` for a float). A YAML number or boolean also keeps
/// its text (as `serde_yaml` writes the value), because YAML reads a plain
/// scalar into a text field as text; TOML and JSON keep none. `Other`
/// stands for values that no field accepts either (TOML date-times, YAML
/// tagged values).
#[derive(Debug)]
pub enum ConfigValue {
    Null,
    Bool(bool, Option<String>),
    Integer(i128),
    Float,
    Number(Option<i64>, Option<u64>, Option<String>),
    Text(String),
    List(Vec<ConfigValue>),
    Table(Vec<(ConfigValue, ConfigValue)>),
    Other,
}

/// `toml::Value`, declared so that the converter below can name it.
#[verifier::external_type_specification]
#[verifier::external_body]
pub struct ExTomlValue(toml::Value);

/// `serde_yaml::Value`, declared so that the converter below can name it.
#[verifier::external_type_specification]
#[verifier::external_body]
pub struct ExYamlValue(serde_yaml::Value);

/// `serde_json::Value`, declared so that the converter below can name it.
#[verifier::external_type_specification]
#[verifier::external_body]
pub struct ExJsonValue(serde_json::Value);

/// The document that the `toml` crate parses from a text, as a tree
/// (`None` where the text is not valid TOML).
pub uninterp spec fn toml_document(text: Seq<char>) -> Option<ConfigValue>;

/// The document that the `serde_yaml` crate parses from a text, as a tree
/// (`None` where the text is not valid YAML).
pub uninterp spec fn yaml_document(text: Seq<char>) -> Option<ConfigValue>;

/// The document that the `serde_json` crate parses from a text, as a tree
/// (`None` where the text is not valid JSON).
pub uninterp spec fn json_document(text: Seq<char>) -> Option<ConfigValue>;

/// Rebuilds a `toml::Value` as a `ConfigValue`, variant for variant.
#[verifier::external_body]
fn toml_tree(v: TomlValue) -> ConfigValue {
    match v {
        TomlValue::String(s) => ConfigValue::Text(s),
        TomlValue::Integer(i) => ConfigValue::Integer(i as i128),
        TomlValue::Float(_) => ConfigValue::Float,
        TomlValue::Boolean(b) => ConfigValue::Bool(b, None),
        TomlValue::Datetime(_) => ConfigValue::Other,
        TomlValue::Array(a) => ConfigValue::List(a.into_iter().map(toml_tree).collect()),
        TomlValue::Table(t) => ConfigValue::Table(t.into_iter().map(|(k, v)| (ConfigValue::Text(k), toml_tree(v))).collect()),
    }
}

/// Calls `toml::from_str` for a whole document (a `toml::Table`).
/// Claims: the result is `Ok` exactly when the text is valid TOML, and then
/// it is the document `toml_document` names. The error text is the parser's
/// and is not described.
#[verifier::external_body]
pub(crate) fn parse_toml(text: &str) -> (r: core::result::Result<ConfigValue, String>)
    ensures
        r matches Ok(v) ==> toml_document(text@) == Some(v),
        r is Err ==> toml_document(text@) is None,
{
    match toml::from_str::<toml::Table>(text) {
        Ok(t) => Ok(toml_tree(TomlValue::Table(t))),
        Err(e) => Err(e.to_string()),
    }
}

/// Rebuilds a `serde_yaml::Value` as a `ConfigValue`, variant for variant.
#[verifier::external_body]
fn yaml_tree(v: YamlValue) -> ConfigValue {
    match v {
        YamlValue::Null => ConfigValue::Null,
        YamlValue::Bool(b) => ConfigValue::Bool(b, Some(b.to_string())),
        YamlValue::Number(n) => ConfigValue::Number(n.as_i64(), n.as_u64(), Some(n.to_string())),
        YamlValue::String(s) => ConfigValue::Text(s),
        YamlValue::Sequence(a) => ConfigValue::List(a.into_iter().map(yaml_tree).collect()),
        YamlValue::Mapping(m) => ConfigValue::Table(m.into_iter().map(|(k, v)| (yaml_tree(k), yaml_tree(v))).collect()),
        YamlValue::Tagged(_) => ConfigValue::Other,
    }
}

/// Calls `serde_yaml::from_str` for a `serde_yaml::Value`.
/// Claims: the result is `Ok` exactly when the text is valid YAML, and then
/// it is the document `yaml_document` names. The error text is the parser's
/// and is not described.
#[verifier::external_body]
pub(crate) fn parse_yaml(text: &str) -> (r: core::result::Result<ConfigValue, String>)
    ensures
        r matches Ok(v) ==> yaml_document(text@) == Some(v),
        r is Err ==> yaml_document(text@) is None,
{
    match serde_yaml::from_str::<YamlValue>(text) {
        Ok(v) => Ok(yaml_tree(v)),
        Err(e) => Err(e.to_string()),
    }
}

/// Rebuilds a `serde_json::Value` as a `ConfigValue`, variant for variant.
#[verifier::external_body]
fn json_tree(v: JsonValue) -> ConfigValue {
    match v {
        JsonValue::Null => ConfigValue::Null,
        JsonValue::Bool(b) => ConfigValue::Bool(b, None),
        JsonValue::Number(n) => ConfigValue::Number(n.as_i64(), n.as_u64(), None),
        JsonValue::String(s) => ConfigValue::Text(s),
        JsonValue::Array(a) => ConfigValue::List(a.into_iter().map(json_tree).collect()),
        JsonValue::Object(m) => ConfigValue::Table(m.into_iter().map(|(k, v)| (ConfigValue::Text(k), json_tree(v))).collect()),
    }
}

/// Calls `serde_json::from_str` for a `serde_json::Value`.
/// Claims: the result is `Ok` exactly when the text is valid JSON, and then
/// it is the document `json_document` names. The error text is the parser's
/// and is not described.
#[verifier::external_body]
pub(crate) fn parse_json(text: &str) -> (r: core::result::Result<ConfigValue, String>)
    ensures
        r matches Ok(v) ==> json_document(text@) == Some(v),
        r is Err ==> json_document(text@) is None,
{
    match serde_json::from_str::<JsonValue>(text) {
        Ok(v) => Ok(json_tree(v)),
        Err(e) => Err(e.to_string()),
    }
}

// ---------------------------------------------------------------------
// Reading fields of a table
// ---------------------------------------------------------------------

/// Whether a table key is the text `name`.
pub open spec fn key_is(key: ConfigValue, name: Seq<char>) -> bool {
    key matches ConfigValue::Text(k) && k@ == name
}

/// The value of the first entry whose key is `name`.
pub open spec fn lookup(entries: Seq<(ConfigValue, ConfigValue)>, name: Seq<char>) -> Option<ConfigValue>
    decreases entries.len(),
{
    if entries.len() == 0 {
        None
    } else if key_is(entries[0].0, name) {
        Some(entries[0].1)
    } else {
        lookup(entries.drop_first(), name)
    }
}

/// The entries of a table (empty for any other value).
pub open spec fn entries_of(v: ConfigValue) -> Seq<(ConfigValue, ConfigValue)> {
    match v {
        ConfigValue::Table(t) => t@,
        _ => Seq::empty(),
    }
}

/// A text value: a text, or a YAML number or boolean by its text.
pub open spec fn as_text(v: ConfigValue) -> Option<Seq<char>> {
    match v {
        ConfigValue::Text(s) => Some(s@),
        ConfigValue::Number(_, _, Some(s)) => Some(s@),
        ConfigValue::Bool(_, Some(s)) => Some(s@),
        _ => None,
    }
}

/// A list whose items are all texts.
pub open spec fn texts_of(items: Seq<ConfigValue>) -> Option<Seq<Seq<char>>>
    decreases items.len(),
{
    if items.len() == 0 {
        Some(Seq::empty())
    } else {
        match (texts_of(items.drop_last()), as_text(items.last())) {
            (Some(front), Some(t)) => Some(front.push(t)),
            _ => None,
        }
    }
}

/// A value that is a list of texts.
pub open spec fn as_text_list(v: ConfigValue) -> Option<Seq<Seq<char>>> {
    match v {
        ConfigValue::List(items) => texts_of(items@),
        _ => None,
    }
}

/// A required text field.
pub open spec fn required_text(t: Seq<(ConfigValue, ConfigValue)>, name: Seq<char>) -> Option<Seq<char>> {
    match lookup(t, name) {
        Some(v) => as_text(v),
        None => None,
    }
}

/// A text field with a default for when it is absent.
pub open spec fn text_or(t: Seq<(ConfigValue, ConfigValue)>, name: Seq<char>, default: Seq<char>) -> Option<Seq<char>> {
    match lookup(t, name) {
        Some(v) => as_text(v),
        None => Some(default),
    }
}

/// An optional text field: absent or null reads as `None`.
pub open spec fn optional_text(t: Seq<(ConfigValue, ConfigValue)>, name: Seq<char>) -> Option<Option<Seq<char>>> {
    match lookup(t, name) {
        None => Some(None),
        Some(ConfigValue::Null) => Some(None),
        Some(v) => match as_text(v) {
            Some(s) => Some(Some(s)),
            None => None,
        },
    }
}

/// A boolean field with a default for when it is absent.
pub open spec fn flag_or(t: Seq<(ConfigValue, ConfigValue)>, name: Seq<char>, default: bool) -> Option<bool> {
    match lookup(t, name) {
        None => Some(default),
        Some(ConfigValue::Bool(b, _)) => Some(b),
        Some(_) => None,
    }
}

/// The integer a value holds: a TOML integer, or a number that is an
/// integer as a signed (else as an unsigned) 64-bit number.
pub open spec fn integer_of(v: ConfigValue) -> Option<int> {
    match v {
        ConfigValue::Integer(i) => Some(i as int),
        ConfigValue::Number(Some(i), _, _) => Some(i as int),
        ConfigValue::Number(None, Some(u), _) => Some(u as int),
        _ => None,
    }
}

/// A `usize` field with a default for when it is absent.
pub open spec fn count_or(t: Seq<(ConfigValue, ConfigValue)>, name: Seq<char>, default: usize) -> Option<usize> {
    match lookup(t, name) {
        None => Some(default),
        Some(v) => match integer_of(v) {
            Some(i) => if 0 <= i <= usize::MAX {
                Some(i as usize)
            } else {
                None
            },
            None => None,
        },
    }
}

/// The integer a value holds (see `integer_of`).
fn integer_value(v: &ConfigValue) -> (r: Option<i128>)
    ensures
        match r {
            Some(i) => integer_of(*v) == Some(i as int),
            None => integer_of(*v) is None,
        },
{
    match v {
        ConfigValue::Integer(i) => Some(*i),
        ConfigValue::Number(Some(i), _, _) => Some(*i as i128),
        ConfigValue::Number(None, Some(u), _) => Some(*u as i128),
        _ => None,
    }
}

/// A list-of-texts field with a default for when it is absent.
pub open spec fn text_list_or(
    t: Seq<(ConfigValue, ConfigValue)>,
    name: Seq<char>,
    default: Seq<Seq<char>>,
) -> Option<Seq<Seq<char>>> {
    match lookup(t, name) {
        None => Some(default),
        Some(v) => as_text_list(v),
    }
}

/// The views of a list of strings.
pub open spec fn texts(v: Seq<String>) -> Seq<Seq<char>> {
    v.map_values(|s: String| s@)
}

/// The view of an optional string.
pub open spec fn opt_text(o: Option<String>) -> Option<Seq<char>> {
    match o {
        Some(s) => Some(s@),
        None => None,
    }
}

/// Finds the value of field `name` in a table's entries.
pub fn find_field<'a>(entries: &'a Vec<(ConfigValue, ConfigValue)>, name: &str) -> (r: Option<&'a ConfigValue>)
    ensures
        r matches Some(v) ==> lookup(entries@, name@) == Some(*v),
        r is None ==> lookup(entries@, name@) is None,
{
    let n = entries.len();
    let mut i: usize = 0;
    assert(entries@.subrange(0, n as int) =~= entries@);
    while i < n
        invariant
            n == entries@.len(),
            i <= n,
            lookup(entries@, name@) == lookup(entries@.subrange(i as int, n as int), name@),
        decreases n - i,
    {
        let ghost rest = entries@.subrange(i as int, n as int);
        assert(rest.drop_first() =~= entries@.subrange(i + 1, n as int));
        let hit = match &entries[i].0 {
            ConfigValue::Text(k) => text_equals(k.as_str(), name),
            _ => false,
        };
        if hit {
            return Some(&entries[i].1);
        }
        i = i + 1;
    }
    assert(entries@.subrange(n as int, n as int).len() == 0);
    None
}

/// The message for a field that is missing.
pub fn missing(name: &str) -> (r: String)
    ensures
        r@ == "missing field `"@ + name@ + "`"@,
{
    concat3("missing field `", name, "`")
}

/// The message for a field whose value has the wrong shape.
pub fn invalid(name: &str) -> (r: String)
    ensures
        r@ == "invalid value for field `"@ + name@ + "`"@,
{
    concat3("invalid value for field `", name, "`")
}

/// The text a value reads as (see `as_text`).
fn text_value(v: &ConfigValue) -> (r: Option<String>)
    ensures
        match r {
            Some(s) => as_text(*v) == Some(s@),
            None => as_text(*v) is None,
        },
{
    match v {
        ConfigValue::Text(s) => Some(s.clone()),
        ConfigValue::Number(_, _, Some(s)) => Some(s.clone()),
        ConfigValue::Bool(_, Some(s)) => Some(s.clone()),
        _ => None,
    }
}

/// Reads a text value.
pub fn read_text(v: &ConfigValue, name: &str) -> (r: core::result::Result<String, String>)
    ensures
        r matches Ok(s) ==> as_text(*v) == Some(s@),
        r is Err ==> as_text(*v) is None,
{
    match text_value(v) {
        Some(s) => Ok(s),
        None => Err(invalid(name)),
    }
}

/// Reads a list of texts.
pub fn read_text_list(v: &ConfigValue, name: &str) -> (r: core::result::Result<Vec<String>, String>)
    ensures
        r matches Ok(l) ==> as_text_list(*v) == Some(texts(l@)),
        r is Err ==> as_text_list(*v) is None,
{
    match v {
        ConfigValue::List(items) => {
            let mut out: Vec<String> = Vec::new();
            let n = items.len();
            let mut i: usize = 0;
            while i < n
                invariant
                    n == items@.len(),
                    i <= n,
                    as_text_list(*v) == texts_of(items@),
                    texts_of(items@.take(i as int)) == Some(texts(out@)),
                decreases n - i,
            {
                assert(items@.take(i + 1).drop_last() =~= items@.take(i as int));
                match text_value(&items[i]) {
                    Some(s) => {
                        let ghost sv = s@;
                        out.push(s);
                        assert(texts(out@) =~= texts(out@.drop_last()).push(sv));
                    },
                    None => {
                        proof {
                            assert(texts_of(items@.take(i + 1)) is None);
                            lemma_texts_of_prefix_none(items@, i as int + 1);
                        }
                        return Err(invalid(name));
                    },
                }
                i = i + 1;
            }
            assert(items@.take(n as int) =~= items@);
            Ok(out)
        },
        _ => Err(invalid(name)),
    }
}

/// Once a prefix of a list holds a non-text, so does every longer prefix.
proof fn lemma_texts_of_prefix_none(items: Seq<ConfigValue>, k: int)
    requires
        0 <= k <= items.len(),
        texts_of(items.take(k)) is None,
    ensures
        texts_of(items) is None,
    decreases items.len() - k,
{
    if k < items.len() {
        assert(items.take(k + 1).drop_last() =~= items.take(k));
        lemma_texts_of_prefix_none(items, k + 1);
    } else {
        assert(items.take(k) =~= items);
    }
}

/// Reads a required text field.
pub fn field_text(t: &Vec<(ConfigValue, ConfigValue)>, name: &str) -> (r: core::result::Result<String, String>)
    ensures
        r matches Ok(s) ==> required_text(t@, name@) == Some(s@),
        r is Err ==> required_text(t@, name@) is None,
{
    match find_field(t, name) {
        Some(v) => read_text(v, name),
        None => Err(missing(name)),
    }
}

/// Reads a text field, or gives `default` when it is absent.
pub fn field_text_or(t: &Vec<(ConfigValue, ConfigValue)>, name: &str, default: &str) -> (r: core::result::Result<String, String>)
    ensures
        r matches Ok(s) ==> text_or(t@, name@, default@) == Some(s@),
        r is Err ==> text_or(t@, name@, default@) is None,
{
    match find_field(t, name) {
        Some(v) => read_text(v, name),
        None => Ok(String::from_str(default)),
    }
}

/// Reads an optional text field.
pub fn field_optional_text(t: &Vec<(ConfigValue, ConfigValue)>, name: &str) -> (r: core::result::Result<Option<String>, String>)
    ensures
        r matches Ok(o) ==> optional_text(t@, name@) == Some(opt_text(o)),
        r is Err ==> optional_text(t@, name@) is None,
{
    match find_field(t, name) {
        None => Ok(None),
        Some(ConfigValue::Null) => Ok(None),
        Some(v) => match text_value(v) {
            Some(s) => Ok(Some(s)),
            None => Err(invalid(name)),
        },
    }
}

/// Reads a boolean field, or gives `default` when it is absent.
pub fn field_flag_or(t: &Vec<(ConfigValue, ConfigValue)>, name: &str, default: bool) -> (r: core::result::Result<bool, String>)
    ensures
        r matches Ok(b) ==> flag_or(t@, name@, default) == Some(b),
        r is Err ==> flag_or(t@, name@, default) is None,
{
    match find_field(t, name) {
        None => Ok(default),
        Some(ConfigValue::Bool(b, _)) => Ok(*b),
        Some(_) => Err(invalid(name)),
    }
}

/// Reads a `usize` field, or gives `default` when it is absent.
pub fn field_count_or(t: &Vec<(ConfigValue, ConfigValue)>, name: &str, default: usize) -> (r: core::result::Result<usize, String>)
    ensures
        r matches Ok(c) ==> count_or(t@, name@, default) == Some(c),
        r is Err ==> count_or(t@, name@, default) is None,
{
    match find_field(t, name) {
        None => Ok(default),
        Some(v) => match integer_value(v) {
            Some(i) => {
                if 0 <= i && i <= usize::MAX as i128 {
                    Ok(i as usize)
                } else {
                    Err(invalid(name))
                }
            },
            None => Err(invalid(name)),
        },
    }
}

/// Reads a list-of-texts field, or gives `default` when it is absent.
pub fn field_text_list_or(
    t: &Vec<(ConfigValue, ConfigValue)>,
    name: &str,
    default: Vec<String>,
) -> (r: core::result::Result<Vec<String>, String>)
    ensures
        r matches Ok(l) ==> text_list_or(t@, name@, texts(default@)) == Some(texts(l@)),
        r is Err ==> text_list_or(t@, name@, texts(default@)) is None,
{
    match find_field(t, name) {
        None => Ok(default),
        Some(v) => read_text_list(v, name),
    }
}

} // verus!
