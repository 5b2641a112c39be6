//! The checks and names of the configuration wizard.

use vstd::prelude::*;

verus! {

/// What `char::is_alphanumeric` says of a character.
pub uninterp spec fn char_alphanumeric(c: char) -> bool;

/// Calls `char::is_alphanumeric`.
/// Claims: the answer is `char_alphanumeric` of the character.
#[verifier::external_body]
fn is_alphanumeric(c: char) -> (r: bool)
    ensures
        r == char_alphanumeric(c),
{
    c.is_alphanumeric()
}

/// A character a configuration name may hold: a letter or digit, a hyphen
/// or an underscore.
pub open spec fn name_char(c: char) -> bool {
    char_alphanumeric(c) || c == '-' || c == '_'
}

/// Checks a configuration name: it may not be empty, and it may hold only
/// letters, digits, hyphens and underscores.
pub fn validate_config_name(input: &str) -> (r: Result<(), String>)
    ensures
        input@.len() == 0 ==> (r matches Err(m) && m@ == "Name cannot be empty"@),
        input@.len() > 0 && (exists|i: int| 0 <= i < input@.len() && !name_char(#[trigger] input@[i])) ==> (r matches Err(
            m,
        ) && m@ == "Only alphanumeric characters, hyphens, and underscores are allowed"@),
        r is Ok <==> (input@.len() > 0 && forall|i: int| 0 <= i < input@.len() ==> name_char(#[trigger] input@[i])),
{
    if input.is_empty() {
        return Err(String::from_str("Name cannot be empty"));
    }
    for c in it: input.chars()
        invariant
            it.seq() == input@,
            input@.len() > 0,
            forall|i: int| 0 <= i < it.index() ==> name_char(#[trigger] input@[i]),
    {
        let ghost k = it.index() as int;
        if !(is_alphanumeric(c) || c == '-' || c == '_') {
            assert(!name_char(input@[k]));
            return Err(String::from_str("Only alphanumeric characters, hyphens, and underscores are allowed"));
        }
    }
    Ok(())
}

/// The output formats the wizard offers, in the order it lists them.
pub open spec fn format_option(i: int) -> Seq<char> {
    if i == 0 {
        "csv"@
    } else if i == 1 {
        "json"@
    } else {
        "terminal"@
    }
}

/// The formats picked in the wizard, by their positions in its list: at
/// least one must be picked.
pub fn selected_formats(indices: &Vec<usize>) -> (r: Result<Vec<String>, String>)
    requires
        forall|k: int| 0 <= k < indices@.len() ==> #[trigger] indices@[k] < 3,
    ensures
        indices@.len() == 0 ==> (r matches Err(m) && m@ == "At least one output format must be selected"@),
        indices@.len() > 0 ==> (r matches Ok(v) && v@.len() == indices@.len() && forall|k: int|
            0 <= k < v@.len() ==> (#[trigger] v@[k])@ == format_option(indices@[k] as int)),
{
    if indices.len() == 0 {
        return Err(String::from_str("At least one output format must be selected"));
    }
    let mut out: Vec<String> = Vec::new();
    let mut i: usize = 0;
    while i < indices.len()
        invariant
            i <= indices@.len(),
            forall|k: int| 0 <= k < indices@.len() ==> #[trigger] indices@[k] < 3,
            out@.len() == i,
            forall|k: int| 0 <= k < i ==> (#[trigger] out@[k])@ == format_option(indices@[k] as int),
        decreases indices.len() - i,
    {
        let f = if indices[i] == 0 {
            String::from_str("csv")
        } else if indices[i] == 1 {
            String::from_str("json")
        } else {
            String::from_str("terminal")
        };
        out.push(f);
        i = i + 1;
    }
    Ok(out)
}

/// The names of the files the wizard writes for a configuration: the
/// configuration `<name>.toml` and the query `<name>.sparql`.
pub fn wizard_file_names(name: &str) -> (r: (String, String))
    ensures
        r.0@ == name@ + ".toml"@,
        r.1@ == name@ + ".sparql"@,
{
    let mut config = String::from_str(name);
    config.append(".toml");
    let mut query = String::from_str(name);
    query.append(".sparql");
    (config, query)
}

/// The hint on credentials the wizard gives for a source type (none for a
/// local source).
pub fn auth_hint(source_type: &str) -> (r: Option<&'static str>)
    ensures
        source_type@ == "s3"@ ==> (r matches Some(h) && h@ == "S3 auth: export AWS_ACCESS_KEY_ID=... AWS_SECRET_ACCESS_KEY=..."@),
        source_type@ == "azure"@ ==> (r matches Some(h) && h@ == "Azure auth: export AZURE_STORAGE_ACCOUNT_KEY=..."@),
        source_type@ == "gcs"@ ==> (r matches Some(h) && h@ == "GCS auth: export GOOGLE_APPLICATION_CREDENTIALS=/path/to/key.json"@),
        (source_type@ != "s3"@ && source_type@ != "azure"@ && source_type@ != "gcs"@) ==> r is None,
{
    proof {
        reveal_strlit("s3");
        reveal_strlit("azure");
        reveal_strlit("gcs");
        assert("s3"@.len() == 2 && "azure"@.len() == 5 && "gcs"@.len() == 3);
        assert("s3"@ != "azure"@ && "s3"@ != "gcs"@ && "azure"@ != "gcs"@);
    }
    if crate::text::text_equals(source_type, "s3") {
        Some("S3 auth: export AWS_ACCESS_KEY_ID=... AWS_SECRET_ACCESS_KEY=...")
    } else if crate::text::text_equals(source_type, "azure") {
        Some("Azure auth: export AZURE_STORAGE_ACCOUNT_KEY=...")
    } else if crate::text::text_equals(source_type, "gcs") {
        Some("GCS auth: export GOOGLE_APPLICATION_CREDENTIALS=/path/to/key.json")
    } else {
        None
    }
}

/// What the wizard does with a file it is about to write.
#[derive(Debug, Clone, Copy, PartialEq, Eq, Structural)]
pub enum WriteStep {
    /// Write the file.
    Write,
    /// Leave the existing file as it is.
    Skip,
    /// Ask whether to overwrite the existing file (`yes`, `no`).
    AskOverwrite,
}

/// Decides what to do with a file the wizard would write, given whether it
/// exists and, once the user was asked, the position picked in the `yes` /
/// `no` list: a new file is written; an existing one is asked about first,
/// then kept where `no` was picked and overwritten otherwise.
pub fn write_step(exists: bool, picked: Option<usize>) -> (r: WriteStep)
    ensures
        r == (if !exists {
            WriteStep::Write
        } else {
            match picked {
                None => WriteStep::AskOverwrite,
                Some(i) => if i == 1 {
                    WriteStep::Skip
                } else {
                    WriteStep::Write
                },
            }
        }),
{
    if !exists {
        return WriteStep::Write;
    }
    match picked {
        None => WriteStep::AskOverwrite,
        Some(i) => if i == 1 {
            WriteStep::Skip
        } else {
            WriteStep::Write
        },
    }
}

} // verus!
