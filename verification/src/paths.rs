//! Where cimishi keeps its configuration, queries and data, and the path
//! operations of `std` that the library uses.
//!
//! Which operating system the program runs on is told by the caller; the
//! home, configuration and data directories are asked of `dirs`.

use vstd::prelude::*;

use crate::config::value::opt_text;

verus! {

/// The extension `std::path::Path::extension` finds in a path.
pub uninterp spec fn path_extension(path: Seq<char>) -> Option<Seq<char>>;

/// The stem `std::path::Path::file_stem` finds in a path.
pub uninterp spec fn path_stem(path: Seq<char>) -> Option<Seq<char>>;

/// The last component `std::path::Path::file_name` finds in a path.
pub uninterp spec fn path_file_name(path: Seq<char>) -> Option<Seq<char>>;

/// What `std::path::Path::join` gives for a base and a plain component,
/// as text (the separator is the build target's).
pub uninterp spec fn path_joined(base: Seq<char>, part: Seq<char>) -> Seq<char>;

/// What `str::to_lowercase` gives for a text.
pub uninterp spec fn lowercase(text: Seq<char>) -> Seq<char>;

/// Calls `std::path::Path::extension` on a path given as text.
/// Claims: the result is the extension `path_extension` names.
#[verifier::external_body]
pub(crate) fn extension_of(path: &str) -> (r: Option<String>)
    ensures
        opt_text(r) == path_extension(path@),
{
    std::path::Path::new(path).extension().map(|e| e.to_string_lossy().into_owned())
}

/// Calls `std::path::Path::file_stem` on a path given as text.
/// Claims: the result is the stem `path_stem` names.
#[verifier::external_body]
pub(crate) fn stem_of(path: &str) -> (r: Option<String>)
    ensures
        opt_text(r) == path_stem(path@),
{
    std::path::Path::new(path).file_stem().map(|e| e.to_string_lossy().into_owned())
}

/// Calls `std::path::Path::file_name` on a path given as text.
/// Claims: the result is the component `path_file_name` names.
#[verifier::external_body]
pub(crate) fn file_name_of(path: &str) -> (r: Option<String>)
    ensures
        opt_text(r) == path_file_name(path@),
{
    std::path::Path::new(path).file_name().map(|e| e.to_string_lossy().into_owned())
}

/// Calls `str::to_lowercase`.
/// Claims: the result is the text `lowercase` names.
#[verifier::external_body]
pub(crate) fn to_lowercase(text: &str) -> (r: String)
    ensures
        r@ == lowercase(text@),
{
    text.to_lowercase()
}

/// A single path component: not empty, not `.` or `..`, and no separator
/// or drive colon.
pub open spec fn is_plain_name(part: Seq<char>) -> bool {
    &&& part.len() > 0
    &&& !(part.len() == 1 && part[0] == '.')
    &&& !(part.len() == 2 && part[0] == '.' && part[1] == '.')
    &&& forall|i: int| 0 <= i < part.len() ==> part[i] != '/' && part[i] != '\\' && part[i] != ':'
}

/// `base` with the component `part` pushed onto it, with or without a
/// separator of the platform in between.
pub open spec fn is_join_of(r: Seq<char>, base: Seq<char>, part: Seq<char>) -> bool {
    ||| r == base + part
    ||| r == base + seq!['/'] + part
    ||| r == base + seq!['\\'] + part
}

/// Calls `std::path::Path::join` with a single plain component.
/// Claims: the result is the path `path_joined` names, and it is the
/// component appended to the base, after a separator where one is needed.
/// Which separator (`/` or `\`) and whether one is needed depend on the
/// platform and are not stated.
#[verifier::external_body]
pub(crate) fn join_path(base: &str, part: &str) -> (r: String)
    requires
        is_plain_name(part@),
    ensures
        r@ == path_joined(base@, part@),
        is_join_of(r@, base@, part@),
{
    std::path::Path::new(base).join(part).to_string_lossy().into_owned()
}

/// The base of the configuration directory, as a path: the platform's
/// configuration directory where it is known and the system is not macOS,
/// else `<home>/.config` (`./.config` without a home).
pub open spec fn config_base_path(on_macos: bool, home: Option<Seq<char>>, platform_config: Option<Seq<char>>) -> Seq<
    char,
> {
    if !on_macos && platform_config is Some {
        platform_config->0
    } else {
        match home {
            Some(h) => path_joined(h, ".config"@),
            None => path_joined("."@, ".config"@),
        }
    }
}

/// The configuration directory, as a path: its base joined with `cimishi`.
pub open spec fn config_dir_path(on_macos: bool, home: Option<Seq<char>>, platform_config: Option<Seq<char>>) -> Seq<
    char,
> {
    path_joined(config_base_path(on_macos, home, platform_config), "cimishi"@)
}

/// The configuration directory: `<home>/.config/cimishi` on macOS,
/// `<platform config dir>/cimishi` elsewhere; where the chosen base is
/// unknown, `<home>/.config/cimishi`, and `./.config/cimishi` without a home.
pub fn config_dir_for(on_macos: bool, home: Option<String>, platform_config: Option<String>) -> (r: String)
    ensures
        r@ == config_dir_path(on_macos, opt_text(home), opt_text(platform_config)),
        exists|base: Seq<char>| is_join_of(r@, base, "cimishi"@) && is_config_base(
            base,
            on_macos,
            opt_text(home),
            opt_text(platform_config),
        ),
{
    proof {
        reveal_strlit("cimishi");
        reveal_strlit(".config");
        reveal_strlit(".");
    }
    let base = if on_macos {
        match home {
            Some(h) => join_path(h.as_str(), ".config"),
            None => join_path(".", ".config"),
        }
    } else {
        match platform_config {
            Some(c) => c,
            None => match home {
                Some(h) => join_path(h.as_str(), ".config"),
                None => join_path(".", ".config"),
            },
        }
    };
    join_path(base.as_str(), "cimishi")
}

/// The base of the configuration directory, as `config_dir_for` picks it.
pub open spec fn is_config_base(
    base: Seq<char>,
    on_macos: bool,
    home: Option<Seq<char>>,
    platform_config: Option<Seq<char>>,
) -> bool {
    if !on_macos && platform_config is Some {
        base == platform_config->0
    } else {
        match home {
            Some(h) => is_join_of(base, h, ".config"@),
            None => is_join_of(base, "."@, ".config"@),
        }
    }
}


/// `base/a/b`, each step joined as `join_path` joins.
pub open spec fn is_join2_of(r: Seq<char>, base: Seq<char>, a: Seq<char>, b: Seq<char>) -> bool {
    exists|mid: Seq<char>| is_join_of(mid, base, a) && #[trigger] is_join_of(r, mid, b)
}

/// The base of the data directory, as `data_dir_for` picks it.
pub open spec fn is_data_base(
    base: Seq<char>,
    on_macos: bool,
    home: Option<Seq<char>>,
    platform_data: Option<Seq<char>>,
) -> bool {
    if !on_macos && platform_data is Some {
        base == platform_data->0
    } else {
        match home {
            Some(h) => is_join2_of(base, h, ".local"@, "share"@),
            None => is_join2_of(base, "."@, ".local"@, "share"@),
        }
    }
}

/// The base of the data directory, as a path: the platform's data
/// directory where it is known and the system is not macOS, else
/// `<home>/.local/share` (`./.local/share` without a home).
pub open spec fn data_base_path(on_macos: bool, home: Option<Seq<char>>, platform_data: Option<Seq<char>>) -> Seq<
    char,
> {
    if !on_macos && platform_data is Some {
        platform_data->0
    } else {
        match home {
            Some(h) => path_joined(path_joined(h, ".local"@), "share"@),
            None => path_joined(path_joined("."@, ".local"@), "share"@),
        }
    }
}

/// The data directory, as a path: its base joined with `cimishi`, then
/// with `data`.
pub open spec fn data_dir_path(on_macos: bool, home: Option<Seq<char>>, platform_data: Option<Seq<char>>) -> Seq<
    char,
> {
    path_joined(path_joined(data_base_path(on_macos, home, platform_data), "cimishi"@), "data"@)
}

/// The data directory: `<home>/.local/share/cimishi/data` on macOS,
/// `<platform data dir>/cimishi/data` elsewhere; where the chosen base is
/// unknown, `<home>/.local/share/cimishi/data`, and
/// `./.local/share/cimishi/data` without a home.
pub fn data_dir_for(on_macos: bool, home: Option<String>, platform_data: Option<String>) -> (r: String)
    ensures
        r@ == data_dir_path(on_macos, opt_text(home), opt_text(platform_data)),
        exists|base: Seq<char>| is_join2_of(r@, base, "cimishi"@, "data"@) && is_data_base(
            base,
            on_macos,
            opt_text(home),
            opt_text(platform_data),
        ),
{
    proof {
        reveal_strlit("cimishi");
        reveal_strlit("data");
        reveal_strlit(".local");
        reveal_strlit("share");
        reveal_strlit(".");
    }
    let base = if on_macos {
        match home {
            Some(h) => local_share(h.as_str()),
            None => local_share("."),
        }
    } else {
        match platform_data {
            Some(d) => d,
            None => match home {
                Some(h) => local_share(h.as_str()),
                None => local_share("."),
            },
        }
    };
    assert(is_data_base(base@, on_macos, opt_text(home), opt_text(platform_data)));
    let app = join_path(base.as_str(), "cimishi");
    let r = join_path(app.as_str(), "data");
    assert(is_join_of(app@, base@, "cimishi"@) && is_join_of(r@, app@, "data"@));
    assert(is_join2_of(r@, base@, "cimishi"@, "data"@));
    r
}

fn local_share(home: &str) -> (r: String)
    ensures
        r@ == path_joined(path_joined(home@, ".local"@), "share"@),
        is_join2_of(r@, home@, ".local"@, "share"@),
{
    proof {
        reveal_strlit(".local");
        reveal_strlit("share");
    }
    let mid = join_path(home, ".local");
    let r = join_path(mid.as_str(), "share");
    assert(is_join_of(mid@, home@, ".local"@) && is_join_of(r@, mid@, "share"@));
    r
}

/// The directory of saved pipeline configurations: `<config dir>/configs`.
pub fn configs_dir_in(config_dir: &str) -> (r: String)
    ensures
        r@ == path_joined(config_dir@, "configs"@),
        is_join_of(r@, config_dir@, "configs"@),
{
    proof {
        reveal_strlit("configs");
    }
    join_path(config_dir, "configs")
}

/// The directory of saved queries: `<config dir>/queries`.
pub fn queries_dir_in(config_dir: &str) -> (r: String)
    ensures
        r@ == path_joined(config_dir@, "queries"@),
        is_join_of(r@, config_dir@, "queries"@),
{
    proof {
        reveal_strlit("queries");
    }
    join_path(config_dir, "queries")
}

/// Calls `dirs::home_dir`. What it finds depends on the environment and
/// is not described.
#[verifier::external_body]
fn home_dir() -> (r: Option<String>) {
    dirs::home_dir().map(|p| p.to_string_lossy().into_owned())
}

/// Calls `dirs::config_dir`. What it finds depends on the environment and
/// is not described.
#[verifier::external_body]
fn platform_config_dir() -> (r: Option<String>) {
    dirs::config_dir().map(|p| p.to_string_lossy().into_owned())
}

/// Calls `dirs::data_dir`. What it finds depends on the environment and
/// is not described.
#[verifier::external_body]
fn platform_data_dir() -> (r: Option<String>) {
    dirs::data_dir().map(|p| p.to_string_lossy().into_owned())
}

/// The configuration directory of this user (see `config_dir_for`); the
/// caller tells whether the program runs on macOS.
pub fn config_dir(on_macos: bool) -> (r: String)
    ensures
        exists|home: Option<Seq<char>>, platform: Option<Seq<char>>|
            r@ == #[trigger] config_dir_path(on_macos, home, platform),
        exists|home: Option<Seq<char>>, platform: Option<Seq<char>>, base: Seq<char>|
            is_join_of(r@, base, "cimishi"@) && #[trigger] is_config_base(base, on_macos, home, platform),
{
    let home = home_dir();
    let platform = platform_config_dir();
    let ghost h = opt_text(home);
    let ghost p = opt_text(platform);
    let r = config_dir_for(on_macos, home, platform);
    let ghost base = choose|base: Seq<char>| is_join_of(r@, base, "cimishi"@) && is_config_base(base, on_macos, h, p);
    assert(is_config_base(base, on_macos, h, p));
    r
}

/// `<config dir>/configs`, the saved pipeline configurations.
pub fn configs_dir(on_macos: bool) -> (r: String)
    ensures
        exists|home: Option<Seq<char>>, platform: Option<Seq<char>>|
            r@ == path_joined(#[trigger] config_dir_path(on_macos, home, platform), "configs"@)
                && is_join_of(r@, config_dir_path(on_macos, home, platform), "configs"@),
        exists|home: Option<Seq<char>>, platform: Option<Seq<char>>, base: Seq<char>, dir: Seq<char>|
            #![trigger is_config_base(base, on_macos, home, platform), is_join_of(r@, dir, "configs"@)]
            is_config_base(base, on_macos, home, platform) && is_join_of(dir, base, "cimishi"@)
                && is_join_of(r@, dir, "configs"@),
{
    let dir = config_dir(on_macos);
    let r = configs_dir_in(dir.as_str());
    let ghost (h, p, base) = choose|home: Option<Seq<char>>, platform: Option<Seq<char>>, base: Seq<char>|
        is_join_of(dir@, base, "cimishi"@) && #[trigger] is_config_base(base, on_macos, home, platform);
    assert(is_config_base(base, on_macos, h, p) && is_join_of(dir@, base, "cimishi"@));
    assert(is_join_of(r@, dir@, "configs"@));
    r
}

/// `<config dir>/queries`, the saved queries.
pub fn queries_dir(on_macos: bool) -> (r: String)
    ensures
        exists|home: Option<Seq<char>>, platform: Option<Seq<char>>|
            r@ == path_joined(#[trigger] config_dir_path(on_macos, home, platform), "queries"@)
                && is_join_of(r@, config_dir_path(on_macos, home, platform), "queries"@),
        exists|home: Option<Seq<char>>, platform: Option<Seq<char>>, base: Seq<char>, dir: Seq<char>|
            #![trigger is_config_base(base, on_macos, home, platform), is_join_of(r@, dir, "queries"@)]
            is_config_base(base, on_macos, home, platform) && is_join_of(dir, base, "cimishi"@)
                && is_join_of(r@, dir, "queries"@),
{
    let dir = config_dir(on_macos);
    let r = queries_dir_in(dir.as_str());
    let ghost (h, p, base) = choose|home: Option<Seq<char>>, platform: Option<Seq<char>>, base: Seq<char>|
        is_join_of(dir@, base, "cimishi"@) && #[trigger] is_config_base(base, on_macos, home, platform);
    assert(is_config_base(base, on_macos, h, p) && is_join_of(dir@, base, "cimishi"@));
    assert(is_join_of(r@, dir@, "queries"@));
    r
}

/// The data directory of this user (see `data_dir_for`); the caller tells
/// whether the program runs on macOS.
pub fn data_dir(on_macos: bool) -> (r: String)
    ensures
        exists|home: Option<Seq<char>>, platform: Option<Seq<char>>|
            r@ == #[trigger] data_dir_path(on_macos, home, platform),
        exists|home: Option<Seq<char>>, platform: Option<Seq<char>>, base: Seq<char>|
            is_join2_of(r@, base, "cimishi"@, "data"@) && #[trigger] is_data_base(base, on_macos, home, platform),
{
    let home = home_dir();
    let platform = platform_data_dir();
    let ghost h = opt_text(home);
    let ghost p = opt_text(platform);
    let r = data_dir_for(on_macos, home, platform);
    let ghost base = choose|base: Seq<char>| is_join2_of(r@, base, "cimishi"@, "data"@) && is_data_base(base, on_macos, h, p);
    assert(is_data_base(base, on_macos, h, p));
    r
}

/// The project-local directory of pipeline configurations:
/// `.cimishi/config`.
pub fn local_config_dir() -> (r: String)
    ensures
        r@ == path_joined(".cimishi"@, "config"@),
        is_join_of(r@, ".cimishi"@, "config"@),
{
    proof {
        reveal_strlit("config");
    }
    join_path(".cimishi", "config")
}

/// The project-local directory of queries: `.cimishi/query`.
pub fn local_query_dir() -> (r: String)
    ensures
        r@ == path_joined(".cimishi"@, "query"@),
        is_join_of(r@, ".cimishi"@, "query"@),
{
    proof {
        reveal_strlit("query");
    }
    join_path(".cimishi", "query")
}

/// The project-local directory of data: `.cimishi/data`.
pub fn local_data_dir() -> (r: String)
    ensures
        r@ == path_joined(".cimishi"@, "data"@),
        is_join_of(r@, ".cimishi"@, "data"@),
{
    proof {
        reveal_strlit("data");
    }
    join_path(".cimishi", "data")
}

/// The directories of saved configurations and of saved queries under one
/// configuration directory are different directories.
pub proof fn law_configs_and_queries_dirs_differ(dir: Seq<char>, configs: Seq<char>, queries: Seq<char>)
    requires
        is_join_of(configs, dir, "configs"@),
        is_join_of(queries, dir, "queries"@),
    ensures
        configs != queries,
{
    reveal_strlit("configs");
    reveal_strlit("queries");
    if configs == queries {
        let n = configs.len();
        assert(configs[n - 7] == 'c');
        assert(queries[n - 7] == 'q');
    }
}

} // verus!
