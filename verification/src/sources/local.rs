//! Local filesystem source: which files it takes and what it makes of
//! them. Looking at the filesystem is left to the caller, which reports
//! what it found.

use vstd::prelude::*;

use super::{fetched_views, FetchedFile, FileView};
use crate::config::pipeline::{LocalSourceConfig, LocalSourceView};
use crate::config::value::opt_text;
use crate::error::{PipelineError, Result};
use crate::glob::{any_matches, glob_match, glob_valid, matches_any, pattern_texts};
use crate::paths::{file_name_of, path_file_name};
use crate::text::{decimal, decimal_text};

verus! {

/// The name a local source goes by: its path, else the number of files it
/// lists, else `local:empty`.
pub open spec fn local_source_name(config: LocalSourceView) -> Seq<char> {
    if config.path.len() > 0 {
        "local:"@ + config.path
    } else if config.files.len() > 0 {
        "local:["@ + decimal(config.files.len()) + " files]"@
    } else {
        "local:empty"@
    }
}

/// A file name the source's patterns select; every name where there are
/// none.
pub open spec fn local_accepts(config: LocalSourceView, name: Seq<char>) -> bool {
    config.patterns.len() == 0 || any_matches(config.patterns, name)
}

/// The name of the file at `path`: its last component, else `fallback`.
pub open spec fn name_or(path: Seq<char>, fallback: Seq<char>) -> Seq<char> {
    match path_file_name(path) {
        Some(n) => n,
        None => fallback,
    }
}

/// What the caller found at a path.
pub enum FileProbe {
    /// Nothing is there.
    Missing,
    /// Something other than a file is there.
    NotAFile,
    /// A file, with these bytes.
    Read(Vec<u8>),
    /// A file that could not be read, with the reason.
    Unreadable(String),
}

/// What the caller found at the source's path.
pub enum PathProbe {
    /// Nothing is there.
    Missing,
    /// A file; its bytes, or why it could not be read.
    File(core::result::Result<Vec<u8>, String>),
    /// A directory; the files gathered from it, or the error that stopped
    /// the walk.
    Directory(Result<Vec<FetchedFile>>),
}

/// The kind of a directory entry.
#[derive(Debug, Clone, Copy, PartialEq, Eq, Structural)]
pub enum EntryKind {
    File,
    Directory,
    Other,
}

/// What to do with a directory entry.
#[derive(Debug, Clone, Copy, PartialEq, Eq, Structural)]
pub enum EntryAction {
    /// Read it as a file of the source.
    Read,
    /// Walk into it.
    Descend,
    /// Leave it.
    Skip,
}

/// What a directory walk does with an entry: a file the patterns select
/// is read; a directory is walked into where the source is recursive.
pub open spec fn entry_action_for(config: LocalSourceView, kind: EntryKind, name: Seq<char>) -> EntryAction {
    match kind {
        EntryKind::File => if local_accepts(config, name) {
            EntryAction::Read
        } else {
            EntryAction::Skip
        },
        EntryKind::Directory => if config.recursive {
            EntryAction::Descend
        } else {
            EntryAction::Skip
        },
        EntryKind::Other => EntryAction::Skip,
    }
}

/// What a walk does, by the configuration alone: a file is read exactly
/// when there are no patterns or some pattern compiles and matches its
/// name; a directory is walked into exactly when the source is recursive;
/// anything else is left.
pub proof fn law_walk_follows_the_configuration(config: LocalSourceView, name: Seq<char>)
    ensures
        entry_action_for(config, EntryKind::File, name) == EntryAction::Read <==> (config.patterns.len() == 0
            || exists|j: int|
            0 <= j < config.patterns.len() && glob_valid(config.patterns[j]) && #[trigger] glob_match(
                config.patterns[j],
                name,
            )),
        entry_action_for(config, EntryKind::File, name) != EntryAction::Descend,
        entry_action_for(config, EntryKind::Directory, name) == EntryAction::Descend <==> config.recursive,
        entry_action_for(config, EntryKind::Directory, name) != EntryAction::Read,
        entry_action_for(config, EntryKind::Other, name) == EntryAction::Skip,
{
}

/// Source for reading files from local filesystem.
pub struct LocalSource {
    config: LocalSourceConfig,
    name: String,
}

impl LocalSource {
    /// The configuration of the source.
    pub closed spec fn config_view(&self) -> LocalSourceView {
        self.config@
    }

    /// The name of the source.
    pub closed spec fn name_view(&self) -> Seq<char> {
        self.name@
    }

    #[verifier::type_invariant]
    spec fn named(&self) -> bool {
        self.name@ == local_source_name(self.config@)
    }

    pub fn new(config: LocalSourceConfig) -> (r: LocalSource)
        ensures
            r.config_view() == config@,
            r.name_view() == local_source_name(config@),
    {
        let name = if !config.path.as_str().is_empty() {
            let mut n = String::from_str("local:");
            n.append(config.path.as_str());
            n
        } else if config.files.len() > 0 {
            let mut n = String::from_str("local:[");
            let count = decimal_text(config.files.len() as u128);
            n.append(count.as_str());
            n.append(" files]");
            n
        } else {
            String::from_str("local:empty")
        };
        proof {
            reveal_strlit("");
        }
        LocalSource { config, name }
    }

    /// The configuration of the source.
    pub fn config(&self) -> (r: &LocalSourceConfig)
        ensures
            r@ == self.config_view(),
    {
        &self.config
    }

    /// The name of the source, for logging and errors.
    pub fn name(&self) -> (r: &str)
        ensures
            r@ == self.name_view(),
    {
        self.name.as_str()
    }

    /// Whether the source's patterns select a file name.
    pub fn matches_patterns(&self, filename: &str) -> (r: bool)
        ensures
            r == local_accepts(self.config_view(), filename@),
    {
        if self.config.patterns.len() == 0 {
            return true;
        }
        proof {
            assert(pattern_texts(self.config.patterns@) =~= self.config@.patterns);
        }
        matches_any(&self.config.patterns, filename)
    }

    /// What a directory walk does with an entry of this kind and name.
    pub fn entry_action(&self, kind: EntryKind, filename: &str) -> (r: EntryAction)
        ensures
            r == entry_action_for(self.config_view(), kind, filename@),
    {
        match kind {
            EntryKind::File => if self.matches_patterns(filename) {
                EntryAction::Read
            } else {
                EntryAction::Skip
            },
            EntryKind::Directory => if self.config.recursive {
                EntryAction::Descend
            } else {
                EntryAction::Skip
            },
            EntryKind::Other => EntryAction::Skip,
        }
    }

    /// An error of this source.
    pub fn error(&self, message: String) -> (r: PipelineError)
        ensures
            r matches PipelineError::Source { source_name, message: m } && source_name@ == self.name_view()
                && m@ == message@,
    {
        PipelineError::Source { source_name: self.name.clone(), message }
    }

    /// A file of this source read during a directory walk: named by the
    /// last component of its path.
    pub fn walked_file(&self, path: String, content: Vec<u8>) -> (r: FetchedFile)
        ensures
            r@ == (FileView {
                path: path@,
                filename: name_or(path@, Seq::empty()),
                content: content@,
                source: self.name_view(),
            }),
    {
        let filename = match file_name_of(path.as_str()) {
            Some(n) => n,
            None => String::new(),
        };
        FetchedFile { path, filename, content, source: self.name.clone() }
    }

    /// What an explicitly listed file gives: nothing where it is missing or
    /// not a file, the file where it was read, and an error where it could
    /// not be read.
    pub fn explicit_file(&self, file_path: &str, probe: FileProbe) -> (r: Result<Option<FetchedFile>>)
        ensures
            match probe {
                FileProbe::Missing => r matches Ok(None),
                FileProbe::NotAFile => r matches Ok(None),
                FileProbe::Read(bytes) => r matches Ok(Some(f)) && f@ == (FileView {
                    path: file_path@,
                    filename: name_or(file_path@, file_path@),
                    content: bytes@,
                    source: self.name_view(),
                }),
                FileProbe::Unreadable(e) => r matches Err(PipelineError::Source { source_name, message })
                    && source_name@ == self.name_view()
                    && message@ == "Failed to read file '"@ + file_path@ + "': "@ + e@,
            },
    {
        match probe {
            FileProbe::Missing => Ok(None),
            FileProbe::NotAFile => Ok(None),
            FileProbe::Read(bytes) => {
                let filename = match file_name_of(file_path) {
                    Some(n) => n,
                    None => String::from_str(file_path),
                };
                Ok(Some(FetchedFile {
                    path: String::from_str(file_path),
                    filename,
                    content: bytes,
                    source: self.name.clone(),
                }))
            },
            FileProbe::Unreadable(e) => {
                let mut m = String::from_str("Failed to read file '");
                m.append(file_path);
                m.append("': ");
                m.append(e.as_str());
                Err(PipelineError::Source { source_name: self.name.clone(), message: m })
            },
        }
    }

    /// The files the source fetches, given what the caller found for each
    /// listed file (in order) and at the path (where one is configured):
    /// the listed files that exist, then those at the path. The first
    /// error stops the fetch.
    pub fn assemble(&self, explicit: Vec<FileProbe>, at_path: Option<PathProbe>) -> (r: Result<Vec<FetchedFile>>)
        requires
            explicit@.len() == self.config_view().files.len(),
            at_path is Some == (self.config_view().path.len() > 0),
        ensures
            r matches Err(e) ==> e is Source || at_path == Some(PathProbe::Directory(Err(e))),
            r matches Ok(v) ==> {
                let listed = explicit_views(self.name_view(), self.config_view().files, explicit@);
                &&& listed is Some
                &&& fetched_views(v@) == listed->0 + match at_path {
                    Some(PathProbe::File(Ok(bytes))) => seq![FileView {
                        path: self.config_view().path,
                        filename: name_or(self.config_view().path, Seq::empty()),
                        content: bytes@,
                        source: self.name_view(),
                    }],
                    Some(PathProbe::Directory(Ok(files))) => fetched_views(files@),
                    _ => Seq::empty(),
                }
            },
            explicit_views(self.name_view(), self.config_view().files, explicit@) is Some ==> match at_path {
                Some(PathProbe::Missing) => r matches Err(PipelineError::Source { message, .. })
                    && message@ == "Path does not exist: "@ + self.config_view().path,
                Some(PathProbe::File(Err(e))) => r matches Err(PipelineError::Source { message, .. })
                    && message@ == "Failed to read file: "@ + e@,
                Some(PathProbe::Directory(Err(e))) => r matches Err(d) && d == e,
                _ => r is Ok,
            },
    {
        let ghost names = self.config_view().files;
        let ghost probes = explicit@;
        let mut files: Vec<FetchedFile> = Vec::new();
        let mut i: usize = 0;
        let n = explicit.len();
        for probe in it: explicit.into_iter()
            invariant
                n == probes.len(),
                i == it.index(),
                i <= probes.len(),
                self.config.files@.len() == names.len(),
                it.seq() == probes,
                probes.len() == names.len(),
                names == self.config_view().files,
                explicit_views(self.name_view(), names.take(it.index() as int), probes.take(it.index() as int))
                    == Some(fetched_views(files@)),
        {
            let ghost k = it.index() as int;
            proof {
                use_type_invariant(self);
                assert(names.take(k + 1).drop_last() =~= names.take(k));
                assert(probes.take(k + 1).drop_last() =~= probes.take(k));
                assert(self.config.files@[k]@ == names[k]);
            }
            let path = self.config.files[i].as_str();
            match self.explicit_file(path, probe) {
                Ok(Some(f)) => {
                    let ghost before = fetched_views(files@);
                    files.push(f);
                    assert(fetched_views(files@) =~= before.push(f@));
                },
                Ok(None) => {},
                Err(e) => {
                    proof {
                        lemma_explicit_failure_stays(self.name_view(), names, probes, k + 1);
                    }
                    return Err(e);
                },
            }
            i = i + 1;
        }
        proof {
            assert(names.take(names.len() as int) =~= names);
            assert(probes.take(probes.len() as int) =~= probes);
        }
        match at_path {
            None => {
                assert(fetched_views(files@) + Seq::<FileView>::empty() =~= fetched_views(files@));
                Ok(files)
            },
            Some(PathProbe::Missing) => {
                let mut m = String::from_str("Path does not exist: ");
                m.append(self.config.path.as_str());
                Err(PipelineError::Source { source_name: self.name.clone(), message: m })
            },
            Some(PathProbe::File(Ok(bytes))) => {
                let f = self.walked_file(self.config.path.clone(), bytes);
                let ghost before = fetched_views(files@);
                files.push(f);
                assert(fetched_views(files@) =~= before + seq![f@]);
                Ok(files)
            },
            Some(PathProbe::File(Err(e))) => {
                let mut m = String::from_str("Failed to read file: ");
                m.append(e.as_str());
                Err(PipelineError::Source { source_name: self.name.clone(), message: m })
            },
            Some(PathProbe::Directory(Ok(mut found))) => {
                let ghost before = fetched_views(files@);
                let ghost added = fetched_views(found@);
                files.append(&mut found);
                assert(fetched_views(files@) =~= before + added);
                Ok(files)
            },
            Some(PathProbe::Directory(Err(e))) => Err(e),
        }
    }
}

/// What the listed files give, in order: `None` where one could not be
/// read.
pub open spec fn explicit_views(source: Seq<char>, paths: Seq<Seq<char>>, probes: Seq<FileProbe>) -> Option<
    Seq<FileView>,
>
    decreases probes.len(),
{
    if probes.len() == 0 || paths.len() == 0 {
        Some(Seq::empty())
    } else {
        match explicit_views(source, paths.drop_last(), probes.drop_last()) {
            None => None,
            Some(prev) => match probes.last() {
                FileProbe::Missing => Some(prev),
                FileProbe::NotAFile => Some(prev),
                FileProbe::Read(bytes) => Some(prev.push(FileView {
                    path: paths.last(),
                    filename: name_or(paths.last(), paths.last()),
                    content: bytes@,
                    source,
                })),
                FileProbe::Unreadable(_) => None,
            },
        }
    }
}

proof fn lemma_explicit_failure_stays(source: Seq<char>, paths: Seq<Seq<char>>, probes: Seq<FileProbe>, k: int)
    requires
        0 < k <= probes.len(),
        probes.len() == paths.len(),
        explicit_views(source, paths.take(k), probes.take(k)) is None,
    ensures
        explicit_views(source, paths, probes) is None,
    decreases probes.len() - k,
{
    if k < probes.len() {
        assert(paths.take(k + 1).drop_last() =~= paths.take(k));
        assert(probes.take(k + 1).drop_last() =~= probes.take(k));
        lemma_explicit_failure_stays(source, paths, probes, k + 1);
    } else {
        assert(paths.take(k) =~= paths);
        assert(probes.take(k) =~= probes);
    }
}

} // verus!
