//! Object store source (S3, Azure, GCS): its name, which objects it takes
//! and what it makes of them. Talking to the store is left to the caller,
//! which reports what it got.

use vstd::prelude::*;

use super::{fetched_views, FetchedFile, FileView};
use crate::config::pipeline::{copy_texts, AzureSourceConfig, GcsSourceConfig, S3SourceConfig};
use crate::error::{PipelineError, Result};
use crate::glob::{any_matches, glob_match, glob_valid, matches_any, pattern_texts};
use crate::text::{after_last, decimal, decimal_text, text_after_last, text_equals};

verus! {

/// The service a source reads from, with its configuration.
pub enum StoreBackend {
    S3(S3SourceConfig),
    Azure(AzureSourceConfig),
    Gcs(GcsSourceConfig),
}

/// The name of an object store source: `<scheme><bucket>/[<n> files]`
/// where it lists files, `<scheme><bucket>/<prefix>` otherwise.
pub open spec fn store_source_name(scheme: Seq<char>, bucket: Seq<char>, prefix: Seq<char>, n_files: nat) -> Seq<char> {
    if n_files > 0 {
        scheme + bucket + "/["@ + decimal(n_files) + " files]"@
    } else {
        scheme + bucket + "/"@ + prefix
    }
}

/// The file name of an object: the part of its key after the last `/`.
pub open spec fn object_file_name(key: Seq<char>) -> Seq<char> {
    after_last(key, '/')
}

/// An object fetched from the store.
pub open spec fn object_file(key: Seq<char>, content: Seq<u8>, source: Seq<char>) -> FileView {
    FileView { path: key, filename: object_file_name(key), content, source }
}

fn source_name(scheme: &str, bucket: &String, prefix: &String, files: &Vec<String>) -> (r: String)
    ensures
        r@ == store_source_name(scheme@, bucket@, prefix@, files@.len()),
{
    let mut n = String::from_str(scheme);
    n.append(bucket.as_str());
    if files.len() > 0 {
        n.append("/[");
        let count = decimal_text(files.len() as u128);
        n.append(count.as_str());
        n.append(" files]");
    } else {
        n.append("/");
        n.append(prefix.as_str());
    }
    n
}

/// What the caller got for a listed object key.
pub enum ObjectProbe {
    /// The store would not give it, with the reason.
    Unavailable(String),
    /// The store gave it: its bytes, or why they could not be read.
    Fetched(core::result::Result<Vec<u8>, String>),
}

/// Source for reading files from object storage.
pub struct ObjectStoreSource {
    backend: StoreBackend,
    prefix: String,
    patterns: Vec<String>,
    files: Vec<String>,
    name: String,
}

impl ObjectStoreSource {
    /// The prefix objects are listed under.
    pub closed spec fn prefix_view(&self) -> Seq<char> {
        self.prefix@
    }

    /// The patterns object file names are selected by.
    pub closed spec fn patterns_view(&self) -> Seq<Seq<char>> {
        pattern_texts(self.patterns@)
    }

    /// The object keys listed explicitly.
    pub closed spec fn files_view(&self) -> Seq<Seq<char>> {
        pattern_texts(self.files@)
    }

    /// The name of the source.
    pub closed spec fn name_view(&self) -> Seq<char> {
        self.name@
    }

    /// Creates an S3 source.
    pub fn s3(config: S3SourceConfig) -> (r: ObjectStoreSource)
        ensures
            r.name_view() == store_source_name("s3://"@, config@.bucket, config@.prefix, config@.files.len()),
            r.backend_view() == StoreBackend::S3(config),
            r.prefix_view() == config@.prefix,
            r.patterns_view() == config@.patterns,
            r.files_view() == config@.files,
    {
        let name = source_name("s3://", &config.bucket, &config.prefix, &config.files);
        let prefix = config.prefix.clone();
        let patterns = copy_texts(&config.patterns);
        let files = copy_texts(&config.files);
        proof {
            assert(pattern_texts(patterns@) =~= config@.patterns);
            assert(pattern_texts(files@) =~= config@.files);
        }
        ObjectStoreSource { backend: StoreBackend::S3(config), prefix, patterns, files, name }
    }

    /// Creates an Azure Blob Storage source.
    pub fn azure(config: AzureSourceConfig) -> (r: ObjectStoreSource)
        ensures
            r.name_view() == store_source_name(
                "azure://"@,
                config@.container,
                config@.prefix,
                config@.files.len(),
            ),
            r.backend_view() == StoreBackend::Azure(config),
            r.prefix_view() == config@.prefix,
            r.patterns_view() == config@.patterns,
            r.files_view() == config@.files,
    {
        let name = source_name("azure://", &config.container, &config.prefix, &config.files);
        let prefix = config.prefix.clone();
        let patterns = copy_texts(&config.patterns);
        let files = copy_texts(&config.files);
        proof {
            assert(pattern_texts(patterns@) =~= config@.patterns);
            assert(pattern_texts(files@) =~= config@.files);
        }
        ObjectStoreSource { backend: StoreBackend::Azure(config), prefix, patterns, files, name }
    }

    /// Creates a Google Cloud Storage source.
    pub fn gcs(config: GcsSourceConfig) -> (r: ObjectStoreSource)
        ensures
            r.name_view() == store_source_name("gs://"@, config@.bucket, config@.prefix, config@.files.len()),
            r.backend_view() == StoreBackend::Gcs(config),
            r.prefix_view() == config@.prefix,
            r.patterns_view() == config@.patterns,
            r.files_view() == config@.files,
    {
        let name = source_name("gs://", &config.bucket, &config.prefix, &config.files);
        let prefix = config.prefix.clone();
        let patterns = copy_texts(&config.patterns);
        let files = copy_texts(&config.files);
        proof {
            assert(pattern_texts(patterns@) =~= config@.patterns);
            assert(pattern_texts(files@) =~= config@.files);
        }
        ObjectStoreSource { backend: StoreBackend::Gcs(config), prefix, patterns, files, name }
    }

    /// The service and configuration the client is built from.
    pub closed spec fn backend_view(&self) -> StoreBackend {
        self.backend
    }

    /// The service and configuration the client is built from.
    pub fn backend(&self) -> (r: &StoreBackend)
        ensures
            *r == self.backend_view(),
    {
        &self.backend
    }

    /// The name of the source, for logging.
    pub fn name(&self) -> (r: &str)
        ensures
            r@ == self.name_view(),
    {
        self.name.as_str()
    }

    /// The object keys listed explicitly.
    pub fn files(&self) -> (r: &Vec<String>)
        ensures
            pattern_texts(r@) == self.files_view(),
    {
        &self.files
    }

    /// Whether the patterns select an object file name; every name where
    /// there are none.
    pub fn matches_patterns(&self, filename: &str) -> (r: bool)
        ensures
            r == (self.patterns_view().len() == 0 || any_matches(self.patterns_view(), filename@)),
    {
        if self.patterns.len() == 0 {
            return true;
        }
        matches_any(&self.patterns, filename)
    }

    /// The file name of an object key: the part after the last `/`.
    pub fn extract_filename(path: &str) -> (r: String)
        ensures
            r@ == object_file_name(path@),
    {
        text_after_last(path, '/')
    }

    /// Whether to list the store: where no files are listed explicitly, or a
    /// prefix is set.
    pub fn should_list(&self) -> (r: bool)
        ensures
            r == (self.files_view().len() == 0 || self.prefix_view().len() > 0),
    {
        self.files.len() == 0 || !self.prefix.as_str().is_empty()
    }

    /// The prefix to list under: none where it is empty.
    pub fn list_prefix(&self) -> (r: Option<String>)
        ensures
            r matches Some(p) ==> p@ == self.prefix_view() && p@.len() > 0,
            r is None == (self.prefix_view().len() == 0),
    {
        if self.prefix.as_str().is_empty() {
            None
        } else {
            Some(self.prefix.clone())
        }
    }

    /// The listed keys to fetch, in order: those whose file names the
    /// patterns select and that are not listed explicitly.
    pub fn select_listed(&self, keys: &Vec<String>) -> (r: Vec<String>)
        ensures
            pattern_texts(r@) == selected_keys(self.patterns_view(), self.files_view(), pattern_texts(keys@)),
    {
        let ghost all = pattern_texts(keys@);
        let mut out: Vec<String> = Vec::new();
        let mut i: usize = 0;
        while i < keys.len()
            invariant
                i <= keys@.len(),
                all == pattern_texts(keys@),
                pattern_texts(out@) == selected_keys(self.patterns_view(), self.files_view(), all.take(i as int)),
            decreases keys.len() - i,
        {
            assert(all.take(i as int + 1).drop_last() =~= all.take(i as int));
            let key = keys[i].as_str();
            let filename = Self::extract_filename(key);
            if self.matches_patterns(filename.as_str()) && !self.lists_explicitly(key) {
                out.push(keys[i].clone());
                assert(pattern_texts(out@) =~= selected_keys(self.patterns_view(), self.files_view(), all.take(i as int)).push(all[i as int]));
            }
            i = i + 1;
        }
        assert(all.take(keys@.len() as int) =~= all);
        out
    }

    /// Whether a key is listed explicitly.
    pub fn lists_explicitly(&self, key: &str) -> (r: bool)
        ensures
            r == self.files_view().contains(key@),
    {
        let mut i: usize = 0;
        while i < self.files.len()
            invariant
                i <= self.files@.len(),
                forall|j: int| 0 <= j < i ==> self.files_view()[j] != key@,
            decreases self.files.len() - i,
        {
            if text_equals(self.files[i].as_str(), key) {
                assert(self.files_view()[i as int] == key@);
                return true;
            }
            i = i + 1;
        }
        false
    }

    /// The files the source fetches, given what the caller got for each
    /// explicitly listed key (in order) and, where the store was listed,
    /// the listing's outcome: the bytes got for each selected key, in
    /// order. Explicit keys the store would not give are left out; any
    /// other failure stops the fetch.
    pub fn assemble(
        &self,
        explicit: Vec<ObjectProbe>,
        listed: Option<core::result::Result<Vec<(String, core::result::Result<Vec<u8>, String>)>, String>>,
    ) -> (r: Result<Vec<FetchedFile>>)
        requires
            explicit@.len() == self.files_view().len(),
        ensures
            r matches Err(e) ==> e is ObjectStore,
            r matches Ok(v) ==> {
                let given = explicit_objects(self.name_view(), self.files_view(), explicit@);
                let more = listed_objects(self.name_view(), listed);
                &&& given is Some
                &&& more is Some
                &&& fetched_views(v@) == given->0 + more->0
            },
            (explicit_objects(self.name_view(), self.files_view(), explicit@) is Some
                && listed_objects(self.name_view(), listed) is Some) ==> r is Ok,
    {
        let ghost keys = self.files_view();
        let ghost probes = explicit@;
        let mut files: Vec<FetchedFile> = Vec::new();
        let mut i: usize = 0;
        let n = explicit.len();
        for probe in it: explicit.into_iter()
            invariant
                n == probes.len(),
                i == it.index(),
                i <= probes.len(),
                it.seq() == probes,
                probes.len() == keys.len(),
                keys == self.files_view(),
                self.files@.len() == keys.len(),
                explicit_objects(self.name_view(), keys.take(it.index() as int), probes.take(it.index() as int))
                    == Some(fetched_views(files@)),
        {
            let ghost k = it.index() as int;
            proof {
                assert(keys.take(k + 1).drop_last() =~= keys.take(k));
                assert(probes.take(k + 1).drop_last() =~= probes.take(k));
            }
            match probe {
                ObjectProbe::Unavailable(_) => {},
                ObjectProbe::Fetched(Ok(bytes)) => {
                    let key = &self.files[i];
                    let f = FetchedFile {
                        path: key.clone(),
                        filename: Self::extract_filename(key.as_str()),
                        content: bytes,
                        source: self.name.clone(),
                    };
                    let ghost before = fetched_views(files@);
                    files.push(f);
                    assert(fetched_views(files@) =~= before.push(f@));
                },
                ObjectProbe::Fetched(Err(e)) => {
                    proof {
                        lemma_explicit_objects_failure_stays(self.name_view(), keys, probes, k + 1);
                    }
                    return Err(PipelineError::ObjectStore(e));
                },
            }
            i = i + 1;
        }
        proof {
            assert(keys.take(keys.len() as int) =~= keys);
            assert(probes.take(probes.len() as int) =~= probes);
        }
        match listed {
            None => {
                assert(fetched_views(files@) + Seq::<FileView>::empty() =~= fetched_views(files@));
                Ok(files)
            },
            Some(Err(e)) => Err(PipelineError::ObjectStore(e)),
            Some(Ok(objects)) => {
                let ghost head = fetched_views(files@);
                let ghost got = objects@;
                let ghost outcome = listed_objects(self.name_view(), listed);
                assert(outcome == listed_prefix(self.name_view(), got));
                let mut j: usize = 0;
                while j < objects.len()
                    invariant
                        outcome == listed_prefix(self.name_view(), got),
                        outcome == listed_objects(self.name_view(), listed),
                        j <= got.len(),
                        got == objects@,
                        listed_prefix(self.name_view(), got.take(j as int)) == Some(
                            fetched_views(files@).subrange(head.len() as int, fetched_views(files@).len() as int),
                        ),
                        fetched_views(files@).len() >= head.len(),
                        fetched_views(files@).subrange(0, head.len() as int) == head,
                    decreases objects.len() - j,
                {
                    assert(got.take(j as int + 1).drop_last() =~= got.take(j as int));
                    let (key, result) = &objects[j];
                    match result {
                        Ok(bytes) => {
                            let f = FetchedFile {
                                path: key.clone(),
                                filename: Self::extract_filename(key.as_str()),
                                content: bytes.clone(),
                                source: self.name.clone(),
                            };
                            let ghost before = fetched_views(files@);
                            files.push(f);
                            assert(fetched_views(files@) =~= before.push(f@));
                            assert(fetched_views(files@).subrange(head.len() as int, fetched_views(files@).len() as int)
                                =~= before.subrange(head.len() as int, before.len() as int).push(f@));
                            assert(fetched_views(files@).subrange(0, head.len() as int) =~= before.subrange(
                                0,
                                head.len() as int,
                            ));
                        },
                        Err(e) => {
                            proof {
                                assert(got.take(j as int + 1).last() == got[j as int]);
                                lemma_listed_failure_stays(self.name_view(), got, j as int + 1);
                            }
                            return Err(PipelineError::ObjectStore(e.clone()));
                        },
                    }
                    j = j + 1;
                }
                assert(got.take(got.len() as int) =~= got);
                assert(fetched_views(files@) =~= head + fetched_views(files@).subrange(
                    head.len() as int,
                    fetched_views(files@).len() as int,
                ));
                Ok(files)
            },
        }
    }
}

/// The keys of a listing to fetch, in order: those whose file names the
/// patterns select (every name where there are none) and that are not
/// listed explicitly.
pub open spec fn selected_keys(patterns: Seq<Seq<char>>, explicit: Seq<Seq<char>>, keys: Seq<Seq<char>>) -> Seq<
    Seq<char>,
>
    decreases keys.len(),
{
    if keys.len() == 0 {
        Seq::empty()
    } else {
        let k = keys.last();
        let prev = selected_keys(patterns, explicit, keys.drop_last());
        if (patterns.len() == 0 || any_matches(patterns, object_file_name(k))) && !explicit.contains(k) {
            prev.push(k)
        } else {
            prev
        }
    }
}

/// A listed object is never fetched a second time: no key selected from a
/// listing is one of the keys listed explicitly, and every selected key's
/// file name is one the patterns select.
pub proof fn law_listing_skips_explicit_keys(
    patterns: Seq<Seq<char>>,
    explicit: Seq<Seq<char>>,
    keys: Seq<Seq<char>>,
)
    ensures
        forall|i: int| 0 <= i < selected_keys(patterns, explicit, keys).len() ==> {
            let k = #[trigger] selected_keys(patterns, explicit, keys)[i];
            &&& !explicit.contains(k)
            &&& keys.contains(k)
            &&& (patterns.len() == 0 || any_matches(patterns, object_file_name(k)))
        },
    decreases keys.len(),
{
    if keys.len() > 0 {
        law_listing_skips_explicit_keys(patterns, explicit, keys.drop_last());
        let prev = selected_keys(patterns, explicit, keys.drop_last());
        let cur = selected_keys(patterns, explicit, keys);
        assert forall|i: int| 0 <= i < cur.len() implies {
            let k = #[trigger] cur[i];
            &&& !explicit.contains(k)
            &&& keys.contains(k)
            &&& (patterns.len() == 0 || any_matches(patterns, object_file_name(k)))
        } by {
            if i < prev.len() {
                assert(cur[i] == prev[i]);
                assert(keys.drop_last().contains(prev[i]));
                let j = choose|j: int| 0 <= j < keys.drop_last().len() && keys.drop_last()[j] == prev[i];
                assert(keys[j] == prev[i]);
            } else {
                assert(keys[keys.len() - 1] == cur[i]);
            }
        }
    }
}

/// Whether a listed key is to be fetched: it is not listed explicitly, and
/// there are no patterns or some pattern compiles and matches its file name
/// (the part after the last `/`).
pub open spec fn listing_wants(patterns: Seq<Seq<char>>, explicit: Seq<Seq<char>>) -> spec_fn(Seq<char>) -> bool {
    |k: Seq<char>|
        !explicit.contains(k) && (patterns.len() == 0 || exists|j: int|
            0 <= j < patterns.len() && glob_valid(patterns[j]) && #[trigger] glob_match(patterns[j], after_last(k, '/')))
}

/// The keys selected from a listing are exactly the listed keys that are
/// wanted, in the listing's order: none is dropped (with no patterns every
/// key not listed explicitly is taken) and none is added.
pub proof fn law_listing_selects_every_wanted_key(
    patterns: Seq<Seq<char>>,
    explicit: Seq<Seq<char>>,
    keys: Seq<Seq<char>>,
)
    ensures
        selected_keys(patterns, explicit, keys) == keys.filter(listing_wants(patterns, explicit)),
    decreases keys.len(),
{
    if keys.len() > 0 {
        law_listing_selects_every_wanted_key(patterns, explicit, keys.drop_last());
        keys.drop_last().lemma_filter_push(keys.last(), listing_wants(patterns, explicit));
        assert(keys.drop_last().push(keys.last()) =~= keys);
    } else {
        reveal(Seq::filter);
    }
}

/// What the explicitly listed keys give, in order: `None` where bytes the
/// store gave could not be read.
pub open spec fn explicit_objects(source: Seq<char>, keys: Seq<Seq<char>>, probes: Seq<ObjectProbe>) -> Option<
    Seq<FileView>,
>
    decreases probes.len(),
{
    if probes.len() == 0 || keys.len() == 0 {
        Some(Seq::empty())
    } else {
        match explicit_objects(source, keys.drop_last(), probes.drop_last()) {
            None => None,
            Some(prev) => match probes.last() {
                ObjectProbe::Unavailable(_) => Some(prev),
                ObjectProbe::Fetched(Ok(bytes)) => Some(prev.push(object_file(keys.last(), bytes@, source))),
                ObjectProbe::Fetched(Err(_)) => None,
            },
        }
    }
}

/// The files of the first listed objects, or `None` at the first failure.
pub open spec fn listed_prefix(
    source: Seq<char>,
    objects: Seq<(String, core::result::Result<Vec<u8>, String>)>,
) -> Option<Seq<FileView>>
    decreases objects.len(),
{
    if objects.len() == 0 {
        Some(Seq::empty())
    } else {
        match listed_prefix(source, objects.drop_last()) {
            None => None,
            Some(prev) => match objects.last().1 {
                Ok(bytes) => Some(prev.push(object_file(objects.last().0@, bytes@, source))),
                Err(_) => None,
            },
        }
    }
}

/// What the listing gives: nothing where the store was not listed, and
/// `None` where the listing or a fetch failed.
pub open spec fn listed_objects(
    source: Seq<char>,
    listed: Option<core::result::Result<Vec<(String, core::result::Result<Vec<u8>, String>)>, String>>,
) -> Option<Seq<FileView>> {
    match listed {
        None => Some(Seq::empty()),
        Some(Err(_)) => None,
        Some(Ok(objects)) => listed_prefix(source, objects@),
    }
}

proof fn lemma_explicit_objects_failure_stays(
    source: Seq<char>,
    keys: Seq<Seq<char>>,
    probes: Seq<ObjectProbe>,
    k: int,
)
    requires
        0 < k <= probes.len(),
        probes.len() == keys.len(),
        explicit_objects(source, keys.take(k), probes.take(k)) is None,
    ensures
        explicit_objects(source, keys, probes) is None,
    decreases probes.len() - k,
{
    if k < probes.len() {
        assert(keys.take(k + 1).drop_last() =~= keys.take(k));
        assert(probes.take(k + 1).drop_last() =~= probes.take(k));
        lemma_explicit_objects_failure_stays(source, keys, probes, k + 1);
    } else {
        assert(keys.take(k) =~= keys);
        assert(probes.take(k) =~= probes);
    }
}

proof fn lemma_listed_failure_stays(
    source: Seq<char>,
    objects: Seq<(String, core::result::Result<Vec<u8>, String>)>,
    k: int,
)
    requires
        0 < k <= objects.len(),
        listed_prefix(source, objects.take(k)) is None,
    ensures
        listed_prefix(source, objects) is None,
    decreases objects.len() - k,
{
    if k < objects.len() {
        assert(objects.take(k + 1).drop_last() =~= objects.take(k));
        lemma_listed_failure_stays(source, objects, k + 1);
    } else {
        assert(objects.take(k) =~= objects);
    }
}

} // verus!
