//! Decompress processor: extracts files from ZIP archives and decompresses
//! GZIP files, in memory.

use async_compression::tokio::bufread::GzipDecoder;
use async_zip::base::read::seek::ZipFileReader;
use async_zip::StoredZipEntry;
use futures::executor::block_on;
use futures::io::AsyncReadExt;
use std::io::Cursor;
use tokio::io::AsyncReadExt as TokioReadExt;
use tokio::io::BufReader;
use tokio_util::compat::TokioAsyncReadCompatExt;
use vstd::prelude::*;

use super::{file_views, ProcessedFile};
use crate::config::pipeline::{UnzipProcessorConfig, UnzipView};
use crate::error::{PipelineError, Result};
use crate::glob::{any_matches, matches_any, pattern_texts};
use crate::sources::FileView;
use crate::text::{after_last, drop_end, ends_with_text, has_prefix, has_suffix, text_after_last, without_end};

verus! {

// ---------------------------------------------------------------------
// What the compression crates compute
// ---------------------------------------------------------------------

/// The bytes a GZIP stream decompresses to, or `None` where it is not a
/// valid GZIP stream.
pub uninterp spec fn gzip_decoded(content: Seq<u8>) -> Option<Seq<u8>>;

/// The names of the entries of a ZIP archive, in the archive's order (an
/// entry whose name the reader does not take as UTF-8 is `None`), or `None`
/// where the archive cannot be opened.
pub uninterp spec fn zip_entry_names(content: Seq<u8>) -> Option<Seq<Option<Seq<char>>>>;

/// The decompressed bytes of the entry at `index` of a ZIP archive, or
/// `None` where they cannot be read.
pub uninterp spec fn zip_entry_bytes(content: Seq<u8>, index: usize) -> Option<Seq<u8>>;

/// The view of a list of entry names as the archive reader reports them.
pub open spec fn name_results(v: Seq<core::result::Result<String, String>>) -> Seq<Option<Seq<char>>> {
    Seq::new(
        v.len(),
        |i: int|
            match v[i] {
                Ok(s) => Some(s@),
                Err(_) => None,
            },
    )
}

/// Decompresses a GZIP stream with `async_compression`'s `GzipDecoder`,
/// reading it to the end.
/// Claims: the bytes are those `gzip_decoded` names, and an error comes
/// exactly where it names none. The error text is not described.
#[verifier::external_body]
fn gunzip(content: &[u8]) -> (r: core::result::Result<Vec<u8>, String>)
    ensures
        match r {
            Ok(v) => gzip_decoded(content@) == Some(v@),
            Err(_) => gzip_decoded(content@) is None,
        },
{
    let mut decoder = GzipDecoder::new(BufReader::new(Cursor::new(content.to_vec())));
    let mut out = Vec::new();
    block_on(TokioReadExt::read_to_end(&mut decoder, &mut out)).map_err(|e| e.to_string())?;
    Ok(out)
}

/// Opens a ZIP archive with `async_zip`'s seeking `ZipFileReader` and lists
/// its entries' names (`ZipString::as_str`).
/// Claims: the listing is the one `zip_entry_names` names, and an error
/// comes exactly where it names none. Error texts are not described.
#[verifier::external_body]
fn zip_listing(content: &[u8]) -> (r: core::result::Result<Vec<core::result::Result<String, String>>, String>)
    ensures
        match r {
            Ok(v) => zip_entry_names(content@) == Some(name_results(v@)),
            Err(_) => zip_entry_names(content@) is None,
        },
{
    let reader = BufReader::new(Cursor::new(content.to_vec())).compat();
    let zip = block_on(ZipFileReader::new(reader)).map_err(|e| e.to_string())?;
    let name = |e: &StoredZipEntry| e.filename().as_str().map(|s| s.to_string()).map_err(|e| e.to_string());
    Ok(zip.file().entries().iter().map(name).collect())
}

/// Opens a ZIP archive with `async_zip`'s seeking `ZipFileReader`, opens the
/// entry at `index` (`reader_with_entry`) and reads it to the end.
/// Claims: the bytes are those `zip_entry_bytes` names, and an error comes
/// exactly where it names none. The error text is not described.
#[verifier::external_body]
fn zip_entry_data(content: &[u8], index: usize) -> (r: core::result::Result<Vec<u8>, String>)
    ensures
        match r {
            Ok(v) => zip_entry_bytes(content@, index) == Some(v@),
            Err(_) => zip_entry_bytes(content@, index) is None,
        },
{
    let reader = BufReader::new(Cursor::new(content.to_vec())).compat();
    let mut zip = block_on(ZipFileReader::new(reader)).map_err(|e| e.to_string())?;
    let mut entry = block_on(zip.reader_with_entry(index)).map_err(|e| e.to_string())?;
    let mut out = Vec::new();
    block_on(entry.read_to_end(&mut out)).map_err(|e| e.to_string())?;
    Ok(out)
}

// ---------------------------------------------------------------------
// What the processor does
// ---------------------------------------------------------------------

/// A name the ZIP archive patterns select.
pub open spec fn is_zip_name(config: UnzipView, name: Seq<char>) -> bool {
    any_matches(config.archive_patterns, name)
}

/// A name the GZIP patterns select, or one ending in `.gz` or `.gzip`.
pub open spec fn is_gzip_name(config: UnzipView, name: Seq<char>) -> bool {
    any_matches(config.gzip_patterns, name) || has_suffix(name, ".gz"@) || has_suffix(name, ".gzip"@)
}

/// A name the extract patterns select; every name where there are none.
pub open spec fn extract_matches(config: UnzipView, name: Seq<char>) -> bool {
    config.patterns.len() == 0 || any_matches(config.patterns, name)
}

/// A file name with a `.gz` (else `.gzip`) ending removed.
pub open spec fn strip_gzip_suffix(name: Seq<char>) -> Seq<char> {
    if has_suffix(name, ".gz"@) {
        drop_end(name, 3)
    } else if has_suffix(name, ".gzip"@) {
        drop_end(name, 5)
    } else {
        name
    }
}

/// The file a GZIP file decompresses to, given its decompressed bytes.
pub open spec fn decompressed_view(file: FileView, bytes: Seq<u8>) -> FileView {
    FileView {
        path: file.path + ":decompressed"@,
        filename: strip_gzip_suffix(file.filename),
        content: bytes,
        source: file.source,
    }
}

/// The file extracted from an archive entry of the given name and bytes; a
/// GZIP entry is decompressed too, and kept as it is where that fails.
pub open spec fn entry_file(config: UnzipView, archive: FileView, name: Seq<char>, bytes: Seq<u8>) -> FileView {
    let simple = after_last(name, '/');
    let raw = FileView { path: archive.path + ":"@ + name, filename: simple, content: bytes, source: archive.source };
    if is_gzip_name(config, simple) {
        match gzip_decoded(bytes) {
            Some(d) => decompressed_view(raw, d),
            None => raw,
        }
    } else {
        raw
    }
}

/// What the entry at `i` contributes: nothing for a directory, one file
/// where the extract patterns select the name it has after extraction (a
/// GZIP entry is named as it decompresses), nothing otherwise; `None` where
/// its name is not UTF-8 or its bytes cannot be read. An entry is read only
/// where the patterns select its name, or it is a GZIP file and they select
/// the name it decompresses to.
pub open spec fn entry_outcome(
    config: UnzipView,
    archive: FileView,
    names: Seq<Option<Seq<char>>>,
    i: int,
) -> Option<Seq<FileView>> {
    match names[i] {
        None => None,
        Some(n) => {
            let simple = after_last(n, '/');
            if has_suffix(n, "/"@) || (!extract_matches(config, simple) && !(is_gzip_name(config, simple)
                && extract_matches(config, strip_gzip_suffix(simple)))) {
                Some(Seq::empty())
            } else {
                match zip_entry_bytes(archive.content, i as usize) {
                    None => None,
                    Some(d) => {
                        let f = entry_file(config, archive, n, d);
                        if extract_matches(config, f.filename) {
                            Some(seq![f])
                        } else {
                            Some(Seq::empty())
                        }
                    },
                }
            }
        },
    }
}

/// The files of the first `k` entries, or `None` at the first failure.
pub open spec fn extracted_prefix(
    config: UnzipView,
    archive: FileView,
    names: Seq<Option<Seq<char>>>,
    k: int,
) -> Option<Seq<FileView>>
    decreases k,
{
    if k <= 0 {
        Some(Seq::empty())
    } else {
        match extracted_prefix(config, archive, names, k - 1) {
            None => None,
            Some(prev) => match entry_outcome(config, archive, names, k - 1) {
                None => None,
                Some(e) => Some(prev + e),
            },
        }
    }
}

/// The files extracted from a ZIP archive, or `None` where it fails.
pub open spec fn zip_extracted(config: UnzipView, archive: FileView) -> Option<Seq<FileView>> {
    match zip_entry_names(archive.content) {
        None => None,
        Some(names) => extracted_prefix(config, archive, names, names.len() as int),
    }
}

/// What the processor makes of one file: a ZIP archive becomes its
/// extracted files (none where it fails), a GZIP file its decompressed file
/// where that succeeds and the extract patterns select its name, and any
/// other file passes through.
pub open spec fn unzip_one(config: UnzipView, file: FileView) -> Seq<FileView> {
    if is_zip_name(config, file.filename) {
        match zip_extracted(config, file) {
            Some(fs) => fs,
            None => Seq::empty(),
        }
    } else if is_gzip_name(config, file.filename) {
        match gzip_decoded(file.content) {
            Some(d) => if extract_matches(config, decompressed_view(file, d).filename) {
                seq![decompressed_view(file, d)]
            } else {
                Seq::empty()
            },
            None => Seq::empty(),
        }
    } else {
        seq![file]
    }
}

/// What the processor makes of a list of files, in order.
pub open spec fn unzip_files(config: UnzipView, files: Seq<FileView>) -> Seq<FileView>
    decreases files.len(),
{
    if files.len() == 0 {
        Seq::empty()
    } else {
        unzip_files(config, files.drop_last()) + unzip_one(config, files.last())
    }
}

/// Once extraction has failed at some entry, it has failed for every
/// longer prefix of the archive.
proof fn lemma_prefix_failure_stays(
    config: UnzipView,
    archive: FileView,
    names: Seq<Option<Seq<char>>>,
    k: int,
    m: int,
)
    requires
        0 <= k <= m,
        extracted_prefix(config, archive, names, k) is None,
    ensures
        extracted_prefix(config, archive, names, m) is None,
    decreases m - k,
{
    if k < m {
        lemma_prefix_failure_stays(config, archive, names, k, m - 1);
    }
}

/// Files that are neither ZIP archives nor GZIP files pass through the
/// processor unchanged and in order.
pub proof fn law_unzip_passes_plain_files(config: UnzipView, files: Seq<FileView>)
    requires
        forall|i: int| 0 <= i < files.len() ==> !is_zip_name(config, #[trigger] files[i].filename)
            && !is_gzip_name(config, files[i].filename),
    ensures
        unzip_files(config, files) == files,
    decreases files.len(),
{
    if files.len() > 0 {
        let init = files.drop_last();
        assert forall|i: int| 0 <= i < init.len() implies !is_zip_name(config, #[trigger] init[i].filename)
            && !is_gzip_name(config, init[i].filename) by {
            assert(init[i] == files[i]);
        }
        law_unzip_passes_plain_files(config, init);
        assert(files.last() == files[files.len() - 1]);
        assert(init + seq![files.last()] =~= files);
    }
}

/// Processing a concatenation processes each part: what becomes of a file
/// does not depend on the files around it.
pub proof fn law_unzip_concat(config: UnzipView, a: Seq<FileView>, b: Seq<FileView>)
    ensures
        unzip_files(config, a + b) == unzip_files(config, a) + unzip_files(config, b),
    decreases b.len(),
{
    if b.len() == 0 {
        assert(a + b =~= a);
        assert(unzip_files(config, a) + unzip_files(config, b) =~= unzip_files(config, a));
    } else {
        law_unzip_concat(config, a, b.drop_last());
        assert((a + b).drop_last() =~= a + b.drop_last());
        assert((a + b).last() == b.last());
        assert(unzip_files(config, a) + unzip_files(config, b.drop_last()) + unzip_one(config, b.last())
            =~= unzip_files(config, a) + (unzip_files(config, b.drop_last()) + unzip_one(config, b.last())));
    }
}

/// Decompressing `name.gz` gives back `name`.
pub proof fn law_gzip_name_round_trip(name: Seq<char>)
    ensures
        strip_gzip_suffix(name + ".gz"@) == name,
{
    reveal_strlit(".gz");
    let full = name + ".gz"@;
    assert(full.subrange(full.len() - 3, full.len() as int) =~= ".gz"@);
    assert(drop_end(full, 3) =~= name);
}

proof fn lemma_extracted_keep_source(config: UnzipView, archive: FileView, names: Seq<Option<Seq<char>>>, k: int)
    ensures
        extracted_prefix(config, archive, names, k) matches Some(fs) ==> forall|i: int| 0 <= i < fs.len()
            ==> (#[trigger] fs[i]).source == archive.source,
    decreases k,
{
    if k > 0 {
        lemma_extracted_keep_source(config, archive, names, k - 1);
        if let Some(prev) = extracted_prefix(config, archive, names, k - 1) {
            if let Some(e) = entry_outcome(config, archive, names, k - 1) {
                let fs = prev + e;
                assert forall|i: int| 0 <= i < fs.len() implies (#[trigger] fs[i]).source == archive.source by {
                    if i >= prev.len() {
                        assert(fs[i] == e[i - prev.len()]);
                    }
                }
            }
        }
    }
}

/// Every file the processor gives out comes from one of its input files:
/// it keeps the source that provided that file.
pub proof fn law_unzip_keeps_sources(config: UnzipView, files: Seq<FileView>)
    ensures
        forall|i: int| 0 <= i < unzip_files(config, files).len() ==> exists|j: int|
            0 <= j < files.len() && files[j].source == (#[trigger] unzip_files(config, files)[i]).source,
    decreases files.len(),
{
    if files.len() > 0 {
        let init = files.drop_last();
        let last = files.last();
        law_unzip_keeps_sources(config, init);
        let prev = unzip_files(config, init);
        let one = unzip_one(config, last);
        let out = unzip_files(config, files);
        if let Some(names) = zip_entry_names(last.content) {
            lemma_extracted_keep_source(config, last, names, names.len() as int);
        }
        assert forall|i: int| 0 <= i < one.len() implies (#[trigger] one[i]).source == last.source by {}
        assert forall|i: int| 0 <= i < out.len() implies exists|j: int|
            0 <= j < files.len() && files[j].source == (#[trigger] out[i]).source by {
            if i < prev.len() {
                assert(out[i] == prev[i]);
                let j = choose|j: int| 0 <= j < init.len() && init[j].source == prev[i].source;
                assert(files[j] == init[j]);
            } else {
                assert(out[i] == one[i - prev.len()]);
                assert(files[files.len() - 1] == last);
            }
        }
    }
}

/// Processor that extracts files from ZIP and GZIP archives in-memory.
pub struct UnzipProcessor {
    config: UnzipProcessorConfig,
}

impl UnzipProcessor {
    /// The configuration this processor was built from.
    pub closed spec fn config_view(&self) -> UnzipView {
        self.config@
    }

    pub fn new(config: UnzipProcessorConfig) -> (r: UnzipProcessor)
        ensures
            r.config_view() == config@,
    {
        UnzipProcessor { config }
    }

    /// Whether a file name selects ZIP extraction.
    pub fn is_zip_archive(&self, filename: &str) -> (r: bool)
        ensures
            r == is_zip_name(self.config_view(), filename@),
    {
        proof {
            assert(pattern_texts(self.config.archive_patterns@) =~= self.config@.archive_patterns);
        }
        matches_any(&self.config.archive_patterns, filename)
    }

    /// Whether a file name selects GZIP decompression.
    pub fn is_gzip_file(&self, filename: &str) -> (r: bool)
        ensures
            r == is_gzip_name(self.config_view(), filename@),
    {
        proof {
            assert(pattern_texts(self.config.gzip_patterns@) =~= self.config@.gzip_patterns);
        }
        matches_any(&self.config.gzip_patterns, filename) || ends_with_text(filename, ".gz")
            || ends_with_text(filename, ".gzip")
    }

    /// Whether an extracted file name is to be kept.
    pub fn matches_extract_pattern(&self, filename: &str) -> (r: bool)
        ensures
            r == extract_matches(self.config_view(), filename@),
    {
        if self.config.patterns.len() == 0 {
            return true;
        }
        proof {
            assert(pattern_texts(self.config.patterns@) =~= self.config@.patterns);
        }
        matches_any(&self.config.patterns, filename)
    }

    /// Decompresses a GZIP file in memory; the result's name loses its
    /// `.gz` or `.gzip` ending and its path gains `:decompressed`.
    pub fn decompress_gzip(&self, file: &ProcessedFile) -> (r: Result<ProcessedFile>)
        ensures
            match gzip_decoded(file.content@) {
                Some(d) => r matches Ok(g) && g@ == decompressed_view(file@, d),
                None => r matches Err(PipelineError::Zip(m))
                    && has_prefix(m@, "Failed to decompress gzip '"@ + file.filename@ + "': "@),
            },
    {
        match gunzip(file.content.as_slice()) {
            Err(e) => {
                let mut m = String::from_str("Failed to decompress gzip '");
                m.append(file.filename.as_str());
                m.append("': ");
                let ghost prefix = m@;
                m.append(e.as_str());
                assert(m@.subrange(0, prefix.len() as int) =~= prefix);
                Err(PipelineError::Zip(m))
            },
            Ok(bytes) => {
                let name = strip_gzip_name(file.filename.as_str());
                let mut path = file.path.clone();
                path.append(":decompressed");
                Ok(ProcessedFile { path, filename: name, content: bytes, source: file.source.clone() })
            },
        }
    }

    /// Extracts the files of a ZIP archive in memory, in the archive's order:
    /// directories are skipped, each file is named by the last part of its
    /// entry name, GZIP entries are decompressed where that succeeds, and
    /// the extract patterns are applied to the names the files have after
    /// extraction.
    pub fn extract_zip(&self, file: &ProcessedFile) -> (r: Result<Vec<ProcessedFile>>)
        ensures
            match zip_extracted(self.config_view(), file@) {
                Some(fs) => r matches Ok(v) && file_views(v@) == fs,
                None => r matches Err(PipelineError::Zip(_)),
            },
            zip_entry_names(file.content@) is None ==> (r matches Err(PipelineError::Zip(m))
                && has_prefix(m@, "Failed to open zip '"@ + file.filename@ + "': "@)),
    {
        let ghost cfg = self.config_view();
        let listing = match zip_listing(file.content.as_slice()) {
            Ok(l) => l,
            Err(e) => {
                let mut m = String::from_str("Failed to open zip '");
                m.append(file.filename.as_str());
                m.append("': ");
                let ghost prefix = m@;
                m.append(e.as_str());
                assert(m@.subrange(0, prefix.len() as int) =~= prefix);
                return Err(PipelineError::Zip(m));
            },
        };
        let ghost names = name_results(listing@);
        let mut extracted: Vec<ProcessedFile> = Vec::new();
        let mut i: usize = 0;
        while i < listing.len()
            invariant
                cfg == self.config_view(),
                zip_entry_names(file.content@) == Some(names),
                names == name_results(listing@),
                i <= listing@.len(),
                extracted_prefix(cfg, file@, names, i as int) == Some(file_views(extracted@)),
            decreases listing.len() - i,
        {
            let entry_name = match &listing[i] {
                Ok(n) => n,
                Err(e) => {
                    proof {
                        lemma_prefix_failure_stays(cfg, file@, names, i as int + 1, names.len() as int);
                    }
                    let mut m = String::from_str("Invalid filename in zip: ");
                    m.append(e.as_str());
                    return Err(PipelineError::Zip(m));
                },
            };
            assert(names[i as int] == Some(entry_name@));
            if ends_with_text(entry_name.as_str(), "/") {
                assert(file_views(extracted@) + Seq::<FileView>::empty() =~= file_views(extracted@));
                i = i + 1;
                continue;
            }
            let simple = text_after_last(entry_name.as_str(), '/');
            let gzipped = self.is_gzip_file(simple.as_str());
            let wanted = self.matches_extract_pattern(simple.as_str()) || (gzipped
                && self.matches_extract_pattern(strip_gzip_name(simple.as_str()).as_str()));
            if !wanted {
                assert(file_views(extracted@) + Seq::<FileView>::empty() =~= file_views(extracted@));
                i = i + 1;
                continue;
            }
            let bytes = match zip_entry_data(file.content.as_slice(), i) {
                Ok(b) => b,
                Err(e) => {
                    proof {
                        lemma_prefix_failure_stays(cfg, file@, names, i as int + 1, names.len() as int);
                    }
                    let mut m = String::from_str("Failed to extract '");
                    m.append(entry_name.as_str());
                    m.append("': ");
                    m.append(e.as_str());
                    return Err(PipelineError::Zip(m));
                },
            };
            let mut path = file.path.clone();
            path.append(":");
            path.append(entry_name.as_str());
            let raw = ProcessedFile { path, filename: simple, content: bytes, source: file.source.clone() };
            let item = if gzipped {
                match self.decompress_gzip(&raw) {
                    Ok(d) => d,
                    Err(_) => raw,
                }
            } else {
                raw
            };
            assert(item@ == entry_file(cfg, file@, entry_name@, zip_entry_bytes(file.content@, i)->0));
            let ghost before = file_views(extracted@);
            if self.matches_extract_pattern(item.filename.as_str()) {
                extracted.push(item);
                assert(file_views(extracted@) =~= before + seq![item@]);
            } else {
                assert(file_views(extracted@) + Seq::<FileView>::empty() =~= file_views(extracted@));
            }
            i = i + 1;
        }
        Ok(extracted)
    }

    /// Decompresses or extracts each archive and passes other files through,
    /// in order. An archive that fails is skipped, as is a decompressed file
    /// whose name the extract patterns do not select.
    pub fn process(&self, files: Vec<ProcessedFile>) -> (r: Result<Vec<ProcessedFile>>)
        ensures
            r matches Ok(v) && file_views(v@) == unzip_files(self.config_view(), file_views(files@)),
    {
        let ghost cfg = self.config_view();
        let ghost input = file_views(files@);
        let mut result: Vec<ProcessedFile> = Vec::new();
        for file in it: files.into_iter()
            invariant
                cfg == self.config_view(),
                it.seq() == files@,
                input == file_views(files@),
                file_views(result@) == unzip_files(cfg, input.take(it.index() as int)),
        {
            let ghost i = it.index() as int;
            let ghost before = file_views(result@);
            proof {
                assert(file@ == input[i]);
                assert(input.take(i + 1).drop_last() =~= input.take(i));
                assert(input.take(i + 1).last() == input[i]);
            }
            if self.is_zip_archive(file.filename.as_str()) {
                match self.extract_zip(&file) {
                    Ok(mut extracted) => {
                        let ghost added = file_views(extracted@);
                        result.append(&mut extracted);
                        assert(file_views(result@) =~= before + added);
                    },
                    Err(_) => {
                        assert(file_views(result@) =~= before + Seq::<FileView>::empty());
                    },
                }
            } else if self.is_gzip_file(file.filename.as_str()) {
                match self.decompress_gzip(&file) {
                    Ok(decompressed) => {
                        if self.matches_extract_pattern(decompressed.filename.as_str()) {
                            let ghost d = decompressed@;
                            result.push(decompressed);
                            assert(file_views(result@) =~= before + seq![d]);
                        } else {
                            assert(file_views(result@) =~= before + Seq::<FileView>::empty());
                        }
                    },
                    Err(_) => {
                        assert(file_views(result@) =~= before + Seq::<FileView>::empty());
                    },
                }
            } else {
                let ghost f = file@;
                result.push(file);
                assert(file_views(result@) =~= before + seq![f]);
            }
        }
        proof {
            assert(input.take(input.len() as int) =~= input);
        }
        Ok(result)
    }

    /// The name of this processor.
    pub fn name(&self) -> (r: &'static str)
        ensures
            r@ == "decompress"@,
    {
        "decompress"
    }
}

/// A file name with its `.gz` (else `.gzip`) ending removed.
fn strip_gzip_name(name: &str) -> (r: String)
    ensures
        r@ == strip_gzip_suffix(name@),
{
    proof {
        reveal_strlit(".gz");
        reveal_strlit(".gzip");
    }
    if ends_with_text(name, ".gz") {
        without_end(name, 3)
    } else if ends_with_text(name, ".gzip") {
        without_end(name, 5)
    } else {
        String::from_str(name)
    }
}

} // verus!
