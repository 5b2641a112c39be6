//! Pipeline orchestration: what happens between fetching the files and
//! writing the results.

use vstd::prelude::*;

use crate::config::pipeline::{PipelineConfig, PipelineConfigView, ProcessorView};
use crate::error::Result;
use crate::processors::{create_processor, file_views, processed_by, ProcessedFile};
use crate::query::sparql::{engine_outcome, QueryEngine, QueryOutput, SparqlEngine};
use crate::sources::{fetched_views, FetchedFile, FileView};

verus! {

/// What the processors make of the files, applied in order.
pub open spec fn processed_all(processors: Seq<ProcessorView>, files: Seq<FileView>) -> Seq<FileView>
    decreases processors.len(),
{
    if processors.len() == 0 {
        files
    } else {
        processed_by(processors.last(), processed_all(processors.drop_last(), files))
    }
}

/// The files of the sources that fetched, in the order of the sources; a
/// source that failed contributes nothing.
pub open spec fn gathered(results: Seq<Result<Vec<FetchedFile>>>) -> Seq<FileView>
    decreases results.len(),
{
    if results.len() == 0 {
        Seq::empty()
    } else {
        gathered(results.drop_last()) + match results.last() {
            Ok(files) => fetched_views(files@),
            Err(_) => Seq::empty(),
        }
    }
}

/// Appends fetched files to a list of files to process, in order.
fn append_fetched(out: &mut Vec<ProcessedFile>, files: Vec<FetchedFile>)
    ensures
        file_views(final(out)@) == file_views(old(out)@) + fetched_views(files@),
{
    let ghost before = file_views(out@);
    let ghost added = fetched_views(files@);
    for f in jt: files.into_iter()
        invariant
            jt.seq() == files@,
            added == fetched_views(files@),
            file_views(out@) == before + added.take(jt.index() as int),
    {
        let ghost j = jt.index() as int;
        let p = ProcessedFile::from(f);
        assert(p@ == added[j]);
        let ghost prev = out@;
        out.push(p);
        assert(out@.len() == prev.len() + 1);
        assert(file_views(prev).len() == prev.len());
        assert(added.take(j + 1).len() == j + 1);
        assert(file_views(out@).len() == (before + added.take(j + 1)).len());
        assert forall|k: int| 0 <= k < out@.len() implies #[trigger] file_views(out@)[k] == (before + added.take(
            j + 1,
        ))[k] by {
            if k < prev.len() {
                assert(out@[k] == prev[k]);
                assert(file_views(prev)[k] == prev[k]@);
                assert(file_views(prev)[k] == (before + added.take(j))[k]);
            } else {
                assert(out@[k] == p);
            }
        }
        assert(file_views(out@) =~= before + added.take(j + 1));
    }
    assert(added.take(added.len() as int) =~= added);
}

/// Pipeline runner that orchestrates all stages.
pub struct Pipeline {
    config: PipelineConfig,
}

impl Pipeline {
    /// The configuration of the pipeline.
    pub closed spec fn config_view(&self) -> PipelineConfigView {
        self.config@
    }

    /// Create a new pipeline from configuration.
    pub fn new(config: PipelineConfig) -> (r: Pipeline)
        ensures
            r.config_view() == config@,
    {
        Pipeline { config }
    }

    /// The configuration of the pipeline.
    pub fn config(&self) -> (r: &PipelineConfig)
        ensures
            r@ == self.config_view(),
    {
        &self.config
    }

    /// Gathers what the sources fetched, in the order of the sources. A
    /// source that failed is skipped (the caller reports it).
    pub fn gather_fetched(results: Vec<Result<Vec<FetchedFile>>>) -> (r: Vec<ProcessedFile>)
        ensures
            file_views(r@) == gathered(results@),
    {
        let ghost all = results@;
        let mut out: Vec<ProcessedFile> = Vec::new();
        for result in it: results.into_iter()
            invariant
                it.seq() == all,
                file_views(out@) == gathered(all.take(it.index() as int)),
        {
            let ghost k = it.index() as int;
            assert(all.take(k + 1).drop_last() =~= all.take(k));
            let ghost before = file_views(out@);
            match result {
                Ok(files) => {
                    append_fetched(&mut out, files);
                },
                Err(_) => {
                    assert(file_views(out@) =~= before + Seq::<FileView>::empty());
                },
            }
        }
        assert(all.take(all.len() as int) =~= all);
        out
    }

    /// Process through all processors in sequence.
    pub fn process_all(&self, files: Vec<ProcessedFile>) -> (r: Result<Vec<ProcessedFile>>)
        ensures
            r matches Ok(v) && file_views(v@) == processed_all(self.config_view().processors, file_views(files@)),
    {
        let ghost input = file_views(files@);
        let ghost ps = self.config_view().processors;
        let mut files = files;
        let mut i: usize = 0;
        while i < self.config.processors.len()
            invariant
                i <= ps.len(),
                ps == self.config_view().processors,
                ps.len() == self.config.processors@.len(),
                file_views(files@) == processed_all(ps.take(i as int), input),
            decreases self.config.processors.len() - i,
        {
            assert(ps.take(i as int + 1).drop_last() =~= ps.take(i as int));
            let processor = create_processor(&self.config.processors[i]);
            assert(processor.config_view() == ps[i as int]);
            files = match processor.process(files) {
                Ok(v) => v,
                Err(e) => return Err(e),
            };
            i = i + 1;
        }
        assert(ps.take(ps.len() as int) =~= ps);
        Ok(files)
    }

    /// The stages after fetching: nothing where no files were fetched or
    /// none remain after processing; otherwise the processed files, in the
    /// order the processors give them, are loaded and the query run (with
    /// the query text the caller read for the configuration). Processing
    /// does not fail, so an error comes from the engine alone.
    pub fn query_fetched(&self, files: Vec<ProcessedFile>, query_text: Result<String>) -> (r: Result<
        Option<QueryOutput>,
    >)
        ensures
            files@.len() == 0 ==> r matches Ok(None),
            processed_all(self.config_view().processors, file_views(files@)).len() == 0 ==> r matches Ok(None),
            files@.len() > 0 && processed_all(self.config_view().processors, file_views(files@)).len() > 0 ==> {
                let processed = processed_all(self.config_view().processors, file_views(files@));
                let base = self.config_view().query.base_iri;
                ||| r matches Ok(Some(out)) && engine_outcome(base, processed, query_text, Ok(out))
                ||| r matches Err(e) && engine_outcome(base, processed, query_text, Err(e))
            },
    {
        if files.len() == 0 {
            return Ok(None);
        }
        let processed = match self.process_all(files) {
            Ok(v) => v,
            Err(e) => return Err(e),
        };
        if processed.len() == 0 {
            return Ok(None);
        }
        let engine = SparqlEngine::new(self.config.query.base_iri.clone());
        let r = engine.execute(processed, &self.config.query, query_text);
        match r {
            Ok(out) => Ok(Some(out)),
            Err(e) => Err(e),
        }
    }
}

/// Gathering is done source by source: the files of a source that
/// fetched are all kept, in order; a source that failed adds nothing; and
/// gathering joined lists of results joins what each gathers.
pub proof fn law_gathering_keeps_every_fetched_file(
    a: Seq<Result<Vec<FetchedFile>>>,
    b: Seq<Result<Vec<FetchedFile>>>,
    files: Vec<FetchedFile>,
    e: crate::error::PipelineError,
)
    ensures
        gathered(a + b) == gathered(a) + gathered(b),
        gathered(seq![Ok(files)]) == fetched_views(files@),
        gathered(seq![Err(e)]) == Seq::<FileView>::empty(),
        gathered(Seq::empty()) == Seq::<FileView>::empty(),
    decreases b.len(),
{
    let one: Seq<Result<Vec<FetchedFile>>> = seq![Ok(files)];
    let bad: Seq<Result<Vec<FetchedFile>>> = seq![Err(e)];
    assert(one.drop_last() =~= Seq::<Result<Vec<FetchedFile>>>::empty());
    assert(one.last() == Ok::<Vec<FetchedFile>, crate::error::PipelineError>(files));
    assert(bad.drop_last() =~= Seq::<Result<Vec<FetchedFile>>>::empty());
    assert(bad.last() == Err::<Vec<FetchedFile>, crate::error::PipelineError>(e));
    assert(gathered(one) == gathered(one.drop_last()) + fetched_views(files@));
    assert(gathered(bad) == gathered(bad.drop_last()) + Seq::<FileView>::empty());
    assert(Seq::<FileView>::empty() + fetched_views(files@) =~= fetched_views(files@));
    assert(Seq::<FileView>::empty() + Seq::<FileView>::empty() =~= Seq::<FileView>::empty());
    if b.len() == 0 {
        assert(a + b =~= a);
        assert(gathered(a) + gathered(b) =~= gathered(a));
    } else {
        law_gathering_keeps_every_fetched_file(a, b.drop_last(), files, e);
        assert((a + b).drop_last() =~= a + b.drop_last());
        assert((a + b).last() == b.last());
        let tail = match b.last() {
            Ok(fs) => fetched_views(fs@),
            Err(_) => Seq::<FileView>::empty(),
        };
        assert(gathered(a) + gathered(b.drop_last()) + tail =~= gathered(a) + (gathered(b.drop_last()) + tail));
    }
}

/// With no processors, the files reach the query as they were fetched.
pub proof fn law_no_processors_keeps_files(files: Seq<FileView>)
    ensures
        processed_all(Seq::empty(), files) == files,
{
}

/// Running the processors of two lists one after the other is running
/// the processors of the joined list.
pub proof fn law_processors_compose(a: Seq<ProcessorView>, b: Seq<ProcessorView>, files: Seq<FileView>)
    ensures
        processed_all(a + b, files) == processed_all(b, processed_all(a, files)),
    decreases b.len(),
{
    if b.len() == 0 {
        assert(a + b =~= a);
    } else {
        law_processors_compose(a, b.drop_last(), files);
        assert((a + b).drop_last() =~= a + b.drop_last());
        assert((a + b).last() == b.last());
    }
}

} // verus!
