//! Filter processor: keeps the files whose names pass include/exclude
//! patterns.

use vstd::prelude::*;

use super::{file_views, ProcessedFile};
use crate::config::pipeline::{FilterProcessorConfig, FilterView};
use crate::error::Result;
use crate::glob::{
    glob_match, glob_valid, any_matches, compile_all, lemma_any_matches_valid, lemma_valid_patterns_all_valid,
    matches_any, pattern_texts, valid_patterns,
};
use crate::sources::FileView;

verus! {

/// Whether a filter of the given configuration keeps a file of this name:
/// it matches some include pattern (or no include pattern compiles) and
/// matches no exclude pattern. Patterns that do not compile are ignored, so
/// a filter whose only include patterns are invalid keeps every file that
/// no exclude pattern matches.
pub open spec fn filter_keeps(config: FilterView, name: Seq<char>) -> bool {
    &&& (valid_patterns(config.included).len() == 0 || any_matches(config.included, name))
    &&& !any_matches(config.exclude, name)
}

/// No pattern of the list compiles exactly when the compiling ones are none.
proof fn lemma_no_valid_patterns(patterns: Seq<Seq<char>>)
    ensures
        valid_patterns(patterns).len() == 0 <==> forall|i: int|
            0 <= i < patterns.len() ==> !glob_valid(#[trigger] patterns[i]),
    decreases patterns.len(),
{
    if patterns.len() > 0 {
        lemma_no_valid_patterns(patterns.drop_last());
        assert forall|i: int| 0 <= i < patterns.len() - 1 implies #[trigger] patterns[i] == patterns.drop_last()[i] by {}
        assert(patterns.last() == patterns[patterns.len() - 1]);
    }
}

/// What a filter keeps, by its patterns alone: a name is kept exactly when
/// some include pattern compiles and matches it, or none of them compiles;
/// and no exclude pattern that compiles matches it. So a name matched by
/// any compiling exclude pattern, whichever of the list it is, is dropped.
pub proof fn law_filter_keeps_by_patterns(config: FilterView, name: Seq<char>)
    ensures
        filter_keeps(config, name) <==> {
            &&& (forall|i: int| 0 <= i < config.included.len() ==> !glob_valid(#[trigger] config.included[i]))
                || (exists|i: int|
                0 <= i < config.included.len() && glob_valid(config.included[i]) && #[trigger] glob_match(
                    config.included[i],
                    name,
                ))
            &&& !exists|i: int|
                0 <= i < config.exclude.len() && glob_valid(config.exclude[i]) && #[trigger] glob_match(
                    config.exclude[i],
                    name,
                )
        },
{
    lemma_no_valid_patterns(config.included);
}

/// The files a filter of the given configuration keeps, in their order.
pub open spec fn filter_files(config: FilterView, files: Seq<FileView>) -> Seq<FileView>
    decreases files.len(),
{
    if files.len() == 0 {
        Seq::empty()
    } else if filter_keeps(config, files.last().filename) {
        filter_files(config, files.drop_last()).push(files.last())
    } else {
        filter_files(config, files.drop_last())
    }
}

/// Processor that filters files by include/exclude patterns.
pub struct FilterProcessor {
    config: FilterProcessorConfig,
    include_patterns: Vec<String>,
    exclude_patterns: Vec<String>,
}

impl FilterProcessor {
    /// The configuration this filter was built from.
    pub closed spec fn config_view(&self) -> FilterView {
        self.config@
    }

    #[verifier::type_invariant]
    spec fn compiled(&self) -> bool {
        &&& pattern_texts(self.include_patterns@) == valid_patterns(self.config@.included)
        &&& pattern_texts(self.exclude_patterns@) == valid_patterns(self.config@.exclude)
    }

    /// Builds a filter, keeping the patterns that compile.
    pub fn new(config: FilterProcessorConfig) -> (r: FilterProcessor)
        ensures
            r.config_view() == config@,
    {
        let include_patterns = compile_all(&config.included);
        let exclude_patterns = compile_all(&config.exclude);
        proof {
            assert(pattern_texts(config.included@) =~= config@.included);
            assert(pattern_texts(config.exclude@) =~= config@.exclude);
        }
        FilterProcessor { config, include_patterns, exclude_patterns }
    }

    /// Whether a file of this name passes the filter.
    pub fn should_include(&self, filename: &str) -> (r: bool)
        ensures
            r == filter_keeps(self.config_view(), filename@),
    {
        proof {
            use_type_invariant(self);
            lemma_any_matches_valid(self.config@.included, filename@);
            lemma_any_matches_valid(self.config@.exclude, filename@);
            lemma_valid_patterns_all_valid(self.config@.included);
            lemma_valid_patterns_all_valid(self.config@.exclude);
        }
        let included = if self.include_patterns.len() == 0 {
            true
        } else {
            matches_any(&self.include_patterns, filename)
        };
        let excluded = matches_any(&self.exclude_patterns, filename);
        included && !excluded
    }

    /// Keeps the files that pass the filter, in their order.
    pub fn process(&self, files: Vec<ProcessedFile>) -> (r: Result<Vec<ProcessedFile>>)
        ensures
            r matches Ok(v) && file_views(v@) == filter_files(self.config_view(), file_views(files@)),
    {
        let ghost input = file_views(files@);
        let mut kept: Vec<ProcessedFile> = Vec::new();
        for f in it: files.into_iter()
            invariant
                it.seq() == files@,
                input == file_views(files@),
                file_views(kept@) == filter_files(self.config_view(), input.take(it.index() as int)),
        {
            let ghost i = it.index() as int;
            proof {
                assert(f@ == input[i]);
                assert(input.take(i + 1).drop_last() =~= input.take(i));
                assert(input.take(i + 1).last() == input[i]);
            }
            if self.should_include(f.filename.as_str()) {
                kept.push(f);
                proof {
                    assert(file_views(kept@) =~= filter_files(self.config_view(), input.take(i)).push(input[i]));
                }
            }
        }
        proof {
            assert(input.take(input.len() as int) =~= input);
        }
        Ok(kept)
    }

    /// The name of this processor.
    pub fn name(&self) -> (r: &'static str)
        ensures
            r@ == "filter"@,
    {
        "filter"
    }
}

/// Filtering twice keeps what filtering once kept: a file that passed the
/// filter passes it again.
pub proof fn law_filter_idempotent(config: FilterView, files: Seq<FileView>)
    ensures
        filter_files(config, filter_files(config, files)) == filter_files(config, files),
    decreases files.len(),
{
    if files.len() > 0 {
        law_filter_idempotent(config, files.drop_last());
        let once = filter_files(config, files.drop_last());
        if filter_keeps(config, files.last().filename) {
            assert(once.push(files.last()).drop_last() =~= once);
        }
    }
}

/// The files a filter keeps are exactly those of the input that pass it,
/// in the order they came: the output is the input with the others removed.
pub proof fn law_filter_keeps_passing(config: FilterView, files: Seq<FileView>)
    ensures
        forall|i: int| 0 <= i < filter_files(config, files).len() ==>
            filter_keeps(config, (#[trigger] filter_files(config, files)[i]).filename)
                && files.contains(filter_files(config, files)[i]),
        forall|i: int| 0 <= i < files.len() && filter_keeps(config, files[i].filename) ==>
            filter_files(config, files).contains(#[trigger] files[i]),
        filter_files(config, files).len() <= files.len(),
    decreases files.len(),
{
    if files.len() > 0 {
        let init = files.drop_last();
        law_filter_keeps_passing(config, init);
        let out = filter_files(config, files);
        let prev = filter_files(config, init);
        assert forall|i: int| 0 <= i < out.len() implies filter_keeps(config, (#[trigger] out[i]).filename)
            && files.contains(out[i]) by {
            if i < prev.len() {
                assert(out[i] == prev[i]);
                assert(init.contains(prev[i]));
                let k = choose|k: int| 0 <= k < init.len() && init[k] == prev[i];
                assert(files[k] == init[k]);
            } else {
                assert(files[files.len() - 1] == out[i]);
            }
        }
        assert forall|i: int| 0 <= i < files.len() && filter_keeps(config, files[i].filename) implies out.contains(
            #[trigger] files[i],
        ) by {
            if i < files.len() - 1 {
                assert(init[i] == files[i]);
                assert(prev.contains(init[i]));
                let k = choose|k: int| 0 <= k < prev.len() && prev[k] == init[i];
                assert(out[k] == prev[k]);
            } else {
                assert(out[out.len() - 1] == files[i]);
            }
        }
    }
}

/// A filter with no patterns at all keeps every file.
pub proof fn law_filter_without_patterns_keeps_all(config: FilterView, files: Seq<FileView>)
    requires
        config.included.len() == 0,
        config.exclude.len() == 0,
    ensures
        filter_files(config, files) == files,
    decreases files.len(),
{
    if files.len() > 0 {
        law_filter_without_patterns_keeps_all(config, files.drop_last());
        assert(valid_patterns(config.included) =~= Seq::<Seq<char>>::empty());
        assert(files.drop_last().push(files.last()) =~= files);
    }
}

/// Filtering a concatenation filters each part: what happens to a file
/// does not depend on the files around it.
pub proof fn law_filter_concat(config: FilterView, a: Seq<FileView>, b: Seq<FileView>)
    ensures
        filter_files(config, a + b) == filter_files(config, a) + filter_files(config, b),
    decreases b.len(),
{
    if b.len() == 0 {
        assert(a + b =~= a);
        assert(filter_files(config, a) + filter_files(config, b) =~= filter_files(config, a));
    } else {
        law_filter_concat(config, a, b.drop_last());
        assert((a + b).drop_last() =~= a + b.drop_last());
        assert((a + b).last() == b.last());
        if filter_keeps(config, b.last().filename) {
            assert(filter_files(config, a) + filter_files(config, b.drop_last()).push(b.last())
                =~= (filter_files(config, a) + filter_files(config, b.drop_last())).push(b.last()));
        }
    }
}

} // verus!
