//! Shell-style file name patterns (`*.xml`, `data_?.rdf`, `[!_]*`), as the
//! `glob` crate compiles and matches them.

use vstd::prelude::*;

verus! {

/// Whether `glob::Pattern::new` accepts a pattern text.
pub uninterp spec fn glob_valid(pattern: Seq<char>) -> bool;

/// Whether a compiled pattern's `glob::Pattern::matches` accepts a name.
pub uninterp spec fn glob_match(pattern: Seq<char>, name: Seq<char>) -> bool;

/// Calls `glob::Pattern::new` and reports whether it succeeded.
/// Claims: the answer is `glob_valid` of the pattern text.
#[verifier::external_body]
pub(crate) fn pattern_is_valid(pattern: &str) -> (r: bool)
    ensures
        r == glob_valid(pattern@),
{
    glob::Pattern::new(pattern).is_ok()
}

/// Compiles a valid pattern with `glob::Pattern::new` and calls
/// `glob::Pattern::matches` on `name`.
/// Claims: the answer is `glob_match` of the pattern text and the name.
#[verifier::external_body]
pub(crate) fn pattern_matches(pattern: &str, name: &str) -> (r: bool)
    requires
        glob_valid(pattern@),
    ensures
        r == glob_match(pattern@, name@),
{
    match glob::Pattern::new(pattern) {
        Ok(p) => p.matches(name),
        Err(_) => false,
    }
}

/// The patterns of `patterns` that compile, in their order.
pub open spec fn valid_patterns(patterns: Seq<Seq<char>>) -> Seq<Seq<char>>
    decreases patterns.len(),
{
    if patterns.len() == 0 {
        Seq::empty()
    } else if glob_valid(patterns.last()) {
        valid_patterns(patterns.drop_last()).push(patterns.last())
    } else {
        valid_patterns(patterns.drop_last())
    }
}

/// Some pattern of `patterns` compiles and matches `name`.
pub open spec fn any_matches(patterns: Seq<Seq<char>>, name: Seq<char>) -> bool {
    exists|i: int| 0 <= i < patterns.len() && glob_valid(patterns[i]) && glob_match(patterns[i], name)
}

/// The texts of a list of strings.
pub open spec fn pattern_texts(patterns: Seq<String>) -> Seq<Seq<char>> {
    Seq::new(patterns.len(), |i: int| patterns[i]@)
}

/// Whether some pattern of the list compiles and matches `name`; a pattern
/// that does not compile matches nothing.
pub fn matches_any(patterns: &Vec<String>, name: &str) -> (r: bool)
    ensures
        r == any_matches(pattern_texts(patterns@), name@),
{
    let ghost texts = pattern_texts(patterns@);
    let mut i: usize = 0;
    while i < patterns.len()
        invariant
            i <= patterns.len(),
            texts == pattern_texts(patterns@),
            forall|j: int| 0 <= j < i ==> !(glob_valid(texts[j]) && glob_match(texts[j], name@)),
        decreases patterns.len() - i,
    {
        let p = patterns[i].as_str();
        if pattern_is_valid(p) && pattern_matches(p, name) {
            assert(glob_valid(texts[i as int]) && glob_match(texts[i as int], name@));
            return true;
        }
        i = i + 1;
    }
    false
}

/// The patterns of the list that compile, in their order.
pub fn compile_all(patterns: &Vec<String>) -> (r: Vec<String>)
    ensures
        pattern_texts(r@) == valid_patterns(pattern_texts(patterns@)),
{
    let ghost texts = pattern_texts(patterns@);
    let mut out: Vec<String> = Vec::new();
    let mut i: usize = 0;
    while i < patterns.len()
        invariant
            i <= patterns.len(),
            texts == pattern_texts(patterns@),
            pattern_texts(out@) == valid_patterns(texts.take(i as int)),
        decreases patterns.len() - i,
    {
        assert(texts.take(i as int + 1).drop_last() =~= texts.take(i as int));
        let p = patterns[i].clone();
        if pattern_is_valid(p.as_str()) {
            out.push(p);
            assert(pattern_texts(out@) =~= valid_patterns(texts.take(i as int)).push(texts[i as int]));
        }
        i = i + 1;
    }
    assert(texts.take(patterns.len() as int) =~= texts);
    out
}

/// Every pattern of a list of valid patterns compiles.
pub proof fn lemma_valid_patterns_all_valid(patterns: Seq<Seq<char>>)
    ensures
        forall|i: int| 0 <= i < valid_patterns(patterns).len() ==> glob_valid(#[trigger] valid_patterns(patterns)[i]),
    decreases patterns.len(),
{
    if patterns.len() > 0 {
        lemma_valid_patterns_all_valid(patterns.drop_last());
        let v = valid_patterns(patterns);
        let w = valid_patterns(patterns.drop_last());
        assert forall|i: int| 0 <= i < v.len() implies glob_valid(#[trigger] v[i]) by {
            if i < w.len() {
                assert(v[i] == w[i]);
            }
        }
    }
}

/// A name matches some compiling pattern of a list exactly when it matches
/// some pattern kept by `valid_patterns`.
pub proof fn lemma_any_matches_valid(patterns: Seq<Seq<char>>, name: Seq<char>)
    ensures
        any_matches(valid_patterns(patterns), name) == any_matches(patterns, name),
    decreases patterns.len(),
{
    if patterns.len() > 0 {
        let init = patterns.drop_last();
        lemma_any_matches_valid(init, name);
        let v = valid_patterns(patterns);
        if any_matches(patterns, name) {
            let i = choose|i: int| 0 <= i < patterns.len() && glob_valid(patterns[i]) && glob_match(patterns[i], name);
            if i < patterns.len() - 1 {
                assert(init[i] == patterns[i]);
                assert(any_matches(init, name));
                let k = choose|k: int| 0 <= k < valid_patterns(init).len() && glob_valid(valid_patterns(init)[k]) && glob_match(valid_patterns(init)[k], name);
                assert(v[k] == valid_patterns(init)[k]);
            } else {
                assert(v[v.len() - 1] == patterns.last());
            }
        }
        if any_matches(v, name) {
            let k = choose|k: int| 0 <= k < v.len() && glob_valid(v[k]) && glob_match(v[k], name);
            if k < valid_patterns(init).len() {
                assert(valid_patterns(init)[k] == v[k]);
                assert(any_matches(valid_patterns(init), name));
                let i = choose|i: int| 0 <= i < init.len() && glob_valid(init[i]) && glob_match(init[i], name);
                assert(patterns[i] == init[i]);
            } else {
                assert(patterns[patterns.len() - 1] == v[k]);
            }
        }
    }
}

} // verus!
