//! Saved configuration files: which files are configurations, what they
//! are called, and in which order they are offered. Listing directories is
//! left to the caller.

use vstd::prelude::*;

use crate::paths::{extension_of, lowercase, path_extension, path_stem, stem_of, to_lowercase};
use crate::text::{
    lemma_text_less_asymmetric, lemma_text_not_after_transitive, text_before, text_equals, text_less,
};

verus! {

/// A discovered config file entry.
#[derive(Debug)]
pub struct ConfigEntry {
    pub name: String,
    pub path: String,
}

/// An entry as text.
pub ghost struct EntryView {
    pub name: Seq<char>,
    pub path: Seq<char>,
}

impl View for ConfigEntry {
    type V = EntryView;

    open spec fn view(&self) -> EntryView {
        EntryView { name: self.name@, path: self.path@ }
    }
}

/// The views of a list of entries.
pub open spec fn entry_views(entries: Seq<ConfigEntry>) -> Seq<EntryView> {
    Seq::new(entries.len(), |i: int| entries[i]@)
}

/// A configuration file's (lowercased) extension: `toml`, `yaml`, `yml`
/// or `json`.
pub open spec fn is_config_extension(ext: Seq<char>) -> bool {
    ext == "toml"@ || ext == "yaml"@ || ext == "yml"@ || ext == "json"@
}

/// The entry for a file, where it is a configuration file: named by the
/// file's stem (`unknown` where it has none).
pub open spec fn entry_for(path: Seq<char>) -> Option<EntryView> {
    let ext = match path_extension(path) {
        Some(e) => lowercase(e),
        None => lowercase(Seq::empty()),
    };
    if is_config_extension(ext) {
        Some(
            EntryView {
                name: match path_stem(path) {
                    Some(s) => s,
                    None => "unknown"@,
                },
                path,
            },
        )
    } else {
        None
    }
}

/// The entries of the configuration files among `paths`, in order.
pub open spec fn entries_for(paths: Seq<Seq<char>>) -> Seq<EntryView>
    decreases paths.len(),
{
    if paths.len() == 0 {
        Seq::empty()
    } else {
        match entry_for(paths.last()) {
            Some(e) => entries_for(paths.drop_last()).push(e),
            None => entries_for(paths.drop_last()),
        }
    }
}

/// Entries in order of their names.
pub open spec fn sorted_by_name(entries: Seq<EntryView>) -> bool {
    forall|i: int, j: int| 0 <= i < j < entries.len() ==> !text_less(entries[j].name, entries[i].name)
}

/// The local entries, then each global entry whose name is not taken yet.
pub open spec fn merged(local: Seq<EntryView>, global: Seq<EntryView>) -> Seq<EntryView>
    decreases global.len(),
{
    if global.len() == 0 {
        local
    } else {
        let m = merged(local, global.drop_last());
        if exists|k: int| 0 <= k < m.len() && m[k].name == global.last().name {
            m
        } else {
            m.push(global.last())
        }
    }
}

/// The entry for a file, where it is a configuration file.
pub fn config_entry(path: &str) -> (r: Option<ConfigEntry>)
    ensures
        match r {
            Some(e) => entry_for(path@) == Some(e@),
            None => entry_for(path@) is None,
        },
{
    let ext = match extension_of(path) {
        Some(e) => to_lowercase(e.as_str()),
        None => to_lowercase(""),
    };
    proof {
        reveal_strlit("");
        assert(""@ =~= Seq::<char>::empty());
        assert(ext@ == match path_extension(path@) {
            Some(e) => lowercase(e),
            None => lowercase(Seq::empty()),
        });
    }
    if text_equals(ext.as_str(), "toml") || text_equals(ext.as_str(), "yaml") || text_equals(ext.as_str(), "yml")
        || text_equals(ext.as_str(), "json") {
        let name = match stem_of(path) {
            Some(s) => s,
            None => String::from_str("unknown"),
        };
        Some(ConfigEntry { name, path: String::from_str(path) })
    } else {
        None
    }
}

/// Whether an entry has the given name.
pub open spec fn name_is(name: Seq<char>) -> spec_fn(EntryView) -> bool {
    |x: EntryView| x.name == name
}

/// The entries of a list that have the given name, in their order.
pub open spec fn named(s: Seq<EntryView>, name: Seq<char>) -> Seq<EntryView> {
    s.filter(name_is(name))
}

/// Inserts an entry after the entries whose names do not come after its
/// name, keeping the list in order of names; among entries of its name it
/// comes last.
fn insert_by_name(entries: &mut Vec<ConfigEntry>, e: ConfigEntry)
    requires
        sorted_by_name(entry_views(old(entries)@)),
    ensures
        sorted_by_name(entry_views(final(entries)@)),
        entry_views(final(entries)@).to_multiset() == entry_views(old(entries)@).to_multiset().insert(e@),
        forall|n: Seq<char>| #[trigger] named(entry_views(final(entries)@), n) == if n == e@.name {
            named(entry_views(old(entries)@), n).push(e@)
        } else {
            named(entry_views(old(entries)@), n)
        },
{
    let ghost s = entry_views(entries@);
    let mut p = entries.len();
    while p > 0 && text_before(e.name.as_str(), entries[p - 1].name.as_str())
        invariant
            p <= entries@.len(),
            s == entry_views(entries@),
            forall|i: int| p <= i < s.len() ==> text_less(e@.name, #[trigger] s[i].name),
        decreases p,
    {
        p = p - 1;
    }
    proof {
        assert forall|i: int| 0 <= i < p implies !text_less(e@.name, #[trigger] s[i].name) by {
            if i < p - 1 {
                lemma_text_not_after_transitive(s[i].name, s[p - 1].name, e@.name);
            }
        }
        assert forall|i: int| p <= i < s.len() implies !text_less(#[trigger] s[i].name, e@.name) by {
            lemma_text_less_asymmetric(e@.name, s[i].name);
        }
    }
    let ghost ev = e@;
    entries.insert(p, e);
    let ghost t = entry_views(entries@);
    proof {
        assert(t =~= s.insert(p as int, ev));
        assert forall|i: int, j: int| 0 <= i < j < t.len() implies !text_less(t[j].name, t[i].name) by {
            if i < p && j < p {
                assert(t[i] == s[i] && t[j] == s[j]);
            } else if i < p && j == p {
            } else if i < p && j > p {
                assert(t[i] == s[i] && t[j] == s[j - 1]);
            } else if i == p {
                assert(t[j] == s[j - 1]);
            } else {
                assert(t[i] == s[i - 1] && t[j] == s[j - 1]);
            }
        }
        s.insert_ensures(p as int, ev);
        vstd::seq_lib::lemma_multiset_commutative(s.subrange(0, p as int), seq![ev] + s.subrange(p as int, s.len() as int));
        assert(s =~= s.subrange(0, p as int) + s.subrange(p as int, s.len() as int));
        assert(t =~= s.subrange(0, p as int) + (seq![ev] + s.subrange(p as int, s.len() as int)));
        vstd::seq_lib::lemma_multiset_commutative(s.subrange(0, p as int), s.subrange(p as int, s.len() as int));
        vstd::seq_lib::lemma_multiset_commutative(seq![ev], s.subrange(p as int, s.len() as int));
        assert(seq![ev].to_multiset() =~= vstd::multiset::Multiset::<EntryView>::empty().insert(ev)) by {
            broadcast use vstd::seq_lib::group_to_multiset_ensures;
            assert(seq![ev] =~= Seq::<EntryView>::empty().push(ev));
        }
        assert(t.to_multiset() =~= s.to_multiset().insert(ev));
        let a = s.subrange(0, p as int);
        let b = s.subrange(p as int, s.len() as int);
        assert(s =~= a + b);
        assert(t =~= a.push(ev) + b);
        assert forall|n: Seq<char>| #[trigger] named(t, n) == if n == ev.name {
            named(s, n).push(ev)
        } else {
            named(s, n)
        } by {
            let pred = name_is(n);
            Seq::filter_distributes_over_add(a.push(ev), b, pred);
            Seq::filter_distributes_over_add(a, b, pred);
            a.lemma_filter_push(ev, pred);
            if n == ev.name {
                assert forall|i: int| 0 <= i < b.len() implies !pred(#[trigger] b[i]) by {
                    assert(b[i] == s[p + i]);
                    if b[i].name == ev.name {
                        lemma_text_less_asymmetric(ev.name, b[i].name);
                    }
                }
                assert(b.all(|x: EntryView| !pred(x)));
                b.lemma_all_neg_filter_empty(pred);
                assert(b.filter(pred) =~= Seq::<EntryView>::empty());
                assert(a.filter(pred).push(ev) + b.filter(pred) =~= (a.filter(pred) + b.filter(pred)).push(ev));
            }
        }
    }
}

/// Sorts entries by name; entries of equal names keep their order.
pub fn sort_by_name(entries: Vec<ConfigEntry>) -> (r: Vec<ConfigEntry>)
    ensures
        sorted_by_name(entry_views(r@)),
        entry_views(r@).to_multiset() == entry_views(entries@).to_multiset(),
        forall|n: Seq<char>| #[trigger] named(entry_views(r@), n) == named(entry_views(entries@), n),
{
    let ghost all = entry_views(entries@);
    let mut out: Vec<ConfigEntry> = Vec::new();
    assert(entry_views(out@) =~= all.take(0));
    proof {
        assert forall|n: Seq<char>| #[trigger] named(entry_views(out@), n) == named(all.take(0), n) by {
            assert(all.take(0) =~= entry_views(out@));
        }
    }
    for e in it: entries.into_iter()
        invariant
            it.seq() == entries@,
            all == entry_views(entries@),
            sorted_by_name(entry_views(out@)),
            entry_views(out@).to_multiset() == all.take(it.index() as int).to_multiset(),
            forall|n: Seq<char>| #[trigger] named(entry_views(out@), n) == named(all.take(it.index() as int), n),
    {
        let ghost k = it.index() as int;
        proof {
            assert(e@ == all[k]);
            assert(all.take(k + 1) =~= all.take(k).push(all[k]));
            broadcast use vstd::seq_lib::group_to_multiset_ensures;
        }
        insert_by_name(&mut out, e);
        proof {
            assert forall|n: Seq<char>| #[trigger] named(entry_views(out@), n) == named(all.take(k + 1), n) by {
                all.take(k).lemma_filter_push(all[k], name_is(n));
            }
        }
    }
    proof {
        assert(all.take(all.len() as int) =~= all);
    }
    out
}

/// The configuration files among the files of a directory, in order of
/// their names.
pub fn entries_from_files(paths: &Vec<String>) -> (r: Vec<ConfigEntry>)
    ensures
        sorted_by_name(entry_views(r@)),
        entry_views(r@).to_multiset() == entries_for(paths@.map_values(|p: String| p@)).to_multiset(),
{
    let ghost ps = paths@.map_values(|p: String| p@);
    let mut found: Vec<ConfigEntry> = Vec::new();
    let mut i: usize = 0;
    while i < paths.len()
        invariant
            i <= paths@.len(),
            ps == paths@.map_values(|p: String| p@),
            entry_views(found@) == entries_for(ps.take(i as int)),
        decreases paths.len() - i,
    {
        assert(ps.take(i as int + 1).drop_last() =~= ps.take(i as int));
        match config_entry(paths[i].as_str()) {
            Some(e) => {
                let ghost before = entry_views(found@);
                found.push(e);
                assert(entry_views(found@) =~= before.push(e@));
            },
            None => {},
        }
        i = i + 1;
    }
    assert(ps.take(paths@.len() as int) =~= ps);
    sort_by_name(found)
}

/// Whether some entry has this name.
fn has_name(entries: &Vec<ConfigEntry>, name: &str) -> (r: bool)
    ensures
        r == exists|k: int| 0 <= k < entries@.len() && entries@[k]@.name == name@,
{
    let mut i: usize = 0;
    while i < entries.len()
        invariant
            i <= entries@.len(),
            forall|k: int| 0 <= k < i ==> entries@[k]@.name != name@,
        decreases entries.len() - i,
    {
        if text_equals(entries[i].name.as_str(), name) {
            return true;
        }
        i = i + 1;
    }
    false
}

/// The local entries and the global ones whose names are not taken by a
/// local one, in order of their names.
pub fn merge_entries(local: Vec<ConfigEntry>, global: Vec<ConfigEntry>) -> (r: Vec<ConfigEntry>)
    ensures
        sorted_by_name(entry_views(r@)),
        entry_views(r@).to_multiset() == merged(entry_views(local@), entry_views(global@)).to_multiset(),
{
    let ghost l = entry_views(local@);
    let ghost g = entry_views(global@);
    let mut entries = local;
    for ge in it: global.into_iter()
        invariant
            it.seq() == global@,
            g == entry_views(global@),
            entry_views(entries@) == merged(l, g.take(it.index() as int)),
    {
        let ghost k = it.index() as int;
        assert(g.take(k + 1).drop_last() =~= g.take(k));
        assert(ge@ == g[k]);
        let ghost m = entry_views(entries@);
        if !has_name(&entries, ge.name.as_str()) {
            entries.push(ge);
            assert(entry_views(entries@) =~= m.push(g[k]));
            assert(!exists|j: int| 0 <= j < m.len() && m[j].name == g[k].name);
        } else {
            let ghost w = choose|j: int| 0 <= j < entries@.len() && entries@[j]@.name == g[k].name;
            assert(m[w].name == g[k].name);
        }
    }
    assert(g.take(g.len() as int) =~= g);
    sort_by_name(entries)
}

/// An entry is offered for each configuration file, and only for those.
pub proof fn law_entries_are_config_files(paths: Seq<Seq<char>>)
    ensures
        forall|i: int| 0 <= i < entries_for(paths).len() ==> is_config_extension(
            match path_extension(#[trigger] entries_for(paths)[i].path) {
                Some(e) => lowercase(e),
                None => lowercase(Seq::empty()),
            },
        ),
    decreases paths.len(),
{
    if paths.len() > 0 {
        law_entries_are_config_files(paths.drop_last());
        let prev = entries_for(paths.drop_last());
        let cur = entries_for(paths);
        assert forall|i: int| 0 <= i < cur.len() implies is_config_extension(
            match path_extension(#[trigger] cur[i].path) {
                Some(e) => lowercase(e),
                None => lowercase(Seq::empty()),
            },
        ) by {
            if i < prev.len() {
                assert(cur[i] == prev[i]);
            }
        }
    }
}

/// A local configuration shadows a global one of the same name: merging
/// keeps every local entry, and no name is offered twice that was not
/// already twice among the local entries.
pub proof fn law_local_entries_shadow_global(local: Seq<EntryView>, global: Seq<EntryView>)
    ensures
        local.len() <= merged(local, global).len(),
        merged(local, global).subrange(0, local.len() as int) == local,
        forall|i: int| local.len() <= i < merged(local, global).len() ==> forall|k: int| 0 <= k < i ==>
            merged(local, global)[k].name != #[trigger] merged(local, global)[i].name,
    decreases global.len(),
{
    if global.len() > 0 {
        law_local_entries_shadow_global(local, global.drop_last());
        let m = merged(local, global.drop_last());
        let cur = merged(local, global);
        if !(exists|k: int| 0 <= k < m.len() && m[k].name == global.last().name) {
            assert(cur.subrange(0, local.len() as int) =~= m.subrange(0, local.len() as int));
            assert forall|i: int| local.len() <= i < cur.len() implies forall|k: int| 0 <= k < i ==>
                cur[k].name != #[trigger] cur[i].name by {
                if i < m.len() {
                    assert(cur[i] == m[i]);
                    assert forall|k: int| 0 <= k < i implies cur[k].name != #[trigger] cur[i].name by {
                        assert(cur[k] == m[k]);
                    }
                } else {
                    assert forall|k: int| 0 <= k < i implies cur[k].name != #[trigger] cur[i].name by {
                        assert(cur[k] == m[k]);
                    }
                }
            }
        }
    }
}

} // verus!
