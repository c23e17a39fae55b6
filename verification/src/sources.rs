//! What a directory listing holds: sources to compile, headers to publish.

use vstd::prelude::*;
use vstd::string::*;
use crate::names::{ends_with, has_suffix, join_path, joined};

verus! {

/// The files of one directory that matter to a build, each as a path that
/// starts with the directory, in the order in which they were listed.
#[derive(Debug, PartialEq, Eq)]
pub struct SourceSet {
    /// The files that end in `.c`.
    pub compilable_files: Vec<String>,
    /// The files that end in `.h`.
    pub header_files: Vec<String>,
}

/// A `SourceSet` as plain text.
pub struct SourcesView {
    pub compilable_files: Seq<Seq<char>>,
    pub header_files: Seq<Seq<char>>,
}

impl View for SourceSet {
    type V = SourcesView;

    open spec fn view(&self) -> SourcesView {
        SourcesView {
            compilable_files: self.compilable_files.deep_view(),
            header_files: self.header_files.deep_view(),
        }
    }
}

/// The names that end with `suffix`, in their order.
pub open spec fn ending_with(names: Seq<Seq<char>>, suffix: Seq<char>) -> Seq<Seq<char>> {
    names.filter(|name: Seq<char>| ends_with(name, suffix))
}

/// Each name as a path under `directory`.
pub open spec fn placed_under(directory: Seq<char>, names: Seq<Seq<char>>) -> Seq<Seq<char>> {
    names.map_values(|name: Seq<char>| joined(directory, name))
}

/// What a listing of `directory` yields: its `.c` entries and its `.h`
/// entries, each under the directory. Other entries are passed over, and
/// nothing below the directory's own entries is looked at.
pub open spec fn discovered(directory: Seq<char>, entries: Seq<Seq<char>>) -> SourcesView {
    SourcesView {
        compilable_files: placed_under(directory, ending_with(entries, ".c"@)),
        header_files: placed_under(directory, ending_with(entries, ".h"@)),
    }
}

/// Selecting by suffix goes through a sequence one name at a time.
pub proof fn lemma_ending_with_push(names: Seq<Seq<char>>, suffix: Seq<char>, name: Seq<char>)
    ensures
        ending_with(names.push(name), suffix) == if ends_with(name, suffix) {
            ending_with(names, suffix).push(name)
        } else {
            ending_with(names, suffix)
        },
{
    reveal(Seq::filter);
    assert(names.push(name).drop_last() =~= names);
}

/// Every selected name ends with the suffix, and every listed name that
/// ends with it is selected.
pub proof fn lemma_ending_with_exact(names: Seq<Seq<char>>, suffix: Seq<char>)
    ensures
        forall|i: int|
            0 <= i < ending_with(names, suffix).len() ==> ends_with(
                #[trigger] ending_with(names, suffix)[i],
                suffix,
            ) && names.contains(ending_with(names, suffix)[i]),
        forall|i: int|
            0 <= i < names.len() && ends_with(names[i], suffix) ==> ending_with(
                names,
                suffix,
            ).contains(#[trigger] names[i]),
    decreases names.len(),
{
    reveal(Seq::filter);
    if names.len() > 0 {
        let front = names.drop_last();
        let last = names.last();
        lemma_ending_with_exact(front, suffix);
        lemma_ending_with_push(front, suffix, last);
        let picked = ending_with(names, suffix);
        let before = ending_with(front, suffix);
        assert forall|i: int| 0 <= i < picked.len() implies ends_with(#[trigger] picked[i], suffix)
            && names.contains(picked[i]) by {
            if i < before.len() {
                let k = choose|k: int| 0 <= k < front.len() && front[k] == before[i];
                assert(names[k] == picked[i]);
            } else {
                assert(names[names.len() - 1] == picked[i]);
            }
        }
        assert forall|i: int| 0 <= i < names.len() && ends_with(names[i], suffix) implies picked.contains(
            #[trigger] names[i],
        ) by {
            if i < front.len() {
                let k = choose|k: int| 0 <= k < before.len() && before[k] == front[i];
                assert(picked[k] == names[i]);
            } else {
                assert(picked[picked.len() - 1] == names[i]);
            }
        }
    }
}

/// The names in `names` that end with `suffix`, in their order.
pub fn select_by_suffix(names: &Vec<String>, suffix: &str) -> (picked: Vec<String>)
    ensures
        picked.deep_view() == ending_with(names.deep_view(), suffix@),
{
    let ghost texts = names.deep_view();
    let mut picked: Vec<String> = Vec::new();
    let mut i: usize = 0;
    proof {
        reveal(Seq::filter);
    }
    while i < names.len()
        invariant
            texts == names.deep_view(),
            i <= names.len(),
            picked.deep_view() == ending_with(texts.take(i as int), suffix@),
        decreases names.len() - i,
    {
        proof {
            assert(texts.take(i + 1) =~= texts.take(i as int).push(texts[i as int]));
            lemma_ending_with_push(texts.take(i as int), suffix@, texts[i as int]);
        }
        if has_suffix(names[i].as_str(), suffix) {
            picked.push(names[i].clone());
        }
        i += 1;
    }
    assert(texts.take(i as int) =~= texts);
    picked
}

/// Each of `names` as a path under `directory`, in their order.
pub fn place_under(directory: &str, names: &Vec<String>) -> (paths: Vec<String>)
    ensures
        paths.deep_view() == placed_under(directory@, names.deep_view()),
{
    let ghost texts = names.deep_view();
    let mut paths: Vec<String> = Vec::new();
    let mut i: usize = 0;
    while i < names.len()
        invariant
            texts == names.deep_view(),
            i <= names.len(),
            paths.len() == i,
            forall|k: int| 0 <= k < i ==> #[trigger] paths[k]@ == joined(directory@, texts[k]),
        decreases names.len() - i,
    {
        paths.push(join_path(directory, names[i].as_str()));
        i += 1;
    }
    paths
}

/// Sorts the entries of `directory` into sources and headers.
pub fn discover(directory: &str, entries: &Vec<String>) -> (found: SourceSet)
    ensures
        found@ == discovered(directory@, entries.deep_view()),
{
    let sources = select_by_suffix(entries, ".c");
    let headers = select_by_suffix(entries, ".h");
    SourceSet {
        compilable_files: place_under(directory, &sources),
        header_files: place_under(directory, &headers),
    }
}

} // verus!
