//! Where the shared cache of downloaded artifacts lives.
//!
//! The cache directory is found in three steps, the first that applies
//! winning: below the build-output root, if the environment names one; else
//! below the nearest directory at or above the working directory that holds
//! a `Cargo.lock`; else at a fixed path relative to the working directory.
//!
//! Looking for `Cargo.lock` means asking the file system, which this crate
//! does not do. A `DepsSearch` therefore names the file it wants to know
//! about, the caller looks, and the answer moves the search on.

use vstd::prelude::*;
use crate::paths::{ancestors, join_path, joined, path_ancestors};

verus! {

/// The environment variable that names the build-output root.
pub const TARGET_DIR_VAR: &'static str = "CARGO_TARGET_DIR";

/// The file whose presence marks the root of a build tree.
pub const MARKER_FILE: &'static str = "Cargo.lock";

/// The cache directory when neither the environment nor a marker decides.
pub const FALLBACK_DEPS_PATH: &'static str = "target/wasm32-wasi/wasi-deps";

/// The marker file of directory `dir`.
pub open spec fn marker_in(dir: Seq<char>) -> Seq<char> {
    joined(dir, MARKER_FILE@)
}

/// The cache directory below the build-output root `target_dir`.
pub open spec fn deps_under_target_dir(target_dir: Seq<char>) -> Seq<char> {
    joined(joined(target_dir, "wasm32-wasi"@), "wasi-deps"@)
}

/// The cache directory of the build tree rooted at `root`.
pub open spec fn deps_under_build_root(root: Seq<char>) -> Seq<char> {
    joined(joined(joined(root, "target"@), "wasm32-wasi"@), "wasi-deps"@)
}

/// The first of `dirs` whose marker file is among `existing`, if any.
pub open spec fn first_marked(dirs: Seq<Seq<char>>, existing: Set<Seq<char>>) -> Option<Seq<char>>
    decreases dirs.len(),
{
    if dirs.len() == 0 {
        None
    } else if existing.contains(marker_in(dirs[0])) {
        Some(dirs[0])
    } else {
        first_marked(dirs.drop_first(), existing)
    }
}

/// The cache directory below the nearest of `dirs` that holds a marker, or
/// the fallback if none does.
pub open spec fn deps_among(dirs: Seq<Seq<char>>, existing: Set<Seq<char>>) -> Seq<char> {
    match first_marked(dirs, existing) {
        Some(root) => deps_under_build_root(root),
        None => FALLBACK_DEPS_PATH@,
    }
}

/// The cache directory for a process whose environment holds `target_dir`
/// (if set), whose working directory is `cwd` (if it can be had), on a file
/// system where exactly the files in `existing` exist.
pub open spec fn deps_path(
    target_dir: Option<Seq<char>>,
    cwd: Option<Seq<char>>,
    existing: Set<Seq<char>>,
) -> Seq<char> {
    match target_dir {
        Some(root) => deps_under_target_dir(root),
        None => match cwd {
            Some(dir) => deps_among(ancestors(dir), existing),
            None => FALLBACK_DEPS_PATH@,
        },
    }
}

/// A search for the cache directory, as a mathematical state.
pub enum Search {
    /// The markers of these directories are still to be looked for, the
    /// first of them next.
    Probing(Seq<Seq<char>>),
    /// The cache directory is known.
    Resolved(Seq<char>),
}

impl Search {
    /// A search that is probing always has a directory to probe.
    pub open spec fn wf(self) -> bool {
        self matches Search::Probing(dirs) ==> dirs.len() > 0
    }

    /// The search that has `dirs` left to probe.
    pub open spec fn over(dirs: Seq<Seq<char>>) -> Search {
        if dirs.len() > 0 {
            Search::Probing(dirs)
        } else {
            Search::Resolved(FALLBACK_DEPS_PATH@)
        }
    }

    /// The search as it starts.
    pub open spec fn start(target_dir: Option<Seq<char>>, cwd: Option<Seq<char>>) -> Search {
        match target_dir {
            Some(root) => Search::Resolved(deps_under_target_dir(root)),
            None => match cwd {
                Some(dir) => Search::over(ancestors(dir)),
                None => Search::Resolved(FALLBACK_DEPS_PATH@),
            },
        }
    }

    /// The file whose existence the search asks about next.
    pub open spec fn probe(self) -> Option<Seq<char>> {
        match self {
            Search::Probing(dirs) => Some(marker_in(dirs[0])),
            Search::Resolved(_) => None,
        }
    }

    /// The cache directory, once known.
    pub open spec fn path(self) -> Option<Seq<char>> {
        match self {
            Search::Probing(_) => None,
            Search::Resolved(path) => Some(path),
        }
    }

    /// The search after hearing whether the probed file exists.
    pub open spec fn answer(self, marker_exists: bool) -> Search {
        match self {
            Search::Probing(dirs) => if marker_exists {
                Search::Resolved(deps_under_build_root(dirs[0]))
            } else {
                Search::over(dirs.drop_first())
            },
            Search::Resolved(_) => self,
        }
    }

    /// Where the search ends if every answer is read off `existing`.
    pub open spec fn outcome(self, existing: Set<Seq<char>>) -> Seq<char> {
        match self {
            Search::Probing(dirs) => deps_among(dirs, existing),
            Search::Resolved(path) => path,
        }
    }

    /// How many probes the search can still make at most.
    pub open spec fn probes_left(self) -> nat {
        match self {
            Search::Probing(dirs) => dirs.len(),
            Search::Resolved(_) => 0,
        }
    }
}

/// `states` is what a caller goes through who answers every probe by
/// looking at a file system on which exactly the files in `existing` exist.
pub open spec fn is_run(states: Seq<Search>, existing: Set<Seq<char>>) -> bool {
    &&& states.len() > 0
    &&& forall|i: int|
        #![trigger states[i]]
        0 <= i < states.len() - 1 ==> states[i].probe() is Some && states[i + 1]
            == states[i].answer(existing.contains(states[i].probe()->0))
}

/// The text of an optional string.
pub open spec fn text_of(s: Option<&str>) -> Option<Seq<char>> {
    match s {
        Some(s) => Some(s@),
        None => None,
    }
}

/// A search for the cache directory in progress.
#[derive(Debug)]
pub struct DepsSearch {
    /// The working directory and its ancestors, nearest first.
    dirs: Vec<String>,
    /// How many of `dirs` were probed without finding a marker.
    probed: usize,
    /// The cache directory, once the environment or a marker has decided.
    found: Option<String>,
}

impl View for DepsSearch {
    type V = Search;

    closed spec fn view(&self) -> Search {
        match self.found {
            Some(path) => Search::Resolved(path@),
            None => if self.probed < self.dirs.len() {
                Search::Probing(self.dirs.deep_view().skip(self.probed as int))
            } else {
                Search::Resolved(FALLBACK_DEPS_PATH@)
            },
        }
    }
}

/// Starts the search for the cache directory.
///
/// `target_dir` is the value of `CARGO_TARGET_DIR` if the variable is set,
/// `cwd` the working directory if there is one. With `target_dir` given the
/// search is over at once and nothing is probed. Without it, the first
/// directory probed is the working directory itself.
pub fn find_deps_path(target_dir: Option<&str>, cwd: Option<&str>) -> (search: DepsSearch)
    ensures
        search@ == Search::start(text_of(target_dir), text_of(cwd)),
        search@.wf(),
        target_dir is None && cwd is Some ==> (search@ matches Search::Probing(dirs)
            && dirs[0] == cwd->0@),
{
    match target_dir {
        Some(root) => {
            let target = join_path(root, "wasm32-wasi");
            let path = join_path(target.as_str(), "wasi-deps");
            DepsSearch { dirs: Vec::new(), probed: 0, found: Some(path) }
        },
        None => match cwd {
            Some(dir) => {
                let dirs = path_ancestors(dir);
                assert(dirs.deep_view().skip(0) == dirs.deep_view());
                DepsSearch { dirs, probed: 0, found: None }
            },
            None => DepsSearch { dirs: Vec::new(), probed: 0, found: None },
        },
    }
}

impl DepsSearch {
    /// The file whose existence decides how the search goes on, or `None`
    /// if the cache directory is known.
    pub fn marker_to_probe(&self) -> (marker: Option<String>)
        ensures
            match marker {
                Some(file) => self@.probe() == Some(file@),
                None => self@.probe() is None,
            },
    {
        if self.found.is_none() && self.probed < self.dirs.len() {
            Some(join_path(self.dirs[self.probed].as_str(), MARKER_FILE))
        } else {
            None
        }
    }

    /// Moves the search on, given whether the file named by
    /// `marker_to_probe` exists. A search that is over stays as it is.
    pub fn answer(self, marker_exists: bool) -> (next: DepsSearch)
        ensures
            next@ == self@.answer(marker_exists),
            next@.wf(),
    {
        if self.found.is_some() || self.probed >= self.dirs.len() {
            return self;
        }
        if marker_exists {
            let target = join_path(self.dirs[self.probed].as_str(), "target");
            let triple = join_path(target.as_str(), "wasm32-wasi");
            let path = join_path(triple.as_str(), "wasi-deps");
            DepsSearch { dirs: self.dirs, probed: self.probed, found: Some(path) }
        } else {
            assert(self.dirs.deep_view().skip(self.probed as int).drop_first()
                == self.dirs.deep_view().skip(self.probed + 1));
            DepsSearch { dirs: self.dirs, probed: self.probed + 1, found: None }
        }
    }

    /// Whatever a search has been through, it is well formed.
    pub proof fn lemma_wf(&self)
        ensures
            self@.wf(),
    {
    }

    /// The cache directory, or `None` while the search is still probing.
    pub fn path(&self) -> (path: Option<String>)
        ensures
            match path {
                Some(dir) => self@.path() == Some(dir@),
                None => self@.path() is None,
            },
    {
        match &self.found {
            Some(path) => Some(path.clone()),
            None => if self.probed < self.dirs.len() {
                None
            } else {
                Some(FALLBACK_DEPS_PATH.to_owned())
            },
        }
    }
}

/// An answer that is read off `existing` does not change where the search
/// ends.
pub proof fn lemma_answer_keeps_outcome(search: Search, existing: Set<Seq<char>>)
    requires
        search.wf(),
        search.probe() is Some,
    ensures
        search.answer(existing.contains(search.probe()->0)).wf(),
        search.answer(existing.contains(search.probe()->0)).outcome(existing) == search.outcome(
            existing,
        ),
{
    let dirs = search->Probing_0;
    if !existing.contains(marker_in(dirs[0])) && dirs.len() == 1 {
        assert(first_marked(dirs.drop_first(), existing) is None);
    }
}

/// Every answer, true or false, brings a probing search nearer to its end:
/// a caller who keeps answering is done after at most `probes_left` answers.
pub proof fn lemma_answer_makes_progress(search: Search, marker_exists: bool)
    requires
        search.wf(),
        search.probe() is Some,
    ensures
        search.answer(marker_exists).wf(),
        search.answer(marker_exists).probes_left() < search.probes_left(),
{
}

/// The search starts out heading for `deps_path`.
pub proof fn lemma_start_heads_for_deps_path(
    target_dir: Option<Seq<char>>,
    cwd: Option<Seq<char>>,
    existing: Set<Seq<char>>,
)
    ensures
        Search::start(target_dir, cwd).wf(),
        Search::start(target_dir, cwd).outcome(existing) == deps_path(target_dir, cwd, existing),
{
}

/// Along a run, every state is well formed and heads for the same place.
pub proof fn lemma_run_keeps_outcome(states: Seq<Search>, existing: Set<Seq<char>>, i: int)
    requires
        is_run(states, existing),
        states[0].wf(),
        0 <= i < states.len(),
    ensures
        states[i].wf(),
        states[i].outcome(existing) == states[0].outcome(existing),
    decreases i,
{
    if i > 0 {
        lemma_run_keeps_outcome(states, existing, i - 1);
        lemma_answer_keeps_outcome(states[i - 1], existing);
    }
}

/// Resolution is deterministic: in a fixed environment (the variable, the
/// working directory, the files that exist) every search that runs to its
/// end finds the same cache directory, namely `deps_path`.
pub proof fn lemma_resolution_is_deterministic(
    target_dir: Option<Seq<char>>,
    cwd: Option<Seq<char>>,
    existing: Set<Seq<char>>,
    first: Seq<Search>,
    second: Seq<Search>,
)
    requires
        is_run(first, existing),
        is_run(second, existing),
        first[0] == Search::start(target_dir, cwd),
        second[0] == Search::start(target_dir, cwd),
        first.last().path() is Some,
        second.last().path() is Some,
    ensures
        first.last().path() == Some(deps_path(target_dir, cwd, existing)),
        second.last().path() == first.last().path(),
{
    lemma_start_heads_for_deps_path(target_dir, cwd, existing);
    lemma_run_keeps_outcome(first, existing, first.len() - 1);
    lemma_run_keeps_outcome(second, existing, second.len() - 1);
}

/// The build-output root takes priority: where the variable is set, the
/// search is over before it starts, no file is probed, and neither the
/// working directory nor any marker has a say in the result.
pub proof fn lemma_target_dir_takes_priority(
    root: Seq<char>,
    cwd: Option<Seq<char>>,
    existing: Set<Seq<char>>,
    other_cwd: Option<Seq<char>>,
    other_existing: Set<Seq<char>>,
)
    ensures
        Search::start(Some(root), cwd) == Search::Resolved(deps_under_target_dir(root)),
        Search::start(Some(root), cwd).probe() is None,
        deps_path(Some(root), cwd, existing) == deps_under_target_dir(root),
        deps_path(Some(root), cwd, existing) == deps_path(Some(root), other_cwd, other_existing),
{
}

/// Without the variable, the nearest marked directory decides: markers
/// further up are not looked at once one is found.
pub proof fn lemma_nearest_marker_decides(
    dirs: Seq<Seq<char>>,
    existing: Set<Seq<char>>,
    k: int,
)
    requires
        0 <= k < dirs.len(),
        existing.contains(marker_in(dirs[k])),
        forall|j: int| 0 <= j < k ==> !existing.contains(marker_in(#[trigger] dirs[j])),
    ensures
        first_marked(dirs, existing) == Some(dirs[k]),
        deps_among(dirs, existing) == deps_under_build_root(dirs[k]),
    decreases k,
{
    if k > 0 {
        let rest = dirs.drop_first();
        assert forall|j: int| 0 <= j < k - 1 implies !existing.contains(
            marker_in(#[trigger] rest[j]),
        ) by {
            assert(rest[j] == dirs[j + 1]);
        }
        lemma_nearest_marker_decides(rest, existing, k - 1);
    }
}

/// With no marker at or above the working directory, the fixed relative
/// path is the result.
pub proof fn lemma_no_marker_falls_back(dirs: Seq<Seq<char>>, existing: Set<Seq<char>>)
    requires
        forall|j: int| 0 <= j < dirs.len() ==> !existing.contains(marker_in(#[trigger] dirs[j])),
    ensures
        first_marked(dirs, existing) is None,
        deps_among(dirs, existing) == FALLBACK_DEPS_PATH@,
    decreases dirs.len(),
{
    if dirs.len() > 0 {
        let rest = dirs.drop_first();
        assert forall|j: int| 0 <= j < rest.len() implies !existing.contains(
            marker_in(#[trigger] rest[j]),
        ) by {
            assert(rest[j] == dirs[j + 1]);
        }
        lemma_no_marker_falls_back(rest, existing);
    }
}

} // verus!
