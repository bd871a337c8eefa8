//! The link configuration: where the linker searches, and what it links.

use vstd::prelude::*;

verus! {

/// What a link configuration holds: the search directories and the library
/// names, each in the order in which they were added.
pub struct LibsConfigView {
    pub lib_paths: Seq<Seq<char>>,
    pub libs: Seq<Seq<char>>,
}

/// An accumulator of library search directories and library names.
///
/// Nothing is deduplicated, reordered or checked against the file system:
/// linkers resolve symbols in search order, so the order of the calls is
/// the order of the result.
#[derive(Debug)]
pub struct LibsConfig {
    lib_paths: Vec<String>,
    libs: Vec<String>,
}

impl View for LibsConfig {
    type V = LibsConfigView;

    closed spec fn view(&self) -> LibsConfigView {
        LibsConfigView { lib_paths: self.lib_paths.deep_view(), libs: self.libs.deep_view() }
    }
}

impl LibsConfig {
    /// An empty configuration.
    pub fn new() -> (config: LibsConfig)
        ensures
            config@.lib_paths == Seq::<Seq<char>>::empty(),
            config@.libs == Seq::<Seq<char>>::empty(),
    {
        LibsConfig { lib_paths: Vec::new(), libs: Vec::new() }
    }

    /// Appends `path` to the search directories.
    pub fn add_lib_path(&mut self, path: String)
        ensures
            final(self)@.lib_paths == old(self)@.lib_paths.push(path@),
            final(self)@.libs == old(self)@.libs,
    {
        self.lib_paths.push(path);
    }

    /// Appends `lib` to the library names.
    pub fn add(&mut self, lib: &str)
        ensures
            final(self)@.libs == old(self)@.libs.push(lib@),
            final(self)@.lib_paths == old(self)@.lib_paths,
    {
        self.libs.push(lib.to_owned());
    }

    /// The search directories, in the order in which they were added.
    pub fn lib_paths(&self) -> (paths: &Vec<String>)
        ensures
            paths.deep_view() == self@.lib_paths,
    {
        &self.lib_paths
    }

    /// The library names, in the order in which they were added.
    pub fn libs(&self) -> (names: &Vec<String>)
        ensures
            names.deep_view() == self@.libs,
    {
        &self.libs
    }
}

} // verus!
