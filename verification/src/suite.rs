//! What every installed suite can say of itself.

use vstd::prelude::*;
use vstd::string::*;
use crate::path::{join, join_spec};
use crate::text::views;

verus! {

/// One installation of the codec suite: where its headers and its libraries
/// lie, which libraries it holds, and how each library's primary header is
/// named.
pub trait FfmpegSuite {
    /// The directory that holds one sub-directory of headers per library.
    spec fn include_root(&self) -> Seq<char>;

    /// The directory that holds the libraries to link against.
    spec fn lib_root(&self) -> Seq<char>;

    /// The short names of the libraries, in the order in which they are worked on.
    spec fn names(&self) -> Seq<Seq<char>>;

    /// The file name of the primary header of the library `lib`.
    spec fn header_name(&self, lib: Seq<char>) -> Seq<char>;

    /// Gives the directory of the headers.
    fn include_dir(&self) -> (path: String)
        ensures
            path@ == self.include_root(),
    ;

    /// Gives the directory of the libraries.
    fn lib_dir(&self) -> (path: String)
        ensures
            path@ == self.lib_root(),
    ;

    /// Gives the short names of the libraries, in order.
    fn lib_names(&self) -> (names: Vec<String>)
        ensures
            views(names@) == self.names(),
    ;

    /// Gives the file name of the primary header of the library `lib`.
    fn main_include_for_lib(&self, lib: &str) -> (header: String)
        ensures
            header@ == self.header_name(lib@),
    ;
}

/// What the name of each library's header directory begins with.
pub open spec fn lib_prefix() -> Seq<char> {
    "lib"@
}

/// The path of the primary header of the library `lib` in `suite`.
pub open spec fn header_path_spec<S: FfmpegSuite>(suite: &S, lib: Seq<char>) -> Seq<char> {
    join_spec(join_spec(suite.include_root(), lib_prefix() + lib), suite.header_name(lib))
}

/// Builds the path of the primary header of the library `lib` in `suite`.
pub fn header_path<S: FfmpegSuite>(suite: &S, lib: &str) -> (path: String)
    ensures
        path@ == header_path_spec(suite, lib@),
{
    let root = suite.include_dir();
    let mut subdir = String::from_str("lib");
    subdir.append(lib);
    let dir = join(root.as_str(), subdir.as_str());
    let header = suite.main_include_for_lib(lib);
    join(dir.as_str(), header.as_str())
}

/// What a suite says of itself, as plain values.
pub struct Descriptor {
    /// The directory that holds one sub-directory of headers per library.
    pub include_root: Seq<char>,
    /// The directory that holds the libraries to link against.
    pub lib_root: Seq<char>,
    /// The short names of the libraries, in order.
    pub names: Seq<Seq<char>>,
    /// The path of the primary header of each library, in the same order.
    pub headers: Seq<Seq<char>>,
}

/// The descriptor of `suite`.
pub open spec fn describe<S: FfmpegSuite>(suite: &S) -> Descriptor {
    Descriptor {
        include_root: suite.include_root(),
        lib_root: suite.lib_root(),
        names: suite.names(),
        headers: Seq::new(suite.names().len(), |i: int| header_path_spec(suite, suite.names()[i])),
    }
}

/// Builds the paths of the primary headers of all libraries of `suite`, in order.
pub fn header_paths<S: FfmpegSuite>(suite: &S) -> (paths: Vec<String>)
    ensures
        views(paths@) == describe(suite).headers,
{
    let names = suite.lib_names();
    let mut paths: Vec<String> = Vec::new();
    let mut i: usize = 0;
    while i < names.len()
        invariant
            i <= names.len(),
            views(names@) == suite.names(),
            paths.len() == i,
            forall|k: int| 0 <= k < i ==> paths@[k]@ == header_path_spec(suite, suite.names()[k]),
        decreases names.len() - i,
    {
        assert(views(names@)[i as int] == names@[i as int]@);
        let path = header_path(suite, names[i].as_str());
        paths.push(path);
        i += 1;
    }
    assert(views(paths@) =~= describe(suite).headers);
    paths
}

} // verus!
