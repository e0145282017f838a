//! The directives that tell the build host what to link.

use vstd::prelude::*;
use vstd::string::*;
use crate::suite::{describe, Descriptor, FfmpegSuite};
use crate::text::views;

verus! {

/// The line that tells the build host to look for native libraries in `dir`.
pub open spec fn search_directive(dir: Seq<char>) -> Seq<char> {
    "cargo:rustc-link-search=native="@ + dir
}

/// The line that tells the build host to link the library `lib` dynamically.
pub open spec fn link_directive(lib: Seq<char>) -> Seq<char> {
    "cargo:rustc-link-lib=dylib="@ + lib
}

/// The lines that a suite asks of the build host: one for the directory of
/// its libraries, then one for each library, in the order of their names.
pub open spec fn directives(suite: Descriptor) -> Seq<Seq<char>> {
    seq![search_directive(suite.lib_root)] + Seq::new(
        suite.names.len(),
        |i: int| link_directive(suite.names[i]),
    )
}

/// Words the directive that adds `dir` to the linker's search path.
pub fn add_linker_search_dir(dir: &str) -> (line: String)
    ensures
        line@ == search_directive(dir@),
{
    let mut line = String::from_str("cargo:rustc-link-search=native=");
    line.append(dir);
    line
}

/// Words the directive that links the library `lib`.
pub fn link_lib(lib: &str) -> (line: String)
    ensures
        line@ == link_directive(lib@),
{
    let mut line = String::from_str("cargo:rustc-link-lib=dylib=");
    line.append(lib);
    line
}

/// Words all directives of `suite`, in the order in which they are printed.
pub fn link_directives<S: FfmpegSuite>(suite: &S) -> (lines: Vec<String>)
    ensures
        views(lines@) == directives(describe(suite)),
{
    let dir = suite.lib_dir();
    let names = suite.lib_names();
    let mut lines: Vec<String> = Vec::new();
    lines.push(add_linker_search_dir(dir.as_str()));
    let mut i: usize = 0;
    while i < names.len()
        invariant
            i <= names.len(),
            views(names@) == suite.names(),
            lines.len() == i + 1,
            lines@[0]@ == search_directive(suite.lib_root()),
            forall|k: int| 0 <= k < i ==> lines@[k + 1]@ == link_directive(suite.names()[k]),
        decreases names.len() - i,
    {
        assert(views(names@)[i as int] == names@[i as int]@);
        lines.push(link_lib(names[i].as_str()));
        i += 1;
    }
    assert(views(lines@) =~= directives(describe(suite)));
    lines
}

} // verus!
