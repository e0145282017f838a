//! The locator that reads the installation root from an environment variable,
//! and the suite that it finds.

use vstd::prelude::*;
use vstd::string::*;
use crate::host::{
    entry_views, listing_views, unreadable_detail, DirEntry, DirEntryView, Query, QueryView, Reply,
    ReplyView, Step, StepView, VarOutcomeView, World,
};
use crate::path::{join, join_spec};
use crate::suite::{describe, lib_prefix, Descriptor, FfmpegSuite};
use crate::text::{begins_with, same_text, starts_with, views, without_prefix};

verus! {

/// A suite found through the environment variable that names its root.
#[derive(Debug, PartialEq, Eq)]
pub struct EnvInstallSuite {
    dir: String,
    entries: Vec<DirEntry>,
}

/// What a suite found through the environment holds.
pub struct EnvInstallSuiteView {
    /// The installation root.
    pub dir: Seq<char>,
    /// The entries of the headers' directory that could be read when the
    /// suite was found.
    pub entries: Seq<DirEntryView>,
}

impl View for EnvInstallSuite {
    type V = EnvInstallSuiteView;

    closed spec fn view(&self) -> EnvInstallSuiteView {
        EnvInstallSuiteView { dir: self.dir@, entries: entry_views(self.entries@) }
    }
}

/// The headers' directory below the installation root `dir`.
pub open spec fn include_root_of(dir: Seq<char>) -> Seq<char> {
    join_spec(dir, "include"@)
}

/// The libraries' directory below the installation root `dir`.
pub open spec fn lib_root_of(dir: Seq<char>) -> Seq<char> {
    join_spec(dir, "lib"@)
}

/// Picks the entries of a listing that could be read.
pub open spec fn is_read() -> spec_fn(Option<DirEntryView>) -> bool {
    |entry: Option<DirEntryView>| entry is Some
}

/// The entry that stands at a place of a listing.
pub open spec fn read_entry() -> spec_fn(Option<DirEntryView>) -> DirEntryView {
    |entry: Option<DirEntryView>| entry->Some_0
}

/// The entries of a listing that could be read, in order; those that could
/// not are left out.
pub open spec fn readable(listing: Seq<Option<DirEntryView>>) -> Seq<DirEntryView> {
    listing.filter(is_read()).map_values(read_entry())
}

/// Picks the entries that are directories.
pub open spec fn is_subdir() -> spec_fn(DirEntryView) -> bool {
    |e: DirEntryView| e.is_dir
}

/// Picks the directories that hold the headers of one library.
pub open spec fn is_lib_dir() -> spec_fn(DirEntryView) -> bool {
    |e: DirEntryView| e.is_dir && begins_with(e.name, lib_prefix())
}

/// The path of an entry of the directory `root`.
pub open spec fn path_below(root: Seq<char>) -> spec_fn(DirEntryView) -> Seq<char> {
    |e: DirEntryView| join_spec(root, e.name)
}

/// The name of a library's header directory without the prefix.
pub open spec fn short_name() -> spec_fn(DirEntryView) -> Seq<char> {
    |e: DirEntryView| e.name.skip(lib_prefix().len() as int)
}

/// The paths of the sub-directories of `root`, given its entries.
pub open spec fn subdirs_of(root: Seq<char>, entries: Seq<DirEntryView>) -> Seq<Seq<char>> {
    entries.filter(is_subdir()).map_values(path_below(root))
}

/// The short names of the libraries whose header directories are among `entries`:
/// the names of the directories that begin with the prefix, without it, in order.
pub open spec fn lib_names_of(entries: Seq<DirEntryView>) -> Seq<Seq<char>> {
    entries.filter(is_lib_dir()).map_values(short_name())
}

/// The file name of the primary header of the library `lib`: the library's
/// name with `.h` behind it, but for the post-processing library.
pub open spec fn primary_header_name(lib: Seq<char>) -> Seq<char> {
    if lib == "postproc"@ {
        "postprocess.h"@
    } else {
        lib + ".h"@
    }
}

impl EnvInstallSuiteView {
    /// The path of the primary header of the library `lib`.
    pub open spec fn header_path(self, lib: Seq<char>) -> Seq<char> {
        join_spec(join_spec(include_root_of(self.dir), lib_prefix() + lib), primary_header_name(lib))
    }

    /// What the suite says of itself.
    pub open spec fn descriptor(self) -> Descriptor {
        Descriptor {
            include_root: include_root_of(self.dir),
            lib_root: lib_root_of(self.dir),
            names: lib_names_of(self.entries),
            headers: Seq::new(
                lib_names_of(self.entries).len(),
                |i: int| self.header_path(lib_names_of(self.entries)[i]),
            ),
        }
    }
}

/// The descriptor of a suite is the one that its view gives.
pub proof fn describe_by_view(suite: &EnvInstallSuite)
    ensures
        describe(suite) == suite@.descriptor(),
{
    assert(describe(suite).headers =~= suite@.descriptor().headers);
}

impl EnvInstallSuite {
    /// The installation root.
    pub fn ffmpeg_dir(&self) -> (dir: &String)
        ensures
            dir@ == self@.dir,
    {
        &self.dir
    }

    /// The paths of the directories directly below the headers' directory.
    pub fn include_subdirs(&self) -> (subdirs: Vec<String>)
        ensures
            views(subdirs@) == subdirs_of(include_root_of(self@.dir), self@.entries),
    {
        let root = join(self.dir.as_str(), "include");
        let mut subdirs: Vec<String> = Vec::new();
        let mut i: usize = 0;
        while i < self.entries.len()
            invariant
                i <= self.entries.len(),
                root@ == include_root_of(self.dir@),
                views(subdirs@) == subdirs_of(root@, entry_views(self.entries@.take(i as int))),
            decreases self.entries.len() - i,
        {
            let entry = &self.entries[i];
            let ghost before = entry_views(self.entries@.take(i as int));
            let ghost found = views(subdirs@);
            proof {
                assert(entry_views(self.entries@.take(i + 1)) =~= before.push(entry@));
                before.lemma_filter_push(entry@, is_subdir());
                before.filter(is_subdir()).lemma_push_map_commute(path_below(root@), entry@);
            }
            if entry.is_dir {
                let path = join(root.as_str(), entry.name.as_str());
                subdirs.push(path);
                assert(views(subdirs@) =~= found.push(path@));
            }
            i += 1;
        }
        assert(self.entries@.take(i as int) =~= self.entries@);
        subdirs
    }
}

impl FfmpegSuite for EnvInstallSuite {
    open spec fn include_root(&self) -> Seq<char> {
        include_root_of(self@.dir)
    }

    open spec fn lib_root(&self) -> Seq<char> {
        lib_root_of(self@.dir)
    }

    open spec fn names(&self) -> Seq<Seq<char>> {
        lib_names_of(self@.entries)
    }

    open spec fn header_name(&self, lib: Seq<char>) -> Seq<char> {
        primary_header_name(lib)
    }

    fn include_dir(&self) -> (path: String) {
        join(self.dir.as_str(), "include")
    }

    fn lib_dir(&self) -> (path: String) {
        join(self.dir.as_str(), "lib")
    }

    fn lib_names(&self) -> (names: Vec<String>)
        ensures
            distinct_names(self@.entries) ==> views(names@).no_duplicates(),
    {
        proof {
            if distinct_names(self@.entries) {
                lib_names_are_distinct(self@.entries);
            }
        }
        let mut names: Vec<String> = Vec::new();
        let mut i: usize = 0;
        while i < self.entries.len()
            invariant
                i <= self.entries.len(),
                views(names@) == lib_names_of(entry_views(self.entries@.take(i as int))),
            decreases self.entries.len() - i,
        {
            let entry = &self.entries[i];
            let ghost before = entry_views(self.entries@.take(i as int));
            let ghost found = views(names@);
            proof {
                reveal_strlit("lib");
                assert(entry_views(self.entries@.take(i + 1)) =~= before.push(entry@));
                before.lemma_filter_push(entry@, is_lib_dir());
                before.filter(is_lib_dir()).lemma_push_map_commute(short_name(), entry@);
            }
            if entry.is_dir && starts_with(entry.name.as_str(), "lib") {
                let name = without_prefix(entry.name.as_str(), 3);
                names.push(name);
                assert(views(names@) =~= found.push(name@));
            }
            i += 1;
        }
        assert(self.entries@.take(i as int) =~= self.entries@);
        names
    }

    fn main_include_for_lib(&self, lib: &str) -> (header: String) {
        if same_text(lib, "postproc") {
            return String::from_str("postprocess.h");
        }
        let mut header = String::from_str(lib);
        header.append(".h");
        header
    }
}

/// One of the two directories that an installation root must hold.
#[derive(Debug, Clone, Copy, PartialEq, Eq)]
pub enum Root {
    /// The directory of the headers.
    Include,
    /// The directory of the libraries.
    Lib,
}

/// Why no suite was found through the environment variable.
#[derive(Debug, PartialEq, Eq)]
pub enum LocateError {
    /// The variable is not set, or what it holds cannot be read.
    ConfigurationMissing { detail: String },
    /// One of the two directories below the root does not exist.
    PathNotFound { root: Root, path: String },
    /// The driver answered another query than the one it was asked.
    UnexpectedReply,
}

/// What a `LocateError` holds.
pub enum LocateErrorView {
    ConfigurationMissing { detail: Seq<char> },
    PathNotFound { root: Root, path: Seq<char> },
    UnexpectedReply,
}

impl View for LocateError {
    type V = LocateErrorView;

    open spec fn view(&self) -> LocateErrorView {
        match self {
            LocateError::ConfigurationMissing { detail } => LocateErrorView::ConfigurationMissing {
                detail: detail@,
            },
            LocateError::PathNotFound { root, path } => LocateErrorView::PathNotFound {
                root: *root,
                path: path@,
            },
            LocateError::UnexpectedReply => LocateErrorView::UnexpectedReply,
        }
    }
}

impl LocateErrorView {
    /// The error in words.
    pub open spec fn message(self) -> Seq<char> {
        match self {
            LocateErrorView::ConfigurationMissing { detail } => "Error getting FFMPEG_DIR: "@
                + detail,
            LocateErrorView::PathNotFound { root: Root::Include, path } =>
                "FFMPEG_DIR/include does not exist: "@ + path,
            LocateErrorView::PathNotFound { root: Root::Lib, path } =>
                "FFMPEG_DIR/lib does not exist: "@ + path,
            LocateErrorView::UnexpectedReply => "the reply does not answer the query"@,
        }
    }
}

impl LocateError {
    /// Puts the error in words.
    pub fn message(&self) -> (text: String)
        ensures
            text@ == self@.message(),
    {
        match self {
            LocateError::ConfigurationMissing { detail } => {
                let mut text = String::from_str("Error getting FFMPEG_DIR: ");
                text.append(detail.as_str());
                text
            },
            LocateError::PathNotFound { root, path } => {
                let mut text = match root {
                    Root::Include => String::from_str("FFMPEG_DIR/include does not exist: "),
                    Root::Lib => String::from_str("FFMPEG_DIR/lib does not exist: "),
                };
                text.append(path.as_str());
                text
            },
            LocateError::UnexpectedReply => String::from_str(
                "the reply does not answer the query",
            ),
        }
    }
}

/// How far the search through the environment variable has come.
#[derive(Debug, PartialEq, Eq)]
pub enum Locating {
    /// Nothing was asked yet.
    Start,
    /// The variable was asked for.
    AwaitRoot,
    /// The headers' directory below `dir` was asked about.
    AwaitInclude { dir: String },
    /// The libraries' directory below `dir` was asked about.
    AwaitLib { dir: String },
    /// The entries of the headers' directory below `dir` were asked for.
    AwaitEntries { dir: String },
}

/// What a `Locating` holds.
pub enum LocatingView {
    Start,
    AwaitRoot,
    AwaitInclude { dir: Seq<char> },
    AwaitLib { dir: Seq<char> },
    AwaitEntries { dir: Seq<char> },
}

impl View for Locating {
    type V = LocatingView;

    open spec fn view(&self) -> LocatingView {
        match self {
            Locating::Start => LocatingView::Start,
            Locating::AwaitRoot => LocatingView::AwaitRoot,
            Locating::AwaitInclude { dir } => LocatingView::AwaitInclude { dir: dir@ },
            Locating::AwaitLib { dir } => LocatingView::AwaitLib { dir: dir@ },
            Locating::AwaitEntries { dir } => LocatingView::AwaitEntries { dir: dir@ },
        }
    }
}

/// Takes from a listing the entries that could be read, in order.
pub fn readable_entries(listing: &Vec<Option<DirEntry>>) -> (entries: Vec<DirEntry>)
    ensures
        entry_views(entries@) == readable(listing_views(listing@)),
{
    let mut entries: Vec<DirEntry> = Vec::new();
    let mut i: usize = 0;
    while i < listing.len()
        invariant
            i <= listing.len(),
            entry_views(entries@) == readable(listing_views(listing@.take(i as int))),
        decreases listing.len() - i,
    {
        let ghost before = listing_views(listing@.take(i as int));
        let ghost found = entry_views(entries@);
        let ghost here = listing_views(listing@)[i as int];
        proof {
            assert(listing_views(listing@.take(i + 1)) =~= before.push(here));
            before.lemma_filter_push(here, is_read());
            before.filter(is_read()).lemma_push_map_commute(read_entry(), here);
        }
        match &listing[i] {
            Some(entry) => {
                let kept = DirEntry { name: entry.name.clone(), is_dir: entry.is_dir };
                entries.push(kept);
                assert(entry_views(entries@) =~= found.push(kept@));
            },
            None => {},
        }
        i += 1;
    }
    assert(listing@.take(i as int) =~= listing@);
    entries
}

/// The name of the variable that holds the installation root.
pub open spec fn root_variable() -> Seq<char> {
    "FFMPEG_DIR"@
}

/// The next step of the search, from where it stands and the reply to its
/// last query. At the start the reply is not looked at.
pub open spec fn find_spec(state: LocatingView, reply: ReplyView) -> StepView<
    LocatingView,
    EnvInstallSuiteView,
    LocateErrorView,
> {
    match state {
        LocatingView::Start => StepView::Ask {
            next: LocatingView::AwaitRoot,
            query: QueryView::Variable { name: root_variable() },
        },
        LocatingView::AwaitRoot => match reply {
            ReplyView::Variable(VarOutcomeView::Value(dir)) => StepView::Ask {
                next: LocatingView::AwaitInclude { dir },
                query: QueryView::Exists { path: include_root_of(dir) },
            },
            ReplyView::Variable(outcome) => StepView::Failed(
                LocateErrorView::ConfigurationMissing { detail: unreadable_detail(outcome) },
            ),
            _ => StepView::Failed(LocateErrorView::UnexpectedReply),
        },
        LocatingView::AwaitInclude { dir } => match reply {
            ReplyView::Exists(true) => StepView::Ask {
                next: LocatingView::AwaitLib { dir },
                query: QueryView::Exists { path: lib_root_of(dir) },
            },
            ReplyView::Exists(false) => StepView::Failed(
                LocateErrorView::PathNotFound { root: Root::Include, path: include_root_of(dir) },
            ),
            _ => StepView::Failed(LocateErrorView::UnexpectedReply),
        },
        LocatingView::AwaitLib { dir } => match reply {
            ReplyView::Exists(true) => StepView::Ask {
                next: LocatingView::AwaitEntries { dir },
                query: QueryView::ListDir { path: include_root_of(dir) },
            },
            ReplyView::Exists(false) => StepView::Failed(
                LocateErrorView::PathNotFound { root: Root::Lib, path: lib_root_of(dir) },
            ),
            _ => StepView::Failed(LocateErrorView::UnexpectedReply),
        },
        LocatingView::AwaitEntries { dir } => match reply {
            ReplyView::Entries(listing) => StepView::Done(
                EnvInstallSuiteView { dir, entries: readable(listing) },
            ),
            _ => StepView::Failed(LocateErrorView::UnexpectedReply),
        },
    }
}

/// Takes the search for a suite one step further: from where it stands and
/// the reply to its last query, to the next query or to its end.
pub fn find(state: Locating, reply: Reply) -> (step: Step<Locating, EnvInstallSuite, LocateError>)
    ensures
        step@ == find_spec(state@, reply@),
{
    match state {
        Locating::Start => Step::Ask {
            next: Locating::AwaitRoot,
            query: Query::Variable { name: String::from_str("FFMPEG_DIR") },
        },
        Locating::AwaitRoot => match reply {
            Reply::Variable(outcome) => match outcome.into_value() {
                Ok(dir) => {
                    let path = join(dir.as_str(), "include");
                    Step::Ask {
                        next: Locating::AwaitInclude { dir },
                        query: Query::Exists { path },
                    }
                },
                Err(detail) => Step::Failed(LocateError::ConfigurationMissing { detail }),
            },
            _ => Step::Failed(LocateError::UnexpectedReply),
        },
        Locating::AwaitInclude { dir } => match reply {
            Reply::Exists(true) => {
                let path = join(dir.as_str(), "lib");
                Step::Ask { next: Locating::AwaitLib { dir }, query: Query::Exists { path } }
            },
            Reply::Exists(false) => {
                let path = join(dir.as_str(), "include");
                Step::Failed(LocateError::PathNotFound { root: Root::Include, path })
            },
            _ => Step::Failed(LocateError::UnexpectedReply),
        },
        Locating::AwaitLib { dir } => match reply {
            Reply::Exists(true) => {
                let path = join(dir.as_str(), "include");
                Step::Ask { next: Locating::AwaitEntries { dir }, query: Query::ListDir { path } }
            },
            Reply::Exists(false) => {
                let path = join(dir.as_str(), "lib");
                Step::Failed(LocateError::PathNotFound { root: Root::Lib, path })
            },
            _ => Step::Failed(LocateError::UnexpectedReply),
        },
        Locating::AwaitEntries { dir } => match reply {
            Reply::Entries(listing) => Step::Done(
                EnvInstallSuite { dir, entries: readable_entries(&listing) },
            ),
            _ => Step::Failed(LocateError::UnexpectedReply),
        },
    }
}

/// The moves of the search, as a function.
pub open spec fn find_moves() -> spec_fn(LocatingView, ReplyView) -> StepView<
    LocatingView,
    EnvInstallSuiteView,
    LocateErrorView,
> {
    |state: LocatingView, reply: ReplyView| find_spec(state, reply)
}

/// What the search owes in `world`: the suite below the root that the variable
/// names, with the entries of its headers' directory, if the variable gives a
/// root and both directories stand below it; else the first thing that is
/// missing.
pub open spec fn located(world: World) -> Result<EnvInstallSuiteView, LocateErrorView> {
    match (world.variables)(root_variable()) {
        VarOutcomeView::Value(dir) => if !world.existing.contains(include_root_of(dir)) {
            Err(LocateErrorView::PathNotFound { root: Root::Include, path: include_root_of(dir) })
        } else if !world.existing.contains(lib_root_of(dir)) {
            Err(LocateErrorView::PathNotFound { root: Root::Lib, path: lib_root_of(dir) })
        } else {
            Ok(
                EnvInstallSuiteView {
                    dir,
                    entries: readable((world.entries)(include_root_of(dir))),
                },
            )
        },
        outcome => Err(
            LocateErrorView::ConfigurationMissing { detail: unreadable_detail(outcome) },
        ),
    }
}

/// Whether no two of the entries have the same name.
pub open spec fn distinct_names(entries: Seq<DirEntryView>) -> bool {
    forall|i: int, j: int|
        0 <= i < entries.len() && 0 <= j < entries.len() && i != j ==> entries[i].name
            != entries[j].name
}

/// What the search asks in `world`: for the variable; where it gives a root,
/// about the headers' directory; where that stands, about the libraries'
/// directory; and where that stands too, for the entries of the headers'
/// directory.
pub open spec fn finding_queries(world: World) -> Seq<QueryView> {
    match (world.variables)(root_variable()) {
        VarOutcomeView::Value(dir) => seq![
            (QueryView::Variable { name: root_variable() }),
            (QueryView::Exists { path: include_root_of(dir) }),
        ] + (if !world.existing.contains(include_root_of(dir)) {
            Seq::empty()
        } else {
            seq![(QueryView::Exists { path: lib_root_of(dir) })] + (if !world.existing.contains(
                lib_root_of(dir),
            ) {
                Seq::empty()
            } else {
                seq![(QueryView::ListDir { path: include_root_of(dir) })]
            })
        }),
        _ => seq![(QueryView::Variable { name: root_variable() })],
    }
}

/// A search that starts afresh and has each query answered by `world` asks
/// what `finding_queries` says and ends, after four queries at most, with
/// what `located` says.
pub proof fn find_reaches_located(world: World, reply: ReplyView)
    ensures
        world.run(find_moves(), LocatingView::Start, reply, 4) == Some(located(world)),
        world.asked(find_moves(), LocatingView::Start, reply, 4) == finding_queries(world),
{
    reveal_with_fuel(World::run, 5);
    reveal_with_fuel(World::asked, 5);
    assert(world.asked(find_moves(), LocatingView::Start, reply, 4) =~= finding_queries(world));
}

/// Where the variable names a root below which both directories stand, the
/// search finds the suite at that root, with the entries of the headers'
/// directory that the world lists and that can be read. Its libraries are
/// then the directories among those entries whose names begin with the
/// prefix, named without it, in the order of the listing; and none is named
/// twice where those entries have no name twice.
pub proof fn find_succeeds_on_valid_root(world: World, reply: ReplyView, dir: Seq<char>)
    requires
        (world.variables)(root_variable()) == VarOutcomeView::Value(dir),
        world.existing.contains(include_root_of(dir)),
        world.existing.contains(lib_root_of(dir)),
    ensures
        world.run(find_moves(), LocatingView::Start, reply, 4) == Some(
            Ok::<EnvInstallSuiteView, LocateErrorView>(
                EnvInstallSuiteView {
                    dir,
                    entries: readable((world.entries)(include_root_of(dir))),
                },
            ),
        ),
        distinct_names(readable((world.entries)(include_root_of(dir)))) ==> lib_names_of(
            readable((world.entries)(include_root_of(dir))),
        ).no_duplicates(),
{
    find_reaches_located(world, reply);
    if distinct_names(readable((world.entries)(include_root_of(dir)))) {
        lib_names_are_distinct(readable((world.entries)(include_root_of(dir))));
    }
}

/// Where the variable names a root below which one of the two directories is
/// missing, the search fails and names the first of them that is missing.
pub proof fn find_fails_on_missing_root(world: World, reply: ReplyView, dir: Seq<char>)
    requires
        (world.variables)(root_variable()) == VarOutcomeView::Value(dir),
        !world.existing.contains(include_root_of(dir)) || !world.existing.contains(
            lib_root_of(dir),
        ),
    ensures
        world.run(find_moves(), LocatingView::Start, reply, 4) == Some(
            Err::<EnvInstallSuiteView, LocateErrorView>(
                if !world.existing.contains(include_root_of(dir)) {
                    LocateErrorView::PathNotFound {
                        root: Root::Include,
                        path: include_root_of(dir),
                    }
                } else {
                    LocateErrorView::PathNotFound { root: Root::Lib, path: lib_root_of(dir) }
                },
            ),
        ),
{
    find_reaches_located(world, reply);
}

/// Where the variable gives no root, the search fails for want of configuration
/// and asks nothing of the file system.
pub proof fn find_fails_without_variable(world: World, reply: ReplyView)
    requires
        !((world.variables)(root_variable()) is Value),
    ensures
        world.run(find_moves(), LocatingView::Start, reply, 4) matches Some(
            Err(LocateErrorView::ConfigurationMissing { .. }),
        ),
        world.asked(find_moves(), LocatingView::Start, reply, 4) == seq![
            (QueryView::Variable { name: root_variable() }),
        ],
{
    find_reaches_located(world, reply);
}

/// Whether two worlds agree on what the search reads below the root `dir`: on
/// the two directories and on the entries of the headers' directory.
pub open spec fn agree_below(first: World, second: World, dir: Seq<char>) -> bool {
    &&& first.existing.contains(include_root_of(dir)) == second.existing.contains(
        include_root_of(dir),
    )
    &&& first.existing.contains(lib_root_of(dir)) == second.existing.contains(lib_root_of(dir))
    &&& (first.entries)(include_root_of(dir)) == (second.entries)(include_root_of(dir))
}

/// Whether two worlds are alike in all that the search reads: they give the
/// variable the same outcome and agree below the root that it names.
pub open spec fn alike(first: World, second: World) -> bool {
    &&& (first.variables)(root_variable()) == (second.variables)(root_variable())
    &&& forall|dir: Seq<char>|
        (first.variables)(root_variable()) == VarOutcomeView::Value(dir) ==> agree_below(
            first,
            second,
            dir,
        )
}

/// Worlds that are alike owe the same.
pub proof fn located_alike(first: World, second: World)
    requires
        alike(first, second),
    ensures
        located(first) == located(second),
{
    if let VarOutcomeView::Value(dir) = (first.variables)(root_variable()) {
        assert(agree_below(first, second, dir));
    }
}

/// Two searches in worlds that are alike, or one after the other in one
/// world that did not change, end alike: with suites of the same root and the
/// same entries, so with the same libraries in the same order.
pub proof fn find_is_repeatable(first: World, second: World, reply: ReplyView)
    requires
        alike(first, second),
    ensures
        first.run(find_moves(), LocatingView::Start, reply, 4) == second.run(
            find_moves(),
            LocatingView::Start,
            reply,
            4,
        ),
{
    find_reaches_located(first, reply);
    find_reaches_located(second, reply);
    located_alike(first, second);
}

/// Among entries of which no two have the same name, those picked by `keep`
/// have no name twice either.
proof fn filter_keeps_names_distinct(
    entries: Seq<DirEntryView>,
    keep: spec_fn(DirEntryView) -> bool,
)
    requires
        distinct_names(entries),
    ensures
        distinct_names(entries.filter(keep)),
    decreases entries.len(),
{
    reveal(Seq::filter);
    if entries.len() > 0 {
        let front = entries.drop_last();
        filter_keeps_names_distinct(front, keep);
        let kept = front.filter(keep);
        assert forall|i: int| 0 <= i < kept.len() implies kept[i].name
            != entries.last().name by {
            assert(kept.contains(kept[i]));
            front.lemma_filter_contains_rev(keep, kept[i]);
            let k = choose|k: int| 0 <= k < front.len() && front[k] == kept[i];
            assert(entries[k] == kept[i]);
        }
    }
}

/// A listing in which no name occurs twice gives no library twice.
pub proof fn lib_names_are_distinct(entries: Seq<DirEntryView>)
    requires
        distinct_names(entries),
    ensures
        lib_names_of(entries).no_duplicates(),
{
    filter_keeps_names_distinct(entries, is_lib_dir());
    let kept = entries.filter(is_lib_dir());
    let names = lib_names_of(entries);
    let n = lib_prefix().len() as int;
    assert forall|i: int, j: int|
        0 <= i < names.len() && 0 <= j < names.len() && i != j implies names[i] != names[j] by {
        entries.lemma_filter_pred(is_lib_dir(), i);
        entries.lemma_filter_pred(is_lib_dir(), j);
        assert(begins_with(kept[i].name, lib_prefix()));
        assert(begins_with(kept[j].name, lib_prefix()));
        if names[i] == names[j] {
            assert(kept[i].name =~= kept[i].name.subrange(0, n) + kept[i].name.skip(n));
            assert(kept[j].name =~= kept[j].name.subrange(0, n) + kept[j].name.skip(n));
            assert(false);
        }
    }
}

/// The libraries of a listing are exactly its directories whose names begin
/// with the prefix: a name is among them if and only if the listing holds a
/// directory named by the prefix and that name.
pub proof fn lib_names_are_the_prefixed_directories(entries: Seq<DirEntryView>, name: Seq<char>)
    ensures
        lib_names_of(entries).contains(name) <==> entries.contains(
            DirEntryView { name: lib_prefix() + name, is_dir: true },
        ),
{
    let kept = entries.filter(is_lib_dir());
    let names = lib_names_of(entries);
    let n = lib_prefix().len() as int;
    let wanted = DirEntryView { name: lib_prefix() + name, is_dir: true };
    assert(wanted.name.subrange(0, n) =~= lib_prefix());
    assert(wanted.name.skip(n) =~= name);
    if names.contains(name) {
        let i = choose|i: int| 0 <= i < names.len() && names[i] == name;
        entries.lemma_filter_pred(is_lib_dir(), i);
        assert(kept.contains(kept[i]));
        entries.lemma_filter_contains_rev(is_lib_dir(), kept[i]);
        assert(kept[i].name =~= kept[i].name.subrange(0, n) + kept[i].name.skip(n));
        assert(kept[i] == wanted);
    }
    if entries.contains(wanted) {
        let k = choose|k: int| 0 <= k < entries.len() && entries[k] == wanted;
        entries.lemma_filter_contains(is_lib_dir(), k);
        let i = choose|i: int| 0 <= i < kept.len() && kept[i] == wanted;
        assert(names[i] == name);
    }
}

} // verus!
