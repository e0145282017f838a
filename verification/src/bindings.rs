//! Planning the generation of bindings: what the generator is told, which
//! headers must exist before it runs, and the empty bindings of a
//! documentation build.

use vstd::prelude::*;
use vstd::string::*;
use crate::error::{BuildError, BuildErrorView};
use crate::host::{
    unreadable_detail, GeneratorRequest, GeneratorRequestView, Query, QueryView, Reply, ReplyView,
    Step, StepView, VarOutcomeView, World,
};
use crate::path::{join, join_spec};
use crate::suite::{describe, header_paths, Descriptor, FfmpegSuite};
use crate::text::views;

verus! {

/// The name of the variable that holds the output directory.
pub open spec fn output_variable() -> Seq<char> {
    "OUT_DIR"@
}

/// The path of the bindings below the output directory `out_dir`.
pub open spec fn output_path(out_dir: Seq<char>) -> Seq<char> {
    join_spec(out_dir, "bindings.rs"@)
}

/// The argument that makes the C front end look for headers in `include_root`.
pub open spec fn search_path_arg(include_root: Seq<char>) -> Seq<char> {
    "-I"@ + include_root
}

/// The lines that silence, for all that is generated, the warnings that the
/// native names are bound to raise.
pub open spec fn suppressions() -> Seq<Seq<char>> {
    seq![
        "#![allow(deprecated)]"@,
        "#![allow(dead_code)]"@,
        "#![allow(non_camel_case_types)]"@,
        "#![allow(non_snake_case)]"@,
        "#![allow(non_upper_case_globals)]"@,
        "#![allow(clashing_extern_declarations)]"@,
    ]
}

/// What the generator is told for `suite`: the search path once, every
/// primary header in the order of the libraries, the suppressions, and the
/// place of the bindings below `out_dir`.
pub open spec fn request_for(suite: Descriptor, out_dir: Seq<char>) -> GeneratorRequestView {
    GeneratorRequestView {
        clang_args: seq![search_path_arg(suite.include_root)],
        headers: suite.headers,
        raw_lines: suppressions(),
        output: output_path(out_dir),
    }
}

/// Words the argument that makes the C front end look for headers in `include_root`.
pub fn clang_arg(include_root: &str) -> (arg: String)
    ensures
        arg@ == search_path_arg(include_root@),
{
    let mut arg = String::from_str("-I");
    arg.append(include_root);
    arg
}

/// Lists the lines that silence the expected warnings.
pub fn suppression_lines() -> (lines: Vec<String>)
    ensures
        views(lines@) == suppressions(),
{
    let mut lines: Vec<String> = Vec::new();
    lines.push(String::from_str("#![allow(deprecated)]"));
    lines.push(String::from_str("#![allow(dead_code)]"));
    lines.push(String::from_str("#![allow(non_camel_case_types)]"));
    lines.push(String::from_str("#![allow(non_snake_case)]"));
    lines.push(String::from_str("#![allow(non_upper_case_globals)]"));
    lines.push(String::from_str("#![allow(clashing_extern_declarations)]"));
    assert(views(lines@) =~= suppressions());
    lines
}

/// Puts together what the generator is told for `suite`.
pub fn generator_request<S: FfmpegSuite>(suite: &S, out_dir: &str) -> (request: GeneratorRequest)
    ensures
        request@ == request_for(describe(suite), out_dir@),
{
    let root = suite.include_dir();
    let mut clang_args: Vec<String> = Vec::new();
    clang_args.push(clang_arg(root.as_str()));
    assert(views(clang_args@) =~= seq![search_path_arg(suite.include_root())]);
    GeneratorRequest {
        clang_args,
        headers: header_paths(suite),
        raw_lines: suppression_lines(),
        output: join(out_dir, "bindings.rs"),
    }
}

/// The comment that goes into the bindings: the rewritten one where the
/// rewriting gave one, else the comment as it was.
pub fn process_comment(comment: &str, rewritten: Option<String>) -> (text: String)
    ensures
        rewritten matches Some(other) ==> text@ == other@,
        rewritten is None ==> text@ == comment@,
{
    match rewritten {
        Some(other) => other,
        None => String::from_str(comment),
    }
}

/// How far the writing of empty bindings has come.
#[derive(Debug, Clone, Copy, PartialEq, Eq)]
pub enum Emptying {
    /// Nothing was asked yet.
    Start,
    /// The output directory was asked for.
    AwaitOutDir,
    /// The empty file was handed over to be written.
    AwaitWritten,
}

impl View for Emptying {
    type V = Emptying;

    open spec fn view(&self) -> Emptying {
        *self
    }
}

/// The next step of the writing of empty bindings.
pub open spec fn empty_bindings_spec(state: Emptying, reply: ReplyView) -> StepView<
    Emptying,
    (),
    BuildErrorView,
> {
    match state {
        Emptying::Start => StepView::Ask {
            next: Emptying::AwaitOutDir,
            query: QueryView::Variable { name: output_variable() },
        },
        Emptying::AwaitOutDir => match reply {
            ReplyView::Variable(VarOutcomeView::Value(out_dir)) => StepView::Ask {
                next: Emptying::AwaitWritten,
                query: QueryView::WriteFile { path: output_path(out_dir), contents: Seq::empty() },
            },
            ReplyView::Variable(outcome) => StepView::Failed(
                BuildErrorView::OutputDirMissing { detail: unreadable_detail(outcome) },
            ),
            _ => StepView::Failed(BuildErrorView::UnexpectedReply),
        },
        Emptying::AwaitWritten => match reply {
            ReplyView::Completed => StepView::Done(()),
            ReplyView::Failed(detail) => StepView::Failed(BuildErrorView::Io { detail }),
            _ => StepView::Failed(BuildErrorView::UnexpectedReply),
        },
    }
}

/// Takes the writing of empty bindings one step further: the output
/// directory is asked for, then a file without contents is written where the
/// bindings belong.
pub fn empty_bindings(state: Emptying, reply: Reply) -> (step: Step<Emptying, (), BuildError>)
    ensures
        step@ == empty_bindings_spec(state@, reply@),
{
    match state {
        Emptying::Start => Step::Ask {
            next: Emptying::AwaitOutDir,
            query: Query::Variable { name: String::from_str("OUT_DIR") },
        },
        Emptying::AwaitOutDir => match reply {
            Reply::Variable(outcome) => match outcome.into_value() {
                Ok(out_dir) => {
                    let path = join(out_dir.as_str(), "bindings.rs");
                    Step::Ask {
                        next: Emptying::AwaitWritten,
                        query: Query::WriteFile { path, contents: String::new() },
                    }
                },
                Err(detail) => Step::Failed(BuildError::OutputDirMissing { detail }),
            },
            _ => Step::Failed(BuildError::UnexpectedReply),
        },
        Emptying::AwaitWritten => match reply {
            Reply::Completed => Step::Done(()),
            Reply::Failed(detail) => Step::Failed(BuildError::Io { detail }),
            _ => Step::Failed(BuildError::UnexpectedReply),
        },
    }
}

/// How far the generation of bindings has come.
#[derive(Debug, PartialEq, Eq)]
pub enum Generating {
    /// Nothing was asked yet.
    Start,
    /// The output directory was asked for.
    AwaitOutDir,
    /// The output directory was handed over to be created.
    AwaitDirCreated { out_dir: String },
    /// The first `checked` headers exist, and the next one was asked about.
    AwaitHeader { out_dir: String, checked: usize },
    /// The generator was started.
    AwaitGenerated,
}

/// What a `Generating` holds.
pub enum GeneratingView {
    Start,
    AwaitOutDir,
    AwaitDirCreated { out_dir: Seq<char> },
    AwaitHeader { out_dir: Seq<char>, checked: nat },
    AwaitGenerated,
}

impl View for Generating {
    type V = GeneratingView;

    open spec fn view(&self) -> GeneratingView {
        match self {
            Generating::Start => GeneratingView::Start,
            Generating::AwaitOutDir => GeneratingView::AwaitOutDir,
            Generating::AwaitDirCreated { out_dir } => GeneratingView::AwaitDirCreated {
                out_dir: out_dir@,
            },
            Generating::AwaitHeader { out_dir, checked } => GeneratingView::AwaitHeader {
                out_dir: out_dir@,
                checked: *checked as nat,
            },
            Generating::AwaitGenerated => GeneratingView::AwaitGenerated,
        }
    }
}

/// The step that follows once the first `checked` headers are known to exist:
/// the next header is asked about; when none is left, the generator is
/// started on all of them.
pub open spec fn after_headers(suite: Descriptor, out_dir: Seq<char>, checked: nat) -> StepView<
    GeneratingView,
    (),
    BuildErrorView,
> {
    if checked < suite.headers.len() {
        StepView::Ask {
            next: GeneratingView::AwaitHeader { out_dir, checked },
            query: QueryView::Exists { path: suite.headers[checked as int] },
        }
    } else {
        StepView::Ask {
            next: GeneratingView::AwaitGenerated,
            query: QueryView::Generate { request: request_for(suite, out_dir) },
        }
    }
}

/// The next step of the generation of bindings for `suite`.
pub open spec fn bindgen_spec(suite: Descriptor, state: GeneratingView, reply: ReplyView)
    -> StepView<GeneratingView, (), BuildErrorView> {
    match state {
        GeneratingView::Start => StepView::Ask {
            next: GeneratingView::AwaitOutDir,
            query: QueryView::Variable { name: output_variable() },
        },
        GeneratingView::AwaitOutDir => match reply {
            ReplyView::Variable(VarOutcomeView::Value(out_dir)) => StepView::Ask {
                next: GeneratingView::AwaitDirCreated { out_dir },
                query: QueryView::CreateDirAll { path: out_dir },
            },
            ReplyView::Variable(outcome) => StepView::Failed(
                BuildErrorView::OutputDirMissing { detail: unreadable_detail(outcome) },
            ),
            _ => StepView::Failed(BuildErrorView::UnexpectedReply),
        },
        GeneratingView::AwaitDirCreated { out_dir } => match reply {
            ReplyView::Completed => after_headers(suite, out_dir, 0),
            ReplyView::Failed(detail) => StepView::Failed(BuildErrorView::Io { detail }),
            _ => StepView::Failed(BuildErrorView::UnexpectedReply),
        },
        GeneratingView::AwaitHeader { out_dir, checked } => if checked < suite.headers.len() {
            match reply {
                ReplyView::Exists(true) => after_headers(suite, out_dir, checked + 1),
                ReplyView::Exists(false) => StepView::Failed(
                    BuildErrorView::HeaderNotFound { path: suite.headers[checked as int] },
                ),
                _ => StepView::Failed(BuildErrorView::UnexpectedReply),
            }
        } else {
            StepView::Failed(BuildErrorView::UnexpectedReply)
        },
        GeneratingView::AwaitGenerated => match reply {
            ReplyView::Completed => StepView::Done(()),
            ReplyView::Failed(diagnostic) => StepView::Failed(
                BuildErrorView::Generator { diagnostic },
            ),
            _ => StepView::Failed(BuildErrorView::UnexpectedReply),
        },
    }
}

/// Asks about the header that follows the first `checked`, or starts the
/// generator when none is left.
fn check_next_header<S: FfmpegSuite>(suite: &S, out_dir: String, checked: usize) -> (step: Step<
    Generating,
    (),
    BuildError,
>)
    ensures
        step@ == after_headers(describe(suite), out_dir@, checked as nat),
{
    let headers = header_paths(suite);
    if checked < headers.len() {
        let path = headers[checked].clone();
        assert(views(headers@)[checked as int] == headers@[checked as int]@);
        Step::Ask {
            next: Generating::AwaitHeader { out_dir, checked },
            query: Query::Exists { path },
        }
    } else {
        let request = generator_request(suite, out_dir.as_str());
        Step::Ask { next: Generating::AwaitGenerated, query: Query::Generate { request } }
    }
}

/// Takes the generation of bindings for `suite` one step further. The output
/// directory is asked for and created; each library's primary header is asked
/// about, in order, and the first one that is missing ends the generation;
/// when all exist the generator is started once, on all of them.
pub fn bindgen_for_suite<S: FfmpegSuite>(suite: &S, state: Generating, reply: Reply) -> (step:
    Step<Generating, (), BuildError>)
    ensures
        step@ == bindgen_spec(describe(suite), state@, reply@),
{
    match state {
        Generating::Start => Step::Ask {
            next: Generating::AwaitOutDir,
            query: Query::Variable { name: String::from_str("OUT_DIR") },
        },
        Generating::AwaitOutDir => match reply {
            Reply::Variable(outcome) => match outcome.into_value() {
                Ok(out_dir) => {
                    let path = out_dir.clone();
                    Step::Ask {
                        next: Generating::AwaitDirCreated { out_dir },
                        query: Query::CreateDirAll { path },
                    }
                },
                Err(detail) => Step::Failed(BuildError::OutputDirMissing { detail }),
            },
            _ => Step::Failed(BuildError::UnexpectedReply),
        },
        Generating::AwaitDirCreated { out_dir } => match reply {
            Reply::Completed => check_next_header(suite, out_dir, 0),
            Reply::Failed(detail) => Step::Failed(BuildError::Io { detail }),
            _ => Step::Failed(BuildError::UnexpectedReply),
        },
        Generating::AwaitHeader { out_dir, checked } => {
            let headers = header_paths(suite);
            if checked < headers.len() {
                match reply {
                    Reply::Exists(true) => check_next_header(suite, out_dir, checked + 1),
                    Reply::Exists(false) => {
                        let path = headers[checked].clone();
                        assert(views(headers@)[checked as int] == headers@[checked as int]@);
                        Step::Failed(BuildError::HeaderNotFound { path })
                    },
                    _ => Step::Failed(BuildError::UnexpectedReply),
                }
            } else {
                Step::Failed(BuildError::UnexpectedReply)
            }
        },
        Generating::AwaitGenerated => match reply {
            Reply::Completed => Step::Done(()),
            Reply::Failed(diagnostic) => Step::Failed(BuildError::Generator { diagnostic }),
            _ => Step::Failed(BuildError::UnexpectedReply),
        },
    }
}

/// The moves of the writing of empty bindings, as a function.
pub open spec fn empty_bindings_moves() -> spec_fn(Emptying, ReplyView) -> StepView<
    Emptying,
    (),
    BuildErrorView,
> {
    |state: Emptying, reply: ReplyView| empty_bindings_spec(state, reply)
}

/// What the writing of empty bindings owes in `world`.
pub open spec fn emptied(world: World) -> Result<(), BuildErrorView> {
    match (world.variables)(output_variable()) {
        VarOutcomeView::Value(out_dir) => match (world.failure)(
            QueryView::WriteFile { path: output_path(out_dir), contents: Seq::empty() },
        ) {
            Some(detail) => Err(BuildErrorView::Io { detail }),
            None => Ok(()),
        },
        outcome => Err(BuildErrorView::OutputDirMissing { detail: unreadable_detail(outcome) }),
    }
}

/// What the writing of empty bindings asks in `world`: for the output
/// directory, and then, where there is one, to write a file without contents
/// where the bindings belong.
pub open spec fn emptying_queries(world: World) -> Seq<QueryView> {
    match (world.variables)(output_variable()) {
        VarOutcomeView::Value(out_dir) => seq![
            (QueryView::Variable { name: output_variable() }),
            (QueryView::WriteFile { path: output_path(out_dir), contents: Seq::empty() }),
        ],
        _ => seq![(QueryView::Variable { name: output_variable() })],
    }
}

/// The writing of empty bindings asks what `emptying_queries` says and ends
/// with what `emptied` says.
pub proof fn empty_bindings_reaches_emptied(world: World, reply: ReplyView)
    ensures
        world.run(empty_bindings_moves(), Emptying::Start, reply, 2) == Some(emptied(world)),
        world.asked(empty_bindings_moves(), Emptying::Start, reply, 2) == emptying_queries(world),
{
    reveal_with_fuel(World::run, 3);
    reveal_with_fuel(World::asked, 3);
    assert(world.asked(empty_bindings_moves(), Emptying::Start, reply, 2) =~= emptying_queries(
        world,
    ));
}

/// The moves of the generation of bindings for `suite`, as a function.
pub open spec fn bindgen_moves(suite: Descriptor) -> spec_fn(GeneratingView, ReplyView)
    -> StepView<GeneratingView, (), BuildErrorView> {
    |state: GeneratingView, reply: ReplyView| bindgen_spec(suite, state, reply)
}

/// The place of the first of `paths`, from `from` on, at which nothing stands.
pub open spec fn first_missing(existing: Set<Seq<char>>, paths: Seq<Seq<char>>, from: nat)
    -> Option<nat>
    decreases paths.len() - from,
{
    if from >= paths.len() {
        None
    } else if !existing.contains(paths[from as int]) {
        Some(from)
    } else {
        first_missing(existing, paths, from + 1)
    }
}

/// What `first_missing` finds is missing, and all from `from` up to it exist;
/// where it finds nothing, all from `from` on exist.
pub proof fn first_missing_is_first(existing: Set<Seq<char>>, paths: Seq<Seq<char>>, from: nat)
    ensures
        first_missing(existing, paths, from) matches Some(k) ==> from <= k < paths.len()
            && !existing.contains(paths[k as int]) && forall|j: int|
            from <= j < k ==> existing.contains(#[trigger] paths[j]),
        first_missing(existing, paths, from) is None ==> forall|j: int|
            from <= j < paths.len() ==> existing.contains(#[trigger] paths[j]),
    decreases paths.len() - from,
{
    if from < paths.len() && existing.contains(paths[from as int]) {
        first_missing_is_first(existing, paths, from + 1);
    }
}

/// How the generator ends in `world` when it is started for `suite`.
pub open spec fn generator_outcome(world: World, suite: Descriptor, out_dir: Seq<char>) -> Result<
    (),
    BuildErrorView,
> {
    match (world.failure)(QueryView::Generate { request: request_for(suite, out_dir) }) {
        Some(diagnostic) => Err(BuildErrorView::Generator { diagnostic }),
        None => Ok(()),
    }
}

/// How the generation ends once the headers from `from` on are asked about.
pub open spec fn checked_outcome(world: World, suite: Descriptor, out_dir: Seq<char>, from: nat)
    -> Result<(), BuildErrorView> {
    match first_missing(world.existing, suite.headers, from) {
        Some(k) => Err(BuildErrorView::HeaderNotFound { path: suite.headers[k as int] }),
        None => generator_outcome(world, suite, out_dir),
    }
}

/// What the generation of bindings for `suite` owes in `world`: where the
/// output directory is known and can be created, the first missing header
/// ends it; only where no header is missing the generator runs, and its
/// outcome is the outcome.
pub open spec fn generated(world: World, suite: Descriptor) -> Result<(), BuildErrorView> {
    match (world.variables)(output_variable()) {
        VarOutcomeView::Value(out_dir) => match (world.failure)(
            QueryView::CreateDirAll { path: out_dir },
        ) {
            Some(detail) => Err(BuildErrorView::Io { detail }),
            None => checked_outcome(world, suite, out_dir, 0),
        },
        outcome => Err(BuildErrorView::OutputDirMissing { detail: unreadable_detail(outcome) }),
    }
}

/// The queries about `paths` from `from` up to, not including, `until`.
pub open spec fn header_queries(paths: Seq<Seq<char>>, from: int, until: int) -> Seq<QueryView> {
    Seq::new(
        (until - from) as nat,
        |i: int| QueryView::Exists { path: paths[from + i] },
    )
}

/// What is asked about the headers from `from` on, and after them.
pub open spec fn checking_queries(world: World, suite: Descriptor, out_dir: Seq<char>, from: nat)
    -> Seq<QueryView> {
    match first_missing(world.existing, suite.headers, from) {
        Some(k) => header_queries(suite.headers, from as int, k as int + 1),
        None => header_queries(suite.headers, from as int, suite.headers.len() as int) + seq![
            (QueryView::Generate { request: request_for(suite, out_dir) }),
        ],
    }
}

/// What the generation of bindings for `suite` asks in `world`: for the
/// output directory and to create it, then about each header in order up to
/// the first that is missing, and for the generator only where none is.
pub open spec fn generation_queries(world: World, suite: Descriptor) -> Seq<QueryView> {
    match (world.variables)(output_variable()) {
        VarOutcomeView::Value(out_dir) => seq![
            (QueryView::Variable { name: output_variable() }),
            (QueryView::CreateDirAll { path: out_dir }),
        ] + (match (world.failure)(QueryView::CreateDirAll { path: out_dir }) {
            Some(_) => Seq::empty(),
            None => checking_queries(world, suite, out_dir, 0),
        }),
        _ => seq![(QueryView::Variable { name: output_variable() })],
    }
}

/// The generation from the header at `checked` on, whose query was asked.
proof fn bindgen_goes_on(
    world: World,
    suite: Descriptor,
    out_dir: Seq<char>,
    checked: nat,
    fuel: nat,
)
    requires
        checked < suite.headers.len(),
        fuel >= suite.headers.len() - checked,
    ensures
        world.run(
            bindgen_moves(suite),
            GeneratingView::AwaitHeader { out_dir, checked },
            ReplyView::Exists(world.existing.contains(suite.headers[checked as int])),
            fuel,
        ) == Some(checked_outcome(world, suite, out_dir, checked)),
        seq![(QueryView::Exists { path: suite.headers[checked as int] })] + world.asked(
            bindgen_moves(suite),
            GeneratingView::AwaitHeader { out_dir, checked },
            ReplyView::Exists(world.existing.contains(suite.headers[checked as int])),
            fuel,
        ) == checking_queries(world, suite, out_dir, checked),
    decreases suite.headers.len() - checked,
{
    reveal_with_fuel(World::run, 3);
    reveal_with_fuel(World::asked, 3);
    reveal_with_fuel(first_missing, 2);
    let moves = bindgen_moves(suite);
    let state = GeneratingView::AwaitHeader { out_dir, checked };
    let reply = ReplyView::Exists(world.existing.contains(suite.headers[checked as int]));
    let here = seq![(QueryView::Exists { path: suite.headers[checked as int] })];
    let asked = world.asked(moves, state, reply, fuel);
    if !world.existing.contains(suite.headers[checked as int]) {
        assert(here + asked =~= checking_queries(world, suite, out_dir, checked));
    } else if checked + 1 < suite.headers.len() {
        bindgen_goes_on(world, suite, out_dir, checked + 1, (fuel - 1) as nat);
        let rest = checking_queries(world, suite, out_dir, checked + 1);
        assert(asked =~= rest);
        first_missing_is_first(world.existing, suite.headers, checked + 1);
        assert(here + rest =~= checking_queries(world, suite, out_dir, checked));
    } else {
        assert(here + asked =~= checking_queries(world, suite, out_dir, checked));
    }
}

/// A generation of bindings that starts afresh and has each query answered
/// by `world` asks what `generation_queries` says and ends with what
/// `generated` says.
pub proof fn bindgen_reaches_generated(world: World, suite: Descriptor, reply: ReplyView)
    ensures
        world.run(
            bindgen_moves(suite),
            GeneratingView::Start,
            reply,
            suite.headers.len() + 3,
        ) == Some(generated(world, suite)),
        world.asked(
            bindgen_moves(suite),
            GeneratingView::Start,
            reply,
            suite.headers.len() + 3,
        ) == generation_queries(world, suite),
{
    reveal_with_fuel(World::run, 5);
    reveal_with_fuel(World::asked, 5);
    reveal_with_fuel(first_missing, 2);
    let moves = bindgen_moves(suite);
    let fuel = suite.headers.len() + 3;
    let asked = world.asked(moves, GeneratingView::Start, reply, fuel);
    if let VarOutcomeView::Value(out_dir) = (world.variables)(output_variable()) {
        if (world.failure)(QueryView::CreateDirAll { path: out_dir }) is None {
            if suite.headers.len() > 0 {
                bindgen_goes_on(world, suite, out_dir, 0, suite.headers.len());
                let tail = world.asked(
                    moves,
                    GeneratingView::AwaitHeader { out_dir, checked: 0 },
                    ReplyView::Exists(world.existing.contains(suite.headers[0])),
                    suite.headers.len(),
                );
                assert(asked =~= seq![
                    (QueryView::Variable { name: output_variable() }),
                    (QueryView::CreateDirAll { path: out_dir }),
                ] + (seq![(QueryView::Exists { path: suite.headers[0] })] + tail));
            }
        }
    }
    assert(asked =~= generation_queries(world, suite));
}

/// Where the output directory stands ready and the header at `missing` is the
/// first at which nothing stands, the generation fails and names that header,
/// and the generator is never asked for.
pub proof fn missing_header_ends_generation(
    world: World,
    suite: Descriptor,
    reply: ReplyView,
    out_dir: Seq<char>,
    missing: int,
)
    requires
        (world.variables)(output_variable()) == VarOutcomeView::Value(out_dir),
        (world.failure)(QueryView::CreateDirAll { path: out_dir }) is None,
        0 <= missing < suite.headers.len(),
        !world.existing.contains(suite.headers[missing]),
        forall|j: int| 0 <= j < missing ==> world.existing.contains(#[trigger] suite.headers[j]),
    ensures
        world.run(
            bindgen_moves(suite),
            GeneratingView::Start,
            reply,
            suite.headers.len() + 3,
        ) == Some(
            Err::<(), BuildErrorView>(
                BuildErrorView::HeaderNotFound { path: suite.headers[missing] },
            ),
        ),
        forall|i: int|
            0 <= i < world.asked(
                bindgen_moves(suite),
                GeneratingView::Start,
                reply,
                suite.headers.len() + 3,
            ).len() ==> !(#[trigger] world.asked(
                bindgen_moves(suite),
                GeneratingView::Start,
                reply,
                suite.headers.len() + 3,
            )[i] is Generate),
{
    bindgen_reaches_generated(world, suite, reply);
    first_missing_is_first(world.existing, suite.headers, 0);
}

} // verus!
