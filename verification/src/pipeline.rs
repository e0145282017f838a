//! The build from its first query to its end.

use vstd::prelude::*;
use vstd::string::*;
use crate::bindings::{
    bindgen_for_suite, bindgen_moves, bindgen_reaches_generated, bindgen_spec, empty_bindings,
    empty_bindings_moves, empty_bindings_reaches_emptied, empty_bindings_spec, emptied,
    emptying_queries, generated, generation_queries, Emptying, Generating, GeneratingView,
};
use crate::env_install::{
    describe_by_view, finding_queries, located, EnvInstallSuite, EnvInstallSuiteView,
};
use crate::error::{BuildError, BuildErrorView};
use crate::host::{
    lifted, run_lifted, run_with_more_fuel, Query, QueryView, Reply, ReplyView, Step, StepView,
    VarOutcome, VarOutcomeView, World,
};
use crate::link::{directives, link_directives};
use crate::resolve::{
    all_failed, find_suite, find_suite_spec, repeated, resolved, resolving_queries, FailureView,
    Locator, NoSuiteFound, NoSuiteFoundView, Resolving, ResolvingView,
};

verus! {

/// How far a build has come.
#[derive(Debug, PartialEq, Eq)]
pub enum Build {
    /// Nothing was asked yet.
    Start,
    /// The signal of a documentation build was asked for.
    AwaitDocs,
    /// Empty bindings are being written.
    Emptying(Emptying),
    /// A suite is being looked for.
    Resolving(Resolving),
    /// The link directives of `suite` were handed over to be printed.
    AwaitPrinted { suite: EnvInstallSuite },
    /// The bindings for `suite` are being generated.
    Generating { suite: EnvInstallSuite, state: Generating },
}

/// What a `Build` holds.
pub enum BuildView {
    Start,
    AwaitDocs,
    Emptying(Emptying),
    Resolving(ResolvingView),
    AwaitPrinted { suite: EnvInstallSuiteView },
    Generating { suite: EnvInstallSuiteView, state: GeneratingView },
}

impl View for Build {
    type V = BuildView;

    open spec fn view(&self) -> BuildView {
        match self {
            Build::Start => BuildView::Start,
            Build::AwaitDocs => BuildView::AwaitDocs,
            Build::Emptying(state) => BuildView::Emptying(*state),
            Build::Resolving(state) => BuildView::Resolving(state@),
            Build::AwaitPrinted { suite } => BuildView::AwaitPrinted { suite: suite@ },
            Build::Generating { suite, state } => BuildView::Generating {
                suite: suite@,
                state: state@,
            },
        }
    }
}

/// The name of the variable whose presence marks a documentation build. It
/// is present whenever it is set, whatever it is set to: to text or to
/// something that is no text.
pub open spec fn docs_variable() -> Seq<char> {
    "DOCS_RS"@
}

/// The locators of a build, in the order in which they are tried.
pub open spec fn locators() -> Seq<Locator> {
    seq![Locator::EnvInstall]
}

/// A step of the writing of empty bindings, as a step of the build.
pub open spec fn while_emptying(step: StepView<Emptying, (), BuildErrorView>) -> StepView<
    BuildView,
    (),
    BuildErrorView,
> {
    match step {
        StepView::Ask { next, query } => StepView::Ask { next: BuildView::Emptying(next), query },
        StepView::Done(done) => StepView::Done(done),
        StepView::Failed(error) => StepView::Failed(error),
    }
}

/// A step of the resolution, as a step of the build: once a suite is found,
/// its link directives are handed over to be printed.
pub open spec fn while_resolving(
    step: StepView<ResolvingView, EnvInstallSuiteView, NoSuiteFoundView>,
) -> StepView<BuildView, (), BuildErrorView> {
    match step {
        StepView::Ask { next, query } => StepView::Ask { next: BuildView::Resolving(next), query },
        StepView::Done(suite) => StepView::Ask {
            next: BuildView::AwaitPrinted { suite },
            query: QueryView::Print { lines: directives(suite.descriptor()) },
        },
        StepView::Failed(error) => StepView::Failed(BuildErrorView::NoSuiteFound(error)),
    }
}

/// A step of the generation of bindings for `suite`, as a step of the build.
pub open spec fn while_generating(
    suite: EnvInstallSuiteView,
    step: StepView<GeneratingView, (), BuildErrorView>,
) -> StepView<BuildView, (), BuildErrorView> {
    match step {
        StepView::Ask { next, query } => StepView::Ask {
            next: BuildView::Generating { suite, state: next },
            query,
        },
        StepView::Done(done) => StepView::Done(done),
        StepView::Failed(error) => StepView::Failed(error),
    }
}

/// The next step of the build. The signal of a documentation build is asked
/// for before anything else: where it is present, whatever its value, empty
/// bindings are written and nothing more is done. Otherwise a suite is looked for, its link
/// directives are printed, and its bindings are generated.
pub open spec fn build_spec(state: BuildView, reply: ReplyView) -> StepView<
    BuildView,
    (),
    BuildErrorView,
> {
    match state {
        BuildView::Start => StepView::Ask {
            next: BuildView::AwaitDocs,
            query: QueryView::Variable { name: docs_variable() },
        },
        BuildView::AwaitDocs => match reply {
            ReplyView::Variable(VarOutcomeView::NotPresent) => while_resolving(
                find_suite_spec(ResolvingView::start(locators()), ReplyView::Completed),
            ),
            ReplyView::Variable(_) => while_emptying(
                empty_bindings_spec(Emptying::Start, ReplyView::Completed),
            ),
            _ => StepView::Failed(BuildErrorView::UnexpectedReply),
        },
        BuildView::Emptying(state) => while_emptying(empty_bindings_spec(state, reply)),
        BuildView::Resolving(state) => while_resolving(find_suite_spec(state, reply)),
        BuildView::AwaitPrinted { suite } => match reply {
            ReplyView::Completed => while_generating(
                suite,
                bindgen_spec(suite.descriptor(), GeneratingView::Start, ReplyView::Completed),
            ),
            ReplyView::Failed(detail) => StepView::Failed(BuildErrorView::Io { detail }),
            _ => StepView::Failed(BuildErrorView::UnexpectedReply),
        },
        BuildView::Generating { suite, state } => while_generating(
            suite,
            bindgen_spec(suite.descriptor(), state, reply),
        ),
    }
}

/// Makes a step of the writing of empty bindings a step of the build.
fn emptying(step: Step<Emptying, (), BuildError>) -> (lifted: Step<Build, (), BuildError>)
    ensures
        lifted@ == while_emptying(step@),
{
    match step {
        Step::Ask { next, query } => Step::Ask { next: Build::Emptying(next), query },
        Step::Done(done) => Step::Done(done),
        Step::Failed(error) => Step::Failed(error),
    }
}

/// Makes a step of the resolution a step of the build.
fn resolving(step: Step<Resolving, EnvInstallSuite, NoSuiteFound>) -> (lifted: Step<
    Build,
    (),
    BuildError,
>)
    ensures
        lifted@ == while_resolving(step@),
{
    match step {
        Step::Ask { next, query } => Step::Ask { next: Build::Resolving(next), query },
        Step::Done(suite) => {
            proof {
                describe_by_view(&suite);
            }
            let lines = link_directives(&suite);
            Step::Ask { next: Build::AwaitPrinted { suite }, query: Query::Print { lines } }
        },
        Step::Failed(error) => Step::Failed(BuildError::NoSuiteFound(error)),
    }
}

/// Takes the generation of bindings for `suite` one step further, as a step
/// of the build.
fn generating(suite: EnvInstallSuite, state: Generating, reply: Reply) -> (lifted: Step<
    Build,
    (),
    BuildError,
>)
    ensures
        lifted@ == while_generating(suite@, bindgen_spec(suite@.descriptor(), state@, reply@)),
{
    proof {
        describe_by_view(&suite);
    }
    match bindgen_for_suite(&suite, state, reply) {
        Step::Ask { next, query } => Step::Ask {
            next: Build::Generating { suite, state: next },
            query,
        },
        Step::Done(done) => Step::Done(done),
        Step::Failed(error) => Step::Failed(error),
    }
}

/// Takes the build one step further: from where it stands and the reply to
/// its last query, to the next query or to its end.
pub fn build(state: Build, reply: Reply) -> (step: Step<Build, (), BuildError>)
    ensures
        step@ == build_spec(state@, reply@),
{
    match state {
        Build::Start => Step::Ask {
            next: Build::AwaitDocs,
            query: Query::Variable { name: String::from_str("DOCS_RS") },
        },
        Build::AwaitDocs => match reply {
            Reply::Variable(VarOutcome::NotPresent) => {
                let mut locators: Vec<Locator> = Vec::new();
                locators.push(Locator::EnvInstall);
                assert(locators@ =~= self::locators());
                resolving(find_suite(Resolving::new(locators), Reply::Completed))
            },
            Reply::Variable(_) => emptying(empty_bindings(Emptying::Start, Reply::Completed)),
            _ => Step::Failed(BuildError::UnexpectedReply),
        },
        Build::Emptying(state) => emptying(empty_bindings(state, reply)),
        Build::Resolving(state) => resolving(find_suite(state, reply)),
        Build::AwaitPrinted { suite } => match reply {
            Reply::Completed => generating(suite, Generating::Start, Reply::Completed),
            Reply::Failed(detail) => Step::Failed(BuildError::Io { detail }),
            _ => Step::Failed(BuildError::UnexpectedReply),
        },
        Build::Generating { suite, state } => generating(suite, state, reply),
    }
}

/// The moves of the build, as a function.
pub open spec fn build_moves() -> spec_fn(BuildView, ReplyView) -> StepView<
    BuildView,
    (),
    BuildErrorView,
> {
    |state: BuildView, reply: ReplyView| build_spec(state, reply)
}

/// What the build asks once the signal of a documentation build is found
/// absent.
pub open spec fn ordinary_queries(world: World) -> Seq<QueryView> {
    resolving_queries(world, locators()) + (match resolved(world, locators()) {
        Ok(suite) => seq![(QueryView::Print { lines: directives(suite.descriptor()) })] + (
        match (world.failure)(QueryView::Print { lines: directives(suite.descriptor()) }) {
            Some(_) => Seq::empty(),
            None => generation_queries(world, suite.descriptor()),
        }),
        Err(_) => Seq::empty(),
    })
}

/// What the build owes once the signal of a documentation build is found
/// absent.
pub open spec fn ordinary_outcome(world: World) -> Result<(), BuildErrorView> {
    match resolved(world, locators()) {
        Ok(suite) => match (world.failure)(
            QueryView::Print { lines: directives(suite.descriptor()) },
        ) {
            Some(detail) => Err(BuildErrorView::Io { detail }),
            None => generated(world, suite.descriptor()),
        },
        Err(error) => Err(BuildErrorView::NoSuiteFound(error)),
    }
}

/// What the build owes in `world`. Under the signal of a documentation build,
/// empty bindings and nothing else. Otherwise the bindings of the suite that
/// the resolution finds, once its link directives are printed; and where it
/// finds none, its failure.
pub open spec fn built(world: World) -> Result<(), BuildErrorView> {
    if !((world.variables)(docs_variable()) is NotPresent) {
        emptied(world)
    } else {
        ordinary_outcome(world)
    }
}

/// What the build asks in `world`. First for the signal of a documentation
/// build. Under it, what the writing of empty bindings asks, and nothing
/// else. Otherwise what the resolution asks; where it finds a suite, to print
/// the link directives; and where they are printed, what the generation of
/// the bindings asks.
pub open spec fn build_queries(world: World) -> Seq<QueryView> {
    seq![(QueryView::Variable { name: docs_variable() })] + (if !((world.variables)(
        docs_variable(),
    ) is NotPresent) {
        emptying_queries(world)
    } else {
        ordinary_queries(world)
    })
}

/// The number of queries within which a build in `world` ends.
pub open spec fn build_bound(world: World) -> nat {
    match located(world) {
        Ok(suite) => suite.descriptor().headers.len() + 9,
        Err(_) => 9,
    }
}

/// The build under the signal of a documentation build.
proof fn build_empties(world: World, fuel: nat)
    requires
        fuel >= 2,
    ensures
        world.run(build_moves(), BuildView::Emptying(Emptying::Start), ReplyView::Completed, fuel)
            == Some(emptied(world)),
        world.asked(
            build_moves(),
            BuildView::Emptying(Emptying::Start),
            ReplyView::Completed,
            fuel,
        ) == emptying_queries(world),
{
    let wrap = |state: Emptying| BuildView::Emptying(state);
    let inner = empty_bindings_moves();
    assert forall|s: Emptying, r: ReplyView| #[trigger]
        build_moves()(wrap(s), r) == lifted(wrap, inner(s, r)) by {}
    run_lifted(world, inner, build_moves(), wrap, Emptying::Start, ReplyView::Completed, fuel);
    empty_bindings_reaches_emptied(world, ReplyView::Completed);
    run_with_more_fuel(world, inner, Emptying::Start, ReplyView::Completed, 2, fuel);
}

/// The build from the generation of the bindings of `suite` on.
proof fn build_generates(world: World, suite: EnvInstallSuiteView, fuel: nat)
    requires
        fuel >= suite.descriptor().headers.len() + 3,
    ensures
        world.run(
            build_moves(),
            BuildView::Generating { suite, state: GeneratingView::Start },
            ReplyView::Completed,
            fuel,
        ) == Some(generated(world, suite.descriptor())),
        world.asked(
            build_moves(),
            BuildView::Generating { suite, state: GeneratingView::Start },
            ReplyView::Completed,
            fuel,
        ) == generation_queries(world, suite.descriptor()),
{
    let wrap = |state: GeneratingView| BuildView::Generating { suite, state };
    let inner = bindgen_moves(suite.descriptor());
    assert forall|s: GeneratingView, r: ReplyView| #[trigger]
        build_moves()(wrap(s), r) == lifted(wrap, inner(s, r)) by {}
    run_lifted(
        world,
        inner,
        build_moves(),
        wrap,
        GeneratingView::Start,
        ReplyView::Completed,
        fuel,
    );
    bindgen_reaches_generated(world, suite.descriptor(), ReplyView::Completed);
    run_with_more_fuel(
        world,
        inner,
        GeneratingView::Start,
        ReplyView::Completed,
        suite.descriptor().headers.len() + 3,
        fuel,
    );
}

/// The build from the resolution on.
proof fn build_resolves(world: World, fuel: nat)
    requires
        fuel + 1 >= build_bound(world),
    ensures
        world.run(
            build_moves(),
            BuildView::Resolving(ResolvingView::start(locators())),
            ReplyView::Completed,
            fuel,
        ) == Some(ordinary_outcome(world)),
        world.asked(
            build_moves(),
            BuildView::Resolving(ResolvingView::start(locators())),
            ReplyView::Completed,
            fuel,
        ) == ordinary_queries(world),
{
    reveal_with_fuel(World::run, 6);
    reveal_with_fuel(World::asked, 6);
    reveal_with_fuel(find_suite_spec, 2);
    reveal_with_fuel(repeated, 2);
    let asked = world.asked(
        build_moves(),
        BuildView::Resolving(ResolvingView::start(locators())),
        ReplyView::Completed,
        fuel,
    );
    assert(resolving_queries(world, locators()) =~= finding_queries(world));
    match located(world) {
        Ok(suite) => {
            build_generates(world, suite, (fuel - 5) as nat);
            let print = QueryView::Print { lines: directives(suite.descriptor()) };
            if (world.failure)(print) is None {
                assert(asked =~= finding_queries(world) + (seq![print] + generation_queries(
                    world,
                    suite.descriptor(),
                )));
            } else {
                assert(asked =~= finding_queries(world) + (seq![print]
                    + Seq::<QueryView>::empty()));
            }
        },
        Err(error) => {
            assert(Seq::<FailureView>::empty().push(
                FailureView { locator: Locator::EnvInstall, error },
            ) =~= all_failed(locators(), error));
            assert(asked =~= finding_queries(world) + Seq::<QueryView>::empty());
        },
    }
}

/// A build that starts afresh and has each query answered by `world` asks
/// what `build_queries` says and ends with what `built` says.
pub proof fn build_reaches_built(world: World, reply: ReplyView, fuel: nat)
    requires
        fuel >= build_bound(world),
    ensures
        world.run(build_moves(), BuildView::Start, reply, fuel) == Some(built(world)),
        world.asked(build_moves(), BuildView::Start, reply, fuel) == build_queries(world),
{
    reveal_with_fuel(World::run, 3);
    reveal_with_fuel(World::asked, 3);
    let asked = world.asked(build_moves(), BuildView::Start, reply, fuel);
    let first = seq![(QueryView::Variable { name: docs_variable() })];
    let rest = (fuel - 1) as nat;
    let signal = ReplyView::Variable((world.variables)(docs_variable()));
    if (world.variables)(docs_variable()) is NotPresent {
        build_resolves(world, rest);
        assert(build_spec(BuildView::AwaitDocs, signal) == build_spec(
            BuildView::Resolving(ResolvingView::start(locators())),
            ReplyView::Completed,
        ));
        assert(asked =~= first + ordinary_queries(world));
    } else {
        build_empties(world, rest);
        assert(build_spec(BuildView::AwaitDocs, signal) == build_spec(
            BuildView::Emptying(Emptying::Start),
            ReplyView::Completed,
        ));
        assert(asked =~= first + emptying_queries(world));
    }
}

/// The signal of a documentation build is what a build asks for first.
pub proof fn build_begins_with_the_docs_signal(world: World, reply: ReplyView, fuel: nat)
    requires
        fuel >= build_bound(world),
    ensures
        world.asked(build_moves(), BuildView::Start, reply, fuel).len() > 0,
        world.asked(build_moves(), BuildView::Start, reply, fuel)[0] == (QueryView::Variable {
            name: docs_variable(),
        }),
{
    build_reaches_built(world, reply, fuel);
}

/// Under the signal of a documentation build nothing is asked of the file
/// system but to write the empty bindings: after the signal the build asks
/// for the output directory and, where there is one, writes a file without
/// contents where the bindings belong. It ends as that writing ends.
pub proof fn docs_build_writes_empty_bindings(world: World, reply: ReplyView, fuel: nat)
    requires
        !((world.variables)(docs_variable()) is NotPresent),
        fuel >= build_bound(world),
    ensures
        world.run(build_moves(), BuildView::Start, reply, fuel) == Some(emptied(world)),
        world.asked(build_moves(), BuildView::Start, reply, fuel) == seq![
            (QueryView::Variable { name: docs_variable() }),
        ] + emptying_queries(world),
{
    build_reaches_built(world, reply, fuel);
}

/// Where the world holds no suite, the build prints nothing and generates
/// nothing: it asks what the resolution asks and fails with its failure.
pub proof fn build_without_suite_fails(world: World, reply: ReplyView, fuel: nat)
    requires
        (world.variables)(docs_variable()) is NotPresent,
        located(world) is Err,
        fuel >= build_bound(world),
    ensures
        world.run(build_moves(), BuildView::Start, reply, fuel) matches Some(
            Err(BuildErrorView::NoSuiteFound(_)),
        ),
        world.asked(build_moves(), BuildView::Start, reply, fuel) == seq![
            (QueryView::Variable { name: docs_variable() }),
        ] + finding_queries(world),
{
    reveal_with_fuel(repeated, 2);
    build_reaches_built(world, reply, fuel);
    assert(resolving_queries(world, locators()) =~= finding_queries(world));
    assert(build_queries(world) =~= seq![(QueryView::Variable { name: docs_variable() })]
        + finding_queries(world));
}

} // verus!
