//! Trying the locators in order, up to the first that finds a suite.

use vstd::prelude::*;
use vstd::string::*;
use crate::env_install::{
    alike, find, find_reaches_located, find_spec, finding_queries, located, located_alike,
    EnvInstallSuite, EnvInstallSuiteView, LocateError, LocateErrorView, Locating, LocatingView,
};
use crate::host::{run_with_more_fuel, QueryView, Reply, ReplyView, Step, StepView, World};
use crate::text::{
    join_with, joined, joined_holds_each, occurs_in, occurs_in_chain, occurs_in_middle,
    occurs_in_wider, views,
};

verus! {

/// A way of looking for an installed suite.
#[derive(Debug, Clone, Copy, PartialEq, Eq)]
pub enum Locator {
    /// Through the environment variable that names the installation root.
    EnvInstall,
}

impl Locator {
    /// The name under which the locator is reported.
    pub open spec fn label(self) -> Seq<char> {
        match self {
            Locator::EnvInstall => "env_install"@,
        }
    }

    /// The name under which the locator is reported.
    pub fn name(&self) -> (name: String)
        ensures
            name@ == self.label(),
    {
        match self {
            Locator::EnvInstall => String::from_str("env_install"),
        }
    }
}

/// One locator that found nothing, and why.
#[derive(Debug, PartialEq, Eq)]
pub struct Failure {
    pub locator: Locator,
    pub error: LocateError,
}

/// What a `Failure` holds.
pub struct FailureView {
    pub locator: Locator,
    pub error: LocateErrorView,
}

impl View for Failure {
    type V = FailureView;

    open spec fn view(&self) -> FailureView {
        FailureView { locator: self.locator, error: self.error@ }
    }
}

impl FailureView {
    /// The failure in words: the locator's name, then the reason.
    pub open spec fn reason(self) -> Seq<char> {
        self.locator.label() + " not found: "@ + self.error.message()
    }
}

impl Failure {
    /// Puts the failure in words.
    pub fn reason(&self) -> (text: String)
        ensures
            text@ == self@.reason(),
    {
        let mut text = self.locator.name();
        text.append(" not found: ");
        let message = self.error.message();
        text.append(message.as_str());
        text
    }
}

/// The views of a sequence of failures, in order.
pub open spec fn failure_views(failures: Seq<Failure>) -> Seq<FailureView> {
    failures.map_values(|f: Failure| f@)
}

/// The reasons of a sequence of failures, in order.
pub open spec fn reasons_of(failures: Seq<FailureView>) -> Seq<Seq<char>> {
    failures.map_values(|f: FailureView| f.reason())
}

/// No locator found a suite: the failures of all of them, in the order in
/// which they were tried.
#[derive(Debug, PartialEq, Eq)]
pub struct NoSuiteFound {
    pub failures: Vec<Failure>,
}

/// What a `NoSuiteFound` holds.
pub struct NoSuiteFoundView {
    pub failures: Seq<FailureView>,
}

impl View for NoSuiteFound {
    type V = NoSuiteFoundView;

    open spec fn view(&self) -> NoSuiteFoundView {
        NoSuiteFoundView { failures: failure_views(self.failures@) }
    }
}

impl NoSuiteFoundView {
    /// The error in words: a heading, then the reason of each failure, an
    /// empty line between each two.
    pub open spec fn message(self) -> Seq<char> {
        "No FFMPEG suite found: \n"@ + joined(reasons_of(self.failures), "\n\n"@)
    }
}

impl NoSuiteFound {
    /// Puts the error in words.
    pub fn message(&self) -> (text: String)
        ensures
            text@ == self@.message(),
    {
        let mut reasons: Vec<String> = Vec::new();
        let mut i: usize = 0;
        while i < self.failures.len()
            invariant
                i <= self.failures.len(),
                views(reasons@) == reasons_of(failure_views(self.failures@.take(i as int))),
            decreases self.failures.len() - i,
        {
            let ghost before = views(reasons@);
            let reason = self.failures[i].reason();
            reasons.push(reason);
            assert(views(reasons@) =~= before.push(reason@));
            assert(reasons_of(failure_views(self.failures@.take(i + 1))) =~= before.push(reason@));
            i += 1;
        }
        assert(self.failures@.take(i as int) =~= self.failures@);
        let mut text = String::from_str("No FFMPEG suite found: \n");
        let list = join_with(&reasons, "\n\n");
        text.append(list.as_str());
        text
    }
}

/// How far the resolution has come: the locators in the order in which they
/// are tried, which of them is at work, the failures of those before it, and
/// how far its search has come.
#[derive(Debug, PartialEq, Eq)]
pub struct Resolving {
    pub locators: Vec<Locator>,
    pub current: usize,
    pub failures: Vec<Failure>,
    pub locating: Locating,
}

/// What a `Resolving` holds.
pub struct ResolvingView {
    pub locators: Seq<Locator>,
    pub current: nat,
    pub failures: Seq<FailureView>,
    pub locating: LocatingView,
}

impl View for Resolving {
    type V = ResolvingView;

    open spec fn view(&self) -> ResolvingView {
        ResolvingView {
            locators: self.locators@,
            current: self.current as nat,
            failures: failure_views(self.failures@),
            locating: self.locating@,
        }
    }
}

impl ResolvingView {
    /// The state from which `locators` are tried afresh, in order.
    pub open spec fn start(locators: Seq<Locator>) -> ResolvingView {
        ResolvingView {
            locators,
            current: 0,
            failures: Seq::empty(),
            locating: LocatingView::Start,
        }
    }
}

impl Resolving {
    /// The state from which `locators` are tried afresh, in order.
    pub fn new(locators: Vec<Locator>) -> (state: Resolving)
        ensures
            state@ == ResolvingView::start(locators@),
    {
        let state = Resolving {
            locators,
            current: 0,
            failures: Vec::new(),
            locating: Locating::Start,
        };
        assert(failure_views(state.failures@) =~= Seq::empty());
        state
    }
}

/// The next step of the resolution. The locator at work makes its move: a
/// query is passed on, a suite ends the resolution, and a failure is noted
/// and hands over to the next locator, which starts at once. When no locator
/// is left, the resolution fails with all that was noted.
pub open spec fn find_suite_spec(state: ResolvingView, reply: ReplyView) -> StepView<
    ResolvingView,
    EnvInstallSuiteView,
    NoSuiteFoundView,
>
    decreases state.locators.len() - state.current,
{
    if state.current >= state.locators.len() {
        StepView::Failed(NoSuiteFoundView { failures: state.failures })
    } else {
        match find_spec(state.locating, reply) {
            StepView::Ask { next, query } => StepView::Ask {
                next: ResolvingView { locating: next, ..state },
                query,
            },
            StepView::Done(suite) => StepView::Done(suite),
            StepView::Failed(error) => find_suite_spec(
                ResolvingView {
                    locators: state.locators,
                    current: state.current + 1,
                    failures: state.failures.push(
                        FailureView { locator: state.locators[state.current as int], error },
                    ),
                    locating: LocatingView::Start,
                },
                ReplyView::Completed,
            ),
        }
    }
}

/// Takes the resolution one step further: from where it stands and the reply
/// to its last query, to the next query, to the first suite found, or to the
/// failures of all locators.
pub fn find_suite(state: Resolving, reply: Reply) -> (step: Step<
    Resolving,
    EnvInstallSuite,
    NoSuiteFound,
>)
    ensures
        step@ == find_suite_spec(state@, reply@),
    decreases state.locators.len() - state.current,
{
    let Resolving { locators, current, failures, locating } = state;
    if current >= locators.len() {
        return Step::Failed(NoSuiteFound { failures });
    }
    let locator = locators[current];
    match find(locating, reply) {
        Step::Ask { next, query } => Step::Ask {
            next: Resolving { locators, current, failures, locating: next },
            query,
        },
        Step::Done(suite) => Step::Done(suite),
        Step::Failed(error) => {
            let ghost noted = failure_views(failures@);
            let mut failures = failures;
            let failure = Failure { locator, error };
            failures.push(failure);
            assert(failure_views(failures@) =~= noted.push(failure@));
            find_suite(
                Resolving { locators, current: current + 1, failures, locating: Locating::Start },
                Reply::Completed,
            )
        },
    }
}

/// The message of a failed resolution holds the reason of every locator that
/// was tried, with the locator's own account of what was missing, not of the
/// last one only.
pub proof fn message_holds_every_reason(error: NoSuiteFoundView, i: int)
    requires
        0 <= i < error.failures.len(),
    ensures
        occurs_in(error.failures[i].reason(), error.message()),
        occurs_in(error.failures[i].error.message(), error.message()),
{
    let empty = Seq::<char>::empty();
    let heading = "No FFMPEG suite found: \n"@;
    let reasons = reasons_of(error.failures);
    let list = joined(reasons, "\n\n"@);
    let failure = error.failures[i];
    joined_holds_each(reasons, "\n\n"@, i);
    occurs_in_wider(failure.reason(), list, heading, empty);
    assert(heading + list + empty =~= error.message());
    occurs_in_middle(failure.locator.label() + " not found: "@, failure.error.message(), empty);
    assert(failure.locator.label() + " not found: "@ + failure.error.message() + empty
        =~= failure.reason());
    occurs_in_chain(failure.error.message(), failure.reason(), error.message());
}

/// The moves of the resolution, as a function.
pub open spec fn find_suite_moves() -> spec_fn(ResolvingView, ReplyView) -> StepView<
    ResolvingView,
    EnvInstallSuiteView,
    NoSuiteFoundView,
> {
    |state: ResolvingView, reply: ReplyView| find_suite_spec(state, reply)
}

/// Each of `locators` failing with `error`, in order.
pub open spec fn all_failed(locators: Seq<Locator>, error: LocateErrorView) -> Seq<FailureView> {
    locators.map_values(|locator: Locator| FailureView { locator, error })
}

/// What the resolution owes in `world`: the suite that the first locator
/// finds; where the world holds none, the failure of every locator, in order.
pub open spec fn resolved(world: World, locators: Seq<Locator>) -> Result<
    EnvInstallSuiteView,
    NoSuiteFoundView,
> {
    if locators.len() == 0 {
        Err(NoSuiteFoundView { failures: Seq::empty() })
    } else {
        match located(world) {
            Ok(suite) => Ok(suite),
            Err(error) => Err(NoSuiteFoundView { failures: all_failed(locators, error) }),
        }
    }
}

/// The queries `queries`, `times` times over.
pub open spec fn repeated(queries: Seq<QueryView>, times: nat) -> Seq<QueryView>
    decreases times,
{
    if times == 0 {
        Seq::empty()
    } else {
        queries + repeated(queries, (times - 1) as nat)
    }
}

/// What the resolution asks in `world`: what the first locator asks, where
/// it finds a suite; else what each of them asks, one after the other.
pub open spec fn resolving_queries(world: World, locators: Seq<Locator>) -> Seq<QueryView> {
    if locators.len() == 0 {
        Seq::empty()
    } else if located(world) is Ok {
        finding_queries(world)
    } else {
        repeated(finding_queries(world), locators.len())
    }
}

/// The resolution from the locator at `current` on, with `failures` noted.
proof fn find_suite_goes_on(
    world: World,
    locators: Seq<Locator>,
    current: nat,
    failures: Seq<FailureView>,
    reply: ReplyView,
)
    requires
        current <= locators.len(),
    ensures
        world.run(
            find_suite_moves(),
            ResolvingView { locators, current, failures, locating: LocatingView::Start },
            reply,
            4 * (locators.len() - current) as nat,
        ) == Some(
            if current == locators.len() {
                Err::<EnvInstallSuiteView, NoSuiteFoundView>(NoSuiteFoundView { failures })
            } else {
                match located(world) {
                    Ok(suite) => Ok(suite),
                    Err(error) => Err(
                        NoSuiteFoundView {
                            failures: failures + all_failed(
                                locators.skip(current as int),
                                error,
                            ),
                        },
                    ),
                }
            },
        ),
        world.asked(
            find_suite_moves(),
            ResolvingView { locators, current, failures, locating: LocatingView::Start },
            reply,
            4 * (locators.len() - current) as nat,
        ) == resolving_queries(world, locators.skip(current as int)),
    decreases locators.len() - current,
{
    reveal_with_fuel(World::run, 5);
    reveal_with_fuel(World::asked, 5);
    reveal_with_fuel(repeated, 2);
    let moves = find_suite_moves();
    let state = ResolvingView { locators, current, failures, locating: LocatingView::Start };
    let fuel = (4 * (locators.len() - current)) as nat;
    let asked = world.asked(moves, state, reply, fuel);
    if current < locators.len() {
        find_reaches_located(world, reply);
        match located(world) {
            Ok(_) => {
                assert(asked =~= finding_queries(world));
            },
            Err(error) => {
                let noted = failures.push(
                    FailureView { locator: locators[current as int], error },
                );
                let next = ResolvingView {
                    locators,
                    current: current + 1,
                    failures: noted,
                    locating: LocatingView::Start,
                };
                let less = (4 * (locators.len() - current - 1)) as nat;
                find_suite_goes_on(world, locators, current + 1, noted, ReplyView::Completed);
                assert(noted + all_failed(locators.skip(current + 1 as int), error) =~= failures
                    + all_failed(locators.skip(current as int), error));
                run_with_more_fuel(
                    world,
                    moves,
                    next,
                    ReplyView::Completed,
                    less,
                    (fuel - 1) as nat,
                );
                run_with_more_fuel(
                    world,
                    moves,
                    next,
                    ReplyView::Completed,
                    less,
                    (fuel - 2) as nat,
                );
                run_with_more_fuel(
                    world,
                    moves,
                    next,
                    ReplyView::Completed,
                    less,
                    (fuel - 3) as nat,
                );
                let rest = world.asked(moves, next, ReplyView::Completed, less);
                assert(locators.skip(current + 1 as int).len() == locators.len() - current - 1);
                assert(locators.skip(current as int).len() == locators.len() - current);
                if current + 1 == locators.len() {
                    assert(rest =~= Seq::empty());
                } else {
                    assert(rest == repeated(
                        finding_queries(world),
                        (locators.len() - current - 1) as nat,
                    ));
                }
                assert(asked =~= finding_queries(world) + rest);
            },
        }
    }
}

/// A resolution that starts afresh and has each query answered by `world`
/// asks what `resolving_queries` says and ends, after four queries for each
/// locator at most, with what `resolved` says.
pub proof fn find_suite_reaches_resolved(world: World, locators: Seq<Locator>, reply: ReplyView)
    ensures
        world.run(
            find_suite_moves(),
            ResolvingView::start(locators),
            reply,
            4 * locators.len(),
        ) == Some(resolved(world, locators)),
        world.asked(
            find_suite_moves(),
            ResolvingView::start(locators),
            reply,
            4 * locators.len(),
        ) == resolving_queries(world, locators),
{
    find_suite_goes_on(world, locators, 0, Seq::empty(), reply);
    assert(locators.skip(0) =~= locators);
    if let Err(error) = located(world) {
        assert(Seq::<FailureView>::empty() + all_failed(locators.skip(0), error) =~= all_failed(
            locators,
            error,
        ));
    }
}

/// Where the world holds no suite, the resolution gives none: it fails, and
/// its message holds, for every locator, what that locator found missing.
pub proof fn find_suite_fails_without_suite(
    world: World,
    locators: Seq<Locator>,
    reply: ReplyView,
    i: int,
)
    requires
        located(world) is Err,
        0 <= i < locators.len(),
    ensures
        world.run(
            find_suite_moves(),
            ResolvingView::start(locators),
            reply,
            4 * locators.len(),
        ) matches Some(Err(error)) && error.failures.len() == locators.len()
            && error.failures[i].locator == locators[i] && occurs_in(
            located(world)->Err_0.message(),
            error.message(),
        ),
{
    find_suite_reaches_resolved(world, locators, reply);
    let error = resolved(world, locators)->Err_0;
    message_holds_every_reason(error, i);
}

/// Two resolutions in worlds that are alike, or one after the other in one
/// world that did not change, end alike: with suites of the same root and the
/// same entries, so with the same libraries in the same order.
pub proof fn find_suite_is_repeatable(
    first: World,
    second: World,
    locators: Seq<Locator>,
    reply: ReplyView,
)
    requires
        alike(first, second),
    ensures
        first.run(
            find_suite_moves(),
            ResolvingView::start(locators),
            reply,
            4 * locators.len(),
        ) == second.run(
            find_suite_moves(),
            ResolvingView::start(locators),
            reply,
            4 * locators.len(),
        ),
{
    find_suite_reaches_resolved(first, locators, reply);
    find_suite_reaches_resolved(second, locators, reply);
    located_alike(first, second);
}

} // verus!
