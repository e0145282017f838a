//! What passes between the library and whoever drives it: queries and
//! replies, the steps of a conversation, and a model of the surroundings in
//! which a conversation runs.

use vstd::prelude::*;
use vstd::string::*;
use crate::text::views;

verus! {

/// What reading one environment variable gave.
#[derive(Debug, Clone, PartialEq, Eq)]
pub enum VarOutcome {
    /// The variable is set, to this text.
    Value(String),
    /// The variable is not set.
    NotPresent,
    /// The variable is set to something that is no text; the field renders it.
    NotUnicode(String),
}

/// What a `VarOutcome` holds.
pub enum VarOutcomeView {
    Value(Seq<char>),
    NotPresent,
    NotUnicode(Seq<char>),
}

impl View for VarOutcome {
    type V = VarOutcomeView;

    open spec fn view(&self) -> VarOutcomeView {
        match self {
            VarOutcome::Value(value) => VarOutcomeView::Value(value@),
            VarOutcome::NotPresent => VarOutcomeView::NotPresent,
            VarOutcome::NotUnicode(raw) => VarOutcomeView::NotUnicode(raw@),
        }
    }
}

/// Why a variable that gave no value could not be read.
pub open spec fn unreadable_detail(outcome: VarOutcomeView) -> Seq<char> {
    match outcome {
        VarOutcomeView::NotUnicode(raw) => "environment variable was not valid unicode: "@ + raw,
        _ => "environment variable not found"@,
    }
}

impl VarOutcome {
    /// The value of the variable, or in words why it has none.
    pub fn into_value(self) -> (value: Result<String, String>)
        ensures
            value matches Ok(text) ==> self@ == VarOutcomeView::Value(text@),
            value matches Err(detail) ==> !(self@ is Value) && detail@ == unreadable_detail(self@),
    {
        match self {
            VarOutcome::Value(text) => Ok(text),
            VarOutcome::NotPresent => Err(String::from_str("environment variable not found")),
            VarOutcome::NotUnicode(raw) => {
                let mut detail = String::from_str("environment variable was not valid unicode: ");
                detail.append(raw.as_str());
                Err(detail)
            },
        }
    }
}

/// One entry of a directory: its name, and whether it is a directory itself.
#[derive(Debug, Clone, PartialEq, Eq)]
pub struct DirEntry {
    pub name: String,
    pub is_dir: bool,
}

/// What a `DirEntry` holds.
pub struct DirEntryView {
    pub name: Seq<char>,
    pub is_dir: bool,
}

impl View for DirEntry {
    type V = DirEntryView;

    open spec fn view(&self) -> DirEntryView {
        DirEntryView { name: self.name@, is_dir: self.is_dir }
    }
}

/// The views of a sequence of directory entries, in order.
pub open spec fn entry_views(entries: Seq<DirEntry>) -> Seq<DirEntryView> {
    entries.map_values(|e: DirEntry| e@)
}

/// The views of a listing, in order: of each entry that could be read its
/// view, and `None` for each that could not.
pub open spec fn listing_views(listing: Seq<Option<DirEntry>>) -> Seq<Option<DirEntryView>> {
    listing.map_values(
        |entry: Option<DirEntry>|
            match entry {
                Some(entry) => Some(entry@),
                None => None,
            },
    )
}

/// Everything the binding generator is told for one run.
#[derive(Debug, Clone, PartialEq, Eq)]
pub struct GeneratorRequest {
    /// Arguments handed to the C front end.
    pub clang_args: Vec<String>,
    /// The headers to read, in order.
    pub headers: Vec<String>,
    /// Lines put at the top of what is generated.
    pub raw_lines: Vec<String>,
    /// Where the generated bindings are written.
    pub output: String,
}

/// What a `GeneratorRequest` holds.
pub struct GeneratorRequestView {
    pub clang_args: Seq<Seq<char>>,
    pub headers: Seq<Seq<char>>,
    pub raw_lines: Seq<Seq<char>>,
    pub output: Seq<char>,
}

impl View for GeneratorRequest {
    type V = GeneratorRequestView;

    open spec fn view(&self) -> GeneratorRequestView {
        GeneratorRequestView {
            clang_args: views(self.clang_args@),
            headers: views(self.headers@),
            raw_lines: views(self.raw_lines@),
            output: self.output@,
        }
    }
}

/// What the library asks of whoever drives it.
#[derive(Debug, Clone, PartialEq, Eq)]
pub enum Query {
    /// Read the environment variable of this name.
    Variable { name: String },
    /// Tell whether anything stands at this path.
    Exists { path: String },
    /// List the entries of the directory at this path.
    ListDir { path: String },
    /// Create the directory at this path, with the directories above it.
    CreateDirAll { path: String },
    /// Write these contents to the file at this path.
    WriteFile { path: String, contents: String },
    /// Print these lines to the build host, in order.
    Print { lines: Vec<String> },
    /// Run the binding generator.
    Generate { request: GeneratorRequest },
}

/// What a `Query` holds.
pub enum QueryView {
    Variable { name: Seq<char> },
    Exists { path: Seq<char> },
    ListDir { path: Seq<char> },
    CreateDirAll { path: Seq<char> },
    WriteFile { path: Seq<char>, contents: Seq<char> },
    Print { lines: Seq<Seq<char>> },
    Generate { request: GeneratorRequestView },
}

impl View for Query {
    type V = QueryView;

    open spec fn view(&self) -> QueryView {
        match self {
            Query::Variable { name } => QueryView::Variable { name: name@ },
            Query::Exists { path } => QueryView::Exists { path: path@ },
            Query::ListDir { path } => QueryView::ListDir { path: path@ },
            Query::CreateDirAll { path } => QueryView::CreateDirAll { path: path@ },
            Query::WriteFile { path, contents } => QueryView::WriteFile {
                path: path@,
                contents: contents@,
            },
            Query::Print { lines } => QueryView::Print { lines: views(lines@) },
            Query::Generate { request } => QueryView::Generate { request: request@ },
        }
    }
}

/// What the driver hands back after carrying out a query.
#[derive(Debug, Clone, PartialEq, Eq)]
pub enum Reply {
    /// The outcome of reading a variable.
    Variable(VarOutcome),
    /// Whether the path exists.
    Exists(bool),
    /// The entries of the directory, in the order the file system gave them,
    /// with `None` in the place of each entry that could not be read.
    Entries(Vec<Option<DirEntry>>),
    /// The work was done.
    Completed,
    /// The work failed, with this diagnostic.
    Failed(String),
}

/// What a `Reply` holds.
pub enum ReplyView {
    Variable(VarOutcomeView),
    Exists(bool),
    Entries(Seq<Option<DirEntryView>>),
    Completed,
    Failed(Seq<char>),
}

impl View for Reply {
    type V = ReplyView;

    open spec fn view(&self) -> ReplyView {
        match self {
            Reply::Variable(outcome) => ReplyView::Variable(outcome@),
            Reply::Exists(exists) => ReplyView::Exists(*exists),
            Reply::Entries(listing) => ReplyView::Entries(listing_views(listing@)),
            Reply::Completed => ReplyView::Completed,
            Reply::Failed(diagnostic) => ReplyView::Failed(diagnostic@),
        }
    }
}

/// One step of a conversation between the library and its driver: either a
/// query to carry out, with the state to come back to, or the end.
#[derive(Debug, PartialEq, Eq)]
pub enum Step<S, T, E> {
    Ask { next: S, query: Query },
    Done(T),
    Failed(E),
}

/// What a `Step` holds.
pub enum StepView<S, T, E> {
    Ask { next: S, query: QueryView },
    Done(T),
    Failed(E),
}

impl<S: View, T: View, E: View> View for Step<S, T, E> {
    type V = StepView<S::V, T::V, E::V>;

    open spec fn view(&self) -> StepView<S::V, T::V, E::V> {
        match self {
            Step::Ask { next, query } => StepView::Ask { next: next@, query: query@ },
            Step::Done(value) => StepView::Done(value@),
            Step::Failed(error) => StepView::Failed(error@),
        }
    }
}

/// The surroundings of one build, as far as the library can ask about them.
pub struct World {
    /// What reading each environment variable gives.
    pub variables: spec_fn(Seq<char>) -> VarOutcomeView,
    /// The paths at which something stands.
    pub existing: Set<Seq<char>>,
    /// The entries of each directory, with `None` in the place of each entry
    /// that cannot be read.
    pub entries: spec_fn(Seq<char>) -> Seq<Option<DirEntryView>>,
    /// The diagnostic with which a piece of work fails, if it fails.
    pub failure: spec_fn(QueryView) -> Option<Seq<char>>,
}

impl World {
    /// The reply that these surroundings give to a query.
    pub open spec fn answer(self, query: QueryView) -> ReplyView {
        match query {
            QueryView::Variable { name } => ReplyView::Variable((self.variables)(name)),
            QueryView::Exists { path } => ReplyView::Exists(self.existing.contains(path)),
            QueryView::ListDir { path } => ReplyView::Entries((self.entries)(path)),
            _ => match (self.failure)(query) {
                Some(diagnostic) => ReplyView::Failed(diagnostic),
                None => ReplyView::Completed,
            },
        }
    }

    /// How a conversation ends in these surroundings when each query is
    /// answered as they answer it: from `state` and `reply`, by the moves that
    /// `step` gives, through at most `fuel` queries. `None` when it asks more.
    pub open spec fn run<S, T, E>(
        self,
        step: spec_fn(S, ReplyView) -> StepView<S, T, E>,
        state: S,
        reply: ReplyView,
        fuel: nat,
    ) -> Option<Result<T, E>>
        decreases fuel,
    {
        match step(state, reply) {
            StepView::Ask { next, query } => if fuel == 0 {
                None
            } else {
                self.run(step, next, self.answer(query), (fuel - 1) as nat)
            },
            StepView::Done(value) => Some(Ok(value)),
            StepView::Failed(error) => Some(Err(error)),
        }
    }

    /// The queries of that conversation, in order, as far as `fuel` goes.
    pub open spec fn asked<S, T, E>(
        self,
        step: spec_fn(S, ReplyView) -> StepView<S, T, E>,
        state: S,
        reply: ReplyView,
        fuel: nat,
    ) -> Seq<QueryView>
        decreases fuel,
    {
        match step(state, reply) {
            StepView::Ask { next, query } => if fuel == 0 {
                Seq::empty()
            } else {
                seq![query] + self.asked(step, next, self.answer(query), (fuel - 1) as nat)
            },
            _ => Seq::empty(),
        }
    }
}

/// A conversation that ends within `fuel` queries asks the same and ends the
/// same way with more.
pub proof fn run_with_more_fuel<S, T, E>(
    world: World,
    step: spec_fn(S, ReplyView) -> StepView<S, T, E>,
    state: S,
    reply: ReplyView,
    fuel: nat,
    more: nat,
)
    requires
        world.run(step, state, reply, fuel) is Some,
        fuel <= more,
    ensures
        world.run(step, state, reply, more) == world.run(step, state, reply, fuel),
        world.asked(step, state, reply, more) == world.asked(step, state, reply, fuel),
    decreases fuel,
{
    if let StepView::Ask { next, query } = step(state, reply) {
        run_with_more_fuel(
            world,
            step,
            next,
            world.answer(query),
            (fuel - 1) as nat,
            (more - 1) as nat,
        );
    }
}

/// A step of one conversation, as a step of a conversation that holds it:
/// the state to come back to is wrapped, all else stays.
pub open spec fn lifted<S1, S2, T, E>(wrap: spec_fn(S1) -> S2, step: StepView<S1, T, E>)
    -> StepView<S2, T, E> {
    match step {
        StepView::Ask { next, query } => StepView::Ask { next: wrap(next), query },
        StepView::Done(value) => StepView::Done(value),
        StepView::Failed(error) => StepView::Failed(error),
    }
}

/// Where every move of an outer conversation on a wrapped state is the inner
/// conversation's move, lifted, the two ask the same and end the same.
pub proof fn run_lifted<S1, S2, T, E>(
    world: World,
    inner: spec_fn(S1, ReplyView) -> StepView<S1, T, E>,
    outer: spec_fn(S2, ReplyView) -> StepView<S2, T, E>,
    wrap: spec_fn(S1) -> S2,
    state: S1,
    reply: ReplyView,
    fuel: nat,
)
    requires
        forall|s: S1, r: ReplyView| #[trigger] outer(wrap(s), r) == lifted(wrap, inner(s, r)),
    ensures
        world.run(outer, wrap(state), reply, fuel) == world.run(inner, state, reply, fuel),
        world.asked(outer, wrap(state), reply, fuel) == world.asked(inner, state, reply, fuel),
    decreases fuel,
{
    assert(outer(wrap(state), reply) == lifted(wrap, inner(state, reply)));
    if let StepView::Ask { next, query } = inner(state, reply) {
        if fuel > 0 {
            run_lifted(world, inner, outer, wrap, next, world.answer(query), (fuel - 1) as nat);
        }
    }
}

} // verus!
