//! The build: from a list of declarations and a profile to the producers
//! that the registry is to hold.
//!
//! The development profile keeps every declaration as it is, to be resolved
//! on each request. The release profile resolves every declaration while the
//! program is built, one after the other, and gives up at the first failure.

use crate::file::{File, FileView};
use crate::registry::{Producer, ProducerView, producers_view};
use crate::resolve::{Exit, PendingRead, PendingRun, PendingRunView, ResolveError, ResolveErrorView};
use crate::resolve::{SourceRead, Step, StepView, after_exit, after_source, resolve_error_text};
use crate::text::{debug_format, debug_text};
use crate::file::Command;
use crate::text::same_text;
use vstd::prelude::*;
use vstd::string::StringExecFns;

verus! {

/// The build profile.
#[derive(Clone, Copy, Debug, PartialEq, Eq, Structural)]
pub enum Profile {
    /// Assets are resolved afresh on every request.
    Dev,
    /// Assets are resolved once, when the program is built.
    Release,
}

/// Why a build failed.
#[derive(Debug)]
pub enum GenerateError {
    /// Two declarations share the logical path named here.
    DuplicateLogicalPath(String),
    /// A declaration could not be resolved.
    Resolution(ResolveError),
}

/// The model of a failed build.
pub enum GenerateErrorView {
    DuplicateLogicalPath(Seq<char>),
    Resolution(ResolveErrorView),
}

impl View for GenerateError {
    type V = GenerateErrorView;

    open spec fn view(&self) -> GenerateErrorView {
        match self {
            GenerateError::DuplicateLogicalPath(path) => GenerateErrorView::DuplicateLogicalPath(
                path@,
            ),
            GenerateError::Resolution(error) => GenerateErrorView::Resolution(error@),
        }
    }
}

/// What a failure reads like.
pub open spec fn generate_error_text(error: GenerateErrorView) -> Seq<char> {
    match error {
        GenerateErrorView::DuplicateLogicalPath(path) => debug_text(path) + " is declared twice"@,
        GenerateErrorView::Resolution(error) => resolve_error_text(error),
    }
}

impl GenerateError {
    /// The failure in words.
    pub fn message(&self) -> (text: String)
        ensures
            text@ == generate_error_text(self@),
    {
        match self {
            GenerateError::DuplicateLogicalPath(path) => {
                let mut text: String = debug_format(path.as_str());
                text.append(" is declared twice");
                text
            },
            GenerateError::Resolution(error) => error.message(),
        }
    }
}

/// The models of a sequence of declarations.
pub open spec fn declarations_view(v: Seq<File>) -> Seq<FileView> {
    Seq::new(v.len(), |i: int| v[i]@)
}

/// Whether the declaration at `j` has the logical path of an earlier one.
pub open spec fn repeats(declarations: Seq<FileView>, j: int) -> bool {
    exists|i: int| 0 <= i < j && #[trigger] declarations[i].name() == declarations[j].name()
}

/// The first declaration, from `from` on, that has the logical path of an
/// earlier one.
pub open spec fn first_repeat(declarations: Seq<FileView>, from: int) -> Option<int>
    decreases declarations.len() - from,
{
    if from >= declarations.len() {
        None
    } else if repeats(declarations, from) {
        Some(from)
    } else {
        first_repeat(declarations, from + 1)
    }
}

/// The first repeat, said without recursion: it repeats an earlier
/// declaration, and no declaration between `from` and it does.
pub proof fn lemma_first_repeat(declarations: Seq<FileView>, from: int)
    requires
        0 <= from,
    ensures
        match first_repeat(declarations, from) {
            Some(j) => from <= j < declarations.len() && repeats(declarations, j) && forall|k: int|
                from <= k < j ==> !repeats(declarations, k),
            None => forall|k: int| from <= k < declarations.len() ==> !repeats(declarations, k),
        },
    decreases declarations.len() - from,
{
    if from < declarations.len() && !repeats(declarations, from) {
        lemma_first_repeat(declarations, from + 1);
    }
}

/// Every declaration kept as a lazy producer.
pub open spec fn lazy_all(declarations: Seq<FileView>) -> Seq<ProducerView> {
    Seq::new(declarations.len(), |i: int| ProducerView::Lazy(declarations[i]))
}

/// A release build under way: the producers of the declarations that are
/// resolved already, in order.
pub struct BuildView {
    pub declarations: Seq<FileView>,
    pub producers: Seq<ProducerView>,
}

impl BuildView {
    /// There is a declaration left to resolve.
    pub open spec fn wf(self) -> bool {
        self.producers.len() < self.declarations.len()
    }

    /// The declaration that is being resolved.
    pub open spec fn current(self) -> FileView {
        self.declarations[self.producers.len() as int]
    }

    /// The build with the current declaration resolved to `producer`.
    pub open spec fn with(self, producer: ProducerView) -> BuildView {
        BuildView { declarations: self.declarations, producers: self.producers.push(producer) }
    }
}

/// The model of where a build stands.
pub enum BuildStepView {
    Read(BuildView),
    Run(BuildView, PendingRunView),
    Done(Seq<ProducerView>),
    Failed(GenerateErrorView),
}

/// Where a build stands between two declarations: it turns to the next one,
/// or is done when none is left.
pub open spec fn build_next(build: BuildView) -> BuildStepView {
    if build.wf() {
        BuildStepView::Read(build)
    } else {
        BuildStepView::Done(build.producers)
    }
}

/// Where a build stands after a step of the resolution of its current
/// declaration. A failed resolution fails the build, with the failure kept
/// as it is; a finished one embeds the asset.
pub open spec fn build_advance(build: BuildView, step: StepView) -> BuildStepView {
    match step {
        StepView::Run(run) => BuildStepView::Run(build, run),
        StepView::Done(asset) => build_next(build.with(ProducerView::Embedded(asset))),
        StepView::Failed(error) => BuildStepView::Failed(GenerateErrorView::Resolution(error)),
    }
}

/// Where a build stands when it begins.
///
/// Declarations that share a logical path fail it in either profile, with
/// the path of the first declaration that repeats an earlier one. Otherwise
/// the development build is done at once, with nothing read and nothing
/// run, and the release build turns to the first declaration.
pub open spec fn begun(declarations: Seq<FileView>, profile: Profile) -> BuildStepView {
    match first_repeat(declarations, 0) {
        Some(j) => BuildStepView::Failed(
            GenerateErrorView::DuplicateLogicalPath(declarations[j].name()),
        ),
        None => match profile {
            Profile::Dev => BuildStepView::Done(lazy_all(declarations)),
            Profile::Release => build_next(
                BuildView { declarations: declarations, producers: Seq::empty() },
            ),
        },
    }
}

/// A release build between two steps.
#[derive(Debug)]
struct Build {
    declarations: Vec<File>,
    producers: Vec<Producer>,
}

impl View for Build {
    type V = BuildView;

    closed spec fn view(&self) -> BuildView {
        BuildView {
            declarations: declarations_view(self.declarations@),
            producers: producers_view(self.producers@),
        }
    }
}

/// A build that waits for the source of its current declaration.
#[derive(Debug)]
pub struct BuildRead {
    build: Build,
    pending: PendingRead,
}

/// A build that waits for a command of its current declaration to exit.
#[derive(Debug)]
pub struct BuildRun {
    build: Build,
    pending: PendingRun,
}

/// Where a build stands.
#[derive(Debug)]
pub enum BuildStep {
    /// A source has to be read before the build can go on.
    Read(BuildRead),
    /// A command has to be run before the build can go on.
    Run(BuildRun),
    /// The build is done: these producers go into the registry, in order.
    Done(Vec<Producer>),
    /// The build failed.
    Failed(GenerateError),
}

impl View for BuildRead {
    type V = BuildView;

    closed spec fn view(&self) -> BuildView {
        self.build@
    }
}

impl View for BuildRun {
    type V = (BuildView, PendingRunView);

    closed spec fn view(&self) -> (BuildView, PendingRunView) {
        (self.build@, self.pending@)
    }
}

impl View for BuildStep {
    type V = BuildStepView;

    open spec fn view(&self) -> BuildStepView {
        match self {
            BuildStep::Read(read) => BuildStepView::Read(read@),
            BuildStep::Run(run) => BuildStepView::Run(run@.0, run@.1),
            BuildStep::Done(producers) => BuildStepView::Done(producers_view(producers@)),
            BuildStep::Failed(error) => BuildStepView::Failed(error@),
        }
    }
}

impl BuildStep {
    /// A build that waits is always one with a declaration left, and waits
    /// for a command that its chain holds.
    pub open spec fn wf(&self) -> bool {
        match self {
            BuildStep::Read(read) => read@.wf(),
            BuildStep::Run(run) => run@.0.wf() && run@.1.wf(),
            BuildStep::Done(_) => true,
            BuildStep::Failed(_) => true,
        }
    }
}

/// Finds the first declaration that has the logical path of an earlier one.
pub fn find_repeat(declarations: &Vec<File>) -> (found: Option<usize>)
    ensures
        match found {
            Some(j) => {
                &&& first_repeat(declarations_view(declarations@), 0) == Some(j as int)
                &&& j < declarations@.len()
                &&& repeats(declarations_view(declarations@), j as int)
                &&& forall|k: int| 0 <= k < j ==> !repeats(declarations_view(declarations@), k)
            },
            None => {
                &&& first_repeat(declarations_view(declarations@), 0) is None
                &&& forall|k: int|
                    0 <= k < declarations@.len() ==> !repeats(declarations_view(declarations@), k)
            },
        },
{
    let ghost model = declarations_view(declarations@);
    let n: usize = declarations.len();
    let mut j: usize = 0;
    while j < n
        invariant
            n == declarations@.len(),
            j <= n,
            model == declarations_view(declarations@),
            first_repeat(model, 0) == first_repeat(model, j as int),
        decreases n - j,
    {
        let name: &'static str = declarations[j].logical_path();
        let mut i: usize = 0;
        while i < j
            invariant
                n == declarations@.len(),
                i <= j < n,
                model == declarations_view(declarations@),
                name@ == model[j as int].name(),
                first_repeat(model, 0) == first_repeat(model, j as int),
                forall|k: int| 0 <= k < i ==> model[k].name() != model[j as int].name(),
            decreases j - i,
        {
            if same_text(declarations[i].logical_path(), name) {
                proof {
                    assert(model[i as int].name() == model[j as int].name());
                    assert(repeats(model, j as int));
                    lemma_first_repeat(model, 0);
                }
                return Some(j);
            }
            i += 1;
        }
        assert(!repeats(model, j as int));
        j += 1;
    }
    proof {
        lemma_first_repeat(model, 0);
    }
    None
}

/// Turns to the next declaration, or ends the build when none is left.
fn next(build: Build) -> (step: BuildStep)
    ensures
        step@ == build_next(build@),
        step.wf(),
{
    if build.producers.len() < build.declarations.len() {
        let pending: PendingRead = build.declarations[build.producers.len()].clone().resolve();
        BuildStep::Read(BuildRead { build: build, pending: pending })
    } else {
        BuildStep::Done(build.producers)
    }
}

/// Goes on after a step of the resolution of the current declaration.
fn advance(build: Build, step: Step) -> (next_step: BuildStep)
    requires
        build@.wf(),
        step matches Step::Run(run) ==> run@.wf(),
    ensures
        next_step@ == build_advance(build@, step@),
        next_step.wf(),
{
    match step {
        Step::Run(pending) => BuildStep::Run(BuildRun { build: build, pending: pending }),
        Step::Failed(error) => BuildStep::Failed(GenerateError::Resolution(error)),
        Step::Done(asset) => {
            let mut build = build;
            let ghost before = build@;
            build.producers.push(Producer::Embedded(asset));
            assert(build@.producers =~= before.producers.push(ProducerView::Embedded(asset@)));
            next(build)
        },
    }
}

/// Begins the build of the registry for `declarations` under `profile`.
///
/// Where the step is `Done`, its producers are what the registry is to be
/// populated with; `load_files` and `generate_file` write them out as
/// program text.
pub fn generate(declarations: Vec<File>, profile: Profile) -> (step: BuildStep)
    ensures
        step@ == begun(declarations_view(declarations@), profile),
        step.wf(),
{
    let ghost model = declarations_view(declarations@);
    match find_repeat(&declarations) {
        Some(j) => BuildStep::Failed(
            GenerateError::DuplicateLogicalPath(
                String::from_str(declarations[j].logical_path()),
            ),
        ),
        None => match profile {
            Profile::Release => {
                let build = Build { declarations: declarations, producers: Vec::new() };
                assert(build@.producers =~= Seq::empty());
                next(build)
            },
            Profile::Dev => {
                let mut producers: Vec<Producer> = Vec::new();
                let mut i: usize = 0;
                while i < declarations.len()
                    invariant
                        i <= declarations@.len(),
                        model == declarations_view(declarations@),
                        producers@.len() == i,
                        forall|k: int|
                            0 <= k < i ==> producers@[k]@ == ProducerView::Lazy(model[k]),
                    decreases declarations@.len() - i,
                {
                    producers.push(Producer::Lazy(declarations[i].clone()));
                    i += 1;
                }
                assert(producers_view(producers@) =~= lazy_all(model));
                BuildStep::Done(producers)
            },
        },
    }
}

impl BuildRead {
    #[verifier::type_invariant]
    spec fn inv(&self) -> bool {
        self.build@.wf() && self.pending.file() == self.build@.current()
    }

    /// The path of the file that has to be read.
    pub fn source_path(&self) -> (path: &'static str)
        ensures
            self@.wf(),
            path@ == self@.current().source(),
    {
        proof {
            use_type_invariant(self);
        }
        self.pending.source_path()
    }

    /// Goes on with what came of reading the source.
    pub fn supply(self, read: SourceRead) -> (step: BuildStep)
        ensures
            self@.wf(),
            step@ == build_advance(self@, after_source(self@.current(), read@)),
            step.wf(),
    {
        proof {
            use_type_invariant(&self);
        }
        advance(self.build, self.pending.supply(read))
    }
}

impl BuildRun {
    #[verifier::type_invariant]
    spec fn inv(&self) -> bool {
        self.build@.wf()
    }

    /// The command that has to be run.
    pub fn command(&self) -> (command: &Command)
        ensures
            self@.1.wf(),
            command@ == self@.1.command(),
    {
        self.pending.command()
    }

    /// What the command is to read from its input stream.
    pub fn stdin(&self) -> (bytes: &[u8])
        ensures
            bytes@ == self@.1.input,
    {
        self.pending.stdin()
    }

    /// Goes on with what came of running the command.
    pub fn supply(self, exit: Exit) -> (step: BuildStep)
        ensures
            self@.0.wf(),
            self@.1.wf(),
            step@ == build_advance(self@.0, after_exit(self@.1, exit@)),
            step.wf(),
    {
        proof {
            use_type_invariant(&self);
        }
        advance(self.build, self.pending.supply(exit))
    }
}

} // verus!
