//! Resolution and builds as functions of the world around them: of what
//! reading each source gives and of what each command exits with.

use crate::file::{CommandView, FileView, StaticFileView};
use crate::generate::{BuildStepView, BuildView, GenerateErrorView, Profile};
use crate::generate::{begun, build_advance, build_next, first_repeat, lazy_all};
use crate::registry::{ProducerView, entries_map, keyed};
use crate::resolve::{ExitView, PendingRunView, ResolveErrorView, SourceReadView, StepView};
use crate::resolve::{after_exit, after_source};
use crate::web::{Cached, LookupView, conditional, looked_up};
use vstd::prelude::*;

verus! {

/// The world around a resolution: what reading the source at a path gives,
/// and what a command exits with when it is run on an input.
pub struct World {
    pub read: spec_fn(Seq<char>) -> SourceReadView,
    pub run: spec_fn(CommandView, Seq<u8>) -> ExitView,
}

/// What a resolution that waits for a command comes to in `world`.
pub open spec fn chain_outcome(run: PendingRunView, world: World) -> Result<
    StaticFileView,
    ResolveErrorView,
>
    decreases run.chain.len() - run.stage,
{
    match after_exit(run, (world.run)(run.command(), run.input)) {
        StepView::Run(next) => chain_outcome(next, world),
        StepView::Done(asset) => Ok(asset),
        StepView::Failed(error) => Err(error),
    }
}

/// What the resolution of `file` comes to in `world`.
pub open spec fn outcome(file: FileView, world: World) -> Result<StaticFileView, ResolveErrorView> {
    match after_source(file, (world.read)(file.source())) {
        StepView::Run(run) => chain_outcome(run, world),
        StepView::Done(asset) => Ok(asset),
        StepView::Failed(error) => Err(error),
    }
}

/// What a producer yields when it is asked for its asset in `world`.
pub open spec fn produced(producer: ProducerView, world: World) -> Result<
    StaticFileView,
    ResolveErrorView,
> {
    match producer {
        ProducerView::Lazy(file) => outcome(file, world),
        ProducerView::Embedded(asset) => Ok(asset),
    }
}

/// Every declaration resolved in `world` and embedded, in order; the first
/// declaration that cannot be resolved gives the failure.
pub open spec fn embedded_all(declarations: Seq<FileView>, world: World) -> Result<
    Seq<ProducerView>,
    GenerateErrorView,
>
    decreases declarations.len(),
{
    if declarations.len() == 0 {
        Ok(Seq::empty())
    } else {
        match embedded_all(declarations.drop_last(), world) {
            Err(error) => Err(error),
            Ok(producers) => match outcome(declarations.last(), world) {
                Err(error) => Err(GenerateErrorView::Resolution(error)),
                Ok(asset) => Ok(producers.push(ProducerView::Embedded(asset))),
            },
        }
    }
}

/// What the build of `declarations` under `profile` comes to in `world`.
pub open spec fn built(declarations: Seq<FileView>, profile: Profile, world: World) -> Result<
    Seq<ProducerView>,
    GenerateErrorView,
> {
    match first_repeat(declarations, 0) {
        Some(j) => Err(GenerateErrorView::DuplicateLogicalPath(declarations[j].name())),
        None => match profile {
            Profile::Dev => Ok(lazy_all(declarations)),
            Profile::Release => embedded_all(declarations, world),
        },
    }
}

/// How many declarations a build has yet to finish.
pub open spec fn build_remaining(step: BuildStepView) -> int {
    match step {
        BuildStepView::Read(build) => build.declarations.len() - build.producers.len(),
        BuildStepView::Run(build, _) => build.declarations.len() - build.producers.len(),
        BuildStepView::Done(_) => 0,
        BuildStepView::Failed(_) => 0,
    }
}

/// Whether a build has yet to read the source of its current declaration.
pub open spec fn build_unread(step: BuildStepView) -> int {
    if step is Read {
        1
    } else {
        0
    }
}

/// How many commands the current declaration of a build has yet to run.
pub open spec fn build_commands(step: BuildStepView) -> int {
    match step {
        BuildStepView::Run(_, run) => run.chain.len() - run.stage,
        _ => 0,
    }
}

/// What a build that stands at `step` comes to when every read and every
/// command that it waits for is answered by `world`.
pub open spec fn build_outcome(step: BuildStepView, world: World) -> Result<
    Seq<ProducerView>,
    GenerateErrorView,
>
    decreases build_remaining(step), build_unread(step), build_commands(step),
{
    match step {
        BuildStepView::Done(producers) => Ok(producers),
        BuildStepView::Failed(error) => Err(error),
        BuildStepView::Read(build) => if build.wf() {
            build_outcome(
                build_advance(
                    build,
                    after_source(build.current(), (world.read)(build.current().source())),
                ),
                world,
            )
        } else {
            Ok(build.producers)
        },
        BuildStepView::Run(build, run) => if build.wf() && run.wf() {
            build_outcome(
                build_advance(build, after_exit(run, (world.run)(run.command(), run.input))),
                world,
            )
        } else {
            Ok(build.producers)
        },
    }
}

/// What a request for `path` is answered with, in `world`, by a registry
/// that holds `map`: nothing where the path is not registered, the failure
/// where the asset cannot be produced, and otherwise the conditional answer.
pub open spec fn answered(
    map: Map<Seq<char>, ProducerView>,
    path: Seq<char>,
    validator: Option<Seq<char>>,
    world: World,
) -> Option<Result<Cached<StaticFileView>, ResolveErrorView>> {
    match looked_up(map, path, validator) {
        None => None,
        Some(LookupView::Ready(answer)) => Some(Ok(answer)),
        Some(LookupView::Resolve(file, validator)) => match outcome(file, world) {
            Ok(asset) => Some(Ok(conditional(asset, validator))),
            Err(error) => Some(Err(error)),
        },
    }
}

/// A resolution that waits for a command is the same in two worlds in which
/// the commands of its chain behave alike.
proof fn lemma_chain_outcome_agrees(run: PendingRunView, first: World, second: World)
    requires
        run.wf(),
        forall|i: int, input: Seq<u8>|
            0 <= i < run.chain.len() ==> #[trigger] (first.run)(run.chain[i], input) == (
            second.run)(run.chain[i], input),
    ensures
        chain_outcome(run, first) == chain_outcome(run, second),
    decreases run.chain.len() - run.stage,
{
    let exit = (first.run)(run.chain[run.stage], run.input);
    assert(exit == (second.run)(run.chain[run.stage], run.input));
    match after_exit(run, exit) {
        StepView::Run(next) => {
            lemma_chain_outcome_agrees(next, first, second);
        },
        StepView::Done(_) => {},
        StepView::Failed(_) => {},
    }
}

/// Resolution is deterministic: two resolutions of one declaration, for
/// which the source reads alike and the commands of the chain behave alike,
/// come to the same asset, bytes and entity tag, or to the same failure.
pub proof fn lemma_resolution_deterministic(file: FileView, first: World, second: World)
    requires
        (first.read)(file.source()) == (second.read)(file.source()),
        forall|i: int, input: Seq<u8>|
            0 <= i < file.chain().len() ==> #[trigger] (first.run)(file.chain()[i], input) == (
            second.run)(file.chain()[i], input),
    ensures
        outcome(file, first) == outcome(file, second),
{
    match after_source(file, (first.read)(file.source())) {
        StepView::Run(run) => {
            lemma_chain_outcome_agrees(run, first, second);
        },
        StepView::Done(_) => {},
        StepView::Failed(_) => {},
    }
}

/// What a chain resolves to goes by the name that the resolution carries,
/// is a stylesheet, and has the entity tag of its bytes.
proof fn lemma_chain_outcome_asset(run: PendingRunView, world: World)
    requires
        run.wf(),
    ensures
        chain_outcome(run, world) matches Ok(asset) ==> asset.name == run.name && asset.tagged(),
    decreases run.chain.len() - run.stage,
{
    match after_exit(run, (world.run)(run.command(), run.input)) {
        StepView::Run(next) => {
            lemma_chain_outcome_asset(next, world);
        },
        StepView::Done(_) => {},
        StepView::Failed(_) => {},
    }
}

/// A resolved asset goes by the logical path of its declaration, and its
/// entity tag is the one that its bytes call for: the tag depends on the
/// content alone.
pub proof fn lemma_outcome_asset(file: FileView, world: World)
    ensures
        outcome(file, world) matches Ok(asset) ==> asset.name == file.name() && asset.tagged(),
{
    match after_source(file, (world.read)(file.source())) {
        StepView::Run(run) => {
            lemma_chain_outcome_asset(run, world);
        },
        StepView::Done(_) => {},
        StepView::Failed(_) => {},
    }
}

/// A command that exits with a status other than zero fails the resolution
/// that waits for it, whatever would have come after it in the chain: the
/// failure names the command and carries its error stream as it was.
pub proof fn lemma_failed_command_fails_resolution(run: PendingRunView, world: World)
    requires
        !(world.run)(run.command(), run.input).success,
    ensures
        chain_outcome(run, world) == Err::<StaticFileView, ResolveErrorView>(
            ResolveErrorView::TransformFailure(
                run.command().executable,
                (world.run)(run.command(), run.input).stderr,
            ),
        ),
{
}

/// A release build that succeeds holds, for every declaration and in order,
/// the asset that the declaration resolves to.
pub proof fn lemma_embedded_all(declarations: Seq<FileView>, world: World)
    ensures
        embedded_all(declarations, world) matches Ok(producers) ==> {
            &&& producers.len() == declarations.len()
            &&& forall|i: int|
                0 <= i < declarations.len() ==> outcome(declarations[i], world) == Ok::<
                    StaticFileView,
                    ResolveErrorView,
                >(#[trigger] producers[i]->Embedded_0) && producers[i] is Embedded
        },
    decreases declarations.len(),
{
    if declarations.len() > 0 {
        lemma_embedded_all(declarations.drop_last(), world);
    }
}

/// The two profiles are equivalent. Where the release build of a list of
/// declarations succeeds, the development build succeeds too, and each of
/// its producers yields, in the same world, the very asset that the release
/// build embedded in its place: the same bytes, content type and entity tag,
/// under the same logical path.
pub proof fn lemma_profiles_equivalent(declarations: Seq<FileView>, world: World)
    requires
        built(declarations, Profile::Release, world) is Ok,
    ensures
        built(declarations, Profile::Dev, world) is Ok,
        built(declarations, Profile::Dev, world)->Ok_0.len() == built(
            declarations,
            Profile::Release,
            world,
        )->Ok_0.len(),
        forall|i: int|
            #![trigger built(declarations, Profile::Release, world)->Ok_0[i]]
            0 <= i < declarations.len() ==> {
                let dev = built(declarations, Profile::Dev, world)->Ok_0[i];
                let release = built(declarations, Profile::Release, world)->Ok_0[i];
                &&& produced(dev, world) == produced(release, world)
                &&& produced(release, world) is Ok
                &&& dev.name() == release.name()
            },
{
    lemma_embedded_all(declarations, world);
    let release = built(declarations, Profile::Release, world)->Ok_0;
    assert forall|i: int| 0 <= i < declarations.len() implies {
        let dev = built(declarations, Profile::Dev, world)->Ok_0[i];
        &&& produced(dev, world) == produced(#[trigger] release[i], world)
        &&& produced(release[i], world) is Ok
        &&& dev.name() == release[i].name()
    } by {
        lemma_outcome_asset(declarations[i], world);
    }
}

/// A build that waits for a command goes on as the resolution that it
/// carries out does: with the asset embedded where the chain succeeds, and
/// failed where the chain fails.
proof fn lemma_build_run(build: BuildView, run: PendingRunView, world: World)
    requires
        build.wf(),
        run.wf(),
    ensures
        build_outcome(BuildStepView::Run(build, run), world) == match chain_outcome(run, world) {
            Ok(asset) => build_outcome(
                build_next(build.with(ProducerView::Embedded(asset))),
                world,
            ),
            Err(error) => Err(GenerateErrorView::Resolution(error)),
        },
    decreases run.chain.len() - run.stage,
{
    let step = after_exit(run, (world.run)(run.command(), run.input));
    assert(build_outcome(BuildStepView::Run(build, run), world) == build_outcome(
        build_advance(build, step),
        world,
    ));
    match step {
        StepView::Run(next) => {
            lemma_build_run(build, next, world);
        },
        StepView::Done(_) => {},
        StepView::Failed(_) => {},
    }
}

/// A build that waits for a source goes on as the resolution of its current
/// declaration does.
proof fn lemma_build_read(build: BuildView, world: World)
    requires
        build.wf(),
    ensures
        build_outcome(BuildStepView::Read(build), world) == match outcome(
            build.current(),
            world,
        ) {
            Ok(asset) => build_outcome(
                build_next(build.with(ProducerView::Embedded(asset))),
                world,
            ),
            Err(error) => Err(GenerateErrorView::Resolution(error)),
        },
{
    let step = after_source(build.current(), (world.read)(build.current().source()));
    assert(build_outcome(BuildStepView::Read(build), world) == build_outcome(
        build_advance(build, step),
        world,
    ));
    match step {
        StepView::Run(run) => {
            lemma_build_run(build, run, world);
        },
        StepView::Done(_) => {},
        StepView::Failed(_) => {},
    }
}

/// A failure among the first declarations is the failure of the whole list.
proof fn lemma_embedded_all_fails(declarations: Seq<FileView>, k: int, world: World)
    requires
        0 <= k <= declarations.len(),
        embedded_all(declarations.take(k), world) is Err,
    ensures
        embedded_all(declarations, world) == embedded_all(declarations.take(k), world),
    decreases declarations.len() - k,
{
    if k == declarations.len() {
        assert(declarations.take(k) =~= declarations);
    } else {
        assert(declarations.take(k + 1).drop_last() =~= declarations.take(k));
        lemma_embedded_all_fails(declarations, k + 1, world);
    }
}

/// A release build that has embedded the first declarations comes to what
/// embedding all of them comes to.
proof fn lemma_build_next(build: BuildView, world: World)
    requires
        build.producers.len() <= build.declarations.len(),
        embedded_all(build.declarations.take(build.producers.len() as int), world) == Ok::<
            Seq<ProducerView>,
            GenerateErrorView,
        >(build.producers),
    ensures
        build_outcome(build_next(build), world) == embedded_all(build.declarations, world),
    decreases build.declarations.len() - build.producers.len(),
{
    let k = build.producers.len() as int;
    if k == build.declarations.len() {
        assert(build.declarations.take(k) =~= build.declarations);
    } else {
        lemma_build_read(build, world);
        assert(build.declarations.take(k + 1).drop_last() =~= build.declarations.take(k));
        assert(build.declarations.take(k + 1).last() == build.current());
        match outcome(build.current(), world) {
            Ok(asset) => {
                lemma_build_next(build.with(ProducerView::Embedded(asset)), world);
            },
            Err(error) => {
                lemma_embedded_all_fails(build.declarations, k + 1, world);
            },
        }
    }
}

/// The build, carried out step by step with every read and every command
/// answered by the world, comes to what `built` says: in the release
/// profile a declaration that cannot be resolved fails the build with its
/// own failure, and in the development profile nothing but a repeated
/// logical path can.
pub proof fn lemma_build_follows_world(declarations: Seq<FileView>, profile: Profile, world: World)
    ensures
        build_outcome(begun(declarations, profile), world) == built(declarations, profile, world),
        profile == Profile::Dev ==> (built(declarations, profile, world) is Err <==> first_repeat(
            declarations,
            0,
        ) is Some),
{
    if first_repeat(declarations, 0) is None && profile == Profile::Release {
        let build = BuildView { declarations: declarations, producers: Seq::empty() };
        assert(declarations.take(0) =~= Seq::empty());
        lemma_build_next(build, world);
    }
}

/// The conditional-GET contract holds of every answer. Where the registry
/// can produce the asset at a path, a request that names the entity tag of
/// the asset is told that its copy is still good, and a request that names
/// another tag, or none, is sent the asset in full.
pub proof fn lemma_answers_are_conditional(
    map: Map<Seq<char>, ProducerView>,
    path: Seq<char>,
    other: Seq<char>,
    world: World,
)
    requires
        map.contains_key(path),
        produced(map[path], world) is Ok,
    ensures
        ({
            let asset = produced(map[path], world)->Ok_0;
            &&& answered(map, path, Some(asset.etag), world) == Some(
                Ok::<Cached<StaticFileView>, ResolveErrorView>(Cached::Cached),
            )
            &&& other != asset.etag ==> answered(map, path, Some(other), world) == Some(
                Ok::<Cached<StaticFileView>, ResolveErrorView>(Cached::Uncached(asset)),
            )
            &&& answered(map, path, None, world) == Some(
                Ok::<Cached<StaticFileView>, ResolveErrorView>(Cached::Uncached(asset)),
            )
        }),
{
}

/// A request for a path that is not registered gets no answer, whatever
/// validator it carries and whatever the world is like.
pub proof fn lemma_unregistered_is_unanswered(
    map: Map<Seq<char>, ProducerView>,
    path: Seq<char>,
    validator: Option<Seq<char>>,
    world: World,
)
    requires
        !map.contains_key(path),
    ensures
        answered(map, path, validator, world) is None,
{
}

/// Every value of the map that a list of embedded producers builds is
/// embedded.
proof fn lemma_all_embedded(producers: Seq<ProducerView>, path: Seq<char>)
    requires
        forall|i: int| 0 <= i < producers.len() ==> (#[trigger] producers[i]) is Embedded,
        entries_map(keyed(producers)).contains_key(path),
    ensures
        entries_map(keyed(producers))[path] is Embedded,
    decreases producers.len(),
{
    if producers.len() > 0 {
        assert(keyed(producers).drop_last() =~= keyed(producers.drop_last()));
        if keyed(producers).last().0 != path {
            assert forall|i: int| 0 <= i < producers.drop_last().len() implies (
            #[trigger] producers.drop_last()[i]) is Embedded by {
                assert(producers.drop_last()[i] == producers[i]);
            }
            lemma_all_embedded(producers.drop_last(), path);
        }
    }
}

/// A registry populated from a release build serves every asset from what
/// it holds: no request makes it read a file or run a command.
pub proof fn lemma_release_serves_at_hand(
    declarations: Seq<FileView>,
    path: Seq<char>,
    validator: Option<Seq<char>>,
    world: World,
)
    requires
        built(declarations, Profile::Release, world) is Ok,
    ensures
        ({
            let map = entries_map(keyed(built(declarations, Profile::Release, world)->Ok_0));
            match looked_up(map, path, validator) {
                None => !map.contains_key(path),
                Some(lookup) => lookup is Ready,
            }
        }),
{
    let producers = built(declarations, Profile::Release, world)->Ok_0;
    lemma_embedded_all(declarations, world);
    if entries_map(keyed(producers)).contains_key(path) {
        lemma_all_embedded(producers, path);
    }
}

/// Producers that go by the same names and yield the same assets answer
/// every request alike, whichever of the two lists the registry was
/// populated with.
pub proof fn lemma_same_answers(
    first: Seq<ProducerView>,
    second: Seq<ProducerView>,
    path: Seq<char>,
    validator: Option<Seq<char>>,
    world: World,
)
    requires
        first.len() == second.len(),
        forall|i: int|
            0 <= i < first.len() ==> (#[trigger] first[i]).name() == second[i].name() && produced(
                first[i],
                world,
            ) == produced(second[i], world),
    ensures
        answered(entries_map(keyed(first)), path, validator, world) == answered(
            entries_map(keyed(second)),
            path,
            validator,
            world,
        ),
    decreases first.len(),
{
    if first.len() > 0 {
        let n = first.len() - 1;
        assert(first[n].name() == second[n].name());
        assert(keyed(first).drop_last() =~= keyed(first.drop_last()));
        assert(keyed(second).drop_last() =~= keyed(second.drop_last()));
        assert forall|i: int| 0 <= i < first.drop_last().len() implies (
        #[trigger] first.drop_last()[i]).name() == second.drop_last()[i].name() && produced(
            first.drop_last()[i],
            world,
        ) == produced(second.drop_last()[i], world) by {
            assert(first.drop_last()[i] == first[i]);
        }
        lemma_same_answers(first.drop_last(), second.drop_last(), path, validator, world);
    }
}

/// The registries of the two profiles answer alike. Where the release build
/// of a list of declarations succeeds, a request is answered in the same
/// way, with the same bytes, content type and entity tag, by a registry
/// populated from the development build and by one populated from the
/// release build.
pub proof fn lemma_registries_equivalent(
    declarations: Seq<FileView>,
    path: Seq<char>,
    validator: Option<Seq<char>>,
    world: World,
)
    requires
        built(declarations, Profile::Release, world) is Ok,
    ensures
        built(declarations, Profile::Dev, world) is Ok,
        answered(
            entries_map(keyed(built(declarations, Profile::Dev, world)->Ok_0)),
            path,
            validator,
            world,
        ) == answered(
            entries_map(keyed(built(declarations, Profile::Release, world)->Ok_0)),
            path,
            validator,
            world,
        ),
{
    lemma_profiles_equivalent(declarations, world);
    let dev = built(declarations, Profile::Dev, world)->Ok_0;
    let release = built(declarations, Profile::Release, world)->Ok_0;
    assert forall|i: int| 0 <= i < dev.len() implies (#[trigger] dev[i]).name()
        == release[i].name() && produced(dev[i], world) == produced(release[i], world) by {
        assert(produced(dev[i], world) == produced(release[i], world));
    }
    lemma_same_answers(dev, release, path, validator, world);
}

} // verus!
