//! What holds of whole commands, proved from the orchestrator's transitions
//! and the picture of the disk.
//!
//! Each law speaks of runs: of every way in which a truthful driver can
//! answer the orchestrator from the first action of a command to its end.

use vstd::prelude::*;
use crate::action::{ActionView, EventView, IoOutcome};
use crate::disk::{configure_count, is_run, under, Disk, Exchange, LinkState};
use crate::error::ErrorKind;
use crate::manifest::{is_project_text, manifest_of, ProjectKind, MANIFEST_FILE};
use crate::orchestrator::{
    artifact_of, compile_turn, database_of, fail_turn, finish_turn, first, kind_for, next,
    probe_turn, scaffold_turn, status_of, succeeded, CommandView, GoalView,
};
use crate::profile::{Profile, TARGET_DIR};
use crate::scaffold::{law_plan_shape, plan_len, scaffold_plan, valid_name, VCS_STEP};

verus! {

/// Whether every execution among `exchanges` is that of `artifact` with
/// `args`.
pub open spec fn runs_only(
    exchanges: Seq<Exchange>,
    artifact: Seq<char>,
    args: Seq<Seq<char>>,
) -> bool {
    forall|i: int|
        0 <= i < exchanges.len() && (#[trigger] exchanges[i]).action is Exec
            ==> exchanges[i].action == (ActionView::Exec { path: artifact, args })
}

/// Whether nothing is executed in `exchanges`.
pub open spec fn runs_nothing(exchanges: Seq<Exchange>) -> bool {
    forall|i: int| 0 <= i < exchanges.len() ==> !((#[trigger] exchanges[i]).action is Exec)
}

/// Whether the build executor is called in the build directory of
/// `profile` somewhere in `exchanges`.
pub open spec fn compiles(exchanges: Seq<Exchange>, profile: Profile) -> bool {
    exists|i: int|
        0 <= i < exchanges.len() && (#[trigger] exchanges[i]).action == (ActionView::Compile {
            dir: profile.dir(),
        })
}

/// Whether the last of `exchanges` is an execution whose status `result`
/// hands on.
pub open spec fn ends_with_artifact(
    exchanges: Seq<Exchange>,
    result: Result<i32, ErrorKind>,
) -> bool {
    &&& exchanges.len() > 0
    &&& exchanges.last().action is Exec
    &&& exchanges.last().event matches EventView::Exited(code)
    &&& result == Ok::<i32, ErrorKind>(status_of(code))
}

/// Whether `exchanges` carry out the steps of a new project's plan from
/// step `index` on, one exchange for each step and in order, each with
/// success, but for the version control step, which may end in any way.
pub open spec fn carries_out(
    exchanges: Seq<Exchange>,
    kind: ProjectKind,
    name: Seq<char>,
    index: nat,
) -> bool {
    &&& exchanges.len() == plan_len(kind) - index
    &&& forall|i: int|
        0 <= i < exchanges.len() ==> {
            &&& (#[trigger] exchanges[i]).action == scaffold_plan(kind, name)[index + i]
            &&& index + i != VCS_STEP ==> exchanges[i].event == EventView::Io(IoOutcome::Done)
        }
}

/// Whether `kind` is a failure that a build can end with.
pub open spec fn build_failure(kind: ErrorKind) -> bool {
    ||| kind == ErrorKind::NotAProject
    ||| kind == ErrorKind::ConfigureFailed
    ||| kind == ErrorKind::CompileFailed
    ||| kind == ErrorKind::LinkReplaceFailed
    ||| kind == ErrorKind::Io
}

/// A run that begins at the end of a command is empty.
proof fn lemma_finished(
    finished: Result<i32, ErrorKind>,
    disk: Disk,
    exchanges: Seq<Exchange>,
    result: Result<i32, ErrorKind>,
    end: Disk,
)
    requires
        is_run(finish_turn(finished), disk, exchanges, result, end),
    ensures
        exchanges.len() == 0,
        result == finished,
        end == disk,
{
}

/// The two profiles keep their build directories and their compile
/// databases apart, and both build directories lie below the directory
/// that `clean` removes.
pub proof fn law_profiles_apart()
    ensures
        Profile::Debug.dir() != Profile::Release.dir(),
        database_of(Profile::Debug) != database_of(Profile::Release),
        under(TARGET_DIR@, Profile::Debug.dir()),
        under(TARGET_DIR@, Profile::Release.dir()),
{
    reveal_strlit("target");
    reveal_strlit("/");
    reveal_strlit("target/debug");
    reveal_strlit("target/release");
    assert(Profile::Debug.dir().len() == 12);
    assert(Profile::Release.dir().len() == 14);
    assert(database_of(Profile::Debug).len() != database_of(Profile::Release).len());
    let prefix = TARGET_DIR@ + "/"@;
    assert(prefix.len() == 7);
    assert(Profile::Debug.dir().subrange(0, 7) =~= prefix);
    assert(Profile::Release.dir().subrange(0, 7) =~= prefix);
}

/// A directory is a project exactly where its manifest file is there and
/// parses: reading the manifest fails with `NotAProject` there and nowhere
/// else.
pub proof fn law_project_iff_manifest_parses(contents: Option<Seq<char>>)
    ensures
        is_project_text(contents) <==> !(manifest_of(contents) matches Err(
            ErrorKind::NotAProject,
        )),
{
}

/// Outside a project, `build`, `test`, `run` and `clean` fail with
/// `NotAProject` as soon as the manifest has been looked for: they ask the
/// driver for nothing else, and the disk stays as it was.
pub proof fn law_project_gate(
    command: CommandView,
    disk: Disk,
    exchanges: Seq<Exchange>,
    result: Result<i32, ErrorKind>,
    end: Disk,
)
    requires
        !(command is New),
        !is_project_text(disk.manifest),
        is_run(first(command), disk, exchanges, result, end),
    ensures
        result == Err::<i32, ErrorKind>(ErrorKind::NotAProject),
        exchanges.len() == 1,
        exchanges[0].action == (ActionView::ReadManifest { path: MANIFEST_FILE@ }),
        end == disk,
{
    let read = exchanges[0];
    assert(next(first(command).0, read.event) == fail_turn(ErrorKind::NotAProject));
    lemma_finished(Err(ErrorKind::NotAProject), read.after, exchanges.skip(1), result, end);
}

/// `new` with both template flags fails before it asks the driver for
/// anything: nothing on disk is touched.
pub proof fn law_kind_conflict(
    name: Option<Seq<char>>,
    disk: Disk,
    exchanges: Seq<Exchange>,
    result: Result<i32, ErrorKind>,
    end: Disk,
)
    requires
        is_run(first(CommandView::New { bin: true, lib: true, name }), disk, exchanges, result, end),
    ensures
        exchanges.len() == 0,
        result == Err::<i32, ErrorKind>(ErrorKind::KindConflict),
        end == disk,
{
    lemma_finished(Err(ErrorKind::KindConflict), disk, exchanges, result, end);
}

/// From the compile step on, a build calls for no configuration and leaves
/// manifest and directories as they are; where it succeeds, the link points
/// at the profile's compile database.
proof fn lemma_build_tail(
    profile: Profile,
    disk: Disk,
    exchanges: Seq<Exchange>,
    result: Result<i32, ErrorKind>,
    end: Disk,
)
    requires
        is_run(compile_turn(profile, GoalView::Build), disk, exchanges, result, end),
    ensures
        configure_count(exchanges) == 0,
        end.manifest == disk.manifest,
        end.dirs == disk.dirs,
        match result {
            Ok(status) => status == 0 && end.link == LinkState::To(database_of(profile)),
            Err(kind) => build_failure(kind) && kind != ErrorKind::ConfigureFailed,
        },
{
    reveal_with_fuel(is_run, 5);
    reveal_with_fuel(configure_count, 5);
}

/// A single build. It calls for configuration exactly where the project's
/// build directory for the profile is missing, and then once. It leaves the
/// manifest and every other directory as they were, and the profile's own
/// directory in place unless configuration fails. Where it succeeds, the
/// compile database link points at the profile's database, whatever stood
/// there before.
pub proof fn law_build(
    profile: Profile,
    disk: Disk,
    exchanges: Seq<Exchange>,
    result: Result<i32, ErrorKind>,
    end: Disk,
)
    requires
        is_run(first(CommandView::Build { profile }), disk, exchanges, result, end),
    ensures
        configure_count(exchanges) == (if is_project_text(disk.manifest) && !disk.dirs.contains(
            profile.dir(),
        ) {
            1nat
        } else {
            0nat
        }),
        end.manifest == disk.manifest,
        forall|other: Seq<char>|
            other != profile.dir() ==> (#[trigger] end.dirs.contains(other) == disk.dirs.contains(
                other,
            )),
        is_project_text(disk.manifest) && result != Err::<i32, ErrorKind>(
            ErrorKind::ConfigureFailed,
        ) ==> end.dirs.contains(profile.dir()),
        match result {
            Ok(status) => status == 0 && end.link == LinkState::To(database_of(profile)),
            Err(kind) => build_failure(kind),
        },
{
    let command = CommandView::Build { profile };
    if is_project_text(disk.manifest) {
        reveal_with_fuel(is_run, 4);
        reveal_with_fuel(configure_count, 4);
        let read = exchanges[0];
        let probe = exchanges[1];
        assert(next(first(command).0, read.event) == probe_turn(profile, GoalView::Build));
        assert(probe == exchanges.skip(1)[0]);
        assert(probe.after == disk);
        let rest = exchanges.skip(2);
        assert(exchanges.skip(1).skip(1) =~= rest);
        if disk.dirs.contains(profile.dir()) {
            lemma_build_tail(profile, disk, rest, result, end);
        } else {
            let configure = rest[0];
            let tail = rest.skip(1);
            assert(configure.action is Configure);
            if succeeded(configure.event->Exited_0) {
                lemma_build_tail(profile, configure.after, tail, result, end);
            } else {
                lemma_finished(Err(ErrorKind::ConfigureFailed), configure.after, tail, result, end);
            }
        }
    } else {
        law_project_gate(command, disk, exchanges, result, end);
        reveal_with_fuel(configure_count, 2);
    }
}

/// Two builds of one profile in a row call for configuration at most once
/// between them, and the second for none. The one case left out is a first
/// build whose configuration failed without leaving the build directory
/// behind.
pub proof fn law_configure_once(
    profile: Profile,
    disk: Disk,
    first_run: Seq<Exchange>,
    first_result: Result<i32, ErrorKind>,
    between: Disk,
    second_run: Seq<Exchange>,
    second_result: Result<i32, ErrorKind>,
    end: Disk,
)
    requires
        is_run(first(CommandView::Build { profile }), disk, first_run, first_result, between),
        is_run(first(CommandView::Build { profile }), between, second_run, second_result, end),
        first_result == Err::<i32, ErrorKind>(ErrorKind::ConfigureFailed)
            ==> between.dirs.contains(profile.dir()),
    ensures
        configure_count(first_run) + configure_count(second_run) <= 1,
        configure_count(second_run) == 0,
{
    law_build(profile, disk, first_run, first_result, between);
    law_build(profile, between, second_run, second_result, end);
}

/// After a build of one profile and then a successful build of another, or
/// of the same, the compile database link points at the database of the
/// profile built last; where the two profiles differ, it does not point at
/// the first one's.
pub proof fn law_link_follows_build(
    earlier: Profile,
    later: Profile,
    disk: Disk,
    first_run: Seq<Exchange>,
    first_result: Result<i32, ErrorKind>,
    between: Disk,
    second_run: Seq<Exchange>,
    second_result: Result<i32, ErrorKind>,
    end: Disk,
)
    requires
        is_run(
            first(CommandView::Build { profile: earlier }),
            disk,
            first_run,
            first_result,
            between,
        ),
        is_run(
            first(CommandView::Build { profile: later }),
            between,
            second_run,
            second_result,
            end,
        ),
        second_result is Ok,
    ensures
        end.link == LinkState::To(database_of(later)),
        earlier != later ==> end.link != LinkState::To(database_of(earlier)),
{
    law_build(later, between, second_run, second_result, end);
    law_profiles_apart();
}

/// In a project, `clean` succeeds, whatever its removals come to. It leaves
/// the manifest alone and creates no directory; where the removal of the
/// build directories succeeds, none is left.
pub proof fn law_clean(
    disk: Disk,
    exchanges: Seq<Exchange>,
    result: Result<i32, ErrorKind>,
    end: Disk,
)
    requires
        is_project_text(disk.manifest),
        is_run(first(CommandView::Clean), disk, exchanges, result, end),
    ensures
        result == Ok::<i32, ErrorKind>(0),
        end.manifest == disk.manifest,
        exchanges.len() == 3,
        exchanges[1].action == (ActionView::RemoveTree { path: TARGET_DIR@ }),
        forall|dir: Seq<char>| #[trigger] end.dirs.contains(dir) ==> disk.dirs.contains(dir),
        exchanges[1].event == EventView::Io(IoOutcome::Done) ==> !end.dirs.contains(
            Profile::Debug.dir(),
        ) && !end.dirs.contains(Profile::Release.dir()),
{
    reveal_with_fuel(is_run, 5);
    law_profiles_apart();
    let removal = exchanges[1];
    let unlink = exchanges[2];
    assert(removal == exchanges.skip(1)[0]);
    assert(unlink == exchanges.skip(1).skip(1)[0]);
    assert(exchanges.skip(1).skip(1).skip(1).len() == 0);
    assert(unlink.after.dirs == removal.after.dirs);
    assert(end == unlink.after);
}

/// In a project, `clean` twice in a row succeeds both times.
pub proof fn law_clean_twice(
    disk: Disk,
    first_run: Seq<Exchange>,
    first_result: Result<i32, ErrorKind>,
    between: Disk,
    second_run: Seq<Exchange>,
    second_result: Result<i32, ErrorKind>,
    end: Disk,
)
    requires
        is_project_text(disk.manifest),
        is_run(first(CommandView::Clean), disk, first_run, first_result, between),
        is_run(first(CommandView::Clean), between, second_run, second_result, end),
    ensures
        first_result == Ok::<i32, ErrorKind>(0),
        second_result == Ok::<i32, ErrorKind>(0),
        end.manifest == disk.manifest,
{
    law_clean(disk, first_run, first_result, between);
    law_clean(between, second_run, second_result, end);
}

/// Once `clean` has removed the build directories, the next build of any
/// profile configures anew.
pub proof fn law_clean_forces_configure(
    profile: Profile,
    disk: Disk,
    clean_run: Seq<Exchange>,
    clean_result: Result<i32, ErrorKind>,
    between: Disk,
    build_run: Seq<Exchange>,
    build_result: Result<i32, ErrorKind>,
    end: Disk,
)
    requires
        is_project_text(disk.manifest),
        is_run(first(CommandView::Clean), disk, clean_run, clean_result, between),
        clean_run.len() > 1 && clean_run[1].event == EventView::Io(IoOutcome::Done),
        is_run(first(CommandView::Build { profile }), between, build_run, build_result, end),
    ensures
        configure_count(build_run) == 1,
{
    law_clean(disk, clean_run, clean_result, between);
    law_build(profile, between, build_run, build_result, end);
}

/// From the compile step on, a build for `run` compiles and executes one
/// thing only: the artifact it was given, with the arguments it was given.
/// Where the command succeeds, that execution is its last exchange and the
/// artifact's status is the command's.
proof fn lemma_run_tail(
    profile: Profile,
    artifact: Seq<char>,
    args: Seq<Seq<char>>,
    disk: Disk,
    exchanges: Seq<Exchange>,
    result: Result<i32, ErrorKind>,
    end: Disk,
)
    requires
        is_run(compile_turn(profile, GoalView::Run { artifact, args }), disk, exchanges, result, end),
    ensures
        exchanges.len() > 0,
        exchanges[0].action == (ActionView::Compile { dir: profile.dir() }),
        runs_only(exchanges, artifact, args),
        result is Ok ==> ends_with_artifact(exchanges, result),
        configure_count(exchanges) == 0,
{
    reveal_with_fuel(is_run, 6);
    reveal_with_fuel(configure_count, 6);
    assert(exchanges.len() <= 4);
}

/// `run` on a project whose manifest describes an application named `name`
/// executes `<build directory>/src/<name>` of the profile asked for, with
/// the arguments given, and nothing else. Where it succeeds, it has
/// compiled, that execution is the last thing it asked for, and the
/// artifact's status is its own. On any other manifest it fails with what
/// reading the manifest says, or with `NotRunnable` for a library, and
/// executes nothing.
pub proof fn law_run_artifact(
    profile: Profile,
    args: Seq<Seq<char>>,
    disk: Disk,
    exchanges: Seq<Exchange>,
    result: Result<i32, ErrorKind>,
    end: Disk,
)
    requires
        is_run(first(CommandView::Run { profile, args }), disk, exchanges, result, end),
    ensures
        match manifest_of(disk.manifest) {
            Ok(manifest) => match manifest.kind {
                ProjectKind::Binary => {
                    &&& runs_only(exchanges, artifact_of(profile, manifest.name), args)
                    &&& result is Ok ==> compiles(exchanges, profile) && ends_with_artifact(
                        exchanges,
                        result,
                    )
                },
                ProjectKind::Library => {
                    &&& result == Err::<i32, ErrorKind>(ErrorKind::NotRunnable)
                    &&& exchanges.len() == 1
                },
            },
            Err(kind) => {
                &&& result == Err::<i32, ErrorKind>(kind)
                &&& exchanges.len() == 1
            },
        },
        exchanges.len() == 1 ==> runs_nothing(exchanges),
        configure_count(exchanges) <= 1,
{
    reveal_with_fuel(is_run, 4);
    reveal_with_fuel(configure_count, 4);
    let command = CommandView::Run { profile, args };
    let read = exchanges[0];
    let body = exchanges.skip(1);
    match manifest_of(disk.manifest) {
        Ok(manifest) => {
            if manifest.kind == ProjectKind::Binary {
                let artifact = artifact_of(profile, manifest.name);
                let goal = GoalView::Run { artifact, args };
                assert(next(first(command).0, read.event) == probe_turn(profile, goal));
                let probe = body[0];
                let rest = body.skip(1);
                let tail = if disk.dirs.contains(profile.dir()) {
                    rest
                } else {
                    rest.skip(1)
                };
                let offset = exchanges.len() - tail.len();
                if disk.dirs.contains(profile.dir()) {
                    lemma_run_tail(profile, artifact, args, probe.after, tail, result, end);
                    assert(exchanges =~= seq![read, probe] + tail);
                    assert(exchanges[offset] == tail[0]);
                } else {
                    let configure = rest[0];
                    assert(exchanges =~= seq![read, probe, configure] + tail);
                    if succeeded(configure.event->Exited_0) {
                        lemma_run_tail(profile, artifact, args, configure.after, tail, result, end);
                        assert(exchanges[offset] == tail[0]);
                    } else {
                        lemma_finished(
                            Err(ErrorKind::ConfigureFailed),
                            configure.after,
                            tail,
                            result,
                            end,
                        );
                    }
                }
                assert forall|i: int|
                    0 <= i < exchanges.len() && (#[trigger] exchanges[i]).action is Exec implies exchanges[i].action
                    == (ActionView::Exec { path: artifact, args }) by {
                    if i >= offset {
                        assert(exchanges[i] == tail[i - offset]);
                    }
                }
                if result is Ok {
                    assert(tail.len() > 0);
                    assert(exchanges.last() == tail.last());
                }
            } else {
                assert(next(first(command).0, read.event) == fail_turn(ErrorKind::NotRunnable));
                lemma_finished(Err(ErrorKind::NotRunnable), read.after, body, result, end);
            }
        },
        Err(kind) => {
            assert(next(first(command).0, read.event) == fail_turn(kind));
            lemma_finished(Err(kind), read.after, body, result, end);
        },
    }
}

/// `test` runs the tests of the debug profile and of no other, as the last
/// thing it does. It builds exactly where the debug build directory of the
/// project is missing, and then the debug profile. It executes no artifact.
pub proof fn law_tests_use_debug(
    disk: Disk,
    exchanges: Seq<Exchange>,
    result: Result<i32, ErrorKind>,
    end: Disk,
)
    requires
        is_run(first(CommandView::Test), disk, exchanges, result, end),
    ensures
        forall|i: int|
            0 <= i < exchanges.len() ==> match (#[trigger] exchanges[i]).action {
                ActionView::RunTests { dir } => dir == Profile::Debug.dir() && i
                    == exchanges.len() - 1,
                ActionView::Configure { dir, buildtype } => dir == Profile::Debug.dir()
                    && buildtype == Profile::Debug.buildtype(),
                ActionView::Compile { dir } => dir == Profile::Debug.dir(),
                ActionView::Symlink { target, link } => target == database_of(Profile::Debug),
                ActionView::Exec { .. } => false,
                _ => true,
            },
        configure_count(exchanges) == (if is_project_text(disk.manifest) && !disk.dirs.contains(
            Profile::Debug.dir(),
        ) {
            1nat
        } else {
            0nat
        }),
        result is Ok ==> result == Ok::<i32, ErrorKind>(0) && exchanges.len() > 0
            && exchanges.last().action is RunTests && exchanges.last().event
            == EventView::Exited(Some(0)),
{
    reveal_with_fuel(is_run, 9);
    reveal_with_fuel(configure_count, 9);
    assert(exchanges.len() <= 7);
}

/// `new` checks before it creates: on a path that is taken it fails with
/// `PathExists` after that one question, and with a last path segment that
/// cannot serve as a name it fails once the root is made, before any step of
/// a plan.
pub proof fn law_new_checks_first(
    bin: bool,
    lib: bool,
    name: Option<Seq<char>>,
    disk: Disk,
    exchanges: Seq<Exchange>,
    result: Result<i32, ErrorKind>,
    end: Disk,
)
    requires
        kind_for(bin, lib) is Ok,
        is_run(first(CommandView::New { bin, lib, name }), disk, exchanges, result, end),
    ensures
        exchanges.len() >= 1,
        exchanges[0].action == ActionView::ProbeRoot,
        exchanges[0].event == EventView::Exists(true) ==> exchanges.len() == 1 && result == Err::<
            i32,
            ErrorKind,
        >(ErrorKind::PathExists),
        !(name matches Some(text) && valid_name(text)) ==> {
            &&& result is Err
            &&& exchanges.len() <= 2
            &&& exchanges.len() == 2 ==> exchanges[1].action == ActionView::CreateRoot
            &&& exchanges.len() == 2 && exchanges[1].event == EventView::Io(IoOutcome::Done)
                ==> result == Err::<i32, ErrorKind>(ErrorKind::InvalidProjectName)
        },
{
    reveal_with_fuel(is_run, 4);
}

/// A successful run from a step of the plan on carries out the rest of the
/// plan.
proof fn lemma_scaffold_run(
    kind: ProjectKind,
    name: Seq<char>,
    index: nat,
    disk: Disk,
    exchanges: Seq<Exchange>,
    result: Result<i32, ErrorKind>,
    end: Disk,
)
    requires
        index <= plan_len(kind),
        result is Ok,
        is_run(scaffold_turn(kind, name, index), disk, exchanges, result, end),
    ensures
        result == Ok::<i32, ErrorKind>(0),
        carries_out(exchanges, kind, name, index),
    decreases plan_len(kind) - index,
{
    law_plan_shape(kind, name);
    if index >= plan_len(kind) {
        lemma_finished(Ok(0), disk, exchanges, result, end);
    } else {
        let step = exchanges[0];
        let rest = exchanges.skip(1);
        assert(step.action == scaffold_plan(kind, name)[index as int]);
        if index != VCS_STEP && step.event != EventView::Io(IoOutcome::Done) {
            if step.event is Io {
                lemma_finished(Err(ErrorKind::Io), step.after, rest, result, end);
            } else {
                lemma_finished(Err(ErrorKind::UnexpectedEvent), step.after, rest, result, end);
            }
        } else {
            lemma_scaffold_run(kind, name, index + 1, step.after, rest, result, end);
            assert forall|i: int| 0 <= i < exchanges.len() implies {
                &&& (#[trigger] exchanges[i]).action == scaffold_plan(kind, name)[index + i]
                &&& index + i != VCS_STEP ==> exchanges[i].event == EventView::Io(IoOutcome::Done)
            } by {
                if i > 0 {
                    assert(exchanges[i] == rest[i - 1]);
                }
            }
        }
    }
}

/// Where `new` succeeds, one template was asked for at most, the path was
/// free, its last segment is a valid name, and after finding the root
/// missing and creating it the command has carried out the whole plan for
/// that kind and name: every directory and every file of it, in order, and
/// nothing else.
pub proof fn law_new_carries_out_plan(
    bin: bool,
    lib: bool,
    name: Option<Seq<char>>,
    disk: Disk,
    exchanges: Seq<Exchange>,
    result: Result<i32, ErrorKind>,
    end: Disk,
)
    requires
        result is Ok,
        is_run(first(CommandView::New { bin, lib, name }), disk, exchanges, result, end),
    ensures
        result == Ok::<i32, ErrorKind>(0),
        kind_for(bin, lib) is Ok,
        name is Some,
        valid_name(name->0),
        exchanges.len() >= 2,
        exchanges[0].action == ActionView::ProbeRoot,
        exchanges[0].event == EventView::Exists(false),
        exchanges[1].action == ActionView::CreateRoot,
        exchanges[1].event == EventView::Io(IoOutcome::Done),
        carries_out(exchanges.skip(2), kind_for(bin, lib)->Ok_0, name->0, 0),
{
    reveal_with_fuel(is_run, 3);
    match kind_for(bin, lib) {
        Ok(kind) => {
            let probe = exchanges[0];
            let create = exchanges[1];
            let rest = exchanges.skip(2);
            assert(exchanges.skip(1).skip(1) =~= rest);
            if probe.event == EventView::Exists(false) && create.event == EventView::Io(
                IoOutcome::Done,
            ) && name is Some && valid_name(name->0) {
                lemma_scaffold_run(kind, name->0, 0, create.after, rest, result, end);
            } else if probe.event != EventView::Exists(false) {
                lemma_finished(
                    Err(ErrorKind::PathExists),
                    probe.after,
                    exchanges.skip(1),
                    result,
                    end,
                );
            } else if create.event != EventView::Io(IoOutcome::Done) {
                lemma_finished(Err(ErrorKind::Io), create.after, rest, result, end);
            } else {
                lemma_finished(Err(ErrorKind::InvalidProjectName), create.after, rest, result, end);
            }
        },
        Err(kind) => {
            lemma_finished(Err(kind), disk, exchanges, result, end);
        },
    }
}

} // verus!
