//! The orchestrator: what each command does, one decision at a time.
//!
//! A command begins with `start`, which hands back the first action. After
//! the driver has carried an action out, `step` takes its answer and hands
//! back the next action, until that action is `Finish`. What the two do is
//! defined by `first` and `next`, over mathematical values.

use vstd::prelude::*;
use crate::action::{Action, ActionView, Event, EventView, IoOutcome, COMPILE_DB};
use crate::error::ErrorKind;
use crate::manifest::{
    is_project, is_project_text, manifest_of, read_manifest, ProjectKind, MANIFEST_FILE,
};
use crate::profile::{Profile, TARGET_DIR};
use crate::scaffold::{
    is_valid_name, plan_len, plan_length, scaffold_plan, scaffold_step, valid_name, VCS_STEP,
};

verus! {

/// Status that a command ends with where an artifact ended without an exit
/// code of its own.
pub const ABNORMAL_STATUS: i32 = 1;

/// A command as the command line gives it.
#[derive(Clone, PartialEq, Eq, Debug)]
pub enum Command {
    /// Create a project. `name` is the last segment of the path that was
    /// given, where it has one that is valid Unicode.
    New { bin: bool, lib: bool, name: Option<String> },
    /// Build the project in the working directory.
    Build { profile: Profile },
    /// Run the project's tests.
    Test,
    /// Build the project and run its artifact with `args`.
    Run { profile: Profile, args: Vec<String> },
    /// Remove what builds have left behind.
    Clean,
}

/// A command as a mathematical value.
pub enum CommandView {
    New { bin: bool, lib: bool, name: Option<Seq<char>> },
    Build { profile: Profile },
    Test,
    Run { profile: Profile, args: Seq<Seq<char>> },
    Clean,
}

impl View for Command {
    type V = CommandView;

    open spec fn view(&self) -> CommandView {
        match *self {
            Command::New { bin, lib, name } => CommandView::New {
                bin,
                lib,
                name: name.deep_view(),
            },
            Command::Build { profile } => CommandView::Build { profile },
            Command::Test => CommandView::Test,
            Command::Run { profile, args } => CommandView::Run {
                profile,
                args: args.deep_view(),
            },
            Command::Clean => CommandView::Clean,
        }
    }
}

/// What a build is for: what happens once the compile database is linked.
#[derive(Clone, PartialEq, Eq, Debug)]
pub enum Goal {
    /// Nothing more: the command was a build.
    Build,
    /// The tests are run.
    Test,
    /// The artifact is run.
    Run { artifact: String, args: Vec<String> },
}

/// A goal as a mathematical value.
pub enum GoalView {
    Build,
    Test,
    Run { artifact: Seq<char>, args: Seq<Seq<char>> },
}

impl View for Goal {
    type V = GoalView;

    open spec fn view(&self) -> GoalView {
        match *self {
            Goal::Build => GoalView::Build,
            Goal::Test => GoalView::Test,
            Goal::Run { artifact, args } => GoalView::Run {
                artifact: artifact@,
                args: args.deep_view(),
            },
        }
    }
}

/// Where a command stands: which answer it is waiting for.
#[derive(PartialEq, Eq, Debug)]
pub enum State {
    /// New: whether the project root exists. `segment` is the last segment
    /// of the root's path, where it has one.
    NewProbe { kind: ProjectKind, segment: Option<String> },
    /// New: the creation of the project root.
    NewRoot { kind: ProjectKind, segment: Option<String> },
    /// New: step `index` of the plan.
    NewStep { kind: ProjectKind, name: String, index: usize },
    /// The manifest, which decides whether `command` goes on.
    Gate { command: Command },
    /// Whether the build directory exists.
    Probe { profile: Profile, goal: Goal },
    /// The build generator.
    Configure { profile: Profile, goal: Goal },
    /// The build executor.
    Compile { profile: Profile, goal: Goal },
    /// The removal of the old compile database link.
    Unlink { profile: Profile, goal: Goal },
    /// The creation of the new compile database link.
    Link { profile: Profile, goal: Goal },
    /// The test runner.
    Tests,
    /// The artifact.
    Exec,
    /// Clean: the removal of the build directories.
    CleanTree,
    /// Clean: the removal of the compile database link.
    CleanLink,
    /// Nothing: the command is over.
    Done { result: Result<i32, ErrorKind> },
}

/// A state as a mathematical value.
pub enum StateView {
    NewProbe { kind: ProjectKind, segment: Option<Seq<char>> },
    NewRoot { kind: ProjectKind, segment: Option<Seq<char>> },
    NewStep { kind: ProjectKind, name: Seq<char>, index: nat },
    Gate { command: CommandView },
    Probe { profile: Profile, goal: GoalView },
    Configure { profile: Profile, goal: GoalView },
    Compile { profile: Profile, goal: GoalView },
    Unlink { profile: Profile, goal: GoalView },
    Link { profile: Profile, goal: GoalView },
    Tests,
    Exec,
    CleanTree,
    CleanLink,
    Done { result: Result<i32, ErrorKind> },
}

impl View for State {
    type V = StateView;

    open spec fn view(&self) -> StateView {
        match *self {
            State::NewProbe { kind, segment } => StateView::NewProbe {
                kind,
                segment: segment.deep_view(),
            },
            State::NewRoot { kind, segment } => StateView::NewRoot {
                kind,
                segment: segment.deep_view(),
            },
            State::NewStep { kind, name, index } => StateView::NewStep {
                kind,
                name: name@,
                index: index as nat,
            },
            State::Gate { command } => StateView::Gate { command: command@ },
            State::Probe { profile, goal } => StateView::Probe { profile, goal: goal@ },
            State::Configure { profile, goal } => StateView::Configure { profile, goal: goal@ },
            State::Compile { profile, goal } => StateView::Compile { profile, goal: goal@ },
            State::Unlink { profile, goal } => StateView::Unlink { profile, goal: goal@ },
            State::Link { profile, goal } => StateView::Link { profile, goal: goal@ },
            State::Tests => StateView::Tests,
            State::Exec => StateView::Exec,
            State::CleanTree => StateView::CleanTree,
            State::CleanLink => StateView::CleanLink,
            State::Done { result } => StateView::Done { result },
        }
    }
}

/// A state together with the action whose answer it waits for.
pub type Turn = (StateView, ActionView);

/// The template that the two flags of `new` select: the application's
/// unless the library's is asked for, and none where both are.
pub open spec fn kind_for(bin: bool, lib: bool) -> Result<ProjectKind, ErrorKind> {
    if bin && lib {
        Err(ErrorKind::KindConflict)
    } else if lib {
        Ok(ProjectKind::Library)
    } else {
        Ok(ProjectKind::Binary)
    }
}

/// The compile database of a profile, relative to the project root.
pub open spec fn database_of(profile: Profile) -> Seq<char> {
    profile.dir() + "/"@ + COMPILE_DB@
}

/// The artifact of the project `name` under a profile, relative to the
/// project root.
pub open spec fn artifact_of(profile: Profile, name: Seq<char>) -> Seq<char> {
    profile.dir() + "/src/"@ + name
}

/// Whether a child process ended well: with exit code zero.
pub open spec fn succeeded(code: Option<i32>) -> bool {
    code == Some(0i32)
}

/// The status that running an artifact ends with: the artifact's own exit
/// code where it has one.
pub open spec fn status_of(code: Option<i32>) -> i32 {
    match code {
        Some(status) => status,
        None => ABNORMAL_STATUS,
    }
}

/// The end of a command.
pub open spec fn finish_turn(result: Result<i32, ErrorKind>) -> Turn {
    (StateView::Done { result }, ActionView::Finish { result })
}

/// The end of a command in failure.
pub open spec fn fail_turn(kind: ErrorKind) -> Turn {
    finish_turn(Err(kind))
}

/// Step `index` of the plan for a new project, or the end of the command
/// past the plan's last step.
pub open spec fn scaffold_turn(kind: ProjectKind, name: Seq<char>, index: nat) -> Turn {
    let plan = scaffold_plan(kind, name);
    if index < plan.len() {
        (StateView::NewStep { kind, name, index }, plan[index as int])
    } else {
        finish_turn(Ok(0))
    }
}

/// The start of a build: the question whether the build directory exists.
pub open spec fn probe_turn(profile: Profile, goal: GoalView) -> Turn {
    (StateView::Probe { profile, goal }, ActionView::ProbeDir { path: profile.dir() })
}

/// The configuration of a build directory.
pub open spec fn configure_turn(profile: Profile, goal: GoalView) -> Turn {
    (
        StateView::Configure { profile, goal },
        ActionView::Configure { dir: profile.dir(), buildtype: profile.buildtype() },
    )
}

/// The compilation in a build directory.
pub open spec fn compile_turn(profile: Profile, goal: GoalView) -> Turn {
    (StateView::Compile { profile, goal }, ActionView::Compile { dir: profile.dir() })
}

/// The removal of the old compile database link.
pub open spec fn unlink_turn(profile: Profile, goal: GoalView) -> Turn {
    (StateView::Unlink { profile, goal }, ActionView::Unlink { path: COMPILE_DB@ })
}

/// The creation of the link to the profile's compile database.
pub open spec fn link_turn(profile: Profile, goal: GoalView) -> Turn {
    (
        StateView::Link { profile, goal },
        ActionView::Symlink { target: database_of(profile), link: COMPILE_DB@ },
    )
}

/// The run of the tests, which are always those of the debug profile.
pub open spec fn tests_turn() -> Turn {
    (StateView::Tests, ActionView::RunTests { dir: Profile::Debug.dir() })
}

/// What follows a finished build.
pub open spec fn goal_turn(goal: GoalView) -> Turn {
    match goal {
        GoalView::Build => finish_turn(Ok(0)),
        GoalView::Test => tests_turn(),
        GoalView::Run { artifact, args } => (StateView::Exec, ActionView::Exec {
            path: artifact,
            args,
        }),
    }
}

/// What a command does once the manifest file has been read. Outside a
/// project every command ends here. `run` also needs a manifest that
/// describes an application.
pub open spec fn gate_turn(command: CommandView, contents: Option<Seq<char>>) -> Turn {
    match command {
        CommandView::New { .. } => fail_turn(ErrorKind::UnexpectedEvent),
        _ => if !is_project_text(contents) {
            fail_turn(ErrorKind::NotAProject)
        } else {
            match command {
                CommandView::Build { profile } => probe_turn(profile, GoalView::Build),
                CommandView::Test => probe_turn(Profile::Debug, GoalView::Test),
                CommandView::Run { profile, args } => match manifest_of(contents) {
                    Ok(manifest) => match manifest.kind {
                        ProjectKind::Binary => probe_turn(
                            profile,
                            GoalView::Run { artifact: artifact_of(profile, manifest.name), args },
                        ),
                        ProjectKind::Library => fail_turn(ErrorKind::NotRunnable),
                    },
                    Err(kind) => fail_turn(kind),
                },
                _ => (StateView::CleanTree, ActionView::RemoveTree { path: TARGET_DIR@ }),
            }
        },
    }
}

/// How a command begins. `new` with both template flags ends at once;
/// every other command first asks for the manifest.
pub open spec fn first(command: CommandView) -> Turn {
    match command {
        CommandView::New { bin, lib, name } => match kind_for(bin, lib) {
            Ok(kind) => (StateView::NewProbe { kind, segment: name }, ActionView::ProbeRoot),
            Err(kind) => fail_turn(kind),
        },
        _ => (StateView::Gate { command }, ActionView::ReadManifest { path: MANIFEST_FILE@ }),
    }
}

/// How a command goes on after the driver's answer to its last action.
pub open spec fn next(state: StateView, event: EventView) -> Turn {
    match state {
        StateView::NewProbe { kind, segment } => match event {
            EventView::Exists(true) => fail_turn(ErrorKind::PathExists),
            EventView::Exists(false) => (
                StateView::NewRoot { kind, segment },
                ActionView::CreateRoot,
            ),
            _ => fail_turn(ErrorKind::UnexpectedEvent),
        },
        StateView::NewRoot { kind, segment } => match event {
            EventView::Io(IoOutcome::Done) => match segment {
                Some(name) => if valid_name(name) {
                    scaffold_turn(kind, name, 0)
                } else {
                    fail_turn(ErrorKind::InvalidProjectName)
                },
                None => fail_turn(ErrorKind::InvalidProjectName),
            },
            EventView::Io(_) => fail_turn(ErrorKind::Io),
            _ => fail_turn(ErrorKind::UnexpectedEvent),
        },
        StateView::NewStep { kind, name, index } => if index >= plan_len(kind) {
            fail_turn(ErrorKind::UnexpectedEvent)
        } else if index == VCS_STEP {
            scaffold_turn(kind, name, index + 1)
        } else {
            match event {
                EventView::Io(IoOutcome::Done) => scaffold_turn(kind, name, index + 1),
                EventView::Io(_) => fail_turn(ErrorKind::Io),
                _ => fail_turn(ErrorKind::UnexpectedEvent),
            }
        },
        StateView::Gate { command } => match event {
            EventView::Manifest(contents) => gate_turn(command, contents),
            _ => fail_turn(ErrorKind::UnexpectedEvent),
        },
        StateView::Probe { profile, goal } => match event {
            EventView::Exists(true) => match goal {
                GoalView::Test => tests_turn(),
                _ => compile_turn(profile, goal),
            },
            EventView::Exists(false) => configure_turn(profile, goal),
            _ => fail_turn(ErrorKind::UnexpectedEvent),
        },
        StateView::Configure { profile, goal } => match event {
            EventView::Exited(code) => if succeeded(code) {
                compile_turn(profile, goal)
            } else {
                fail_turn(ErrorKind::ConfigureFailed)
            },
            _ => fail_turn(ErrorKind::UnexpectedEvent),
        },
        StateView::Compile { profile, goal } => match event {
            EventView::Exited(code) => if succeeded(code) {
                unlink_turn(profile, goal)
            } else {
                fail_turn(ErrorKind::CompileFailed)
            },
            _ => fail_turn(ErrorKind::UnexpectedEvent),
        },
        StateView::Unlink { profile, goal } => match event {
            EventView::Io(IoOutcome::Failed) => fail_turn(ErrorKind::LinkReplaceFailed),
            EventView::Io(_) => link_turn(profile, goal),
            _ => fail_turn(ErrorKind::UnexpectedEvent),
        },
        StateView::Link { profile, goal } => match event {
            EventView::Io(IoOutcome::Done) => goal_turn(goal),
            EventView::Io(_) => fail_turn(ErrorKind::Io),
            _ => fail_turn(ErrorKind::UnexpectedEvent),
        },
        StateView::Tests => match event {
            EventView::Exited(code) => if succeeded(code) {
                finish_turn(Ok(0))
            } else {
                fail_turn(ErrorKind::TestsFailed)
            },
            _ => fail_turn(ErrorKind::UnexpectedEvent),
        },
        StateView::Exec => match event {
            EventView::Exited(code) => finish_turn(Ok(status_of(code))),
            _ => fail_turn(ErrorKind::UnexpectedEvent),
        },
        StateView::CleanTree => match event {
            EventView::Io(_) => (StateView::CleanLink, ActionView::Unlink { path: COMPILE_DB@ }),
            _ => fail_turn(ErrorKind::UnexpectedEvent),
        },
        StateView::CleanLink => match event {
            EventView::Io(_) => finish_turn(Ok(0)),
            _ => fail_turn(ErrorKind::UnexpectedEvent),
        },
        StateView::Done { result } => finish_turn(result),
    }
}

/// Whether a pair of a state and an action stands for `turn`.
pub open spec fn is_turn(pair: (State, Action), turn: Turn) -> bool {
    pair.0@ == turn.0 && pair.1@ == turn.1
}

/// Selects the template from the two flags of `new`.
pub fn select_kind(bin: bool, lib: bool) -> (kind: Result<ProjectKind, ErrorKind>)
    ensures
        kind == kind_for(bin, lib),
{
    if bin && lib {
        Err(ErrorKind::KindConflict)
    } else if lib {
        Ok(ProjectKind::Library)
    } else {
        Ok(ProjectKind::Binary)
    }
}

/// Whether a child process ended well.
pub fn exit_ok(code: Option<i32>) -> (ok: bool)
    ensures
        ok == succeeded(code),
{
    match code {
        Some(status) => status == 0,
        None => false,
    }
}

/// The path of a profile's compile database.
pub fn database_path(profile: Profile) -> (path: String)
    ensures
        path@ == database_of(profile),
{
    let mut path = profile.resolve().0.to_owned();
    path.append("/");
    path.append(COMPILE_DB);
    path
}

/// The path of the artifact that a build under `profile` leaves for the
/// project `name`.
pub fn artifact_path(profile: Profile, name: &str) -> (path: String)
    ensures
        path@ == artifact_of(profile, name@),
{
    let mut path = profile.resolve().0.to_owned();
    path.append("/src/");
    path.append(name);
    path
}

fn finish(result: Result<i32, ErrorKind>) -> (pair: (State, Action))
    ensures
        is_turn(pair, finish_turn(result)),
{
    (State::Done { result }, Action::Finish { result })
}

fn fail(kind: ErrorKind) -> (pair: (State, Action))
    ensures
        is_turn(pair, fail_turn(kind)),
{
    finish(Err(kind))
}

fn to_scaffold(kind: ProjectKind, name: String, index: usize) -> (pair: (State, Action))
    ensures
        is_turn(pair, scaffold_turn(kind, name@, index as nat)),
{
    match scaffold_step(kind, name.as_str(), index) {
        Some(action) => (State::NewStep { kind, name, index }, action),
        None => finish(Ok(0)),
    }
}

fn to_probe(profile: Profile, goal: Goal) -> (pair: (State, Action))
    ensures
        is_turn(pair, probe_turn(profile, goal@)),
{
    (State::Probe { profile, goal }, Action::ProbeDir { path: profile.resolve().0.to_owned() })
}

fn to_configure(profile: Profile, goal: Goal) -> (pair: (State, Action))
    ensures
        is_turn(pair, configure_turn(profile, goal@)),
{
    let place = profile.resolve();
    (
        State::Configure { profile, goal },
        Action::Configure { dir: place.0.to_owned(), buildtype: place.1.to_owned() },
    )
}

fn to_compile(profile: Profile, goal: Goal) -> (pair: (State, Action))
    ensures
        is_turn(pair, compile_turn(profile, goal@)),
{
    (State::Compile { profile, goal }, Action::Compile { dir: profile.resolve().0.to_owned() })
}

fn to_unlink(profile: Profile, goal: Goal) -> (pair: (State, Action))
    ensures
        is_turn(pair, unlink_turn(profile, goal@)),
{
    (State::Unlink { profile, goal }, Action::Unlink { path: COMPILE_DB.to_owned() })
}

fn to_link(profile: Profile, goal: Goal) -> (pair: (State, Action))
    ensures
        is_turn(pair, link_turn(profile, goal@)),
{
    (
        State::Link { profile, goal },
        Action::Symlink { target: database_path(profile), link: COMPILE_DB.to_owned() },
    )
}

fn to_tests() -> (pair: (State, Action))
    ensures
        is_turn(pair, tests_turn()),
{
    (State::Tests, Action::RunTests { dir: Profile::Debug.resolve().0.to_owned() })
}

fn to_goal(goal: Goal) -> (pair: (State, Action))
    ensures
        is_turn(pair, goal_turn(goal@)),
{
    match goal {
        Goal::Build => finish(Ok(0)),
        Goal::Test => to_tests(),
        Goal::Run { artifact, args } => (State::Exec, Action::Exec { path: artifact, args }),
    }
}

fn pass_gate(command: Command, contents: Option<String>) -> (pair: (State, Action))
    ensures
        is_turn(pair, gate_turn(command@, contents.deep_view())),
{
    let text: Option<&str> = match &contents {
        Some(text) => Some(text.as_str()),
        None => None,
    };
    assert(text.deep_view() == contents.deep_view());
    match command {
        Command::New { .. } => fail(ErrorKind::UnexpectedEvent),
        Command::Build { profile } => if is_project(text) {
            to_probe(profile, Goal::Build)
        } else {
            fail(ErrorKind::NotAProject)
        },
        Command::Test => if is_project(text) {
            to_probe(Profile::Debug, Goal::Test)
        } else {
            fail(ErrorKind::NotAProject)
        },
        Command::Run { profile, args } => match read_manifest(text) {
            Ok(manifest) => match manifest.kind {
                ProjectKind::Binary => {
                    let artifact = artifact_path(profile, manifest.name.as_str());
                    to_probe(profile, Goal::Run { artifact, args })
                },
                ProjectKind::Library => fail(ErrorKind::NotRunnable),
            },
            Err(kind) => fail(kind),
        },
        Command::Clean => if is_project(text) {
            (State::CleanTree, Action::RemoveTree { path: TARGET_DIR.to_owned() })
        } else {
            fail(ErrorKind::NotAProject)
        },
    }
}

/// Begins a command: hands back the state it is in and its first action.
pub fn start(command: Command) -> (pair: (State, Action))
    ensures
        is_turn(pair, first(command@)),
{
    match command {
        Command::New { bin, lib, name } => match select_kind(bin, lib) {
            Ok(kind) => (State::NewProbe { kind, segment: name }, Action::ProbeRoot),
            Err(kind) => fail(kind),
        },
        _ => (State::Gate { command }, Action::ReadManifest { path: MANIFEST_FILE.to_owned() }),
    }
}

/// Takes the driver's answer to the last action and hands back the state
/// the command is in now, with its next action.
pub fn step(state: State, event: Event) -> (pair: (State, Action))
    ensures
        is_turn(pair, next(state@, event@)),
{
    match state {
        State::NewProbe { kind, segment } => match event {
            Event::Exists(true) => fail(ErrorKind::PathExists),
            Event::Exists(false) => (State::NewRoot { kind, segment }, Action::CreateRoot),
            _ => fail(ErrorKind::UnexpectedEvent),
        },
        State::NewRoot { kind, segment } => match event {
            Event::Io(IoOutcome::Done) => match segment {
                Some(name) => if is_valid_name(name.as_str()) {
                    to_scaffold(kind, name, 0)
                } else {
                    fail(ErrorKind::InvalidProjectName)
                },
                None => fail(ErrorKind::InvalidProjectName),
            },
            Event::Io(_) => fail(ErrorKind::Io),
            _ => fail(ErrorKind::UnexpectedEvent),
        },
        State::NewStep { kind, name, index } => if index >= plan_length(kind) {
            fail(ErrorKind::UnexpectedEvent)
        } else if index == VCS_STEP {
            to_scaffold(kind, name, index + 1)
        } else {
            match event {
                Event::Io(IoOutcome::Done) => to_scaffold(kind, name, index + 1),
                Event::Io(_) => fail(ErrorKind::Io),
                _ => fail(ErrorKind::UnexpectedEvent),
            }
        },
        State::Gate { command } => match event {
            Event::Manifest(contents) => pass_gate(command, contents),
            _ => fail(ErrorKind::UnexpectedEvent),
        },
        State::Probe { profile, goal } => match event {
            Event::Exists(true) => match goal {
                Goal::Test => to_tests(),
                _ => to_compile(profile, goal),
            },
            Event::Exists(false) => to_configure(profile, goal),
            _ => fail(ErrorKind::UnexpectedEvent),
        },
        State::Configure { profile, goal } => match event {
            Event::Exited(code) => if exit_ok(code) {
                to_compile(profile, goal)
            } else {
                fail(ErrorKind::ConfigureFailed)
            },
            _ => fail(ErrorKind::UnexpectedEvent),
        },
        State::Compile { profile, goal } => match event {
            Event::Exited(code) => if exit_ok(code) {
                to_unlink(profile, goal)
            } else {
                fail(ErrorKind::CompileFailed)
            },
            _ => fail(ErrorKind::UnexpectedEvent),
        },
        State::Unlink { profile, goal } => match event {
            Event::Io(IoOutcome::Failed) => fail(ErrorKind::LinkReplaceFailed),
            Event::Io(_) => to_link(profile, goal),
            _ => fail(ErrorKind::UnexpectedEvent),
        },
        State::Link { profile, goal } => match event {
            Event::Io(IoOutcome::Done) => to_goal(goal),
            Event::Io(_) => fail(ErrorKind::Io),
            _ => fail(ErrorKind::UnexpectedEvent),
        },
        State::Tests => match event {
            Event::Exited(code) => if exit_ok(code) {
                finish(Ok(0))
            } else {
                fail(ErrorKind::TestsFailed)
            },
            _ => fail(ErrorKind::UnexpectedEvent),
        },
        State::Exec => match event {
            Event::Exited(Some(status)) => finish(Ok(status)),
            Event::Exited(None) => finish(Ok(ABNORMAL_STATUS)),
            _ => fail(ErrorKind::UnexpectedEvent),
        },
        State::CleanTree => match event {
            Event::Io(_) => (State::CleanLink, Action::Unlink { path: COMPILE_DB.to_owned() }),
            _ => fail(ErrorKind::UnexpectedEvent),
        },
        State::CleanLink => match event {
            Event::Io(_) => finish(Ok(0)),
            _ => fail(ErrorKind::UnexpectedEvent),
        },
        State::Done { result } => finish(result),
    }
}

} // verus!
