//! What the orchestrator asks of its driver, and what the driver answers.
//!
//! The library touches neither the file system nor any process. It hands
//! out one `Action` at a time; the driver carries it out and reports back
//! with an `Event`. Every path in an action is relative to the project root.

use vstd::prelude::*;
use crate::error::ErrorKind;

verus! {

/// Name of the link to the active profile's compile database.
pub const COMPILE_DB: &'static str = "compile_commands.json";

/// How a file system operation ended.
#[derive(Clone, Copy, PartialEq, Eq, Debug, Structural)]
pub enum IoOutcome {
    /// It did what was asked.
    Done,
    /// There was nothing at the path to work on.
    NotFound,
    /// It failed for any other reason.
    Failed,
}

/// One thing for the driver to do.
#[derive(PartialEq, Eq, Debug)]
pub enum Action {
    /// Report whether anything exists at the project root.
    /// Answer: `Event::Exists`.
    ProbeRoot,
    /// Create the project root and every missing directory above it.
    /// Answer: `Event::Io`.
    CreateRoot,
    /// Create a directory. Answer: `Event::Io`.
    CreateDir { path: String },
    /// Write a file with the given contents. Answer: `Event::Io`.
    WriteFile { path: String, contents: String },
    /// Put the project root under version control. Answer: `Event::Exited`.
    InitVcs,
    /// Read the manifest file. Answer: `Event::Manifest`.
    ReadManifest { path: String },
    /// Report whether anything exists at `path`. Answer: `Event::Exists`.
    ProbeDir { path: String },
    /// Run the build generator on a build directory. Answer: `Event::Exited`.
    Configure { dir: String, buildtype: String },
    /// Run the build executor in a build directory. Answer: `Event::Exited`.
    Compile { dir: String },
    /// Run the test runner in a build directory. Answer: `Event::Exited`.
    RunTests { dir: String },
    /// Remove the file or link at `path`. Answer: `Event::Io`.
    Unlink { path: String },
    /// Create a symbolic link at `link` that points at `target`.
    /// Answer: `Event::Io`.
    Symlink { target: String, link: String },
    /// Remove a directory with all it holds. Answer: `Event::Io`.
    RemoveTree { path: String },
    /// Run a built artifact with the given arguments. Answer: `Event::Exited`.
    Exec { path: String, args: Vec<String> },
    /// The command is over: end with this status, or report this failure.
    Finish { result: Result<i32, ErrorKind> },
}

/// An action as a mathematical value.
pub enum ActionView {
    ProbeRoot,
    CreateRoot,
    CreateDir { path: Seq<char> },
    WriteFile { path: Seq<char>, contents: Seq<char> },
    InitVcs,
    ReadManifest { path: Seq<char> },
    ProbeDir { path: Seq<char> },
    Configure { dir: Seq<char>, buildtype: Seq<char> },
    Compile { dir: Seq<char> },
    RunTests { dir: Seq<char> },
    Unlink { path: Seq<char> },
    Symlink { target: Seq<char>, link: Seq<char> },
    RemoveTree { path: Seq<char> },
    Exec { path: Seq<char>, args: Seq<Seq<char>> },
    Finish { result: Result<i32, ErrorKind> },
}

impl View for Action {
    type V = ActionView;

    open spec fn view(&self) -> ActionView {
        match *self {
            Action::ProbeRoot => ActionView::ProbeRoot,
            Action::CreateRoot => ActionView::CreateRoot,
            Action::CreateDir { path } => ActionView::CreateDir { path: path@ },
            Action::WriteFile { path, contents } => ActionView::WriteFile {
                path: path@,
                contents: contents@,
            },
            Action::InitVcs => ActionView::InitVcs,
            Action::ReadManifest { path } => ActionView::ReadManifest { path: path@ },
            Action::ProbeDir { path } => ActionView::ProbeDir { path: path@ },
            Action::Configure { dir, buildtype } => ActionView::Configure {
                dir: dir@,
                buildtype: buildtype@,
            },
            Action::Compile { dir } => ActionView::Compile { dir: dir@ },
            Action::RunTests { dir } => ActionView::RunTests { dir: dir@ },
            Action::Unlink { path } => ActionView::Unlink { path: path@ },
            Action::Symlink { target, link } => ActionView::Symlink {
                target: target@,
                link: link@,
            },
            Action::RemoveTree { path } => ActionView::RemoveTree { path: path@ },
            Action::Exec { path, args } => ActionView::Exec {
                path: path@,
                args: args.deep_view(),
            },
            Action::Finish { result } => ActionView::Finish { result },
        }
    }
}

/// What the driver reports after carrying out an action.
#[derive(Clone, PartialEq, Eq, Debug)]
pub enum Event {
    /// Whether something exists at the probed path.
    Exists(bool),
    /// The contents of the manifest file, `None` where it could not be read.
    Manifest(Option<String>),
    /// The exit code of a child process, `None` where it could not be
    /// started or ended without one.
    Exited(Option<i32>),
    /// How a file system operation ended.
    Io(IoOutcome),
}

/// An event as a mathematical value.
pub enum EventView {
    Exists(bool),
    Manifest(Option<Seq<char>>),
    Exited(Option<i32>),
    Io(IoOutcome),
}

impl View for Event {
    type V = EventView;

    open spec fn view(&self) -> EventView {
        match *self {
            Event::Exists(yes) => EventView::Exists(yes),
            Event::Manifest(contents) => EventView::Manifest(contents.deep_view()),
            Event::Exited(code) => EventView::Exited(code),
            Event::Io(outcome) => EventView::Io(outcome),
        }
    }
}

/// The views of a sequence of actions, in order.
pub open spec fn views(actions: Seq<Action>) -> Seq<ActionView> {
    actions.map_values(|action: Action| action@)
}

} // verus!
