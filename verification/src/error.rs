//! The closed set of failures a command can end with.

use vstd::prelude::*;

verus! {

/// Why a command failed.
#[derive(Clone, Copy, PartialEq, Eq, Debug, Structural)]
pub enum ErrorKind {
    /// Both the application and the library template were asked for.
    KindConflict,
    /// The place for the new project is already taken.
    PathExists,
    /// The last segment of the new project's path cannot serve as a name.
    InvalidProjectName,
    /// The working directory holds no manifest that parses.
    NotAProject,
    /// The manifest lacks a name or a type, or one of them is not a string.
    MalformedManifest,
    /// The manifest's type is neither `bin` nor `lib`.
    UnsupportedKind,
    /// A library has no artifact to run.
    NotRunnable,
    /// The build generator ended with a failure.
    ConfigureFailed,
    /// The build executor ended with a failure.
    CompileFailed,
    /// The test runner ended with a failure.
    TestsFailed,
    /// Something other than absence kept the old compile database link in place.
    LinkReplaceFailed,
    /// A directory, file or link could not be created.
    Io,
    /// The driver answered an action with an event of another kind.
    UnexpectedEvent,
}

impl ErrorKind {
    /// What the user is told about a failure of this kind.
    pub open spec fn description(self) -> Seq<char> {
        match self {
            ErrorKind::KindConflict => "can't specify both library and binary"@,
            ErrorKind::PathExists => "path already exists"@,
            ErrorKind::InvalidProjectName => "bad path: no project name in it"@,
            ErrorKind::NotAProject => "not in a project"@,
            ErrorKind::MalformedManifest => "missing or malformed project name or type in carton.toml"@,
            ErrorKind::UnsupportedKind => "unsupported project type in carton.toml"@,
            ErrorKind::NotRunnable => "can only run binary project"@,
            ErrorKind::ConfigureFailed => "configuring the build failed"@,
            ErrorKind::CompileFailed => "compiling failed"@,
            ErrorKind::TestsFailed => "tests failed"@,
            ErrorKind::LinkReplaceFailed => "cannot replace compile_commands.json"@,
            ErrorKind::Io => "cannot create a file, directory or link"@,
            ErrorKind::UnexpectedEvent => "unexpected answer to an action"@,
        }
    }

    /// The message for the user.
    pub fn describe(self) -> (text: &'static str)
        ensures
            text@ == self.description(),
    {
        match self {
            ErrorKind::KindConflict => "can't specify both library and binary",
            ErrorKind::PathExists => "path already exists",
            ErrorKind::InvalidProjectName => "bad path: no project name in it",
            ErrorKind::NotAProject => "not in a project",
            ErrorKind::MalformedManifest => "missing or malformed project name or type in carton.toml",
            ErrorKind::UnsupportedKind => "unsupported project type in carton.toml",
            ErrorKind::NotRunnable => "can only run binary project",
            ErrorKind::ConfigureFailed => "configuring the build failed",
            ErrorKind::CompileFailed => "compiling failed",
            ErrorKind::TestsFailed => "tests failed",
            ErrorKind::LinkReplaceFailed => "cannot replace compile_commands.json",
            ErrorKind::Io => "cannot create a file, directory or link",
            ErrorKind::UnexpectedEvent => "unexpected answer to an action",
        }
    }
}

} // verus!
