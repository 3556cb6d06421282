//! The command lines behind the actions that run a program.

use vstd::prelude::*;
use crate::action::{Action, ActionView};

verus! {

/// A program to run, with its arguments.
#[derive(Clone, PartialEq, Eq, Debug)]
pub struct Invocation {
    pub program: String,
    pub args: Vec<String>,
    /// Whether the path of the project root follows as the last argument.
    pub root_last: bool,
    /// Whether the program's output is kept from the user.
    pub quiet: bool,
}

/// An invocation as a mathematical value.
pub struct InvocationView {
    pub program: Seq<char>,
    pub args: Seq<Seq<char>>,
    pub root_last: bool,
    pub quiet: bool,
}

impl View for Invocation {
    type V = InvocationView;

    open spec fn view(&self) -> InvocationView {
        InvocationView {
            program: self.program@,
            args: self.args.deep_view(),
            root_last: self.root_last,
            quiet: self.quiet,
        }
    }
}

/// The command line of an action, `None` for an action that runs no
/// program. The generator is `meson setup` with the build type and the
/// build directory, the executor `ninja` in the build directory, the test
/// runner `meson test` in it, version control `git init` on the project
/// root; an artifact is run as it is, with the arguments given.
pub open spec fn invocation_of(action: ActionView) -> Option<InvocationView> {
    match action {
        ActionView::Configure { dir, buildtype } => Some(
            InvocationView {
                program: "meson"@,
                args: seq!["setup"@, "-Dbuildtype="@ + buildtype, dir],
                root_last: false,
                quiet: false,
            },
        ),
        ActionView::Compile { dir } => Some(
            InvocationView {
                program: "ninja"@,
                args: seq!["-C"@, dir],
                root_last: false,
                quiet: false,
            },
        ),
        ActionView::RunTests { dir } => Some(
            InvocationView {
                program: "meson"@,
                args: seq!["test"@, "-C"@, dir],
                root_last: false,
                quiet: false,
            },
        ),
        ActionView::InitVcs => Some(
            InvocationView {
                program: "git"@,
                args: seq!["init"@],
                root_last: true,
                quiet: true,
            },
        ),
        ActionView::Exec { path, args } => Some(
            InvocationView { program: path, args, root_last: false, quiet: false },
        ),
        _ => None,
    }
}

/// The view of an optional invocation.
pub open spec fn invocation_view(invocation: Option<Invocation>) -> Option<InvocationView> {
    match invocation {
        Some(invocation) => Some(invocation@),
        None => None,
    }
}

fn plain(program: &str, args: Vec<String>) -> (invocation: Invocation)
    ensures
        invocation@ == (InvocationView {
            program: program@,
            args: args.deep_view(),
            root_last: false,
            quiet: false,
        }),
{
    Invocation { program: program.to_owned(), args, root_last: false, quiet: false }
}

/// The command line of an action that runs a program.
pub fn invocation(action: Action) -> (line: Option<Invocation>)
    ensures
        invocation_view(line) == invocation_of(action@),
{
    match action {
        Action::Configure { dir, buildtype } => {
            let mut option = "-Dbuildtype=".to_owned();
            option.append(buildtype.as_str());
            let mut args: Vec<String> = Vec::new();
            args.push("setup".to_owned());
            args.push(option);
            args.push(dir);
            assert(args.deep_view() =~= seq!["setup"@, "-Dbuildtype="@ + buildtype@, dir@]);
            Some(plain("meson", args))
        },
        Action::Compile { dir } => {
            let mut args: Vec<String> = Vec::new();
            args.push("-C".to_owned());
            args.push(dir);
            assert(args.deep_view() =~= seq!["-C"@, dir@]);
            Some(plain("ninja", args))
        },
        Action::RunTests { dir } => {
            let mut args: Vec<String> = Vec::new();
            args.push("test".to_owned());
            args.push("-C".to_owned());
            args.push(dir);
            assert(args.deep_view() =~= seq!["test"@, "-C"@, dir@]);
            Some(plain("meson", args))
        },
        Action::InitVcs => {
            let mut args: Vec<String> = Vec::new();
            args.push("init".to_owned());
            assert(args.deep_view() =~= seq!["init"@]);
            Some(Invocation { program: "git".to_owned(), args, root_last: true, quiet: true })
        },
        Action::Exec { path, args } => Some(
            Invocation { program: path, args, root_last: false, quiet: false },
        ),
        _ => None,
    }
}

} // verus!
