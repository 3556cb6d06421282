//! The files and directories a new project starts with.

use vstd::prelude::*;
use crate::action::{views, Action, ActionView};
use crate::manifest::{same_text, ProjectKind, MANIFEST_FILE};
use crate::template::{
    render, rendered, FORMAT_STYLE, HEADER_BUILD, HEADER_SOURCE, IGNORE_RULES, MANIFEST_BIN,
    MANIFEST_LIB, ROOT_BUILD_BIN, ROOT_BUILD_LIB, SOURCE_BIN, SOURCE_BUILD_BIN, SOURCE_BUILD_LIB,
    SOURCE_LIB, TEST_BUILD, TEST_SOURCE,
};

verus! {

/// Whether `name` can name a project: it is not empty, holds no path
/// separator and no NUL, and is neither `.` nor `..`.
pub open spec fn valid_name(name: Seq<char>) -> bool {
    &&& name.len() > 0
    &&& !name.contains('/')
    &&& !name.contains('\0')
    &&& name != "."@
    &&& name != ".."@
}

/// The step that writes the file at `path` from `template`.
pub open spec fn file_step(path: Seq<char>, template: Seq<char>, name: Seq<char>) -> ActionView {
    ActionView::WriteFile { path, contents: rendered(template, name) }
}

/// The steps that every new project takes, in order.
pub open spec fn shared_steps(kind: ProjectKind, name: Seq<char>) -> Seq<ActionView> {
    seq![
        ActionView::CreateDir { path: "src"@ },
        match kind {
            ProjectKind::Binary => file_step(MANIFEST_FILE@, MANIFEST_BIN@, name),
            ProjectKind::Library => file_step(MANIFEST_FILE@, MANIFEST_LIB@, name),
        },
        match kind {
            ProjectKind::Binary => file_step("meson.build"@, ROOT_BUILD_BIN@, name),
            ProjectKind::Library => file_step("meson.build"@, ROOT_BUILD_LIB@, name),
        },
        match kind {
            ProjectKind::Binary => file_step("src/meson.build"@, SOURCE_BUILD_BIN@, name),
            ProjectKind::Library => file_step("src/meson.build"@, SOURCE_BUILD_LIB@, name),
        },
        match kind {
            ProjectKind::Binary => file_step("src/main.c"@, SOURCE_BIN@, name),
            ProjectKind::Library => file_step("src/lib.c"@, SOURCE_LIB@, name),
        },
        file_step(".clang-format"@, FORMAT_STYLE@, name),
        file_step(".gitignore"@, IGNORE_RULES@, name),
        ActionView::InitVcs,
    ]
}

/// Where a library's public header goes.
pub open spec fn header_path(name: Seq<char>) -> Seq<char> {
    "include/"@ + name + ".h"@
}

/// The further steps that a new library takes, in order.
pub open spec fn library_steps(name: Seq<char>) -> Seq<ActionView> {
    seq![
        ActionView::CreateDir { path: "include"@ },
        file_step("include/meson.build"@, HEADER_BUILD@, name),
        file_step(header_path(name), HEADER_SOURCE@, name),
        ActionView::CreateDir { path: "tests"@ },
        file_step("tests/meson.build"@, TEST_BUILD@, name),
        file_step("tests/test.c"@, TEST_SOURCE@, name),
    ]
}

/// Everything that creating a project of `kind` named `name` does under the
/// project root once the root exists, in order.
pub open spec fn scaffold_plan(kind: ProjectKind, name: Seq<char>) -> Seq<ActionView> {
    match kind {
        ProjectKind::Binary => shared_steps(kind, name),
        ProjectKind::Library => shared_steps(kind, name) + library_steps(name),
    }
}

/// Position of the version control step in every plan. It is the one step
/// whose failure does not end the creation of a project.
pub const VCS_STEP: usize = 7;

/// The number of steps in the plan for a project of `kind`.
pub open spec fn plan_len(kind: ProjectKind) -> nat {
    match kind {
        ProjectKind::Binary => 8,
        ProjectKind::Library => 14,
    }
}

/// The length of a plan depends on the kind alone, and the step at
/// `VCS_STEP`, and no other, sets up version control.
pub proof fn law_plan_shape(kind: ProjectKind, name: Seq<char>)
    ensures
        scaffold_plan(kind, name).len() == plan_len(kind),
        forall|i: int|
            0 <= i < plan_len(kind) ==> (#[trigger] scaffold_plan(kind, name)[i] is InitVcs <==> i
                == VCS_STEP),
{
    let plan = scaffold_plan(kind, name);
    assert forall|i: int| 0 <= i < plan_len(kind) implies (#[trigger] plan[i] is InitVcs <==> i
        == VCS_STEP) by {
        if i < 8 {
            assert(plan[i] == shared_steps(kind, name)[i]);
        } else {
            assert(plan[i] == library_steps(name)[i - 8]);
        }
    }
}

/// The number of steps in the plan for a project of `kind`.
pub fn plan_length(kind: ProjectKind) -> (n: usize)
    ensures
        n == plan_len(kind),
{
    match kind {
        ProjectKind::Binary => 8,
        ProjectKind::Library => 14,
    }
}

/// Whether `name` can name a project.
pub fn is_valid_name(name: &str) -> (valid: bool)
    ensures
        valid == valid_name(name@),
{
    let n = name.unicode_len();
    if n == 0 || same_text(name, ".") || same_text(name, "..") {
        return false;
    }
    let mut i: usize = 0;
    while i < n
        invariant
            i <= n == name@.len(),
            forall|j: int| 0 <= j < i ==> name@[j] != '/' && name@[j] != '\0',
        decreases n - i,
    {
        let c = name.get_char(i);
        if c == '/' || c == '\0' {
            assert(name@[i as int] == c);
            return false;
        }
        i = i + 1;
    }
    true
}

fn dir_step(path: &str) -> (action: Action)
    ensures
        action@ == (ActionView::CreateDir { path: path@ }),
{
    Action::CreateDir { path: path.to_owned() }
}

fn write_step(path: &str, template: &str, name: &str) -> (action: Action)
    ensures
        action@ == file_step(path@, template@, name@),
{
    Action::WriteFile { path: path.to_owned(), contents: render(template, name) }
}

/// Step `index` of the plan for a new project, `None` past its end.
pub fn scaffold_step(kind: ProjectKind, name: &str, index: usize) -> (step: Option<Action>)
    ensures
        match step {
            Some(action) => index < scaffold_plan(kind, name@).len() && action@ == scaffold_plan(
                kind,
                name@,
            )[index as int],
            None => index >= scaffold_plan(kind, name@).len(),
        },
{
    let binary = match kind {
        ProjectKind::Binary => true,
        ProjectKind::Library => false,
    };
    if index == 0 {
        Some(dir_step("src"))
    } else if index == 1 {
        Some(write_step(MANIFEST_FILE, if binary { MANIFEST_BIN } else { MANIFEST_LIB }, name))
    } else if index == 2 {
        Some(write_step("meson.build", if binary { ROOT_BUILD_BIN } else { ROOT_BUILD_LIB }, name))
    } else if index == 3 {
        Some(
            write_step(
                "src/meson.build",
                if binary { SOURCE_BUILD_BIN } else { SOURCE_BUILD_LIB },
                name,
            ),
        )
    } else if index == 4 {
        if binary {
            Some(write_step("src/main.c", SOURCE_BIN, name))
        } else {
            Some(write_step("src/lib.c", SOURCE_LIB, name))
        }
    } else if index == 5 {
        Some(write_step(".clang-format", FORMAT_STYLE, name))
    } else if index == 6 {
        Some(write_step(".gitignore", IGNORE_RULES, name))
    } else if index == 7 {
        Some(Action::InitVcs)
    } else if binary {
        None
    } else if index == 8 {
        Some(dir_step("include"))
    } else if index == 9 {
        Some(write_step("include/meson.build", HEADER_BUILD, name))
    } else if index == 10 {
        let mut path = "include/".to_owned();
        path.append(name);
        path.append(".h");
        Some(write_step(path.as_str(), HEADER_SOURCE, name))
    } else if index == 11 {
        Some(dir_step("tests"))
    } else if index == 12 {
        Some(write_step("tests/meson.build", TEST_BUILD, name))
    } else if index == 13 {
        Some(write_step("tests/test.c", TEST_SOURCE, name))
    } else {
        None
    }
}

/// The whole plan for a new project of `kind` named `name`.
pub fn scaffold(kind: ProjectKind, name: &str) -> (plan: Vec<Action>)
    ensures
        views(plan@) == scaffold_plan(kind, name@),
{
    let mut plan: Vec<Action> = Vec::new();
    let mut index: usize = 0;
    loop
        invariant
            index == plan.len() <= scaffold_plan(kind, name@).len(),
            forall|i: int| 0 <= i < index ==> plan[i]@ == scaffold_plan(kind, name@)[i],
        ensures
            views(plan@) == scaffold_plan(kind, name@),
        decreases scaffold_plan(kind, name@).len() - index,
    {
        match scaffold_step(kind, name, index) {
            Some(action) => {
                plan.push(action);
                index = index + 1;
            },
            None => {
                assert(views(plan@) =~= scaffold_plan(kind, name@));
                break ;
            },
        }
    }
    plan
}

} // verus!
