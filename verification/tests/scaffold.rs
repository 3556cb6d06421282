use carton::action::Action;
use carton::manifest::ProjectKind;
use carton::scaffold::{is_valid_name, plan_length, scaffold, scaffold_step, VCS_STEP};

fn paths(plan: &[Action]) -> Vec<String> {
    let mut all = Vec::new();
    for action in plan {
        match action {
            Action::CreateDir { path } => all.push(format!("{}/", path)),
            Action::WriteFile { path, .. } => all.push(path.clone()),
            Action::InitVcs => all.push("<vcs>".to_string()),
            other => panic!("no step of a plan: {:?}", other),
        }
    }
    all
}

fn contents_of(plan: &[Action], wanted: &str) -> String {
    for action in plan {
        if let Action::WriteFile { path, contents } = action {
            if path == wanted {
                return contents.clone();
            }
        }
    }
    panic!("no file {}", wanted)
}

#[test]
fn library_scaffold_is_complete() {
    let plan = scaffold(ProjectKind::Library, "mylib");
    assert_eq!(
        paths(&plan),
        vec![
            "src/",
            "carton.toml",
            "meson.build",
            "src/meson.build",
            "src/lib.c",
            ".clang-format",
            ".gitignore",
            "<vcs>",
            "include/",
            "include/meson.build",
            "include/mylib.h",
            "tests/",
            "tests/meson.build",
            "tests/test.c",
        ]
    );
}

#[test]
fn library_scaffold_names_the_project_everywhere() {
    let plan = scaffold(ProjectKind::Library, "mylib");
    for action in &plan {
        if let Action::WriteFile { path, contents } = action {
            assert!(!contents.contains("<PROJECT>"), "{}", path);
            assert_eq!(contents.trim(), contents.as_str(), "{}", path);
        }
    }
    assert!(contents_of(&plan, "carton.toml").contains("name = \"mylib\""));
    assert!(contents_of(&plan, "carton.toml").contains("type = \"lib\""));
    assert!(contents_of(&plan, "meson.build").contains("'mylib',"));
    assert!(contents_of(&plan, "meson.build").contains("subdir('tests')"));
    assert!(contents_of(&plan, "src/meson.build").contains("'mylib',"));
    assert!(contents_of(&plan, "src/meson.build").contains("lib = library("));
    assert!(contents_of(&plan, "src/lib.c").contains("#include <mylib.h>"));
    assert!(contents_of(&plan, "tests/test.c").contains("#include <mylib.h>"));
    assert_eq!(contents_of(&plan, "include/meson.build"), "install_headers('mylib.h')");
    assert_eq!(
        contents_of(&plan, "include/mylib.h"),
        "#pragma once\n\nint add_two(int x, int y);"
    );
    assert_eq!(contents_of(&plan, ".gitignore"), "/target");
    assert!(contents_of(&plan, ".clang-format").starts_with("AccessModifierOffset: -2\n"));
    assert!(contents_of(&plan, ".clang-format").ends_with("UseTab: Never"));
}

#[test]
fn library_scaffold_top_level() {
    let plan = scaffold(ProjectKind::Library, "mylib");
    let mut top: Vec<String> =
        paths(&plan).into_iter().filter(|p| !p.contains('/') && p != "<vcs>").collect();
    top.sort();
    assert_eq!(top, vec![".clang-format", ".gitignore", "carton.toml", "meson.build"]);
    let mut dirs: Vec<String> = paths(&plan).into_iter().filter(|p| p.ends_with('/')).collect();
    dirs.sort();
    assert_eq!(dirs, vec!["include/", "src/", "tests/"]);
}

#[test]
fn application_scaffold_has_no_headers_and_no_tests() {
    let plan = scaffold(ProjectKind::Binary, "demo");
    assert_eq!(
        paths(&plan),
        vec![
            "src/",
            "carton.toml",
            "meson.build",
            "src/meson.build",
            "src/main.c",
            ".clang-format",
            ".gitignore",
            "<vcs>",
        ]
    );
    assert!(contents_of(&plan, "carton.toml").contains("type = \"bin\""));
    assert!(contents_of(&plan, "src/meson.build").contains("bin = executable("));
    assert!(contents_of(&plan, "src/meson.build").contains("'demo',"));
    assert!(!contents_of(&plan, "meson.build").contains("subdir('tests')"));
}

#[test]
fn steps_one_by_one_make_the_plan() {
    for kind in [ProjectKind::Binary, ProjectKind::Library] {
        let plan = scaffold(kind, "demo");
        assert_eq!(plan.len(), plan_length(kind));
        for (index, action) in plan.iter().enumerate() {
            assert_eq!(scaffold_step(kind, "demo", index).as_ref(), Some(action));
        }
        assert_eq!(scaffold_step(kind, "demo", plan.len()), None);
        assert_eq!(scaffold_step(kind, "demo", usize::MAX), None);
    }
}

#[test]
fn plan_lengths() {
    assert_eq!(plan_length(ProjectKind::Binary), 8);
    assert_eq!(plan_length(ProjectKind::Library), 14);
}

#[test]
fn version_control_step_is_where_it_is_said_to_be() {
    for kind in [ProjectKind::Binary, ProjectKind::Library] {
        let plan = scaffold(kind, "demo");
        for (index, action) in plan.iter().enumerate() {
            assert_eq!(*action == Action::InitVcs, index == VCS_STEP);
        }
    }
}

#[test]
fn header_is_named_after_the_project() {
    let plan = scaffold(ProjectKind::Library, "grüße");
    assert!(paths(&plan).contains(&"include/grüße.h".to_string()));
    assert!(contents_of(&plan, "src/lib.c").contains("#include <grüße.h>"));
}

#[test]
fn valid_names() {
    assert!(is_valid_name("demo"));
    assert!(is_valid_name("my-lib_2"));
    assert!(is_valid_name("..."));
    assert!(is_valid_name(".hidden"));
    assert!(is_valid_name("a b"));
    assert!(is_valid_name("grüße"));
}

#[test]
fn invalid_names() {
    assert!(!is_valid_name(""));
    assert!(!is_valid_name("."));
    assert!(!is_valid_name(".."));
    assert!(!is_valid_name("a/b"));
    assert!(!is_valid_name("/"));
    assert!(!is_valid_name("demo/"));
    assert!(!is_valid_name("de\0mo"));
}
