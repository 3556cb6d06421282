use carton::action::{Action, Event, IoOutcome, COMPILE_DB};
use carton::error::ErrorKind;
use carton::manifest::ProjectKind;
use carton::orchestrator::{
    artifact_path, database_path, exit_ok, select_kind, start, step, Command, Goal, State,
    ABNORMAL_STATUS,
};
use carton::profile::{Profile, DEBUG_DIR, RELEASE_DIR, TARGET_DIR};
use carton::tools::invocation;

const APPLICATION: &str = "[project]\nname = \"demo\"\nversion = \"0.1.0\"\ntype = \"bin\"";
const LIBRARY: &str = "[project]\nname = \"mylib\"\nversion = \"0.1.0\"\ntype = \"lib\"";

/// A project root in memory, with tools that end as they are told to.
struct Sim {
    root_exists: bool,
    manifest: Option<String>,
    dirs: Vec<String>,
    files: Vec<(String, String)>,
    link: Option<String>,
    link_is_stuck: bool,
    symlink_fails: bool,
    failing_path: Option<String>,
    configure: Option<i32>,
    compile: Option<i32>,
    tests: Option<i32>,
    artifact: Option<i32>,
    vcs: Option<i32>,
    log: Vec<String>,
}

fn sim(manifest: Option<&str>) -> Sim {
    Sim {
        root_exists: false,
        manifest: manifest.map(|m| m.to_string()),
        dirs: Vec::new(),
        files: Vec::new(),
        link: None,
        link_is_stuck: false,
        symlink_fails: false,
        failing_path: None,
        configure: Some(0),
        compile: Some(0),
        tests: Some(0),
        artifact: Some(0),
        vcs: Some(0),
        log: Vec::new(),
    }
}

fn command_line(action: Action) -> String {
    let line = invocation(action).unwrap();
    let mut words = vec![line.program];
    words.extend(line.args);
    words.join(" ")
}

fn done(ok: bool) -> Event {
    Event::Io(if ok { IoOutcome::Done } else { IoOutcome::Failed })
}

fn answer(sim: &mut Sim, action: Action) -> Event {
    match action {
        Action::ProbeRoot => {
            sim.log.push("probe root".to_string());
            Event::Exists(sim.root_exists)
        }
        Action::CreateRoot => {
            sim.log.push("create root".to_string());
            let ok = sim.failing_path.as_deref() != Some("");
            sim.root_exists = ok;
            done(ok)
        }
        Action::CreateDir { path } => {
            sim.log.push(format!("mkdir {}", path));
            let ok = sim.failing_path.as_deref() != Some(path.as_str());
            if ok {
                sim.dirs.push(path);
            }
            done(ok)
        }
        Action::WriteFile { path, contents } => {
            sim.log.push(format!("write {}", path));
            let ok = sim.failing_path.as_deref() != Some(path.as_str());
            if ok {
                sim.files.push((path, contents));
            }
            done(ok)
        }
        Action::ReadManifest { path } => {
            sim.log.push(format!("read {}", path));
            Event::Manifest(sim.manifest.clone())
        }
        Action::ProbeDir { path } => {
            sim.log.push(format!("probe {}", path));
            Event::Exists(sim.dirs.contains(&path))
        }
        Action::Unlink { path } => {
            sim.log.push(format!("unlink {}", path));
            assert_eq!(path, COMPILE_DB);
            if sim.link_is_stuck {
                Event::Io(IoOutcome::Failed)
            } else if sim.link.take().is_some() {
                Event::Io(IoOutcome::Done)
            } else {
                Event::Io(IoOutcome::NotFound)
            }
        }
        Action::Symlink { target, link } => {
            sim.log.push(format!("symlink {} -> {}", link, target));
            assert_eq!(link, COMPILE_DB);
            let ok = sim.link.is_none() && !sim.symlink_fails;
            if ok {
                sim.link = Some(target);
            }
            done(ok)
        }
        Action::RemoveTree { path } => {
            sim.log.push(format!("remove {}", path));
            let before = sim.dirs.len();
            let below = format!("{}/", path);
            sim.dirs.retain(|dir| *dir != path && !dir.starts_with(&below));
            if sim.dirs.len() < before {
                Event::Io(IoOutcome::Done)
            } else {
                Event::Io(IoOutcome::NotFound)
            }
        }
        Action::Configure { dir, buildtype } => {
            let code = sim.configure;
            if code == Some(0) {
                sim.dirs.push(dir.clone());
            }
            sim.log.push(command_line(Action::Configure { dir, buildtype }));
            Event::Exited(code)
        }
        Action::Compile { dir } => {
            sim.log.push(command_line(Action::Compile { dir }));
            Event::Exited(sim.compile)
        }
        Action::RunTests { dir } => {
            sim.log.push(command_line(Action::RunTests { dir }));
            Event::Exited(sim.tests)
        }
        Action::Exec { path, args } => {
            sim.log.push(command_line(Action::Exec { path, args }));
            Event::Exited(sim.artifact)
        }
        Action::InitVcs => {
            sim.log.push(command_line(Action::InitVcs));
            Event::Exited(sim.vcs)
        }
        Action::Finish { .. } => unreachable!(),
    }
}

fn run(sim: &mut Sim, command: Command) -> Result<i32, ErrorKind> {
    let (mut state, mut action) = start(command);
    loop {
        if let Action::Finish { result } = action {
            assert_eq!(state, State::Done { result });
            return result;
        }
        let event = answer(sim, action);
        let pair = step(state, event);
        state = pair.0;
        action = pair.1;
    }
}

fn count(sim: &Sim, prefix: &str) -> usize {
    sim.log.iter().filter(|line| line.starts_with(prefix)).count()
}

fn build(profile: Profile) -> Command {
    Command::Build { profile }
}

fn new_project(bin: bool, lib: bool, name: Option<&str>) -> Command {
    Command::New { bin, lib, name: name.map(|n| n.to_string()) }
}

fn run_command(profile: Profile, args: &[&str]) -> Command {
    Command::Run { profile, args: args.iter().map(|a| a.to_string()).collect() }
}

#[test]
fn places_on_disk() {
    assert_eq!(TARGET_DIR, "target");
    assert_eq!(DEBUG_DIR, "target/debug");
    assert_eq!(RELEASE_DIR, "target/release");
    assert_eq!(COMPILE_DB, "compile_commands.json");
    assert_eq!(Profile::Debug.resolve(), ("target/debug", "debug"));
    assert_eq!(Profile::Release.resolve(), ("target/release", "release"));
    assert_eq!(database_path(Profile::Debug), "target/debug/compile_commands.json");
    assert_eq!(database_path(Profile::Release), "target/release/compile_commands.json");
    assert_eq!(artifact_path(Profile::Debug, "demo"), "target/debug/src/demo");
    assert_eq!(artifact_path(Profile::Release, "demo"), "target/release/src/demo");
}

#[test]
fn profile_from_flag() {
    assert_eq!(Profile::from_release_flag(false), Profile::Debug);
    assert_eq!(Profile::from_release_flag(true), Profile::Release);
}

#[test]
fn kind_from_flags() {
    assert_eq!(select_kind(false, false), Ok(ProjectKind::Binary));
    assert_eq!(select_kind(true, false), Ok(ProjectKind::Binary));
    assert_eq!(select_kind(false, true), Ok(ProjectKind::Library));
    assert_eq!(select_kind(true, true), Err(ErrorKind::KindConflict));
}

#[test]
fn exit_codes() {
    assert!(exit_ok(Some(0)));
    assert!(!exit_ok(Some(1)));
    assert!(!exit_ok(Some(-1)));
    assert!(!exit_ok(None));
    assert_eq!(ABNORMAL_STATUS, 1);
}

#[test]
fn command_lines() {
    let line = invocation(Action::Configure {
        dir: "target/release".to_string(),
        buildtype: "release".to_string(),
    })
    .unwrap();
    assert_eq!(line.program, "meson");
    assert_eq!(line.args, vec!["setup", "-Dbuildtype=release", "target/release"]);
    assert!(!line.root_last);
    assert!(!line.quiet);
    let line = invocation(Action::Compile { dir: "target/debug".to_string() }).unwrap();
    assert_eq!(line.program, "ninja");
    assert_eq!(line.args, vec!["-C", "target/debug"]);
    let line = invocation(Action::RunTests { dir: "target/debug".to_string() }).unwrap();
    assert_eq!(line.program, "meson");
    assert_eq!(line.args, vec!["test", "-C", "target/debug"]);
    let line = invocation(Action::InitVcs).unwrap();
    assert_eq!(line.program, "git");
    assert_eq!(line.args, vec!["init"]);
    assert!(line.root_last);
    assert!(line.quiet);
    let line = invocation(Action::Exec {
        path: "target/debug/src/demo".to_string(),
        args: vec!["-v".to_string(), "a b".to_string()],
    })
    .unwrap();
    assert_eq!(line.program, "target/debug/src/demo");
    assert_eq!(line.args, vec!["-v", "a b"]);
    assert!(!line.root_last);
    assert!(!line.quiet);
}

#[test]
fn actions_without_command_line() {
    assert_eq!(invocation(Action::ProbeRoot), None);
    assert_eq!(invocation(Action::CreateRoot), None);
    assert_eq!(invocation(Action::CreateDir { path: "src".to_string() }), None);
    assert_eq!(invocation(Action::ReadManifest { path: "carton.toml".to_string() }), None);
    assert_eq!(invocation(Action::Unlink { path: "x".to_string() }), None);
    assert_eq!(invocation(Action::RemoveTree { path: "target".to_string() }), None);
    assert_eq!(invocation(Action::Finish { result: Ok(0) }), None);
}

#[test]
fn build_configures_compiles_and_links() {
    let mut disk = sim(Some(APPLICATION));
    assert_eq!(run(&mut disk, build(Profile::Debug)), Ok(0));
    assert_eq!(
        disk.log,
        vec![
            "read carton.toml",
            "probe target/debug",
            "meson setup -Dbuildtype=debug target/debug",
            "ninja -C target/debug",
            "unlink compile_commands.json",
            "symlink compile_commands.json -> target/debug/compile_commands.json",
        ]
    );
    assert_eq!(disk.link.as_deref(), Some("target/debug/compile_commands.json"));
}

#[test]
fn release_build_uses_the_release_directory() {
    let mut disk = sim(Some(APPLICATION));
    assert_eq!(run(&mut disk, build(Profile::Release)), Ok(0));
    assert_eq!(
        disk.log,
        vec![
            "read carton.toml",
            "probe target/release",
            "meson setup -Dbuildtype=release target/release",
            "ninja -C target/release",
            "unlink compile_commands.json",
            "symlink compile_commands.json -> target/release/compile_commands.json",
        ]
    );
}

#[test]
fn building_twice_configures_once() {
    for profile in [Profile::Debug, Profile::Release] {
        let mut disk = sim(Some(LIBRARY));
        assert_eq!(run(&mut disk, build(profile)), Ok(0));
        assert_eq!(run(&mut disk, build(profile)), Ok(0));
        assert_eq!(count(&disk, "meson setup"), 1);
        assert_eq!(count(&disk, "ninja"), 2);
        assert_eq!(count(&disk, "symlink"), 2);
    }
}

#[test]
fn each_profile_is_configured_on_its_own() {
    let mut disk = sim(Some(APPLICATION));
    assert_eq!(run(&mut disk, build(Profile::Debug)), Ok(0));
    assert_eq!(run(&mut disk, build(Profile::Release)), Ok(0));
    assert_eq!(run(&mut disk, build(Profile::Debug)), Ok(0));
    assert_eq!(count(&disk, "meson setup -Dbuildtype=debug"), 1);
    assert_eq!(count(&disk, "meson setup -Dbuildtype=release"), 1);
}

#[test]
fn link_follows_the_profile_built_last() {
    let mut disk = sim(Some(APPLICATION));
    assert_eq!(run(&mut disk, build(Profile::Release)), Ok(0));
    assert_eq!(disk.link.as_deref(), Some("target/release/compile_commands.json"));
    assert_eq!(run(&mut disk, build(Profile::Debug)), Ok(0));
    assert_eq!(disk.link.as_deref(), Some("target/debug/compile_commands.json"));
}

#[test]
fn failed_configuration_stops_the_build() {
    let mut disk = sim(Some(APPLICATION));
    disk.configure = Some(1);
    assert_eq!(run(&mut disk, build(Profile::Debug)), Err(ErrorKind::ConfigureFailed));
    assert_eq!(count(&disk, "ninja"), 0);
    assert_eq!(count(&disk, "symlink"), 0);
    disk.configure = None;
    assert_eq!(run(&mut disk, build(Profile::Debug)), Err(ErrorKind::ConfigureFailed));
    assert_eq!(count(&disk, "meson setup"), 2);
}

#[test]
fn failed_compilation_leaves_the_link_alone() {
    let mut disk = sim(Some(APPLICATION));
    assert_eq!(run(&mut disk, build(Profile::Release)), Ok(0));
    disk.compile = Some(2);
    assert_eq!(run(&mut disk, build(Profile::Debug)), Err(ErrorKind::CompileFailed));
    assert_eq!(disk.link.as_deref(), Some("target/release/compile_commands.json"));
    assert_eq!(count(&disk, "unlink"), 1);
    disk.compile = None;
    assert_eq!(run(&mut disk, build(Profile::Debug)), Err(ErrorKind::CompileFailed));
}

#[test]
fn link_that_cannot_be_removed_is_reported() {
    let mut disk = sim(Some(APPLICATION));
    disk.link_is_stuck = true;
    assert_eq!(run(&mut disk, build(Profile::Debug)), Err(ErrorKind::LinkReplaceFailed));
    assert_eq!(count(&disk, "symlink"), 0);
}

#[test]
fn link_that_cannot_be_made_is_an_io_failure() {
    let mut disk = sim(Some(APPLICATION));
    disk.symlink_fails = true;
    assert_eq!(run(&mut disk, build(Profile::Debug)), Err(ErrorKind::Io));
}

#[test]
fn commands_are_gated_by_the_manifest() {
    for manifest in [None, Some("[project")] {
        let commands = vec![
            build(Profile::Debug),
            build(Profile::Release),
            Command::Test,
            run_command(Profile::Debug, &["x"]),
            Command::Clean,
        ];
        for command in commands {
            let mut disk = sim(manifest);
            disk.dirs.push("target/debug".to_string());
            disk.link = Some("target/debug/compile_commands.json".to_string());
            assert_eq!(run(&mut disk, command), Err(ErrorKind::NotAProject));
            assert_eq!(disk.log, vec!["read carton.toml"]);
            assert_eq!(disk.dirs, vec!["target/debug"]);
            assert!(disk.link.is_some());
        }
    }
}

#[test]
fn build_and_clean_need_no_more_than_a_manifest_that_parses() {
    let mut disk = sim(Some("answer = 42"));
    assert_eq!(run(&mut disk, build(Profile::Debug)), Ok(0));
    assert_eq!(run(&mut disk, Command::Test), Ok(0));
    assert_eq!(run(&mut disk, Command::Clean), Ok(0));
}

#[test]
fn new_with_both_kinds_touches_nothing() {
    let (state, action) = start(new_project(true, true, Some("foo")));
    assert_eq!(action, Action::Finish { result: Err(ErrorKind::KindConflict) });
    assert_eq!(state, State::Done { result: Err(ErrorKind::KindConflict) });
    let mut disk = sim(None);
    assert_eq!(run(&mut disk, new_project(true, true, Some("foo"))), Err(ErrorKind::KindConflict));
    assert!(disk.log.is_empty());
    assert!(!disk.root_exists);
}

#[test]
fn new_refuses_a_taken_path() {
    let mut disk = sim(None);
    disk.root_exists = true;
    assert_eq!(run(&mut disk, new_project(false, false, Some("foo"))), Err(ErrorKind::PathExists));
    assert_eq!(disk.log, vec!["probe root"]);
}

#[test]
fn new_without_a_name_fails_after_the_root_is_made() {
    for name in [None, Some(""), Some(".."), Some("a/b")] {
        let mut disk = sim(None);
        assert_eq!(
            run(&mut disk, new_project(false, true, name)),
            Err(ErrorKind::InvalidProjectName)
        );
        assert_eq!(disk.log, vec!["probe root", "create root"]);
    }
}

#[test]
fn new_application() {
    let mut disk = sim(None);
    assert_eq!(run(&mut disk, new_project(false, false, Some("demo"))), Ok(0));
    assert_eq!(
        disk.log,
        vec![
            "probe root",
            "create root",
            "mkdir src",
            "write carton.toml",
            "write meson.build",
            "write src/meson.build",
            "write src/main.c",
            "write .clang-format",
            "write .gitignore",
            "git init",
        ]
    );
    assert_eq!(disk.files[0].1, APPLICATION);
    let mut disk = sim(None);
    assert_eq!(run(&mut disk, new_project(true, false, Some("demo"))), Ok(0));
    assert_eq!(disk.files[0].1, APPLICATION);
}

#[test]
fn new_library() {
    let mut disk = sim(None);
    assert_eq!(run(&mut disk, new_project(false, true, Some("mylib"))), Ok(0));
    assert_eq!(
        disk.log,
        vec![
            "probe root",
            "create root",
            "mkdir src",
            "write carton.toml",
            "write meson.build",
            "write src/meson.build",
            "write src/lib.c",
            "write .clang-format",
            "write .gitignore",
            "git init",
            "mkdir include",
            "write include/meson.build",
            "write include/mylib.h",
            "mkdir tests",
            "write tests/meson.build",
            "write tests/test.c",
        ]
    );
    assert_eq!(disk.files[0].1, LIBRARY);
    for (path, contents) in &disk.files {
        assert!(!contents.contains("<PROJECT>"), "{}", path);
    }
}

#[test]
fn new_goes_on_without_version_control() {
    for code in [Some(1), Some(128), None] {
        let mut disk = sim(None);
        disk.vcs = code;
        assert_eq!(run(&mut disk, new_project(false, true, Some("mylib"))), Ok(0));
        assert_eq!(disk.files.len(), 10);
    }
}

#[test]
fn new_stops_at_the_first_failure_on_disk() {
    let mut disk = sim(None);
    disk.failing_path = Some("".to_string());
    assert_eq!(run(&mut disk, new_project(false, false, Some("demo"))), Err(ErrorKind::Io));
    assert_eq!(disk.log, vec!["probe root", "create root"]);
    let mut disk = sim(None);
    disk.failing_path = Some("src".to_string());
    assert_eq!(run(&mut disk, new_project(false, false, Some("demo"))), Err(ErrorKind::Io));
    assert_eq!(disk.log, vec!["probe root", "create root", "mkdir src"]);
    let mut disk = sim(None);
    disk.failing_path = Some("include/mylib.h".to_string());
    assert_eq!(run(&mut disk, new_project(false, true, Some("mylib"))), Err(ErrorKind::Io));
    assert_eq!(disk.log.last().unwrap(), "write include/mylib.h");
    assert_eq!(disk.files.len(), 7);
}

#[test]
fn new_counts_any_failure_on_disk() {
    let (state, _) = start(new_project(false, false, Some("demo")));
    let (state, _) = step(state, Event::Exists(false));
    let (state, action) = step(state, Event::Io(IoOutcome::Done));
    assert_eq!(action, Action::CreateDir { path: "src".to_string() });
    let (_, action) = step(state, Event::Io(IoOutcome::NotFound));
    assert_eq!(action, Action::Finish { result: Err(ErrorKind::Io) });
    let (state, _) = start(new_project(false, false, Some("demo")));
    let (state, _) = step(state, Event::Exists(false));
    let (_, action) = step(state, Event::Io(IoOutcome::NotFound));
    assert_eq!(action, Action::Finish { result: Err(ErrorKind::Io) });
}

#[test]
fn a_new_project_is_a_project() {
    let mut disk = sim(None);
    assert_eq!(run(&mut disk, new_project(false, false, Some("demo"))), Ok(0));
    let manifest = disk.files[0].1.clone();
    let mut project = sim(Some(manifest.as_str()));
    assert_eq!(run(&mut project, run_command(Profile::Debug, &[])), Ok(0));
    assert_eq!(project.log.last().unwrap(), "target/debug/src/demo");
}

#[test]
fn run_executes_the_artifact_of_the_profile() {
    let mut disk = sim(Some(APPLICATION));
    assert_eq!(run(&mut disk, run_command(Profile::Debug, &[])), Ok(0));
    assert_eq!(
        disk.log,
        vec![
            "read carton.toml",
            "probe target/debug",
            "meson setup -Dbuildtype=debug target/debug",
            "ninja -C target/debug",
            "unlink compile_commands.json",
            "symlink compile_commands.json -> target/debug/compile_commands.json",
            "target/debug/src/demo",
        ]
    );
    let mut disk = sim(Some(APPLICATION));
    assert_eq!(run(&mut disk, run_command(Profile::Release, &[])), Ok(0));
    assert_eq!(disk.log.last().unwrap(), "target/release/src/demo");
    assert_eq!(count(&disk, "target/"), 1);
}

#[test]
fn run_always_builds_first() {
    let mut disk = sim(Some(APPLICATION));
    assert_eq!(run(&mut disk, run_command(Profile::Debug, &[])), Ok(0));
    assert_eq!(run(&mut disk, run_command(Profile::Debug, &[])), Ok(0));
    assert_eq!(count(&disk, "meson setup"), 1);
    assert_eq!(count(&disk, "ninja"), 2);
    assert_eq!(count(&disk, "target/debug/src/demo"), 2);
}

#[test]
fn run_hands_the_arguments_on() {
    let mut disk = sim(Some(APPLICATION));
    assert_eq!(run(&mut disk, run_command(Profile::Debug, &["--flag", "two words", ""])), Ok(0));
    assert_eq!(disk.log.last().unwrap(), "target/debug/src/demo --flag two words ");
    let (state, _) = start(run_command(Profile::Debug, &["a", "b"]));
    let (state, _) = step(state, Event::Manifest(Some(APPLICATION.to_string())));
    assert_eq!(
        state,
        State::Probe {
            profile: Profile::Debug,
            goal: Goal::Run {
                artifact: "target/debug/src/demo".to_string(),
                args: vec!["a".to_string(), "b".to_string()],
            },
        }
    );
}

#[test]
fn run_ends_with_the_status_of_the_artifact() {
    for code in [0, 1, 3, 255, -7] {
        let mut disk = sim(Some(APPLICATION));
        disk.artifact = Some(code);
        assert_eq!(run(&mut disk, run_command(Profile::Debug, &[])), Ok(code));
    }
    let mut disk = sim(Some(APPLICATION));
    disk.artifact = None;
    assert_eq!(run(&mut disk, run_command(Profile::Debug, &[])), Ok(1));
}

#[test]
fn run_refuses_a_library() {
    let mut disk = sim(Some(LIBRARY));
    assert_eq!(run(&mut disk, run_command(Profile::Debug, &[])), Err(ErrorKind::NotRunnable));
    assert_eq!(disk.log, vec!["read carton.toml"]);
}

#[test]
fn run_refuses_a_manifest_it_cannot_use() {
    let mut disk = sim(Some("[project]\nname = \"demo\""));
    assert_eq!(run(&mut disk, run_command(Profile::Debug, &[])), Err(ErrorKind::MalformedManifest));
    assert_eq!(disk.log, vec!["read carton.toml"]);
    let mut disk = sim(Some("[project]\nname = \"demo\"\ntype = \"exe\""));
    assert_eq!(run(&mut disk, run_command(Profile::Debug, &[])), Err(ErrorKind::UnsupportedKind));
    assert_eq!(disk.log, vec!["read carton.toml"]);
}

#[test]
fn run_does_not_execute_what_did_not_build() {
    let mut disk = sim(Some(APPLICATION));
    disk.compile = Some(1);
    assert_eq!(run(&mut disk, run_command(Profile::Debug, &[])), Err(ErrorKind::CompileFailed));
    assert_eq!(count(&disk, "target/debug/src/demo"), 0);
}

#[test]
fn test_builds_debug_where_it_is_missing() {
    let mut disk = sim(Some(LIBRARY));
    assert_eq!(run(&mut disk, Command::Test), Ok(0));
    assert_eq!(
        disk.log,
        vec![
            "read carton.toml",
            "probe target/debug",
            "meson setup -Dbuildtype=debug target/debug",
            "ninja -C target/debug",
            "unlink compile_commands.json",
            "symlink compile_commands.json -> target/debug/compile_commands.json",
            "meson test -C target/debug",
        ]
    );
}

#[test]
fn test_runs_at_once_where_debug_is_configured() {
    let mut disk = sim(Some(LIBRARY));
    disk.dirs.push("target/release".to_string());
    disk.dirs.push("target/debug".to_string());
    assert_eq!(run(&mut disk, Command::Test), Ok(0));
    assert_eq!(
        disk.log,
        vec!["read carton.toml", "probe target/debug", "meson test -C target/debug"]
    );
}

#[test]
fn test_ignores_a_release_build() {
    let mut disk = sim(Some(LIBRARY));
    assert_eq!(run(&mut disk, build(Profile::Release)), Ok(0));
    assert_eq!(run(&mut disk, Command::Test), Ok(0));
    assert_eq!(count(&disk, "meson setup -Dbuildtype=debug"), 1);
    assert_eq!(disk.log.last().unwrap(), "meson test -C target/debug");
}

#[test]
fn failing_tests_fail_the_command() {
    for code in [Some(1), Some(99), None] {
        let mut disk = sim(Some(LIBRARY));
        disk.tests = code;
        assert_eq!(run(&mut disk, Command::Test), Err(ErrorKind::TestsFailed));
    }
}

#[test]
fn test_stops_where_its_build_fails() {
    let mut disk = sim(Some(LIBRARY));
    disk.configure = Some(1);
    assert_eq!(run(&mut disk, Command::Test), Err(ErrorKind::ConfigureFailed));
    assert_eq!(count(&disk, "meson test"), 0);
}

#[test]
fn clean_twice_succeeds_twice() {
    let mut disk = sim(Some(APPLICATION));
    assert_eq!(run(&mut disk, build(Profile::Debug)), Ok(0));
    assert_eq!(run(&mut disk, build(Profile::Release)), Ok(0));
    assert_eq!(run(&mut disk, Command::Clean), Ok(0));
    assert!(disk.dirs.is_empty());
    assert!(disk.link.is_none());
    assert_eq!(disk.manifest.as_deref(), Some(APPLICATION));
    assert_eq!(run(&mut disk, Command::Clean), Ok(0));
    assert_eq!(
        disk.log[disk.log.len() - 3..],
        ["read carton.toml", "remove target", "unlink compile_commands.json"]
    );
}

#[test]
fn clean_succeeds_whatever_its_removals_do() {
    let mut disk = sim(Some(APPLICATION));
    disk.link_is_stuck = true;
    assert_eq!(run(&mut disk, Command::Clean), Ok(0));
    let (state, _) = start(Command::Clean);
    let (state, action) = step(state, Event::Manifest(Some(APPLICATION.to_string())));
    assert_eq!(action, Action::RemoveTree { path: "target".to_string() });
    let (state, action) = step(state, Event::Io(IoOutcome::Failed));
    assert_eq!(action, Action::Unlink { path: "compile_commands.json".to_string() });
    let (_, action) = step(state, Event::Io(IoOutcome::Failed));
    assert_eq!(action, Action::Finish { result: Ok(0) });
}

#[test]
fn build_after_clean_configures_again() {
    let mut disk = sim(Some(APPLICATION));
    assert_eq!(run(&mut disk, build(Profile::Debug)), Ok(0));
    assert_eq!(run(&mut disk, Command::Clean), Ok(0));
    assert_eq!(run(&mut disk, build(Profile::Debug)), Ok(0));
    assert_eq!(count(&disk, "meson setup"), 2);
}

#[test]
fn an_answer_of_the_wrong_kind_ends_the_command() {
    let (state, _) = start(build(Profile::Debug));
    let (state, action) = step(state, Event::Exists(true));
    assert_eq!(action, Action::Finish { result: Err(ErrorKind::UnexpectedEvent) });
    assert_eq!(state, State::Done { result: Err(ErrorKind::UnexpectedEvent) });
    let (state, _) = start(new_project(false, false, Some("demo")));
    let (_, action) = step(state, Event::Io(IoOutcome::Done));
    assert_eq!(action, Action::Finish { result: Err(ErrorKind::UnexpectedEvent) });
    let (_, action) = step(State::Tests, Event::Io(IoOutcome::Done));
    assert_eq!(action, Action::Finish { result: Err(ErrorKind::UnexpectedEvent) });
    let (_, action) = step(State::Exec, Event::Exists(false));
    assert_eq!(action, Action::Finish { result: Err(ErrorKind::UnexpectedEvent) });
    let (_, action) = step(
        State::Gate { command: new_project(false, false, Some("demo")) },
        Event::Manifest(Some(APPLICATION.to_string())),
    );
    assert_eq!(action, Action::Finish { result: Err(ErrorKind::UnexpectedEvent) });
    let state = State::NewStep { kind: ProjectKind::Binary, name: "demo".to_string(), index: 8 };
    let (_, action) = step(state, Event::Io(IoOutcome::Done));
    assert_eq!(action, Action::Finish { result: Err(ErrorKind::UnexpectedEvent) });
    let state = State::NewStep { kind: ProjectKind::Binary, name: "demo".to_string(), index: 2 };
    let (_, action) = step(state, Event::Exited(Some(0)));
    assert_eq!(action, Action::Finish { result: Err(ErrorKind::UnexpectedEvent) });
}

#[test]
fn a_finished_command_stays_finished() {
    for result in [Ok(0), Ok(3), Err(ErrorKind::TestsFailed)] {
        let (state, action) = step(State::Done { result }, Event::Exists(true));
        assert_eq!(state, State::Done { result });
        assert_eq!(action, Action::Finish { result });
    }
}

#[test]
fn every_failure_has_its_message() {
    let kinds = [
        ErrorKind::KindConflict,
        ErrorKind::PathExists,
        ErrorKind::InvalidProjectName,
        ErrorKind::NotAProject,
        ErrorKind::MalformedManifest,
        ErrorKind::UnsupportedKind,
        ErrorKind::NotRunnable,
        ErrorKind::ConfigureFailed,
        ErrorKind::CompileFailed,
        ErrorKind::TestsFailed,
        ErrorKind::LinkReplaceFailed,
        ErrorKind::Io,
        ErrorKind::UnexpectedEvent,
    ];
    let mut seen: Vec<&str> = Vec::new();
    for kind in kinds {
        let message = kind.describe();
        assert!(!message.is_empty());
        assert!(!seen.contains(&message));
        seen.push(message);
    }
    assert_eq!(ErrorKind::NotAProject.describe(), "not in a project");
    assert_eq!(ErrorKind::NotRunnable.describe(), "can only run binary project");
    assert_eq!(ErrorKind::KindConflict.describe(), "can't specify both library and binary");
}
