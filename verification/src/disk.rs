//! A picture of the project root on disk and of a driver that answers
//! truthfully.
//!
//! The library never sees the disk. To say what a whole command, or two in
//! a row, bring about, this file describes the part of the disk that the
//! commands depend on, what each action does to it, and what a run of a
//! command is: the exchanges between orchestrator and driver from the first
//! action to `Finish`. All of it is specification; nothing here is compiled.

use vstd::prelude::*;
use crate::action::{ActionView, EventView, IoOutcome, COMPILE_DB};
use crate::error::ErrorKind;
use crate::manifest::MANIFEST_FILE;
use crate::orchestrator::{next, succeeded, Turn};

verus! {

/// What stands at the place of the compile database link.
pub enum LinkState {
    /// Nothing.
    Absent,
    /// A symbolic link with this target.
    To(Seq<char>),
    /// Something that is no symbolic link.
    Other,
}

/// The part of a project root that commands depend on.
pub struct Disk {
    /// The contents of the manifest file, `None` where there is none.
    pub manifest: Option<Seq<char>>,
    /// The directories that exist, by their paths.
    pub dirs: Set<Seq<char>>,
    /// What stands at the place of the compile database link.
    pub link: LinkState,
}

/// Whether `dir` is `path` or lies below it.
pub open spec fn under(path: Seq<char>, dir: Seq<char>) -> bool {
    dir == path || (path + "/"@).is_prefix_of(dir)
}

/// Whether a driver that finds the disk as `disk` may answer `action` with
/// `event` and leave the disk as `after`.
///
/// Reading and probing change nothing. The generator, where it succeeds,
/// leaves its build directory behind; where it fails, it may or may not.
/// The build executor works inside the build directory only. Removing a
/// tree leaves nothing below it where it succeeds, and removes nothing
/// elsewhere in any case. The tests and the artifact are the project's own
/// code: nothing is known of the disk after them, nor after the steps that
/// create a project, which this picture does not follow. `Finish` has no
/// answer.
pub open spec fn answers(disk: Disk, action: ActionView, event: EventView, after: Disk) -> bool {
    match action {
        ActionView::ReadManifest { path } => {
            &&& path == MANIFEST_FILE@ ==> event == EventView::Manifest(disk.manifest)
            &&& event is Manifest
            &&& after == disk
        },
        ActionView::ProbeDir { path } => {
            &&& event == EventView::Exists(disk.dirs.contains(path))
            &&& after == disk
        },
        ActionView::Configure { dir, buildtype } => {
            &&& event matches EventView::Exited(code)
            &&& after.manifest == disk.manifest
            &&& after.link == disk.link
            &&& forall|other: Seq<char>|
                other != dir ==> (#[trigger] after.dirs.contains(other) == disk.dirs.contains(
                    other,
                ))
            &&& succeeded(code) ==> after.dirs.contains(dir)
        },
        ActionView::Compile { dir } => {
            &&& event is Exited
            &&& after == disk
        },
        ActionView::Unlink { path } => {
            &&& event matches EventView::Io(outcome)
            &&& after.manifest == disk.manifest
            &&& after.dirs == disk.dirs
            &&& path == COMPILE_DB@ ==> match outcome {
                IoOutcome::Done => disk.link != LinkState::Absent && after.link
                    == LinkState::Absent,
                IoOutcome::NotFound => disk.link == LinkState::Absent && after.link
                    == LinkState::Absent,
                IoOutcome::Failed => after.link == disk.link,
            }
        },
        ActionView::Symlink { target, link } => {
            &&& event matches EventView::Io(outcome)
            &&& after.manifest == disk.manifest
            &&& after.dirs == disk.dirs
            &&& link == COMPILE_DB@ ==> match outcome {
                IoOutcome::Done => disk.link == LinkState::Absent && after.link == LinkState::To(
                    target,
                ),
                _ => after.link == disk.link,
            }
        },
        ActionView::RemoveTree { path } => {
            &&& event matches EventView::Io(outcome)
            &&& after.manifest == disk.manifest
            &&& after.link == disk.link
            &&& forall|dir: Seq<char>| #[trigger] after.dirs.contains(dir) ==> disk.dirs.contains(dir)
            &&& forall|dir: Seq<char>|
                #[trigger] disk.dirs.contains(dir) && !under(path, dir) ==> after.dirs.contains(dir)
            &&& outcome == IoOutcome::Done ==> forall|dir: Seq<char>|
                under(path, dir) ==> !#[trigger] after.dirs.contains(dir)
        },
        ActionView::RunTests { .. } | ActionView::Exec { .. } | ActionView::InitVcs => {
            event is Exited
        },
        ActionView::ProbeRoot => event is Exists,
        ActionView::CreateRoot | ActionView::CreateDir { .. } | ActionView::WriteFile { .. } => {
            event is Io
        },
        ActionView::Finish { .. } => false,
    }
}

/// One exchange of a run: what was asked, what was answered, and the disk
/// after it.
pub struct Exchange {
    pub action: ActionView,
    pub event: EventView,
    pub after: Disk,
}

/// Whether `exchanges` is a whole run that begins at `turn` on `disk`: each
/// action is the orchestrator's, each answer a truthful driver's, and after
/// the last of them the orchestrator finishes with `result`, the disk being
/// `end`.
pub open spec fn is_run(
    turn: Turn,
    disk: Disk,
    exchanges: Seq<Exchange>,
    result: Result<i32, ErrorKind>,
    end: Disk,
) -> bool
    decreases exchanges.len(),
{
    if exchanges.len() == 0 {
        turn.1 == (ActionView::Finish { result }) && end == disk
    } else {
        let exchange = exchanges[0];
        &&& exchange.action == turn.1
        &&& answers(disk, exchange.action, exchange.event, exchange.after)
        &&& is_run(next(turn.0, exchange.event), exchange.after, exchanges.skip(1), result, end)
    }
}

/// How often a run calls for the build generator.
pub open spec fn configure_count(exchanges: Seq<Exchange>) -> nat
    decreases exchanges.len(),
{
    if exchanges.len() == 0 {
        0
    } else {
        let rest = configure_count(exchanges.skip(1));
        if exchanges[0].action is Configure {
            1 + rest
        } else {
            rest
        }
    }
}

} // verus!
