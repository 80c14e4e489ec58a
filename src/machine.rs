//! The per-folder synchronization state machine.
//!
//! A run for one folder starts with `begin`, which names the first action.
//! The caller performs it, reports the result as an `Event`, and calls
//! `advance`, until the directive is `Finish`.
use vstd::prelude::*;

verus! {

/// What an inspection of a path found, without following symbolic links.
#[derive(Clone, Copy, Debug, PartialEq, Eq, Structural)]
pub enum EntryKind {
    Absent,
    /// A real directory or file.
    Real,
    Symlink,
}

/// The three user-facing operations on a folder.
#[derive(Clone, Copy, Debug, PartialEq, Eq, Structural)]
pub enum Operation {
    /// Populate local storage and link the home entry to it.
    Init,
    /// Persist local content to remote storage.
    Save,
    /// Restore one folder from the remote mirror and link it if nothing is in the way.
    Fetch,
}

/// One filesystem step for the caller to perform.
#[derive(Clone, Copy, Debug, PartialEq, Eq, Structural)]
pub enum Action {
    /// Inspect the remote archive; answered by `Observed`.
    CheckArchive,
    /// Inspect the remote mirrored folder; answered by `Observed`.
    CheckMirror,
    /// Inspect the local path; answered by `Observed`.
    CheckLocal,
    /// Inspect the home path without following links; answered by `Observed`.
    InspectHome,
    /// Unpack the remote archive into local storage.
    Restore,
    /// Create the local path and mirror-copy the real home directory into it.
    Seed,
    /// Create an empty local path.
    CreateLocal,
    /// Recursively remove any previous backup.
    ClearBackup,
    /// Rename the home entry to the backup path.
    MoveHomeToBackup,
    /// Create the symbolic link from the home path to the local path.
    LinkHome,
    /// Rename the backup back to the home path.
    MoveBackupToHome,
    /// Pack the local path into the remote archive, replacing it.
    Store,
    /// Create the local path if absent and mirror-copy the remote folder into it.
    Refresh,
}

/// What the caller observed after performing an action.
#[derive(Clone, Copy, Debug, PartialEq, Eq, Structural)]
pub enum Event {
    /// The result of an inspection.
    Observed(EntryKind),
    /// Whether a mutating step succeeded.
    Completed(bool),
}

#[derive(Clone, Copy, Debug, PartialEq, Eq, Structural)]
pub enum Success {
    /// The home path was linked to the local path; `backed_up` tells whether
    /// a real home entry was moved to the backup path first.
    Linked { backed_up: bool },
    /// The home path already was a symbolic link: nothing was changed there.
    AlreadyLinked,
    /// The local content was stored remotely.
    Saved,
    /// There was no local content to save.
    Skipped,
    /// Fetch refreshed local storage and left an existing home entry alone.
    LeftInPlace,
}

#[derive(Clone, Copy, Debug, PartialEq, Eq, Structural)]
pub enum Failure {
    /// Fetch found no remote copy; nothing was changed.
    RemoteMissing,
    /// The action failed; later steps of the operation were skipped, and a
    /// moved home entry was put back.
    Failed(Action),
    /// Linking failed after the home entry was moved and moving it back
    /// failed too: the home directory's content is left at the backup path.
    Stranded,
    /// The event did not answer the action that was asked for.
    Unexpected,
}

pub type Outcome = Result<Success, Failure>;

/// What the caller does next.
#[derive(Clone, Copy, Debug, PartialEq, Eq)]
pub enum Directive {
    Do(Action),
    Finish(Outcome),
}

/// Where a run stands: which action's result it waits for.
#[derive(Clone, Copy, Debug, PartialEq, Eq, Structural)]
pub enum Stage {
    InitCheckRemote,
    InitCheckLocal { remote: bool },
    InitRestore,
    InitInspectSeed,
    InitSeed,
    InitCreateLocal,
    InitInspectHome,
    InitClearBackup,
    InitMoveHome,
    InitLink { moved: bool },
    InitRollback,
    SaveCheckLocal,
    SaveStore,
    FetchCheckRemote,
    FetchRefresh,
    FetchInspectHome,
    FetchLink,
    Done,
}

/// The first stage and action of an operation.
pub open spec fn first(op: Operation) -> (Stage, Directive) {
    match op {
        Operation::Init => (Stage::InitCheckRemote, Directive::Do(Action::CheckArchive)),
        Operation::Save => (Stage::SaveCheckLocal, Directive::Do(Action::CheckLocal)),
        Operation::Fetch => (Stage::FetchCheckRemote, Directive::Do(Action::CheckMirror)),
    }
}

pub open spec fn ask(s: Stage, a: Action) -> (Stage, Directive) {
    (s, Directive::Do(a))
}

pub open spec fn fail(a: Action) -> (Stage, Directive) {
    (Stage::Done, Directive::Finish(Err(Failure::Failed(a))))
}

pub open spec fn finish(o: Outcome) -> (Stage, Directive) {
    (Stage::Done, Directive::Finish(o))
}

/// The transition table of the machine.
pub open spec fn next(s: Stage, e: Event) -> (Stage, Directive) {
    match (s, e) {
        (Stage::InitCheckRemote, Event::Observed(k)) =>
            ask(Stage::InitCheckLocal { remote: k != EntryKind::Absent }, Action::CheckLocal),
        (Stage::InitCheckLocal { remote }, Event::Observed(k)) =>
            if k != EntryKind::Absent {
                ask(Stage::InitInspectHome, Action::InspectHome)
            } else if remote {
                ask(Stage::InitRestore, Action::Restore)
            } else {
                ask(Stage::InitInspectSeed, Action::InspectHome)
            },
        (Stage::InitRestore, Event::Completed(ok)) =>
            if ok { ask(Stage::InitInspectHome, Action::InspectHome) } else { fail(Action::Restore) },
        (Stage::InitInspectSeed, Event::Observed(k)) =>
            if k == EntryKind::Real {
                ask(Stage::InitSeed, Action::Seed)
            } else {
                ask(Stage::InitCreateLocal, Action::CreateLocal)
            },
        (Stage::InitSeed, Event::Completed(ok)) =>
            if ok { ask(Stage::InitInspectHome, Action::InspectHome) } else { fail(Action::Seed) },
        (Stage::InitCreateLocal, Event::Completed(ok)) =>
            if ok {
                ask(Stage::InitInspectHome, Action::InspectHome)
            } else {
                fail(Action::CreateLocal)
            },
        (Stage::InitInspectHome, Event::Observed(k)) => match k {
            EntryKind::Symlink => finish(Ok(Success::AlreadyLinked)),
            EntryKind::Real => ask(Stage::InitClearBackup, Action::ClearBackup),
            EntryKind::Absent => ask(Stage::InitLink { moved: false }, Action::LinkHome),
        },
        (Stage::InitClearBackup, Event::Completed(ok)) =>
            if ok {
                ask(Stage::InitMoveHome, Action::MoveHomeToBackup)
            } else {
                fail(Action::ClearBackup)
            },
        (Stage::InitMoveHome, Event::Completed(ok)) =>
            if ok {
                ask(Stage::InitLink { moved: true }, Action::LinkHome)
            } else {
                fail(Action::MoveHomeToBackup)
            },
        (Stage::InitLink { moved }, Event::Completed(ok)) =>
            if ok {
                finish(Ok(Success::Linked { backed_up: moved }))
            } else if moved {
                ask(Stage::InitRollback, Action::MoveBackupToHome)
            } else {
                fail(Action::LinkHome)
            },
        (Stage::InitRollback, Event::Completed(ok)) =>
            if ok { fail(Action::LinkHome) } else { finish(Err(Failure::Stranded)) },
        (Stage::SaveCheckLocal, Event::Observed(k)) =>
            if k == EntryKind::Absent {
                finish(Ok(Success::Skipped))
            } else {
                ask(Stage::SaveStore, Action::Store)
            },
        (Stage::SaveStore, Event::Completed(ok)) =>
            if ok { finish(Ok(Success::Saved)) } else { fail(Action::Store) },
        (Stage::FetchCheckRemote, Event::Observed(k)) =>
            if k == EntryKind::Absent {
                finish(Err(Failure::RemoteMissing))
            } else {
                ask(Stage::FetchRefresh, Action::Refresh)
            },
        (Stage::FetchRefresh, Event::Completed(ok)) =>
            if ok { ask(Stage::FetchInspectHome, Action::InspectHome) } else { fail(Action::Refresh) },
        (Stage::FetchInspectHome, Event::Observed(k)) =>
            if k == EntryKind::Absent {
                ask(Stage::FetchLink, Action::LinkHome)
            } else {
                finish(Ok(Success::LeftInPlace))
            },
        (Stage::FetchLink, Event::Completed(ok)) =>
            if ok {
                finish(Ok(Success::Linked { backed_up: false }))
            } else {
                fail(Action::LinkHome)
            },
        _ => finish(Err(Failure::Unexpected)),
    }
}

/// An upper bound on the number of actions a run still asks for.
pub open spec fn remaining(s: Stage) -> nat {
    match s {
        Stage::InitCheckRemote => 10,
        Stage::InitCheckLocal { .. } => 9,
        Stage::InitRestore => 8,
        Stage::InitInspectSeed => 8,
        Stage::InitSeed => 7,
        Stage::InitCreateLocal => 7,
        Stage::InitInspectHome => 6,
        Stage::InitClearBackup => 5,
        Stage::InitMoveHome => 4,
        Stage::InitLink { .. } => 3,
        Stage::InitRollback => 2,
        Stage::SaveCheckLocal => 2,
        Stage::SaveStore => 1,
        Stage::FetchCheckRemote => 4,
        Stage::FetchRefresh => 3,
        Stage::FetchInspectHome => 2,
        Stage::FetchLink => 1,
        Stage::Done => 0,
    }
}

/// Starts a run of `op`.
pub fn begin(op: Operation) -> (r: (Stage, Directive))
    ensures
        r == first(op),
{
    match op {
        Operation::Init => (Stage::InitCheckRemote, Directive::Do(Action::CheckArchive)),
        Operation::Save => (Stage::SaveCheckLocal, Directive::Do(Action::CheckLocal)),
        Operation::Fetch => (Stage::FetchCheckRemote, Directive::Do(Action::CheckMirror)),
    }
}

fn failed(a: Action) -> (r: (Stage, Directive))
    ensures
        r == fail(a),
{
    (Stage::Done, Directive::Finish(Err(Failure::Failed(a))))
}

fn finished(o: Outcome) -> (r: (Stage, Directive))
    ensures
        r == finish(o),
{
    (Stage::Done, Directive::Finish(o))
}

/// Takes the result of the last action and decides the next step.
pub fn advance(s: Stage, e: Event) -> (r: (Stage, Directive))
    ensures
        r == next(s, e),
        r.1 is Do ==> remaining(r.0) < remaining(s),
{
    match (s, e) {
        (Stage::InitCheckRemote, Event::Observed(k)) => (
            Stage::InitCheckLocal { remote: !matches!(k, EntryKind::Absent) },
            Directive::Do(Action::CheckLocal),
        ),
        (Stage::InitCheckLocal { remote }, Event::Observed(k)) => {
            if !matches!(k, EntryKind::Absent) {
                (Stage::InitInspectHome, Directive::Do(Action::InspectHome))
            } else if remote {
                (Stage::InitRestore, Directive::Do(Action::Restore))
            } else {
                (Stage::InitInspectSeed, Directive::Do(Action::InspectHome))
            }
        },
        (Stage::InitRestore, Event::Completed(ok)) => {
            if ok {
                (Stage::InitInspectHome, Directive::Do(Action::InspectHome))
            } else {
                failed(Action::Restore)
            }
        },
        (Stage::InitInspectSeed, Event::Observed(k)) => {
            if matches!(k, EntryKind::Real) {
                (Stage::InitSeed, Directive::Do(Action::Seed))
            } else {
                (Stage::InitCreateLocal, Directive::Do(Action::CreateLocal))
            }
        },
        (Stage::InitSeed, Event::Completed(ok)) => {
            if ok {
                (Stage::InitInspectHome, Directive::Do(Action::InspectHome))
            } else {
                failed(Action::Seed)
            }
        },
        (Stage::InitCreateLocal, Event::Completed(ok)) => {
            if ok {
                (Stage::InitInspectHome, Directive::Do(Action::InspectHome))
            } else {
                failed(Action::CreateLocal)
            }
        },
        (Stage::InitInspectHome, Event::Observed(k)) => match k {
            EntryKind::Symlink => finished(Ok(Success::AlreadyLinked)),
            EntryKind::Real => (Stage::InitClearBackup, Directive::Do(Action::ClearBackup)),
            EntryKind::Absent => (
                Stage::InitLink { moved: false },
                Directive::Do(Action::LinkHome),
            ),
        },
        (Stage::InitClearBackup, Event::Completed(ok)) => {
            if ok {
                (Stage::InitMoveHome, Directive::Do(Action::MoveHomeToBackup))
            } else {
                failed(Action::ClearBackup)
            }
        },
        (Stage::InitMoveHome, Event::Completed(ok)) => {
            if ok {
                (Stage::InitLink { moved: true }, Directive::Do(Action::LinkHome))
            } else {
                failed(Action::MoveHomeToBackup)
            }
        },
        (Stage::InitLink { moved }, Event::Completed(ok)) => {
            if ok {
                finished(Ok(Success::Linked { backed_up: moved }))
            } else if moved {
                (Stage::InitRollback, Directive::Do(Action::MoveBackupToHome))
            } else {
                failed(Action::LinkHome)
            }
        },
        (Stage::InitRollback, Event::Completed(ok)) => {
            if ok {
                failed(Action::LinkHome)
            } else {
                finished(Err(Failure::Stranded))
            }
        },
        (Stage::SaveCheckLocal, Event::Observed(k)) => {
            if matches!(k, EntryKind::Absent) {
                finished(Ok(Success::Skipped))
            } else {
                (Stage::SaveStore, Directive::Do(Action::Store))
            }
        },
        (Stage::SaveStore, Event::Completed(ok)) => {
            if ok {
                finished(Ok(Success::Saved))
            } else {
                failed(Action::Store)
            }
        },
        (Stage::FetchCheckRemote, Event::Observed(k)) => {
            if matches!(k, EntryKind::Absent) {
                finished(Err(Failure::RemoteMissing))
            } else {
                (Stage::FetchRefresh, Directive::Do(Action::Refresh))
            }
        },
        (Stage::FetchRefresh, Event::Completed(ok)) => {
            if ok {
                (Stage::FetchInspectHome, Directive::Do(Action::InspectHome))
            } else {
                failed(Action::Refresh)
            }
        },
        (Stage::FetchInspectHome, Event::Observed(k)) => {
            if matches!(k, EntryKind::Absent) {
                (Stage::FetchLink, Directive::Do(Action::LinkHome))
            } else {
                finished(Ok(Success::LeftInPlace))
            }
        },
        (Stage::FetchLink, Event::Completed(ok)) => {
            if ok {
                finished(Ok(Success::Linked { backed_up: false }))
            } else {
                failed(Action::LinkHome)
            }
        },
        _ => finished(Err(Failure::Unexpected)),
    }
}

} // verus!
