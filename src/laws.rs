//! Properties of whole runs over the in-memory folder model.
use vstd::prelude::*;
use crate::machine::{Action, Directive, Failure, Stage, Operation, Success};
use crate::model::{FolderModel, HomeState, drive, run};

verus! {

/// Init on a folder whose local path exists and whose home entry is already
/// a link changes nothing.
pub proof fn init_on_linked_folder_is_noop(m: FolderModel)
    requires
        m.local is Some,
        m.home is Link,
    ensures
        run(m, Operation::Init) == (m, Ok::<Success, Failure>(Success::AlreadyLinked)),
{
    reveal_with_fuel(drive, 4);
}

/// When no action fails, Init succeeds and leaves the local path present
/// and the home entry a link.
pub proof fn init_without_faults_links(m: FolderModel)
    requires
        m.fault is None,
    ensures
        run(m, Operation::Init).1 is Ok,
        run(m, Operation::Init).0.local is Some,
        run(m, Operation::Init).0.home is Link,
{
    reveal_with_fuel(drive, 11);
}

/// The second half of Init: inspect the home entry, move a real one aside
/// and link the home path.
pub open spec fn virtualize(m: FolderModel) -> FolderModel {
    drive(m, Stage::InitInspectHome, Directive::Do(Action::InspectHome)).0
}

proof fn init_with_local_virtualizes(m: FolderModel)
    requires
        m.local is Some,
    ensures
        run(m, Operation::Init).0 == virtualize(m),
{
    reveal_with_fuel(drive, 3);
}

proof fn virtualize_twice(m: FolderModel)
    ensures
        virtualize(m).local == m.local,
        virtualize(virtualize(m)) == virtualize(m),
{
    reveal_with_fuel(drive, 6);
}

/// Init either changes nothing, or fills the local path and then
/// virtualizes the folder with that local content.
proof fn init_populates_then_virtualizes(m: FolderModel)
    ensures
        run(m, Operation::Init).0 == m || (run(m, Operation::Init).0.local is Some
            && run(m, Operation::Init).0 == virtualize(
            FolderModel { local: run(m, Operation::Init).0.local, ..m },
        )),
{
    reveal_with_fuel(drive, 11);
}

/// Running Init a second time, right after a first run, leaves every
/// location as the first run left it.
pub proof fn init_is_idempotent(m: FolderModel)
    ensures
        run(run(m, Operation::Init).0, Operation::Init).0 == run(m, Operation::Init).0,
{
    let r = run(m, Operation::Init).0;
    init_populates_then_virtualizes(m);
    if r != m {
        let p = FolderModel { local: r.local, ..m };
        virtualize_twice(p);
        init_with_local_virtualizes(r);
    }
}

/// When no action fails, a second Init only finds the home entry already
/// linked.
pub proof fn second_init_finds_link(m: FolderModel)
    requires
        m.fault is None,
    ensures
        run(m, Operation::Init).1 is Ok,
        run(run(m, Operation::Init).0, Operation::Init).1 == Ok::<Success, Failure>(
            Success::AlreadyLinked,
        ),
{
    init_without_faults_links(m);
    init_on_linked_folder_is_noop(run(m, Operation::Init).0);
}

/// A real home directory with content `c` ends up, after Init, at the backup
/// path with exactly that content, and the home path becomes a link to the
/// local path.
pub proof fn init_preserves_home_content(m: FolderModel, c: Seq<u8>)
    requires
        m.fault is None,
        m.home == HomeState::Real(c),
    ensures
        run(m, Operation::Init).0.backup == Some(c),
        run(m, Operation::Init).0.home == (HomeState::Link { to_local: true }),
        run(m, Operation::Init).1 == Ok::<Success, Failure>(Success::Linked { backed_up: true }),
{
    reveal_with_fuel(drive, 11);
}

/// Save, then a wipe of local storage, then Init restores the content that
/// was last saved: the local content if there was any, else the remote copy
/// that was already there.
pub proof fn save_then_init_restores(m: FolderModel)
    requires
        m.fault is None,
        m.local is Some || m.remote is Some,
    ensures
        run(FolderModel { local: None, ..run(m, Operation::Save).0 }, Operation::Init).0.local
            == run(m, Operation::Save).0.remote,
        m.local is Some ==> run(
            FolderModel { local: None, ..run(m, Operation::Save).0 },
            Operation::Init,
        ).0.local == m.local,
{
    reveal_with_fuel(drive, 11);
}

/// Fetch leaves an existing home entry as it was, whatever it is, and still
/// refreshes the local path from the remote copy.
pub proof fn fetch_keeps_existing_home(m: FolderModel)
    requires
        m.fault is None,
        m.home !is Absent,
        m.remote is Some,
    ensures
        run(m, Operation::Fetch).0.home == m.home,
        run(m, Operation::Fetch).0.local == m.remote,
        run(m, Operation::Fetch).1 == Ok::<Success, Failure>(Success::LeftInPlace),
{
    reveal_with_fuel(drive, 11);
}

/// Fetch without a remote copy fails as missing and changes nothing.
pub proof fn fetch_without_remote_changes_nothing(m: FolderModel)
    requires
        m.remote is None,
    ensures
        run(m, Operation::Fetch) == (m, Err::<Success, Failure>(Failure::RemoteMissing)),
{
    reveal_with_fuel(drive, 11);
}

/// With no remote copy and no local copy yet, Init seeds the local path
/// with the content of a real home directory.
pub proof fn init_seeds_from_home(m: FolderModel, c: Seq<u8>)
    requires
        m.fault is None,
        m.remote is None,
        m.local is None,
        m.home == HomeState::Real(c),
    ensures
        run(m, Operation::Init).0.local == Some(c),
{
    reveal_with_fuel(drive, 11);
}

/// Whichever action fails, Init never loses the content of a real home
/// directory: it stays at the home path, or is at the backup path.
pub proof fn init_never_drops_home_content(m: FolderModel, c: Seq<u8>)
    requires
        m.home == HomeState::Real(c),
    ensures
        run(m, Operation::Init).0.home == HomeState::Real(c)
            || run(m, Operation::Init).0.backup == Some(c),
{
    reveal_with_fuel(drive, 11);
}

} // verus!
