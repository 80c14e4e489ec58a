use storage_manager::machine::{
    advance, begin, Action, Directive, EntryKind, Event, Failure, Operation, Stage, Success,
};
use storage_manager::model::{run_each, HomeEntry, MemoryFolder};

fn bytes(s: &str) -> Vec<u8> {
    s.as_bytes().to_vec()
}

fn is_link_to_local(h: &HomeEntry) -> bool {
    matches!(h, HomeEntry::Link { to_local: true })
}

#[test]
fn init_seeds_projects_from_real_home() {
    let mut f = MemoryFolder::new(None, None, HomeEntry::Real(bytes("a.txt")), None);
    let o = f.run(Operation::Init);
    assert_eq!(o, Ok(Success::Linked { backed_up: true }));
    assert_eq!(f.local, Some(bytes("a.txt")));
    assert!(is_link_to_local(&f.home));
    // the displaced home directory is kept whole at the backup path
    assert_eq!(f.backup, Some(bytes("a.txt")));
    assert_eq!(f.remote, None);
}

#[test]
fn init_twice_changes_nothing_the_second_time() {
    let mut f = MemoryFolder::new(None, None, HomeEntry::Real(bytes("notes")), None);
    assert!(f.run(Operation::Init).is_ok());
    let after_first = f.clone();
    assert_eq!(f.run(Operation::Init), Ok(Success::AlreadyLinked));
    assert_eq!(f.local, after_first.local);
    assert_eq!(f.backup, after_first.backup);
    assert_eq!(f.remote, after_first.remote);
    assert!(is_link_to_local(&f.home));
}

#[test]
fn init_on_absent_home_creates_empty_local_and_links() {
    let mut f = MemoryFolder::new(None, None, HomeEntry::Absent, None);
    assert_eq!(f.run(Operation::Init), Ok(Success::Linked { backed_up: false }));
    assert_eq!(f.local, Some(vec![]));
    assert!(is_link_to_local(&f.home));
    assert_eq!(f.backup, None);
}

#[test]
fn init_replaces_previous_backup() {
    let mut f = MemoryFolder::new(
        None,
        Some(bytes("fast")),
        HomeEntry::Real(bytes("current")),
        Some(bytes("stale")),
    );
    assert_eq!(f.run(Operation::Init), Ok(Success::Linked { backed_up: true }));
    assert_eq!(f.backup, Some(bytes("current")));
    assert_eq!(f.local, Some(bytes("fast")));
}

#[test]
fn init_prefers_remote_archive_over_home() {
    let mut f = MemoryFolder::new(Some(bytes("saved")), None, HomeEntry::Real(bytes("old")), None);
    assert_eq!(f.run(Operation::Init), Ok(Success::Linked { backed_up: true }));
    assert_eq!(f.local, Some(bytes("saved")));
    assert_eq!(f.backup, Some(bytes("old")));
}

#[test]
fn init_leaves_foreign_link_alone() {
    let mut f = MemoryFolder::new(None, None, HomeEntry::Link { to_local: false }, None);
    assert_eq!(f.run(Operation::Init), Ok(Success::AlreadyLinked));
    assert!(matches!(f.home, HomeEntry::Link { to_local: false }));
    assert_eq!(f.local, Some(vec![]));
}

#[test]
fn save_then_wiped_init_restores_saved_content() {
    let content = bytes("one gigabyte of downloads, in short");
    let mut f = MemoryFolder::new(None, Some(content.clone()), HomeEntry::Link { to_local: true }, None);
    assert_eq!(f.run(Operation::Save), Ok(Success::Saved));
    assert_eq!(f.remote, Some(content.clone()));
    f.local = None;
    assert!(f.run(Operation::Init).is_ok());
    assert_eq!(f.local, Some(content));
}

#[test]
fn save_without_local_is_skipped() {
    let mut f = MemoryFolder::new(Some(bytes("old")), None, HomeEntry::Absent, None);
    assert_eq!(f.run(Operation::Save), Ok(Success::Skipped));
    assert_eq!(f.remote, Some(bytes("old")));
}

#[test]
fn failed_store_is_reported() {
    let mut f = MemoryFolder::new(Some(bytes("old")), Some(bytes("new")), HomeEntry::Absent, None);
    f.fail_on(Action::Store);
    assert_eq!(f.run(Operation::Save), Err(Failure::Failed(Action::Store)));
    assert_eq!(f.remote, Some(bytes("old")));
}

#[test]
fn fetch_keeps_real_home_and_refreshes_local() {
    let mut f = MemoryFolder::new(
        Some(bytes("remote")),
        Some(bytes("stale")),
        HomeEntry::Real(bytes("mine")),
        None,
    );
    assert_eq!(f.run(Operation::Fetch), Ok(Success::LeftInPlace));
    assert!(matches!(&f.home, HomeEntry::Real(c) if *c == bytes("mine")));
    assert_eq!(f.local, Some(bytes("remote")));
    assert_eq!(f.backup, None);
}

#[test]
fn fetch_links_absent_home() {
    let mut f = MemoryFolder::new(Some(bytes("remote")), None, HomeEntry::Absent, None);
    assert_eq!(f.run(Operation::Fetch), Ok(Success::Linked { backed_up: false }));
    assert!(is_link_to_local(&f.home));
    assert_eq!(f.local, Some(bytes("remote")));
}

#[test]
fn fetch_without_remote_is_not_found() {
    let mut f = MemoryFolder::new(None, Some(bytes("x")), HomeEntry::Absent, None);
    assert_eq!(f.run(Operation::Fetch), Err(Failure::RemoteMissing));
    assert_eq!(f.local, Some(bytes("x")));
    assert!(matches!(f.home, HomeEntry::Absent));
}

#[test]
fn failed_link_moves_home_back() {
    let mut f = MemoryFolder::new(None, None, HomeEntry::Real(bytes("data")), None);
    f.fail_on(Action::LinkHome);
    assert_eq!(f.run(Operation::Init), Err(Failure::Failed(Action::LinkHome)));
    assert!(matches!(&f.home, HomeEntry::Real(c) if *c == bytes("data")));
    assert_eq!(f.backup, None);
}

#[test]
fn failed_rename_leaves_home_untouched() {
    let mut f = MemoryFolder::new(None, None, HomeEntry::Real(bytes("data")), None);
    f.fail_on(Action::MoveHomeToBackup);
    assert_eq!(f.run(Operation::Init), Err(Failure::Failed(Action::MoveHomeToBackup)));
    assert!(matches!(&f.home, HomeEntry::Real(c) if *c == bytes("data")));
}

#[test]
fn failed_unpack_stops_init() {
    let mut f = MemoryFolder::new(Some(bytes("saved")), None, HomeEntry::Absent, None);
    f.fail_on(Action::Restore);
    assert_eq!(f.run(Operation::Init), Err(Failure::Failed(Action::Restore)));
    assert_eq!(f.local, None);
    assert!(matches!(f.home, HomeEntry::Absent));
}

#[test]
fn failed_seed_and_create_are_reported() {
    let mut f = MemoryFolder::new(None, None, HomeEntry::Real(bytes("d")), None);
    f.fail_on(Action::Seed);
    assert_eq!(f.run(Operation::Init), Err(Failure::Failed(Action::Seed)));
    let mut g = MemoryFolder::new(None, None, HomeEntry::Absent, None);
    g.fail_on(Action::CreateLocal);
    assert_eq!(g.run(Operation::Init), Err(Failure::Failed(Action::CreateLocal)));
    let mut h = MemoryFolder::new(None, Some(vec![]), HomeEntry::Real(bytes("d")), Some(bytes("b")));
    h.fail_on(Action::ClearBackup);
    assert_eq!(h.run(Operation::Init), Err(Failure::Failed(Action::ClearBackup)));
    assert_eq!(h.backup, Some(bytes("b")));
    let mut r = MemoryFolder::new(Some(bytes("m")), None, HomeEntry::Absent, None);
    r.fail_on(Action::Refresh);
    assert_eq!(r.run(Operation::Fetch), Err(Failure::Failed(Action::Refresh)));
}

#[test]
fn failed_rollback_reports_stranded_content() {
    let (s, d) = begin(Operation::Init);
    assert_eq!(s, Stage::InitCheckRemote);
    assert_eq!(d, Directive::Do(Action::CheckArchive));
    let (s, d) = advance(Stage::InitLink { moved: true }, Event::Completed(false));
    assert_eq!(s, Stage::InitRollback);
    assert_eq!(d, Directive::Do(Action::MoveBackupToHome));
    let (_, d) = advance(s, Event::Completed(false));
    assert_eq!(d, Directive::Finish(Err(Failure::Stranded)));
}

#[test]
fn mismatched_event_is_unexpected() {
    let (_, d) = advance(Stage::InitCheckRemote, Event::Completed(true));
    assert_eq!(d, Directive::Finish(Err(Failure::Unexpected)));
    let (_, d) = advance(Stage::InitSeed, Event::Observed(EntryKind::Real));
    assert_eq!(d, Directive::Finish(Err(Failure::Unexpected)));
}

#[test]
fn save_and_fetch_start_at_their_checks() {
    assert_eq!(begin(Operation::Save), (Stage::SaveCheckLocal, Directive::Do(Action::CheckLocal)));
    assert_eq!(begin(Operation::Fetch), (Stage::FetchCheckRemote, Directive::Do(Action::CheckMirror)));
}

#[test]
fn one_failing_folder_does_not_stop_the_others() {
    let mut broken = MemoryFolder::new(None, None, HomeEntry::Real(bytes("b")), None);
    broken.fail_on(Action::Seed);
    let mut folders = vec![
        MemoryFolder::new(None, None, HomeEntry::Real(bytes("a")), None),
        broken,
        MemoryFolder::new(Some(bytes("c")), None, HomeEntry::Absent, None),
    ];
    let outcomes = run_each(&mut folders, Operation::Init);
    assert_eq!(
        outcomes,
        vec![
            Ok(Success::Linked { backed_up: true }),
            Err(Failure::Failed(Action::Seed)),
            Ok(Success::Linked { backed_up: false }),
        ]
    );
    assert_eq!(folders[0].local, Some(bytes("a")));
    assert_eq!(folders[1].local, None);
    assert!(matches!(&folders[1].home, HomeEntry::Real(c) if *c == bytes("b")));
    assert_eq!(folders[2].local, Some(bytes("c")));
}
