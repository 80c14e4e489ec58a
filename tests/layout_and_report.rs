use storage_manager::layout::{folder_paths, join_path, storage_roots};
use storage_manager::machine::{Action, Failure, Operation, Outcome, Success};
use storage_manager::report::{count_failures, run_succeeded, session_hooks};

#[test]
fn joins_root_and_name() {
    assert_eq!(join_path("/home/ann", "Projects"), "/home/ann/Projects");
}

#[test]
fn roots_follow_the_directory_layout() {
    let r = storage_roots("/home/ann", "/goinfre", "/sgoinfre/goinfre/Perso", "ann");
    assert_eq!(r.home, "/home/ann");
    assert_eq!(r.local, "/goinfre/ann/local_data");
    assert_eq!(r.archive, "/sgoinfre/goinfre/Perso/ann/my_archives");
    assert_eq!(r.mirror, "/sgoinfre/goinfre/Perso/ann/my_data");
}

#[test]
fn folder_paths_are_derived_from_roots() {
    let r = storage_roots("/home/ann", "/goinfre", "/sgoinfre", "ann");
    let p = folder_paths(&r, "Downloads");
    assert_eq!(p.home_path, "/home/ann/Downloads");
    assert_eq!(p.local_path, "/goinfre/ann/local_data/Downloads");
    assert_eq!(p.remote_archive_path, "/sgoinfre/ann/my_archives/Downloads.tar");
    assert_eq!(p.remote_path, "/sgoinfre/ann/my_data/Downloads");
    assert_eq!(p.backup_path, "/home/ann/Downloads_OLD");
}

#[test]
fn hooks_only_for_save_that_ends_session() {
    let h = session_hooks(Operation::Save, true);
    assert!(h.lock_before && h.logout_after);
    let h = session_hooks(Operation::Save, false);
    assert!(!h.lock_before && !h.logout_after);
    let h = session_hooks(Operation::Init, true);
    assert!(!h.lock_before && !h.logout_after);
}

#[test]
fn failures_are_counted() {
    let all: Vec<Outcome> = vec![
        Ok(Success::Saved),
        Err(Failure::Failed(Action::Store)),
        Ok(Success::Skipped),
        Err(Failure::RemoteMissing),
    ];
    assert_eq!(count_failures(&all), 2);
    assert!(!run_succeeded(&all));
    let fine: Vec<Outcome> = vec![Ok(Success::Saved), Ok(Success::AlreadyLinked)];
    assert_eq!(count_failures(&fine), 0);
    assert!(run_succeeded(&fine));
    assert!(run_succeeded(&Vec::new()));
}
