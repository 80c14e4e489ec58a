//! Where each managed folder lives: its home entry, its local copy, its
//! remote archive or mirror, and the backup of a displaced home directory.
use vstd::prelude::*;
use vstd::string::StringExecFns;

verus! {

pub open spec fn joined(root: Seq<char>, name: Seq<char>) -> Seq<char> {
    root + seq!['/'] + name
}

pub open spec fn archive_file(name: Seq<char>) -> Seq<char> {
    name + seq!['.', 't', 'a', 'r']
}

pub open spec fn backup_dir(name: Seq<char>) -> Seq<char> {
    name + seq!['_', 'O', 'L', 'D']
}

/// `root/name`.
pub fn join_path(root: &str, name: &str) -> (r: String)
    ensures
        r@ == joined(root@, name@),
{
    let mut r = String::from_str(root);
    r.append("/");
    r.append(name);
    proof {
        reveal_strlit("/");
    }
    r
}

/// The roots under which every folder's locations are derived.
#[derive(Clone, Debug)]
pub struct StorageRoots {
    /// The user's home directory.
    pub home: String,
    /// Fast local scratch storage.
    pub local: String,
    /// Remote directory holding one archive per folder.
    pub archive: String,
    /// Remote directory holding one mirrored copy per folder.
    pub mirror: String,
}

/// The roots for `user`: `local_base/user/local_data`,
/// `remote_base/user/my_archives` and `remote_base/user/my_data`.
pub fn storage_roots(home: &str, local_base: &str, remote_base: &str, user: &str) -> (r:
    StorageRoots)
    ensures
        r.home@ == home@,
        r.local@ == joined(joined(local_base@, user@), "local_data"@),
        r.archive@ == joined(joined(remote_base@, user@), "my_archives"@),
        r.mirror@ == joined(joined(remote_base@, user@), "my_data"@),
{
    let local_user = join_path(local_base, user);
    let remote_user = join_path(remote_base, user);
    StorageRoots {
        home: String::from_str(home),
        local: join_path(local_user.as_str(), "local_data"),
        archive: join_path(remote_user.as_str(), "my_archives"),
        mirror: join_path(remote_user.as_str(), "my_data"),
    }
}

/// The locations of one managed folder.
#[derive(Clone, Debug)]
pub struct FolderPaths {
    pub home_path: String,
    pub local_path: String,
    pub remote_archive_path: String,
    pub remote_path: String,
    pub backup_path: String,
}

/// Derives the locations of the folder `name` under `roots`.
pub fn folder_paths(roots: &StorageRoots, name: &str) -> (r: FolderPaths)
    ensures
        r.home_path@ == joined(roots.home@, name@),
        r.local_path@ == joined(roots.local@, name@),
        r.remote_archive_path@ == joined(roots.archive@, archive_file(name@)),
        r.remote_path@ == joined(roots.mirror@, name@),
        r.backup_path@ == joined(roots.home@, backup_dir(name@)),
{
    let archive_name = String::from_str(name).concat(".tar");
    let backup_name = String::from_str(name).concat("_OLD");
    proof {
        reveal_strlit(".tar");
        reveal_strlit("_OLD");
        assert(archive_name@ =~= archive_file(name@));
        assert(backup_name@ =~= backup_dir(name@));
    }
    FolderPaths {
        home_path: join_path(roots.home.as_str(), name),
        local_path: join_path(roots.local.as_str(), name),
        remote_archive_path: join_path(roots.archive.as_str(), archive_name.as_str()),
        remote_path: join_path(roots.mirror.as_str(), name),
        backup_path: join_path(roots.home.as_str(), backup_name.as_str()),
    }
}

} // verus!
