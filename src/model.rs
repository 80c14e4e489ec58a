//! An in-memory folder: the four locations a run touches, with the content of
//! each as bytes. `perform` gives the effect of each action on it, `run`
//! drives a whole operation through the state machine, and `MemoryFolder` is
//! an executable copy of the same model for exercising the machine.
use vstd::prelude::*;
use crate::machine::{
    Action, Directive, EntryKind, Event, Failure, Operation, Outcome, Stage, advance, begin, first,
    next, remaining,
};

verus! {

/// The home entry of a folder.
pub ghost enum HomeState {
    Absent,
    /// A real directory with this content.
    Real(Seq<u8>),
    /// A symbolic link; `to_local` tells whether it points at the local path.
    Link { to_local: bool },
}

/// The state of one managed folder. `fault` names an action that fails
/// whenever it is performed, leaving everything as it was.
pub ghost struct FolderModel {
    pub remote: Option<Seq<u8>>,
    pub local: Option<Seq<u8>>,
    pub home: HomeState,
    pub backup: Option<Seq<u8>>,
    pub fault: Option<Action>,
}

pub open spec fn kind_of(o: Option<Seq<u8>>) -> EntryKind {
    if o is Some {
        EntryKind::Real
    } else {
        EntryKind::Absent
    }
}

pub open spec fn home_kind(h: HomeState) -> EntryKind {
    match h {
        HomeState::Absent => EntryKind::Absent,
        HomeState::Real(_) => EntryKind::Real,
        HomeState::Link { .. } => EntryKind::Symlink,
    }
}

/// The effect of a mutating action that is not faulted: the new state and
/// whether it succeeded.
pub open spec fn mutate(m: FolderModel, a: Action) -> (FolderModel, bool) {
    match a {
        Action::Restore | Action::Refresh => match m.remote {
            Some(c) => (FolderModel { local: Some(c), ..m }, true),
            None => (m, false),
        },
        Action::Seed => match m.home {
            HomeState::Real(c) => (FolderModel { local: Some(c), ..m }, true),
            _ => (m, false),
        },
        Action::CreateLocal => match m.local {
            Some(_) => (m, true),
            None => (FolderModel { local: Some(Seq::empty()), ..m }, true),
        },
        Action::ClearBackup => (FolderModel { backup: None, ..m }, true),
        Action::MoveHomeToBackup => match m.home {
            HomeState::Real(c) => (
                FolderModel { home: HomeState::Absent, backup: Some(c), ..m },
                true,
            ),
            _ => (m, false),
        },
        Action::LinkHome => match m.home {
            HomeState::Absent => (
                FolderModel { home: HomeState::Link { to_local: true }, ..m },
                true,
            ),
            _ => (m, false),
        },
        Action::MoveBackupToHome => match (m.home, m.backup) {
            (HomeState::Absent, Some(c)) => (
                FolderModel { home: HomeState::Real(c), backup: None, ..m },
                true,
            ),
            _ => (m, false),
        },
        Action::Store => match m.local {
            Some(c) => (FolderModel { remote: Some(c), ..m }, true),
            None => (m, false),
        },
        _ => (m, false),
    }
}

/// The effect of performing `a` on `m`, and the event that reports it.
pub open spec fn perform(m: FolderModel, a: Action) -> (FolderModel, Event) {
    match a {
        Action::CheckArchive | Action::CheckMirror => (m, Event::Observed(kind_of(m.remote))),
        Action::CheckLocal => (m, Event::Observed(kind_of(m.local))),
        Action::InspectHome => (m, Event::Observed(home_kind(m.home))),
        _ => if m.fault == Some(a) {
            (m, Event::Completed(false))
        } else {
            (mutate(m, a).0, Event::Completed(mutate(m, a).1))
        },
    }
}

/// Performs the directive `d` from stage `s` and every action after it.
pub open spec fn drive(m: FolderModel, s: Stage, d: Directive) -> (FolderModel, Outcome)
    decreases remaining(s),
{
    match d {
        Directive::Finish(o) => (m, o),
        Directive::Do(a) => {
            let (m2, e) = perform(m, a);
            let (s2, d2) = next(s, e);
            match d2 {
                Directive::Finish(o) => (m2, o),
                Directive::Do(_) => if remaining(s2) < remaining(s) {
                    drive(m2, s2, d2)
                } else {
                    (m2, Err(Failure::Unexpected))
                },
            }
        },
    }
}

/// The final state and outcome of running `op` on `m`.
pub open spec fn run(m: FolderModel, op: Operation) -> (FolderModel, Outcome) {
    drive(m, first(op).0, first(op).1)
}

/// The executable counterpart of `HomeState`.
#[derive(Clone, Debug)]
pub enum HomeEntry {
    Absent,
    Real(Vec<u8>),
    Link { to_local: bool },
}

impl View for HomeEntry {
    type V = HomeState;

    open spec fn view(&self) -> HomeState {
        match self {
            HomeEntry::Absent => HomeState::Absent,
            HomeEntry::Real(c) => HomeState::Real(c@),
            HomeEntry::Link { to_local } => HomeState::Link { to_local: *to_local },
        }
    }
}

pub open spec fn content_view(o: Option<Vec<u8>>) -> Option<Seq<u8>> {
    match o {
        Some(c) => Some(c@),
        None => None,
    }
}

/// An in-memory folder that performs actions as `perform` describes.
#[derive(Clone, Debug)]
pub struct MemoryFolder {
    pub remote: Option<Vec<u8>>,
    pub local: Option<Vec<u8>>,
    pub home: HomeEntry,
    pub backup: Option<Vec<u8>>,
    pub fault: Option<Action>,
}

impl View for MemoryFolder {
    type V = FolderModel;

    open spec fn view(&self) -> FolderModel {
        FolderModel {
            remote: content_view(self.remote),
            local: content_view(self.local),
            home: self.home@,
            backup: content_view(self.backup),
            fault: self.fault,
        }
    }
}

fn copy_bytes(c: &Vec<u8>) -> (r: Vec<u8>)
    ensures
        r@ == c@,
{
    let r = c.clone();
    assert(r@ =~= c@);
    r
}

fn kind_of_content(o: &Option<Vec<u8>>) -> (k: EntryKind)
    ensures
        k == kind_of(content_view(*o)),
{
    match o {
        Some(_) => EntryKind::Real,
        None => EntryKind::Absent,
    }
}

impl MemoryFolder {
    pub fn new(
        remote: Option<Vec<u8>>,
        local: Option<Vec<u8>>,
        home: HomeEntry,
        backup: Option<Vec<u8>>,
    ) -> (r: MemoryFolder)
        ensures
            r@ == (FolderModel {
                remote: content_view(remote),
                local: content_view(local),
                home: home@,
                backup: content_view(backup),
                fault: None,
            }),
    {
        MemoryFolder { remote, local, home, backup, fault: None }
    }

    /// Makes `a` fail whenever it is performed from now on.
    pub fn fail_on(&mut self, a: Action)
        ensures
            final(self)@ == (FolderModel { fault: Some(a), ..old(self)@ }),
    {
        self.fault = Some(a);
    }

    fn is_faulted(&self, a: Action) -> (r: bool)
        ensures
            r == (self.fault == Some(a)),
    {
        match self.fault {
            Some(f) => f == a,
            None => false,
        }
    }

    fn mutate(&mut self, a: Action) -> (ok: bool)
        ensures
            (final(self)@, ok) == mutate(old(self)@, a),
    {
        match a {
            Action::Restore | Action::Refresh => match &self.remote {
                Some(c) => {
                    let v = copy_bytes(c);
                    self.local = Some(v);
                    true
                },
                None => false,
            },
            Action::Seed => match &self.home {
                HomeEntry::Real(c) => {
                    let v = copy_bytes(c);
                    self.local = Some(v);
                    true
                },
                _ => false,
            },
            Action::CreateLocal => {
                if self.local.is_none() {
                    self.local = Some(Vec::new());
                    assert(content_view(self.local) == Some(Seq::<u8>::empty()));
                }
                true
            },
            Action::ClearBackup => {
                self.backup = None;
                true
            },
            Action::MoveHomeToBackup => match &self.home {
                HomeEntry::Real(c) => {
                    let v = copy_bytes(c);
                    self.backup = Some(v);
                    self.home = HomeEntry::Absent;
                    true
                },
                _ => false,
            },
            Action::LinkHome => match &self.home {
                HomeEntry::Absent => {
                    self.home = HomeEntry::Link { to_local: true };
                    true
                },
                _ => false,
            },
            Action::MoveBackupToHome => match (&self.home, &self.backup) {
                (HomeEntry::Absent, Some(c)) => {
                    let v = copy_bytes(c);
                    self.home = HomeEntry::Real(v);
                    self.backup = None;
                    true
                },
                _ => false,
            },
            Action::Store => match &self.local {
                Some(c) => {
                    let v = copy_bytes(c);
                    self.remote = Some(v);
                    true
                },
                None => false,
            },
            _ => false,
        }
    }

    /// Performs one action and reports it.
    pub fn perform(&mut self, a: Action) -> (e: Event)
        ensures
            (final(self)@, e) == perform(old(self)@, a),
    {
        match a {
            Action::CheckArchive | Action::CheckMirror => Event::Observed(kind_of_content(&self.remote)),
            Action::CheckLocal => Event::Observed(kind_of_content(&self.local)),
            Action::InspectHome => Event::Observed(
                match &self.home {
                    HomeEntry::Absent => EntryKind::Absent,
                    HomeEntry::Real(_) => EntryKind::Real,
                    HomeEntry::Link { .. } => EntryKind::Symlink,
                },
            ),
            _ => {
                if self.is_faulted(a) {
                    Event::Completed(false)
                } else {
                    let ok = self.mutate(a);
                    Event::Completed(ok)
                }
            },
        }
    }

    /// Runs `op` to the end through the state machine.
    pub fn run(&mut self, op: Operation) -> (o: Outcome)
        ensures
            (final(self)@, o) == run(old(self)@, op),
    {
        let (mut s, d) = begin(op);
        let mut a = match d {
            Directive::Do(a) => a,
            Directive::Finish(o) => return o,
        };
        loop
            invariant
                drive(self@, s, Directive::Do(a)) == run(old(self)@, op),
            decreases remaining(s),
        {
            let e = self.perform(a);
            let (s2, d2) = advance(s, e);
            match d2 {
                Directive::Finish(o) => return o,
                Directive::Do(a2) => {
                    s = s2;
                    a = a2;
                },
            }
        }
    }
}

/// Runs `op` on every folder in turn. Each folder ends as a run on it alone
/// would leave it, whatever happened to the others.
pub fn run_each(folders: &mut Vec<MemoryFolder>, op: Operation) -> (r: Vec<Outcome>)
    ensures
        final(folders).len() == old(folders).len(),
        r.len() == old(folders).len(),
        forall|i: int|
            0 <= i < r.len() ==> (#[trigger] final(folders)@[i]@, r@[i]) == run(
                old(folders)@[i]@,
                op,
            ),
{
    let mut outcomes: Vec<Outcome> = Vec::new();
    let mut i: usize = 0;
    while i < folders.len()
        invariant
            folders.len() == old(folders).len(),
            outcomes.len() == i,
            i <= folders.len(),
            forall|j: int|
                0 <= j < i ==> (#[trigger] folders@[j]@, outcomes@[j]) == run(
                    old(folders)@[j]@,
                    op,
                ),
            forall|j: int| i <= j < folders.len() ==> #[trigger] folders@[j] == old(folders)@[j],
        decreases folders.len() - i,
    {
        let o = folders[i].run(op);
        outcomes.push(o);
        i = i + 1;
    }
    outcomes
}

} // verus!
