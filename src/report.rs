//! What a run over all folders decides around the per-folder work: which
//! session hooks surround it, and what the collected outcomes amount to.
use vstd::prelude::*;
use crate::machine::{Operation, Outcome};

verus! {

/// The session hooks around a run: lock the screen before the folders are
/// processed, and log out after all of them have finished.
#[derive(Clone, Copy, Debug, PartialEq, Eq, Structural)]
pub struct SessionHooks {
    pub lock_before: bool,
    pub logout_after: bool,
}

/// Both hooks run only for a Save that asked to end the session.
pub fn session_hooks(op: Operation, end_session: bool) -> (r: SessionHooks)
    ensures
        r.lock_before == (op == Operation::Save && end_session),
        r.logout_after == (op == Operation::Save && end_session),
{
    let on = matches!(op, Operation::Save) && end_session;
    SessionHooks { lock_before: on, logout_after: on }
}

/// The number of failed outcomes in `s`.
pub open spec fn failures(s: Seq<Outcome>) -> nat
    decreases s.len(),
{
    if s.len() == 0 {
        0
    } else {
        failures(s.drop_last()) + if s.last() is Err {
            1nat
        } else {
            0nat
        }
    }
}

proof fn failures_bounded(s: Seq<Outcome>)
    ensures
        failures(s) <= s.len(),
    decreases s.len(),
{
    if s.len() > 0 {
        failures_bounded(s.drop_last());
    }
}

proof fn no_failures_means_all_ok(s: Seq<Outcome>)
    ensures
        (failures(s) == 0) == (forall|i: int| 0 <= i < s.len() ==> (#[trigger] s[i]) is Ok),
    decreases s.len(),
{
    if s.len() > 0 {
        no_failures_means_all_ok(s.drop_last());
        assert forall|i: int| 0 <= i < s.len() - 1 implies s.drop_last()[i] == s[i] by {}
    }
}

/// Counts the folders whose operation failed.
pub fn count_failures(outcomes: &Vec<Outcome>) -> (n: usize)
    ensures
        n == failures(outcomes@),
{
    let mut n: usize = 0;
    let mut i: usize = 0;
    while i < outcomes.len()
        invariant
            i <= outcomes.len(),
            n == failures(outcomes@.subrange(0, i as int)),
        decreases outcomes.len() - i,
    {
        proof {
            assert(outcomes@.subrange(0, i + 1).drop_last() =~= outcomes@.subrange(0, i as int));
            failures_bounded(outcomes@.subrange(0, i as int));
        }
        if outcomes[i].is_err() {
            n = n + 1;
        }
        i = i + 1;
    }
    assert(outcomes@.subrange(0, i as int) =~= outcomes@);
    n
}

/// Whether every folder's operation succeeded.
pub fn run_succeeded(outcomes: &Vec<Outcome>) -> (r: bool)
    ensures
        r == (forall|i: int| 0 <= i < outcomes.len() ==> (#[trigger] outcomes@[i]) is Ok),
{
    let n = count_failures(outcomes);
    proof {
        no_failures_means_all_ok(outcomes@);
    }
    n == 0
}

} // verus!
