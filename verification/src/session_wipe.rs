//! Staged wipe of the session directories (chat transcripts and downloads): they are
//! moved aside first, then either replaced by empty directories (commit) or moved back
//! (rollback). The library plans the directory steps; the caller runs them.
use vstd::prelude::*;
use crate::text::{append_chars, append_str, string_of, uuid_chars, uuid_text};

verus! {

/// Subdirectories of the data directory that a session wipe clears, in this order.
pub const SESSION_WIPE_DATA_SUBDIRS: [&'static str; 4] = [
    "orders_chat",
    "user_disputes_chat",
    "disputes_chat",
    "downloads",
];

/// Number of session subdirectories.
pub const SESSION_SUBDIR_COUNT: usize = 4;

/// `uuid::Uuid::new_v4().as_u128()`: a random UUID. Nothing is promised of the value.
#[verifier::external_body]
fn random_uuid() -> u128 {
    uuid::Uuid::new_v4().as_u128()
}

/// Name of the staging directory for a wipe identified by `id`.
pub open spec fn staging_dir_text(id: u128) -> Seq<char> {
    ".session-wipe-staging-"@ + uuid_text(id)
}

/// The staging directory name `.session-wipe-staging-<uuid>`.
pub fn staging_dir_name(id: u128) -> (r: String)
    ensures
        r@ == staging_dir_text(id),
{
    let mut out: Vec<char> = Vec::new();
    append_str(&mut out, ".session-wipe-staging-");
    append_chars(&mut out, &uuid_chars(id));
    string_of(&out)
}

/// One directory operation of a wipe. Subdirectories are numbered as in
/// [`SESSION_WIPE_DATA_SUBDIRS`].
#[derive(Debug, Clone, Copy, PartialEq, Eq, Structural)]
pub enum WipeStep {
    /// Create the staging directory.
    CreateStagingDir,
    /// Move a session subdirectory into the staging directory.
    StageSubdir(usize),
    /// Delete a session subdirectory.
    RemoveSubdir(usize),
    /// Create a session subdirectory (no-op when present).
    CreateSubdir(usize),
    /// Move a staged subdirectory back into place.
    RestoreSubdir(usize),
    /// Delete the staging directory and what it holds.
    RemoveStagingDir,
}

/// A session wipe in progress: the data directory and its staging directory.
pub struct StagedSessionWipe {
    pub base: String,
    pub backup_dir: String,
}

/// Directory contents as the plans see them: what sits at each session subdirectory and
/// at each staged copy (`None`: absent; a number names the contents), and whether the
/// staging directory exists. Contents `0` is a fresh empty directory.
pub struct DirState {
    pub session: Seq<Option<nat>>,
    pub staged: Seq<Option<nat>>,
    pub staging: bool,
}

pub open spec fn apply_step(s: DirState, step: WipeStep) -> DirState {
    match step {
        WipeStep::CreateStagingDir => DirState { staging: true, ..s },
        WipeStep::StageSubdir(i) => DirState {
            session: s.session.update(i as int, None),
            staged: s.staged.update(i as int, s.session[i as int]),
            ..s
        },
        WipeStep::RemoveSubdir(i) => DirState { session: s.session.update(i as int, None), ..s },
        WipeStep::CreateSubdir(i) => if s.session[i as int] is None {
            DirState { session: s.session.update(i as int, Some(0nat)), ..s }
        } else {
            s
        },
        WipeStep::RestoreSubdir(i) => DirState {
            session: s.session.update(i as int, s.staged[i as int]),
            staged: s.staged.update(i as int, None),
            ..s
        },
        WipeStep::RemoveStagingDir => DirState {
            staged: Seq::new(s.staged.len(), |k: int| None),
            staging: false,
            ..s
        },
    }
}

pub open spec fn apply_steps(s: DirState, steps: Seq<WipeStep>) -> DirState
    decreases steps.len(),
{
    if steps.len() == 0 {
        s
    } else {
        apply_step(apply_steps(s, steps.drop_last()), steps.last())
    }
}

/// Steps of `begin`: create the staging directory, then stage every present subdirectory.
pub open spec fn begin_plan(present: Seq<bool>) -> Seq<WipeStep>
    decreases present.len(),
{
    if present.len() == 0 {
        seq![WipeStep::CreateStagingDir]
    } else {
        let prev = begin_plan(present.drop_last());
        if present.last() {
            prev.push(WipeStep::StageSubdir((present.len() - 1) as usize))
        } else {
            prev
        }
    }
}

/// Steps of `commit`: replace every subdirectory by a fresh one, then drop the staging
/// directory when it exists.
pub open spec fn commit_plan(present: Seq<bool>, staging_present: bool) -> Seq<WipeStep> {
    let fresh = fresh_plan(present);
    if staging_present {
        fresh.push(WipeStep::RemoveStagingDir)
    } else {
        fresh
    }
}

/// Remove each present subdirectory and create it again, empty.
pub open spec fn fresh_plan(present: Seq<bool>) -> Seq<WipeStep>
    decreases present.len(),
{
    if present.len() == 0 {
        Seq::empty()
    } else {
        let prev = fresh_plan(present.drop_last());
        let i = (present.len() - 1) as usize;
        if present.last() {
            prev.push(WipeStep::RemoveSubdir(i)).push(WipeStep::CreateSubdir(i))
        } else {
            prev.push(WipeStep::CreateSubdir(i))
        }
    }
}

/// Steps of `rollback`: for each subdirectory remove what is in place and move the staged
/// copy back when there is one; then drop the staging directory when it exists.
pub open spec fn rollback_plan(present: Seq<bool>, staged: Seq<bool>, staging_present: bool) -> Seq<WipeStep> {
    let restore = restore_plan(present, staged);
    if staging_present {
        restore.push(WipeStep::RemoveStagingDir)
    } else {
        restore
    }
}

pub open spec fn restore_plan(present: Seq<bool>, staged: Seq<bool>) -> Seq<WipeStep>
    decreases present.len(),
{
    if present.len() == 0 {
        Seq::empty()
    } else {
        let prev = restore_plan(present.drop_last(), staged.drop_last());
        let i = (present.len() - 1) as usize;
        let with_remove = if present.last() {
            prev.push(WipeStep::RemoveSubdir(i))
        } else {
            prev
        };
        if staged.last() {
            with_remove.push(WipeStep::RestoreSubdir(i))
        } else {
            with_remove
        }
    }
}

pub open spec fn presence(s: Seq<Option<nat>>) -> Seq<bool> {
    s.map_values(|c: Option<nat>| c is Some)
}

/// Plan of `begin` for the subdirectories found present (in subdirectory order).
pub fn begin_steps(present: &Vec<bool>) -> (r: Vec<WipeStep>)
    requires
        present.len() <= SESSION_SUBDIR_COUNT,
    ensures
        r@ == begin_plan(present@),
{
    let mut r: Vec<WipeStep> = Vec::new();
    r.push(WipeStep::CreateStagingDir);
    let mut i: usize = 0;
    proof {
        assert(present@.subrange(0, 0) =~= Seq::<bool>::empty());
    }
    while i < present.len()
        invariant
            i <= present.len() <= SESSION_SUBDIR_COUNT,
            r@ == begin_plan(present@.subrange(0, i as int)),
        decreases present.len() - i,
    {
        proof {
            assert(present@.subrange(0, i + 1).drop_last() =~= present@.subrange(0, i as int));
        }
        if present[i] {
            r.push(WipeStep::StageSubdir(i));
        }
        i = i + 1;
    }
    proof {
        assert(present@.subrange(0, present.len() as int) =~= present@);
    }
    r
}

fn fresh_steps(present: &Vec<bool>) -> (r: Vec<WipeStep>)
    requires
        present.len() <= SESSION_SUBDIR_COUNT,
    ensures
        r@ == fresh_plan(present@),
{
    let mut r: Vec<WipeStep> = Vec::new();
    let mut i: usize = 0;
    proof {
        assert(present@.subrange(0, 0) =~= Seq::<bool>::empty());
    }
    while i < present.len()
        invariant
            i <= present.len() <= SESSION_SUBDIR_COUNT,
            r@ == fresh_plan(present@.subrange(0, i as int)),
        decreases present.len() - i,
    {
        proof {
            assert(present@.subrange(0, i + 1).drop_last() =~= present@.subrange(0, i as int));
        }
        if present[i] {
            r.push(WipeStep::RemoveSubdir(i));
        }
        r.push(WipeStep::CreateSubdir(i));
        i = i + 1;
    }
    proof {
        assert(present@.subrange(0, present.len() as int) =~= present@);
    }
    r
}

/// Plan of `commit` for the subdirectories found present and the staging directory.
pub fn commit_steps(present: &Vec<bool>, staging_present: bool) -> (r: Vec<WipeStep>)
    requires
        present.len() <= SESSION_SUBDIR_COUNT,
    ensures
        r@ == commit_plan(present@, staging_present),
{
    let mut r = fresh_steps(present);
    if staging_present {
        r.push(WipeStep::RemoveStagingDir);
    }
    r
}

/// Plan of clearing the session files in place (no staging): every subdirectory replaced
/// by an empty one.
pub fn clear_session_files_steps(present: &Vec<bool>) -> (r: Vec<WipeStep>)
    requires
        present.len() <= SESSION_SUBDIR_COUNT,
    ensures
        r@ == fresh_plan(present@),
{
    fresh_steps(present)
}

/// Plan of `rollback` for what is in place, what is staged, and the staging directory.
pub fn rollback_steps(present: &Vec<bool>, staged: &Vec<bool>, staging_present: bool) -> (r: Vec<
    WipeStep,
>)
    requires
        present.len() <= SESSION_SUBDIR_COUNT,
        staged.len() == present.len(),
    ensures
        r@ == rollback_plan(present@, staged@, staging_present),
{
    let mut r: Vec<WipeStep> = Vec::new();
    let mut i: usize = 0;
    proof {
        assert(present@.subrange(0, 0) =~= Seq::<bool>::empty());
        assert(staged@.subrange(0, 0) =~= Seq::<bool>::empty());
    }
    while i < present.len()
        invariant
            i <= present.len() <= SESSION_SUBDIR_COUNT,
            staged.len() == present.len(),
            r@ == restore_plan(present@.subrange(0, i as int), staged@.subrange(0, i as int)),
        decreases present.len() - i,
    {
        proof {
            assert(present@.subrange(0, i + 1).drop_last() =~= present@.subrange(0, i as int));
            assert(staged@.subrange(0, i + 1).drop_last() =~= staged@.subrange(0, i as int));
        }
        if present[i] {
            r.push(WipeStep::RemoveSubdir(i));
        }
        if staged[i] {
            r.push(WipeStep::RestoreSubdir(i));
        }
        i = i + 1;
    }
    proof {
        assert(present@.subrange(0, present.len() as int) =~= present@);
        assert(staged@.subrange(0, staged.len() as int) =~= staged@);
    }
    if staging_present {
        r.push(WipeStep::RemoveStagingDir);
    }
    r
}

impl StagedSessionWipe {
    /// A wipe of `base` staged in a new, randomly named directory under it.
    pub fn new(base: String) -> (r: StagedSessionWipe)
        ensures
            r.base == base,
            exists|id: u128| r.backup_dir@ == #[trigger] staging_dir_text(id),
    {
        let id = random_uuid();
        let backup_dir = staging_dir_name(id);
        StagedSessionWipe { base, backup_dir }
    }
}

// ---------------------------------------------------------------------------------------
// What the plans do to the directories
// ---------------------------------------------------------------------------------------

proof fn lemma_begin(s0: DirState, n: nat)
    requires
        n <= s0.session.len() <= SESSION_SUBDIR_COUNT,
        s0.staged.len() == s0.session.len(),
    ensures
        ({
            let s1 = apply_steps(s0, begin_plan(presence(s0.session).subrange(0, n as int)));
            &&& s1.staging
            &&& s1.session.len() == s0.session.len()
            &&& s1.staged.len() == s0.staged.len()
            &&& forall|k: int| 0 <= k < n ==> s1.session[k] is None
            &&& forall|k: int| 0 <= k < n ==> (#[trigger] s1.staged[k] == if s0.session[k] is Some {
                s0.session[k]
            } else {
                s0.staged[k]
            })
            &&& forall|k: int| n <= k < s0.session.len() ==> s1.session[k] == s0.session[k]
                && s1.staged[k] == s0.staged[k]
        }),
    decreases n,
{
    let pres = presence(s0.session).subrange(0, n as int);
    if n == 0 {
        assert(pres =~= Seq::<bool>::empty());
        assert(begin_plan(pres) =~= seq![WipeStep::CreateStagingDir]);
        assert(seq![WipeStep::CreateStagingDir].drop_last() =~= Seq::<WipeStep>::empty());
        assert(apply_steps(s0, Seq::<WipeStep>::empty()) == s0);
        assert(apply_steps(s0, begin_plan(pres)) == apply_step(s0, WipeStep::CreateStagingDir));
    } else {
        lemma_begin(s0, (n - 1) as nat);
        let sub = presence(s0.session).subrange(0, n - 1);
        assert(pres.drop_last() =~= sub);
        let prev = begin_plan(sub);
        let sp = apply_steps(s0, prev);
        assert(pres.last() == (s0.session[n - 1] is Some));
        if s0.session[n - 1] is Some {
            let i = (n - 1) as usize;
            assert(begin_plan(pres) == prev.push(WipeStep::StageSubdir(i)));
            assert(prev.push(WipeStep::StageSubdir(i)).drop_last() =~= prev);
            assert(apply_steps(s0, begin_plan(pres)) == apply_step(sp, WipeStep::StageSubdir(i)));
        } else {
            assert(begin_plan(pres) == prev);
        }
    }
}

proof fn lemma_restore(s1: DirState, n: nat)
    requires
        n <= s1.session.len() <= SESSION_SUBDIR_COUNT,
        s1.staged.len() == s1.session.len(),
    ensures
        ({
            let s2 = apply_steps(
                s1,
                restore_plan(
                    presence(s1.session).subrange(0, n as int),
                    presence(s1.staged).subrange(0, n as int),
                ),
            );
            &&& s2.staging == s1.staging
            &&& s2.session.len() == s1.session.len()
            &&& s2.staged.len() == s1.staged.len()
            &&& forall|k: int| 0 <= k < n ==> #[trigger] s2.session[k] == s1.staged[k]
            &&& forall|k: int| n <= k < s1.session.len() ==> s2.session[k] == s1.session[k]
                && s2.staged[k] == s1.staged[k]
        }),
    decreases n,
{
    let pres = presence(s1.session).subrange(0, n as int);
    let stg = presence(s1.staged).subrange(0, n as int);
    if n == 0 {
        assert(pres =~= Seq::<bool>::empty());
        assert(restore_plan(pres, stg) =~= Seq::<WipeStep>::empty());
    } else {
        lemma_restore(s1, (n - 1) as nat);
        let subp = presence(s1.session).subrange(0, n - 1);
        let subs = presence(s1.staged).subrange(0, n - 1);
        assert(pres.drop_last() =~= subp);
        assert(stg.drop_last() =~= subs);
        let prev = restore_plan(subp, subs);
        let sp = apply_steps(s1, prev);
        let i = (n - 1) as usize;
        let with_remove = if pres.last() {
            prev.push(WipeStep::RemoveSubdir(i))
        } else {
            prev
        };
        let sw = apply_steps(s1, with_remove);
        assert(sp.session[n - 1] == s1.session[n - 1]);
        assert(sp.staged[n - 1] == s1.staged[n - 1]);
        if pres.last() {
            assert(with_remove.drop_last() =~= prev);
            assert(sw == apply_step(sp, WipeStep::RemoveSubdir(i)));
        } else {
            assert(sw == sp);
        }
        assert(sw.session.len() == s1.session.len());
        assert(sw.staged[n - 1] == s1.staged[n - 1]);
        assert(pres.last() == (s1.session[n - 1] is Some));
        assert(stg.last() == (s1.staged[n - 1] is Some));
        if stg.last() {
            assert(restore_plan(pres, stg) == with_remove.push(WipeStep::RestoreSubdir(i)));
            assert(with_remove.push(WipeStep::RestoreSubdir(i)).drop_last() =~= with_remove);
            assert(apply_steps(s1, restore_plan(pres, stg)) == apply_step(sw, WipeStep::RestoreSubdir(i)));
        } else {
            assert(restore_plan(pres, stg) == with_remove);
            assert(sw.session[n - 1] is None);
        }
    }
}

proof fn lemma_fresh(s: DirState, n: nat)
    requires
        n <= s.session.len() <= SESSION_SUBDIR_COUNT,
    ensures
        ({
            let s2 = apply_steps(s, fresh_plan(presence(s.session).subrange(0, n as int)));
            &&& s2.staging == s.staging
            &&& s2.staged == s.staged
            &&& s2.session.len() == s.session.len()
            &&& forall|k: int| 0 <= k < n ==> #[trigger] s2.session[k] == Some(0nat)
            &&& forall|k: int| n <= k < s.session.len() ==> s2.session[k] == s.session[k]
        }),
    decreases n,
{
    let pres = presence(s.session).subrange(0, n as int);
    if n == 0 {
        assert(pres =~= Seq::<bool>::empty());
        assert(fresh_plan(pres) =~= Seq::<WipeStep>::empty());
    } else {
        lemma_fresh(s, (n - 1) as nat);
        let sub = presence(s.session).subrange(0, n - 1);
        assert(pres.drop_last() =~= sub);
        let prev = fresh_plan(sub);
        let sp = apply_steps(s, prev);
        let i = (n - 1) as usize;
        assert(pres.last() == (s.session[n - 1] is Some));
        if pres.last() {
            let a = prev.push(WipeStep::RemoveSubdir(i));
            assert(fresh_plan(pres) == a.push(WipeStep::CreateSubdir(i)));
            assert(a.push(WipeStep::CreateSubdir(i)).drop_last() =~= a);
            assert(a.drop_last() =~= prev);
            let sa = apply_step(sp, WipeStep::RemoveSubdir(i));
            assert(apply_steps(s, a) == sa);
            assert(apply_steps(s, fresh_plan(pres)) == apply_step(sa, WipeStep::CreateSubdir(i)));
        } else {
            assert(fresh_plan(pres) == prev.push(WipeStep::CreateSubdir(i)));
            assert(prev.push(WipeStep::CreateSubdir(i)).drop_last() =~= prev);
            assert(apply_steps(s, fresh_plan(pres)) == apply_step(sp, WipeStep::CreateSubdir(i)));
        }
    }
}

/// Rolling back a begun wipe puts every session subdirectory back exactly as it was and
/// leaves no staging directory behind. The wipe's staging directory is new, so nothing is
/// staged before `begin`.
pub proof fn rollback_restores_law(s0: DirState)
    requires
        s0.session.len() == s0.staged.len() <= SESSION_SUBDIR_COUNT,
        forall|k: int| 0 <= k < s0.staged.len() ==> #[trigger] s0.staged[k] is None,
    ensures
        ({
            let s1 = apply_steps(s0, begin_plan(presence(s0.session)));
            let s2 = apply_steps(
                s1,
                rollback_plan(presence(s1.session), presence(s1.staged), s1.staging),
            );
            &&& s2.session == s0.session
            &&& !s2.staging
        }),
{
    let n = s0.session.len();
    assert(presence(s0.session).subrange(0, n as int) =~= presence(s0.session));
    lemma_begin(s0, n);
    let s1 = apply_steps(s0, begin_plan(presence(s0.session)));
    assert(presence(s1.session).subrange(0, n as int) =~= presence(s1.session));
    assert(presence(s1.staged).subrange(0, n as int) =~= presence(s1.staged));
    lemma_restore(s1, n);
    let restore = restore_plan(presence(s1.session), presence(s1.staged));
    let s2r = apply_steps(s1, restore);
    let plan = rollback_plan(presence(s1.session), presence(s1.staged), s1.staging);
    assert(plan.drop_last() =~= restore);
    let s2 = apply_steps(s1, plan);
    assert(s2.session =~= s0.session) by {
        assert forall|k: int| 0 <= k < n implies s2.session[k] == s0.session[k] by {
            assert(s2r.session[k] == s1.staged[k]);
        }
    }
}

/// Committing a begun wipe leaves every session subdirectory fresh and empty, and no
/// staging directory.
pub proof fn commit_clears_law(s0: DirState)
    requires
        s0.session.len() == s0.staged.len() <= SESSION_SUBDIR_COUNT,
    ensures
        ({
            let s1 = apply_steps(s0, begin_plan(presence(s0.session)));
            let s2 = apply_steps(s1, commit_plan(presence(s1.session), s1.staging));
            &&& forall|k: int| 0 <= k < s0.session.len() ==> #[trigger] s2.session[k] == Some(0nat)
            &&& s2.session.len() == s0.session.len()
            &&& !s2.staging
        }),
{
    let n = s0.session.len();
    assert(presence(s0.session).subrange(0, n as int) =~= presence(s0.session));
    lemma_begin(s0, n);
    let s1 = apply_steps(s0, begin_plan(presence(s0.session)));
    assert(presence(s1.session).subrange(0, n as int) =~= presence(s1.session));
    lemma_fresh(s1, n);
    let plan = commit_plan(presence(s1.session), s1.staging);
    assert(plan.drop_last() =~= fresh_plan(presence(s1.session)));
}

} // verus!
