//! What git-sync no longer does once git said that it must not.

use vstd::prelude::*;

use crate::git_commit::PlanModel;
use crate::git_flow::{OutcomeModel, Text};
use crate::git_run::{JobModel, SyncJobModel, TargetModel};
use crate::git_step::{Action, Reply, StepModel};
use crate::script::{Procedure, Progress};
use crate::{git_commit, git_flow, git_laws, git_push, git_run, git_text, script};

verus! {

broadcast use {
    script::group_always,
    script::group_results,
    script::group_never_after,
    script::group_stops_after,
};

/// The predicate "commits, pushes, moves a branch or changes an index".
pub open spec fn acts() -> spec_fn(StepModel) -> bool {
    |s: StepModel| s.action is Push || (git_laws::alters(s) && !(s.action is RemoveIndex))
}

/// The predicate "pushes".
pub open spec fn pushes() -> spec_fn(StepModel) -> bool {
    |s: StepModel| s.action is Push
}

/// The predicate "is there".
pub open spec fn given() -> spec_fn(Option<Text>) -> bool {
    |v: Option<Text>| v is Some
}

/// The predicate "is not there".
pub open spec fn missing() -> spec_fn(Option<Text>) -> bool {
    |v: Option<Text>| v is None
}

/// The predicate "is not there", of two texts.
pub open spec fn no_parts() -> spec_fn(Option<(Text, Text)>) -> bool {
    |v: Option<(Text, Text)>| v is None
}

/// The predicate "is an error", of something that has no result.
pub open spec fn undone() -> spec_fn(Result<(), Text>) -> bool {
    |v: Result<(), Text>| v is Err
}

/// The predicate "is anything".
pub open spec fn anything<T>() -> spec_fn(T) -> bool {
    |v: T| true
}

// ----- A repository that must not be touched ---------------------------

/// The reply says that the repository must not be touched: there is unfinished
/// work in it, `HEAD` is on no branch, or there are conflicts.
pub open spec fn blocking() -> spec_fn(StepModel, Reply) -> bool {
    |s: StepModel, r: Reply|
        match s.action {
            Action::ProbeMarkers { .. } => git_flow::unfinished_work(r) is Some,
            Action::SymbolicRef => !git_flow::succeeded(r),
            Action::UnmergedFiles => git_flow::succeeded(r) && git_flow::printed(r).len() > 0,
            _ => false,
        }
}

/// Lemma: a reply that blocks the repository is reported.
proof fn lemma_blocked_is_reported(root: Text)
    ensures
        script::stops_after(git_flow::blocked(root), blocking(), given()),
        script::never_after(git_flow::blocked(root), blocking(), acts()),
{
    script::lemma_never_after_harmless(git_flow::blocked(root), blocking(), acts());
}

/// Lemma: without a branch there is nowhere to push to.
proof fn lemma_no_branch_no_push(dir: Text, commit: Text)
    ensures
        script::never_after(git_push::pushing(dir, commit), blocking(), acts()),
{
    let bad = blocking();
    let parts = git_push::upstream_parts(dir);
    assert(script::stops_after(git_flow::branch_ref(dir), bad, missing()));
    script::lemma_stops_after_bind(
        git_flow::branch_ref(dir),
        |b: Option<Text>|
            match b {
                None => Procedure::Done(None),
                Some(full) => match git_push::branch_name(full) {
                    None => Procedure::Done(None),
                    Some(name) => git_push::configured_upstream(dir, name),
                },
            },
        bad,
        missing(),
        no_parts(),
    );
    script::lemma_never_after_harmless(parts, bad, acts());
    script::lemma_never_after_bind(
        parts,
        |u: Option<(Text, Text)>|
            match u {
                None => Procedure::Done(
                    git_push::not_pushed(
                        "git-sync: no upstream configured for this branch; run `git push -u` once"@,
                        commit,
                    ),
                ),
                Some((remote, branch)) => Procedure::Ask(
                    git_flow::step_in(dir, Action::Push { remote, commit, branch }),
                    |r: Reply|
                        Procedure::Done(
                            if git_flow::succeeded(r) {
                                OutcomeModel::Synced
                            } else {
                                git_push::not_pushed(git_flow::failure("git push"@, r), commit)
                            },
                        ),
                ),
            },
        bad,
        acts(),
        no_parts(),
    );
}

/// Lemma: taking a commit back stops where there is no branch.
proof fn lemma_undoing_stops(root: Text, created: Text)
    ensures
        script::never_after(git_commit::undoing(root, created), blocking(), acts()),
{
    let bad = blocking();
    assert(script::stops_after(git_flow::branch_ref(root), bad, missing()));
    script::lemma_never_after_harmless(git_flow::branch_ref(root), bad, acts());
    script::lemma_never_after_bind(
        git_flow::branch_ref(root),
        |b: Option<Text>|
            match b {
                None => Procedure::Done(
                    Err("git-sync: could not resolve branch ref to undo root commit"@),
                ),
                Some(branch) => Procedure::Ask(
                    git_flow::step_in(root, Action::DeleteBranch { branch, created }),
                    |r: Reply|
                        Procedure::Done(git_flow::done_or_failure("git update-ref"@, r)),
                ),
            },
        bad,
        acts(),
        missing(),
    );
}

/// Lemma: making sure of a commit's extent stops after a reply that blocks the
/// repository.
proof fn lemma_verifying_stops(root: Text, parent: Option<Text>, relpath: Text, created: Text)
    ensures
        script::never_after(
            git_commit::verifying(root, parent, relpath, created),
            blocking(),
            acts(),
        ),
        script::stops_after(
            git_commit::verifying(root, parent, relpath, created),
            blocking(),
            undone(),
        ),
{
    let bad = blocking();
    let k = |u: Result<(), Text>|
        Procedure::Done(Err::<(), Text>(git_commit::hook_verdict(created, u)));
    let p = git_commit::undoing(root, created);
    lemma_undoing_stops(root, created);
    script::lemma_stops_after_results(script::bind(p, k), bad, undone());
    assert(script::results(p, anything::<Result<(), Text>>())) by {
        lemma_results_anything(p);
    }
    script::lemma_stops_after_results(p, bad, anything::<Result<(), Text>>());
    script::lemma_never_after_bind(p, k, bad, acts(), anything::<Result<(), Text>>());
}

/// Lemma: every result is something.
proof fn lemma_results_anything<T>(p: Procedure<T>)
    ensures
        script::results(p, anything::<T>()),
    decreases p,
{
    match p {
        Procedure::Done(_) => {},
        Procedure::Ask(_, f) => {
            assert forall|r: Reply| script::results(#[trigger] f(r), anything::<T>()) by {
                lemma_results_anything(f(r));
            }
        },
    }
}

/// Lemma: making a commit stops after a reply that blocks the repository.
proof fn lemma_building_allowed_stops(plan: PlanModel, before: Option<Text>)
    ensures
        script::never_after(git_commit::building_allowed(plan, before), blocking(), acts()),
        script::stops_after(
            git_commit::building_allowed(plan, before),
            blocking(),
            git_laws::is_error(),
        ),
{
    let bad = blocking();
    let stop = git_laws::is_error();
    assert forall|created: Text|
        script::never_after(
            #[trigger] git_commit::building_verified(plan, before, created),
            bad,
            acts(),
        ) && script::stops_after(
            git_commit::building_verified(plan, before, created),
            bad,
            stop,
        ) by {
        let p = git_commit::verifying(plan.root, plan.parent, plan.relpath, created);
        let k = |v: Result<(), Text>|
            match v {
                Err(e) => Procedure::Done(Err(e)),
                Ok(()) => script::bind(
                    git_commit::aligning(plan, before),
                    |u: ()| Procedure::Done(Ok(created)),
                ),
            };
        lemma_verifying_stops(plan.root, plan.parent, plan.relpath, created);
        script::lemma_never_after_bind(p, k, bad, acts(), undone());
        script::lemma_stops_after_bind(p, k, bad, undone(), stop);
    }
}

/// Lemma: making a commit stops after a reply that blocks the repository.
proof fn lemma_building_stops(plan: PlanModel, before: Option<Text>)
    ensures
        script::never_after(git_commit::building(plan, before), blocking(), acts()),
        script::stops_after(
            git_commit::building(plan, before),
            blocking(),
            git_laws::is_error(),
        ),
{
    let bad = blocking();
    let stop = git_laws::is_error();
    lemma_building_allowed_stops(plan, before);
    lemma_blocked_is_reported(plan.root);
    let k = |b: Option<Text>|
        match b {
            Some(reason) => Procedure::Done(Err(reason)),
            None => git_commit::building_allowed(plan, before),
        };
    script::lemma_never_after_bind(git_flow::blocked(plan.root), k, bad, acts(), given());
    script::lemma_stops_after_bind(git_flow::blocked(plan.root), k, bad, given(), stop);
}

/// Lemma: making a commit by way of a temporary index stops after a reply that
/// blocks the repository.
proof fn lemma_committing_stops(plan: PlanModel, index_name: Text)
    ensures
        script::never_after(
            git_commit::committing_in_git_dir(plan, index_name),
            blocking(),
            acts(),
        ),
        script::stops_after(
            git_commit::committing_in_git_dir(plan, index_name),
            blocking(),
            git_laws::is_error(),
        ),
{
    let bad = blocking();
    let stop = git_laws::is_error();
    assert forall|p: PlanModel, before: Option<Text>|
        script::never_after(
            #[trigger] git_commit::committing_and_removing(p, before),
            bad,
            acts(),
        ) && script::stops_after(
            git_commit::committing_and_removing(p, before),
            bad,
            stop,
        ) by {
        lemma_building_stops(p, before);
        let k = |c: Result<Text, Text>| git_commit::removing_index(p, c);
        script::lemma_never_after_bind(git_commit::building(p, before), k, bad, acts(), stop);
        script::lemma_stops_after_bind(git_commit::building(p, before), k, bad, stop, stop);
    }
}

/// Lemma: committing and pushing a change stops after a reply that blocks the
/// repository.
proof fn lemma_syncing_stops(job: SyncJobModel)
    ensures
        script::never_after(git_run::syncing(job), blocking(), acts()),
{
    let bad = blocking();
    assert forall|dir: Text, commit: Text|
        script::never_after(#[trigger] git_push::pushing(dir, commit), bad, acts()) by {
        lemma_no_branch_no_push(dir, commit);
    }
    assert forall|at: TargetModel, blob: Text|
        script::never_after(#[trigger] git_run::syncing_blob(job, at, blob), bad, acts()) by {
        let plan = git_run::planned(job, at, blob);
        lemma_committing_stops(plan, job.index_name);
        script::lemma_never_after_bind(
            git_commit::committing_in_git_dir(plan, job.index_name),
            |c: Result<Text, Text>|
                match c {
                    Err(e) => git_run::failed(e),
                    Ok(created) => git_push::pushing_if_current(job.dir, at.root, created),
                },
            bad,
            acts(),
            git_laws::is_error(),
        );
    }
    assert forall|at: TargetModel|
        script::never_after(#[trigger] git_run::syncing_staged(job, at), bad, acts()) by {}
    assert forall|root: Text|
        script::never_after(#[trigger] git_run::syncing_status(job, root), bad, acts()) by {}
    assert forall|root: Text| script::never_after(
        #[trigger] git_run::syncing_root(job, root),
        bad,
        acts(),
    ) by {
        lemma_blocked_is_reported(root);
        script::lemma_never_after_bind(
            git_flow::blocked(root),
            |b: Option<Text>|
                match b {
                    Some(reason) => git_run::failed(reason),
                    None => git_run::syncing_status(job, root),
                },
            bad,
            acts(),
            given(),
        );
    }
}

/// Lemma: pushing what an earlier session left behind stops after a reply that
/// blocks the repository.
proof fn lemma_catching_up_stops(dir: Text, file: Text)
    ensures
        script::never_after(git_run::catching_up(dir, file), blocking(), acts()),
{
    let bad = blocking();
    assert forall|d: Text, commit: Text|
        script::never_after(#[trigger] git_push::pushing(d, commit), bad, acts()) by {
        lemma_no_branch_no_push(d, commit);
    }
    assert forall|root: Text| script::never_after(
        #[trigger] git_run::catching_up_root(dir, file, root),
        bad,
        acts(),
    ) by {
        lemma_blocked_is_reported(root);
        script::lemma_never_after_bind(
            git_flow::blocked(root),
            |b: Option<Text>|
                match b {
                    Some(reason) => git_run::failed(reason),
                    None => git_run::catching_up_head(dir, file, root),
                },
            bad,
            acts(),
            given(),
        );
    }
}

/// Lemma: pushing a commit again stops after a reply that blocks the repository.
proof fn lemma_retrying_stops(dir: Text, commit: Text)
    ensures
        script::never_after(
            git_run::performing(JobModel::Retry { dir, commit }),
            blocking(),
            acts(),
        ),
{
    let bad = blocking();
    let p = git_push::retrying(dir, commit);
    lemma_no_branch_no_push(dir, commit);
    assert(script::never_after(p, bad, acts()));
    lemma_results_anything(p);
    script::lemma_stops_after_results(p, bad, anything::<OutcomeModel>());
    script::lemma_never_after_bind(
        p,
        |o: OutcomeModel| Procedure::Done(git_run::as_retry(o)),
        bad,
        acts(),
        anything::<OutcomeModel>(),
    );
}

/// Law: once git says that the repository must not be touched (a merge, a
/// rebase or the like is unfinished, there are conflicts, or no branch is
/// checked out), nothing is committed, pushed, moved or staged any more,
/// whenever in a job it says so.
pub proof fn law_blocked_repository_is_left_alone(job: JobModel)
    ensures
        script::never_after(git_run::performing(job), blocking(), acts()),
{
    match job {
        JobModel::Sync(change) => {
            lemma_syncing_stops(change);
        },
        JobModel::Retry { dir, commit } => {
            lemma_retrying_stops(dir, commit);
        },
        JobModel::CatchUp { dir, file } => {
            lemma_catching_up_stops(dir, file);
        },
    }
}

// ----- Content that nobody asked to commit -----------------------------

/// The reply says that the checklist on disk does not hold what was last asked
/// to be committed.
pub open spec fn unaccounted() -> spec_fn(StepModel, Reply) -> bool {
    |s: StepModel, r: Reply| s.action is ReadChecklist && !git_flow::accounted_for(r)
}

/// Lemma: nothing after the checklist was read reads it again.
proof fn lemma_read_once(job: SyncJobModel, at: TargetModel)
    ensures
        script::never_after(git_run::syncing_staged(job, at), unaccounted(), acts()),
{
    assert(script::unbothered(git_run::syncing_staged(job, at), unaccounted()));
    script::lemma_never_after_unbothered(git_run::syncing_staged(job, at), unaccounted(), acts());
}

/// Lemma: pushing a commit that is there does not read the checklist.
proof fn lemma_push_reads_nothing(dir: Text, root: Text, tip: Text)
    ensures
        script::never_after(git_run::pushing_if_ahead(dir, root, tip), unaccounted(), acts()),
{
    assert(script::unbothered(git_run::pushing_if_ahead(dir, root, tip), unaccounted()));
    script::lemma_never_after_unbothered(
        git_run::pushing_if_ahead(dir, root, tip),
        unaccounted(),
        acts(),
    );
}

/// Lemma: a change is not committed where the checklist holds something else.
proof fn lemma_syncing_reads(job: SyncJobModel)
    ensures
        script::never_after(git_run::syncing(job), unaccounted(), acts()),
{
    let bad = unaccounted();
    assert forall|at: TargetModel|
        script::never_after(#[trigger] git_run::syncing_content(job, at), bad, acts()) by {
        lemma_read_once(job, at);
        if let Some(tip) = at.tip {
            lemma_push_reads_nothing(job.dir, at.root, tip);
        }
    }
    assert forall|root: Text, mode: Text, relpath: Text|
        script::never_after(
            #[trigger] git_run::syncing_tip(job, root, mode, relpath),
            bad,
            acts(),
        ) by {}
    assert forall|root: Text, unchanged: bool|
        script::never_after(
            #[trigger] git_run::syncing_entry(job, root, unchanged),
            bad,
            acts(),
        ) by {}
}

/// Law: a checklist that was changed on disk by someone else in the meantime
/// is neither committed nor pushed.
pub proof fn law_foreign_content_is_not_committed(job: JobModel)
    ensures
        script::never_after(git_run::performing(job), unaccounted(), acts()),
{
    let bad = unaccounted();
    match job {
        JobModel::Sync(change) => {
            lemma_syncing_reads(change);
        },
        JobModel::Retry { dir, commit } => {
            assert(script::unbothered(git_run::performing(job), bad));
            script::lemma_never_after_unbothered(git_run::performing(job), bad, acts());
        },
        JobModel::CatchUp { dir, file } => {
            assert(script::unbothered(git_run::performing(job), bad));
            script::lemma_never_after_unbothered(git_run::performing(job), bad, acts());
        },
    }
}

// ----- Commits that are not about the checklist ------------------------

/// The reply says that some commit to be pushed is a merge or touches another
/// file than `relpath`, or that this cannot be told.
pub open spec fn unrelated_found(relpath: Text) -> spec_fn(StepModel, Reply) -> bool {
    |s: StepModel, r: Reply|
        match s.action {
            Action::RangeParents { .. } => !git_flow::succeeded(r) || git_flow::has_merge(
                git_text::lines(git_text::lossy_text(git_flow::printed(r))),
            ),
            Action::TouchedPaths { .. } => !git_flow::succeeded(r) || git_text::has_other_path(
                git_flow::printed(r),
                vstd::utf8::encode_utf8(relpath),
            ),
            _ => false,
        }
}

/// The predicate "is not a clear no".
pub open spec fn not_clear() -> spec_fn(Result<bool, Text>) -> bool {
    |v: Result<bool, Text>| v != Ok::<bool, Text>(false)
}

/// Lemma: an unrelated commit is seen.
proof fn lemma_unrelated_is_seen(root: Text, base: Option<Text>, tip: Text, relpath: Text)
    ensures
        script::stops_after(
            git_push::unrelated(root, base, tip, relpath),
            unrelated_found(relpath),
            not_clear(),
        ),
{
}

/// Lemma: an unrelated commit in the history is refused.
proof fn lemma_history_is_refused(root: Text, tip: Option<Text>, relpath: Text)
    ensures
        script::stops_after(
            git_push::history_refusal(root, tip, relpath),
            unrelated_found(relpath),
            given(),
        ),
{
    let bad = unrelated_found(relpath);
    if let Some(t) = tip {
        assert forall|base: Text|
            script::stops_after(
                script::bind(
                    #[trigger] git_push::unrelated(root, Some(base), t, relpath),
                    |x: Result<bool, Text>| Procedure::Done(git_push::history_verdict(x)),
                ),
                bad,
                given(),
            ) by {
            lemma_unrelated_is_seen(root, Some(base), t, relpath);
            script::lemma_stops_after_bind(
                git_push::unrelated(root, Some(base), t, relpath),
                |x: Result<bool, Text>| Procedure::Done(git_push::history_verdict(x)),
                bad,
                not_clear(),
                given(),
            );
        }
    }
}

/// Lemma: a commit that a hook added other files to is an error.
proof fn lemma_verifying_sees_unrelated(
    root: Text,
    parent: Option<Text>,
    relpath: Text,
    created: Text,
)
    ensures
        script::stops_after(
            git_commit::verifying(root, parent, relpath, created),
            unrelated_found(relpath),
            undone(),
        ),
{
    let bad = unrelated_found(relpath);
    lemma_unrelated_is_seen(root, parent, created, relpath);
    script::lemma_stops_after_bind(
        git_push::unrelated(root, parent, created, relpath),
        |x: Result<bool, Text>|
            match x {
                Err(e) => Procedure::Done(Err(git_commit::unverified_commit(created, e))),
                Ok(false) => Procedure::Done(Ok(())),
                Ok(true) => script::bind(
                    git_commit::undoing(root, created),
                    |u: Result<(), Text>|
                        Procedure::Done(Err::<(), Text>(git_commit::hook_verdict(created, u))),
                ),
            },
        bad,
        not_clear(),
        undone(),
    );
}

/// Lemma: a commit that a hook added other files to is not handed on.
proof fn lemma_committing_sees_unrelated(plan: PlanModel, index_name: Text)
    ensures
        script::stops_after(
            git_commit::committing_in_git_dir(plan, index_name),
            unrelated_found(plan.relpath),
            git_laws::is_error(),
        ),
{
    let bad = unrelated_found(plan.relpath);
    let stop = git_laws::is_error();
    assert forall|p: PlanModel, before: Option<Text>| p.relpath == plan.relpath implies
        script::stops_after(
            #[trigger] git_commit::committing_and_removing(p, before),
            bad,
            stop,
        ) by {
        assert forall|created: Text|
            script::stops_after(
                #[trigger] git_commit::building_verified(p, before, created),
                bad,
                stop,
            ) by {
            lemma_verifying_sees_unrelated(p.root, p.parent, p.relpath, created);
            script::lemma_stops_after_bind(
                git_commit::verifying(p.root, p.parent, p.relpath, created),
                |v: Result<(), Text>|
                    match v {
                        Err(e) => Procedure::Done(Err(e)),
                        Ok(()) => script::bind(
                            git_commit::aligning(p, before),
                            |u: ()| Procedure::Done(Ok(created)),
                        ),
                    },
                bad,
                undone(),
                stop,
            );
        }
        script::lemma_stops_after_bind(
            git_commit::building(p, before),
            |c: Result<Text, Text>| git_commit::removing_index(p, c),
            bad,
            stop,
            stop,
        );
    }
}

/// Law: once a commit that would be pushed is seen to be a merge or to touch
/// another file than the checklist, or cannot be looked at, nothing is pushed.
/// That holds of commits that were there before and of the commit that was
/// just made, to which a hook may have added files.
pub proof fn law_unrelated_commits_are_not_pushed(
    job: SyncJobModel,
    root: Text,
    mode: Text,
    relpath: Text,
)
    ensures
        script::never_after(
            git_run::syncing_tip(job, root, mode, relpath),
            unrelated_found(relpath),
            pushes(),
        ),
{
    let bad = unrelated_found(relpath);
    assert forall|dir: Text, commit: Text|
        script::never_after(#[trigger] git_push::pushing(dir, commit), bad, pushes()) by {
        script::lemma_never_after_unbothered(git_push::pushing(dir, commit), bad, pushes());
    }
    assert forall|at: TargetModel, blob: Text| at.relpath == relpath implies script::never_after(
        #[trigger] git_run::syncing_blob(job, at, blob),
        bad,
        pushes(),
    ) by {
        let plan = git_run::planned(job, at, blob);
        lemma_committing_sees_unrelated(plan, job.index_name);
        script::lemma_never_after_harmless(
            git_commit::committing_in_git_dir(plan, job.index_name),
            bad,
            pushes(),
        );
        script::lemma_never_after_bind(
            git_commit::committing_in_git_dir(plan, job.index_name),
            |c: Result<Text, Text>|
                match c {
                    Err(e) => git_run::failed(e),
                    Ok(created) => git_push::pushing_if_current(job.dir, at.root, created),
                },
            bad,
            pushes(),
            git_laws::is_error(),
        );
    }
    assert forall|tip: Option<Text>|
        script::never_after(
            script::bind(
                #[trigger] git_push::history_refusal(root, tip, relpath),
                |h: Option<Text>|
                    match h {
                        Some(reason) => git_run::failed(reason),
                        None => git_run::syncing_content(
                            job,
                            TargetModel { root, mode, relpath, tip },
                        ),
                    },
            ),
            bad,
            pushes(),
        ) by {
        let p = git_push::history_refusal(root, tip, relpath);
        lemma_history_is_refused(root, tip, relpath);
        script::lemma_never_after_harmless(p, bad, pushes());
        script::lemma_never_after_bind(
            p,
            |h: Option<Text>|
                match h {
                    Some(reason) => git_run::failed(reason),
                    None => git_run::syncing_content(job, TargetModel { root, mode, relpath, tip }),
                },
            bad,
            pushes(),
            given(),
        );
    }
}

/// Law: what an earlier session left behind is not pushed once one of its
/// commits is seen to be a merge or to touch another file than the checklist,
/// or cannot be looked at.
pub proof fn law_unrelated_commits_are_not_caught_up(
    dir: Text,
    root: Text,
    tip: Text,
    relpath: Text,
)
    ensures
        script::never_after(
            git_run::pushing_checked(dir, root, tip, relpath),
            unrelated_found(relpath),
            pushes(),
        ),
{
    let bad = unrelated_found(relpath);
    let p = git_push::history_refusal(root, Some(tip), relpath);
    lemma_history_is_refused(root, Some(tip), relpath);
    script::lemma_never_after_harmless(p, bad, pushes());
    script::lemma_never_after_unbothered(git_push::pushing(dir, tip), bad, pushes());
    script::lemma_never_after_bind(
        p,
        |h: Option<Text>|
            match h {
                Some(reason) => git_run::failed(reason),
                None => git_push::pushing(dir, tip),
            },
        bad,
        pushes(),
        given(),
    );
}

// ----- What is staged --------------------------------------------------

/// Law: where a commit would lose a staged version of the checklist, the job
/// ends with a failure at that point, and takes no further step.
pub proof fn law_staged_version_is_not_lost(
    job: SyncJobModel,
    at: TargetModel,
    committed: Option<Text>,
    replies: Seq<Reply>,
    from: int,
    used: int,
)
    requires
        script::run(
            git_commit::staged_lost(at.root, at.relpath, committed, job.previous),
            replies,
            from,
        ) == Progress::Gives(true, used),
    ensures
        script::run(git_run::syncing_unless_lost(job, at, committed), replies, from)
            == Progress::Gives(OutcomeModel::Failed(git_run::staged_refusal()), used),
{
    broadcast use script::group_run;

}

// ----- Nothing to commit -----------------------------------------------

/// The reply says that the checklist is not tracked.
pub open spec fn untracked() -> spec_fn(StepModel, Reply) -> bool {
    |s: StepModel, r: Reply|
        match s.action {
            Action::Status { .. } => git_flow::succeeded(r) && git_run::is_untracked_status(
                git_flow::printed(r),
            ),
            Action::IndexEntry { .. } => git_flow::entry_of(r) == Ok::<
                Option<(Text, Text)>,
                Text,
            >(None),
            _ => false,
        }
}

/// Lemma: once a file is known to be tracked, that is not asked again.
#[verifier::rlimit(30)]
proof fn lemma_tracked_once(job: SyncJobModel, root: Text, mode: Text, relpath: Text)
    ensures
        script::never_after(
            git_run::syncing_tip(job, root, mode, relpath),
            untracked(),
            acts(),
        ),
{
    let p = git_run::syncing_tip(job, root, mode, relpath);
    assert(script::unbothered(p, untracked()));
    script::lemma_never_after_unbothered(p, untracked(), acts());
}

/// The predicate "there is no entry".
pub open spec fn no_entry() -> spec_fn(Result<Option<(Text, Text)>, Text>) -> bool {
    |e: Result<Option<(Text, Text)>, Text>| e == Ok::<Option<(Text, Text)>, Text>(None)
}

/// Lemma: a change of a file without an index entry stops there.
proof fn lemma_syncing_without_entry(job: SyncJobModel, root: Text, unchanged: bool)
    ensures
        script::never_after(
            git_run::syncing_entry(job, root, unchanged),
            untracked(),
            acts(),
        ),
{
    let bad = untracked();
    let p = git_flow::index_entry(job.dir, job.file);
    assert forall|mode: Text, relpath: Text|
        script::never_after(
            #[trigger] git_run::syncing_tip(job, root, mode, relpath),
            bad,
            acts(),
        ) by {
        lemma_tracked_once(job, root, mode, relpath);
    }
    script::lemma_never_after_harmless(p, bad, acts());
    script::lemma_never_after_bind(
        p,
        |e: Result<Option<(Text, Text)>, Text>|
            match e {
                Err(m) => git_run::failed(m),
                Ok(None) => Procedure::Done(OutcomeModel::SkippedUntracked),
                Ok(Some((mode, relpath))) => if unchanged {
                    git_run::pushing_rest(job.dir, root, relpath)
                } else {
                    git_run::syncing_tip(job, root, mode, relpath)
                },
            },
        bad,
        acts(),
        no_entry(),
    );
}

/// Lemma: a change of an untracked file stops there.
proof fn lemma_syncing_untracked(job: SyncJobModel)
    ensures
        script::never_after(git_run::syncing(job), untracked(), acts()),
{
    let bad = untracked();
    assert forall|root: Text|
        script::never_after(#[trigger] git_run::syncing_root(job, root), bad, acts()) by {
        lemma_syncing_without_entry(job, root, true);
        lemma_syncing_without_entry(job, root, false);
        assert(script::never_after(git_run::syncing_status(job, root), bad, acts()));
        assert(script::unbothered(git_flow::blocked(root), bad));
    }
}

/// Lemma: what an earlier session left behind of a file without an index entry
/// stays.
proof fn lemma_catching_up_without_entry(dir: Text, file: Text, root: Text, tip: Text)
    ensures
        script::never_after(
            git_run::catching_up_entry(dir, file, root, tip),
            untracked(),
            acts(),
        ),
{
    let bad = untracked();
    let p = git_flow::index_entry(dir, file);
    assert forall|relpath: Text|
        script::never_after(
            #[trigger] git_run::pushing_checked(dir, root, tip, relpath),
            bad,
            acts(),
        ) by {
        let q = git_run::pushing_checked(dir, root, tip, relpath);
        assert(script::unbothered(q, bad));
        script::lemma_never_after_unbothered(q, bad, acts());
    }
    script::lemma_never_after_harmless(p, bad, acts());
    script::lemma_never_after_bind(
        p,
        |e: Result<Option<(Text, Text)>, Text>|
            match e {
                Err(m) => git_run::failed(m),
                Ok(None) => Procedure::Done(OutcomeModel::SkippedUntracked),
                Ok(Some((_, relpath))) => git_run::pushing_checked(dir, root, tip, relpath),
            },
        bad,
        acts(),
        no_entry(),
    );
}

/// Lemma: what an earlier session left behind of an untracked file stays.
proof fn lemma_catching_up_untracked(dir: Text, file: Text)
    ensures
        script::never_after(git_run::catching_up(dir, file), untracked(), acts()),
{
    let bad = untracked();
    assert forall|root: Text|
        script::never_after(#[trigger] git_run::catching_up_root(dir, file, root), bad, acts()) by {
        assert forall|tip: Text|
            script::never_after(
                #[trigger] git_run::catching_up_entry(dir, file, root, tip),
                bad,
                acts(),
            ) by {
            lemma_catching_up_without_entry(dir, file, root, tip);
        }
        assert(script::unbothered(git_flow::blocked(root), bad));
    }
}

/// Law: a checklist that git does not track is never committed or pushed.
pub proof fn law_untracked_file_is_left_alone(job: JobModel)
    ensures
        script::never_after(git_run::performing(job), untracked(), acts()),
{
    match job {
        JobModel::Sync(change) => {
            lemma_syncing_untracked(change);
        },
        JobModel::Retry { dir, commit } => {
            assert(script::unbothered(git_run::performing(job), untracked()));
            script::lemma_never_after_unbothered(git_run::performing(job), untracked(), acts());
        },
        JobModel::CatchUp { dir, file } => {
            lemma_catching_up_untracked(dir, file);
        },
    }
}

/// The reply says that the commit the branch is at has `content` already.
pub open spec fn has_content(content: Text) -> spec_fn(StepModel, Reply) -> bool {
    |s: StepModel, r: Reply|
        s.action is ShowAt && git_flow::bytes_if_ok(r) == Some(vstd::utf8::encode_utf8(content))
}

/// The predicate "changes something in the repository".
pub open spec fn changes_repository() -> spec_fn(StepModel) -> bool {
    |s: StepModel| git_laws::alters(s)
}

/// Lemma: after the commit that the branch is at, no other is looked into for
/// its content.
#[verifier::rlimit(30)]
proof fn lemma_content_read_once(job: SyncJobModel, at: TargetModel)
    ensures
        script::never_after(
            git_run::syncing_disk(job, at),
            has_content(job.content),
            changes_repository(),
        ),
{
    let p = git_run::syncing_disk(job, at);
    assert(script::unbothered(p, has_content(job.content)));
    script::lemma_never_after_unbothered(p, has_content(job.content), changes_repository());
}

/// Lemma: pushing a commit that is there changes nothing in the repository.
proof fn lemma_push_changes_nothing(dir: Text, root: Text, tip: Text)
    ensures
        script::always(
            git_run::pushing_if_ahead(dir, root, tip),
            |s: StepModel| !changes_repository()(s),
        ),
{
}

/// Law: content that is committed already is not committed again.
pub proof fn law_committed_content_is_not_committed_again(job: SyncJobModel, at: TargetModel)
    ensures
        script::never_after(
            git_run::syncing_content(job, at),
            has_content(job.content),
            changes_repository(),
        ),
{
    let bad = has_content(job.content);
    lemma_content_read_once(job, at);
    if let Some(tip) = at.tip {
        let p = git_run::pushing_if_ahead(job.dir, at.root, tip);
        lemma_push_changes_nothing(job.dir, at.root, tip);
        script::lemma_never_after_harmless(p, bad, changes_repository());
        let found = git_flow::content_at(at.root, tip, at.relpath);
        script::lemma_never_after_harmless(found, bad, changes_repository());
        script::lemma_never_after_bind(
            found,
            |c: Option<Seq<u8>>|
                if c == Some(vstd::utf8::encode_utf8(job.content)) {
                    git_run::pushing_if_ahead(job.dir, at.root, tip)
                } else {
                    git_run::syncing_disk(job, at)
                },
            bad,
            changes_repository(),
            |c: Option<Seq<u8>>| c == Some(vstd::utf8::encode_utf8(job.content)),
        );
    }
}

} // verus!
