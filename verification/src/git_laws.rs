//! What git-sync keeps to, whatever git answers.

use vstd::prelude::*;

use crate::git_commit::PlanModel;
use crate::git_flow::Text;
use crate::git_run::{JobModel, SyncJobModel, TargetModel};
use crate::git_step::{Action, StepModel};
use crate::script::Procedure;
use crate::{git_commit, git_push, git_run, git_text, script};

verus! {

broadcast use script::group_always;

// ----- Kinds of steps --------------------------------------------------

/// The step makes a commit, or moves a branch, or changes an index.
pub open spec fn alters(s: StepModel) -> bool {
    match s.action {
        Action::Commit { .. } => true,
        Action::FillIndex { .. } => true,
        Action::StageTemporary { .. } => true,
        Action::RemoveIndex { .. } => true,
        Action::StageReal { .. } => true,
        Action::MoveHead { .. } => true,
        Action::DeleteBranch { .. } => true,
        _ => false,
    }
}

/// The predicate "does not commit, move a branch or change an index".
pub open spec fn keeps_repository() -> spec_fn(StepModel) -> bool {
    |s: StepModel| !alters(s)
}

/// The predicate "only looks": neither changes the repository nor pushes.
pub open spec fn only_looks() -> spec_fn(StepModel) -> bool {
    |s: StepModel| !alters(s) && !(s.action is Push)
}

/// The predicate "pushes, if it does, a commit that has a name".
pub open spec fn pushes_named() -> spec_fn(StepModel) -> bool {
    |s: StepModel| s.action matches Action::Push { commit, .. } ==> commit.len() > 0
}

/// The predicate "pushes, if it does, `commit`".
pub open spec fn pushes_only(commit: Text) -> spec_fn(StepModel) -> bool {
    |s: StepModel| s.action matches Action::Push { commit: c, .. } ==> c == commit
}

// ----- Pushing never commits -------------------------------------------

/// Pushing what an earlier session left behind never makes a commit, and
/// changes nothing in the repository.
pub proof fn law_catch_up_never_commits(dir: Text, file: Text)
    ensures
        script::always(git_run::catching_up(dir, file), keeps_repository()),
{
}

/// Pushing a commit again never makes a commit, changes nothing in the
/// repository, and pushes that commit and no other.
pub proof fn law_retry_pushes_only_its_commit(dir: Text, commit: Text)
    ensures
        script::always(git_push::retrying(dir, commit), keeps_repository()),
        script::always(git_push::retrying(dir, commit), pushes_only(commit)),
{
}

/// No job pushes without naming the commit. (A push without one would delete
/// the branch.)
pub proof fn law_only_named_commits_are_pushed(job: JobModel)
    ensures
        script::always(git_run::performing(job), pushes_named()),
{
}

/// Taking a commit back moves a branch only if it is at that commit.
pub proof fn law_undoing_moves_only_from_its_commit(root: Text, created: Text)
    ensures
        script::always(
            git_commit::undoing(root, created),
            |s: StepModel|
                match s.action {
                    Action::MoveHead { created: c, .. } => c == created,
                    Action::DeleteBranch { created: c, .. } => c == created,
                    _ => only_looks()(s),
                },
        ),
{
}

// ----- The repository's own index --------------------------------------

/// The predicate "makes a commit".
pub open spec fn commits() -> spec_fn(StepModel) -> bool {
    |s: StepModel| s.action is Commit
}

/// The predicate "changes the repository's own index, or moves a branch".
pub open spec fn touches_own_state() -> spec_fn(StepModel) -> bool {
    |s: StepModel|
        s.action is StageReal || s.action is MoveHead || s.action is DeleteBranch
}

/// The repository's own index and branches are left alone until the commit is
/// made from the temporary one.
pub proof fn law_own_index_is_untouched_before_the_commit(job: JobModel)
    ensures
        script::only_after(git_run::performing(job), commits(), touches_own_state()),
{
    broadcast use script::group_only_after;

}

/// The predicate "pushes something else than `tip`".
pub open spec fn pushes_other(tip: Option<Text>) -> spec_fn(StepModel) -> bool {
    |s: StepModel| s.action matches Action::Push { commit, .. } && Some(commit) != tip
}

/// The predicate "is an error".
pub open spec fn is_error() -> spec_fn(Result<Text, Text>) -> bool {
    |r: Result<Text, Text>| r is Err
}

/// Lemma: a commit that is reported was asked for.
proof fn lemma_reported_commit_was_made(plan: PlanModel, index_name: Text)
    ensures
        script::unless_asked(
            git_commit::committing_in_git_dir(plan, index_name),
            commits(),
            is_error(),
        ),
{
    broadcast use script::group_unless_asked;

    let first = commits();
    assert forall|p: PlanModel, before: Option<Text>| script::unless_asked(
        #[trigger] git_commit::building_allowed(p, before),
        first,
        is_error(),
    ) by {
        let k = |c: Result<Text, Text>|
            match c {
                Err(e) => Procedure::Done(Err(e)),
                Ok(created) => git_commit::building_verified(p, before, created),
            };
        script::lemma_unless_asked_bind_if(
            git_commit::committing(p),
            k,
            first,
            |r: Result<Text, Text>| false,
            is_error(),
        );
    }
    assert forall|p: PlanModel, before: Option<Text>| script::unless_asked(
        #[trigger] git_commit::committing_and_removing(p, before),
        first,
        is_error(),
    ) by {
        assert(script::unless_asked(git_commit::building(p, before), first, is_error()));
        script::lemma_unless_asked_bind_if(
            git_commit::building(p, before),
            |c: Result<Text, Text>| git_commit::removing_index(p, c),
            first,
            is_error(),
            is_error(),
        );
    }
}

/// Until a commit is made, nothing is pushed but the commit that the branch
/// was at when its history was looked at.
pub proof fn law_only_the_checked_tip_is_pushed(job: SyncJobModel, at: TargetModel)
    ensures
        script::only_after(git_run::syncing_content(job, at), commits(), pushes_other(at.tip)),
{
    broadcast use script::group_only_after;

    assert forall|blob: Text| script::only_after(
        #[trigger] git_run::syncing_blob(job, at, blob),
        commits(),
        pushes_other(at.tip),
    ) by {
        let plan = git_run::planned(job, at, blob);
        lemma_reported_commit_was_made(plan, job.index_name);
        script::lemma_only_after_bind_if(
            git_commit::committing_in_git_dir(plan, job.index_name),
            |c: Result<Text, Text>|
                match c {
                    Err(e) => git_run::failed(e),
                    Ok(created) => git_push::pushing_if_current(job.dir, at.root, created),
                },
            commits(),
            pushes_other(at.tip),
            is_error(),
        );
    }
}

// ----- What a commit is made of ----------------------------------------

/// The predicate "stores, if it does, the content of the change, and commits,
/// if it does, with its message".
pub open spec fn is_of_change(job: SyncJobModel) -> spec_fn(StepModel) -> bool {
    |s: StepModel|
        match s.action {
            Action::StoreBlob { content } => content == job.content,
            Action::Commit { message, .. } => message == job.message,
            _ => true,
        }
}

/// A change is committed with the content and the message that were asked for.
pub proof fn law_change_is_committed_as_asked(job: SyncJobModel)
    ensures
        script::always(git_run::syncing(job), is_of_change(job)),
{
}

/// `index` is the temporary index of the given name, in some directory.
pub open spec fn is_index_named(index: Text, name: Text) -> bool {
    exists|dir: Text| index == #[trigger] git_text::joined_path(dir, name)
}

/// The predicate "is what the plan says": an index gets the planned blob, mode
/// and path, a temporary index is filled from the parent, the commit gets the
/// message, and the temporary index is the one of the given name.
pub open spec fn is_of_plan(plan: PlanModel, index_name: Text) -> spec_fn(StepModel) -> bool {
    |s: StepModel|
        match s.action {
            Action::FillIndex { index, tree } => {
                &&& Some(tree) == plan.parent
                &&& is_index_named(index, index_name)
            },
            Action::StageTemporary { index, mode, blob, relpath } => {
                &&& mode == plan.mode
                &&& blob == plan.blob
                &&& relpath == plan.relpath
                &&& is_index_named(index, index_name)
            },
            Action::Commit { index, message } => {
                &&& message == plan.message
                &&& is_index_named(index, index_name)
            },
            Action::RemoveIndex { index } => is_index_named(index, index_name),
            Action::StageReal { mode, blob, relpath } => {
                &&& mode == plan.mode
                &&& blob == plan.blob
                &&& relpath == plan.relpath
            },
            _ => true,
        }
}

/// A commit is made as it was planned.
pub proof fn law_commit_is_made_as_planned(plan: PlanModel, index_name: Text)
    ensures
        script::always(
            git_commit::committing_in_git_dir(plan, index_name),
            is_of_plan(plan, index_name),
        ),
{
}

// ----- The temporary index ---------------------------------------------

/// The predicate "uses a temporary index".
pub open spec fn uses_index() -> spec_fn(StepModel) -> bool {
    |s: StepModel|
        s.action is FillIndex || s.action is StageTemporary || s.action is Commit
}

/// The predicate "removes a temporary index".
pub open spec fn removes_index() -> spec_fn(StepModel) -> bool {
    |s: StepModel| s.action is RemoveIndex
}

/// Lemma: making a commit by way of a temporary index removes it again.
proof fn lemma_index_is_removed(plan: PlanModel, before: Option<Text>)
    ensures
        script::closed_in_the_end(
            git_commit::committing_and_removing(plan, before),
            uses_index(),
            removes_index(),
            false,
        ),
{
    let o = uses_index();
    let c = removes_index();
    let k = |r: Result<Text, Text>| git_commit::removing_index(plan, r);
    assert forall|v: Result<Text, Text>|
        script::closed_in_the_end(#[trigger] k(v), o, c, false) && script::closed_in_the_end(
            k(v),
            o,
            c,
            true,
        ) by {
        broadcast use script::group_closed;

    }
    script::lemma_closed_by_next(git_commit::building(plan, before), k, o, c, false);
}

/// A temporary index that a job uses is removed again, whatever the job comes
/// to.
pub proof fn law_temporary_index_is_removed(job: JobModel)
    ensures
        script::closed_in_the_end(
            git_run::performing(job),
            uses_index(),
            removes_index(),
            false,
        ),
{
    broadcast use script::group_closed;

    assert forall|plan: PlanModel, before: Option<Text>| script::closed_in_the_end(
        #[trigger] git_commit::committing_and_removing(plan, before),
        uses_index(),
        removes_index(),
        false,
    ) by {
        lemma_index_is_removed(plan, before);
    }
}

} // verus!
