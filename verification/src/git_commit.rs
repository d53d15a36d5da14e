//! The procedures of git-sync: making a commit that changes the checklist and
//! nothing else, and taking it back where a hook put more into it.

use vstd::prelude::*;

use crate::git_flow::{
    ask_blob_at, ask_git_dir, ask_index_blob, current_branch_ref, current_head,
    descends_directly_from, failure_text, is_success, make_step, read_done, read_first_parent,
    repo_sync_blocked, staged_bytes, Text,
};
use crate::git_push::{is_text, range_has_unrelated_commits};
use crate::git_step::{Action, Reply, Step};
use crate::git_text::join_path;
use crate::script::{Modeled, Procedure, Script};
use crate::text::{copy_of, hash_bytes, join3, same_hash, ContentHash};
use crate::{git_flow, git_push, git_text, script, text};

verus! {

broadcast use script::group_run;

/// A commit to make: `blob` at `relpath`, with file mode `mode`, on top of
/// `parent`, by way of the temporary index `index`.
#[derive(Debug)]
pub struct CommitPlan {
    pub root: String,
    pub index: String,
    pub parent: Option<String>,
    pub mode: String,
    pub blob: String,
    pub relpath: String,
    pub message: String,
}

/// A commit to make, as a mathematical value.
pub struct PlanModel {
    pub root: Text,
    pub index: Text,
    pub parent: Option<Text>,
    pub mode: Text,
    pub blob: Text,
    pub relpath: Text,
    pub message: Text,
}

impl View for CommitPlan {
    type V = PlanModel;

    open spec fn view(&self) -> PlanModel {
        PlanModel {
            root: self.root@,
            index: self.index@,
            parent: self.parent.model(),
            mode: self.mode@,
            blob: self.blob@,
            relpath: self.relpath@,
            message: self.message@,
        }
    }
}

/// Whether two optional texts are the same.
fn same_option(a: &Option<String>, b: &Option<String>) -> (r: bool)
    ensures
        r == (a.model() == b.model()),
{
    match a {
        None => b.is_none(),
        Some(x) => is_text(b, x.as_str()),
    }
}

// ----- Taking a commit back --------------------------------------------

/// Moves the branch back by the commit `created`, which it has to be at: to
/// the first parent of that commit, or, where it has none, to no commit.
pub open spec fn undoing(root: Text, created: Text) -> Procedure<Result<(), Text>> {
    Procedure::Ask(
        git_flow::step_in(root, Action::ParentsOf { commit: created }),
        |r: Reply|
            if git_flow::succeeded(r) {
                match git_flow::first_parent(r) {
                    Some(target) => moving_head(root, target, created),
                    None => deleting_branch(root, created),
                }
            } else {
                Procedure::Done(Err(git_flow::failure("git rev-list"@, r)))
            },
    )
}

/// Moves `HEAD` from `created` to `target`.
pub open spec fn moving_head(root: Text, target: Text, created: Text) -> Procedure<
    Result<(), Text>,
> {
    Procedure::Ask(
        git_flow::step_in(root, Action::MoveHead { target, created }),
        |r: Reply| Procedure::Done(git_flow::done_or_failure("git update-ref"@, r)),
    )
}

/// Deletes the current branch, which has to be at `created`.
pub open spec fn deleting_branch(root: Text, created: Text) -> Procedure<Result<(), Text>> {
    script::bind(
        git_flow::branch_ref(root),
        |b: Option<Text>|
            match b {
                None => Procedure::Done(
                    Err("git-sync: could not resolve branch ref to undo root commit"@),
                ),
                Some(branch) => Procedure::Ask(
                    git_flow::step_in(root, Action::DeleteBranch { branch, created }),
                    |r: Reply| Procedure::Done(git_flow::done_or_failure("git update-ref"@, r)),
                ),
            },
    )
}

/// Moves the branch back by the commit `created`.
pub fn undo_commit(s: &mut Script, root: &str, created: &str) -> (r: Result<
    Result<(), String>,
    Step,
>)
    ensures
        script::follows(undoing(root@, created@), *old(s), *final(s), r),
{
    let before = match s.ask(make_step(root, Action::ParentsOf { commit: copy_of(created) })) {
        Err(step) => {
            return Err(step);
        },
        Ok(reply) => {
            if !is_success(reply) {
                return Ok(Err(failure_text("git rev-list", reply)));
            }
            read_first_parent(reply)
        },
    };
    let action = match before {
        Some(target) => Action::MoveHead { target, created: copy_of(created) },
        None => match current_branch_ref(s, root) {
            Err(step) => {
                return Err(step);
            },
            Ok(None) => {
                return Ok(
                    Err(copy_of("git-sync: could not resolve branch ref to undo root commit")),
                );
            },
            Ok(Some(branch)) => Action::DeleteBranch { branch, created: copy_of(created) },
        },
    };
    match s.ask(make_step(root, action)) {
        Err(step) => Err(step),
        Ok(reply) => Ok(read_done("git update-ref", reply)),
    }
}

/// Why a commit whose extent could not be looked at is left as it is.
pub open spec fn unverified_commit(created: Text, e: Text) -> Text {
    "git-sync: could not verify what commit "@ + created + " changed ("@ + e
        + "); it was made and left on the branch — check it before pushing"@
}

/// What is said of a commit that a hook put more into, once it was taken back
/// or that failed.
pub open spec fn hook_verdict(created: Text, undone: Result<(), Text>) -> Text {
    match undone {
        Ok(()) => {
            "git-sync: a commit hook modified files beyond the checklist; sync aborted"@
        },
        Err(e) => {
            "git-sync: a commit hook modified files beyond the checklist, and undoing the commit failed ("@
                + e + "); commit "@ + created + " may need manual cleanup"@
        },
    }
}

/// Makes sure that the commits from `parent` to `created` touch the checklist
/// and nothing else; otherwise takes `created` back.
pub open spec fn verifying(
    root: Text,
    parent: Option<Text>,
    relpath: Text,
    created: Text,
) -> Procedure<Result<(), Text>> {
    script::bind(
        git_push::unrelated(root, parent, created, relpath),
        |x: Result<bool, Text>|
            match x {
                Err(e) => Procedure::Done(Err(unverified_commit(created, e))),
                Ok(false) => Procedure::Done(Ok(())),
                Ok(true) => script::bind(
                    undoing(root, created),
                    |u: Result<(), Text>| Procedure::Done(Err(hook_verdict(created, u))),
                ),
            },
    )
}

/// Makes sure that the commits from `parent` to `created` touch the checklist
/// and nothing else; otherwise takes `created` back.
pub fn verify_commit_scope(
    s: &mut Script,
    root: &str,
    parent: &Option<String>,
    relpath: &str,
    created: &str,
) -> (r: Result<Result<(), String>, Step>)
    ensures
        script::follows(
            verifying(root@, parent.model(), relpath@, created@),
            *old(s),
            *final(s),
            r,
        ),
{
    match range_has_unrelated_commits(s, root, parent, created, relpath) {
        Err(step) => {
            return Err(step);
        },
        Ok(Err(e)) => {
            let msg = join3("git-sync: could not verify what commit ", created, " changed (").concat(
                e.as_str(),
            ).concat("); it was made and left on the branch — check it before pushing");
            return Ok(Err(msg));
        },
        Ok(Ok(found)) => {
            if !found {
                return Ok(Ok(()));
            }
        },
    }
    match undo_commit(s, root, created) {
        Err(step) => Err(step),
        Ok(Ok(())) => Ok(
            Err(
                copy_of("git-sync: a commit hook modified files beyond the checklist; sync aborted"),
            ),
        ),
        Ok(Err(e)) => {
            let msg = join3(
                "git-sync: a commit hook modified files beyond the checklist, and undoing the commit failed (",
                e.as_str(),
                "); commit ",
            ).concat(created).concat(" may need manual cleanup");
            Ok(Err(msg))
        },
    }
}

// ----- Making a commit -------------------------------------------------

/// Fills the temporary index from the parent, where there is one.
pub open spec fn filling(plan: PlanModel) -> Procedure<Result<(), Text>> {
    match plan.parent {
        None => Procedure::Done(Ok(())),
        Some(tree) => Procedure::Ask(
            git_flow::step_in(plan.root, Action::FillIndex { index: plan.index, tree }),
            |r: Reply| Procedure::Done(git_flow::done_or_failure("git read-tree"@, r)),
        ),
    }
}

/// Fills the temporary index from the parent, where there is one.
fn populate_temp_index(s: &mut Script, plan: &CommitPlan) -> (r: Result<Result<(), String>, Step>)
    ensures
        script::follows(filling(plan@), *old(s), *final(s), r),
{
    match &plan.parent {
        None => Ok(Ok(())),
        Some(tree) => {
            let action = Action::FillIndex { index: plan.index.clone(), tree: tree.clone() };
            match s.ask(make_step(plan.root.as_str(), action)) {
                Err(step) => Err(step),
                Ok(reply) => Ok(read_done("git read-tree", reply)),
            }
        },
    }
}

/// Puts the blob into the temporary index.
pub open spec fn staging(plan: PlanModel) -> Procedure<Result<(), Text>> {
    Procedure::Ask(
        git_flow::step_in(
            plan.root,
            Action::StageTemporary {
                index: plan.index,
                mode: plan.mode,
                blob: plan.blob,
                relpath: plan.relpath,
            },
        ),
        |r: Reply| Procedure::Done(git_flow::done_or_failure("git update-index"@, r)),
    )
}

/// Puts the blob into the temporary index.
fn stage_into_temp_index(s: &mut Script, plan: &CommitPlan) -> (r: Result<
    Result<(), String>,
    Step,
>)
    ensures
        script::follows(staging(plan@), *old(s), *final(s), r),
{
    let action = Action::StageTemporary {
        index: plan.index.clone(),
        mode: plan.mode.clone(),
        blob: plan.blob.clone(),
        relpath: plan.relpath.clone(),
    };
    match s.ask(make_step(plan.root.as_str(), action)) {
        Err(step) => Err(step),
        Ok(reply) => Ok(read_done("git update-index", reply)),
    }
}

/// Commits the temporary index and names the new commit. Where the command
/// took too long, the commit that `HEAD` is at afterwards counts only if it is
/// this one: it has the blob, and the parent and no other.
pub open spec fn committing(plan: PlanModel) -> Procedure<Result<Text, Text>> {
    Procedure::Ask(
        git_flow::step_in(plan.root, Action::Commit { index: plan.index, message: plan.message }),
        |r: Reply|
            if git_flow::succeeded(r) {
                naming_commit(plan)
            } else if r is TimedOut {
                finding_commit(plan, git_flow::failure("git commit"@, r))
            } else {
                Procedure::Done(Err(git_flow::failure("git commit"@, r)))
            },
    )
}

/// Names the commit that was made.
pub open spec fn naming_commit(plan: PlanModel) -> Procedure<Result<Text, Text>> {
    script::bind(
        git_flow::head(plan.root),
        |h: Option<Text>|
            Procedure::Done(
                match h {
                    Some(commit) => Ok(commit),
                    None => Err("git-sync: could not resolve HEAD after commit"@),
                },
            ),
    )
}

/// Finds the commit that was made although the command took too long.
pub open spec fn finding_commit(plan: PlanModel, error: Text) -> Procedure<Result<Text, Text>> {
    script::bind(
        git_flow::head(plan.root),
        |h: Option<Text>|
            match h {
                None => Procedure::Done(Err(error)),
                Some(commit) => if plan.parent == Some(commit) {
                    Procedure::Done(Err(error))
                } else {
                    script::bind(
                        git_flow::blob_at(plan.root, commit, plan.relpath),
                        |b: Option<Text>|
                            if b == Some(plan.blob) {
                                script::bind(
                                    git_flow::child_of(plan.root, commit, plan.parent),
                                    |own: bool|
                                        Procedure::Done(
                                            if own {
                                                Ok(commit)
                                            } else {
                                                Err(error)
                                            },
                                        ),
                                )
                            } else {
                                Procedure::Done(Err(error))
                            },
                    )
                },
            },
    )
}

/// Finds the commit that was made although the command took too long.
fn find_timed_out_commit(s: &mut Script, plan: &CommitPlan, error: String) -> (r: Result<
    Result<String, String>,
    Step,
>)
    ensures
        script::follows(finding_commit(plan@, error@), *old(s), *final(s), r),
{
    let commit = match current_head(s, plan.root.as_str()) {
        Err(step) => {
            return Err(step);
        },
        Ok(None) => {
            return Ok(Err(error));
        },
        Ok(Some(commit)) => commit,
    };
    if is_text(&plan.parent, commit.as_str()) {
        return Ok(Err(error));
    }
    match ask_blob_at(s, plan.root.as_str(), commit.as_str(), plan.relpath.as_str()) {
        Err(step) => {
            return Err(step);
        },
        Ok(blob) => {
            if !is_text(&blob, plan.blob.as_str()) {
                return Ok(Err(error));
            }
        },
    }
    match descends_directly_from(s, plan.root.as_str(), commit.as_str(), &plan.parent) {
        Err(step) => Err(step),
        Ok(own) => {
            if own {
                Ok(Ok(commit))
            } else {
                Ok(Err(error))
            }
        },
    }
}

/// Commits the temporary index and names the new commit.
pub fn commit_temp_index(s: &mut Script, plan: &CommitPlan) -> (r: Result<
    Result<String, String>,
    Step,
>)
    ensures
        script::follows(committing(plan@), *old(s), *final(s), r),
{
    let action = Action::Commit { index: plan.index.clone(), message: plan.message.clone() };
    let (made, late, error) = match s.ask(make_step(plan.root.as_str(), action)) {
        Err(step) => {
            return Err(step);
        },
        Ok(reply) => {
            let late = match reply {
                Reply::TimedOut(_) => true,
                _ => false,
            };
            (is_success(reply), late, failure_text("git commit", reply))
        },
    };
    if made {
        match current_head(s, plan.root.as_str()) {
            Err(step) => Err(step),
            Ok(Some(commit)) => Ok(Ok(commit)),
            Ok(None) => Ok(Err(copy_of("git-sync: could not resolve HEAD after commit"))),
        }
    } else if late {
        find_timed_out_commit(s, plan, error)
    } else {
        Ok(Err(error))
    }
}

/// Brings the repository's own index into line with the commit, for this one
/// path, if nobody staged anything there since; how that went does not matter.
pub open spec fn aligning(plan: PlanModel, before: Option<Text>) -> Procedure<()> {
    script::bind(
        git_flow::index_blob(plan.root, plan.relpath),
        |b: Option<Text>|
            if b == before {
                Procedure::Ask(
                    git_flow::step_in(
                        plan.root,
                        Action::StageReal {
                            mode: plan.mode,
                            blob: plan.blob,
                            relpath: plan.relpath,
                        },
                    ),
                    |r: Reply| Procedure::Done(()),
                )
            } else {
                Procedure::Done(())
            },
    )
}

/// Brings the repository's own index into line with the commit.
fn align_real_index_entry(s: &mut Script, plan: &CommitPlan, before: &Option<String>) -> (r: Result<
    (),
    Step,
>)
    ensures
        script::follows(aligning(plan@, before.model()), *old(s), *final(s), r),
{
    match ask_index_blob(s, plan.root.as_str(), plan.relpath.as_str()) {
        Err(step) => {
            return Err(step);
        },
        Ok(blob) => {
            if !same_option(&blob, before) {
                return Ok(());
            }
        },
    }
    let action = Action::StageReal {
        mode: plan.mode.clone(),
        blob: plan.blob.clone(),
        relpath: plan.relpath.clone(),
    };
    match s.ask(make_step(plan.root.as_str(), action)) {
        Err(step) => Err(step),
        Ok(_) => Ok(()),
    }
}

/// Makes the commit: fills the temporary index, makes sure that nothing moved
/// and nothing forbids a commit, commits, makes sure of the commit's extent.
pub open spec fn building(plan: PlanModel, before: Option<Text>) -> Procedure<
    Result<Text, Text>,
> {
    script::bind(
        filling(plan),
        |f: Result<(), Text>|
            match f {
                Err(e) => Procedure::Done(Err(e)),
                Ok(()) => script::bind(
                    staging(plan),
                    |g: Result<(), Text>|
                        match g {
                            Err(e) => Procedure::Done(Err(e)),
                            Ok(()) => building_staged(plan, before),
                        },
                ),
            },
    )
}

/// As `building`, once the temporary index holds what is to be committed.
pub open spec fn building_staged(plan: PlanModel, before: Option<Text>) -> Procedure<
    Result<Text, Text>,
> {
    script::bind(
        git_flow::head(plan.root),
        |h: Option<Text>|
            if h != plan.parent {
                Procedure::Done(Err("git-sync: repository changed during sync, will retry"@))
            } else {
                script::bind(
                    git_flow::blocked(plan.root),
                    |b: Option<Text>|
                        match b {
                            Some(reason) => Procedure::Done(Err(reason)),
                            None => building_allowed(plan, before),
                        },
                )
            },
    )
}

/// As `building`, once nothing speaks against the commit.
pub open spec fn building_allowed(plan: PlanModel, before: Option<Text>) -> Procedure<
    Result<Text, Text>,
> {
    script::bind(
        committing(plan),
        |c: Result<Text, Text>|
            match c {
                Err(e) => Procedure::Done(Err(e)),
                Ok(created) => building_verified(plan, before, created),
            },
    )
}

/// As `building`, once the commit is made.
pub open spec fn building_verified(
    plan: PlanModel,
    before: Option<Text>,
    created: Text,
) -> Procedure<Result<Text, Text>> {
    script::bind(
        verifying(plan.root, plan.parent, plan.relpath, created),
        |v: Result<(), Text>|
            match v {
                Err(e) => Procedure::Done(Err(e)),
                Ok(()) => script::bind(
                    aligning(plan, before),
                    |u: ()| Procedure::Done(Ok(created)),
                ),
            },
    )
}

/// Makes the commit, once nothing speaks against it.
fn build_allowed(s: &mut Script, plan: &CommitPlan, before: &Option<String>) -> (r: Result<
    Result<String, String>,
    Step,
>)
    ensures
        script::follows(building_allowed(plan@, before.model()), *old(s), *final(s), r),
{
    let created = match commit_temp_index(s, plan) {
        Err(step) => {
            return Err(step);
        },
        Ok(Err(e)) => {
            return Ok(Err(e));
        },
        Ok(Ok(created)) => created,
    };
    match verify_commit_scope(
        s,
        plan.root.as_str(),
        &plan.parent,
        plan.relpath.as_str(),
        created.as_str(),
    ) {
        Err(step) => {
            return Err(step);
        },
        Ok(Err(e)) => {
            return Ok(Err(e));
        },
        Ok(Ok(())) => {},
    }
    match align_real_index_entry(s, plan, before) {
        Err(step) => Err(step),
        Ok(()) => Ok(Ok(created)),
    }
}

/// Makes the commit, once the temporary index holds what is to be committed.
fn build_staged(s: &mut Script, plan: &CommitPlan, before: &Option<String>) -> (r: Result<
    Result<String, String>,
    Step,
>)
    ensures
        script::follows(building_staged(plan@, before.model()), *old(s), *final(s), r),
{
    match current_head(s, plan.root.as_str()) {
        Err(step) => {
            return Err(step);
        },
        Ok(head) => {
            if !same_option(&head, &plan.parent) {
                return Ok(Err(copy_of("git-sync: repository changed during sync, will retry")));
            }
        },
    }
    match repo_sync_blocked(s, plan.root.as_str()) {
        Err(step) => Err(step),
        Ok(Some(reason)) => Ok(Err(reason)),
        Ok(None) => build_allowed(s, plan, before),
    }
}

/// Makes the commit.
fn build_commit(s: &mut Script, plan: &CommitPlan, before: &Option<String>) -> (r: Result<
    Result<String, String>,
    Step,
>)
    ensures
        script::follows(building(plan@, before.model()), *old(s), *final(s), r),
{
    match populate_temp_index(s, plan) {
        Err(step) => {
            return Err(step);
        },
        Ok(Err(e)) => {
            return Ok(Err(e));
        },
        Ok(Ok(())) => {},
    }
    match stage_into_temp_index(s, plan) {
        Err(step) => Err(step),
        Ok(Err(e)) => Ok(Err(e)),
        Ok(Ok(())) => build_staged(s, plan, before),
    }
}

/// Makes the commit by way of a temporary index, which is removed again
/// whatever the commit came to.
pub open spec fn committing_by_index(plan: PlanModel) -> Procedure<Result<Text, Text>> {
    script::bind(
        git_flow::index_blob(plan.root, plan.relpath),
        |before: Option<Text>| committing_and_removing(plan, before),
    )
}

/// As `committing_by_index`, once it is known what the repository's own index
/// has.
pub open spec fn committing_and_removing(plan: PlanModel, before: Option<Text>) -> Procedure<
    Result<Text, Text>,
> {
    script::bind(building(plan, before), |c: Result<Text, Text>| removing_index(plan, c))
}

/// Removes the temporary index and gives `result`.
pub open spec fn removing_index(plan: PlanModel, result: Result<Text, Text>) -> Procedure<
    Result<Text, Text>,
> {
    Procedure::Ask(
        git_flow::step_in(plan.root, Action::RemoveIndex { index: plan.index }),
        |r: Reply| Procedure::Done(result),
    )
}

/// As `committing_by_index`, with the temporary index named `index_name` in
/// the git directory; `plan.index` is not looked at.
pub open spec fn committing_in_git_dir(plan: PlanModel, index_name: Text) -> Procedure<
    Result<Text, Text>,
> {
    script::bind(
        git_flow::git_dir(plan.root),
        |d: Option<Text>|
            match d {
                None => Procedure::Done(Err("git-sync: could not resolve git-dir"@)),
                Some(dir) => committing_by_index(
                    PlanModel { index: git_text::joined_path(dir, index_name), ..plan },
                ),
            },
    )
}

/// Makes the commit by way of a temporary index.
fn commit_by_index(s: &mut Script, plan: &CommitPlan) -> (r: Result<Result<String, String>, Step>)
    ensures
        script::follows(committing_by_index(plan@), *old(s), *final(s), r),
{
    let before = match ask_index_blob(s, plan.root.as_str(), plan.relpath.as_str()) {
        Err(step) => {
            return Err(step);
        },
        Ok(before) => before,
    };
    let result = match build_commit(s, plan, &before) {
        Err(step) => {
            return Err(step);
        },
        Ok(result) => result,
    };
    let action = Action::RemoveIndex { index: plan.index.clone() };
    match s.ask(make_step(plan.root.as_str(), action)) {
        Err(step) => Err(step),
        Ok(_) => Ok(result),
    }
}

/// Makes the commit by way of a temporary index named `index_name` in the git
/// directory.
pub fn commit_via_temp_index(s: &mut Script, plan: CommitPlan, index_name: &str) -> (r: Result<
    Result<String, String>,
    Step,
>)
    ensures
        script::follows(
            committing_in_git_dir(plan@, index_name@),
            *old(s),
            *final(s),
            r,
        ),
{
    match ask_git_dir(s, plan.root.as_str()) {
        Err(step) => Err(step),
        Ok(None) => Ok(Err(copy_of("git-sync: could not resolve git-dir"))),
        Ok(Some(dir)) => {
            let index = join_path(dir.as_str(), index_name);
            let placed = CommitPlan { index, ..plan };
            commit_by_index(s, &placed)
        },
    }
}

// ----- What is staged --------------------------------------------------

/// Whether a commit would lose a staged version of the checklist: one that is
/// neither the committed one nor, as far as can be told, the one that the file
/// had before the change.
pub open spec fn staged_lost(
    root: Text,
    relpath: Text,
    committed: Option<Text>,
    previous: Option<ContentHash>,
) -> Procedure<bool> {
    script::bind(
        git_flow::index_blob(root, relpath),
        |b: Option<Text>|
            if b == committed {
                Procedure::Done(false)
            } else {
                match previous {
                    None => Procedure::Done(true),
                    Some(hash) => script::bind(
                        git_flow::staged_content(root, relpath),
                        |c: Option<Seq<u8>>|
                            Procedure::Done(
                                match c {
                                    Some(bytes) => text::content_hash(bytes) != hash,
                                    None => true,
                                },
                            ),
                    ),
                }
            },
    )
}

/// Asks whether a commit would lose a staged version of the checklist.
pub fn staged_target_would_be_lost(
    s: &mut Script,
    root: &str,
    relpath: &str,
    committed: &Option<String>,
    previous: Option<ContentHash>,
) -> (r: Result<bool, Step>)
    ensures
        script::follows(
            staged_lost(root@, relpath@, committed.model(), previous),
            *old(s),
            *final(s),
            r,
        ),
{
    match ask_index_blob(s, root, relpath) {
        Err(step) => {
            return Err(step);
        },
        Ok(blob) => {
            if same_option(&blob, committed) {
                return Ok(false);
            }
        },
    }
    let hash = match previous {
        None => {
            return Ok(true);
        },
        Some(hash) => hash,
    };
    match staged_bytes(s, root, relpath) {
        Err(step) => Err(step),
        Ok(Some(bytes)) => Ok(!same_hash(&hash_bytes(bytes.as_slice()), &hash)),
        Ok(None) => Ok(true),
    }
}

} // verus!
