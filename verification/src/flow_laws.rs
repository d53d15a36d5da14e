//! What git-sync asks for step by step, and what it comes to by the replies.

use vstd::prelude::*;

use crate::git_commit::PlanModel;
use crate::git_flow::{OutcomeModel, Text};
use crate::git_push::Ahead;
use crate::git_run::{JobModel, SyncJobModel, TargetModel};
use crate::git_step::{Action, Reply, StepModel};
use crate::script::{run, Procedure, Progress};
use crate::text::ContentHash;
use crate::{git_commit, git_flow, git_push, git_run, git_sync, git_text, script, text};

verus! {

broadcast use script::group_run;

/// The command succeeded.
pub open spec fn went_well(r: Reply) -> bool {
    r matches Reply::Ran(output) && output.success
}

/// The command succeeded and printed `t`, white space around it aside.
pub open spec fn says(r: Reply, t: Text) -> bool {
    r matches Reply::Ran(output) && output.success && git_text::trim(
        git_text::lossy_text(output.stdout@),
    ) == t
}

/// The command ended with exit code 1, by which it says that there is nothing.
pub open spec fn says_none(r: Reply) -> bool {
    r matches Reply::Ran(output) && !output.success && output.code == Some(1i32)
}

/// On the replies given, `p` asks for the action, in the directory `dir`.
pub open spec fn asks<T>(
    p: Procedure<T>,
    replies: Seq<Reply>,
    dir: Text,
    action: Action<Text>,
) -> bool {
    run(p, replies, 0) == Progress::<T>::Asks(StepModel { dir, action })
}

/// On the replies given, and no fewer, `p` comes to `v`.
pub open spec fn gives<T>(p: Procedure<T>, replies: Seq<Reply>, v: T) -> bool {
    run(p, replies, 0) == Progress::<T>::Gives(v, replies.len() as int)
}

// ----- Questions -------------------------------------------------------

/// Law: what is asked of git about the work tree, the branch and the commits, and
/// that the answer is what it prints.
pub proof fn law_questions_about_the_repository(dir: Text, tip: Text, r: Reply, t: Text)
    ensures
        asks(git_flow::toplevel(dir), seq![], dir, Action::ShowToplevel),
        asks(git_flow::git_dir(dir), seq![], dir, Action::GitDir),
        asks(git_flow::branch_ref(dir), seq![], dir, Action::SymbolicRef),
        asks(git_flow::head(dir), seq![], dir, Action::Head),
        asks(git_flow::parent(dir), seq![], dir, Action::VerifyHead),
        asks(git_flow::upstream(dir), seq![], dir, Action::VerifyUpstream),
        asks(git_flow::count_ahead(dir, tip), seq![], dir, Action::CountAhead { tip }),
        asks(git_flow::config(dir, tip), seq![], dir, Action::Config { key: tip }),
        asks(git_sync::detecting(dir), seq![], dir, Action::InsideWorkTree),
        says(r, t) ==> gives(git_flow::toplevel(dir), seq![r], Ok(t)),
        says(r, t) ==> gives(
            git_flow::git_dir(dir),
            seq![r],
            Some(git_text::joined_path(dir, t)),
        ),
        says(r, t) ==> gives(git_flow::branch_ref(dir), seq![r], Some(t)),
        says(r, t) ==> gives(git_flow::head(dir), seq![r], Some(t)),
        says(r, t) ==> gives(git_flow::parent(dir), seq![r], Ok(Some(t))),
        says(r, t) ==> gives(git_flow::upstream(dir), seq![r], Ok(Some(t))),
        says(r, t) ==> gives(
            git_flow::count_ahead(dir, tip),
            seq![r],
            git_text::parsed_number(t),
        ),
        says(r, t) ==> gives(git_flow::config(dir, tip), seq![r], Some(t)),
        says(r, t) ==> gives(git_sync::detecting(dir), seq![r], t == "true"@),
        says_none(r) ==> gives(git_flow::parent(dir), seq![r], Ok(None)),
        says_none(r) ==> gives(git_flow::upstream(dir), seq![r], Ok(None)),
        !went_well(r) ==> gives(git_flow::git_dir(dir), seq![r], None),
        !went_well(r) ==> gives(git_flow::branch_ref(dir), seq![r], None),
        !went_well(r) ==> gives(git_flow::head(dir), seq![r], None),
        !went_well(r) ==> gives(git_flow::count_ahead(dir, tip), seq![r], None),
        !went_well(r) ==> gives(git_flow::config(dir, tip), seq![r], None),
        !went_well(r) ==> gives(git_sync::detecting(dir), seq![r], false),
{
}

/// Law: what is asked of git about the file, and that the answer is what it
/// prints.
pub proof fn law_questions_about_the_file(root: Text, commit: Text, path: Text, r: Reply, t: Text)
    ensures
        asks(git_flow::index_entry(root, path), seq![], root, Action::IndexEntry { path }),
        asks(git_flow::index_blob(root, path), seq![], root, Action::IndexBlob { relpath: path }),
        asks(
            git_flow::blob_at(root, commit, path),
            seq![],
            root,
            Action::BlobAt { commit, relpath: path },
        ),
        asks(
            git_flow::content_at(root, commit, path),
            seq![],
            root,
            Action::ShowAt { commit, relpath: path },
        ),
        asks(
            git_flow::staged_content(root, path),
            seq![],
            root,
            Action::ShowStaged { relpath: path },
        ),
        asks(git_flow::store_blob(root, path), seq![], root, Action::StoreBlob { content: path }),
        gives(git_flow::index_entry(root, path), seq![r], git_flow::entry_of(r)),
        gives(git_flow::index_blob(root, path), seq![r], git_flow::entry_blob(r)),
        says(r, t) ==> gives(git_flow::blob_at(root, commit, path), seq![r], Some(t)),
        says(r, t) ==> gives(git_flow::store_blob(root, path), seq![r], Ok(t)),
        went_well(r) ==> gives(
            git_flow::content_at(root, commit, path),
            seq![r],
            Some(r->Ran_0.stdout@),
        ),
        went_well(r) ==> gives(
            git_flow::staged_content(root, path),
            seq![r],
            Some(r->Ran_0.stdout@),
        ),
        !went_well(r) ==> gives(git_flow::blob_at(root, commit, path), seq![r], None),
        !went_well(r) ==> gives(git_flow::content_at(root, commit, path), seq![r], None),
        !went_well(r) ==> gives(git_flow::staged_content(root, path), seq![r], None),
{
}

/// Law: a repository is fit for a commit where no work is unfinished, a branch is
/// checked out and there are no conflicts; anything of that makes it unfit.
pub proof fn law_fit_for_a_commit(root: Text, d: Reply, dir: Text, w: Reply, h: Reply, c: Reply)
    requires
        says(d, dir),
    ensures
        ({
            let p = git_flow::blocked(root);
            let found = git_text::joined_path(root, dir);
            &&& asks(p, seq![], root, Action::GitDir)
            &&& asks(p, seq![d], root, Action::ProbeMarkers { git_dir: found })
            &&& git_flow::unfinished_work(w) is Some ==> gives(
                p,
                seq![d, w],
                git_flow::unfinished_work(w),
            )
            &&& git_flow::unfinished_work(w) is None ==> {
                &&& asks(p, seq![d, w], root, Action::SymbolicRef)
                &&& !went_well(h) ==> gives(
                    p,
                    seq![d, w, h],
                    Some("git-sync: repository is in a detached HEAD state"@),
                )
                &&& went_well(h) ==> asks(p, seq![d, w, h], root, Action::UnmergedFiles)
                &&& went_well(h) && went_well(c) && c->Ran_0.stdout@.len() > 0 ==> gives(
                    p,
                    seq![d, w, h, c],
                    Some("git-sync: repository has unresolved merge conflicts"@),
                )
                &&& went_well(h) && (!went_well(c) || c->Ran_0.stdout@.len() == 0) ==> gives(
                    p,
                    seq![d, w, h, c],
                    None,
                )
            }
        }),
{
}

/// Law: where the git directory is not known, nothing there speaks against a
/// commit.
pub proof fn law_unknown_git_dir_is_fit(root: Text, d: Reply)
    requires
        !went_well(d),
    ensures
        gives(git_flow::blocked(root), seq![d], None),
{
}

// ----- Pushing ---------------------------------------------------------

/// Law: where a commit is pushed to is what is configured for the branch that is
/// checked out.
pub proof fn law_upstream_is_the_configured_one(
    dir: Text,
    name: Text,
    b: Reply,
    r: Reply,
    remote: Text,
    m: Reply,
    branch: Text,
)
    requires
        says(b, "refs/heads/"@ + name),
    ensures
        ({
            let p = git_push::upstream_parts(dir);
            &&& asks(p, seq![], dir, Action::SymbolicRef)
            &&& asks(p, seq![b], dir, Action::Config { key: "branch."@ + name + ".remote"@ })
            &&& !went_well(r) ==> gives(p, seq![b, r], None)
            &&& says(r, remote) ==> asks(
                p,
                seq![b, r],
                dir,
                Action::Config { key: "branch."@ + name + ".merge"@ },
            )
            &&& says(r, remote) && !went_well(m) ==> gives(p, seq![b, r, m], None)
            &&& says(r, remote) && says(m, branch) ==> gives(
                p,
                seq![b, r, m],
                Some((remote, branch)),
            )
        }),
{
    let full = "refs/heads/"@ + name;
    assert(full.take("refs/heads/"@.len() as int) =~= "refs/heads/"@);
    assert(full.skip("refs/heads/"@.len() as int) =~= name);
}

/// Law: where no branch is checked out there is nowhere to push to.
pub proof fn law_no_branch_no_upstream(dir: Text, b: Reply, full: Text)
    ensures
        !went_well(b) ==> gives(git_push::upstream_parts(dir), seq![b], None),
        says(b, full) && !("refs/heads/"@.is_prefix_of(full)) ==> gives(
            git_push::upstream_parts(dir),
            seq![b],
            None,
        ),
{
    let prefix = "refs/heads/"@;
    if full.len() >= prefix.len() && full.take(prefix.len() as int) == prefix {
        assert(prefix =~= full.subrange(0, prefix.len() as int));
    }
}

/// Law: a commit is pushed to where its branch is configured to go: it is synced
/// if that succeeds, and stays to be pushed if it does not, or there is nowhere
/// to push to. Nothing is pushed without a commit.
pub proof fn law_pushing_a_commit(
    dir: Text,
    commit: Text,
    replies: Seq<Reply>,
    n: int,
    remote: Text,
    branch: Text,
)
    requires
        commit.len() > 0,
    ensures
        run(git_push::upstream_parts(dir), replies, 0) == Progress::Gives(None::<(Text, Text)>, n)
            ==> run(git_push::pushing(dir, commit), replies, 0) == Progress::Gives(
            OutcomeModel::CommittedNotPushed {
                message:
                    "git-sync: no upstream configured for this branch; run `git push -u` once"@,
                commit,
            },
            n,
        ),
        run(git_push::upstream_parts(dir), replies, 0) == Progress::Gives(
            Some((remote, branch)),
            n,
        ) ==> {
            let after = run(git_push::pushing(dir, commit), replies, 0);
            &&& n == replies.len() ==> after == Progress::<OutcomeModel>::Asks(
                StepModel { dir, action: Action::Push { remote, commit, branch } },
            )
            &&& 0 <= n < replies.len() && went_well(replies[n]) ==> after == Progress::Gives(
                OutcomeModel::Synced,
                n + 1,
            )
            &&& 0 <= n < replies.len() && !went_well(replies[n]) ==> (after matches Progress::Gives(
                OutcomeModel::CommittedNotPushed { commit: left, .. },
                m,
            ) && left == commit && m == n + 1)
        },
{
}

/// Law: without a commit nothing is asked for and nothing is pushed.
pub proof fn law_no_commit_no_push(dir: Text)
    ensures
        gives(
            git_push::pushing(dir, Seq::empty()),
            seq![],
            OutcomeModel::Failed("git-sync: refusing to push an unresolved commit"@),
        ),
{
}

/// Law: a commit that was just made is pushed where the branch is still at it,
/// and otherwise stays to be pushed.
pub proof fn law_current_commits_are_pushed(
    dir: Text,
    root: Text,
    commit: Text,
    replies: Seq<Reply>,
    other: Text,
)
    requires
        replies.len() > 0,
    ensures
        asks(git_push::pushing_if_current(dir, root, commit), seq![], root, Action::Head),
        says(replies[0], commit) ==> run(
            git_push::pushing_if_current(dir, root, commit),
            replies,
            0,
        ) == run(git_push::pushing(dir, commit), replies, 1),
        (says(replies[0], other) && other != commit) || !went_well(replies[0]) ==> run(
            git_push::pushing_if_current(dir, root, commit),
            replies,
            0,
        ) == Progress::Gives(
            OutcomeModel::CommittedNotPushed {
                message: "git-sync: repository changed after commit"@,
                commit,
            },
            1,
        ),
{
}

/// Law: a commit is pushed again where the branch is still at it; it is given up
/// where the branch is at another.
pub proof fn law_commits_are_pushed_again(
    dir: Text,
    root: Text,
    commit: Text,
    replies: Seq<Reply>,
    other: Text,
)
    requires
        replies.len() > 1,
        says(replies[0], root),
    ensures
        asks(git_push::retrying(dir, commit), seq![], dir, Action::ShowToplevel),
        asks(git_push::retrying(dir, commit), seq![replies[0]], root, Action::Head),
        says(replies[1], commit) ==> run(git_push::retrying(dir, commit), replies, 0) == run(
            git_push::pushing(dir, commit),
            replies,
            2,
        ),
        (says(replies[1], other) && other != commit) || !went_well(replies[1]) ==> run(
            git_push::retrying(dir, commit),
            replies,
            0,
        ) == Progress::Gives(OutcomeModel::RetryAbandoned, 2),
{
}

/// Law: a command that failed is reported under its name, with what it said, or
/// why it could not be run to its end.
pub proof fn law_failures_are_reported(name: Text, dir: Text, path: Text, error: String, r: Reply)
    ensures
        git_flow::failure(name, Reply::TimedOut(error)) == name + " failed: "@ + error@,
        git_flow::failure(name, Reply::Broken(error)) == name + " failed: "@ + error@,
        r matches Reply::Ran(output) ==> git_flow::failure(name, r) == git_text::command_error_text(
            name,
            output.stderr@,
        ),
        !went_well(r) ==> gives(
            git_flow::toplevel(dir),
            seq![r],
            Err(git_flow::failure("git rev-parse"@, r)),
        ),
        !went_well(r) && !says_none(r) ==> gives(
            git_flow::parent(dir),
            seq![r],
            Err(git_flow::failure("git rev-parse"@, r)),
        ),
        !went_well(r) && !says_none(r) ==> gives(
            git_flow::upstream(dir),
            seq![r],
            Err(git_flow::failure("git rev-parse"@, r)),
        ),
        !went_well(r) ==> gives(
            git_flow::index_entry(dir, path),
            seq![r],
            Err(git_flow::failure("git ls-files"@, r)),
        ),
        !went_well(r) ==> gives(
            git_flow::store_blob(dir, path),
            seq![r],
            Err(git_flow::failure("git hash-object"@, r)),
        ),
{
}

// ----- The history -----------------------------------------------------

/// Law: the commits that are looked at are those from the base, which is left
/// out, to the tip; without a base it is all that lead to the tip.
pub proof fn law_ranges_run_from_base_to_tip(base: Text, tip: Text)
    ensures
        git_push::commit_range(Some(base), tip) == base + seq!['.', '.'] + tip,
        git_push::commit_range(None, tip) == tip,
{
    reveal_strlit("..");
    assert(".."@ =~= seq!['.', '.']);
}

/// The lines that the command printed.
pub open spec fn printed_lines(r: Reply) -> Seq<Text> {
    git_text::lines(git_text::lossy_text(r->Ran_0.stdout@))
}

/// Some line that the command printed lists a commit with two parents or more.
pub open spec fn lists_a_merge(r: Reply) -> bool {
    exists|i: int|
        0 <= i < printed_lines(r).len() && git_text::words(#[trigger] printed_lines(r)[i]).len()
            >= 3
}

/// Lemma: a merge is seen among the lines.
proof fn lemma_lists_a_merge(r: Reply)
    ensures
        git_flow::has_merge(printed_lines(r)) == lists_a_merge(r),
{
    let listed = printed_lines(r);
    if git_flow::has_merge(listed) {
        let i = choose|i: int|
            0 <= i < listed.len() && git_text::words(#[trigger] listed[i]).len() > 2;
        assert(git_text::words(printed_lines(r)[i]).len() >= 3);
    }
}

/// Law: a history is unrelated to the checklist where it has a merge, or touches
/// another file; it is related where it has no commits, or touches nothing else;
/// and what cannot be looked at is neither.
pub proof fn law_unrelated_history(
    root: Text,
    base: Option<Text>,
    tip: Text,
    relpath: Text,
    r: Reply,
    t: Reply,
)
    ensures
        ({
            let p = git_push::unrelated(root, base, tip, relpath);
            let commits = git_flow::commit_list(printed_lines(r));
            let own = vstd::utf8::encode_utf8(relpath);
            &&& asks(
                p,
                seq![],
                root,
                Action::RangeParents { range: git_push::commit_range(base, tip) },
            )
            &&& !went_well(r) ==> gives(p, seq![r], Err(git_flow::failure("git rev-list"@, r)))
            &&& went_well(r) && lists_a_merge(r) ==> gives(p, seq![r], Ok(true))
            &&& went_well(r) && !lists_a_merge(r) && commits.len() == 0 ==> gives(
                p,
                seq![r],
                Ok(false),
            )
            &&& went_well(r) && !lists_a_merge(r) && commits.len() > 0 ==> {
                &&& asks(p, seq![r], root, Action::TouchedPaths { commits })
                &&& !went_well(t) ==> gives(
                    p,
                    seq![r, t],
                    Err(git_flow::failure("git diff-tree"@, t)),
                )
                &&& went_well(t) ==> gives(
                    p,
                    seq![r, t],
                    Ok(git_text::has_other_path(t->Ran_0.stdout@, own)),
                )
            }
        }),
{
    lemma_lists_a_merge(r);
}

/// Law: what may be published: anything where there is no commit yet or no
/// upstream branch; where there is one, a history that has nothing unrelated; and
/// nothing that cannot be looked at.
pub proof fn law_what_may_be_published(
    root: Text,
    tip: Text,
    relpath: Text,
    replies: Seq<Reply>,
    base: Text,
    n: int,
    error: Text,
)
    requires
        replies.len() > 0,
    ensures
        gives(git_push::history_refusal(root, None, relpath), seq![], None),
        asks(
            git_push::history_refusal(root, Some(tip), relpath),
            seq![],
            root,
            Action::VerifyUpstream,
        ),
        says_none(replies[0]) ==> run(
            git_push::history_refusal(root, Some(tip), relpath),
            replies,
            0,
        ) == Progress::Gives(None::<Text>, 1),
        !went_well(replies[0]) && !says_none(replies[0]) ==> run(
            git_push::history_refusal(root, Some(tip), relpath),
            replies,
            0,
        ) == Progress::Gives(
            Some(
                "git-sync: could not verify the branch has no unrelated unpushed commits ("@
                    + git_flow::failure("git rev-parse"@, replies[0]) + "); not publishing"@,
            ),
            1,
        ),
        says(replies[0], base) ==> {
            let looked = run(git_push::unrelated(root, Some(base), tip, relpath), replies, 1);
            let found = run(git_push::history_refusal(root, Some(tip), relpath), replies, 0);
            &&& looked == Progress::Gives(Ok::<bool, Text>(false), n) ==> found == Progress::Gives(
                None::<Text>,
                n,
            )
            &&& looked == Progress::Gives(Ok::<bool, Text>(true), n) ==> found == Progress::Gives(
                Some(
                    "git-sync: branch has unpushed commits unrelated to this change; push them manually first"@,
                ),
                n,
            )
            &&& looked == Progress::Gives(Err::<bool, Text>(error), n) ==> found == Progress::Gives(
                Some(
                    "git-sync: could not verify the branch has no unrelated unpushed commits ("@
                        + error + "); not publishing"@,
                ),
                n,
            )
        },
{
}

/// Law: the commits ahead are the checklist's own where they touch it and nothing
/// else and none is a merge; they are of others where they do not touch it; and
/// otherwise they are mixed.
pub proof fn law_whose_the_commits_ahead_are(
    root: Text,
    base: Text,
    tip: Text,
    relpath: Text,
    r: Reply,
    t: Reply,
)
    ensures
        ({
            let p = git_push::ahead(root, base, tip, relpath);
            let commits = git_flow::commit_list(printed_lines(r));
            let own = vstd::utf8::encode_utf8(relpath);
            let touched = t->Ran_0.stdout@;
            &&& asks(
                p,
                seq![],
                root,
                Action::RangeParents { range: base + seq!['.', '.'] + tip },
            )
            &&& !went_well(r) ==> gives(p, seq![r], Err(git_flow::failure("git rev-list"@, r)))
            &&& went_well(r) && commits.len() == 0 ==> gives(p, seq![r], Ok(Ahead::Foreign))
            &&& went_well(r) && commits.len() > 0 ==> {
                &&& asks(p, seq![r], root, Action::TouchedPaths { commits })
                &&& !went_well(t) ==> gives(
                    p,
                    seq![r, t],
                    Err(git_flow::failure("git diff-tree"@, t)),
                )
                &&& went_well(t) && !git_text::has_path(touched, own) ==> gives(
                    p,
                    seq![r, t],
                    Ok(Ahead::Foreign),
                )
                &&& went_well(t) && git_text::has_path(touched, own) && (lists_a_merge(r)
                    || git_text::has_other_path(touched, own)) ==> gives(
                    p,
                    seq![r, t],
                    Ok(Ahead::Mixed),
                )
                &&& went_well(t) && git_text::has_path(touched, own) && !lists_a_merge(r)
                    && !git_text::has_other_path(touched, own) ==> gives(
                    p,
                    seq![r, t],
                    Ok(Ahead::Own),
                )
            }
        }),
{
    law_ranges_run_from_base_to_tip(base, tip);
    lemma_lists_a_merge(r);
}

// ----- Making a commit -------------------------------------------------

/// Law: a commit is taken back by moving the branch to its parent, and the first
/// commit of a branch by deleting the branch; it counts as taken back where that
/// succeeds.
pub proof fn law_taking_a_commit_back(
    root: Text,
    created: Text,
    r: Reply,
    parent: Text,
    b: Reply,
    branch: Text,
    u: Reply,
)
    requires
        went_well(r),
    ensures
        ({
            let p = git_commit::undoing(root, created);
            &&& asks(p, seq![], root, Action::ParentsOf { commit: created })
            &&& git_flow::first_parent(r) == Some(parent) ==> {
                &&& asks(p, seq![r], root, Action::MoveHead { target: parent, created })
                &&& went_well(u) ==> gives(p, seq![r, u], Ok(()))
                &&& !went_well(u) ==> gives(
                    p,
                    seq![r, u],
                    Err(git_flow::failure("git update-ref"@, u)),
                )
            }
            &&& git_flow::first_parent(r) is None ==> {
                &&& asks(p, seq![r], root, Action::SymbolicRef)
                &&& !went_well(b) ==> gives(
                    p,
                    seq![r, b],
                    Err("git-sync: could not resolve branch ref to undo root commit"@),
                )
                &&& says(b, branch) ==> {
                    &&& asks(p, seq![r, b], root, Action::DeleteBranch { branch, created })
                    &&& went_well(u) ==> gives(p, seq![r, b, u], Ok(()))
                    &&& !went_well(u) ==> gives(
                        p,
                        seq![r, b, u],
                        Err(git_flow::failure("git update-ref"@, u)),
                    )
                }
            }
        }),
{
}

/// Law: a commit that is not known to have a parent is not taken back.
pub proof fn law_unknown_commits_are_not_taken_back(root: Text, created: Text, r: Reply)
    requires
        !went_well(r),
    ensures
        gives(
            git_commit::undoing(root, created),
            seq![r],
            Err(git_flow::failure("git rev-list"@, r)),
        ),
{
}

/// Law: a commit stands where it touches the checklist alone; where a hook added
/// files it is taken back, and that is said; where it cannot be looked at, that
/// is said.
pub proof fn law_commits_are_looked_at(
    root: Text,
    parent: Option<Text>,
    relpath: Text,
    created: Text,
    replies: Seq<Reply>,
    n: int,
    m: int,
    error: Text,
)
    ensures
        ({
            let looked = run(git_push::unrelated(root, parent, created, relpath), replies, 0);
            let found = run(git_commit::verifying(root, parent, relpath, created), replies, 0);
            &&& looked == Progress::Gives(Ok::<bool, Text>(false), n) ==> found == Progress::Gives(
                Ok::<(), Text>(()),
                n,
            )
            &&& looked == Progress::Gives(Err::<bool, Text>(error), n) ==> found == Progress::Gives(
                Err::<(), Text>(
                    "git-sync: could not verify what commit "@ + created + " changed ("@ + error
                        + "); it was made and left on the branch — check it before pushing"@,
                ),
                n,
            )
            &&& looked == Progress::Gives(Ok::<bool, Text>(true), n) ==> {
                let undone = run(git_commit::undoing(root, created), replies, n);
                &&& undone == Progress::Gives(Ok::<(), Text>(()), m) ==> found == Progress::Gives(
                    Err::<(), Text>(
                        "git-sync: a commit hook modified files beyond the checklist; sync aborted"@,
                    ),
                    m,
                )
                &&& undone == Progress::Gives(Err::<(), Text>(error), m) ==> found
                    == Progress::Gives(
                    Err::<(), Text>(
                        "git-sync: a commit hook modified files beyond the checklist, and undoing the commit failed ("@
                            + error + "); commit "@ + created + " may need manual cleanup"@,
                    ),
                    m,
                )
            }
        }),
{
}

/// Law: a commit is named by what the branch is at once it is made.
pub proof fn law_commits_are_named(plan: PlanModel, c: Reply, h: Reply, commit: Text)
    ensures
        ({
            let p = git_commit::committing(plan);
            &&& asks(
                p,
                seq![],
                plan.root,
                Action::Commit { index: plan.index, message: plan.message },
            )
            &&& went_well(c) ==> asks(p, seq![c], plan.root, Action::Head)
            &&& went_well(c) && says(h, commit) ==> gives(p, seq![c, h], Ok(commit))
            &&& went_well(c) && !went_well(h) ==> gives(
                p,
                seq![c, h],
                Err("git-sync: could not resolve HEAD after commit"@),
            )
            &&& !went_well(c) && !(c is TimedOut) ==> gives(
                p,
                seq![c],
                Err(git_flow::failure("git commit"@, c)),
            )
        }),
{
}

/// Law: a commit that took too long is found all the same where the branch is at
/// another commit now, which has the planned blob and the planned parent alone;
/// in any other case it failed.
pub proof fn law_slow_commits_are_found(
    plan: PlanModel,
    c: Reply,
    h: Reply,
    commit: Text,
    b: Reply,
    blob: Text,
    k: Reply,
)
    requires
        c is TimedOut,
    ensures
        ({
            let p = git_commit::committing(plan);
            let error = git_flow::failure("git commit"@, c);
            &&& asks(p, seq![c], plan.root, Action::Head)
            &&& !went_well(h) ==> gives(p, seq![c, h], Err(error))
            &&& says(h, commit) && plan.parent == Some(commit) ==> gives(p, seq![c, h], Err(error))
            &&& says(h, commit) && plan.parent != Some(commit) ==> {
                &&& asks(
                    p,
                    seq![c, h],
                    plan.root,
                    Action::BlobAt { commit, relpath: plan.relpath },
                )
                &&& !went_well(b) ==> gives(p, seq![c, h, b], Err(error))
                &&& says(b, blob) && blob != plan.blob ==> gives(p, seq![c, h, b], Err(error))
                &&& says(b, plan.blob) ==> {
                    &&& asks(p, seq![c, h, b], plan.root, Action::ParentsOf { commit })
                    &&& git_flow::is_child_of(k, plan.parent) ==> gives(
                        p,
                        seq![c, h, b, k],
                        Ok(commit),
                    )
                    &&& !git_flow::is_child_of(k, plan.parent) ==> gives(
                        p,
                        seq![c, h, b, k],
                        Err(error),
                    )
                }
            }
        }),
{
}

/// Law: the repository's own index follows a commit where it still has the blob
/// from before it, and is otherwise left alone.
pub proof fn law_own_index_follows(plan: PlanModel, before: Option<Text>, b: Reply, s: Reply)
    ensures
        ({
            let p = git_commit::aligning(plan, before);
            &&& asks(p, seq![], plan.root, Action::IndexBlob { relpath: plan.relpath })
            &&& git_flow::entry_blob(b) != before ==> gives(p, seq![b], ())
            &&& git_flow::entry_blob(b) == before ==> {
                &&& asks(
                    p,
                    seq![b],
                    plan.root,
                    Action::StageReal {
                        mode: plan.mode,
                        blob: plan.blob,
                        relpath: plan.relpath,
                    },
                )
                &&& gives(p, seq![b, s], ())
            }
        }),
{
}

/// Law: a commit is built in a temporary index: filled from the parent where there
/// is one, given the planned blob, and committed only where the branch is still
/// at the parent and the repository still fit for it.
pub proof fn law_commits_are_built(
    plan: PlanModel,
    before: Option<Text>,
    tree: Text,
    replies: Seq<Reply>,
    s: int,
    n: int,
    reason: Text,
)
    requires
        0 <= s,
        s + 2 <= replies.len(),
        plan.parent is None ==> s == 0,
        plan.parent is Some ==> plan.parent == Some(tree) && s == 1 && went_well(replies[0]),
        went_well(replies[s]),
    ensures
        plan.parent == Some(tree) ==> asks(
            git_commit::building(plan, before),
            seq![],
            plan.root,
            Action::FillIndex { index: plan.index, tree },
        ),
        ({
            let p = git_commit::building(plan, before);
            let stage = Action::StageTemporary {
                index: plan.index,
                mode: plan.mode,
                blob: plan.blob,
                relpath: plan.relpath,
            };
            let here = run(p, replies, 0);
            &&& plan.parent is None ==> asks(p, seq![], plan.root, stage)
            &&& plan.parent == Some(tree) ==> asks(p, seq![replies[0]], plan.root, stage)
            &&& git_flow::answer_if_ok(replies[s + 1]) != plan.parent ==> here == Progress::Gives(
                Err::<Text, Text>("git-sync: repository changed during sync, will retry"@),
                s + 2,
            )
            &&& git_flow::answer_if_ok(replies[s + 1]) == plan.parent ==> {
                let fit = run(git_flow::blocked(plan.root), replies, s + 2);
                &&& fit == Progress::Gives(Some(reason), n) ==> here == Progress::Gives(
                    Err::<Text, Text>(reason),
                    n,
                )
                &&& fit == Progress::Gives(None::<Text>, n) ==> here == run(
                    git_commit::building_allowed(plan, before),
                    replies,
                    n,
                )
            }
        }),
{
}

/// Law: nothing is committed where the temporary index cannot be filled or
/// changed.
pub proof fn law_unbuilt_commits_fail(
    plan: PlanModel,
    before: Option<Text>,
    tree: Text,
    f: Reply,
    s: Reply,
)
    ensures
        plan.parent == Some(tree) && !went_well(f) ==> gives(
            git_commit::building(plan, before),
            seq![f],
            Err(git_flow::failure("git read-tree"@, f)),
        ),
        plan.parent == Some(tree) && went_well(f) && !went_well(s) ==> gives(
            git_commit::building(plan, before),
            seq![f, s],
            Err(git_flow::failure("git update-index"@, s)),
        ),
        plan.parent is None && !went_well(s) ==> gives(
            git_commit::building(plan, before),
            seq![s],
            Err(git_flow::failure("git update-index"@, s)),
        ),
{
}

/// Law: a commit that is made and stands is what building it comes to, once the
/// repository's own index has followed; one that is not made, or does not stand,
/// is a failure.
pub proof fn law_commits_that_stand(
    plan: PlanModel,
    before: Option<Text>,
    replies: Seq<Reply>,
    created: Text,
    error: Text,
    n: int,
    m: int,
    k: int,
)
    ensures
        ({
            let made = run(git_commit::committing(plan), replies, 0);
            let here = run(git_commit::building_allowed(plan, before), replies, 0);
            let stands = run(
                git_commit::verifying(plan.root, plan.parent, plan.relpath, created),
                replies,
                n,
            );
            let followed = run(git_commit::aligning(plan, before), replies, m);
            &&& made == Progress::Gives(Err::<Text, Text>(error), n) ==> here == Progress::Gives(
                Err::<Text, Text>(error),
                n,
            )
            &&& made == Progress::Gives(Ok::<Text, Text>(created), n) ==> {
                &&& stands == Progress::Gives(Err::<(), Text>(error), m) ==> here
                    == Progress::Gives(Err::<Text, Text>(error), m)
                &&& stands == Progress::Gives(Ok::<(), Text>(()), m) && followed == Progress::Gives(
                    (),
                    k,
                ) ==> here == Progress::Gives(Ok::<Text, Text>(created), k)
            }
        }),
{
}

/// Law: a commit is made by a temporary index in the git directory, which is
/// removed whatever building the commit comes to; that is then the result.
pub proof fn law_commits_by_a_temporary_index(
    plan: PlanModel,
    index_name: Text,
    replies: Seq<Reply>,
    dir: Text,
    built: Result<Text, Text>,
    n: int,
)
    requires
        replies.len() >= 2,
        says(replies[0], dir),
        2 <= n < replies.len(),
    ensures
        ({
            let p = git_commit::committing_in_git_dir(plan, index_name);
            let index = git_text::joined_path(git_text::joined_path(plan.root, dir), index_name);
            let full = PlanModel { index, ..plan };
            &&& asks(p, seq![], plan.root, Action::GitDir)
            &&& asks(p, seq![replies[0]], plan.root, Action::IndexBlob { relpath: plan.relpath })
            &&& run(
                git_commit::building(full, git_flow::entry_blob(replies[1])),
                replies,
                2,
            ) == Progress::Gives(built, n) ==> run(p, replies, 0) == Progress::Gives(built, n + 1)
        }),
{
}

/// Law: nothing is committed where the git directory is not known.
pub proof fn law_no_git_dir_no_commit(plan: PlanModel, index_name: Text, d: Reply)
    requires
        !went_well(d),
    ensures
        gives(
            git_commit::committing_in_git_dir(plan, index_name),
            seq![d],
            Err("git-sync: could not resolve git-dir"@),
        ),
{
}

/// Law: a staged version of the checklist would be lost where it is neither the
/// committed one nor the one that the change began from.
pub proof fn law_staged_versions_that_would_be_lost(
    root: Text,
    relpath: Text,
    committed: Option<Text>,
    previous: Option<ContentHash>,
    b: Reply,
    s: Reply,
)
    ensures
        ({
            let p = git_commit::staged_lost(root, relpath, committed, previous);
            &&& asks(p, seq![], root, Action::IndexBlob { relpath })
            &&& git_flow::entry_blob(b) == committed ==> gives(p, seq![b], false)
            &&& git_flow::entry_blob(b) != committed && previous is None ==> gives(p, seq![b], true)
            &&& git_flow::entry_blob(b) != committed && previous is Some ==> {
                &&& asks(p, seq![b], root, Action::ShowStaged { relpath })
                &&& !went_well(s) ==> gives(p, seq![b, s], true)
                &&& went_well(s) ==> gives(
                    p,
                    seq![b, s],
                    previous != Some(text::content_hash(s->Ran_0.stdout@)),
                )
            }
        }),
{
}

// ----- A change, from beginning to end ---------------------------------

/// Law: a change begins with the root of the work tree and whether the repository
/// is fit for a commit; where either says no, that is the failure.
pub proof fn law_a_change_begins(
    job: SyncJobModel,
    replies: Seq<Reply>,
    root: Text,
    reason: Text,
    n: int,
)
    requires
        replies.len() > 0,
    ensures
        asks(git_run::syncing(job), seq![], job.dir, Action::ShowToplevel),
        !went_well(replies[0]) ==> run(git_run::syncing(job), replies, 0) == Progress::Gives(
            OutcomeModel::Failed(git_flow::failure("git rev-parse"@, replies[0])),
            1,
        ),
        says(replies[0], root) ==> {
            let fit = run(git_flow::blocked(root), replies, 1);
            let here = run(git_run::syncing(job), replies, 0);
            &&& fit == Progress::Gives(Some(reason), n) ==> here == Progress::Gives(
                OutcomeModel::Failed(reason),
                n,
            )
            &&& fit == Progress::Gives(None::<Text>, n) ==> here == run(
                git_run::syncing_status(job, root),
                replies,
                n,
            )
        },
{
}

/// Law: then git is asked for the state of the file. One that is not tracked, of
/// which git says `??`, is passed over; of one that is unchanged, what is left is pushed; one that
/// changed is committed.
pub proof fn law_only_tracked_files_are_synced(
    job: SyncJobModel,
    root: Text,
    replies: Seq<Reply>,
    mode: Text,
    relpath: Text,
    error: Text,
)
    requires
        replies.len() > 1,
    ensures
        ({
            let p = git_run::syncing_status(job, root);
            let said = replies[0]->Ran_0.stdout@;
            let unknown = said.len() >= 2 && said[0] == 63 && said[1] == 63;
            let here = run(p, replies, 0);
            &&& asks(p, seq![], job.dir, Action::Status { path: job.file })
            &&& !went_well(replies[0]) ==> here == Progress::Gives(
                OutcomeModel::Failed(git_flow::failure("git status"@, replies[0])),
                1,
            )
            &&& went_well(replies[0]) && unknown ==> here == Progress::Gives(
                OutcomeModel::SkippedUntracked,
                1,
            )
            &&& went_well(replies[0]) && !unknown ==> {
                let entry = git_flow::entry_of(replies[1]);
                &&& asks(p, seq![replies[0]], job.dir, Action::IndexEntry { path: job.file })
                &&& entry == Err::<Option<(Text, Text)>, Text>(error) ==> here == Progress::Gives(
                    OutcomeModel::Failed(error),
                    2,
                )
                &&& entry == Ok::<Option<(Text, Text)>, Text>(None) ==> here == Progress::Gives(
                    OutcomeModel::SkippedUntracked,
                    2,
                )
                &&& entry == Ok::<Option<(Text, Text)>, Text>(Some((mode, relpath))) && said.len()
                    == 0 ==> here == run(
                    git_run::pushing_rest(job.dir, root, relpath),
                    replies,
                    2,
                )
                &&& entry == Ok::<Option<(Text, Text)>, Text>(Some((mode, relpath))) && said.len()
                    > 0 ==> here == run(
                    git_run::syncing_tip(job, root, mode, relpath),
                    replies,
                    2,
                )
            }
        }),
{
}

/// Law: of a file that is unchanged, the commits that are ahead of the upstream
/// branch are pushed where they are its own, refused where they are mixed, and
/// left alone where they are of others or there are none.
pub proof fn law_the_rest_is_pushed(
    dir: Text,
    root: Text,
    relpath: Text,
    replies: Seq<Reply>,
    tip: Text,
    count: Text,
    base: Text,
    found: Result<Ahead, Text>,
    n: int,
)
    requires
        replies.len() > 2,
    ensures
        ({
            let p = git_run::pushing_rest(dir, root, relpath);
            let here = run(p, replies, 0);
            &&& asks(p, seq![], root, Action::Head)
            &&& !went_well(replies[0]) ==> here == Progress::Gives(OutcomeModel::Skipped, 1)
            &&& says(replies[0], tip) ==> {
                let number = git_text::parsed_number(count);
                &&& asks(p, seq![replies[0]], root, Action::CountAhead { tip })
                &&& !went_well(replies[1]) ==> here == Progress::Gives(OutcomeModel::Skipped, 2)
                &&& says(replies[1], count) && (number is None || number == Some(0u64)) ==> here
                    == Progress::Gives(OutcomeModel::Skipped, 2)
                &&& says(replies[1], count) && number is Some && number != Some(0u64) ==> {
                    &&& asks(p, seq![replies[0], replies[1]], root, Action::VerifyUpstream)
                    &&& says_none(replies[2]) ==> here == run(
                        git_push::pushing(dir, tip),
                        replies,
                        3,
                    )
                    &&& says(replies[2], base) && run(
                        git_push::ahead(root, base, tip, relpath),
                        replies,
                        3,
                    ) == Progress::Gives(found, n) ==> here == run(
                        git_run::pushing_ahead(dir, tip, found),
                        replies,
                        n,
                    )
                }
            }
        }),
        run(
            git_run::pushing_ahead(dir, tip, Ok(Ahead::Own)),
            replies,
            n,
        ) == run(git_push::pushing(dir, tip), replies, n),
        run(git_run::pushing_ahead(dir, tip, Ok(Ahead::Foreign)), replies, n) == Progress::Gives(
            OutcomeModel::Skipped,
            n,
        ),
        run(git_run::pushing_ahead(dir, tip, Ok(Ahead::Mixed)), replies, n) == Progress::Gives(
            OutcomeModel::Failed(
                "git-sync: branch has unpushed commits unrelated to this change; push them manually first"@,
            ),
            n,
        ),
        run(git_run::pushing_ahead(dir, tip, Err(count)), replies, n) == Progress::Gives(
            OutcomeModel::Failed(
                "git-sync: could not verify the branch has no unrelated unpushed commits ("@ + count
                    + "); not publishing"@,
            ),
            n,
        ),
{
}

/// Law: of a file that changed, the history is looked at before anything else; a
/// history that must not be published ends the job.
pub proof fn law_history_is_asked_first(
    job: SyncJobModel,
    root: Text,
    mode: Text,
    relpath: Text,
    replies: Seq<Reply>,
    tip: Option<Text>,
    reason: Text,
    n: int,
    m: int,
)
    ensures
        ({
            let p = git_run::syncing_tip(job, root, mode, relpath);
            let here = run(p, replies, 0);
            let at_tip = run(git_flow::parent(root), replies, 0);
            &&& asks(p, seq![], root, Action::VerifyHead)
            &&& at_tip == Progress::Gives(Err::<Option<Text>, Text>(reason), n) ==> here
                == Progress::Gives(OutcomeModel::Failed(reason), n)
            &&& at_tip == Progress::Gives(Ok::<Option<Text>, Text>(tip), n) ==> {
                let refused = run(git_push::history_refusal(root, tip, relpath), replies, n);
                &&& refused == Progress::Gives(Some(reason), m) ==> here == Progress::Gives(
                    OutcomeModel::Failed(reason),
                    m,
                )
                &&& refused == Progress::Gives(None::<Text>, m) ==> here == run(
                    git_run::syncing_content(job, TargetModel { root, mode, relpath, tip }),
                    replies,
                    m,
                )
            }
        }),
{
}

/// Law: content that the tip has already is not committed: it is pushed unless
/// nothing is ahead. Other content goes on to be committed.
pub proof fn law_committed_content_is_pushed(
    job: SyncJobModel,
    at: TargetModel,
    tip: Text,
    replies: Seq<Reply>,
    count: Text,
)
    requires
        replies.len() > 1,
    ensures
        at.tip is None ==> run(git_run::syncing_content(job, at), replies, 0) == run(
            git_run::syncing_disk(job, at),
            replies,
            0,
        ),
        at.tip == Some(tip) ==> {
            let p = git_run::syncing_content(job, at);
            let here = run(p, replies, 0);
            let same = went_well(replies[0]) && replies[0]->Ran_0.stdout@
                == vstd::utf8::encode_utf8(job.content);
            &&& asks(p, seq![], at.root, Action::ShowAt { commit: tip, relpath: at.relpath })
            &&& !same ==> here == run(git_run::syncing_disk(job, at), replies, 1)
            &&& same ==> {
                &&& asks(p, seq![replies[0]], at.root, Action::CountAhead { tip })
                &&& says(replies[1], count) && git_text::parsed_number(count) == Some(0u64) ==> here
                    == Progress::Gives(OutcomeModel::Skipped, 2)
                &&& says(replies[1], count) && git_text::parsed_number(count) != Some(0u64) ==> here
                    == run(git_push::pushing(job.dir, tip), replies, 2)
                &&& !went_well(replies[1]) ==> here == run(
                    git_push::pushing(job.dir, tip),
                    replies,
                    2,
                )
            }
        },
{
}

/// Law: a change is committed where the file on disk accounts for what was last
/// asked for, and refused where it does not.
pub proof fn law_the_file_must_account(job: SyncJobModel, at: TargetModel, replies: Seq<Reply>)
    requires
        replies.len() > 0,
    ensures
        asks(git_run::syncing_disk(job, at), seq![], job.dir, Action::ReadChecklist),
        (replies[0] matches Reply::Checklist { disk, latest } && disk == Some(latest)) ==> run(
            git_run::syncing_disk(job, at),
            replies,
            0,
        ) == run(git_run::syncing_staged(job, at), replies, 1),
        !(replies[0] matches Reply::Checklist { disk, latest } && disk == Some(latest)) ==> run(
            git_run::syncing_disk(job, at),
            replies,
            0,
        ) == Progress::Gives(
            OutcomeModel::Failed(
                "git-sync: file changed since this request was queued; edit or toggle again to sync the current content"@,
            ),
            1,
        ),
{
}

/// Law: a change is committed where no staged version is lost by it; the staged
/// version is held against the one at the tip, where there is a tip.
pub proof fn law_staged_versions_are_kept(
    job: SyncJobModel,
    at: TargetModel,
    tip: Text,
    replies: Seq<Reply>,
    committed: Option<Text>,
    lost: bool,
    s: int,
    n: int,
)
    requires
        at.tip is None ==> s == 0 && committed is None,
        at.tip is Some ==> at.tip == Some(tip) && s == 1 && replies.len() > 0 && committed
            == git_flow::answer_if_ok(replies[0]),
        run(git_commit::staged_lost(at.root, at.relpath, committed, job.previous), replies, s)
            == Progress::Gives(lost, n),
    ensures
        at.tip is Some ==> asks(
            git_run::syncing_staged(job, at),
            seq![],
            at.root,
            Action::BlobAt { commit: tip, relpath: at.relpath },
        ),
        lost ==> run(git_run::syncing_staged(job, at), replies, 0) == Progress::Gives(
            OutcomeModel::Failed(
                "git-sync: the checklist has staged changes that differ from the file on disk; committing would drop them — commit or unstage them first"@,
            ),
            n,
        ),
        !lost ==> run(git_run::syncing_staged(job, at), replies, 0) == run(
            git_run::syncing_commit(job, at),
            replies,
            n,
        ),
{
}

/// Law: the content of the change is stored, committed as the target says, with
/// the message of the job and the tip as its parent, and pushed.
pub proof fn law_the_content_is_committed(
    job: SyncJobModel,
    at: TargetModel,
    replies: Seq<Reply>,
    blob: Text,
    created: Text,
    error: Text,
    n: int,
)
    requires
        replies.len() > 0,
    ensures
        ({
            let p = git_run::syncing_commit(job, at);
            let here = run(p, replies, 0);
            let made = |made: Result<Text, Text>|
                exists|plan: PlanModel|
                    {
                        &&& plan.root == at.root
                        &&& plan.parent == at.tip
                        &&& plan.mode == at.mode
                        &&& plan.blob == blob
                        &&& plan.relpath == at.relpath
                        &&& plan.message == job.message
                        &&& #[trigger] run(
                            git_commit::committing_in_git_dir(plan, job.index_name),
                            replies,
                            1,
                        ) == Progress::Gives(made, n)
                    };
            &&& asks(p, seq![], at.root, Action::StoreBlob { content: job.content })
            &&& !went_well(replies[0]) ==> here == Progress::Gives(
                OutcomeModel::Failed(git_flow::failure("git hash-object"@, replies[0])),
                1,
            )
            &&& says(replies[0], blob) && made(Err(error)) ==> here == Progress::Gives(
                OutcomeModel::Failed(error),
                n,
            )
            &&& says(replies[0], blob) && made(Ok(created)) ==> here == run(
                git_push::pushing_if_current(job.dir, at.root, created),
                replies,
                n,
            )
        }),
{
    let planned = git_run::planned(job, at, blob);
    assert forall|plan: PlanModel|
        plan.root == at.root && plan.parent == at.tip && plan.mode == at.mode && plan.blob == blob
            && plan.relpath == at.relpath && plan.message
            == job.message implies #[trigger] git_commit::committing_in_git_dir(
        plan,
        job.index_name,
    ) == git_commit::committing_in_git_dir(planned, job.index_name) by {
        lemma_index_is_set(plan, planned, job.index_name);
    }
}

/// Lemma: the index of a plan does not count before it is made.
proof fn lemma_index_is_set(a: PlanModel, b: PlanModel, index_name: Text)
    requires
        a == (PlanModel { index: a.index, ..b }),
    ensures
        git_commit::committing_in_git_dir(a, index_name) == git_commit::committing_in_git_dir(
            b,
            index_name,
        ),
{
    let f = |d: Option<Text>|
        match d {
            None => Procedure::Done(Err("git-sync: could not resolve git-dir"@)),
            Some(dir) => git_commit::committing_by_index(
                PlanModel { index: git_text::joined_path(dir, index_name), ..a },
            ),
        };
    let g = |d: Option<Text>|
        match d {
            None => Procedure::Done(Err("git-sync: could not resolve git-dir"@)),
            Some(dir) => git_commit::committing_by_index(
                PlanModel { index: git_text::joined_path(dir, index_name), ..b },
            ),
        };
    assert(f =~= g);
}

// ----- What an earlier session left behind -----------------------------

/// Law: pushing what an earlier session left behind begins with the root of the
/// work tree and whether the repository is fit for a push; where either says no,
/// that is the failure.
pub proof fn law_catching_up(
    dir: Text,
    file: Text,
    replies: Seq<Reply>,
    root: Text,
    reason: Text,
    n: int,
)
    requires
        replies.len() > 0,
    ensures
        asks(git_run::catching_up(dir, file), seq![], dir, Action::ShowToplevel),
        !went_well(replies[0]) ==> run(git_run::catching_up(dir, file), replies, 0)
            == Progress::Gives(
            OutcomeModel::Failed(git_flow::failure("git rev-parse"@, replies[0])),
            1,
        ),
        says(replies[0], root) ==> {
            let fit = run(git_flow::blocked(root), replies, 1);
            let here = run(git_run::catching_up(dir, file), replies, 0);
            &&& fit == Progress::Gives(Some(reason), n) ==> here == Progress::Gives(
                OutcomeModel::Failed(reason),
                n,
            )
            &&& fit == Progress::Gives(None::<Text>, n) ==> here == run(
                git_run::catching_up_head(dir, file, root),
                replies,
                n,
            )
        },
{
}

/// Law: in a repository that is fit for it, what is left behind is pushed where
/// commits are ahead of the upstream branch, the file is tracked and the history
/// may be published; where nothing is ahead there is nothing to do.
pub proof fn law_catching_up_further(
    dir: Text,
    file: Text,
    root: Text,
    replies: Seq<Reply>,
    tip: Text,
    count: Text,
    mode: Text,
    relpath: Text,
    reason: Text,
    n: int,
)
    requires
        replies.len() > 2,
    ensures
        ({
            let p = git_run::catching_up_head(dir, file, root);
            let here = run(p, replies, 0);
            &&& asks(p, seq![], root, Action::Head)
            &&& !went_well(replies[0]) ==> here == Progress::Gives(OutcomeModel::Skipped, 1)
            &&& says(replies[0], tip) ==> {
                let number = git_text::parsed_number(count);
                &&& asks(p, seq![replies[0]], root, Action::CountAhead { tip })
                &&& !went_well(replies[1]) ==> here == Progress::Gives(OutcomeModel::Skipped, 2)
                &&& says(replies[1], count) && (number is None || number == Some(0u64)) ==> here
                    == Progress::Gives(OutcomeModel::Skipped, 2)
                &&& says(replies[1], count) && number is Some && number != Some(0u64) ==> {
                    let entry = git_flow::entry_of(replies[2]);
                    let refused = run(
                        git_push::history_refusal(root, Some(tip), relpath),
                        replies,
                        3,
                    );
                    &&& asks(
                        p,
                        seq![replies[0], replies[1]],
                        dir,
                        Action::IndexEntry { path: file },
                    )
                    &&& entry == Err::<Option<(Text, Text)>, Text>(reason) ==> here
                        == Progress::Gives(OutcomeModel::Failed(reason), 3)
                    &&& entry == Ok::<Option<(Text, Text)>, Text>(None) ==> here == Progress::Gives(
                        OutcomeModel::SkippedUntracked,
                        3,
                    )
                    &&& entry == Ok::<Option<(Text, Text)>, Text>(Some((mode, relpath)))
                        && refused == Progress::Gives(Some(reason), n) ==> here == Progress::Gives(
                        OutcomeModel::Failed(reason),
                        n,
                    )
                    &&& entry == Ok::<Option<(Text, Text)>, Text>(Some((mode, relpath)))
                        && refused == Progress::Gives(None::<Text>, n) ==> here == run(
                        git_push::pushing(dir, tip),
                        replies,
                        n,
                    )
                }
            }
        }),
{
}

/// Law: a job runs as what it is; pushing a commit again that fails is told apart
/// from other failures, so that the commit is kept.
pub proof fn law_jobs_run(
    sync: SyncJobModel,
    dir: Text,
    file: Text,
    commit: Text,
    replies: Seq<Reply>,
    outcome: OutcomeModel,
    message: Text,
    n: int,
)
    ensures
        run(git_run::performing(JobModel::Sync(sync)), replies, 0) == run(
            git_run::syncing(sync),
            replies,
            0,
        ),
        run(git_run::performing(JobModel::CatchUp { dir, file }), replies, 0) == run(
            git_run::catching_up(dir, file),
            replies,
            0,
        ),
        run(git_push::retrying(dir, commit), replies, 0) == Progress::Gives(
            OutcomeModel::Failed(message),
            n,
        ) ==> run(git_run::performing(JobModel::Retry { dir, commit }), replies, 0)
            == Progress::Gives(OutcomeModel::RetryFailed(message), n),
        run(git_push::retrying(dir, commit), replies, 0) == Progress::Gives(outcome, n) && !(outcome
            is Failed) ==> run(git_run::performing(JobModel::Retry { dir, commit }), replies, 0)
            == Progress::Gives(outcome, n),
{
}

} // verus!
