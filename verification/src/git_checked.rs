//! What git-sync looks at before it pushes, and what holds of a job as a whole.

use vstd::prelude::*;

use crate::git_commit::PlanModel;
use crate::git_flow::{OutcomeModel, Text};
use crate::git_push::Ahead;
use crate::git_run::{JobModel, SyncJobModel, TargetModel};
use crate::git_step::{Action, Reply, StepModel};
use crate::script::Procedure;
use crate::{git_commit, git_flow, git_laws, git_push, git_run, git_safety, git_text, script};

verus! {

broadcast use {
    script::group_always,
    script::group_results,
    script::group_never_after,
    script::group_stops_after,
};

/// The reply gives the checklist no other path than `relpath`.
pub open spec fn path_is(relpath: Text) -> spec_fn(StepModel, Reply) -> bool {
    |s: StepModel, r: Reply|
        s.action is IndexEntry ==> (git_flow::entry_of(r) matches Ok(Some((_, path)))
            ==> path == relpath)
}

/// The predicate "is not that the commits are the checklist's own".
pub open spec fn not_own() -> spec_fn(Result<Ahead, Text>) -> bool {
    |x: Result<Ahead, Text>| x != Ok::<Ahead, Text>(Ahead::Own)
}

/// Lemma: an unrelated commit among those ahead is seen.
proof fn lemma_ahead_is_checked(root: Text, base: Text, tip: Text, relpath: Text)
    ensures
        script::stops_after(
            git_push::ahead(root, base, tip, relpath),
            git_safety::unrelated_found(relpath),
            not_own(),
        ),
{
}

/// Lemma: the commits ahead are not pushed once one of them is seen to be
/// unrelated.
proof fn lemma_own_is_checked(dir: Text, root: Text, tip: Text, relpath: Text)
    ensures
        script::never_after(
            git_run::pushing_own(dir, root, tip, relpath),
            git_safety::unrelated_found(relpath),
            git_safety::pushes(),
        ),
{
    let bad = git_safety::unrelated_found(relpath);
    assert forall|commit: Text| script::never_after(
        #[trigger] git_push::pushing(dir, commit),
        bad,
        git_safety::pushes(),
    ) by {
        assert(script::unbothered(git_push::pushing(dir, commit), bad));
        script::lemma_never_after_unbothered(
            git_push::pushing(dir, commit),
            bad,
            git_safety::pushes(),
        );
    }
    assert forall|base: Text| script::never_after(
        script::bind(
            #[trigger] git_push::ahead(root, base, tip, relpath),
            |x: Result<Ahead, Text>| git_run::pushing_ahead(dir, tip, x),
        ),
        bad,
        git_safety::pushes(),
    ) by {
        let p = git_push::ahead(root, base, tip, relpath);
        lemma_ahead_is_checked(root, base, tip, relpath);
        assert(script::always(p, |s: StepModel| !git_safety::pushes()(s)));
        script::lemma_never_after_harmless(p, bad, git_safety::pushes());
        script::lemma_never_after_bind(
            p,
            |x: Result<Ahead, Text>| git_run::pushing_ahead(dir, tip, x),
            bad,
            git_safety::pushes(),
            not_own(),
        );
    }
}

/// Lemma: what is left over of an unchanged checklist is not pushed once one
/// of its commits is seen to be unrelated.
proof fn lemma_rest_is_checked(dir: Text, root: Text, relpath: Text)
    ensures
        script::never_after(
            git_run::pushing_rest(dir, root, relpath),
            git_safety::unrelated_found(relpath),
            git_safety::pushes(),
        ),
{
    assert forall|tip: Text| script::never_after(
        #[trigger] git_run::pushing_own(dir, root, tip, relpath),
        git_safety::unrelated_found(relpath),
        git_safety::pushes(),
    ) by {
        lemma_own_is_checked(dir, root, tip, relpath);
    }
}

/// Lemma: once the path of a changed checklist is known, unrelated commits are
/// not pushed.
proof fn lemma_entry_is_checked(job: SyncJobModel, root: Text, unchanged: bool, relpath: Text)
    ensures
        script::never_after_where(
            git_run::syncing_entry(job, root, unchanged),
            path_is(relpath),
            git_safety::unrelated_found(relpath),
            git_safety::pushes(),
        ),
{
    let known = path_is(relpath);
    let bad = git_safety::unrelated_found(relpath);
    let k = |e: Result<Option<(Text, Text)>, Text>|
        match e {
            Err(m) => git_run::failed(m),
            Ok(None) => Procedure::Done(OutcomeModel::SkippedUntracked),
            Ok(Some((mode, path))) => if unchanged {
                git_run::pushing_rest(job.dir, root, path)
            } else {
                git_run::syncing_tip(job, root, mode, path)
            },
        };
    let step = git_flow::step_in(job.dir, Action::IndexEntry { path: job.file });
    let f = |r: Reply| Procedure::Done(git_flow::entry_of(r));
    assert forall|r: Reply| known(step, r) implies !bad(step, r) && script::never_after_where(
        script::bind(#[trigger] f(r), k),
        known,
        bad,
        git_safety::pushes(),
    ) by {
        if let Ok(Some((mode, path))) = git_flow::entry_of(r) {
            lemma_rest_is_checked(job.dir, root, path);
            git_safety::law_unrelated_commits_are_not_pushed(job, root, mode, path);
            script::lemma_never_after_anywhere(
                git_run::pushing_rest(job.dir, root, path),
                known,
                bad,
                git_safety::pushes(),
            );
            script::lemma_never_after_anywhere(
                git_run::syncing_tip(job, root, mode, path),
                known,
                bad,
                git_safety::pushes(),
            );
        }
    }
    script::lemma_never_after_where_ask(step, f, k, known, bad, git_safety::pushes());
}

/// Lemma: once the path of a checklist that an earlier session left commits of
/// is known, unrelated commits are not pushed.
proof fn lemma_left_entry_is_checked(dir: Text, file: Text, root: Text, tip: Text, relpath: Text)
    ensures
        script::never_after_where(
            git_run::catching_up_entry(dir, file, root, tip),
            path_is(relpath),
            git_safety::unrelated_found(relpath),
            git_safety::pushes(),
        ),
{
    let known = path_is(relpath);
    let bad = git_safety::unrelated_found(relpath);
    let k = |e: Result<Option<(Text, Text)>, Text>|
        match e {
            Err(m) => git_run::failed(m),
            Ok(None) => Procedure::Done(OutcomeModel::SkippedUntracked),
            Ok(Some((_, path))) => git_run::pushing_checked(dir, root, tip, path),
        };
    let step = git_flow::step_in(dir, Action::IndexEntry { path: file });
    let f = |r: Reply| Procedure::Done(git_flow::entry_of(r));
    assert forall|r: Reply| known(step, r) implies !bad(step, r) && script::never_after_where(
        script::bind(#[trigger] f(r), k),
        known,
        bad,
        git_safety::pushes(),
    ) by {
        if let Ok(Some((_, path))) = git_flow::entry_of(r) {
            git_safety::law_unrelated_commits_are_not_caught_up(dir, root, tip, path);
            script::lemma_never_after_anywhere(
                git_run::pushing_checked(dir, root, tip, path),
                known,
                bad,
                git_safety::pushes(),
            );
        }
    }
    script::lemma_never_after_where_ask(step, f, k, known, bad, git_safety::pushes());
}

/// Lemma: committing and pushing a change does not push unrelated commits.
proof fn lemma_syncing_is_checked(job: SyncJobModel, relpath: Text)
    ensures
        script::never_after_where(
            git_run::syncing(job),
            path_is(relpath),
            git_safety::unrelated_found(relpath),
            git_safety::pushes(),
        ),
{
    let known = path_is(relpath);
    let bad = git_safety::unrelated_found(relpath);
    assert forall|root: Text| script::never_after_where(
        #[trigger] git_run::syncing_status(job, root),
        known,
        bad,
        git_safety::pushes(),
    ) by {
        lemma_entry_is_checked(job, root, true, relpath);
        lemma_entry_is_checked(job, root, false, relpath);
        let p = git_run::syncing_status(job, root);
        let step = git_flow::step_in(job.dir, Action::Status { path: job.file });
        assert forall|r: Reply| !bad(step, r) && script::never_after_where(
            #[trigger] p->Ask_1(r),
            known,
            bad,
            git_safety::pushes(),
        ) by {}
    }
    assert forall|root: Text| script::never_after_where(
        #[trigger] git_run::syncing_root(job, root),
        known,
        bad,
        git_safety::pushes(),
    ) by {
        assert(script::unbothered(git_flow::blocked(root), bad));
        script::lemma_never_after_where_bind(
            git_flow::blocked(root),
            |b: Option<Text>|
                match b {
                    Some(reason) => git_run::failed(reason),
                    None => git_run::syncing_status(job, root),
                },
            known,
            bad,
            git_safety::pushes(),
        );
    }
    assert(script::unbothered(git_flow::toplevel(job.dir), bad));
    script::lemma_never_after_where_bind(
        git_flow::toplevel(job.dir),
        |t: Result<Text, Text>|
            match t {
                Err(e) => git_run::failed(e),
                Ok(root) => git_run::syncing_root(job, root),
            },
        known,
        bad,
        git_safety::pushes(),
    );
}

/// Lemma: pushing what an earlier session left behind does not push unrelated
/// commits.
proof fn lemma_catching_up_is_checked(dir: Text, file: Text, relpath: Text)
    ensures
        script::never_after_where(
            git_run::catching_up(dir, file),
            path_is(relpath),
            git_safety::unrelated_found(relpath),
            git_safety::pushes(),
        ),
{
    let known = path_is(relpath);
    let bad = git_safety::unrelated_found(relpath);
    assert forall|root: Text, tip: Text| script::never_after_where(
        #[trigger] git_run::catching_up_counted(dir, file, root, tip),
        known,
        bad,
        git_safety::pushes(),
    ) by {
        lemma_left_entry_is_checked(dir, file, root, tip, relpath);
        assert(script::unbothered(git_flow::count_ahead(root, tip), bad));
        script::lemma_never_after_where_bind(
            git_flow::count_ahead(root, tip),
            |n: Option<u64>|
                if n is None || n == Some(0u64) {
                    Procedure::Done(OutcomeModel::Skipped)
                } else {
                    git_run::catching_up_entry(dir, file, root, tip)
                },
            known,
            bad,
            git_safety::pushes(),
        );
    }
    assert forall|root: Text| script::never_after_where(
        #[trigger] git_run::catching_up_head(dir, file, root),
        known,
        bad,
        git_safety::pushes(),
    ) by {
        assert(script::unbothered(git_flow::head(root), bad));
        script::lemma_never_after_where_bind(
            git_flow::head(root),
            |h: Option<Text>|
                match h {
                    None => Procedure::Done(OutcomeModel::Skipped),
                    Some(tip) => git_run::catching_up_counted(dir, file, root, tip),
                },
            known,
            bad,
            git_safety::pushes(),
        );
    }
    assert forall|root: Text| script::never_after_where(
        #[trigger] git_run::catching_up_root(dir, file, root),
        known,
        bad,
        git_safety::pushes(),
    ) by {
        assert(script::unbothered(git_flow::blocked(root), bad));
        script::lemma_never_after_where_bind(
            git_flow::blocked(root),
            |b: Option<Text>|
                match b {
                    Some(reason) => git_run::failed(reason),
                    None => git_run::catching_up_head(dir, file, root),
                },
            known,
            bad,
            git_safety::pushes(),
        );
    }
    assert(script::unbothered(git_flow::toplevel(dir), bad));
    script::lemma_never_after_where_bind(
        git_flow::toplevel(dir),
        |t: Result<Text, Text>|
            match t {
                Err(e) => git_run::failed(e),
                Ok(root) => git_run::catching_up_root(dir, file, root),
            },
        known,
        bad,
        git_safety::pushes(),
    );
}

/// Law: in no job, from its beginning to its end, is anything pushed once a
/// commit that would be pushed is seen to be a merge or to touch another file
/// than the checklist, or cannot be looked at. `relpath` is the path that git
/// gives the checklist.
pub proof fn law_no_job_pushes_unrelated_commits(job: JobModel, relpath: Text)
    ensures
        script::never_after_where(
            git_run::performing(job),
            path_is(relpath),
            git_safety::unrelated_found(relpath),
            git_safety::pushes(),
        ),
{
    match job {
        JobModel::Sync(change) => {
            lemma_syncing_is_checked(change, relpath);
        },
        JobModel::Retry { .. } => {
            let bad = git_safety::unrelated_found(relpath);
            assert(script::unbothered(git_run::performing(job), bad));
            script::lemma_never_after_unbothered(git_run::performing(job), bad, git_safety::pushes());
            script::lemma_never_after_anywhere(
                git_run::performing(job),
                path_is(relpath),
                bad,
                git_safety::pushes(),
            );
        },
        JobModel::CatchUp { dir, file } => {
            lemma_catching_up_is_checked(dir, file, relpath);
        },
    }
}

/// The predicate "looks at the history": at what is pushed already, or at the
/// commits that would be pushed.
pub open spec fn looks_at_history() -> spec_fn(StepModel) -> bool {
    |s: StepModel| s.action is VerifyUpstream || s.action is RangeParents
}

/// Lemma: a commit that is handed on was looked at.
proof fn lemma_made_commit_was_looked_at(plan: PlanModel, index_name: Text)
    ensures
        script::unless_asked(
            git_commit::committing_in_git_dir(plan, index_name),
            looks_at_history(),
            git_laws::is_error(),
        ),
{
    broadcast use script::group_unless_asked;

    let first = looks_at_history();
    let stop = git_laws::is_error();
    assert forall|p: PlanModel, before: Option<Text>| script::unless_asked(
        #[trigger] git_commit::committing_and_removing(p, before),
        first,
        stop,
    ) by {
        assert(script::unless_asked(git_commit::building(p, before), first, stop));
        script::lemma_unless_asked_bind_if(
            git_commit::building(p, before),
            |c: Result<Text, Text>| git_commit::removing_index(p, c),
            first,
            stop,
            stop,
        );
    }
}

/// Law: a job that commits a change, or pushes what an earlier session left
/// behind, pushes nothing before it looked at the history. (Pushing a commit
/// again is left out: the job that made that commit looked at it.)
pub proof fn law_history_is_looked_at_before_a_push(job: JobModel)
    requires
        !(job is Retry),
    ensures
        script::only_after(git_run::performing(job), looks_at_history(), git_safety::pushes()),
{
    broadcast use script::group_only_after;

    let first = looks_at_history();
    if let JobModel::Sync(change) = job {
        assert forall|at: TargetModel, blob: Text| script::only_after(
            #[trigger] git_run::syncing_blob(change, at, blob),
            first,
            git_safety::pushes(),
        ) by {
            let plan = git_run::planned(change, at, blob);
            lemma_made_commit_was_looked_at(plan, change.index_name);
            script::lemma_only_after_bind_if(
                git_commit::committing_in_git_dir(plan, change.index_name),
                |c: Result<Text, Text>|
                    match c {
                        Err(e) => git_run::failed(e),
                        Ok(created) => git_push::pushing_if_current(change.dir, at.root, created),
                    },
                first,
                git_safety::pushes(),
                git_laws::is_error(),
            );
        }
        assert forall|root: Text, mode: Text, relpath: Text| script::only_after(
            #[trigger] git_run::syncing_tip(change, root, mode, relpath),
            first,
            git_safety::pushes(),
        ) by {
            assert forall|at: TargetModel| script::only_after(
                #[trigger] git_run::syncing_staged(change, at),
                first,
                git_safety::pushes(),
            ) by {}
        }
    }
}

// ----- Commits that are left over --------------------------------------

/// The reply says that there are commits to be pushed.
pub open spec fn left_over() -> spec_fn(StepModel, Reply) -> bool {
    |s: StepModel, r: Reply|
        s.action is CountAhead && (git_flow::answer_if_ok(r) matches Some(number)
            && git_text::parsed_number(number) matches Some(n) && n > 0)
}

/// The predicate "is a number above zero".
pub open spec fn some_ahead() -> spec_fn(Option<u64>) -> bool {
    |n: Option<u64>| n matches Some(k) && k > 0
}

/// The predicate "is not that there was nothing to do".
pub open spec fn not_skipped() -> spec_fn(OutcomeModel) -> bool {
    |o: OutcomeModel| !(o is Skipped)
}

/// Lemma: commits that are left over are not passed over where the content is
/// committed already.
proof fn lemma_ahead_is_pushed(dir: Text, root: Text, tip: Text)
    ensures
        script::stops_after(
            git_run::pushing_if_ahead(dir, root, tip),
            left_over(),
            not_skipped(),
        ),
{
    script::lemma_stops_after_bind(
        git_flow::count_ahead(root, tip),
        |n: Option<u64>|
            if n == Some(0u64) {
                Procedure::Done(OutcomeModel::Skipped)
            } else {
                git_push::pushing(dir, tip)
            },
        left_over(),
        some_ahead(),
        not_skipped(),
    );
}

/// The reply says that none of the commits that would be pushed touches the
/// checklist.
pub open spec fn all_foreign(relpath: Text) -> spec_fn(StepModel, Reply) -> bool {
    |s: StepModel, r: Reply|
        match s.action {
            Action::RangeParents { .. } => git_flow::succeeded(r) && git_flow::commit_list(
                git_text::lines(git_text::lossy_text(git_flow::printed(r))),
            ).len() == 0,
            Action::TouchedPaths { .. } => git_flow::succeeded(r) && !git_text::has_path(
                git_flow::printed(r),
                vstd::utf8::encode_utf8(relpath),
            ),
            _ => false,
        }
}

/// The predicate "is not that the commits have nothing to do with the
/// checklist".
pub open spec fn not_foreign() -> spec_fn(Result<Ahead, Text>) -> bool {
    |x: Result<Ahead, Text>| x != Ok::<Ahead, Text>(Ahead::Foreign)
}

/// The predicate "is whatever it is".
pub open spec fn anything<T>() -> spec_fn(T) -> bool {
    |v: T| true
}

/// Lemma: commits that touch the checklist are seen to.
proof fn lemma_ahead_sees_own(root: Text, base: Text, tip: Text, relpath: Text)
    ensures
        script::results_unless(
            git_push::ahead(root, base, tip, relpath),
            all_foreign(relpath),
            not_foreign(),
        ),
{
    let p = git_push::ahead(root, base, tip, relpath);
    let spared = all_foreign(relpath);
    assert forall|r: Reply| !spared(p->Ask_0, r) implies script::results_unless(
        #[trigger] p->Ask_1(r),
        spared,
        not_foreign(),
    ) by {
        let q = p->Ask_1(r);
        if q is Ask {
            assert forall|a: Reply| !spared(q->Ask_0, a) implies script::results_unless(
                #[trigger] q->Ask_1(a),
                spared,
                not_foreign(),
            ) by {}
        }
    }
}

/// Lemma: commits of the checklist's own are not passed over.
proof fn lemma_own_is_pushed(dir: Text, root: Text, tip: Text, relpath: Text)
    ensures
        script::results_unless(
            git_run::pushing_own(dir, root, tip, relpath),
            all_foreign(relpath),
            not_skipped(),
        ),
{
    let spared = all_foreign(relpath);
    assert(script::results(git_push::pushing(dir, tip), not_skipped()));
    script::lemma_results_anywhere(git_push::pushing(dir, tip), spared, not_skipped());
    let k = |u: Result<Option<Text>, Text>|
        match u {
            Err(e) => git_run::failed(git_push::unverified_history(e)),
            Ok(None) => git_push::pushing(dir, tip),
            Ok(Some(base)) => script::bind(
                git_push::ahead(root, base, tip, relpath),
                |x: Result<Ahead, Text>| git_run::pushing_ahead(dir, tip, x),
            ),
        };
    assert forall|u: Result<Option<Text>, Text>| script::results_unless(
        #[trigger] k(u),
        spared,
        not_skipped(),
    ) by {
        if let Ok(Some(base)) = u {
            lemma_ahead_sees_own(root, base, tip, relpath);
            script::lemma_results_unless_bind(
                git_push::ahead(root, base, tip, relpath),
                |x: Result<Ahead, Text>| git_run::pushing_ahead(dir, tip, x),
                spared,
                not_foreign(),
                not_skipped(),
            );
        }
    }
    assert(script::results(git_flow::upstream(root), anything::<Result<Option<Text>, Text>>()));
    script::lemma_results_anywhere(git_flow::upstream(root), spared, anything());
    script::lemma_results_unless_bind(
        git_flow::upstream(root),
        k,
        spared,
        anything(),
        not_skipped(),
    );
}

/// Lemma: commits of the checklist's own are not passed over once they are
/// counted.
proof fn lemma_counted_is_pushed(dir: Text, root: Text, tip: Text, relpath: Text)
    ensures
        script::stops_after_where(
            script::bind(
                git_flow::count_ahead(root, tip),
                |n: Option<u64>|
                    if n is None || n == Some(0u64) {
                        Procedure::Done(OutcomeModel::Skipped)
                    } else {
                        git_run::pushing_own(dir, root, tip, relpath)
                    },
            ),
            path_is(relpath),
            left_over(),
            all_foreign(relpath),
            not_skipped(),
        ),
{
    let known = path_is(relpath);
    let bad = left_over();
    let spared = all_foreign(relpath);
    let own = git_run::pushing_own(dir, root, tip, relpath);
    let k = |n: Option<u64>|
        if n is None || n == Some(0u64) {
            Procedure::Done(OutcomeModel::Skipped)
        } else {
            own
        };
    lemma_own_is_pushed(dir, root, tip, relpath);
    assert(script::unbothered(own, bad));
    script::lemma_stops_after_unbothered(own, bad, not_skipped());
    script::lemma_stops_after_anywhere(own, known, bad, spared, not_skipped());
    let step = git_flow::step_in(root, Action::CountAhead { tip });
    let f = |r: Reply|
        Procedure::Done(
            match git_flow::answer_if_ok(r) {
                Some(number) => git_text::parsed_number(number),
                None => None,
            },
        );
    assert forall|r: Reply| known(step, r) implies if bad(step, r) {
        script::results_unless(script::bind(#[trigger] f(r), k), spared, not_skipped())
    } else {
        script::stops_after_where(script::bind(f(r), k), known, bad, spared, not_skipped())
    } by {}
    script::lemma_stops_after_where_ask(step, f, k, known, bad, spared, not_skipped());
}

/// Lemma: commits of the checklist's own that are left over are not passed
/// over where it is unchanged.
proof fn lemma_rest_is_pushed(dir: Text, root: Text, relpath: Text)
    ensures
        script::stops_after_where(
            git_run::pushing_rest(dir, root, relpath),
            path_is(relpath),
            left_over(),
            all_foreign(relpath),
            not_skipped(),
        ),
{
    let known = path_is(relpath);
    let bad = left_over();
    let spared = all_foreign(relpath);
    let k = |h: Option<Text>|
        match h {
            None => Procedure::Done(OutcomeModel::Skipped),
            Some(tip) => script::bind(
                git_flow::count_ahead(root, tip),
                |n: Option<u64>|
                    if n is None || n == Some(0u64) {
                        Procedure::Done(OutcomeModel::Skipped)
                    } else {
                        git_run::pushing_own(dir, root, tip, relpath)
                    },
            ),
        };
    assert forall|h: Option<Text>| script::stops_after_where(
        #[trigger] k(h),
        known,
        bad,
        spared,
        not_skipped(),
    ) by {
        if let Some(tip) = h {
            lemma_counted_is_pushed(dir, root, tip, relpath);
        }
    }
    assert(script::unbothered(git_flow::head(root), bad));
    script::lemma_stops_after_where_bind(
        git_flow::head(root),
        k,
        known,
        bad,
        spared,
        not_skipped(),
    );
}

/// Lemma: commits that an earlier session left behind are not passed over.
proof fn lemma_left_behind_is_pushed(dir: Text, file: Text, root: Text, tip: Text)
    ensures
        script::stops_after(
            git_run::catching_up_counted(dir, file, root, tip),
            left_over(),
            not_skipped(),
        ),
{
    script::lemma_stops_after_bind(
        git_flow::count_ahead(root, tip),
        |n: Option<u64>|
            if n is None || n == Some(0u64) {
                Procedure::Done(OutcomeModel::Skipped)
            } else {
                git_run::catching_up_entry(dir, file, root, tip)
            },
        left_over(),
        some_ahead(),
        not_skipped(),
    );
}

/// Law: where an earlier session left commits behind, the job that pushes them
/// does not come to "nothing to do" once it is told of them: it pushes them, or
/// says why not.
pub proof fn law_commits_left_behind_are_not_passed_over(dir: Text, file: Text)
    ensures
        script::stops_after(git_run::catching_up(dir, file), left_over(), not_skipped()),
{
    assert forall|root: Text, tip: Text| script::stops_after(
        #[trigger] git_run::catching_up_counted(dir, file, root, tip),
        left_over(),
        not_skipped(),
    ) by {
        lemma_left_behind_is_pushed(dir, file, root, tip);
    }
}

/// Lemma: commits that are left over are not passed over where the checklist
/// is changed.
proof fn lemma_tip_is_pushed(change: SyncJobModel, root: Text, mode: Text, relpath: Text)
    ensures
        script::stops_after(
            git_run::syncing_tip(change, root, mode, relpath),
            left_over(),
            not_skipped(),
        ),
{
    assert forall|dir: Text, from: Text, tip: Text| script::stops_after(
        #[trigger] git_run::pushing_if_ahead(dir, from, tip),
        left_over(),
        not_skipped(),
    ) by {
        lemma_ahead_is_pushed(dir, from, tip);
    }
    assert forall|at: TargetModel| script::stops_after(
        #[trigger] git_run::syncing_staged(change, at),
        left_over(),
        not_skipped(),
    ) by {
        script::lemma_stops_after_results(
            git_run::syncing_staged(change, at),
            left_over(),
            not_skipped(),
        );
    }
}

/// Lemma: commits of the checklist's own are not passed over once its path is
/// known.
proof fn lemma_entry_is_pushed(job: SyncJobModel, root: Text, unchanged: bool, relpath: Text)
    ensures
        script::stops_after_where(
            git_run::syncing_entry(job, root, unchanged),
            path_is(relpath),
            left_over(),
            all_foreign(relpath),
            not_skipped(),
        ),
{
    let known = path_is(relpath);
    let bad = left_over();
    let spared = all_foreign(relpath);
    let k = |e: Result<Option<(Text, Text)>, Text>|
        match e {
            Err(m) => git_run::failed(m),
            Ok(None) => Procedure::Done(OutcomeModel::SkippedUntracked),
            Ok(Some((mode, path))) => if unchanged {
                git_run::pushing_rest(job.dir, root, path)
            } else {
                git_run::syncing_tip(job, root, mode, path)
            },
        };
    let step = git_flow::step_in(job.dir, Action::IndexEntry { path: job.file });
    let f = |r: Reply| Procedure::Done(git_flow::entry_of(r));
    assert forall|r: Reply| known(step, r) implies if bad(step, r) {
        script::results_unless(script::bind(#[trigger] f(r), k), spared, not_skipped())
    } else {
        script::stops_after_where(script::bind(f(r), k), known, bad, spared, not_skipped())
    } by {
        if let Ok(Some((mode, path))) = git_flow::entry_of(r) {
            lemma_rest_is_pushed(job.dir, root, path);
            lemma_tip_is_pushed(job, root, mode, path);
            script::lemma_stops_after_anywhere(
                git_run::syncing_tip(job, root, mode, path),
                known,
                bad,
                spared,
                not_skipped(),
            );
        }
    }
    script::lemma_stops_after_where_ask(step, f, k, known, bad, spared, not_skipped());
}

/// Lemma: commits of the checklist's own are not passed over when a change is
/// committed and pushed.
proof fn lemma_syncing_pushes(job: SyncJobModel, relpath: Text)
    ensures
        script::stops_after_where(
            git_run::syncing(job),
            path_is(relpath),
            left_over(),
            all_foreign(relpath),
            not_skipped(),
        ),
{
    let known = path_is(relpath);
    let bad = left_over();
    let spared = all_foreign(relpath);
    assert forall|root: Text| script::stops_after_where(
        #[trigger] git_run::syncing_status(job, root),
        known,
        bad,
        spared,
        not_skipped(),
    ) by {
        lemma_entry_is_pushed(job, root, true, relpath);
        lemma_entry_is_pushed(job, root, false, relpath);
        let p = git_run::syncing_status(job, root);
        let step = git_flow::step_in(job.dir, Action::Status { path: job.file });
        assert forall|r: Reply| !bad(step, r) && script::stops_after_where(
            #[trigger] p->Ask_1(r),
            known,
            bad,
            spared,
            not_skipped(),
        ) by {}
    }
    assert forall|root: Text| script::stops_after_where(
        #[trigger] git_run::syncing_root(job, root),
        known,
        bad,
        spared,
        not_skipped(),
    ) by {
        assert(script::unbothered(git_flow::blocked(root), bad));
        script::lemma_stops_after_where_bind(
            git_flow::blocked(root),
            |b: Option<Text>|
                match b {
                    Some(reason) => git_run::failed(reason),
                    None => git_run::syncing_status(job, root),
                },
            known,
            bad,
            spared,
            not_skipped(),
        );
    }
    assert(script::unbothered(git_flow::toplevel(job.dir), bad));
    script::lemma_stops_after_where_bind(
        git_flow::toplevel(job.dir),
        |t: Result<Text, Text>|
            match t {
                Err(e) => git_run::failed(e),
                Ok(root) => git_run::syncing_root(job, root),
            },
        known,
        bad,
        spared,
        not_skipped(),
    );
}

/// Law: a job that is told of commits that are not pushed yet does not come to
/// "nothing to do", unless git then says that none of them touches the
/// checklist: it pushes them, or says why not. `relpath` is the path that git
/// gives the checklist.
pub proof fn law_unpushed_commits_are_not_passed_over(job: JobModel, relpath: Text)
    ensures
        script::stops_after_where(
            git_run::performing(job),
            path_is(relpath),
            left_over(),
            all_foreign(relpath),
            not_skipped(),
        ),
{
    match job {
        JobModel::Sync(change) => {
            lemma_syncing_pushes(change, relpath);
        },
        JobModel::Retry { dir, commit } => {
            assert(script::unbothered(git_push::retrying(dir, commit), left_over()));
            script::lemma_stops_after_anywhere(
                git_run::performing(job),
                path_is(relpath),
                left_over(),
                all_foreign(relpath),
                not_skipped(),
            );
        },
        JobModel::CatchUp { dir, file } => {
            law_commits_left_behind_are_not_passed_over(dir, file);
            script::lemma_stops_after_anywhere(
                git_run::performing(job),
                path_is(relpath),
                left_over(),
                all_foreign(relpath),
                not_skipped(),
            );
        },
    }
}

/// The predicate "is that there was nothing to do".
pub open spec fn is_skipped() -> spec_fn(OutcomeModel) -> bool {
    |o: OutcomeModel| o is Skipped
}

/// The predicate "is that the commits have nothing to do with the checklist".
pub open spec fn is_foreign() -> spec_fn(Result<Ahead, Text>) -> bool {
    |x: Result<Ahead, Text>| x == Ok::<Ahead, Text>(Ahead::Foreign)
}

/// Lemma: commits that do not touch the checklist are left alone.
proof fn lemma_others_are_left_alone(dir: Text, root: Text, tip: Text, relpath: Text)
    ensures
        script::stops_after(
            git_run::pushing_own(dir, root, tip, relpath),
            all_foreign(relpath),
            is_skipped(),
        ),
        script::never_after(
            git_run::pushing_own(dir, root, tip, relpath),
            all_foreign(relpath),
            git_safety::pushes(),
        ),
{
    let bad = all_foreign(relpath);
    assert forall|commit: Text| script::never_after(
        #[trigger] git_push::pushing(dir, commit),
        bad,
        git_safety::pushes(),
    ) && script::stops_after(git_push::pushing(dir, commit), bad, is_skipped()) by {
        let p = git_push::pushing(dir, commit);
        assert(script::unbothered(p, bad));
        script::lemma_never_after_unbothered(p, bad, git_safety::pushes());
        script::lemma_stops_after_unbothered(p, bad, is_skipped());
    }
    let k = |x: Result<Ahead, Text>| git_run::pushing_ahead(dir, tip, x);
    assert forall|base: Text| script::never_after(
        script::bind(#[trigger] git_push::ahead(root, base, tip, relpath), k),
        bad,
        git_safety::pushes(),
    ) && script::stops_after(
        script::bind(git_push::ahead(root, base, tip, relpath), k),
        bad,
        is_skipped(),
    ) by {
        let p = git_push::ahead(root, base, tip, relpath);
        assert(script::stops_after(p, bad, is_foreign()));
        assert(script::always(p, |s: StepModel| !git_safety::pushes()(s)));
        script::lemma_never_after_harmless(p, bad, git_safety::pushes());
        script::lemma_never_after_bind(p, k, bad, git_safety::pushes(), is_foreign());
        script::lemma_stops_after_bind(p, k, bad, is_foreign(), is_skipped());
    }
}

/// Law: where the checklist is unchanged and none of the commits ahead touches
/// it, there is nothing to do, and nothing is pushed.
pub proof fn law_commits_of_others_are_left_alone(dir: Text, root: Text, relpath: Text)
    ensures
        script::stops_after(
            git_run::pushing_rest(dir, root, relpath),
            all_foreign(relpath),
            is_skipped(),
        ),
        script::never_after(
            git_run::pushing_rest(dir, root, relpath),
            all_foreign(relpath),
            git_safety::pushes(),
        ),
{
    let bad = all_foreign(relpath);
    assert forall|tip: Text| script::stops_after(
        #[trigger] git_run::pushing_own(dir, root, tip, relpath),
        bad,
        is_skipped(),
    ) && script::never_after(
        git_run::pushing_own(dir, root, tip, relpath),
        bad,
        git_safety::pushes(),
    ) by {
        lemma_others_are_left_alone(dir, root, tip, relpath);
    }
}

// ----- Content that is committed ---------------------------------------

/// Law: in no job that commits a change, from its beginning to its end, is
/// anything changed in the repository once git says that the commit the branch
/// is at has that content already.
pub proof fn law_no_job_commits_content_again(job: SyncJobModel)
    ensures
        script::never_after(
            git_run::syncing(job),
            git_safety::has_content(job.content),
            git_safety::changes_repository(),
        ),
{
    let bad = git_safety::has_content(job.content);
    let danger = git_safety::changes_repository();
    assert forall|at: TargetModel| script::never_after(
        #[trigger] git_run::syncing_content(job, at),
        bad,
        danger,
    ) by {
        git_safety::law_committed_content_is_not_committed_again(job, at);
    }
    assert forall|root: Text, relpath: Text| script::never_after(
        #[trigger] git_run::pushing_rest(job.dir, root, relpath),
        bad,
        danger,
    ) by {
        let p = git_run::pushing_rest(job.dir, root, relpath);
        assert(script::unbothered(p, bad));
        script::lemma_never_after_unbothered(p, bad, danger);
    }
    assert forall|root: Text, mode: Text, relpath: Text| script::never_after(
        #[trigger] git_run::syncing_tip(job, root, mode, relpath),
        bad,
        danger,
    ) by {}
    assert forall|root: Text, unchanged: bool| script::never_after(
        #[trigger] git_run::syncing_entry(job, root, unchanged),
        bad,
        danger,
    ) by {}
}

} // verus!
