//! The procedures of git-sync as a whole: committing and pushing a change,
//! pushing a commit again, and pushing what an earlier session left behind.

use vstd::prelude::*;

use crate::git_commit::{commit_via_temp_index, staged_target_would_be_lost, CommitPlan, PlanModel};
use crate::git_flow::{
    ask_blob_at, ask_index_entry, ask_toplevel, blob_bytes_at, commits_ahead_of_upstream,
    current_head, failure_text, hash_object, is_success, make_step, output_of, read_accounted_for,
    repo_sync_blocked, resolve_parent, resolve_upstream, OutcomeModel, SyncOutcome, Text,
};
use crate::git_push::{
    push, push_if_head_unchanged, retry_commit, unpushed_history_blocks, unrelated_text,
    unverified_text, whose_commits_are_ahead, Ahead,
};
use crate::git_step::{Action, Reply, Step};
use crate::git_text::same_bytes;
use crate::script::{Modeled, Procedure, Progress, Script};
use crate::text::{copy_of, ContentHash};
use crate::{git_commit, git_flow, git_push, script};

verus! {

broadcast use script::group_run;

/// A change to commit and push: the checklist `file`, in the directory `dir`,
/// is to have `content`. `previous` is the hash of the version that may be
/// staged without getting lost, where it is known; `index_name` is the name of the temporary index.
#[derive(Debug)]
pub struct SyncJob {
    pub dir: String,
    pub file: String,
    pub content: String,
    pub message: String,
    pub previous: Option<ContentHash>,
    pub index_name: String,
}

/// A change to commit and push, as a mathematical value.
pub struct SyncJobModel {
    pub dir: Text,
    pub file: Text,
    pub content: Text,
    pub message: Text,
    pub previous: Option<ContentHash>,
    pub index_name: Text,
}

impl View for SyncJob {
    type V = SyncJobModel;

    open spec fn view(&self) -> SyncJobModel {
        SyncJobModel {
            dir: self.dir@,
            file: self.file@,
            content: self.content@,
            message: self.message@,
            previous: self.previous,
            index_name: self.index_name@,
        }
    }
}

/// Where the checklist was found: the root of the work tree, the file's mode
/// and path in it, and the commit that the branch is at.
pub struct Target {
    pub root: String,
    pub mode: String,
    pub relpath: String,
    pub tip: Option<String>,
}

/// Where the checklist was found, as a mathematical value.
pub struct TargetModel {
    pub root: Text,
    pub mode: Text,
    pub relpath: Text,
    pub tip: Option<Text>,
}

impl View for Target {
    type V = TargetModel;

    open spec fn view(&self) -> TargetModel {
        TargetModel {
            root: self.root@,
            mode: self.mode@,
            relpath: self.relpath@,
            tip: self.tip.model(),
        }
    }
}

/// What failed came to.
pub open spec fn failed(message: Text) -> Procedure<OutcomeModel> {
    Procedure::Done(OutcomeModel::Failed(message))
}

// ----- Committing and pushing a change ---------------------------------

/// Commits and pushes a change.
pub open spec fn syncing(job: SyncJobModel) -> Procedure<OutcomeModel> {
    script::bind(
        git_flow::toplevel(job.dir),
        |t: Result<Text, Text>|
            match t {
                Err(e) => failed(e),
                Ok(root) => syncing_root(job, root),
            },
    )
}

/// As `syncing`, once the root of the work tree is known.
pub open spec fn syncing_root(job: SyncJobModel, root: Text) -> Procedure<OutcomeModel> {
    script::bind(
        git_flow::blocked(root),
        |b: Option<Text>|
            match b {
                Some(reason) => failed(reason),
                None => syncing_status(job, root),
            },
    )
}

/// As `syncing`, once the repository may be touched: a file that is not
/// tracked needs nothing.
pub open spec fn syncing_status(job: SyncJobModel, root: Text) -> Procedure<OutcomeModel> {
    Procedure::Ask(
        git_flow::step_in(job.dir, Action::Status { path: job.file }),
        |r: Reply|
            if !git_flow::succeeded(r) {
                failed(git_flow::failure("git status"@, r))
            } else if is_untracked_status(git_flow::printed(r)) {
                Procedure::Done(OutcomeModel::SkippedUntracked)
            } else {
                syncing_entry(job, root, git_flow::printed(r).len() == 0)
            },
    )
}

/// The status begins with `??`.
pub open spec fn is_untracked_status(printed: Seq<u8>) -> bool {
    printed.len() >= 2 && printed[0] == 63 && printed[1] == 63
}

/// As `syncing`, once the status is known. The index, not the status, settles
/// whether the file is tracked.
pub open spec fn syncing_entry(job: SyncJobModel, root: Text, unchanged: bool) -> Procedure<
    OutcomeModel,
> {
    script::bind(
        git_flow::index_entry(job.dir, job.file),
        |e: Result<Option<(Text, Text)>, Text>|
            match e {
                Err(m) => failed(m),
                Ok(None) => Procedure::Done(OutcomeModel::SkippedUntracked),
                Ok(Some((mode, relpath))) => if unchanged {
                    pushing_rest(job.dir, root, relpath)
                } else {
                    syncing_tip(job, root, mode, relpath)
                },
            },
    )
}

/// Pushes what was committed of the checklist and not pushed, where there is
/// known to be anything, and nothing to be committed.
pub open spec fn pushing_rest(dir: Text, root: Text, relpath: Text) -> Procedure<OutcomeModel> {
    script::bind(
        git_flow::head(root),
        |h: Option<Text>|
            match h {
                None => Procedure::Done(OutcomeModel::Skipped),
                Some(tip) => script::bind(
                    git_flow::count_ahead(root, tip),
                    |n: Option<u64>|
                        if n is None || n == Some(0u64) {
                            Procedure::Done(OutcomeModel::Skipped)
                        } else {
                            pushing_own(dir, root, tip, relpath)
                        },
                ),
            },
    )
}

/// Pushes `tip` if the commits that would be pushed are the checklist's own.
/// Where none of them touches the checklist there is nothing to do; where one
/// does, and another is unrelated, that is refused.
pub open spec fn pushing_own(dir: Text, root: Text, tip: Text, relpath: Text) -> Procedure<
    OutcomeModel,
> {
    script::bind(
        git_flow::upstream(root),
        |u: Result<Option<Text>, Text>|
            match u {
                Err(e) => failed(git_push::unverified_history(e)),
                Ok(None) => git_push::pushing(dir, tip),
                Ok(Some(base)) => script::bind(
                    git_push::ahead(root, base, tip, relpath),
                    |x: Result<Ahead, Text>| pushing_ahead(dir, tip, x),
                ),
            },
    )
}

/// As `pushing_own`, once it is known whose the commits are.
pub open spec fn pushing_ahead(dir: Text, tip: Text, found: Result<Ahead, Text>) -> Procedure<
    OutcomeModel,
> {
    match found {
        Err(e) => failed(git_push::unverified_history(e)),
        Ok(Ahead::Foreign) => Procedure::Done(OutcomeModel::Skipped),
        Ok(Ahead::Mixed) => failed(git_push::unrelated_history()),
        Ok(Ahead::Own) => git_push::pushing(dir, tip),
    }
}

/// Pushes `tip`, unless a commit that is unrelated to the checklist would be
/// pushed with it.
pub open spec fn pushing_checked(dir: Text, root: Text, tip: Text, relpath: Text) -> Procedure<
    OutcomeModel,
> {
    script::bind(
        git_push::history_refusal(root, Some(tip), relpath),
        |h: Option<Text>|
            match h {
                Some(reason) => failed(reason),
                None => git_push::pushing(dir, tip),
            },
    )
}

/// As `syncing`, once the file is known to be tracked and changed. The commit
/// that the branch is at is looked up once, and everything after speaks of it.
pub open spec fn syncing_tip(job: SyncJobModel, root: Text, mode: Text, relpath: Text) -> Procedure<
    OutcomeModel,
> {
    script::bind(
        git_flow::parent(root),
        |t: Result<Option<Text>, Text>|
            match t {
                Err(e) => failed(e),
                Ok(tip) => script::bind(
                    git_push::history_refusal(root, tip, relpath),
                    |h: Option<Text>|
                        match h {
                            Some(reason) => failed(reason),
                            None => syncing_content(job, TargetModel { root, mode, relpath, tip }),
                        },
                ),
            },
    )
}

/// As `syncing`, once the history is known to hold nothing unrelated: content
/// that is committed already is pushed, if it has to be, and not committed
/// again.
pub open spec fn syncing_content(job: SyncJobModel, at: TargetModel) -> Procedure<OutcomeModel> {
    match at.tip {
        None => syncing_disk(job, at),
        Some(tip) => script::bind(
            git_flow::content_at(at.root, tip, at.relpath),
            |c: Option<Seq<u8>>|
                if c == Some(vstd::utf8::encode_utf8(job.content)) {
                    pushing_if_ahead(job.dir, at.root, tip)
                } else {
                    syncing_disk(job, at)
                },
        ),
    }
}

/// Pushes `tip`, unless it is known to be pushed.
pub open spec fn pushing_if_ahead(dir: Text, root: Text, tip: Text) -> Procedure<OutcomeModel> {
    script::bind(
        git_flow::count_ahead(root, tip),
        |n: Option<u64>|
            if n == Some(0u64) {
                Procedure::Done(OutcomeModel::Skipped)
            } else {
                git_push::pushing(dir, tip)
            },
    )
}

/// As `syncing`, once the content is known not to be committed: the file must
/// hold what was last asked to be committed.
pub open spec fn syncing_disk(job: SyncJobModel, at: TargetModel) -> Procedure<OutcomeModel> {
    Procedure::Ask(
        git_flow::step_in(job.dir, Action::ReadChecklist),
        |r: Reply|
            if git_flow::accounted_for(r) {
                syncing_staged(job, at)
            } else {
                failed(
                    "git-sync: file changed since this request was queued; edit or toggle again to sync the current content"@,
                )
            },
    )
}

/// The blob of the checklist at the commit that the branch is at.
pub open spec fn committed_blob(at: TargetModel) -> Procedure<Option<Text>> {
    match at.tip {
        None => Procedure::Done(None),
        Some(tip) => git_flow::blob_at(at.root, tip, at.relpath),
    }
}

/// As `syncing`, once the file is known to hold what is expected: nothing that
/// is staged may be lost.
pub open spec fn syncing_staged(job: SyncJobModel, at: TargetModel) -> Procedure<OutcomeModel> {
    script::bind(
        committed_blob(at),
        |b: Option<Text>| syncing_unless_lost(job, at, b),
    )
}

/// As `syncing_staged`, once the committed blob is known.
pub open spec fn syncing_unless_lost(
    job: SyncJobModel,
    at: TargetModel,
    committed: Option<Text>,
) -> Procedure<OutcomeModel> {
    script::bind(
        git_commit::staged_lost(at.root, at.relpath, committed, job.previous),
        |lost: bool|
            if lost {
                failed(staged_refusal())
            } else {
                syncing_commit(job, at)
            },
    )
}

/// The refusal to commit over something that is staged.
pub open spec fn staged_refusal() -> Text {
    "git-sync: the checklist has staged changes that differ from the file on disk; committing would drop them — commit or unstage them first"@
}

/// As `syncing`, once nothing speaks against a commit: it is made, and pushed.
pub open spec fn syncing_commit(job: SyncJobModel, at: TargetModel) -> Procedure<OutcomeModel> {
    script::bind(
        git_flow::store_blob(at.root, job.content),
        |b: Result<Text, Text>|
            match b {
                Err(e) => failed(e),
                Ok(blob) => syncing_blob(job, at, blob),
            },
    )
}

/// As `syncing_commit`, once the content is stored.
pub open spec fn syncing_blob(job: SyncJobModel, at: TargetModel, blob: Text) -> Procedure<
    OutcomeModel,
> {
    script::bind(
        git_commit::committing_in_git_dir(planned(job, at, blob), job.index_name),
        |c: Result<Text, Text>|
            match c {
                Err(e) => failed(e),
                Ok(created) => git_push::pushing_if_current(job.dir, at.root, created),
            },
    )
}

/// The commit that is to be made of a change.
pub open spec fn planned(job: SyncJobModel, at: TargetModel, blob: Text) -> PlanModel {
    PlanModel {
        root: at.root,
        index: Seq::empty(),
        parent: at.tip,
        mode: at.mode,
        blob,
        relpath: at.relpath,
        message: job.message,
    }
}

/// Commits and pushes a change.
pub fn run_sync(s: &mut Script, job: &SyncJob) -> (r: Result<SyncOutcome, Step>)
    ensures
        script::follows(syncing(job@), *old(s), *final(s), r),
{
    let root = match ask_toplevel(s, job.dir.as_str()) {
        Err(step) => {
            return Err(step);
        },
        Ok(Err(e)) => {
            return Ok(SyncOutcome::Failed(e));
        },
        Ok(Ok(root)) => root,
    };
    match repo_sync_blocked(s, root.as_str()) {
        Err(step) => Err(step),
        Ok(Some(reason)) => Ok(SyncOutcome::Failed(reason)),
        Ok(None) => sync_status(s, job, root),
    }
}

/// Commits and pushes a change, once the repository may be touched.
fn sync_status(s: &mut Script, job: &SyncJob, root: String) -> (r: Result<SyncOutcome, Step>)
    ensures
        script::follows(syncing_status(job@, root@), *old(s), *final(s), r),
{
    let action = Action::Status { path: job.file.clone() };
    let unchanged = match s.ask(make_step(job.dir.as_str(), action)) {
        Err(step) => {
            return Err(step);
        },
        Ok(reply) => {
            if !is_success(reply) {
                return Ok(SyncOutcome::Failed(failure_text("git status", reply)));
            }
            let status = output_of(reply);
            if status.len() >= 2 && status[0] == 63 && status[1] == 63 {
                return Ok(SyncOutcome::SkippedUntracked);
            }
            status.len() == 0
        },
    };
    let (mode, relpath) = match ask_index_entry(s, job.dir.as_str(), job.file.as_str()) {
        Err(step) => {
            return Err(step);
        },
        Ok(Err(e)) => {
            return Ok(SyncOutcome::Failed(e));
        },
        Ok(Ok(None)) => {
            return Ok(SyncOutcome::SkippedUntracked);
        },
        Ok(Ok(Some(entry))) => entry,
    };
    if unchanged {
        return push_rest(s, job.dir.as_str(), root.as_str(), relpath.as_str());
    }
    sync_tip(s, job, root, mode, relpath)
}

/// Pushes what was committed of the checklist and not pushed, where there is
/// known to be anything.
fn push_rest(s: &mut Script, dir: &str, root: &str, relpath: &str) -> (r: Result<
    SyncOutcome,
    Step,
>)
    ensures
        script::follows(pushing_rest(dir@, root@, relpath@), *old(s), *final(s), r),
{
    let tip = match current_head(s, root) {
        Err(step) => {
            return Err(step);
        },
        Ok(None) => {
            return Ok(SyncOutcome::Skipped);
        },
        Ok(Some(tip)) => tip,
    };
    match commits_ahead_of_upstream(s, root, tip.as_str()) {
        Err(step) => Err(step),
        Ok(None) => Ok(SyncOutcome::Skipped),
        Ok(Some(ahead)) => {
            if ahead == 0 {
                Ok(SyncOutcome::Skipped)
            } else {
                push_own(s, dir, root, tip.as_str(), relpath)
            }
        },
    }
}

/// Pushes `tip` if the commits that would be pushed are the checklist's own.
fn push_own(s: &mut Script, dir: &str, root: &str, tip: &str, relpath: &str) -> (r: Result<
    SyncOutcome,
    Step,
>)
    ensures
        script::follows(pushing_own(dir@, root@, tip@, relpath@), *old(s), *final(s), r),
{
    let base = match resolve_upstream(s, root) {
        Err(step) => {
            return Err(step);
        },
        Ok(Err(e)) => {
            return Ok(SyncOutcome::Failed(unverified_text(e.as_str())));
        },
        Ok(Ok(None)) => {
            return push(s, dir, tip);
        },
        Ok(Ok(Some(base))) => base,
    };
    match whose_commits_are_ahead(s, root, base.as_str(), tip, relpath) {
        Err(step) => Err(step),
        Ok(Err(e)) => Ok(SyncOutcome::Failed(unverified_text(e.as_str()))),
        Ok(Ok(Ahead::Foreign)) => Ok(SyncOutcome::Skipped),
        Ok(Ok(Ahead::Mixed)) => Ok(SyncOutcome::Failed(unrelated_text())),
        Ok(Ok(Ahead::Own)) => push(s, dir, tip),
    }
}

/// Pushes `tip`, unless a commit that is unrelated to the checklist would be
/// pushed with it.
fn push_checked(s: &mut Script, dir: &str, root: &str, tip: String, relpath: &str) -> (r: Result<
    SyncOutcome,
    Step,
>)
    ensures
        script::follows(pushing_checked(dir@, root@, tip@, relpath@), *old(s), *final(s), r),
{
    let named = Some(tip.clone());
    match unpushed_history_blocks(s, root, &named, relpath) {
        Err(step) => Err(step),
        Ok(Some(reason)) => Ok(SyncOutcome::Failed(reason)),
        Ok(None) => push(s, dir, tip.as_str()),
    }
}

/// Commits and pushes a change, once the file is known to be tracked and
/// changed.
fn sync_tip(s: &mut Script, job: &SyncJob, root: String, mode: String, relpath: String) -> (r: Result<
    SyncOutcome,
    Step,
>)
    ensures
        script::follows(syncing_tip(job@, root@, mode@, relpath@), *old(s), *final(s), r),
{
    let tip = match resolve_parent(s, root.as_str()) {
        Err(step) => {
            return Err(step);
        },
        Ok(Err(e)) => {
            return Ok(SyncOutcome::Failed(e));
        },
        Ok(Ok(tip)) => tip,
    };
    match unpushed_history_blocks(s, root.as_str(), &tip, relpath.as_str()) {
        Err(step) => Err(step),
        Ok(Some(reason)) => Ok(SyncOutcome::Failed(reason)),
        Ok(None) => sync_content(s, job, Target { root, mode, relpath, tip }),
    }
}

/// Whether the optional bytes are there and are those of `content`.
fn holds_content(found: &Option<Vec<u8>>, content: &str) -> (r: bool)
    ensures
        r == (found.model() == Some(vstd::utf8::encode_utf8(content@))),
{
    match found {
        Some(bytes) => same_bytes(bytes.as_slice(), content.as_bytes()),
        None => false,
    }
}

/// Commits and pushes a change, once the history is known to hold nothing
/// unrelated.
fn sync_content(s: &mut Script, job: &SyncJob, at: Target) -> (r: Result<SyncOutcome, Step>)
    ensures
        script::follows(syncing_content(job@, at@), *old(s), *final(s), r),
{
    match &at.tip {
        None => {},
        Some(tip) => match blob_bytes_at(s, at.root.as_str(), tip.as_str(), at.relpath.as_str()) {
            Err(step) => {
                return Err(step);
            },
            Ok(found) => {
                if holds_content(&found, job.content.as_str()) {
                    return push_if_ahead(s, job.dir.as_str(), at.root.as_str(), tip.as_str());
                }
            },
        },
    }
    sync_disk(s, job, at)
}

/// Pushes `tip`, unless it is known to be pushed.
fn push_if_ahead(s: &mut Script, dir: &str, root: &str, tip: &str) -> (r: Result<
    SyncOutcome,
    Step,
>)
    ensures
        script::follows(pushing_if_ahead(dir@, root@, tip@), *old(s), *final(s), r),
{
    match commits_ahead_of_upstream(s, root, tip) {
        Err(step) => Err(step),
        Ok(Some(0)) => Ok(SyncOutcome::Skipped),
        Ok(_) => push(s, dir, tip),
    }
}

/// Commits and pushes a change, once the content is known not to be committed.
fn sync_disk(s: &mut Script, job: &SyncJob, at: Target) -> (r: Result<SyncOutcome, Step>)
    ensures
        script::follows(syncing_disk(job@, at@), *old(s), *final(s), r),
{
    match s.ask(make_step(job.dir.as_str(), Action::ReadChecklist)) {
        Err(step) => {
            return Err(step);
        },
        Ok(reply) => {
            if !read_accounted_for(reply) {
                return Ok(
                    SyncOutcome::Failed(
                        copy_of(
                            "git-sync: file changed since this request was queued; edit or toggle again to sync the current content",
                        ),
                    ),
                );
            }
        },
    }
    sync_staged(s, job, at)
}

/// Asks for the blob of the checklist at the commit that the branch is at.
fn ask_committed_blob(s: &mut Script, at: &Target) -> (r: Result<Option<String>, Step>)
    ensures
        script::follows(committed_blob(at@), *old(s), *final(s), r),
{
    match &at.tip {
        None => Ok(None),
        Some(tip) => ask_blob_at(s, at.root.as_str(), tip.as_str(), at.relpath.as_str()),
    }
}

/// Commits and pushes a change, once the file is known to hold what is
/// expected.
fn sync_staged(s: &mut Script, job: &SyncJob, at: Target) -> (r: Result<SyncOutcome, Step>)
    ensures
        script::follows(syncing_staged(job@, at@), *old(s), *final(s), r),
{
    let committed = match ask_committed_blob(s, &at) {
        Err(step) => {
            return Err(step);
        },
        Ok(committed) => committed,
    };
    match staged_target_would_be_lost(
        s,
        at.root.as_str(),
        at.relpath.as_str(),
        &committed,
        job.previous,
    ) {
        Err(step) => Err(step),
        Ok(lost) => {
            if lost {
                Ok(
                    SyncOutcome::Failed(
                        copy_of(
                            "git-sync: the checklist has staged changes that differ from the file on disk; committing would drop them — commit or unstage them first",
                        ),
                    ),
                )
            } else {
                sync_commit(s, job, at)
            }
        },
    }
}

/// Commits and pushes a change, once nothing speaks against it.
fn sync_commit(s: &mut Script, job: &SyncJob, at: Target) -> (r: Result<SyncOutcome, Step>)
    ensures
        script::follows(syncing_commit(job@, at@), *old(s), *final(s), r),
{
    let blob = match hash_object(s, at.root.as_str(), job.content.as_str()) {
        Err(step) => {
            return Err(step);
        },
        Ok(Err(e)) => {
            return Ok(SyncOutcome::Failed(e));
        },
        Ok(Ok(blob)) => blob,
    };
    let root = at.root.clone();
    let plan = CommitPlan {
        root: at.root,
        index: String::new(),
        parent: at.tip,
        mode: at.mode,
        blob,
        relpath: at.relpath,
        message: job.message.clone(),
    };
    match commit_via_temp_index(s, plan, job.index_name.as_str()) {
        Err(step) => Err(step),
        Ok(Err(e)) => Ok(SyncOutcome::Failed(e)),
        Ok(Ok(created)) => push_if_head_unchanged(
            s,
            job.dir.as_str(),
            root.as_str(),
            created.as_str(),
        ),
    }
}

// ----- Pushing what an earlier session left behind ---------------------

/// Pushes the commits of the checklist that were made and not pushed, where
/// there are known to be any.
pub open spec fn catching_up(dir: Text, file: Text) -> Procedure<OutcomeModel> {
    script::bind(
        git_flow::toplevel(dir),
        |t: Result<Text, Text>|
            match t {
                Err(e) => failed(e),
                Ok(root) => catching_up_root(dir, file, root),
            },
    )
}

/// As `catching_up`, once the root of the work tree is known.
pub open spec fn catching_up_root(dir: Text, file: Text, root: Text) -> Procedure<OutcomeModel> {
    script::bind(
        git_flow::blocked(root),
        |b: Option<Text>|
            match b {
                Some(reason) => failed(reason),
                None => catching_up_head(dir, file, root),
            },
    )
}

/// As `catching_up`, once the repository may be touched.
pub open spec fn catching_up_head(dir: Text, file: Text, root: Text) -> Procedure<OutcomeModel> {
    script::bind(
        git_flow::head(root),
        |h: Option<Text>|
            match h {
                None => Procedure::Done(OutcomeModel::Skipped),
                Some(tip) => catching_up_counted(dir, file, root, tip),
            },
    )
}

/// As `catching_up`, once the commit that `HEAD` is at is known.
pub open spec fn catching_up_counted(dir: Text, file: Text, root: Text, tip: Text) -> Procedure<
    OutcomeModel,
> {
    script::bind(
        git_flow::count_ahead(root, tip),
        |n: Option<u64>|
            if n is None || n == Some(0u64) {
                Procedure::Done(OutcomeModel::Skipped)
            } else {
                catching_up_entry(dir, file, root, tip)
            },
    )
}

/// As `catching_up`, once there is known to be something to push.
pub open spec fn catching_up_entry(dir: Text, file: Text, root: Text, tip: Text) -> Procedure<
    OutcomeModel,
> {
    script::bind(
        git_flow::index_entry(dir, file),
        |e: Result<Option<(Text, Text)>, Text>|
            match e {
                Err(m) => failed(m),
                Ok(None) => Procedure::Done(OutcomeModel::SkippedUntracked),
                Ok(Some((_, relpath))) => pushing_checked(dir, root, tip, relpath),
            },
    )
}

/// Pushes what an earlier session committed and did not push.
pub fn catch_up_push(s: &mut Script, dir: &str, file: &str) -> (r: Result<SyncOutcome, Step>)
    ensures
        script::follows(catching_up(dir@, file@), *old(s), *final(s), r),
{
    let root = match ask_toplevel(s, dir) {
        Err(step) => {
            return Err(step);
        },
        Ok(Err(e)) => {
            return Ok(SyncOutcome::Failed(e));
        },
        Ok(Ok(root)) => root,
    };
    match repo_sync_blocked(s, root.as_str()) {
        Err(step) => {
            return Err(step);
        },
        Ok(Some(reason)) => {
            return Ok(SyncOutcome::Failed(reason));
        },
        Ok(None) => {},
    }
    let tip = match current_head(s, root.as_str()) {
        Err(step) => {
            return Err(step);
        },
        Ok(None) => {
            return Ok(SyncOutcome::Skipped);
        },
        Ok(Some(tip)) => tip,
    };
    match commits_ahead_of_upstream(s, root.as_str(), tip.as_str()) {
        Err(step) => {
            return Err(step);
        },
        Ok(None) => {
            return Ok(SyncOutcome::Skipped);
        },
        Ok(Some(ahead)) => {
            if ahead == 0 {
                return Ok(SyncOutcome::Skipped);
            }
        },
    }
    catch_up_entry(s, dir, file, root.as_str(), tip)
}

/// Pushes what an earlier session left behind, once there is known to be
/// something.
fn catch_up_entry(s: &mut Script, dir: &str, file: &str, root: &str, tip: String) -> (r: Result<
    SyncOutcome,
    Step,
>)
    ensures
        script::follows(catching_up_entry(dir@, file@, root@, tip@), *old(s), *final(s), r),
{
    let relpath = match ask_index_entry(s, dir, file) {
        Err(step) => {
            return Err(step);
        },
        Ok(Err(e)) => {
            return Ok(SyncOutcome::Failed(e));
        },
        Ok(Ok(None)) => {
            return Ok(SyncOutcome::SkippedUntracked);
        },
        Ok(Ok(Some((_, relpath)))) => relpath,
    };
    push_checked(s, dir, root, tip, relpath.as_str())
}

// ----- Jobs ------------------------------------------------------------

/// What the background worker is to do.
#[derive(Debug)]
pub enum Job {
    /// Commit and push a change.
    Sync(SyncJob),
    /// Push a commit again.
    Retry { dir: String, commit: String },
    /// Push what an earlier session left behind.
    CatchUp { dir: String, file: String },
}

/// What the background worker is to do, as a mathematical value.
pub enum JobModel {
    Sync(SyncJobModel),
    Retry { dir: Text, commit: Text },
    CatchUp { dir: Text, file: Text },
}

impl View for Job {
    type V = JobModel;

    open spec fn view(&self) -> JobModel {
        match self {
            Job::Sync(job) => JobModel::Sync(job@),
            Job::Retry { dir, commit } => JobModel::Retry { dir: dir@, commit: commit@ },
            Job::CatchUp { dir, file } => JobModel::CatchUp { dir: dir@, file: file@ },
        }
    }
}

/// A failure to push again is told apart from a failure to commit.
pub open spec fn as_retry(outcome: OutcomeModel) -> OutcomeModel {
    match outcome {
        OutcomeModel::Failed(message) => OutcomeModel::RetryFailed(message),
        other => other,
    }
}

/// What a job asks for and comes to.
pub open spec fn performing(job: JobModel) -> Procedure<OutcomeModel> {
    match job {
        JobModel::Sync(j) => syncing(j),
        JobModel::Retry { dir, commit } => script::bind(
            git_push::retrying(dir, commit),
            |o: OutcomeModel| Procedure::Done(as_retry(o)),
        ),
        JobModel::CatchUp { dir, file } => catching_up(dir, file),
    }
}

/// The report of a worker that broke down.
pub open spec fn worker_failure() -> Text {
    "git-sync: internal error (sync worker panicked)"@
}

/// What a job comes to whose worker broke down: it failed.
pub fn outcome_of_panic(job: &Job) -> (r: SyncOutcome)
    ensures
        r.model() == (match job@ {
            JobModel::Retry { .. } => OutcomeModel::RetryFailed(worker_failure()),
            _ => OutcomeModel::Failed(worker_failure()),
        }),
        job is Retry ==> r.model() == OutcomeModel::RetryFailed(
            "git-sync: internal error (sync worker panicked)"@,
        ),
        !(job is Retry) ==> r.model() == OutcomeModel::Failed(
            "git-sync: internal error (sync worker panicked)"@,
        ),
{
    let message = copy_of("git-sync: internal error (sync worker panicked)");
    match job {
        Job::Retry { .. } => SyncOutcome::RetryFailed(message),
        _ => SyncOutcome::Failed(message),
    }
}

/// How a job stands.
#[derive(Debug, PartialEq, Eq)]
pub enum Turn {
    /// This step is to be taken, and its reply to be added.
    Take(Step),
    /// The job is done.
    Finished(SyncOutcome),
}

/// How a job stands, given the replies to the steps it asked for so far.
pub fn advance(job: &Job, replies: &Vec<Reply>) -> (r: Turn)
    ensures
        match r {
            Turn::Take(step) => script::run(performing(job@), replies@, 0) == Progress::<
                OutcomeModel,
            >::Asks(step@),
            Turn::Finished(outcome) => script::run(performing(job@), replies@, 0) matches
                Progress::Gives(o, _) && o == outcome.model(),
        },
{
    let mut s = Script::new(replies);
    let r = match job {
        Job::Sync(j) => run_sync(&mut s, j),
        Job::Retry { dir, commit } => match retry_commit(&mut s, dir.as_str(), commit.as_str()) {
            Err(step) => Err(step),
            Ok(SyncOutcome::Failed(message)) => Ok(SyncOutcome::RetryFailed(message)),
            Ok(other) => Ok(other),
        },
        Job::CatchUp { dir, file } => catch_up_push(&mut s, dir.as_str(), file.as_str()),
    };
    match r {
        Ok(outcome) => Turn::Finished(outcome),
        Err(step) => Turn::Take(step),
    }
}

} // verus!
