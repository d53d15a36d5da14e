//! The procedures of git-sync: what may be pushed, and pushing it.

use vstd::prelude::*;

use crate::git_flow::{
    ask_toplevel, current_branch_ref, current_head, failure_text, git_config, is_success, make_step,
    output_of, read_listing, resolve_upstream, SyncOutcome, OutcomeModel, Text,
};
use crate::git_step::{Action, Reply, Step};
use crate::git_text::{any_other_path, any_path, lossy};
use crate::script::{Modeled, Procedure, Script};
use crate::text::{chars_of, copy_of, join3, same_text, string_of};
use crate::{git_flow, git_text, script};

verus! {

broadcast use script::group_run;

// ----- Unrelated commits -----------------------------------------------

/// The commits that are reachable from `tip` and not from `base`.
pub open spec fn commit_range(base: Option<Text>, tip: Text) -> Text {
    match base {
        Some(b) => b + ".."@ + tip,
        None => tip,
    }
}

/// Whether some commit of the range touches a path other than `relpath`, or
/// is a merge.
pub open spec fn unrelated(root: Text, base: Option<Text>, tip: Text, relpath: Text) -> Procedure<
    Result<bool, Text>,
> {
    Procedure::Ask(
        git_flow::step_in(root, Action::RangeParents { range: commit_range(base, tip) }),
        |r: Reply|
            if git_flow::succeeded(r) {
                unrelated_listed(
                    root,
                    relpath,
                    git_text::lines(git_text::lossy_text(git_flow::printed(r))),
                )
            } else {
                Procedure::Done(Err(git_flow::failure("git rev-list"@, r)))
            },
    )
}

/// As `unrelated`, once the commits are listed.
pub open spec fn unrelated_listed(root: Text, relpath: Text, listed: Seq<Text>) -> Procedure<
    Result<bool, Text>,
> {
    let commits = git_flow::commit_list(listed);
    if git_flow::has_merge(listed) {
        Procedure::Done(Ok(true))
    } else if commits.len() == 0 {
        Procedure::Done(Ok(false))
    } else {
        Procedure::Ask(
            git_flow::step_in(root, Action::TouchedPaths { commits }),
            |r: Reply|
                Procedure::Done(
                    if git_flow::succeeded(r) {
                        Ok(
                            git_text::has_other_path(
                                git_flow::printed(r),
                                vstd::utf8::encode_utf8(relpath),
                            ),
                        )
                    } else {
                        Err(git_flow::failure("git diff-tree"@, r))
                    },
                ),
        )
    }
}

/// Asks whether some commit of the range touches a path other than `relpath`,
/// or is a merge. Each commit is looked at by itself: two that cancel each
/// other out are both seen.
pub fn range_has_unrelated_commits(
    s: &mut Script,
    root: &str,
    base: &Option<String>,
    tip: &str,
    relpath: &str,
) -> (r: Result<Result<bool, String>, Step>)
    ensures
        script::follows(
            unrelated(root@, base.model(), tip@, relpath@),
            *old(s),
            *final(s),
            r,
        ),
{
    let range = match base {
        Some(b) => join3(b.as_str(), "..", tip),
        None => copy_of(tip),
    };
    let listing = match s.ask(make_step(root, Action::RangeParents { range })) {
        Err(step) => {
            return Err(step);
        },
        Ok(reply) => {
            if !is_success(reply) {
                return Ok(Err(failure_text("git rev-list", reply)));
            }
            let bytes = output_of(reply);
            lossy(bytes.as_slice())
        },
    };
    let (merge, commits) = read_listing(listing.as_str());
    if merge {
        return Ok(Ok(true));
    }
    if commits.as_str().is_empty() {
        return Ok(Ok(false));
    }
    match s.ask(make_step(root, Action::TouchedPaths { commits })) {
        Err(step) => Err(step),
        Ok(reply) => {
            if is_success(reply) {
                let paths = output_of(reply);
                Ok(Ok(any_other_path(paths.as_slice(), relpath.as_bytes())))
            } else {
                Ok(Err(failure_text("git diff-tree", reply)))
            }
        },
    }
}

/// Why the commits that are not pushed yet must not be: one of them is
/// unrelated to the checklist, or that cannot be told. Where there is no
/// commit, or no upstream branch, nothing speaks against it.
pub open spec fn history_refusal(root: Text, tip: Option<Text>, relpath: Text) -> Procedure<
    Option<Text>,
> {
    match tip {
        None => Procedure::Done(None),
        Some(t) => script::bind(
            git_flow::upstream(root),
            |u: Result<Option<Text>, Text>|
                match u {
                    Err(e) => Procedure::Done(Some(unverified_history(e))),
                    Ok(None) => Procedure::Done(None),
                    Ok(Some(base)) => script::bind(
                        unrelated(root, Some(base), t, relpath),
                        |x: Result<bool, Text>| Procedure::Done(history_verdict(x)),
                    ),
                },
        ),
    }
}

/// The refusal where the history could not be looked at.
pub open spec fn unverified_history(e: Text) -> Text {
    "git-sync: could not verify the branch has no unrelated unpushed commits ("@ + e
        + "); not publishing"@
}

/// The refusal that follows from looking at the history.
pub open spec fn history_verdict(x: Result<bool, Text>) -> Option<Text> {
    match x {
        Err(e) => Some(unverified_history(e)),
        Ok(true) => Some(unrelated_history()),
        Ok(false) => None,
    }
}

/// The refusal where a commit that would be pushed is unrelated.
pub open spec fn unrelated_history() -> Text {
    "git-sync: branch has unpushed commits unrelated to this change; push them manually first"@
}

/// The refusal where the history could not be looked at.
pub(crate) fn unverified_text(e: &str) -> (r: String)
    ensures
        r@ == unverified_history(e@),
{
    join3(
        "git-sync: could not verify the branch has no unrelated unpushed commits (",
        e,
        "); not publishing",
    )
}

/// The refusal where a commit that would be pushed is unrelated.
pub(crate) fn unrelated_text() -> (r: String)
    ensures
        r@ == unrelated_history(),
{
    copy_of(
        "git-sync: branch has unpushed commits unrelated to this change; push them manually first",
    )
}

/// Asks why the commits that are not pushed yet must not be.
pub fn unpushed_history_blocks(
    s: &mut Script,
    root: &str,
    tip: &Option<String>,
    relpath: &str,
) -> (r: Result<Option<String>, Step>)
    ensures
        script::follows(history_refusal(root@, tip.model(), relpath@), *old(s), *final(s), r),
{
    let t = match tip {
        None => {
            return Ok(None);
        },
        Some(t) => t,
    };
    let base = match resolve_upstream(s, root) {
        Err(step) => {
            return Err(step);
        },
        Ok(Err(e)) => {
            return Ok(Some(unverified_text(e.as_str())));
        },
        Ok(Ok(base)) => base,
    };
    if base.is_none() {
        return Ok(None);
    }
    match range_has_unrelated_commits(s, root, &base, t.as_str(), relpath) {
        Err(step) => Err(step),
        Ok(Err(e)) => Ok(Some(unverified_text(e.as_str()))),
        Ok(Ok(found)) => {
            if found {
                Ok(Some(unrelated_text()))
            } else {
                Ok(None)
            }
        },
    }
}

// ----- Whose the commits ahead are -------------------------------------

/// What the commits ahead of the upstream branch have to do with the checklist.
#[derive(Clone, Copy, Debug, PartialEq, Eq, Structural)]
pub enum Ahead {
    /// None of them touches it.
    Foreign,
    /// One of them touches it, and one is a merge or touches something else.
    Mixed,
    /// They touch it and nothing else.
    Own,
}

impl Modeled for Ahead {
    type Model = Ahead;

    open spec fn model(&self) -> Ahead {
        *self
    }
}

/// What commits have to do with the checklist `path`, given whether one of
/// them is a merge and the paths that they touch.
pub open spec fn ahead_kind(merge: bool, paths: Seq<u8>, path: Seq<u8>) -> Ahead {
    if !git_text::has_path(paths, path) {
        Ahead::Foreign
    } else if merge || git_text::has_other_path(paths, path) {
        Ahead::Mixed
    } else {
        Ahead::Own
    }
}

/// What the commits after `base` up to `tip` have to do with the checklist.
pub open spec fn ahead(root: Text, base: Text, tip: Text, relpath: Text) -> Procedure<
    Result<Ahead, Text>,
> {
    Procedure::Ask(
        git_flow::step_in(root, Action::RangeParents { range: commit_range(Some(base), tip) }),
        |r: Reply|
            if git_flow::succeeded(r) {
                ahead_listed(
                    root,
                    relpath,
                    git_text::lines(git_text::lossy_text(git_flow::printed(r))),
                )
            } else {
                Procedure::Done(Err(git_flow::failure("git rev-list"@, r)))
            },
    )
}

/// As `ahead`, once the commits are listed.
pub open spec fn ahead_listed(root: Text, relpath: Text, listed: Seq<Text>) -> Procedure<
    Result<Ahead, Text>,
> {
    let commits = git_flow::commit_list(listed);
    if commits.len() == 0 {
        Procedure::Done(Ok(Ahead::Foreign))
    } else {
        Procedure::Ask(
            git_flow::step_in(root, Action::TouchedPaths { commits }),
            |r: Reply|
                Procedure::Done(
                    if git_flow::succeeded(r) {
                        Ok(
                            ahead_kind(
                                git_flow::has_merge(listed),
                                git_flow::printed(r),
                                vstd::utf8::encode_utf8(relpath),
                            ),
                        )
                    } else {
                        Err(git_flow::failure("git diff-tree"@, r))
                    },
                ),
        )
    }
}

/// What commits have to do with the checklist `path`.
fn kind_of_ahead(merge: bool, paths: &[u8], path: &[u8]) -> (r: Ahead)
    ensures
        r == ahead_kind(merge, paths@, path@),
{
    if !any_path(paths, path) {
        Ahead::Foreign
    } else if merge || any_other_path(paths, path) {
        Ahead::Mixed
    } else {
        Ahead::Own
    }
}

/// Asks what the commits after `base` up to `tip` have to do with the
/// checklist.
pub fn whose_commits_are_ahead(
    s: &mut Script,
    root: &str,
    base: &str,
    tip: &str,
    relpath: &str,
) -> (r: Result<Result<Ahead, String>, Step>)
    ensures
        script::follows(ahead(root@, base@, tip@, relpath@), *old(s), *final(s), r),
{
    let range = join3(base, "..", tip);
    let listing = match s.ask(make_step(root, Action::RangeParents { range })) {
        Err(step) => {
            return Err(step);
        },
        Ok(reply) => {
            if !is_success(reply) {
                return Ok(Err(failure_text("git rev-list", reply)));
            }
            let bytes = output_of(reply);
            lossy(bytes.as_slice())
        },
    };
    let (merge, commits) = read_listing(listing.as_str());
    if commits.as_str().is_empty() {
        return Ok(Ok(Ahead::Foreign));
    }
    match s.ask(make_step(root, Action::TouchedPaths { commits })) {
        Err(step) => Err(step),
        Ok(reply) => {
            if is_success(reply) {
                let paths = output_of(reply);
                Ok(Ok(kind_of_ahead(merge, paths.as_slice(), relpath.as_bytes())))
            } else {
                Ok(Err(failure_text("git diff-tree", reply)))
            }
        },
    }
}

// ----- Pushing ---------------------------------------------------------

/// The name of a branch without `refs/heads/` before it.
pub open spec fn branch_name(full: Text) -> Option<Text> {
    let prefix = "refs/heads/"@;
    if full.len() >= prefix.len() && full.take(prefix.len() as int) == prefix {
        Some(full.skip(prefix.len() as int))
    } else {
        None
    }
}

/// The key of a branch's configured value.
pub open spec fn branch_key(name: Text, what: Text) -> Text {
    "branch."@ + name + what
}

/// The remote and the branch of it that the current branch is pushed to.
pub open spec fn upstream_parts(dir: Text) -> Procedure<Option<(Text, Text)>> {
    script::bind(
        git_flow::branch_ref(dir),
        |b: Option<Text>|
            match b {
                None => Procedure::Done(None),
                Some(full) => match branch_name(full) {
                    None => Procedure::Done(None),
                    Some(name) => configured_upstream(dir, name),
                },
            },
    )
}

/// As `upstream_parts`, once the branch is known.
pub open spec fn configured_upstream(dir: Text, name: Text) -> Procedure<Option<(Text, Text)>> {
    script::bind(
        git_flow::config(dir, branch_key(name, ".remote"@)),
        |remote: Option<Text>|
            match remote {
                None => Procedure::Done(None),
                Some(rem) => script::bind(
                    git_flow::config(dir, branch_key(name, ".merge"@)),
                    |merge: Option<Text>|
                        Procedure::Done(
                            match merge {
                                None => None,
                                Some(branch) => Some((rem, branch)),
                            },
                        ),
                ),
            },
    )
}

/// The name of a branch without `refs/heads/` before it.
fn strip_branch(full: &str) -> (r: Option<String>)
    ensures
        r.model() == branch_name(full@),
{
    let v = chars_of(full);
    let p = chars_of("refs/heads/");
    if v.len() < p.len() {
        return None;
    }
    let start = string_of(&v, 0, p.len());
    assert(v@.subrange(0, p@.len() as int) =~= full@.take(p@.len() as int));
    if same_text(start.as_str(), "refs/heads/") {
        assert(v@.subrange(p@.len() as int, v@.len() as int) =~= full@.skip(p@.len() as int));
        Some(string_of(&v, p.len(), v.len()))
    } else {
        None
    }
}

/// Asks for the remote and the branch of it that the current branch is pushed
/// to.
pub fn ask_upstream_parts(s: &mut Script, dir: &str) -> (r: Result<
    Option<(String, String)>,
    Step,
>)
    ensures
        script::follows(upstream_parts(dir@), *old(s), *final(s), r),
{
    let full = match current_branch_ref(s, dir) {
        Err(step) => {
            return Err(step);
        },
        Ok(None) => {
            return Ok(None);
        },
        Ok(Some(full)) => full,
    };
    let name = match strip_branch(full.as_str()) {
        None => {
            return Ok(None);
        },
        Some(name) => name,
    };
    let remote = match git_config(s, dir, join3("branch.", name.as_str(), ".remote")) {
        Err(step) => {
            return Err(step);
        },
        Ok(None) => {
            return Ok(None);
        },
        Ok(Some(remote)) => remote,
    };
    match git_config(s, dir, join3("branch.", name.as_str(), ".merge")) {
        Err(step) => Err(step),
        Ok(None) => Ok(None),
        Ok(Some(branch)) => Ok(Some((remote, branch))),
    }
}

/// A commit that was made, and not pushed for the given reason.
pub open spec fn not_pushed(message: Text, commit: Text) -> OutcomeModel {
    OutcomeModel::CommittedNotPushed { message, commit }
}

/// Pushes `commit`, and nothing that it does not build on, to the branch that
/// the current one is pushed to.
pub open spec fn pushing(dir: Text, commit: Text) -> Procedure<OutcomeModel> {
    if commit.len() == 0 {
        Procedure::Done(OutcomeModel::Failed("git-sync: refusing to push an unresolved commit"@))
    } else {
        script::bind(
            upstream_parts(dir),
            |u: Option<(Text, Text)>|
                match u {
                    None => Procedure::Done(
                        not_pushed(
                            "git-sync: no upstream configured for this branch; run `git push -u` once"@,
                            commit,
                        ),
                    ),
                    Some((remote, branch)) => Procedure::Ask(
                        git_flow::step_in(dir, Action::Push { remote, commit, branch }),
                        |r: Reply|
                            Procedure::Done(
                                if git_flow::succeeded(r) {
                                    OutcomeModel::Synced
                                } else {
                                    not_pushed(git_flow::failure("git push"@, r), commit)
                                },
                            ),
                    ),
                },
        )
    }
}

/// Pushes `commit`.
pub fn push(s: &mut Script, dir: &str, commit: &str) -> (r: Result<SyncOutcome, Step>)
    ensures
        script::follows(pushing(dir@, commit@), *old(s), *final(s), r),
{
    if commit.is_empty() {
        return Ok(
            SyncOutcome::Failed(copy_of("git-sync: refusing to push an unresolved commit")),
        );
    }
    let (remote, branch) = match ask_upstream_parts(s, dir) {
        Err(step) => {
            return Err(step);
        },
        Ok(None) => {
            return Ok(
                SyncOutcome::CommittedNotPushed {
                    message: copy_of(
                        "git-sync: no upstream configured for this branch; run `git push -u` once",
                    ),
                    commit: copy_of(commit),
                },
            );
        },
        Ok(Some(parts)) => parts,
    };
    match s.ask(make_step(dir, Action::Push { remote, commit: copy_of(commit), branch })) {
        Err(step) => Err(step),
        Ok(reply) => {
            if is_success(reply) {
                Ok(SyncOutcome::Synced)
            } else {
                Ok(
                    SyncOutcome::CommittedNotPushed {
                        message: failure_text("git push", reply),
                        commit: copy_of(commit),
                    },
                )
            }
        },
    }
}

/// Pushes `commit` if it is still the current one.
pub open spec fn pushing_if_current(dir: Text, root: Text, commit: Text) -> Procedure<
    OutcomeModel,
> {
    script::bind(
        git_flow::head(root),
        |h: Option<Text>|
            if h == Some(commit) {
                pushing(dir, commit)
            } else {
                Procedure::Done(not_pushed("git-sync: repository changed after commit"@, commit))
            },
    )
}

/// Whether the text is there and is `expected`.
pub(crate) fn is_text(found: &Option<String>, expected: &str) -> (r: bool)
    ensures
        r == (found.model() == Some(expected@)),
{
    match found {
        Some(t) => same_text(t.as_str(), expected),
        None => false,
    }
}

/// Pushes `commit` if it is still the current one.
pub fn push_if_head_unchanged(s: &mut Script, dir: &str, root: &str, commit: &str) -> (r: Result<
    SyncOutcome,
    Step,
>)
    ensures
        script::follows(pushing_if_current(dir@, root@, commit@), *old(s), *final(s), r),
{
    match current_head(s, root) {
        Err(step) => Err(step),
        Ok(head) => {
            if is_text(&head, commit) {
                push(s, dir, commit)
            } else {
                Ok(
                    SyncOutcome::CommittedNotPushed {
                        message: copy_of("git-sync: repository changed after commit"),
                        commit: copy_of(commit),
                    },
                )
            }
        },
    }
}

/// Pushes again a commit whose push failed, unless it is no longer the current
/// one.
pub open spec fn retrying(dir: Text, commit: Text) -> Procedure<OutcomeModel> {
    script::bind(
        git_flow::toplevel(dir),
        |t: Result<Text, Text>|
            match t {
                Err(e) => Procedure::Done(OutcomeModel::Failed(e)),
                Ok(root) => script::bind(
                    git_flow::head(root),
                    |h: Option<Text>|
                        if h == Some(commit) {
                            pushing(dir, commit)
                        } else {
                            Procedure::Done(OutcomeModel::RetryAbandoned)
                        },
                ),
            },
    )
}

/// Pushes again a commit whose push failed.
pub fn retry_commit(s: &mut Script, dir: &str, commit: &str) -> (r: Result<SyncOutcome, Step>)
    ensures
        script::follows(retrying(dir@, commit@), *old(s), *final(s), r),
{
    let root = match ask_toplevel(s, dir) {
        Err(step) => {
            return Err(step);
        },
        Ok(Err(e)) => {
            return Ok(SyncOutcome::Failed(e));
        },
        Ok(Ok(root)) => root,
    };
    match current_head(s, root.as_str()) {
        Err(step) => Err(step),
        Ok(head) => {
            if is_text(&head, commit) {
                push(s, dir, commit)
            } else {
                Ok(SyncOutcome::RetryAbandoned)
            }
        },
    }
}

} // verus!
