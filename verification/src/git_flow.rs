//! The procedures of git-sync: what is asked of git, in which order, and what
//! follows from the answers.

use vstd::prelude::*;

use crate::git_step::{Action, Markers, Reply, Step, StepModel};
use crate::git_text;
use crate::git_text::{
    command_error, debug_text, find_record, join_path, lossy, parse_number, split_lines, split_tab,
    split_words, trimmed,
};
use crate::script;
use crate::script::{Modeled, Procedure, Script};
use crate::text::{copy_of, join2, join3, same_hash, same_text};

verus! {

broadcast use script::group_run;

/// A text as a mathematical value.
pub type Text = Seq<char>;

/// What a sync came to.
#[derive(Debug, PartialEq, Eq)]
pub enum SyncOutcome {
    /// Committed and pushed.
    Synced,
    /// There was nothing to do: the content is committed and, as far as can be
    /// told, pushed.
    Skipped,
    /// The file is not tracked by git.
    SkippedUntracked,
    /// The commit was made, but not pushed.
    CommittedNotPushed { message: String, commit: String },
    /// The commit to push again is no longer the current one.
    RetryAbandoned,
    /// Nothing was committed.
    Failed(String),
    /// Pushing a commit again failed.
    RetryFailed(String),
}

/// What a sync came to, as a mathematical value.
pub enum OutcomeModel {
    Synced,
    Skipped,
    SkippedUntracked,
    CommittedNotPushed { message: Text, commit: Text },
    RetryAbandoned,
    Failed(Text),
    RetryFailed(Text),
}

impl Modeled for SyncOutcome {
    type Model = OutcomeModel;

    open spec fn model(&self) -> OutcomeModel {
        match self {
            SyncOutcome::Synced => OutcomeModel::Synced,
            SyncOutcome::Skipped => OutcomeModel::Skipped,
            SyncOutcome::SkippedUntracked => OutcomeModel::SkippedUntracked,
            SyncOutcome::CommittedNotPushed { message, commit } => {
                OutcomeModel::CommittedNotPushed { message: message@, commit: commit@ }
            },
            SyncOutcome::RetryAbandoned => OutcomeModel::RetryAbandoned,
            SyncOutcome::Failed(message) => OutcomeModel::Failed(message@),
            SyncOutcome::RetryFailed(message) => OutcomeModel::RetryFailed(message@),
        }
    }
}

// ----- Reading replies -------------------------------------------------

/// The command ran and succeeded.
pub open spec fn succeeded(r: Reply) -> bool {
    r matches Reply::Ran(output) && output.success
}

/// What the command printed.
pub open spec fn printed(r: Reply) -> Seq<u8> {
    match r {
        Reply::Ran(output) => output.stdout@,
        _ => Seq::empty(),
    }
}

/// What the command printed, as text, white space around it removed.
pub open spec fn answer(r: Reply) -> Text {
    git_text::trim(git_text::lossy_text(printed(r)))
}

/// Why the command `name` failed.
pub open spec fn failure(name: Text, r: Reply) -> Text {
    match r {
        Reply::Ran(output) => git_text::command_error_text(name, output.stderr@),
        Reply::TimedOut(error) => name + " failed: "@ + error@,
        Reply::Broken(error) => name + " failed: "@ + error@,
        _ => name + " failed: "@ + "unexpected reply"@,
    }
}

/// The answer of a command that succeeded.
pub open spec fn answer_if_ok(r: Reply) -> Option<Text> {
    if succeeded(r) {
        Some(answer(r))
    } else {
        None
    }
}

/// The answer of a command, or why it failed.
pub open spec fn answer_or_failure(name: Text, r: Reply) -> Result<Text, Text> {
    if succeeded(r) {
        Ok(answer(r))
    } else {
        Err(failure(name, r))
    }
}

/// The answer of a command whose exit code 1 says that there is none.
pub open spec fn answer_or_none(name: Text, r: Reply) -> Result<Option<Text>, Text> {
    if succeeded(r) {
        Ok(Some(answer(r)))
    } else if r matches Reply::Ran(output) && output.code == Some(1i32) {
        Ok(None)
    } else {
        Err(failure(name, r))
    }
}

/// Whether the command succeeded, or why not.
pub open spec fn done_or_failure(name: Text, r: Reply) -> Result<(), Text> {
    if succeeded(r) {
        Ok(())
    } else {
        Err(failure(name, r))
    }
}

/// The bytes that a command that succeeded printed.
pub open spec fn bytes_if_ok(r: Reply) -> Option<Seq<u8>> {
    if succeeded(r) {
        Some(printed(r))
    } else {
        None
    }
}

/// Why unfinished work in the repository forbids a commit.
pub open spec fn unfinished_work(r: Reply) -> Option<Text> {
    match r {
        Reply::Markers(m) => if m.merge {
            Some("git-sync: repository has a merge in progress"@)
        } else if m.cherry_pick {
            Some("git-sync: repository has a cherry-pick in progress"@)
        } else if m.revert {
            Some("git-sync: repository has a revert in progress"@)
        } else if m.bisect {
            Some("git-sync: repository has a bisect in progress"@)
        } else if m.rebase {
            Some("git-sync: repository has a rebase in progress"@)
        } else {
            None
        },
        _ => None,
    }
}

/// The mode and the path of the file's index entry; `None` if it has none.
pub open spec fn entry_of(r: Reply) -> Result<Option<(Text, Text)>, Text> {
    if !succeeded(r) {
        Err(failure("git ls-files"@, r))
    } else {
        match git_text::first_record(printed(r)) {
            None => Ok(None),
            Some(record) => {
                let line = git_text::lossy_text(record);
                let unexpected = "git ls-files: unexpected output "@ + git_text::debug_form(line);
                match git_text::around_tab(line) {
                    None => Err(unexpected),
                    Some((info, path)) => if git_text::words(info).len() == 0 {
                        Err(unexpected)
                    } else {
                        Ok(Some((git_text::words(info)[0], path)))
                    },
                }
            },
        }
    }
}

/// The blob of an index entry.
pub open spec fn entry_blob(r: Reply) -> Option<Text> {
    if !succeeded(r) {
        None
    } else {
        match git_text::first_record(printed(r)) {
            None => None,
            Some(record) => match git_text::around_tab(git_text::lossy_text(record)) {
                None => None,
                Some((info, _)) => if git_text::words(info).len() > 1 {
                    Some(git_text::words(info)[1])
                } else {
                    None
                },
            },
        }
    }
}

/// Some line lists a commit with more than one parent.
pub open spec fn has_merge(lines: Seq<Text>) -> bool {
    exists|i: int| 0 <= i < lines.len() && git_text::words(#[trigger] lines[i]).len() > 2
}

/// The commits that the lines list, each on a line of its own.
pub open spec fn commit_list(lines: Seq<Text>) -> Text
    decreases lines.len(),
{
    if lines.len() == 0 {
        Seq::empty()
    } else {
        let rest = commit_list(lines.drop_last());
        let listed = git_text::words(lines.last());
        if listed.len() == 0 {
            rest
        } else {
            rest + listed[0] + "\n"@
        }
    }
}

/// The words of the first line that the command printed.
pub open spec fn first_line_words(r: Reply) -> Seq<Text> {
    let said = git_text::lines(git_text::lossy_text(printed(r)));
    if said.len() == 0 {
        Seq::empty()
    } else {
        git_text::words(said[0])
    }
}

/// The listed commit has the given parent and no other; or none at all.
pub open spec fn is_child_of(r: Reply, parent: Option<Text>) -> bool {
    &&& succeeded(r)
    &&& git_text::lines(git_text::lossy_text(printed(r))).len() > 0
    &&& match parent {
        Some(p) => first_line_words(r).len() == 2 && first_line_words(r)[1] == p,
        None => first_line_words(r).len() <= 1,
    }
}

/// The first parent of the listed commit.
pub open spec fn first_parent(r: Reply) -> Option<Text> {
    if first_line_words(r).len() > 1 {
        Some(first_line_words(r)[1])
    } else {
        None
    }
}

/// The checklist file holds what was last asked to be committed.
pub open spec fn accounted_for(r: Reply) -> bool {
    r matches Reply::Checklist { disk, latest } && disk == Some(latest)
}

/// Whether the command ran and succeeded.
pub(crate) fn is_success(r: &Reply) -> (b: bool)
    ensures
        b == succeeded(*r),
{
    match r {
        Reply::Ran(output) => output.success,
        _ => false,
    }
}

/// What the command printed.
pub(crate) fn output_of(r: &Reply) -> (v: Vec<u8>)
    ensures
        v@ == printed(*r),
{
    match r {
        Reply::Ran(output) => {
            let mut v: Vec<u8> = Vec::new();
            let mut i: usize = 0;
            while i < output.stdout.len()
                invariant
                    i <= output.stdout@.len(),
                    v@ == output.stdout@.take(i as int),
                decreases output.stdout.len() - i,
            {
                v.push(output.stdout[i]);
                i += 1;
            }
            assert(output.stdout@.take(i as int) =~= output.stdout@);
            v
        },
        _ => Vec::new(),
    }
}

/// What the command printed, as text, white space around it removed.
pub(crate) fn answer_text(r: &Reply) -> (s: String)
    ensures
        s@ == answer(*r),
{
    let bytes = output_of(r);
    let whole = lossy(bytes.as_slice());
    trimmed(whole.as_str())
}

/// Why the command `name` failed.
pub(crate) fn failure_text(name: &str, r: &Reply) -> (s: String)
    ensures
        s@ == failure(name@, *r),
{
    match r {
        Reply::Ran(output) => command_error(name, &output.stderr),
        Reply::TimedOut(error) => join3(name, " failed: ", error.as_str()),
        Reply::Broken(error) => join3(name, " failed: ", error.as_str()),
        _ => join3(name, " failed: ", "unexpected reply"),
    }
}

/// The answer of a command that succeeded.
pub(crate) fn read_answer(r: &Reply) -> (v: Option<String>)
    ensures
        v.model() == answer_if_ok(*r),
{
    if is_success(r) {
        Some(answer_text(r))
    } else {
        None
    }
}

/// The answer of a command, or why it failed.
pub(crate) fn read_required(name: &str, r: &Reply) -> (v: Result<String, String>)
    ensures
        v.model() == answer_or_failure(name@, *r),
{
    if is_success(r) {
        Ok(answer_text(r))
    } else {
        Err(failure_text(name, r))
    }
}

/// The answer of a command whose exit code 1 says that there is none.
pub(crate) fn read_optional(name: &str, r: &Reply) -> (v: Result<Option<String>, String>)
    ensures
        v.model() == answer_or_none(name@, *r),
{
    if is_success(r) {
        return Ok(Some(answer_text(r)));
    }
    let none = match r {
        Reply::Ran(output) => match output.code {
            Some(code) => code == 1,
            None => false,
        },
        _ => false,
    };
    if none {
        Ok(None)
    } else {
        Err(failure_text(name, r))
    }
}

/// Whether the command succeeded, or why not.
pub(crate) fn read_done(name: &str, r: &Reply) -> (v: Result<(), String>)
    ensures
        v.model() == done_or_failure(name@, *r),
{
    if is_success(r) {
        Ok(())
    } else {
        Err(failure_text(name, r))
    }
}

/// The bytes that a command that succeeded printed.
pub(crate) fn read_bytes(r: &Reply) -> (v: Option<Vec<u8>>)
    ensures
        v.model() == bytes_if_ok(*r),
{
    if is_success(r) {
        Some(output_of(r))
    } else {
        None
    }
}

/// Why unfinished work in the repository forbids a commit.
pub(crate) fn read_markers(r: &Reply) -> (v: Option<String>)
    ensures
        v.model() == unfinished_work(*r),
{
    match r {
        Reply::Markers(m) => {
            if m.merge {
                Some(copy_of("git-sync: repository has a merge in progress"))
            } else if m.cherry_pick {
                Some(copy_of("git-sync: repository has a cherry-pick in progress"))
            } else if m.revert {
                Some(copy_of("git-sync: repository has a revert in progress"))
            } else if m.bisect {
                Some(copy_of("git-sync: repository has a bisect in progress"))
            } else if m.rebase {
                Some(copy_of("git-sync: repository has a rebase in progress"))
            } else {
                None
            }
        },
        _ => None,
    }
}

/// The mode and the path of the file's index entry.
pub(crate) fn read_entry(r: &Reply) -> (v: Result<Option<(String, String)>, String>)
    ensures
        v.model() == entry_of(*r),
{
    if !is_success(r) {
        return Err(failure_text("git ls-files", r));
    }
    let bytes = output_of(r);
    match find_record(bytes.as_slice()) {
        None => Ok(None),
        Some(record) => {
            let line = lossy(record.as_slice());
            match split_tab(line.as_str()) {
                None => {
                    let shown = debug_text(line.as_str());
                    Err(join2("git ls-files: unexpected output ", shown.as_str()))
                },
                Some((info, path)) => {
                    let fields = split_words(info.as_str());
                    assert(fields@.len() == git_text::words(info@).len());
                    if fields.len() == 0 {
                        let shown = debug_text(line.as_str());
                        Err(join2("git ls-files: unexpected output ", shown.as_str()))
                    } else {
                        assert(fields@[0]@ == git_text::words(info@)[0]);
                        Ok(Some((fields[0].clone(), path)))
                    }
                },
            }
        },
    }
}

/// The blob of an index entry.
pub(crate) fn read_entry_blob(r: &Reply) -> (v: Option<String>)
    ensures
        v.model() == entry_blob(*r),
{
    if !is_success(r) {
        return None;
    }
    let bytes = output_of(r);
    match find_record(bytes.as_slice()) {
        None => None,
        Some(record) => {
            let line = lossy(record.as_slice());
            match split_tab(line.as_str()) {
                None => None,
                Some((info, _)) => {
                    let fields = split_words(info.as_str());
                    assert(fields@.len() == git_text::words(info@).len());
                    if fields.len() > 1 {
                        assert(fields@[1]@ == git_text::words(info@)[1]);
                        Some(fields[1].clone())
                    } else {
                        None
                    }
                },
            }
        },
    }
}

/// The words of the first line that the command printed, and whether there is
/// such a line.
pub(crate) fn read_first_line(r: &Reply) -> (v: (bool, Vec<String>))
    ensures
        v.0 == (git_text::lines(git_text::lossy_text(printed(*r))).len() > 0),
        crate::git_step::texts(v.1@) == first_line_words(*r),
{
    let bytes = output_of(r);
    let whole = lossy(bytes.as_slice());
    let said = split_lines(whole.as_str());
    assert(said@.len() == git_text::lines(whole@).len());
    if said.len() == 0 {
        let none: Vec<String> = Vec::new();
        assert(crate::git_step::texts(none@) =~= Seq::<Text>::empty());
        (false, none)
    } else {
        assert(said@[0]@ == git_text::lines(whole@)[0]);
        (true, split_words(said[0].as_str()))
    }
}

/// Whether the listed commit has the given parent and no other; or none.
pub(crate) fn read_child_of(r: &Reply, parent: &Option<String>) -> (b: bool)
    ensures
        b == is_child_of(*r, parent.model()),
{
    if !is_success(r) {
        return false;
    }
    let (any, fields) = read_first_line(r);
    assert(fields@.len() == first_line_words(*r).len());
    if !any {
        return false;
    }
    match parent {
        Some(p) => {
            if fields.len() == 2 {
                assert(fields@[1]@ == first_line_words(*r)[1]);
                same_text(fields[1].as_str(), p.as_str())
            } else {
                false
            }
        },
        None => fields.len() <= 1,
    }
}

/// The first parent of the listed commit.
pub(crate) fn read_first_parent(r: &Reply) -> (v: Option<String>)
    ensures
        v.model() == first_parent(*r),
{
    let (_, fields) = read_first_line(r);
    assert(fields@.len() == first_line_words(*r).len());
    if fields.len() > 1 {
        assert(fields@[1]@ == first_line_words(*r)[1]);
        Some(fields[1].clone())
    } else {
        None
    }
}

/// Whether the checklist file holds what was last asked to be committed.
pub(crate) fn read_accounted_for(r: &Reply) -> (b: bool)
    ensures
        b == accounted_for(*r),
{
    match r {
        Reply::Checklist { disk, latest } => match disk {
            Some(hash) => same_hash(hash, latest),
            None => false,
        },
        _ => false,
    }
}

/// Whether some line lists a commit with more than one parent, and the commits
/// that the lines list.
pub(crate) fn read_listing(listing: &str) -> (v: (bool, String))
    ensures
        v.0 == has_merge(git_text::lines(listing@)),
        v.1@ == commit_list(git_text::lines(listing@)),
{
    let said = split_lines(listing);
    let ghost all = git_text::lines(listing@);
    assert(said@.len() == all.len());
    let mut merge = false;
    let mut commits = String::new();
    let mut i: usize = 0;
    while i < said.len()
        invariant
            crate::git_step::texts(said@) == all,
            all == git_text::lines(listing@),
            said@.len() == all.len(),
            i <= said@.len(),
            merge == exists|k: int|
                0 <= k < i && git_text::words(#[trigger] all[k]).len() > 2,
            commits@ == commit_list(all.take(i as int)),
        decreases said.len() - i,
    {
        let fields = split_words(said[i].as_str());
        proof {
            assert(all[i as int] == said@[i as int]@);
            assert(fields@.len() == git_text::words(all[i as int]).len());
            assert(all.take(i + 1).drop_last() =~= all.take(i as int));
            assert(all.take(i + 1).last() == all[i as int]);
        }
        if fields.len() > 2 {
            merge = true;
        }
        if fields.len() > 0 {
            assert(fields@[0]@ == git_text::words(all[i as int])[0]);
            commits.append(fields[0].as_str());
            commits.append("\n");
        }
        i += 1;
    }
    assert(all.take(i as int) =~= all);
    (merge, commits)
}

// ----- Single questions ------------------------------------------------

/// The step that takes `action` in `dir`.
pub open spec fn step_in(dir: Text, action: Action<Text>) -> StepModel {
    StepModel { dir, action }
}

/// The step that takes `action` in `dir`.
pub(crate) fn make_step(dir: &str, action: Action<String>) -> (r: Step)
    ensures
        r@ == step_in(dir@, action@),
{
    Step { dir: copy_of(dir), action }
}

/// The root of the work tree.
pub open spec fn toplevel(dir: Text) -> Procedure<Result<Text, Text>> {
    Procedure::Ask(
        step_in(dir, Action::ShowToplevel),
        |r: Reply| Procedure::Done(answer_or_failure("git rev-parse"@, r)),
    )
}

/// Asks for the root of the work tree.
pub(crate) fn ask_toplevel(s: &mut Script, dir: &str) -> (r: Result<Result<String, String>, Step>)
    ensures
        script::follows(toplevel(dir@), *old(s), *final(s), r),
{
    match s.ask(make_step(dir, Action::ShowToplevel)) {
        Err(step) => Err(step),
        Ok(reply) => Ok(read_required("git rev-parse", reply)),
    }
}

/// The repository's git directory.
pub open spec fn git_dir(root: Text) -> Procedure<Option<Text>> {
    Procedure::Ask(
        step_in(root, Action::GitDir),
        |r: Reply|
            Procedure::Done(
                match answer_if_ok(r) {
                    Some(path) => Some(git_text::joined_path(root, path)),
                    None => None,
                },
            ),
    )
}

/// Asks for the repository's git directory.
pub(crate) fn ask_git_dir(s: &mut Script, root: &str) -> (r: Result<Option<String>, Step>)
    ensures
        script::follows(git_dir(root@), *old(s), *final(s), r),
{
    match s.ask(make_step(root, Action::GitDir)) {
        Err(step) => Err(step),
        Ok(reply) => match read_answer(reply) {
            Some(path) => Ok(Some(join_path(root, path.as_str()))),
            None => Ok(None),
        },
    }
}

/// The branch that `HEAD` is on.
pub open spec fn branch_ref(dir: Text) -> Procedure<Option<Text>> {
    Procedure::Ask(
        step_in(dir, Action::SymbolicRef),
        |r: Reply| Procedure::Done(answer_if_ok(r)),
    )
}

/// Asks for the branch that `HEAD` is on.
pub(crate) fn current_branch_ref(s: &mut Script, dir: &str) -> (r: Result<Option<String>, Step>)
    ensures
        script::follows(branch_ref(dir@), *old(s), *final(s), r),
{
    match s.ask(make_step(dir, Action::SymbolicRef)) {
        Err(step) => Err(step),
        Ok(reply) => Ok(read_answer(reply)),
    }
}

/// The commit that `HEAD` is at.
pub open spec fn head(root: Text) -> Procedure<Option<Text>> {
    Procedure::Ask(step_in(root, Action::Head), |r: Reply| Procedure::Done(answer_if_ok(r)))
}

/// Asks for the commit that `HEAD` is at.
pub(crate) fn current_head(s: &mut Script, root: &str) -> (r: Result<Option<String>, Step>)
    ensures
        script::follows(head(root@), *old(s), *final(s), r),
{
    match s.ask(make_step(root, Action::Head)) {
        Err(step) => Err(step),
        Ok(reply) => Ok(read_answer(reply)),
    }
}

/// The commit that `HEAD` is at, `None` only where there is none yet.
pub open spec fn parent(root: Text) -> Procedure<Result<Option<Text>, Text>> {
    Procedure::Ask(
        step_in(root, Action::VerifyHead),
        |r: Reply| Procedure::Done(answer_or_none("git rev-parse"@, r)),
    )
}

/// Asks for the commit that `HEAD` is at.
pub(crate) fn resolve_parent(s: &mut Script, root: &str) -> (r: Result<Result<Option<String>, String>, Step>)
    ensures
        script::follows(parent(root@), *old(s), *final(s), r),
{
    match s.ask(make_step(root, Action::VerifyHead)) {
        Err(step) => Err(step),
        Ok(reply) => Ok(read_optional("git rev-parse", reply)),
    }
}

/// The commit that the upstream branch is at, `None` only where there is no
/// such branch.
pub open spec fn upstream(root: Text) -> Procedure<Result<Option<Text>, Text>> {
    Procedure::Ask(
        step_in(root, Action::VerifyUpstream),
        |r: Reply| Procedure::Done(answer_or_none("git rev-parse"@, r)),
    )
}

/// Asks for the commit that the upstream branch is at.
pub(crate) fn resolve_upstream(s: &mut Script, root: &str) -> (r: Result<Result<Option<String>, String>, Step>)
    ensures
        script::follows(upstream(root@), *old(s), *final(s), r),
{
    match s.ask(make_step(root, Action::VerifyUpstream)) {
        Err(step) => Err(step),
        Ok(reply) => Ok(read_optional("git rev-parse", reply)),
    }
}

/// How many commits `tip` is ahead of the upstream branch, if that can be
/// told.
pub open spec fn count_ahead(root: Text, tip: Text) -> Procedure<Option<u64>> {
    Procedure::Ask(
        step_in(root, Action::CountAhead { tip }),
        |r: Reply|
            Procedure::Done(
                match answer_if_ok(r) {
                    Some(number) => git_text::parsed_number(number),
                    None => None,
                },
            ),
    )
}

/// Asks how many commits `tip` is ahead of the upstream branch.
pub(crate) fn commits_ahead_of_upstream(s: &mut Script, root: &str, tip: &str) -> (r: Result<
    Option<u64>,
    Step,
>)
    ensures
        script::follows(count_ahead(root@, tip@), *old(s), *final(s), r),
{
    match s.ask(make_step(root, Action::CountAhead { tip: copy_of(tip) })) {
        Err(step) => Err(step),
        Ok(reply) => match read_answer(reply) {
            Some(number) => Ok(parse_number(number.as_str())),
            None => Ok(None),
        },
    }
}

/// The mode and the path of the file's index entry.
pub open spec fn index_entry(dir: Text, file: Text) -> Procedure<
    Result<Option<(Text, Text)>, Text>,
> {
    Procedure::Ask(
        step_in(dir, Action::IndexEntry { path: file }),
        |r: Reply| Procedure::Done(entry_of(r)),
    )
}

/// Asks for the file's index entry.
pub(crate) fn ask_index_entry(s: &mut Script, dir: &str, file: &str) -> (r: Result<
    Result<Option<(String, String)>, String>,
    Step,
>)
    ensures
        script::follows(index_entry(dir@, file@), *old(s), *final(s), r),
{
    match s.ask(make_step(dir, Action::IndexEntry { path: copy_of(file) })) {
        Err(step) => Err(step),
        Ok(reply) => Ok(read_entry(reply)),
    }
}

/// The blob that the repository's own index has for `relpath`.
pub open spec fn index_blob(root: Text, relpath: Text) -> Procedure<Option<Text>> {
    Procedure::Ask(
        step_in(root, Action::IndexBlob { relpath }),
        |r: Reply| Procedure::Done(entry_blob(r)),
    )
}

/// Asks for the blob that the repository's own index has for `relpath`.
pub(crate) fn ask_index_blob(s: &mut Script, root: &str, relpath: &str) -> (r: Result<Option<String>, Step>)
    ensures
        script::follows(index_blob(root@, relpath@), *old(s), *final(s), r),
{
    match s.ask(make_step(root, Action::IndexBlob { relpath: copy_of(relpath) })) {
        Err(step) => Err(step),
        Ok(reply) => Ok(read_entry_blob(reply)),
    }
}

/// The blob of `relpath` at `commit`.
pub open spec fn blob_at(root: Text, commit: Text, relpath: Text) -> Procedure<Option<Text>> {
    Procedure::Ask(
        step_in(root, Action::BlobAt { commit, relpath }),
        |r: Reply| Procedure::Done(answer_if_ok(r)),
    )
}

/// Asks for the blob of `relpath` at `commit`.
pub(crate) fn ask_blob_at(s: &mut Script, root: &str, commit: &str, relpath: &str) -> (r: Result<
    Option<String>,
    Step,
>)
    ensures
        script::follows(blob_at(root@, commit@, relpath@), *old(s), *final(s), r),
{
    match s.ask(
        make_step(root, Action::BlobAt { commit: copy_of(commit), relpath: copy_of(relpath) }),
    ) {
        Err(step) => Err(step),
        Ok(reply) => Ok(read_answer(reply)),
    }
}

/// The content of `relpath` at `commit`.
pub open spec fn content_at(root: Text, commit: Text, relpath: Text) -> Procedure<
    Option<Seq<u8>>,
> {
    Procedure::Ask(
        step_in(root, Action::ShowAt { commit, relpath }),
        |r: Reply| Procedure::Done(bytes_if_ok(r)),
    )
}

/// Asks for the content of `relpath` at `commit`.
pub(crate) fn blob_bytes_at(s: &mut Script, root: &str, commit: &str, relpath: &str) -> (r: Result<
    Option<Vec<u8>>,
    Step,
>)
    ensures
        script::follows(content_at(root@, commit@, relpath@), *old(s), *final(s), r),
{
    match s.ask(
        make_step(root, Action::ShowAt { commit: copy_of(commit), relpath: copy_of(relpath) }),
    ) {
        Err(step) => Err(step),
        Ok(reply) => Ok(read_bytes(reply)),
    }
}

/// The staged content of `relpath`.
pub open spec fn staged_content(root: Text, relpath: Text) -> Procedure<Option<Seq<u8>>> {
    Procedure::Ask(
        step_in(root, Action::ShowStaged { relpath }),
        |r: Reply| Procedure::Done(bytes_if_ok(r)),
    )
}

/// Asks for the staged content of `relpath`.
pub(crate) fn staged_bytes(s: &mut Script, root: &str, relpath: &str) -> (r: Result<Option<Vec<u8>>, Step>)
    ensures
        script::follows(staged_content(root@, relpath@), *old(s), *final(s), r),
{
    match s.ask(make_step(root, Action::ShowStaged { relpath: copy_of(relpath) })) {
        Err(step) => Err(step),
        Ok(reply) => Ok(read_bytes(reply)),
    }
}

/// Stores `content` and names its blob.
pub open spec fn store_blob(root: Text, content: Text) -> Procedure<Result<Text, Text>> {
    Procedure::Ask(
        step_in(root, Action::StoreBlob { content }),
        |r: Reply| Procedure::Done(answer_or_failure("git hash-object"@, r)),
    )
}

/// Stores `content` and names its blob.
pub(crate) fn hash_object(s: &mut Script, root: &str, content: &str) -> (r: Result<
    Result<String, String>,
    Step,
>)
    ensures
        script::follows(store_blob(root@, content@), *old(s), *final(s), r),
{
    match s.ask(make_step(root, Action::StoreBlob { content: copy_of(content) })) {
        Err(step) => Err(step),
        Ok(reply) => Ok(read_required("git hash-object", reply)),
    }
}

/// A configured value.
pub open spec fn config(dir: Text, key: Text) -> Procedure<Option<Text>> {
    Procedure::Ask(
        step_in(dir, Action::Config { key }),
        |r: Reply| Procedure::Done(answer_if_ok(r)),
    )
}

/// Asks for a configured value.
pub(crate) fn git_config(s: &mut Script, dir: &str, key: String) -> (r: Result<Option<String>, Step>)
    ensures
        script::follows(config(dir@, key@), *old(s), *final(s), r),
{
    match s.ask(make_step(dir, Action::Config { key })) {
        Err(step) => Err(step),
        Ok(reply) => Ok(read_answer(reply)),
    }
}

/// Whether `commit` has the given parent and no other; or none at all.
pub open spec fn child_of(root: Text, commit: Text, parent: Option<Text>) -> Procedure<bool> {
    Procedure::Ask(
        step_in(root, Action::ParentsOf { commit }),
        |r: Reply| Procedure::Done(is_child_of(r, parent)),
    )
}

/// Asks whether `commit` has the given parent and no other; or none at all.
pub(crate) fn descends_directly_from(
    s: &mut Script,
    root: &str,
    commit: &str,
    parent: &Option<String>,
) -> (r: Result<bool, Step>)
    ensures
        script::follows(child_of(root@, commit@, parent.model()), *old(s), *final(s), r),
{
    match s.ask(make_step(root, Action::ParentsOf { commit: copy_of(commit) })) {
        Err(step) => Err(step),
        Ok(reply) => Ok(read_child_of(reply, parent)),
    }
}

// ----- Whether the repository may be touched ---------------------------

/// Why the repository must not be touched now: unfinished work, a `HEAD` that
/// is on no branch, or unresolved conflicts.
pub open spec fn blocked(root: Text) -> Procedure<Option<Text>> {
    script::bind(
        git_dir(root),
        |d: Option<Text>|
            match d {
                None => Procedure::Done(None),
                Some(dir) => blocked_by_work(root, dir),
            },
    )
}

/// As `blocked`, once the git directory is known.
pub open spec fn blocked_by_work(root: Text, dir: Text) -> Procedure<Option<Text>> {
    Procedure::Ask(
        step_in(root, Action::ProbeMarkers { git_dir: dir }),
        |r: Reply|
            match unfinished_work(r) {
                Some(reason) => Procedure::Done(Some(reason)),
                None => blocked_by_head(root),
            },
    )
}

/// As `blocked`, once there is known to be no unfinished work.
pub open spec fn blocked_by_head(root: Text) -> Procedure<Option<Text>> {
    Procedure::Ask(
        step_in(root, Action::SymbolicRef),
        |r: Reply|
            if succeeded(r) {
                blocked_by_conflicts(root)
            } else {
                Procedure::Done(Some("git-sync: repository is in a detached HEAD state"@))
            },
    )
}

/// As `blocked`, once `HEAD` is known to be on a branch.
pub open spec fn blocked_by_conflicts(root: Text) -> Procedure<Option<Text>> {
    Procedure::Ask(
        step_in(root, Action::UnmergedFiles),
        |r: Reply|
            Procedure::Done(
                if succeeded(r) && printed(r).len() > 0 {
                    Some("git-sync: repository has unresolved merge conflicts"@)
                } else {
                    None
                },
            ),
    )
}

/// Asks why the repository must not be touched now.
pub fn repo_sync_blocked(s: &mut Script, root: &str) -> (r: Result<Option<String>, Step>)
    ensures
        script::follows(blocked(root@), *old(s), *final(s), r),
{
    let dir = match ask_git_dir(s, root) {
        Err(step) => {
            return Err(step);
        },
        Ok(None) => {
            return Ok(None);
        },
        Ok(Some(dir)) => dir,
    };
    let markers = match s.ask(make_step(root, Action::ProbeMarkers { git_dir: dir })) {
        Err(step) => {
            return Err(step);
        },
        Ok(reply) => read_markers(reply),
    };
    if markers.is_some() {
        return Ok(markers);
    }
    let on_branch = match s.ask(make_step(root, Action::SymbolicRef)) {
        Err(step) => {
            return Err(step);
        },
        Ok(reply) => is_success(reply),
    };
    if !on_branch {
        return Ok(Some(copy_of("git-sync: repository is in a detached HEAD state")));
    }
    match s.ask(make_step(root, Action::UnmergedFiles)) {
        Err(step) => Err(step),
        Ok(reply) => {
            let listed = output_of(reply);
            if is_success(reply) && listed.len() > 0 {
                Ok(Some(copy_of("git-sync: repository has unresolved merge conflicts")))
            } else {
                Ok(None)
            }
        },
    }
}

} // verus!
