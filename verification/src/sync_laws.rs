//! What holds of commit messages, of the jobs of git-sync, and of the command
//! lines that it runs.

use vstd::prelude::*;

use crate::app_state::SyncModel;
use crate::git_flow::{OutcomeModel, Text};
use crate::git_run::JobModel;
use crate::git_step::Action;
use crate::git_sync::GitSyncModel;
use crate::{config, git_step, git_sync, text};

verus! {

// ----- Commit messages -------------------------------------------------

/// `name` can be the name of a file: it is not empty, holds no slash, and is
/// neither `.` nor `..`.
pub open spec fn is_name(name: Text) -> bool {
    &&& name.len() > 0
    &&& !name.contains('/')
    &&& name != seq!['.']
    &&& name != seq!['.', '.']
}

/// Lemma: where the last segment begins.
proof fn lemma_last_segment(dir: Text, name: Text)
    requires
        !name.contains('/'),
    ensures
        git_sync::last_segment_start(name) == 0,
        git_sync::last_segment_start(dir + seq!['/'] + name) == dir.len() + 1,
        (dir + seq!['/'] + name).skip((dir.len() + 1) as int) == name,
        (dir + seq!['/'] + name).take(dir.len() as int) == dir,
        name.skip(0) == name,
{
    let p = git_sync::slash();
    let path = dir + seq!['/'] + name;
    text::lemma_last_before(name, p, name.len() as int);
    text::lemma_last_before(path, p, path.len() as int);
    if let Some(i) = text::last_before(name, p, name.len() as int) {
        assert(name[i] == '/');
    }
    assert(path[dir.len() as int] == '/');
    assert forall|j: int| dir.len() < j < path.len() implies path[j] != '/' by {
        assert(path[j] == name[j - dir.len() - 1]);
    }
    assert(path.skip((dir.len() + 1) as int) =~= name);
    assert(path.take(dir.len() as int) =~= dir);
    assert(name.skip(0) =~= name);
}

/// Law: the name of a file is what follows the last slash of its path, or the
/// whole path where there is no slash. Slashes at the end, and `.` there, do not
/// count, and a path that leads upwards at its end names no file.
pub proof fn law_file_name_is_the_last_segment(dir: Text, name: Text)
    ensures
        is_name(name) ==> git_sync::file_name(name) == Some(name),
        is_name(name) ==> git_sync::file_name(dir + seq!['/'] + name) == Some(name),
        git_sync::file_name(dir + seq!['/']) == git_sync::file_name(dir),
        git_sync::file_name(dir + seq!['/', '.']) == git_sync::file_name(dir),
        git_sync::file_name(dir + seq!['/', '.', '.']) is None,
        git_sync::file_name(Seq::empty()) is None,
        git_sync::file_name(seq!['.']) is None,
        git_sync::file_name(seq!['.', '.']) is None,
{
    reveal_strlit(".");
    reveal_strlit("..");
    let nothing = Seq::<char>::empty();
    let here = seq!['.'];
    let up = seq!['.', '.'];
    assert("."@ =~= here);
    assert(".."@ =~= up);
    assert(here != up) by {
        assert(here.len() != up.len());
    }
    lemma_last_segment(dir, nothing);
    lemma_last_segment(dir, here);
    lemma_last_segment(dir, up);
    assert(dir + seq!['/'] + nothing =~= dir + seq!['/']);
    assert(dir + seq!['/'] + here =~= dir + seq!['/', '.']);
    assert(dir + seq!['/'] + up =~= dir + seq!['/', '.', '.']);
    assert(here.len() == 1 && up.len() == 2);
    if is_name(name) {
        lemma_last_segment(dir, name);
    }
}

/// Law: quotation marks are counted one by one.
pub proof fn law_quotes_are_counted(s: Text)
    ensures
        git_sync::quotes(s) == s.filter(|c: char| c == '"').len(),
    decreases s.len(),
{
    reveal(Seq::filter);
    if s.len() > 0 {
        law_quotes_are_counted(s.drop_last());
    }
}

/// Law: a commit message begins with the name of the file and a colon; a name of
/// more than 69 characters is cut after 68, with an ellipsis; a path that names
/// no file is called a checklist.
pub proof fn law_messages_begin_with_the_name(path: Text, name: Text)
    ensures
        git_sync::file_name(path) == Some(name) && name.len() <= 69 ==> git_sync::message_name(path)
            == name,
        git_sync::file_name(path) == Some(name) && name.len() > 69 ==> git_sync::message_name(path)
            == name.take(68) + seq!['…'],
        git_sync::file_name(path) is None ==> git_sync::message_name(path) == "checklist"@,
{
    reveal_strlit("…");
    reveal_strlit("checklist");
    assert("…"@ =~= seq!['…']);
}

/// Lemma: the name in a commit message leaves room for the description.
proof fn lemma_name_fits(path: Text)
    ensures
        git_sync::message_name(path).len() <= 69,
{
    reveal_strlit("…");
    reveal_strlit("checklist");
}

/// Law: a commit message that fits into 80 characters is the name, a colon and
/// the whole description. Any other has exactly 80 characters: the name, a colon
/// and the beginning of the description, and then an ellipsis, behind which a
/// quotation that is cut is closed.
pub proof fn law_messages_are_cut_at_their_end(path: Text, desc: Text)
    ensures
        ({
            let start = git_sync::message_name(path) + seq![':', ' '];
            let message = git_sync::message_for(path, desc);
            let room = 79 - start.len();
            &&& room >= 8
            &&& start.len() + desc.len() <= 80 ==> message == start + desc
            &&& start.len() + desc.len() > 80 ==> {
                &&& message.len() == 80
                &&& message.take(78) == (start + desc).take(78)
                &&& desc.take(room).filter(|c: char| c == '"').len() % 2 == 0 ==> message[78] == (
                start + desc)[78] && message[79] == '…'
                &&& desc.take(room).filter(|c: char| c == '"').len() % 2 == 1 ==> message[78] == '…'
                    && message[79] == '"'
            }
        }),
{
    reveal_strlit(": ");
    reveal_strlit("…");
    reveal_strlit("…\"");
    lemma_name_fits(path);
    let start = git_sync::message_name(path) + seq![':', ' '];
    assert(": "@ =~= seq![':', ' ']);
    let room = 79 - start.len();
    let message = git_sync::message_for(path, desc);
    if start.len() + desc.len() > 80 {
        law_quotes_are_counted(desc.take(room));
        assert(message.len() == 80);
        assert(message.take(78) =~= (start + desc).take(78));
    }
}

// ----- Which job runs when ---------------------------------------------

/// Law: the job for a change works on the repository and the file of this
/// git-sync, and has the content and the hash from before of the change.
pub proof fn law_jobs_carry_their_change(m: GitSyncModel, sync: SyncModel, index_name: Text)
    ensures
        m.job_for(sync, index_name) matches JobModel::Sync(job) && job.dir == m.repo_dir && job.file
            == m.file_path && job.content == sync.content && job.previous
            == sync.previous_content_hash && job.index_name == index_name && job.message
            == git_sync::message_for(m.file_path, sync.description),
{
}

/// Law: git-sync begins with nothing to do.
pub proof fn law_nothing_waits_at_first(dir: Text, file: Text)
    ensures
        ({
            let m = GitSyncModel::fresh(dir, file);
            &&& m.repo_dir == dir
            &&& m.file_path == file
            &&& !m.busy
            &&& m.pending is None
            &&& m.retry is None
        }),
{
}

/// Law: a change is committed at once where nothing runs, and waits where a job
/// runs; of the changes that wait, the latest is kept; and one that waited runs
/// as soon as the job is done.
pub proof fn law_changes_take_their_turn(
    m: GitSyncModel,
    first: SyncModel,
    second: SyncModel,
    outcome: OutcomeModel,
    now: u64,
)
    ensures
        m.requested(first).busy,
        m.requested(first).latest_requested_hash == first.content_hash,
        m.requested(first).retry == m.retry,
        m.requested(first).repo_dir == m.repo_dir,
        m.requested(first).file_path == m.file_path,
        !m.busy ==> m.requested(first).pending == m.pending,
        m.busy ==> m.requested(first).pending == Some(first),
        m.requested(first).requested(second).pending == Some(second),
        m.requested(first).requested(second).latest_requested_hash == second.content_hash,
        m.finished(outcome, now).pending is None,
        m.finished(outcome, now).busy <==> m.pending is Some,
        m.finished(outcome, now).latest_requested_hash == m.latest_requested_hash,
        m.finished(outcome, now).repo_dir == m.repo_dir,
        m.finished(outcome, now).file_path == m.file_path,
{
}

/// Law: a commit that could not be pushed is kept to be pushed again, from now
/// on; it is let go once a push succeeded, or it is no longer what the branch is
/// at; and any other outcome leaves it, and when it was last tried.
pub proof fn law_commits_are_kept_until_pushed(
    m: GitSyncModel,
    commit: Text,
    message: Text,
    last: u64,
    now: u64,
)
    ensures
        m.finished(OutcomeModel::CommittedNotPushed { message, commit }, now).retry == Some(
            (commit, now),
        ),
        m.finished(OutcomeModel::Synced, now).retry is None,
        m.finished(OutcomeModel::RetryAbandoned, now).retry is None,
        m.retry == Some((commit, last)) ==> m.finished(
            OutcomeModel::RetryFailed(message),
            now,
        ).retry == Some((commit, now)),
        m.retry is None ==> m.finished(OutcomeModel::RetryFailed(message), now).retry is None,
        m.finished(OutcomeModel::Failed(message), now).retry == m.retry,
        m.finished(OutcomeModel::Skipped, now).retry == m.retry,
        m.finished(OutcomeModel::SkippedUntracked, now).retry == m.retry,
{
}

/// Law: a commit is pushed again where nothing runs and 30 seconds have passed
/// since it was last tried, and not before.
pub proof fn law_pushed_again_after_half_a_minute(
    m: GitSyncModel,
    commit: Text,
    last: u64,
    now: u64,
)
    ensures
        m.retry is None ==> !m.retry_due(now),
        m.busy ==> !m.retry_due(now),
        !m.busy && m.retry == Some((commit, last)) ==> (m.retry_due(now) <==> now >= last + 30_000),
{
}

// ----- Command lines ---------------------------------------------------

/// Law: a path is handed to git as it is, and behind `--` where it could be
/// taken for an option; commits are named as they are.
pub proof fn law_paths_are_handed_on(path: Text, commit: Text, mode: Text, blob: Text, index: Text)
    ensures
        git_step::arguments(Action::Status { path }) == seq![
            "status"@,
            "--porcelain"@,
            "--"@,
            path,
        ],
        git_step::arguments(Action::IndexEntry { path }) == seq![
            "ls-files"@,
            "--stage"@,
            "--full-name"@,
            "-z"@,
            "--"@,
            path,
        ],
        git_step::arguments(Action::IndexBlob { relpath: path }) == seq![
            "ls-files"@,
            "--stage"@,
            "-z"@,
            "--"@,
            path,
        ],
        git_step::arguments(Action::ShowAt { commit, relpath: path }) == seq![
            "show"@,
            commit + ":"@ + path,
        ],
        git_step::arguments(Action::ShowStaged { relpath: path }) == seq!["show"@, ":"@ + path],
        git_step::arguments(Action::BlobAt { commit, relpath: path }) == seq![
            "rev-parse"@,
            commit + ":"@ + path,
        ],
        git_step::arguments(Action::StageTemporary { index, mode, blob, relpath: path }) == seq![
            "update-index"@,
            "--add"@,
            "--cacheinfo"@,
            mode,
            blob,
            path,
        ],
        git_step::arguments(Action::StageReal { mode, blob, relpath: path }) == seq![
            "update-index"@,
            "--add"@,
            "--cacheinfo"@,
            mode,
            blob,
            path,
        ],
{
}

/// Law: commits, branches and settings are looked up by the names given, and a
/// branch is moved or deleted only if it is at the commit given.
pub proof fn law_commits_are_handed_on(a: Text, b: Text, c: Text)
    ensures
        git_step::arguments(Action::CountAhead { tip: a }) == seq![
            "rev-list"@,
            "--count"@,
            "@{u}.."@ + a,
        ],
        git_step::arguments(Action::RangeParents { range: a }) == seq![
            "rev-list"@,
            "--parents"@,
            a,
        ],
        git_step::arguments(Action::ParentsOf { commit: a }) == seq![
            "rev-list"@,
            "--parents"@,
            "-n"@,
            "1"@,
            a,
        ],
        git_step::arguments(Action::TouchedPaths { commits: a }) == seq![
            "diff-tree"@,
            "--root"@,
            "--no-commit-id"@,
            "--name-only"@,
            "-r"@,
            "-z"@,
            "--stdin"@,
        ],
        git_step::arguments(Action::StoreBlob { content: a }) == seq![
            "hash-object"@,
            "-w"@,
            "--stdin"@,
        ],
        git_step::arguments(Action::FillIndex { index: b, tree: a }) == seq!["read-tree"@, a],
        git_step::arguments(Action::Commit { index: b, message: a }) == seq!["commit"@, "-m"@, a],
        git_step::arguments(Action::MoveHead { target: a, created: b }) == seq![
            "update-ref"@,
            "HEAD"@,
            a,
            b,
        ],
        git_step::arguments(Action::DeleteBranch { branch: a, created: b }) == seq![
            "update-ref"@,
            "-d"@,
            a,
            b,
        ],
        git_step::arguments(Action::Config { key: a }) == seq!["config"@, "--get"@, a],
        git_step::arguments(Action::Push { remote: a, commit: b, branch: c }) == seq![
            "push"@,
            a,
            b + ":"@ + c,
        ],
{
}

/// Law: the steps that take nothing ask git for one thing each, and those that
/// are no commands ask git for nothing.
pub proof fn law_plain_commands(git_dir: Text)
    ensures
        git_step::arguments(Action::InsideWorkTree) == seq![
            "rev-parse"@,
            "--is-inside-work-tree"@,
        ],
        git_step::arguments(Action::ShowToplevel) == seq!["rev-parse"@, "--show-toplevel"@],
        git_step::arguments(Action::GitDir) == seq!["rev-parse"@, "--git-dir"@],
        git_step::arguments(Action::SymbolicRef) == seq!["symbolic-ref"@, "-q"@, "HEAD"@],
        git_step::arguments(Action::UnmergedFiles) == seq!["ls-files"@, "-u"@],
        git_step::arguments(Action::Head) == seq!["rev-parse"@, "HEAD"@],
        git_step::arguments(Action::VerifyHead) == seq![
            "rev-parse"@,
            "--verify"@,
            "-q"@,
            "HEAD"@,
        ],
        git_step::arguments(Action::VerifyUpstream) == seq![
            "rev-parse"@,
            "--verify"@,
            "-q"@,
            "@{u}"@,
        ],
        git_step::arguments(Action::ProbeMarkers { git_dir }).len() == 0,
        git_step::arguments(Action::ReadChecklist).len() == 0,
        git_step::arguments(Action::RemoveIndex { index: git_dir }).len() == 0,
{
}

/// Law: the content that is stored, and the commits that are looked at, go to
/// the command's standard input, unchanged, and no other step writes there.
pub proof fn law_standard_input(action: Action<Text>)
    ensures
        git_step::standard_input(action) is Some <==> action is StoreBlob || action is TouchedPaths,
        action matches Action::StoreBlob { content } ==> git_step::standard_input(action) == Some(
            content,
        ),
        action matches Action::TouchedPaths { commits } ==> git_step::standard_input(action)
            == Some(commits),
{
}

/// Law: filling and changing the temporary index and committing it work on that
/// index, and every other command on the repository's own.
pub proof fn law_temporary_index(action: Action<Text>)
    ensures
        git_step::temporary_index(action) is Some <==> action is FillIndex || action
            is StageTemporary || action is Commit,
        action matches Action::FillIndex { index, tree } ==> git_step::temporary_index(action)
            == Some(index),
        action matches Action::StageTemporary { index, mode, blob, relpath }
            ==> git_step::temporary_index(action) == Some(index),
        action matches Action::Commit { index, message } ==> git_step::temporary_index(action)
            == Some(index),
{
}

/// Law: no command is led to another repository by the environment.
pub proof fn law_redirections_are_dropped()
    ensures
        git_step::redirecting().contains("GIT_DIR"@),
        git_step::redirecting().contains("GIT_WORK_TREE"@),
        git_step::redirecting().contains("GIT_COMMON_DIR"@),
        git_step::redirecting().contains("GIT_INDEX_FILE"@),
        git_step::redirecting().contains("GIT_OBJECT_DIRECTORY"@),
        git_step::redirecting().contains("GIT_ALTERNATE_OBJECT_DIRECTORIES"@),
        git_step::redirecting().contains("GIT_NAMESPACE"@),
        git_step::redirecting().contains("GIT_PREFIX"@),
        git_step::redirecting().len() == 8,
{
    let v = git_step::redirecting();
    assert(v[0] == "GIT_DIR"@ && v[1] == "GIT_WORK_TREE"@ && v[2] == "GIT_COMMON_DIR"@ && v[3]
        == "GIT_INDEX_FILE"@ && v[4] == "GIT_OBJECT_DIRECTORY"@ && v[5]
        == "GIT_ALTERNATE_OBJECT_DIRECTORIES"@ && v[6] == "GIT_NAMESPACE"@ && v[7]
        == "GIT_PREFIX"@);
}

// ----- Where the configuration file is ---------------------------------

/// Law: the configuration file is under the directory that the environment names
/// for such files, or else under `.config` of the home directory; an empty name
/// counts as none; and with neither there is none.
pub proof fn law_configuration_is_found(xdg: Option<Text>, home: Option<Text>, dir: Text)
    requires
        dir.len() > 0,
    ensures
        xdg == Some(dir) ==> config::config_location(xdg, home) == Some(
            (if dir.last() == '/' {
                dir
            } else {
                dir.push('/')
            }) + "markcheck/config.toml"@,
        ),
        (xdg is None || xdg == Some(Seq::<char>::empty())) && home == Some(dir)
            ==> config::config_location(xdg, home) == Some(
            (if dir.last() == '/' {
                dir
            } else {
                dir.push('/')
            }) + ".config/markcheck/config.toml"@,
        ),
        (xdg is None || xdg == Some(Seq::<char>::empty())) && (home is None || home == Some(
            Seq::<char>::empty(),
        )) ==> config::config_location(xdg, home) is None,
{
    reveal_strlit("/");
    reveal_strlit("markcheck/config.toml");
    reveal_strlit(".config/markcheck/config.toml");
    reveal_strlit(".config");
    reveal_strlit("markcheck");
    reveal_strlit("config.toml");
    let within = if dir.last() == '/' {
        dir
    } else {
        dir.push('/')
    };
    if xdg == Some(dir) {
        let found = config::config_location(xdg, home)->0;
        assert(found =~= within + "markcheck/config.toml"@);
    } else if (xdg is None || xdg == Some(Seq::<char>::empty())) && home == Some(dir) {
        let found = config::config_location(xdg, home)->0;
        assert(found =~= within + ".config/markcheck/config.toml"@);
    }
}

} // verus!
