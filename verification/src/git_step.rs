//! The steps that git-sync asks for, and the replies to them.

use vstd::prelude::*;

use crate::text::{copy_of, join2, join3, ContentHash};

verus! {

/// One step to take, in the directory `dir`.
#[derive(Debug, PartialEq, Eq)]
pub struct Step {
    pub dir: String,
    pub action: Action<String>,
}

/// A step, as a mathematical value.
pub struct StepModel {
    pub dir: Seq<char>,
    pub action: Action<Seq<char>>,
}

/// What a step does. Steps with an `index` work on that temporary index in
/// place of the repository's own.
#[derive(Debug, PartialEq, Eq)]
pub enum Action<S> {
    /// Is the directory inside a work tree?
    InsideWorkTree,
    /// The root of the work tree.
    ShowToplevel,
    /// The repository's git directory.
    GitDir,
    /// Which of the marker files of unfinished work are in `git_dir`?
    ProbeMarkers { git_dir: S },
    /// The branch that `HEAD` is on.
    SymbolicRef,
    /// The files with unresolved conflicts.
    UnmergedFiles,
    /// Whether the file at `path` changed.
    Status { path: S },
    /// The index entry of the file at `path`, with its path from the root.
    IndexEntry { path: S },
    /// The index entry of `relpath`.
    IndexBlob { relpath: S },
    /// The commit that `HEAD` is at.
    Head,
    /// The commit that `HEAD` is at, told apart from there being none.
    VerifyHead,
    /// The commit that the upstream branch is at.
    VerifyUpstream,
    /// How many commits `tip` is ahead of the upstream branch.
    CountAhead { tip: S },
    /// The commits of `range`, each with its parents.
    RangeParents { range: S },
    /// The parents of one commit.
    ParentsOf { commit: S },
    /// The paths that the commits listed in `commits`, one a line, touch.
    TouchedPaths { commits: S },
    /// The content of `relpath` at `commit`.
    ShowAt { commit: S, relpath: S },
    /// The staged content of `relpath`.
    ShowStaged { relpath: S },
    /// The blob of `relpath` at `commit`.
    BlobAt { commit: S, relpath: S },
    /// What the checklist file holds now, and what was last asked to be
    /// committed.
    ReadChecklist,
    /// Stores `content` and names its blob.
    StoreBlob { content: S },
    /// Fills the temporary index from `tree`.
    FillIndex { index: S, tree: S },
    /// Puts one blob into the temporary index.
    StageTemporary { index: S, mode: S, blob: S, relpath: S },
    /// Commits the temporary index.
    Commit { index: S, message: S },
    /// Removes the temporary index, and its lock file.
    RemoveIndex { index: S },
    /// Puts one blob into the repository's own index.
    StageReal { mode: S, blob: S, relpath: S },
    /// Moves `HEAD` to `target`, if it is at `created`.
    MoveHead { target: S, created: S },
    /// Deletes the branch, if it is at `created`.
    DeleteBranch { branch: S, created: S },
    /// A configured value.
    Config { key: S },
    /// Pushes `commit` to `branch` of `remote`.
    Push { remote: S, commit: S, branch: S },
}

impl View for Action<String> {
    type V = Action<Seq<char>>;

    open spec fn view(&self) -> Action<Seq<char>> {
        match self {
            Action::InsideWorkTree => Action::InsideWorkTree,
            Action::ShowToplevel => Action::ShowToplevel,
            Action::GitDir => Action::GitDir,
            Action::ProbeMarkers { git_dir } => Action::ProbeMarkers { git_dir: git_dir@ },
            Action::SymbolicRef => Action::SymbolicRef,
            Action::UnmergedFiles => Action::UnmergedFiles,
            Action::Status { path } => Action::Status { path: path@ },
            Action::IndexEntry { path } => Action::IndexEntry { path: path@ },
            Action::IndexBlob { relpath } => Action::IndexBlob { relpath: relpath@ },
            Action::Head => Action::Head,
            Action::VerifyHead => Action::VerifyHead,
            Action::VerifyUpstream => Action::VerifyUpstream,
            Action::CountAhead { tip } => Action::CountAhead { tip: tip@ },
            Action::RangeParents { range } => Action::RangeParents { range: range@ },
            Action::ParentsOf { commit } => Action::ParentsOf { commit: commit@ },
            Action::TouchedPaths { commits } => Action::TouchedPaths { commits: commits@ },
            Action::ShowAt { commit, relpath } => Action::ShowAt {
                commit: commit@,
                relpath: relpath@,
            },
            Action::ShowStaged { relpath } => Action::ShowStaged { relpath: relpath@ },
            Action::BlobAt { commit, relpath } => Action::BlobAt {
                commit: commit@,
                relpath: relpath@,
            },
            Action::ReadChecklist => Action::ReadChecklist,
            Action::StoreBlob { content } => Action::StoreBlob { content: content@ },
            Action::FillIndex { index, tree } => Action::FillIndex { index: index@, tree: tree@ },
            Action::StageTemporary { index, mode, blob, relpath } => Action::StageTemporary {
                index: index@,
                mode: mode@,
                blob: blob@,
                relpath: relpath@,
            },
            Action::Commit { index, message } => Action::Commit {
                index: index@,
                message: message@,
            },
            Action::RemoveIndex { index } => Action::RemoveIndex { index: index@ },
            Action::StageReal { mode, blob, relpath } => Action::StageReal {
                mode: mode@,
                blob: blob@,
                relpath: relpath@,
            },
            Action::MoveHead { target, created } => Action::MoveHead {
                target: target@,
                created: created@,
            },
            Action::DeleteBranch { branch, created } => Action::DeleteBranch {
                branch: branch@,
                created: created@,
            },
            Action::Config { key } => Action::Config { key: key@ },
            Action::Push { remote, commit, branch } => Action::Push {
                remote: remote@,
                commit: commit@,
                branch: branch@,
            },
        }
    }
}

impl View for Step {
    type V = StepModel;

    open spec fn view(&self) -> StepModel {
        StepModel { dir: self.dir@, action: self.action@ }
    }
}

/// What a git command that ran to its end left.
#[derive(Debug)]
pub struct Output {
    pub success: bool,
    pub code: Option<i32>,
    pub stdout: Vec<u8>,
    pub stderr: Vec<u8>,
}

/// Which marker files of unfinished work a git directory has.
#[derive(Clone, Copy, Debug, PartialEq, Eq, Structural)]
pub struct Markers {
    pub merge: bool,
    pub cherry_pick: bool,
    pub revert: bool,
    pub bisect: bool,
    pub rebase: bool,
}

/// The reply to a step.
#[derive(Debug)]
pub enum Reply {
    /// The command ran to its end.
    Ran(Output),
    /// The command took too long and was killed.
    TimedOut(String),
    /// The command could not be run.
    Broken(String),
    /// The marker files.
    Markers(Markers),
    /// The hash of what the checklist file holds, if it can be read, and the
    /// hash of what was last asked to be committed.
    Checklist { disk: Option<ContentHash>, latest: ContentHash },
    /// The step was taken; there is nothing to tell.
    Done,
}

// ----- Command lines ---------------------------------------------------

/// The arguments that a step passes to git. A step that is not a git command
/// has none.
pub open spec fn arguments(action: Action<Seq<char>>) -> Seq<Seq<char>> {
    match action {
        Action::InsideWorkTree => seq!["rev-parse"@, "--is-inside-work-tree"@],
        Action::ShowToplevel => seq!["rev-parse"@, "--show-toplevel"@],
        Action::GitDir => seq!["rev-parse"@, "--git-dir"@],
        Action::SymbolicRef => seq!["symbolic-ref"@, "-q"@, "HEAD"@],
        Action::UnmergedFiles => seq!["ls-files"@, "-u"@],
        Action::Status { path } => seq!["status"@, "--porcelain"@, "--"@, path],
        Action::IndexEntry { path } => seq![
            "ls-files"@,
            "--stage"@,
            "--full-name"@,
            "-z"@,
            "--"@,
            path,
        ],
        Action::IndexBlob { relpath } => seq!["ls-files"@, "--stage"@, "-z"@, "--"@, relpath],
        Action::Head => seq!["rev-parse"@, "HEAD"@],
        Action::VerifyHead => seq!["rev-parse"@, "--verify"@, "-q"@, "HEAD"@],
        Action::VerifyUpstream => seq!["rev-parse"@, "--verify"@, "-q"@, "@{u}"@],
        Action::CountAhead { tip } => seq!["rev-list"@, "--count"@, "@{u}.."@ + tip],
        Action::RangeParents { range } => seq!["rev-list"@, "--parents"@, range],
        Action::ParentsOf { commit } => seq!["rev-list"@, "--parents"@, "-n"@, "1"@, commit],
        Action::TouchedPaths { .. } => seq![
            "diff-tree"@,
            "--root"@,
            "--no-commit-id"@,
            "--name-only"@,
            "-r"@,
            "-z"@,
            "--stdin"@,
        ],
        Action::ShowAt { commit, relpath } => seq!["show"@, commit + ":"@ + relpath],
        Action::ShowStaged { relpath } => seq!["show"@, ":"@ + relpath],
        Action::BlobAt { commit, relpath } => seq!["rev-parse"@, commit + ":"@ + relpath],
        Action::StoreBlob { .. } => seq!["hash-object"@, "-w"@, "--stdin"@],
        Action::FillIndex { tree, .. } => seq!["read-tree"@, tree],
        Action::StageTemporary { mode, blob, relpath, .. } => seq![
            "update-index"@,
            "--add"@,
            "--cacheinfo"@,
            mode,
            blob,
            relpath,
        ],
        Action::Commit { message, .. } => seq!["commit"@, "-m"@, message],
        Action::StageReal { mode, blob, relpath } => seq![
            "update-index"@,
            "--add"@,
            "--cacheinfo"@,
            mode,
            blob,
            relpath,
        ],
        Action::MoveHead { target, created } => seq!["update-ref"@, "HEAD"@, target, created],
        Action::DeleteBranch { branch, created } => seq!["update-ref"@, "-d"@, branch, created],
        Action::Config { key } => seq!["config"@, "--get"@, key],
        Action::Push { remote, commit, branch } => seq![
            "push"@,
            remote,
            commit + ":"@ + branch,
        ],
        Action::ProbeMarkers { .. } | Action::ReadChecklist | Action::RemoveIndex { .. } => {
            Seq::empty()
        },
    }
}

/// What a step writes to the command's standard input.
pub open spec fn standard_input(action: Action<Seq<char>>) -> Option<Seq<char>> {
    match action {
        Action::TouchedPaths { commits } => Some(commits),
        Action::StoreBlob { content } => Some(content),
        _ => None,
    }
}

/// The temporary index that a command works on.
pub open spec fn temporary_index(action: Action<Seq<char>>) -> Option<Seq<char>> {
    match action {
        Action::FillIndex { index, .. } => Some(index),
        Action::StageTemporary { index, .. } => Some(index),
        Action::Commit { index, .. } => Some(index),
        _ => None,
    }
}

/// The characters of each text.
pub open spec fn texts(v: Seq<String>) -> Seq<Seq<char>> {
    Seq::new(v.len(), |i: int| v[i]@)
}

/// Appends a text to a list of texts.
fn add_text(v: &mut Vec<String>, s: &str)
    ensures
        texts(final(v)@) == texts(old(v)@).push(s@),
{
    v.push(copy_of(s));
    assert(texts(v@) =~= texts(old(v)@).push(s@));
}

/// A list of one text.
fn list1(a: &str) -> (r: Vec<String>)
    ensures
        texts(r@) == seq![a@],
{
    let mut v: Vec<String> = Vec::new();
    add_text(&mut v, a);
    assert(texts(v@) =~= seq![a@]);
    v
}

/// A list of two texts.
fn list2(a: &str, b: &str) -> (r: Vec<String>)
    ensures
        texts(r@) == seq![a@, b@],
{
    let mut v = list1(a);
    add_text(&mut v, b);
    assert(texts(v@) =~= seq![a@, b@]);
    v
}

/// A list of three texts.
fn list3(a: &str, b: &str, c: &str) -> (r: Vec<String>)
    ensures
        texts(r@) == seq![a@, b@, c@],
{
    let mut v = list2(a, b);
    add_text(&mut v, c);
    assert(texts(v@) =~= seq![a@, b@, c@]);
    v
}

/// A list of four texts.
fn list4(a: &str, b: &str, c: &str, d: &str) -> (r: Vec<String>)
    ensures
        texts(r@) == seq![a@, b@, c@, d@],
{
    let mut v = list3(a, b, c);
    add_text(&mut v, d);
    assert(texts(v@) =~= seq![a@, b@, c@, d@]);
    v
}

/// A list of five texts.
fn list5(a: &str, b: &str, c: &str, d: &str, e: &str) -> (r: Vec<String>)
    ensures
        texts(r@) == seq![a@, b@, c@, d@, e@],
{
    let mut v = list4(a, b, c, d);
    add_text(&mut v, e);
    assert(texts(v@) =~= seq![a@, b@, c@, d@, e@]);
    v
}

/// A list of six texts.
fn list6(a: &str, b: &str, c: &str, d: &str, e: &str, f: &str) -> (r: Vec<String>)
    ensures
        texts(r@) == seq![a@, b@, c@, d@, e@, f@],
{
    let mut v = list5(a, b, c, d, e);
    add_text(&mut v, f);
    assert(texts(v@) =~= seq![a@, b@, c@, d@, e@, f@]);
    v
}

/// A list of seven texts.
fn list7(a: &str, b: &str, c: &str, d: &str, e: &str, f: &str, g: &str) -> (r: Vec<String>)
    ensures
        texts(r@) == seq![a@, b@, c@, d@, e@, f@, g@],
{
    let mut v = list6(a, b, c, d, e, f);
    add_text(&mut v, g);
    assert(texts(v@) =~= seq![a@, b@, c@, d@, e@, f@, g@]);
    v
}

/// The arguments that the step passes to git. A step that is not a git
/// command has none.
pub fn git_args(step: &Step) -> (r: Vec<String>)
    ensures
        texts(r@) == arguments(step@.action),
{
    match &step.action {
        Action::InsideWorkTree => list2("rev-parse", "--is-inside-work-tree"),
        Action::ShowToplevel => list2("rev-parse", "--show-toplevel"),
        Action::GitDir => list2("rev-parse", "--git-dir"),
        Action::SymbolicRef => list3("symbolic-ref", "-q", "HEAD"),
        Action::UnmergedFiles => list2("ls-files", "-u"),
        Action::Status { path } => list4("status", "--porcelain", "--", path.as_str()),
        Action::IndexEntry { path } => list6(
            "ls-files",
            "--stage",
            "--full-name",
            "-z",
            "--",
            path.as_str(),
        ),
        Action::IndexBlob { relpath } => list5("ls-files", "--stage", "-z", "--", relpath.as_str()),
        Action::Head => list2("rev-parse", "HEAD"),
        Action::VerifyHead => list4("rev-parse", "--verify", "-q", "HEAD"),
        Action::VerifyUpstream => list4("rev-parse", "--verify", "-q", "@{u}"),
        Action::CountAhead { tip } => {
            let range = join2("@{u}..", tip.as_str());
            list3("rev-list", "--count", range.as_str())
        },
        Action::RangeParents { range } => list3("rev-list", "--parents", range.as_str()),
        Action::ParentsOf { commit } => list5("rev-list", "--parents", "-n", "1", commit.as_str()),
        Action::TouchedPaths { .. } => list7(
            "diff-tree",
            "--root",
            "--no-commit-id",
            "--name-only",
            "-r",
            "-z",
            "--stdin",
        ),
        Action::ShowAt { commit, relpath } => {
            let object = join3(commit.as_str(), ":", relpath.as_str());
            list2("show", object.as_str())
        },
        Action::ShowStaged { relpath } => {
            let object = join2(":", relpath.as_str());
            list2("show", object.as_str())
        },
        Action::BlobAt { commit, relpath } => {
            let object = join3(commit.as_str(), ":", relpath.as_str());
            list2("rev-parse", object.as_str())
        },
        Action::StoreBlob { .. } => list3("hash-object", "-w", "--stdin"),
        Action::FillIndex { tree, .. } => list2("read-tree", tree.as_str()),
        Action::StageTemporary { mode, blob, relpath, .. } => list6(
            "update-index",
            "--add",
            "--cacheinfo",
            mode.as_str(),
            blob.as_str(),
            relpath.as_str(),
        ),
        Action::Commit { message, .. } => list3("commit", "-m", message.as_str()),
        Action::StageReal { mode, blob, relpath } => list6(
            "update-index",
            "--add",
            "--cacheinfo",
            mode.as_str(),
            blob.as_str(),
            relpath.as_str(),
        ),
        Action::MoveHead { target, created } => list4(
            "update-ref",
            "HEAD",
            target.as_str(),
            created.as_str(),
        ),
        Action::DeleteBranch { branch, created } => list4(
            "update-ref",
            "-d",
            branch.as_str(),
            created.as_str(),
        ),
        Action::Config { key } => list3("config", "--get", key.as_str()),
        Action::Push { remote, commit, branch } => {
            let refspec = join3(commit.as_str(), ":", branch.as_str());
            list3("push", remote.as_str(), refspec.as_str())
        },
        Action::ProbeMarkers { .. } | Action::ReadChecklist | Action::RemoveIndex { .. } => {
            let none: Vec<String> = Vec::new();
            assert(texts(none@) =~= Seq::<Seq<char>>::empty());
            none
        },
    }
}

/// What the step writes to the command's standard input.
pub fn step_input(step: &Step) -> (r: Option<&str>)
    ensures
        match r {
            Some(s) => standard_input(step@.action) == Some(s@),
            None => standard_input(step@.action) is None,
        },
{
    match &step.action {
        Action::TouchedPaths { commits } => Some(commits.as_str()),
        Action::StoreBlob { content } => Some(content.as_str()),
        _ => None,
    }
}

/// The temporary index that the command works on.
pub fn step_index(step: &Step) -> (r: Option<&str>)
    ensures
        match r {
            Some(s) => temporary_index(step@.action) == Some(s@),
            None => temporary_index(step@.action) is None,
        },
{
    match &step.action {
        Action::FillIndex { index, .. } => Some(index.as_str()),
        Action::StageTemporary { index, .. } => Some(index.as_str()),
        Action::Commit { index, .. } => Some(index.as_str()),
        _ => None,
    }
}

// ----- The surroundings of a command -----------------------------------

/// The environment variables that would have git work on another repository
/// than the one that holds the checklist. Every command is run without them.
pub open spec fn redirecting() -> Seq<Seq<char>> {
    seq![
        "GIT_DIR"@,
        "GIT_WORK_TREE"@,
        "GIT_COMMON_DIR"@,
        "GIT_INDEX_FILE"@,
        "GIT_OBJECT_DIRECTORY"@,
        "GIT_ALTERNATE_OBJECT_DIRECTORIES"@,
        "GIT_NAMESPACE"@,
        "GIT_PREFIX"@,
    ]
}

/// The environment variables that every command is run without.
pub fn redirecting_variables() -> (r: Vec<String>)
    ensures
        texts(r@) == redirecting(),
{
    let mut v = list7(
        "GIT_DIR",
        "GIT_WORK_TREE",
        "GIT_COMMON_DIR",
        "GIT_INDEX_FILE",
        "GIT_OBJECT_DIRECTORY",
        "GIT_ALTERNATE_OBJECT_DIRECTORIES",
        "GIT_NAMESPACE",
    );
    add_text(&mut v, "GIT_PREFIX");
    assert(texts(v@) =~= redirecting());
    v
}

/// The file of a git directory that marks an unfinished merge.
pub const MERGE_MARKER: &'static str = "MERGE_HEAD";

/// The file of a git directory that marks an unfinished cherry-pick.
pub const CHERRY_PICK_MARKER: &'static str = "CHERRY_PICK_HEAD";

/// The file of a git directory that marks an unfinished revert.
pub const REVERT_MARKER: &'static str = "REVERT_HEAD";

/// The file of a git directory that marks a running bisection.
pub const BISECT_MARKER: &'static str = "BISECT_LOG";

/// The directory of a git directory that marks an unfinished rebase.
pub const REBASE_MERGE_MARKER: &'static str = "rebase-merge";

/// The directory of a git directory that marks an unfinished rebase of patches.
pub const REBASE_APPLY_MARKER: &'static str = "rebase-apply";

/// How long, in milliseconds, a local git command may take.
pub const PLUMBING_TIMEOUT_MS: u64 = 10_000;

/// How long, in milliseconds, a push may take.
pub const PUSH_TIMEOUT_MS: u64 = 60_000;

/// How long, in milliseconds, the step may take.
pub fn step_timeout(step: &Step) -> (r: u64)
    ensures
        r == if step@.action is Push {
            PUSH_TIMEOUT_MS
        } else {
            PLUMBING_TIMEOUT_MS
        },
        step@.action is Push ==> r == 60_000,
        !(step@.action is Push) ==> r == 10_000,
{
    match &step.action {
        Action::Push { .. } => PUSH_TIMEOUT_MS,
        _ => PLUMBING_TIMEOUT_MS,
    }
}

} // verus!
