use std::collections::BTreeMap;

use markcheck::app_state::PendingSync;
use markcheck::git_commit::{
    commit_temp_index, commit_via_temp_index, staged_target_would_be_lost, undo_commit,
    verify_commit_scope, CommitPlan,
};
use markcheck::git_flow::{repo_sync_blocked, SyncOutcome};
use markcheck::git_push::{
    push, push_if_head_unchanged, range_has_unrelated_commits, retry_commit,
    unpushed_history_blocks, whose_commits_are_ahead, Ahead,
};
use markcheck::git_run::{advance, outcome_of_panic, Job, SyncJob, Turn};
use markcheck::git_step::{
    git_args, step_index, step_input, step_timeout, Action, Markers, Output, Reply, Step,
};
use markcheck::git_sync::{Detection, GitSync, PUSH_RETRY_INTERVAL_MS};
use markcheck::script::Script;
use markcheck::text::{hash_bytes, ContentHash};

// ----- A repository in memory -------------------------------------------

type Tree = BTreeMap<String, String>;

struct Commit {
    parents: Vec<String>,
    tree: Tree,
    message: String,
}

/// A repository with one branch, `main`, and a remote with the same branch.
struct Repo {
    commits: BTreeMap<String, Commit>,
    blobs: BTreeMap<String, String>,
    head: Option<String>,
    detached: bool,
    /// Whether the branch has an upstream configured.
    configured: bool,
    /// What the remote's branch is at.
    remote: Option<String>,
    remote_down: bool,
    index: Tree,
    temporary: BTreeMap<String, Tree>,
    /// The files of the work tree.
    work: Tree,
    markers: Markers,
    unmerged: bool,
    /// What a commit hook adds to every commit.
    hook: Option<(String, String)>,
    /// The hash of what was last asked to be committed.
    latest: ContentHash,
    /// What happens just before the first step that a test names.
    races: Vec<(fn(&Action<String>) -> bool, fn(&mut Repo))>,
    /// Steps that fail, by a test's choice.
    failing: fn(&Action<String>) -> bool,
    steps: Vec<Step>,
}

/// The name of the blob with this content.
fn blob_id(content: &str) -> String {
    hash_bytes(content.as_bytes()).iter().map(|byte| format!("{byte:02x}")).collect()
}

fn ran(stdout: String) -> Reply {
    Reply::Ran(Output {
        success: true,
        code: Some(0),
        stdout: stdout.into_bytes(),
        stderr: vec![],
    })
}

fn failed(code: i32, stderr: &str) -> Reply {
    Reply::Ran(Output {
        success: false,
        code: Some(code),
        stdout: vec![],
        stderr: stderr.as_bytes().to_vec(),
    })
}

impl Repo {
    fn empty() -> Repo {
        Repo {
            commits: BTreeMap::new(),
            blobs: BTreeMap::new(),
            head: None,
            detached: false,
            configured: true,
            remote: None,
            remote_down: false,
            index: Tree::new(),
            temporary: BTreeMap::new(),
            work: Tree::new(),
            markers: Markers {
                merge: false,
                cherry_pick: false,
                revert: false,
                bisect: false,
                rebase: false,
            },
            unmerged: false,
            hook: None,
            latest: [0; 32],
            races: vec![],
            failing: |_| false,
            steps: vec![],
        }
    }

    /// A repository with `tracked.md`, committed and pushed.
    fn new() -> Repo {
        let mut repo = Repo::empty();
        repo.write("tracked.md", "- [ ] one\n");
        repo.index = repo.work.clone();
        repo.commit_index("init");
        repo.remote = repo.head.clone();
        repo
    }

    fn write(&mut self, path: &str, content: &str) {
        self.work.insert(path.to_string(), content.to_string());
    }

    fn stage(&mut self, path: &str, content: &str) {
        self.blob(content);
        self.index.insert(path.to_string(), content.to_string());
    }

    fn blob(&mut self, content: &str) -> String {
        let id = blob_id(content);
        self.blobs.insert(id.clone(), content.to_string());
        id
    }

    fn add_commit(&mut self, parents: Vec<String>, tree: Tree, message: &str) -> String {
        let id = format!("c{:04}", self.commits.len());
        for content in tree.values() {
            let blob = blob_id(content);
            self.blobs.insert(blob, content.clone());
        }
        self.commits.insert(id.clone(), Commit { parents, tree, message: message.to_string() });
        self.head = Some(id.clone());
        id
    }

    fn commit_index(&mut self, message: &str) -> String {
        let parents = self.head.clone().into_iter().collect();
        self.add_commit(parents, self.index.clone(), message)
    }

    /// Writes, stages and commits one file.
    fn commit_file(&mut self, path: &str, content: &str, message: &str) -> String {
        self.write(path, content);
        self.stage(path, content);
        self.commit_index(message)
    }

    fn reachable(&self, tip: &str) -> Vec<String> {
        let mut seen: Vec<String> = vec![];
        let mut todo = vec![tip.to_string()];
        while let Some(id) = todo.pop() {
            if !seen.contains(&id) {
                if let Some(commit) = self.commits.get(&id) {
                    todo.extend(commit.parents.clone());
                    seen.push(id);
                }
            }
        }
        seen
    }

    fn range(&self, base: Option<&str>, tip: &str) -> Vec<String> {
        let old = base.map(|b| self.reachable(b)).unwrap_or_default();
        self.reachable(tip).into_iter().filter(|c| !old.contains(c)).collect()
    }

    fn parents_line(&self, id: &str) -> String {
        let mut line = id.to_string();
        for parent in &self.commits[id].parents {
            line.push(' ');
            line.push_str(parent);
        }
        line.push('\n');
        line
    }

    /// The paths that a commit touches. For a merge git lists none.
    fn touched(&self, id: &str) -> Vec<String> {
        let commit = &self.commits[id];
        if commit.parents.len() > 1 {
            return vec![];
        }
        let before = match commit.parents.first() {
            Some(p) => self.commits[p].tree.clone(),
            None => Tree::new(),
        };
        let mut paths: Vec<String> = vec![];
        for (path, content) in &commit.tree {
            if before.get(path) != Some(content) {
                paths.push(path.clone());
            }
        }
        for path in before.keys() {
            if !commit.tree.contains_key(path) {
                paths.push(path.clone());
            }
        }
        paths
    }

    fn messages(&self, tip: &Option<String>) -> Vec<String> {
        match tip {
            Some(t) => self.reachable(t).iter().map(|c| self.commits[c].message.clone()).collect(),
            None => vec![],
        }
    }

    fn head_content(&self, path: &str) -> Option<String> {
        self.commits[self.head.as_ref()?].tree.get(path).cloned()
    }

    fn remote_content(&self, path: &str) -> Option<String> {
        self.commits[self.remote.as_ref()?].tree.get(path).cloned()
    }

    fn upstream(&self) -> Option<&String> {
        if self.configured { self.remote.as_ref() } else { None }
    }

    fn count(&self, which: fn(&Action<String>) -> bool) -> usize {
        self.steps.iter().filter(|s| which(&s.action)).count()
    }

    fn reply(&mut self, step: Step) -> Reply {
        let due = self.races.iter().position(|(when, _)| when(&step.action));
        if let Some(i) = due {
            let (_, happen) = self.races.remove(i);
            happen(self);
        }
        let reply = if (self.failing)(&step.action) {
            failed(128, "fatal: not possible")
        } else {
            self.take(&step.action)
        };
        self.steps.push(step);
        reply
    }

    fn entry(&self, path: &str) -> Reply {
        match self.index.get(path) {
            Some(content) => {
                let blob = blob_id(content);
                ran(format!("100644 {blob} 0\t{path}\0"))
            }
            None => ran(String::new()),
        }
    }

    fn take(&mut self, action: &Action<String>) -> Reply {
        match action {
            Action::InsideWorkTree => ran("true\n".to_string()),
            Action::ShowToplevel => ran("/work\n".to_string()),
            Action::GitDir => ran(".git\n".to_string()),
            Action::ProbeMarkers { git_dir } => {
                assert_eq!(git_dir, "/work/.git");
                Reply::Markers(self.markers)
            }
            Action::SymbolicRef => {
                if self.detached {
                    failed(1, "")
                } else {
                    ran("refs/heads/main\n".to_string())
                }
            }
            Action::UnmergedFiles => {
                let listing = if self.unmerged { "100644 b0 1\ttracked.md\n" } else { "" };
                ran(listing.to_string())
            }
            Action::Status { path } => {
                let name = path.trim_start_matches("/work/").to_string();
                if !self.index.contains_key(&name) {
                    ran(format!("?? {name}\n"))
                } else {
                    let committed = self.head.clone().and_then(|_| self.head_content(&name));
                    let changed = self.work.get(&name) != self.index.get(&name)
                        || self.index.get(&name).cloned() != committed;
                    ran(if changed { format!(" M {name}\n") } else { String::new() })
                }
            }
            Action::IndexEntry { path } => self.entry(path.trim_start_matches("/work/")),
            Action::IndexBlob { relpath } => self.entry(relpath),
            Action::Head => match &self.head {
                Some(h) => ran(format!("{h}\n")),
                None => failed(128, "fatal: ambiguous argument 'HEAD'"),
            },
            Action::VerifyHead => match &self.head {
                Some(h) => ran(format!("{h}\n")),
                None => failed(1, ""),
            },
            Action::VerifyUpstream => match self.upstream() {
                Some(u) => ran(format!("{u}\n")),
                None => failed(1, ""),
            },
            Action::CountAhead { tip } => match self.upstream() {
                Some(u) => ran(format!("{}\n", self.range(Some(u), tip).len())),
                None => failed(128, "fatal: no upstream configured"),
            },
            Action::RangeParents { range } => {
                let commits = match range.split_once("..") {
                    Some((base, tip)) => self.range(Some(base), tip),
                    None => self.range(None, range),
                };
                ran(commits.iter().map(|c| self.parents_line(c)).collect())
            }
            Action::ParentsOf { commit } => {
                if self.commits.contains_key(commit) {
                    ran(self.parents_line(commit))
                } else {
                    failed(128, "fatal: bad object")
                }
            }
            Action::TouchedPaths { commits } => {
                let mut listing = String::new();
                for id in commits.lines() {
                    for path in self.touched(id) {
                        listing.push_str(&path);
                        listing.push('\0');
                    }
                }
                ran(listing)
            }
            Action::ShowAt { commit, relpath } => match self.commits[commit].tree.get(relpath) {
                Some(content) => ran(content.clone()),
                None => failed(128, "fatal: path does not exist"),
            },
            Action::ShowStaged { relpath } => match self.index.get(relpath) {
                Some(content) => ran(content.clone()),
                None => failed(128, "fatal: path does not exist"),
            },
            Action::BlobAt { commit, relpath } => match self.commits[commit].tree.get(relpath) {
                Some(content) => ran(format!("{}\n", blob_id(content))),
                None => failed(128, "fatal: path does not exist"),
            },
            Action::ReadChecklist => Reply::Checklist {
                disk: self.work.get("tracked.md").map(|c| hash_bytes(c.as_bytes())),
                latest: self.latest,
            },
            Action::StoreBlob { content } => {
                let id = self.blob(content);
                ran(format!("{id}\n"))
            }
            Action::FillIndex { index, tree } => {
                let filled = self.commits[tree].tree.clone();
                self.temporary.insert(index.clone(), filled);
                ran(String::new())
            }
            Action::StageTemporary { index, blob, relpath, .. } => {
                let content = self.blobs[blob].clone();
                self.temporary.entry(index.clone()).or_default().insert(relpath.clone(), content);
                ran(String::new())
            }
            Action::Commit { index, message } => {
                let mut tree = self.temporary[index].clone();
                if let Some((path, content)) = &self.hook {
                    tree.insert(path.clone(), content.clone());
                }
                let parents = self.head.clone().into_iter().collect();
                self.add_commit(parents, tree, message);
                ran(String::new())
            }
            Action::RemoveIndex { index } => {
                self.temporary.remove(index);
                Reply::Done
            }
            Action::StageReal { blob, relpath, .. } => {
                let content = self.blobs[blob].clone();
                self.index.insert(relpath.clone(), content);
                ran(String::new())
            }
            Action::MoveHead { target, created } => {
                if self.head.as_ref() == Some(created) {
                    self.head = Some(target.clone());
                    ran(String::new())
                } else {
                    failed(128, "fatal: cannot lock ref 'HEAD'")
                }
            }
            Action::DeleteBranch { created, .. } => {
                if self.head.as_ref() == Some(created) {
                    self.head = None;
                    ran(String::new())
                } else {
                    failed(128, "fatal: cannot lock ref")
                }
            }
            Action::Config { key } => match (self.configured, key.as_str()) {
                (true, "branch.main.remote") => ran("origin\n".to_string()),
                (true, "branch.main.merge") => ran("refs/heads/main\n".to_string()),
                _ => failed(1, ""),
            },
            Action::Push { remote, commit, branch } => {
                assert_eq!((remote.as_str(), branch.as_str()), ("origin", "refs/heads/main"));
                if self.remote_down {
                    failed(128, "fatal: unable to access remote")
                } else {
                    self.remote = Some(commit.clone());
                    ran(String::new())
                }
            }
        }
    }
}

/// Takes the steps that a procedure asks for until it is done.
fn drive<T>(repo: &mut Repo, procedure: impl Fn(&mut Script) -> Result<T, Step>) -> T {
    let mut replies: Vec<Reply> = vec![];
    loop {
        let outcome = procedure(&mut Script::new(&replies));
        match outcome {
            Ok(value) => return value,
            Err(step) => replies.push(repo.reply(step)),
        }
    }
}

/// Takes the steps of a job until it is done.
fn perform(repo: &mut Repo, job: &Job) -> SyncOutcome {
    let mut replies: Vec<Reply> = vec![];
    loop {
        match advance(job, &replies) {
            Turn::Finished(outcome) => return outcome,
            Turn::Take(step) => replies.push(repo.reply(step)),
        }
    }
}

/// The job that commits `content`, which the file had `before`.
fn change(content: &str, before: Option<&str>, message: &str) -> Job {
    Job::Sync(SyncJob {
        dir: "/work".to_string(),
        file: "/work/tracked.md".to_string(),
        content: content.to_string(),
        message: message.to_string(),
        previous: before.map(|b| hash_bytes(b.as_bytes())),
        index_name: "markcheck-index-1".to_string(),
    })
}

/// Writes `content` to the checklist and commits it, as the application does.
fn sync(repo: &mut Repo, content: &str, message: &str) -> SyncOutcome {
    let before = repo.work.get("tracked.md").cloned();
    repo.write("tracked.md", content);
    repo.latest = hash_bytes(content.as_bytes());
    perform(repo, &change(content, before.as_deref(), message))
}

fn catch_up(repo: &mut Repo) -> SyncOutcome {
    perform(
        repo,
        &Job::CatchUp { dir: "/work".to_string(), file: "/work/tracked.md".to_string() },
    )
}

fn is_failure(outcome: &SyncOutcome, text: &str) -> bool {
    matches!(outcome, SyncOutcome::Failed(m) if m.contains(text))
}

fn is_commit(action: &Action<String>) -> bool {
    matches!(action, Action::Commit { .. })
}

fn is_push(action: &Action<String>) -> bool {
    matches!(action, Action::Push { .. })
}

fn plan(repo: &mut Repo, content: &str, parent: Option<String>) -> CommitPlan {
    CommitPlan {
        root: "/work".to_string(),
        index: "/work/.git/markcheck-index-1".to_string(),
        parent,
        mode: "100644".to_string(),
        blob: repo.blob(content),
        relpath: "tracked.md".to_string(),
        message: "m".to_string(),
    }
}

fn same_plan(p: &CommitPlan) -> CommitPlan {
    CommitPlan {
        root: p.root.clone(),
        index: p.index.clone(),
        parent: p.parent.clone(),
        mode: p.mode.clone(),
        blob: p.blob.clone(),
        relpath: p.relpath.clone(),
        message: p.message.clone(),
    }
}

// ----- Detection --------------------------------------------------------

#[test]
fn detect_finds_a_repo() {
    let none: Vec<Reply> = vec![];
    let step = match GitSync::detect(Some("/work"), "/work/tracked.md", &none) {
        Detection::Take(step) => step,
        other => panic!("{other:?}"),
    };
    assert_eq!(git_args(&step), vec!["rev-parse", "--is-inside-work-tree"]);
    assert_eq!(step.dir, "/work");
    let found = GitSync::detect(Some("/work"), "/work/tracked.md", &vec![ran("true\n".into())]);
    match found {
        Detection::Active(sync) => {
            assert_eq!(sync.file_path, "/work/tracked.md");
            assert!(!sync.is_busy());
        }
        other => panic!("{other:?}"),
    }
}

#[test]
fn detect_none_outside_a_repo() {
    let replies = vec![failed(128, "fatal: not a git repository")];
    assert!(matches!(
        GitSync::detect(Some("/tmp"), "/tmp/file.md", &replies),
        Detection::Inactive
    ));
    assert!(matches!(GitSync::detect(None, "file.md", &replies), Detection::Inactive));
    let broken = vec![Reply::Broken("no such file".to_string())];
    assert!(matches!(
        GitSync::detect(Some("/tmp"), "/tmp/file.md", &broken),
        Detection::Inactive
    ));
}

#[test]
fn detect_none_inside_a_repo_and_outside_its_work_tree() {
    // In a bare repository, or inside a `.git` directory, git answers `false`.
    for answer in ["false\n", "", "truest\n"] {
        let replies = vec![ran(answer.to_string())];
        assert!(
            matches!(
                GitSync::detect(Some("/work/.git"), "/work/.git/file.md", &replies),
                Detection::Inactive
            ),
            "{answer:?}"
        );
    }
}

// ----- Committing and pushing -------------------------------------------

#[test]
fn run_sync_reports_an_untracked_file_without_adding_it() {
    let mut repo = Repo::new();
    repo.index.clear();
    assert_eq!(sync(&mut repo, "- [x] one\n", "m"), SyncOutcome::SkippedUntracked);
    assert_eq!(repo.count(is_commit), 0);
    assert!(repo.index.is_empty(), "not added");
}

#[test]
fn an_untracked_checklist_is_reported_even_when_git_status_stays_silent() {
    let replies = vec![
        ran("/work\n".to_string()),
        ran(".git\n".to_string()),
        Reply::Markers(Repo::empty().markers),
        ran("refs/heads/main\n".to_string()),
        ran(String::new()),
        ran(String::new()),
        ran(String::new()),
    ];
    assert_eq!(
        advance(&change("x", None, "m"), &replies),
        Turn::Finished(SyncOutcome::SkippedUntracked)
    );
}

#[test]
fn run_sync_skips_when_tracked_file_is_unchanged() {
    let mut repo = Repo::new();
    assert_eq!(sync(&mut repo, "- [ ] one\n", "m"), SyncOutcome::Skipped);
    assert_eq!(repo.count(is_commit), 0);
    assert_eq!(repo.count(is_push), 0);
}

#[test]
fn an_unchanged_file_has_its_unpushed_commits_pushed() {
    let mut repo = Repo::new();
    let left = repo.commit_file("tracked.md", "- [x] one\n", "left over");
    assert_eq!(sync(&mut repo, "- [x] one\n", "m"), SyncOutcome::Synced);
    assert_eq!(repo.count(is_commit), 0);
    assert_eq!(repo.remote, Some(left));
}

#[test]
fn an_unchanged_file_leaves_the_commits_of_others_alone() {
    let mut repo = Repo::new();
    repo.commit_file("notes.txt", "n\n", "unrelated local commit");
    repo.commit_file("more.txt", "m\n", "another one");
    assert_eq!(sync(&mut repo, "- [ ] one\n", "m"), SyncOutcome::Skipped);
    assert_eq!(repo.count(is_commit), 0);
    assert_eq!(repo.count(is_push), 0);
}

#[test]
fn an_unchanged_file_does_not_push_its_commits_along_with_unrelated_ones() {
    let mut repo = Repo::new();
    repo.commit_file("notes.txt", "n\n", "unrelated local commit");
    repo.commit_file("tracked.md", "- [x] one\n", "left over");
    let outcome = sync(&mut repo, "- [x] one\n", "m");
    assert!(is_failure(&outcome, "unpushed commits unrelated to this change"), "{outcome:?}");
    assert_eq!(repo.count(is_push), 0);

    let mut both = Repo::new();
    both.stage("notes.txt", "n\n");
    both.commit_file("tracked.md", "- [x] one\n", "two files at once");
    let outcome = sync(&mut both, "- [x] one\n", "m");
    assert!(is_failure(&outcome, "unpushed commits unrelated to this change"), "{outcome:?}");
    assert_eq!(both.count(is_push), 0);
}

/// A branch with a merge of another one, which touches `path`.
fn merged(path: &str, content: &str) -> Repo {
    let mut repo = Repo::new();
    let base = repo.head.clone().unwrap();
    let side = repo.commit_file(path, content, "side change");
    let tree = repo.index.clone();
    repo.add_commit(vec![base, side], tree, "merge side");
    repo
}

#[test]
fn an_unchanged_file_is_not_pushed_with_a_merge() {
    let mut own = merged("tracked.md", "- [x] one\n");
    let outcome = sync(&mut own, "- [x] one\n", "m");
    assert!(is_failure(&outcome, "unpushed commits unrelated to this change"), "{outcome:?}");
    assert_eq!(own.count(is_push), 0);

    let mut foreign = merged("other.md", "side\n");
    assert_eq!(sync(&mut foreign, "- [ ] one\n", "m"), SyncOutcome::Skipped);
    assert_eq!(foreign.count(is_push), 0);
}

#[test]
fn an_unchanged_file_whose_commits_cannot_be_looked_at_is_not_pushed() {
    let failing: [fn(&Action<String>) -> bool; 3] = [
        |a| matches!(a, Action::VerifyUpstream),
        |a| matches!(a, Action::RangeParents { .. }),
        |a| matches!(a, Action::TouchedPaths { .. }),
    ];
    for which in failing {
        let mut repo = Repo::new();
        repo.commit_file("tracked.md", "- [x] one\n", "left over");
        repo.failing = which;
        let outcome = sync(&mut repo, "- [x] one\n", "m");
        assert!(is_failure(&outcome, "could not verify"), "{outcome:?}");
        assert_eq!(repo.count(is_push), 0);
    }
}

#[test]
fn commits_ahead_are_told_apart_by_whose_they_are() {
    let mut repo = Repo::new();
    let base = repo.head.clone().unwrap();
    let asked = |repo: &mut Repo, tip: &str| {
        drive(repo, |s| whose_commits_are_ahead(s, "/work", &base, tip, "tracked.md"))
    };
    assert_eq!(asked(&mut repo, &base), Ok(Ahead::Foreign));
    let own = repo.commit_file("tracked.md", "- [x] one\n", "a");
    assert_eq!(asked(&mut repo, &own), Ok(Ahead::Own));
    let mixed = repo.commit_file("tracked.md.bak", "x\n", "b");
    assert_eq!(asked(&mut repo, &mixed), Ok(Ahead::Mixed));

    let mut other = Repo::new();
    let foreign = other.commit_file("tracked.md.bak", "x\n", "a");
    assert_eq!(asked(&mut other, &foreign), Ok(Ahead::Foreign));
    other.failing = |a| matches!(a, Action::TouchedPaths { .. });
    assert_eq!(
        asked(&mut other, &foreign),
        Err("git diff-tree: fatal: not possible".to_string())
    );
}

#[test]
fn an_unchanged_file_without_an_upstream_is_skipped() {
    let mut repo = Repo::new();
    repo.configured = false;
    repo.commit_file("tracked.md", "- [x] one\n", "local");
    assert_eq!(sync(&mut repo, "- [x] one\n", "m"), SyncOutcome::Skipped);
    assert_eq!(repo.count(is_push), 0);
}

#[test]
fn an_unchanged_file_whose_push_fails_is_pushed_again() {
    let mut repo = Repo::new();
    let left = repo.commit_file("tracked.md", "- [x] one\n", "left over");
    repo.remote_down = true;
    let outcome = sync(&mut repo, "- [x] one\n", "m");
    assert!(
        matches!(&outcome, SyncOutcome::CommittedNotPushed { commit, .. } if *commit == left),
        "{outcome:?}"
    );
}

#[test]
fn the_history_is_looked_at_before_every_push() {
    fn looks(action: &Action<String>) -> bool {
        matches!(action, Action::VerifyUpstream | Action::RangeParents { .. })
    }
    let mut fresh = Repo::empty();
    fresh.stage("tracked.md", "- [ ] one\n");
    fresh.write("tracked.md", "- [ ] one\n");
    let mut left = Repo::new();
    left.commit_file("tracked.md", "- [x] one\n", "left over");
    for mut repo in [Repo::new(), fresh, left] {
        sync(&mut repo, "- [x] one\n", "m");
        let pushed = repo.steps.iter().position(|s| is_push(&s.action)).expect("a push");
        let looked = repo.steps.iter().position(|s| looks(&s.action)).expect("a look");
        assert!(looked < pushed);
    }
}

#[test]
fn run_sync_commits_and_pushes_a_tracked_change() {
    let mut repo = Repo::new();
    let outcome = sync(&mut repo, "- [x] one\n", "tracked.md: Check \"one\"");
    assert_eq!(outcome, SyncOutcome::Synced);
    assert_eq!(repo.remote_content("tracked.md").as_deref(), Some("- [x] one\n"));
    assert_eq!(repo.messages(&repo.remote), vec!["tracked.md: Check \"one\"", "init"]);
}

#[test]
fn run_sync_leaves_the_real_index_matching_head_after_a_commit() {
    let mut repo = Repo::new();
    assert_eq!(sync(&mut repo, "- [x] one\n", "m"), SyncOutcome::Synced);
    assert_eq!(repo.index.get("tracked.md").cloned(), repo.head_content("tracked.md"));
    assert!(repo.temporary.is_empty(), "the temporary index is removed");
}

#[test]
fn run_sync_reports_failure_when_push_has_no_remote() {
    let mut repo = Repo::new();
    repo.configured = false;
    let outcome = sync(&mut repo, "- [x] one\n", "m");
    assert!(
        matches!(&outcome, SyncOutcome::CommittedNotPushed { message, .. }
            if message.contains("no upstream configured")),
        "{outcome:?}"
    );
    assert_eq!(repo.count(is_push), 0);
}

#[test]
fn a_push_that_fails_names_the_commit() {
    let mut repo = Repo::new();
    repo.remote_down = true;
    let outcome = sync(&mut repo, "- [x] one\n", "m");
    assert_eq!(
        outcome,
        SyncOutcome::CommittedNotPushed {
            message: "git push: fatal: unable to access remote".to_string(),
            commit: repo.head.clone().unwrap(),
        }
    );
}

#[test]
fn run_sync_never_includes_an_unrelated_staged_file() {
    let mut repo = Repo::new();
    repo.stage("secret.env", "KEY=1\n");
    assert_eq!(sync(&mut repo, "- [x] one\n", "m"), SyncOutcome::Synced);
    assert_eq!(repo.head_content("secret.env"), None);
    assert_eq!(repo.remote_content("secret.env"), None);
    assert_eq!(repo.remote_content("tracked.md").as_deref(), Some("- [x] one\n"));
    assert_eq!(repo.index.get("secret.env").map(String::as_str), Some("KEY=1\n"));
}

#[test]
fn run_sync_refuses_to_commit_content_that_went_stale_before_the_worker_ran() {
    let mut repo = Repo::new();
    repo.write("tracked.md", "- [x] one\nsomeone else\n");
    repo.latest = hash_bytes("- [x] one\n".as_bytes());
    let outcome = perform(&mut repo, &change("- [x] one\n", Some("- [ ] one\n"), "m"));
    assert!(is_failure(&outcome, "file changed since this request was queued"), "{outcome:?}");
    assert_eq!(repo.count(is_commit), 0);
}

#[test]
fn run_sync_recovers_on_the_next_request_after_a_stale_refusal() {
    let mut repo = Repo::new();
    repo.write("tracked.md", "- [x] A\n- [x] B\n");
    repo.latest = hash_bytes("- [x] A\n".as_bytes());
    let stale = perform(&mut repo, &change("- [x] A\n", None, "tracked.md: Check \"A\""));
    assert!(matches!(stale, SyncOutcome::Failed(_)), "{stale:?}");

    repo.latest = hash_bytes("- [x] A\n- [x] B\n".as_bytes());
    let fresh = change("- [x] A\n- [x] B\n", None, "tracked.md: Edited in vim");
    assert_eq!(perform(&mut repo, &fresh), SyncOutcome::Synced);
    assert_eq!(repo.remote_content("tracked.md").as_deref(), Some("- [x] A\n- [x] B\n"));
}

#[test]
fn run_sync_refuses_to_recommit_a_file_deleted_after_the_request_was_queued() {
    let mut repo = Repo::new();
    repo.work.clear();
    repo.latest = hash_bytes("- [x] one\n".as_bytes());
    let message = "tracked.md: Check \"one\"";
    let outcome = perform(&mut repo, &change("- [x] one\n", None, message));
    assert!(is_failure(&outcome, "file changed since this request was queued"), "{outcome:?}");
    assert_eq!(repo.count(is_commit), 0);
    assert_eq!(repo.messages(&repo.head), vec!["init"]);
    assert_eq!(repo.messages(&repo.remote), vec!["init"]);
    assert!(repo.work.is_empty(), "the deletion is left alone");
}

#[test]
fn run_sync_undoes_the_commit_when_a_hook_stages_extra_files() {
    let mut repo = Repo::new();
    repo.configured = false;
    repo.remote = None;
    let parent = repo.head.clone();
    repo.hook = Some(("other.md".to_string(), "unrelated\n".to_string()));
    let outcome = sync(&mut repo, "- [x] one\n", "tracked.md: Check \"one\"");
    assert!(is_failure(&outcome, "hook modified files beyond the checklist"), "{outcome:?}");
    assert_eq!(
        repo.head, parent,
        "the commit must be fully undone, not just refused going forward"
    );
    assert_eq!(
        repo.head_content("other.md"),
        None,
        "the hook-staged file must never reach a reachable commit"
    );
    assert!(
        !repo.index.contains_key("other.md"),
        "the real index must stay untouched by the hook too"
    );
    assert_eq!(repo.index.get("tracked.md").map(String::as_str), Some("- [ ] one\n"));
    assert!(repo.temporary.is_empty(), "temp index file was not cleaned up");
    assert_eq!(repo.count(is_push), 0);
}

#[test]
fn run_sync_undoes_a_hook_violated_root_commit_by_deleting_the_branch_ref() {
    let mut repo = Repo::empty();
    repo.configured = false;
    repo.stage("tracked.md", "- [x] one\n");
    repo.hook = Some(("extra.txt".to_string(), "x".to_string()));
    repo.write("tracked.md", "- [x] one\n");
    repo.latest = hash_bytes("- [x] one\n".as_bytes());
    let outcome = perform(&mut repo, &change("- [x] one\n", Some("- [x] one\n"), "m"));
    assert!(is_failure(&outcome, "hook modified files beyond the checklist"), "{outcome:?}");
    assert_eq!(repo.head, None);
}

#[test]
fn run_sync_skips_when_expected_content_already_matches_head_and_upstream() {
    let mut repo = Repo::new();
    repo.commit_file("tracked.md", "- [x] one\n", "elsewhere");
    repo.remote = repo.head.clone();
    repo.write("tracked.md", "- [x] one\nmore\n");
    let outcome = perform(&mut repo, &change("- [x] one\n", None, "m"));
    assert_eq!(outcome, SyncOutcome::Skipped);
}

#[test]
fn run_sync_retries_the_push_when_expected_content_matches_head_but_is_unpushed() {
    // The upstream is configured, and was never reached.
    let mut repo = Repo::new();
    repo.remote = None;
    repo.remote_down = true;
    repo.write("tracked.md", "- [ ] one\n- [x] two\n");
    repo.latest = hash_bytes("- [ ] one\n".as_bytes());
    let outcome = perform(&mut repo, &change("- [ ] one\n", None, "already committed"));
    assert!(
        matches!(outcome, SyncOutcome::CommittedNotPushed { .. }),
        "must attempt (and report failure of) the push, not silently skip: {outcome:?}"
    );
    assert_eq!(repo.count(is_commit), 0, "not committed again");
}

#[test]
fn content_that_is_committed_and_not_pushed_is_pushed() {
    let mut repo = Repo::new();
    repo.commit_file("tracked.md", "- [x] one\n", "committed before");
    repo.write("tracked.md", "- [x] one\nmore\n");
    let outcome = perform(&mut repo, &change("- [x] one\n", None, "m"));
    assert_eq!(outcome, SyncOutcome::Synced);
    assert_eq!(repo.count(is_commit), 0, "not committed again");
    assert_eq!(repo.remote, repo.head);
}

#[test]
fn run_sync_refuses_when_branch_has_unrelated_unpushed_commits() {
    let mut repo = Repo::new();
    repo.commit_file("notes.txt", "n\n", "unrelated local commit");
    let before = repo.head.clone();
    let outcome = sync(&mut repo, "- [x] one\n", "m");
    assert!(is_failure(&outcome, "unpushed commits unrelated to this change"), "{outcome:?}");
    assert_eq!(repo.head, before);
    assert_eq!(repo.count(is_push), 0);
}

#[test]
fn run_sync_refuses_the_fast_path_push_when_branch_has_unrelated_unpushed_commits() {
    let mut repo = Repo::new();
    repo.commit_file("tracked.md", "- [x] one\n", "Check \"one\"");
    repo.commit_file("other.md", "unrelated work\n", "unrelated local commit");
    let before = repo.head.clone();
    repo.write("tracked.md", "- [x] one\n- [x] two\n");
    repo.latest = hash_bytes("- [x] one\n".as_bytes());
    let outcome = perform(&mut repo, &change("- [x] one\n", None, "Catch up a pending push"));
    assert!(is_failure(&outcome, "unpushed commits unrelated to this change"), "{outcome:?}");
    assert_eq!(repo.head, before, "nothing should have been committed or pushed");
    assert_eq!(repo.messages(&repo.remote), vec!["init"]);
}

#[test]
fn run_sync_never_publishes_unrelated_work_when_no_upstream_is_configured() {
    let mut repo = Repo::new();
    repo.configured = false;
    repo.commit_file("other.md", "unrelated work\n", "unrelated local commit");
    let outcome = sync(&mut repo, "- [x] one\n", "tracked.md: Check \"one\"");
    assert!(
        matches!(&outcome, SyncOutcome::CommittedNotPushed { message, .. }
            if message.contains("no upstream configured")),
        "{outcome:?}"
    );
    assert_eq!(repo.count(is_push), 0);
    assert_eq!(repo.messages(&repo.remote), vec!["init"]);
}

#[test]
fn run_sync_refuses_when_an_unrelated_commit_is_reverted_before_the_checklist_commit() {
    let mut repo = Repo::new();
    repo.commit_file("notes.txt", "n\n", "unrelated");
    repo.index.remove("notes.txt");
    repo.commit_index("revert of unrelated");
    let outcome = sync(&mut repo, "- [x] one\n", "m");
    assert!(is_failure(&outcome, "unpushed commits unrelated to this change"), "{outcome:?}");
}

#[test]
fn run_sync_refuses_when_a_merge_commit_is_in_the_unpushed_range() {
    let mut repo = merged("other.md", "side\n");
    let before = repo.head.clone();
    let outcome = sync(&mut repo, "- [x] one\n", "already committed");
    assert!(is_failure(&outcome, "unpushed commits unrelated to this change"), "{outcome:?}");
    assert_eq!(repo.head, before, "nothing was committed");
    assert_eq!(repo.count(is_commit), 0);
    assert_eq!(repo.count(is_push), 0);

    // A merge that touches nothing but the checklist is refused too.
    let mut own = merged("tracked.md", "- [ ] one\n- [ ] two\n");
    let outcome = sync(&mut own, "- [x] one\n- [x] two\n", "m");
    assert!(is_failure(&outcome, "unpushed commits unrelated to this change"), "{outcome:?}");
    assert_eq!(own.count(is_commit), 0);
}

#[test]
fn run_sync_does_not_refuse_for_markchecks_own_stacked_unpushed_commits() {
    let mut repo = Repo::new();
    repo.remote_down = true;
    let first = sync(&mut repo, "- [x] one\n", "first");
    assert!(matches!(first, SyncOutcome::CommittedNotPushed { .. }), "{first:?}");
    let second = sync(&mut repo, "- [x] one\n- [x] two\n", "second");
    assert!(matches!(second, SyncOutcome::CommittedNotPushed { .. }), "{second:?}");
    repo.remote_down = false;
    assert_eq!(catch_up(&mut repo), SyncOutcome::Synced);
    assert_eq!(repo.messages(&repo.remote), vec!["second", "first", "init"]);
}

#[test]
fn run_sync_refuses_when_a_staged_checklist_version_would_be_dropped() {
    let mut repo = Repo::new();
    repo.stage("tracked.md", "- [ ] one\nstaged by hand\n");
    let outcome = sync(&mut repo, "- [x] one\n", "m");
    assert!(is_failure(&outcome, "staged changes"), "{outcome:?}");
    assert_eq!(repo.count(is_commit), 0);
    assert_eq!(
        repo.index.get("tracked.md").map(String::as_str),
        Some("- [ ] one\nstaged by hand\n")
    );
}

#[test]
fn run_sync_proceeds_when_the_staged_checklist_matches_the_working_tree() {
    let mut repo = Repo::new();
    repo.write("tracked.md", "- [ ] one\n- [ ] extra\n");
    repo.stage("tracked.md", "- [ ] one\n- [ ] extra\n");
    repo.write("other.txt", "unrelated staged\n");
    repo.stage("other.txt", "unrelated staged\n");
    let outcome = sync(&mut repo, "- [x] one\n- [ ] extra\n", "tracked.md: Check \"one\"");
    assert_eq!(outcome, SyncOutcome::Synced);
    assert_eq!(
        repo.remote_content("tracked.md").as_deref(),
        Some("- [x] one\n- [ ] extra\n"),
        "the commit has what was staged, and the change"
    );
    assert_eq!(repo.remote_content("other.txt"), None);
    assert_eq!(
        repo.index.get("other.txt").map(String::as_str),
        Some("unrelated staged\n"),
        "another staged file stays staged"
    );
}

#[test]
fn staged_target_guard_fails_closed_without_a_pre_write_hash() {
    let mut repo = Repo::new();
    let committed = Some(repo.blob("- [ ] one\n"));
    let unchanged = drive(&mut repo, |s| {
        staged_target_would_be_lost(s, "/work", "tracked.md", &committed, None)
    });
    assert!(!unchanged);
    repo.write("tracked.md", "- [ ] one\n- [ ] staged\n");
    repo.stage("tracked.md", "- [ ] one\n- [ ] staged\n");
    let lost = drive(&mut repo, |s| {
        staged_target_would_be_lost(s, "/work", "tracked.md", &committed, None)
    });
    assert!(lost);
    let unstaged = drive(&mut repo, |s| {
        staged_target_would_be_lost(s, "/work", "other-untouched.md", &None, None)
    });
    assert!(!unstaged, "a path that is not staged is not at risk");
    let known = drive(&mut repo, |s| {
        let hash = Some(hash_bytes("- [ ] one\n- [ ] staged\n".as_bytes()));
        staged_target_would_be_lost(s, "/work", "tracked.md", &committed, hash)
    });
    assert!(!known);
}

// ----- Others at work meanwhile -----------------------------------------

#[test]
fn a_commit_landing_before_ours_is_detected_rather_than_built_on_stale_state() {
    let mut repo = Repo::new();
    repo.races.push((
        |a| matches!(a, Action::StageTemporary { .. }),
        |r| {
            r.commit_file("other.txt", "x\n", "racer");
        },
    ));
    let outcome = sync(&mut repo, "- [x] one\n", "m");
    assert!(is_failure(&outcome, "changed during sync"), "{outcome:?}");
    assert_eq!(repo.count(is_commit), 0);
    assert_eq!(repo.messages(&repo.head), vec!["racer", "init"]);
    assert!(repo.temporary.is_empty(), "the temporary index is removed");
}

#[test]
fn a_second_sync_committing_mid_flight_cannot_revert_the_first() {
    let mut repo = Repo::new();
    repo.commit_file("a.md", "- [ ] a\n", "add another checklist");
    repo.remote = repo.head.clone();
    repo.races.push((is_commit, |r| {
        r.commit_file("a.md", "- [x] a\n", "a.md: Check \"a\"");
    }));
    let outcome = sync(&mut repo, "- [x] one\n", "tracked.md: Check \"one\"");
    assert!(matches!(outcome, SyncOutcome::Failed(_)), "{outcome:?}");
    assert_eq!(repo.head_content("a.md").as_deref(), Some("- [x] a\n"));
    assert_eq!(repo.messages(&repo.head)[0], "a.md: Check \"a\"", "still the branch tip");
    assert_eq!(repo.count(is_push), 0);
}

#[test]
fn an_unrelated_commit_landing_after_validation_is_not_published_by_catch_up() {
    let mut repo = Repo::new();
    let ours = repo.commit_file("tracked.md", "- [x] one\n", "ours");
    repo.races.push((is_push, |r| {
        r.commit_file("other.txt", "x\n", "racer");
    }));
    assert_eq!(catch_up(&mut repo), SyncOutcome::Synced);
    assert_eq!(repo.remote, Some(ours), "the validated commit and no more");
}

#[test]
fn an_unrelated_commit_landing_after_validation_is_not_published_by_the_fast_path() {
    let mut repo = Repo::new();
    let ours = repo.commit_file("tracked.md", "- [x] one\n", "ours");
    repo.write("tracked.md", "- [x] one\nmore\n");
    repo.races.push((
        |a| matches!(a, Action::CountAhead { .. }),
        |r| {
            r.commit_file("other.txt", "x\n", "racer");
        },
    ));
    let outcome = perform(&mut repo, &change("- [x] one\n", None, "m"));
    assert_eq!(outcome, SyncOutcome::Synced);
    assert_eq!(repo.remote, Some(ours));
}

#[test]
fn a_version_staged_during_the_sync_survives_index_alignment() {
    let mut repo = Repo::new();
    repo.races.push((is_commit, |r| r.stage("tracked.md", "staged meanwhile\n")));
    let outcome = sync(&mut repo, "- [x] one\n", "m");
    assert_eq!(outcome, SyncOutcome::Synced);
    assert_eq!(repo.index.get("tracked.md").map(String::as_str), Some("staged meanwhile\n"));
}

#[test]
fn push_if_head_unchanged_refuses_to_push_a_commit_that_landed_after_verification() {
    let mut repo = Repo::new();
    let created = repo.commit_file("tracked.md", "- [x] one\n", "ours");
    repo.commit_file("other.txt", "x\n", "racer");
    let outcome =
        drive(&mut repo, |s| push_if_head_unchanged(s, "/work", "/work", &created));
    assert!(
        matches!(&outcome, SyncOutcome::CommittedNotPushed { message, commit }
            if message.contains("repository changed after commit") && *commit == created),
        "{outcome:?}"
    );
    assert_eq!(repo.count(is_push), 0);
}

#[test]
fn push_if_head_unchanged_pushes_normally_when_nothing_raced_it() {
    let mut repo = Repo::new();
    let created = repo.commit_file("tracked.md", "- [x] one\n", "markcheck commit");
    let outcome =
        drive(&mut repo, |s| push_if_head_unchanged(s, "/work", "/work", &created));
    assert_eq!(outcome, SyncOutcome::Synced);
    assert_eq!(repo.remote, Some(created));
}

#[test]
fn push_refuses_an_empty_commit_instead_of_deleting_the_remote_branch() {
    let mut repo = Repo::new();
    let outcome = drive(&mut repo, |s| push(s, "/work", ""));
    assert!(is_failure(&outcome, "unresolved commit"), "{outcome:?}");
    assert!(repo.steps.is_empty());
}

#[test]
fn push_never_sends_more_than_the_explicitly_targeted_commit() {
    let mut repo = Repo::new();
    let older = repo.commit_file("tracked.md", "- [x] one\n", "older commit");
    repo.commit_file("tracked.md", "- [x] two\n", "newer commit");
    assert_eq!(drive(&mut repo, |s| push(s, "/work", &older)), SyncOutcome::Synced);
    assert_eq!(repo.messages(&repo.remote), vec!["older commit", "init"]);
}

#[test]
fn commit_via_temp_index_refuses_when_head_moved_since_parent_was_read() {
    let mut repo = Repo::new();
    let parent = repo.head.clone();
    repo.commit_file("other.txt", "x\n", "racer");
    let p = plan(&mut repo, "- [x] one\n", parent);
    let result =
        drive(&mut repo, |s| commit_via_temp_index(s, same_plan(&p), "markcheck-index-1"));
    assert!(result.as_ref().is_err_and(|e| e.contains("changed during sync")), "{result:?}");
    assert_eq!(repo.count(is_commit), 0);
    assert!(repo.temporary.is_empty(), "the temporary index is removed");
}

#[test]
fn commit_via_temp_index_refuses_when_repo_becomes_blocked_after_the_head_check() {
    let mut repo = Repo::new();
    let parent = repo.head.clone();
    repo.markers.merge = true;
    let p = plan(&mut repo, "- [x] one\n", parent);
    let result =
        drive(&mut repo, |s| commit_via_temp_index(s, same_plan(&p), "markcheck-index-1"));
    assert!(result.as_ref().is_err_and(|e| e.contains("merge")), "{result:?}");
    assert!(repo.temporary.is_empty(), "the temporary index is removed");
}

#[test]
fn verify_commit_scope_checks_the_captured_commit_not_whatever_head_is_now() {
    let mut repo = Repo::new();
    let parent = repo.head.clone();
    let created = repo.commit_file("tracked.md", "- [x] one\n", "ours");
    repo.commit_file("other.txt", "x\n", "racer");
    let head = repo.head.clone();
    let result =
        drive(&mut repo, |s| verify_commit_scope(s, "/work", &parent, "tracked.md", &created));
    assert!(result.is_ok(), "{result:?}");
    assert_eq!(repo.head, head);
}

#[test]
fn verify_commit_scope_catches_a_revert_cancelled_unrelated_change() {
    let mut repo = Repo::new();
    let parent = repo.head.clone();
    repo.commit_file("tracked.md", "- [x] one\n", "checklist change");
    let nested = repo.commit_file("other.md", "unrelated\n", "unrelated nested commit");
    repo.index.remove("other.md");
    let created = repo.commit_index("revert unrelated nested commit");
    let result =
        drive(&mut repo, |s| verify_commit_scope(s, "/work", &parent, "tracked.md", &created));
    assert!(
        result.as_ref().is_err_and(|e| e.contains("hook modified files beyond the checklist")),
        "{result:?}"
    );
    assert_eq!(repo.head, Some(nested), "exactly one commit is taken back");
    assert_ne!(repo.head, parent, "the commits before it are left in place");
}

#[test]
fn verify_commit_scope_names_the_stray_commit_when_the_undo_itself_fails() {
    let mut repo = Repo::new();
    let parent = repo.head.clone();
    repo.stage("extra.txt", "x\n");
    let created = repo.commit_file("tracked.md", "- [x] one\n", "ours with more");
    repo.commit_file("tracked.md", "- [x] two\n", "racer");
    let head = repo.head.clone();
    let err =
        drive(&mut repo, |s| verify_commit_scope(s, "/work", &parent, "tracked.md", &created))
            .unwrap_err();
    assert!(err.contains("undoing the commit failed"), "{err}");
    assert!(err.contains(&created), "{err}");
    assert_eq!(repo.head, head);
}

#[test]
fn an_unverifiable_commit_scope_says_the_commit_was_left_behind() {
    let mut repo = Repo::new();
    repo.failing = |a| matches!(a, Action::RangeParents { .. });
    let err = drive(&mut repo, |s| verify_commit_scope(s, "/work", &None, "tracked.md", "c9"))
        .unwrap_err();
    assert!(err.contains("c9") && err.contains("left on the branch"), "{err}");
}

#[test]
fn undo_commit_refuses_to_rewind_a_commit_that_landed_after_the_one_being_undone() {
    let mut repo = Repo::new();
    let created = repo.commit_file("tracked.md", "- [x] one\n", "ours");
    repo.commit_file("other.txt", "x\n", "racer");
    let head = repo.head.clone();
    let result = drive(&mut repo, |s| undo_commit(s, "/work", &created));
    assert!(result.is_err(), "{result:?}");
    assert_eq!(repo.head, head);
}

#[test]
fn undo_commit_refuses_to_delete_a_root_commit_that_already_has_a_child() {
    let mut repo = Repo::empty();
    let root = repo.commit_file("tracked.md", "- [ ] one\n", "root");
    repo.commit_file("tracked.md", "- [x] one\n", "child");
    let head = repo.head.clone();
    let result = drive(&mut repo, |s| undo_commit(s, "/work", &root));
    assert!(result.is_err(), "{result:?}");
    assert_eq!(repo.head, head);
}

// ----- Commits that time out --------------------------------------------

/// Runs `commit_temp_index` with a commit that times out after `happen`.
fn commit_with_timeout(repo: &mut Repo, p: &CommitPlan, happen: fn(&mut Repo)) -> Result<
    String,
    String,
> {
    let tree = match &p.parent {
        Some(c) => repo.commits[c].tree.clone(),
        None => Tree::new(),
    };
    repo.temporary.insert(p.index.clone(), tree);
    let content = repo.blobs[&p.blob].clone();
    repo.temporary.get_mut(&p.index).unwrap().insert(p.relpath.clone(), content);
    let mut replies: Vec<Reply> = vec![];
    loop {
        let outcome = commit_temp_index(&mut Script::new(&replies), p);
        match outcome {
            Ok(result) => return result,
            Err(step) => {
                if is_commit(&step.action) {
                    happen(repo);
                    replies.push(Reply::TimedOut("timed out".to_string()));
                } else {
                    replies.push(repo.reply(step));
                }
            }
        }
    }
}

fn land(repo: &mut Repo) {
    let tree = repo.temporary["/work/.git/markcheck-index-1"].clone();
    let parents = repo.head.clone().into_iter().collect();
    repo.add_commit(parents, tree, "m");
}

#[test]
fn commit_temp_index_reconciles_when_a_post_commit_hook_outlives_the_timeout() {
    let mut repo = Repo::new();
    let parent = repo.head.clone();
    let p = plan(&mut repo, "- [x] one\n", parent);
    let result = commit_with_timeout(&mut repo, &p, land);
    assert_eq!(result, Ok(repo.head.clone().unwrap()));
}

#[test]
fn commit_temp_index_still_fails_when_the_commit_never_lands() {
    let mut repo = Repo::new();
    let parent = repo.head.clone();
    let p = plan(&mut repo, "- [x] one\n", parent.clone());
    let result = commit_with_timeout(&mut repo, &p, |_| {});
    assert!(result.as_ref().is_err_and(|e| e.contains("git commit failed")), "{result:?}");
    assert_eq!(repo.head, parent);
}

#[test]
fn commit_temp_index_does_not_adopt_an_unrelated_commit_after_a_timeout() {
    let mut repo = Repo::new();
    let parent = repo.head.clone();
    let p = plan(&mut repo, "- [x] one\n", parent);
    let result = commit_with_timeout(&mut repo, &p, |r| {
        r.commit_file("other.txt", "x\n", "unrelated concurrent commit");
    });
    assert!(result.as_ref().is_err_and(|e| e.contains("git commit failed")), "{result:?}");
}

#[test]
fn commit_temp_index_does_not_adopt_a_commit_that_landed_on_top_of_its_own() {
    let mut repo = Repo::new();
    let parent = repo.head.clone();
    let p = plan(&mut repo, "- [x] one\n", parent);
    let result = commit_with_timeout(&mut repo, &p, |r| {
        land(r);
        let tree = r.commits[r.head.as_ref().unwrap()].tree.clone();
        let parents = r.head.clone().into_iter().collect();
        r.add_commit(parents, tree, "unrelated commit on top");
    });
    assert!(result.as_ref().is_err_and(|e| e.contains("git commit failed")), "{result:?}");
}

// ----- History that is not pushed ---------------------------------------

#[test]
fn range_has_unrelated_commits_reads_a_whole_batched_range_correctly() {
    let mut repo = Repo::new();
    let root = repo.head.clone();
    for n in 1..=5 {
        repo.commit_file("tracked.md", &format!("- [x] {n}\n"), &format!("check {n}"));
    }
    let own = repo.head.clone().unwrap();
    let asked = |repo: &mut Repo, base: &Option<String>, tip: &str, path: &str| {
        drive(repo, |s| range_has_unrelated_commits(s, "/work", base, tip, path))
    };
    assert_eq!(asked(&mut repo, &root, &own, "tracked.md"), Ok(false));
    assert_eq!(asked(&mut repo, &root, &own, "other.md"), Ok(true));
    // Without a base the first commit of all is looked at too.
    assert_eq!(asked(&mut repo, &None, &own, "tracked.md"), Ok(false));

    repo.stage("other.md", "unrelated\n");
    let mixed = repo.commit_file("tracked.md", "- [x] six\n", "two files at once");
    assert_eq!(asked(&mut repo, &root, &mixed, "tracked.md"), Ok(true));
    assert_eq!(asked(&mut repo, &None, &mixed, "tracked.md"), Ok(true));
    assert_eq!(asked(&mut repo, &Some(mixed.clone()), &mixed, "tracked.md"), Ok(false));
}

#[test]
fn a_tipless_branch_has_no_unrelated_unpushed_commits() {
    let mut repo = Repo::empty();
    let refusal =
        drive(&mut repo, |s| unpushed_history_blocks(s, "/work", &None, "tracked.md"));
    assert_eq!(refusal, None);
    assert!(repo.steps.is_empty());
}

#[test]
fn an_unanswerable_history_check_refuses_instead_of_permitting_a_push() {
    let mut repo = Repo::new();
    let tip = Some(repo.commit_file("tracked.md", "- [x] one\n", "a"));
    repo.failing = |a| matches!(a, Action::RangeParents { .. });
    let refusal = drive(&mut repo, |s| unpushed_history_blocks(s, "/work", &tip, "tracked.md"));
    assert!(refusal.as_ref().is_some_and(|m| m.contains("could not verify")), "{refusal:?}");
}

#[test]
fn a_branch_without_an_upstream_is_not_a_verification_failure() {
    let mut repo = Repo::new();
    repo.configured = false;
    let tip = repo.head.clone();
    let refusal = drive(&mut repo, |s| unpushed_history_blocks(s, "/work", &tip, "tracked.md"));
    assert_eq!(refusal, None);
}

// ----- Repositories that must not be touched ----------------------------

#[test]
fn repo_sync_blocked_is_none_for_a_clean_repo() {
    let mut repo = Repo::new();
    assert_eq!(drive(&mut repo, |s| repo_sync_blocked(s, "/work")), None);
}

#[test]
fn repo_sync_blocked_detects_a_merge_in_progress() {
    let mut repo = Repo::new();
    repo.markers.merge = true;
    let reason = drive(&mut repo, |s| repo_sync_blocked(s, "/work"));
    assert!(reason.as_ref().is_some_and(|r| r.contains("merge")), "{reason:?}");
}

#[test]
fn repo_sync_blocked_detects_a_rebase_in_progress() {
    let mut repo = Repo::new();
    repo.markers.rebase = true;
    let reason = drive(&mut repo, |s| repo_sync_blocked(s, "/work"));
    assert!(reason.as_ref().is_some_and(|r| r.contains("rebase")), "{reason:?}");
}

#[test]
fn repo_sync_blocked_detects_other_unfinished_work() {
    let mut repo = Repo::new();
    repo.markers.cherry_pick = true;
    let reason = drive(&mut repo, |s| repo_sync_blocked(s, "/work"));
    assert!(reason.as_ref().is_some_and(|r| r.contains("cherry-pick")), "{reason:?}");
    let mut repo = Repo::new();
    repo.markers.revert = true;
    let reason = drive(&mut repo, |s| repo_sync_blocked(s, "/work"));
    assert!(reason.as_ref().is_some_and(|r| r.contains("revert")), "{reason:?}");
    let mut repo = Repo::new();
    repo.markers.bisect = true;
    let reason = drive(&mut repo, |s| repo_sync_blocked(s, "/work"));
    assert!(reason.as_ref().is_some_and(|r| r.contains("bisect")), "{reason:?}");
}

#[test]
fn repo_sync_blocked_detects_detached_head() {
    let mut repo = Repo::new();
    repo.detached = true;
    let reason = drive(&mut repo, |s| repo_sync_blocked(s, "/work"));
    assert!(reason.as_ref().is_some_and(|r| r.contains("detached")), "{reason:?}");
}

#[test]
fn repo_sync_blocked_detects_unmerged_entries_without_a_merge_marker() {
    let mut repo = Repo::new();
    repo.unmerged = true;
    let reason = drive(&mut repo, |s| repo_sync_blocked(s, "/work"));
    assert!(reason.as_ref().is_some_and(|r| r.contains("conflict")), "{reason:?}");
}

#[test]
fn a_blocked_repository_is_left_alone() {
    let mut repo = Repo::new();
    repo.unmerged = true;
    let before = repo.head.clone();
    let outcome = sync(&mut repo, "- [x] one\n", "m");
    assert!(is_failure(&outcome, "conflict"), "{outcome:?}");
    assert_eq!(repo.head, before);
    assert_eq!(repo.count(is_commit), 0);
    assert_eq!(repo.count(is_push), 0);
}

// ----- Catching up ------------------------------------------------------

#[test]
fn catch_up_push_never_commits_uncommitted_working_tree_changes() {
    let mut repo = Repo::new();
    repo.write("tracked.md", "- [x] one\n");
    assert_eq!(catch_up(&mut repo), SyncOutcome::Skipped);
    assert_eq!(repo.count(is_commit), 0);
    assert_eq!(repo.messages(&repo.remote), vec!["init"]);
}

#[test]
fn catch_up_push_pushes_a_local_only_commit_without_committing_a_dirty_tree() {
    let mut repo = Repo::new();
    repo.commit_file("tracked.md", "- [x] one\n", "left behind");
    repo.write("tracked.md", "- [x] one\ndirty\n");
    assert_eq!(catch_up(&mut repo), SyncOutcome::Synced);
    assert_eq!(repo.messages(&repo.remote), vec!["left behind", "init"]);
    assert_eq!(repo.work["tracked.md"], "- [x] one\ndirty\n");
}

#[test]
fn catch_up_push_is_a_no_op_when_everything_is_already_pushed() {
    let mut repo = Repo::new();
    assert_eq!(catch_up(&mut repo), SyncOutcome::Skipped);
    assert_eq!(repo.count(is_push), 0);
}

#[test]
fn catch_up_push_stays_silent_when_no_upstream_is_configured() {
    let mut repo = Repo::new();
    repo.configured = false;
    repo.commit_file("tracked.md", "- [x] one\n", "local");
    assert_eq!(catch_up(&mut repo), SyncOutcome::Skipped);
}

#[test]
fn catch_up_push_refuses_when_unrelated_commits_are_unpushed() {
    let mut repo = Repo::new();
    repo.commit_file("other.txt", "x\n", "unrelated");
    let outcome = catch_up(&mut repo);
    assert!(is_failure(&outcome, "unrelated to this change"), "{outcome:?}");
    assert_eq!(repo.messages(&repo.remote), vec!["init"]);
}

#[test]
fn catch_up_push_reports_an_untracked_checklist() {
    let mut repo = Repo::new();
    repo.commit_file("other.txt", "x\n", "unrelated");
    repo.index.remove("tracked.md");
    assert_eq!(catch_up(&mut repo), SyncOutcome::SkippedUntracked);
}

#[test]
fn catch_up_push_refuses_while_the_repository_is_mid_merge() {
    let mut repo = Repo::new();
    repo.commit_file("tracked.md", "- [x] one\n", "left behind");
    repo.markers.merge = true;
    let outcome = catch_up(&mut repo);
    assert!(is_failure(&outcome, "a merge in progress"), "{outcome:?}");
}

// ----- Retries ----------------------------------------------------------

fn detected() -> GitSync {
    match GitSync::detect(Some("/work"), "/work/tracked.md", &vec![ran("true\n".into())]) {
        Detection::Active(sync) => sync,
        other => panic!("{other:?}"),
    }
}

#[test]
fn retry_push_if_due_noops_when_nothing_is_pending() {
    let mut sync = detected();
    assert!(sync.retry_push_if_due(1_000_000).is_none());
    assert!(!sync.busy, "nothing pending, nothing to retry");
}

#[test]
fn retry_push_if_due_noops_before_the_backoff_interval_elapses() {
    let mut sync = detected();
    sync.retry = Some(("c1".to_string(), 1_000));
    assert!(sync.retry_push_if_due(1_000 + PUSH_RETRY_INTERVAL_MS - 1).is_none());
    assert!(!sync.busy, "backoff interval hasn't elapsed yet");
}

#[test]
fn retry_push_if_due_noops_while_busy() {
    let mut sync = detected();
    sync.busy = true;
    sync.retry = Some(("c1".to_string(), 0));
    assert!(sync.retry_push_if_due(PUSH_RETRY_INTERVAL_MS).is_none());
    assert!(sync.busy);
}

#[test]
fn retry_push_if_due_retries_once_the_backoff_interval_elapses() {
    let mut repo = Repo::new();
    repo.remote_down = true;
    let commit = repo.commit_file("tracked.md", "- [x] one\n", "Check \"one\"");
    let mut sync = detected();
    sync.retry = Some((commit.clone(), 1_000));
    let now = 1_000 + PUSH_RETRY_INTERVAL_MS;
    let job = sync.retry_push_if_due(now).expect("due");
    assert!(sync.busy, "the backoff interval elapsed, a retry should have spawned");
    let outcome = perform(&mut repo, &job);
    let (reported, next) = sync.poll(Some(outcome), now, "i");
    assert!(matches!(reported, Some(SyncOutcome::CommittedNotPushed { .. })), "{reported:?}");
    assert!(next.is_none());
    assert_eq!(sync.retry, Some((commit, now)));
}

#[test]
fn retry_push_if_due_clears_the_retry_when_head_has_moved_on() {
    let mut repo = Repo::new();
    let stale = repo.commit_file("tracked.md", "- [x] one\n", "Check \"one\"");
    repo.commit_file("tracked.md", "- [x] two\n", "newer commit");
    let mut sync = detected();
    sync.retry = Some((stale, 1_000));
    let now = 1_000 + PUSH_RETRY_INTERVAL_MS;
    let job = sync.retry_push_if_due(now).expect("due");
    let outcome = perform(&mut repo, &job);
    let (reported, _) = sync.poll(Some(outcome), now, "i");
    assert_eq!(reported, Some(SyncOutcome::RetryAbandoned));
    assert!(sync.retry.is_none(), "the stale retry must be cleared, not left armed forever");
    assert!(sync.retry_push_if_due(now + PUSH_RETRY_INTERVAL_MS).is_none());
    assert!(!sync.busy, "nothing left to retry");
}

#[test]
fn apply_outcome_covers_every_variant_s_effect_on_the_retry_state() {
    let (old, now) = (1_000, 500_000);
    let mut sync = detected();
    let armed = |sync: &mut GitSync| sync.retry = Some(("c1".to_string(), old));

    armed(&mut sync);
    sync.apply_outcome(&SyncOutcome::Synced, now);
    assert!(sync.retry.is_none(), "Synced clears the retry");

    armed(&mut sync);
    sync.apply_outcome(&SyncOutcome::RetryAbandoned, now);
    assert!(sync.retry.is_none(), "an abandoned retry clears it");

    armed(&mut sync);
    sync.apply_outcome(
        &SyncOutcome::CommittedNotPushed { message: "nope".to_string(), commit: "c2".to_string() },
        now,
    );
    assert_eq!(sync.retry, Some(("c2".to_string(), now)), "restarts the backoff");

    armed(&mut sync);
    sync.apply_outcome(&SyncOutcome::RetryFailed("boom".to_string()), now);
    assert_eq!(sync.retry, Some(("c1".to_string(), now)), "restarts the backoff");

    armed(&mut sync);
    sync.apply_outcome(&SyncOutcome::Failed("boom".to_string()), now);
    assert_eq!(sync.retry, Some(("c1".to_string(), old)), "leaves the backoff alone");

    for outcome in [SyncOutcome::Skipped, SyncOutcome::SkippedUntracked] {
        armed(&mut sync);
        sync.apply_outcome(&outcome, now);
        assert_eq!(sync.retry, Some(("c1".to_string(), old)), "{outcome:?}");
    }
}

#[test]
fn an_unrelated_content_failure_does_not_starve_an_armed_retry() {
    let mut sync = detected();
    sync.retry = Some(("c1".to_string(), 10));
    sync.apply_outcome(&SyncOutcome::Failed("unrelated content sync".to_string()), 1_000);
    assert_eq!(sync.retry, Some(("c1".to_string(), 10)));
    sync.apply_outcome(&SyncOutcome::RetryFailed("retry blew up".to_string()), 1_000);
    assert_eq!(sync.retry, Some(("c1".to_string(), 1_000)));
}

#[test]
fn a_failed_retry_does_not_fire_again_on_the_very_next_frame() {
    let mut sync = detected();
    sync.retry = Some(("c1".to_string(), 0));
    let now = PUSH_RETRY_INTERVAL_MS * 2;
    assert!(sync.retry_push_if_due(now).is_some(), "a retry should have spawned");
    let failure = SyncOutcome::RetryFailed("git rev-parse: not a git repository".to_string());
    sync.poll(Some(failure), now, "i");
    assert!(sync.retry_push_if_due(now + 1).is_none());
    assert!(!sync.busy);
    assert!(sync.retry.is_some(), "the commit is still unpushed");
}

#[test]
fn retry_commit_abandons_silently_when_head_has_moved_on() {
    let mut repo = Repo::new();
    let stale = repo.head.clone().unwrap();
    let newer = repo.commit_file("tracked.md", "- [x] one\n- [x] two\n", "newer content");
    let outcome = drive(&mut repo, |s| retry_commit(s, "/work", &stale));
    assert_eq!(outcome, SyncOutcome::RetryAbandoned);
    assert_eq!(repo.head, Some(newer));
}

#[test]
fn retry_commit_pushes_when_head_still_matches() {
    let mut repo = Repo::new();
    let commit = repo.commit_file("tracked.md", "- [x] one\n", "Check \"one\"");
    let outcome = drive(&mut repo, |s| retry_commit(s, "/work", &commit));
    assert_eq!(outcome, SyncOutcome::Synced);
    assert_eq!(repo.remote_content("tracked.md").as_deref(), Some("- [x] one\n"));
}

#[test]
fn a_retry_that_cannot_find_the_repository_is_told_apart() {
    let mut repo = Repo::new();
    repo.failing = |a| matches!(a, Action::ShowToplevel);
    let job = Job::Retry { dir: "/work".to_string(), commit: "c1".to_string() };
    let outcome = perform(&mut repo, &job);
    assert!(matches!(&outcome, SyncOutcome::RetryFailed(_)), "{outcome:?}");
}

#[test]
fn a_worker_that_breaks_down_is_reported() {
    let message = "git-sync: internal error (sync worker panicked)".to_string();
    let sync = change("- [x] one\n", None, "m");
    assert_eq!(outcome_of_panic(&sync), SyncOutcome::Failed(message.clone()));
    let left = Job::CatchUp { dir: "/work".to_string(), file: "/work/tracked.md".to_string() };
    assert_eq!(outcome_of_panic(&left), SyncOutcome::Failed(message.clone()));
    let again = Job::Retry { dir: "/work".to_string(), commit: "c1".to_string() };
    assert_eq!(outcome_of_panic(&again), SyncOutcome::RetryFailed(message));
}

#[test]
fn a_commit_is_made_of_what_was_asked_for() {
    let mut repo = Repo::new();
    let parent = repo.head.clone().unwrap();
    assert_eq!(sync(&mut repo, "- [x] one\n", "asked"), SyncOutcome::Synced);
    let index = "/work/.git/markcheck-index-1".to_string();
    let blob = blob_id("- [x] one\n");
    let mut seen = 0;
    for s in &repo.steps {
        match &s.action {
            Action::StoreBlob { content } => assert_eq!(content, "- [x] one\n"),
            Action::FillIndex { index: i, tree } => assert_eq!((i, tree), (&index, &parent)),
            Action::StageTemporary { index: i, mode, blob: b, relpath } => {
                assert_eq!((i, mode.as_str(), b), (&index, "100644", &blob));
                assert_eq!(relpath, "tracked.md");
            }
            Action::Commit { index: i, message } => {
                assert_eq!((i, message.as_str()), (&index, "asked"));
            }
            Action::RemoveIndex { index: i } => assert_eq!(i, &index),
            Action::StageReal { mode, blob: b, relpath } => {
                assert_eq!((mode.as_str(), b, relpath.as_str()), ("100644", &blob, "tracked.md"));
            }
            _ => continue,
        }
        seen += 1;
    }
    assert_eq!(seen, 6);
}

// ----- One job at a time ------------------------------------------------

fn pending(content: &str, before: &str, description: &str) -> PendingSync {
    PendingSync {
        content: content.to_string(),
        content_hash: hash_bytes(content.as_bytes()),
        previous_content_hash: Some(hash_bytes(before.as_bytes())),
        description: description.to_string(),
    }
}

#[test]
fn request_and_poll_roundtrip_reports_synced() {
    let mut repo = Repo::new();
    let mut git = detected();
    repo.write("tracked.md", "- [x] one\n");
    let job = git
        .request(pending("- [x] one\n", "- [ ] one\n", "Check \"one\""), "i1")
        .expect("nothing runs");
    assert!(git.is_busy());
    repo.latest = git.latest_requested_hash;
    let outcome = perform(&mut repo, &job);
    let (reported, next) = git.poll(Some(outcome), 5, "i2");
    assert_eq!(reported, Some(SyncOutcome::Synced));
    assert!(next.is_none());
    assert!(!git.is_busy());
    assert_eq!(repo.messages(&repo.head)[0], "tracked.md: Check \"one\"");
}

#[test]
fn a_request_while_busy_is_coalesced_and_runs_after() {
    let mut repo = Repo::new();
    let mut git = detected();
    repo.write("tracked.md", "- [x] one\n");
    let first = git.request(pending("- [x] one\n", "- [ ] one\n", "first"), "i1").unwrap();
    assert!(git.is_busy());
    assert!(git.request(pending("- [x] one\n", "- [ ] one\n", "second"), "i2").is_none());
    assert_eq!(git.pending.as_ref().map(|p| p.description.as_str()), Some("second"));
    repo.latest = git.latest_requested_hash;

    let outcome = perform(&mut repo, &first);
    let (reported, next) = git.poll(Some(outcome), 5, "i3");
    assert_eq!(reported, Some(SyncOutcome::Synced));
    let outcome = perform(&mut repo, &next.expect("the change that waited"));
    let (reported, next) = git.poll(Some(outcome), 6, "i4");
    assert_eq!(reported, Some(SyncOutcome::Skipped));
    assert!(next.is_none());
    assert_eq!(repo.messages(&repo.remote), vec!["tracked.md: first", "init"]);
}

#[test]
fn of_the_requests_that_wait_the_latest_runs() {
    let mut repo = Repo::new();
    let mut git = detected();
    repo.write("tracked.md", "- [x] A\n");
    let first = git.request(pending("- [x] A\n", "- [ ] one\n", "Check \"A\""), "i1").unwrap();
    repo.write("tracked.md", "- [x] B\n");
    assert!(git.request(pending("- [x] B\n", "- [x] A\n", "Check \"B\""), "i2").is_none());
    repo.write("tracked.md", "- [x] C\n");
    assert!(git.request(pending("- [x] C\n", "- [x] B\n", "Check \"C\""), "i3").is_none());
    repo.latest = git.latest_requested_hash;
    let outcome = perform(&mut repo, &first);
    let (_, next) = git.poll(Some(outcome), 5, "i4");
    assert!(git.is_busy());
    match next.expect("the change that waited") {
        Job::Sync(job) => {
            assert_eq!(job.content, "- [x] C\n", "the latest one wins");
            assert_eq!(job.message, "tracked.md: Check \"C\"");
            assert_eq!(job.index_name, "i4");
            let outcome = perform(&mut repo, &Job::Sync(job));
            assert_eq!(git.poll(Some(outcome), 6, "i5").1.map(|_| ()), None);
        }
        other => panic!("{other:?}"),
    }
    assert!(!git.is_busy());
    assert!(git.poll(None, 7, "i6").0.is_none());
    assert_eq!(repo.remote_content("tracked.md").as_deref(), Some("- [x] C\n"));
}

#[test]
fn a_later_request_commits_the_concurrent_change_separately() {
    let mut repo = Repo::new();
    assert_eq!(
        sync(&mut repo, "- [x] A\n", "tracked.md: Check \"A\""),
        SyncOutcome::Synced
    );
    assert_eq!(
        sync(&mut repo, "- [x] A\n- [x] B\n", "tracked.md: Check \"B\""),
        SyncOutcome::Synced
    );
    let subjects = repo.messages(&repo.remote);
    assert_eq!(subjects, vec!["tracked.md: Check \"B\"", "tracked.md: Check \"A\"", "init"]);
    assert_eq!(repo.remote_content("tracked.md").as_deref(), Some("- [x] A\n- [x] B\n"));
}

#[test]
fn a_catch_up_waits_for_no_running_job() {
    let mut git = detected();
    assert!(matches!(git.request_catch_up_push(), Some(Job::CatchUp { .. })));
    assert!(git.is_busy());
    assert!(git.request_catch_up_push().is_none());
}

// ----- Command lines ----------------------------------------------------

fn step(action: Action<String>) -> Step {
    Step { dir: "/work".to_string(), action }
}

#[test]
fn steps_name_their_command_lines() {
    let commit = step(Action::Commit { index: "/i".to_string(), message: "-m odd".to_string() });
    assert_eq!(git_args(&commit), vec!["commit", "-m", "-m odd"]);
    assert_eq!(step_index(&commit), Some("/i"));
    assert_eq!(step_input(&commit), None);
    let blob = step(Action::StoreBlob { content: "text".to_string() });
    assert_eq!(git_args(&blob), vec!["hash-object", "-w", "--stdin"]);
    assert_eq!(step_input(&blob), Some("text"));
    assert_eq!(step_index(&blob), None);
    let sent = step(Action::Push {
        remote: "origin".to_string(),
        commit: "c1".to_string(),
        branch: "refs/heads/main".to_string(),
    });
    assert_eq!(git_args(&sent), vec!["push", "origin", "c1:refs/heads/main"]);
    assert_eq!(step_timeout(&sent), 60_000);
    assert_eq!(step_timeout(&blob), 10_000);
    let entry = step(Action::IndexEntry { path: "-x.md".to_string() });
    assert_eq!(
        git_args(&entry),
        vec!["ls-files", "--stage", "--full-name", "-z", "--", "-x.md"]
    );
    assert!(git_args(&step(Action::ReadChecklist)).is_empty());
}

#[test]
fn unexpected_index_listings_are_shown_quoted() {
    let replies = vec![
        ran("/work\n".to_string()),
        ran(".git\n".to_string()),
        Reply::Markers(Repo::empty().markers),
        ran("refs/heads/main\n".to_string()),
        ran(String::new()),
        ran(" M tracked.md\n".to_string()),
        ran("nonsense\0".to_string()),
    ];
    assert_eq!(
        advance(&change("x", None, "m"), &replies),
        Turn::Finished(SyncOutcome::Failed(
            "git ls-files: unexpected output \"nonsense\"".to_string()
        ))
    );
}
