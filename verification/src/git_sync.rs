//! Git-sync: which job runs when, and what a commit is called.
//!
//! One job runs at a time. A change that comes while one runs waits, and only
//! the latest such change is kept: it holds all that the earlier ones changed.
//! A commit that could not be pushed is pushed again after a while.

use vstd::prelude::*;

use crate::app_state::{PendingSync, SyncModel};
use crate::git_flow::{answer_text, is_success, make_step, OutcomeModel, SyncOutcome, Text};
use crate::git_run::{Job, JobModel, SyncJob, SyncJobModel};
use crate::git_step::{Action, Reply, Step};
use crate::script::{Modeled, Procedure, Progress, Script};
use crate::text::{chars_of, copy_of, hash_bytes, same_text, string_of, ContentHash};
use crate::{app_state, git_flow, script, text};

verus! {

broadcast use script::group_run;

/// How long, in milliseconds, to wait before a commit is pushed again.
pub const PUSH_RETRY_INTERVAL_MS: u64 = 30_000;

// ----- Commit messages -------------------------------------------------

/// The most characters that a commit message has.
pub const MAX_COMMIT_MESSAGE_LEN: usize = 80;

/// The least number of characters left for the description of the change.
pub const MIN_DESC_LEN: usize = 8;

/// The most characters that the file name has in a commit message.
pub const MAX_FILE_NAME_LEN: usize = MAX_COMMIT_MESSAGE_LEN - (2 + MIN_DESC_LEN + 1);

/// The predicate "is a slash".
pub open spec fn slash() -> spec_fn(char) -> bool {
    |c: char| c == '/'
}

/// Where the last segment of a path begins.
pub open spec fn last_segment_start(path: Text) -> int {
    match text::last_before(path, slash(), path.len() as int) {
        Some(i) => i + 1,
        None => 0,
    }
}

/// The name of the file that a path leads to: its last segment, empty segments
/// and `.` passed over. There is none where that is `..`, or nothing is left.
pub open spec fn file_name(path: Text) -> Option<Text>
    decreases path.len(),
{
    let start = last_segment_start(path);
    let segment = path.skip(start);
    if segment.len() == 0 || segment == "."@ {
        if 0 < start <= path.len() {
            file_name(path.take(start - 1))
        } else {
            None
        }
    } else if segment == ".."@ {
        None
    } else {
        Some(segment)
    }
}

/// The name that a commit message begins with: the file's, cut short if it is
/// too long.
pub open spec fn message_name(path: Text) -> Text {
    let name = match file_name(path) {
        Some(n) => n,
        None => "checklist"@,
    };
    if name.len() > MAX_FILE_NAME_LEN {
        name.take(MAX_FILE_NAME_LEN - 1) + "…"@
    } else {
        name
    }
}

/// How many quotation marks a text has.
pub open spec fn quotes(s: Text) -> nat
    decreases s.len(),
{
    if s.len() == 0 {
        0
    } else {
        quotes(s.drop_last()) + (if s.last() == '"' {
            1nat
        } else {
            0nat
        })
    }
}

/// The message of the commit that brings a change: the file name and the
/// description, the latter cut short if the whole is too long. A quotation
/// that the cut leaves open is closed.
pub open spec fn message_for(path: Text, desc: Text) -> Text {
    let prefix = message_name(path) + ": "@;
    let full = prefix + desc;
    if full.len() <= MAX_COMMIT_MESSAGE_LEN {
        full
    } else {
        let budget = MAX_COMMIT_MESSAGE_LEN - (prefix.len() + 1);
        let cut = desc.take(budget);
        if quotes(cut) % 2 == 1 {
            prefix + desc.take(budget - 1) + "…\""@
        } else {
            prefix + cut + "…"@
        }
    }
}

/// Where the last segment of `v[..end]` begins.
fn find_last_segment(v: &Vec<char>, end: usize) -> (r: usize)
    requires
        end <= v@.len(),
    ensures
        r == last_segment_start(v@.take(end as int)),
        r <= end,
{
    let ghost path = v@.take(end as int);
    let ghost p = slash();
    let mut i: usize = end;
    while i > 0
        invariant
            path == v@.take(end as int),
            p == slash(),
            i <= end <= v@.len(),
            forall|j: int| i <= j < end ==> !p(#[trigger] path[j]),
        decreases i,
    {
        assert(path[i - 1] == v@[i - 1]);
        if v[i - 1] == '/' {
            proof {
                text::lemma_last_before_is(path, p, end as int, i - 1);
            }
            return i;
        }
        i -= 1;
    }
    proof {
        text::lemma_last_before_none(path, p, end as int);
    }
    0
}

/// The name of the file that a path leads to.
pub fn find_file_name(path: &str) -> (r: Option<String>)
    ensures
        r.model() == file_name(path@),
{
    let v = chars_of(path);
    let mut end: usize = v.len();
    assert(v@.take(end as int) =~= path@);
    loop
        invariant
            v@ == path@,
            end <= v@.len(),
            file_name(v@.take(end as int)) == file_name(path@),
        decreases end,
    {
        let start: usize = find_last_segment(&v, end);
        let segment = string_of(&v, start, end);
        assert(segment@ =~= v@.take(end as int).skip(start as int));
        if segment.as_str().is_empty() || same_text(segment.as_str(), ".") {
            if start == 0 {
                return None;
            }
            assert(v@.take(end as int).take(start - 1) =~= v@.take(start - 1));
            end = start - 1;
        } else if same_text(segment.as_str(), "..") {
            return None;
        } else {
            return Some(segment);
        }
    }
}

/// How many quotation marks `v[..end]` has, whether that is odd.
fn odd_quotes(v: &Vec<char>, end: usize) -> (r: bool)
    requires
        end <= v@.len(),
    ensures
        r == (quotes(v@.take(end as int)) % 2 == 1),
{
    let mut odd = false;
    let mut i: usize = 0;
    while i < end
        invariant
            i <= end <= v@.len(),
            odd == (quotes(v@.take(i as int)) % 2 == 1),
        decreases end - i,
    {
        assert(v@.take(i + 1).drop_last() =~= v@.take(i as int));
        assert(v@.take(i + 1).last() == v@[i as int]);
        if v[i] == '"' {
            odd = !odd;
        }
        i += 1;
    }
    odd
}

/// Lemma: how long the ellipses are.
proof fn lemma_ellipses()
    ensures
        "…"@.len() == 1,
        "…\""@.len() == 2,
        ": "@.len() == 2,
        "checklist"@.len() == 9,
{
    reveal_strlit("…");
    reveal_strlit("…\"");
    reveal_strlit(": ");
    reveal_strlit("checklist");
}

/// The name that a commit message begins with.
fn name_for_message(path: &str) -> (r: String)
    ensures
        r@ == message_name(path@),
        r@.len() <= MAX_FILE_NAME_LEN,
{
    proof {
        lemma_ellipses();
    }
    let name = match find_file_name(path) {
        Some(n) => n,
        None => copy_of("checklist"),
    };
    let v = chars_of(name.as_str());
    if v.len() > MAX_FILE_NAME_LEN {
        let kept = string_of(&v, 0, MAX_FILE_NAME_LEN - 1);
        assert(kept@ =~= name@.take(MAX_FILE_NAME_LEN - 1));
        kept.concat("…")
    } else {
        name
    }
}

/// The message of the commit that brings a change.
pub fn commit_message(file_path: &str, change_desc: &str) -> (r: String)
    ensures
        r@ == message_for(file_path@, change_desc@),
        r@.len() <= MAX_COMMIT_MESSAGE_LEN,
{
    proof {
        lemma_ellipses();
    }
    let name = name_for_message(file_path);
    let prefix = name.concat(": ");
    let prefix_len: usize = prefix.as_str().unicode_len();
    let desc = chars_of(change_desc);
    if desc.len() <= MAX_COMMIT_MESSAGE_LEN - prefix_len {
        return prefix.concat(change_desc);
    }
    let budget: usize = MAX_COMMIT_MESSAGE_LEN - (prefix_len + 1);
    assert(desc@.subrange(0, budget as int) =~= desc@.take(budget as int));
    assert(desc@.subrange(0, budget - 1) =~= desc@.take(budget - 1));
    if odd_quotes(&desc, budget) {
        let shorter = string_of(&desc, 0, budget - 1);
        prefix.concat(shorter.as_str()).concat("…\"")
    } else {
        let cut = string_of(&desc, 0, budget);
        prefix.concat(cut.as_str()).concat("…")
    }
}

// ----- Which job runs when ---------------------------------------------

/// Git-sync for one file.
#[derive(Debug)]
pub struct GitSync {
    pub repo_dir: String,
    pub file_path: String,
    /// Whether a job runs.
    pub busy: bool,
    /// The latest change that came while a job ran.
    pub pending: Option<PendingSync>,
    /// The commit to push again, and when it was last tried.
    pub retry: Option<(String, u64)>,
    /// The hash of the latest content that was asked to be committed.
    pub latest_requested_hash: ContentHash,
}

/// Git-sync, as a mathematical value.
pub struct GitSyncModel {
    pub repo_dir: Text,
    pub file_path: Text,
    pub busy: bool,
    pub pending: Option<SyncModel>,
    pub retry: Option<(Text, u64)>,
    pub latest_requested_hash: ContentHash,
}

impl View for GitSync {
    type V = GitSyncModel;

    open spec fn view(&self) -> GitSyncModel {
        GitSyncModel {
            repo_dir: self.repo_dir@,
            file_path: self.file_path@,
            busy: self.busy,
            pending: app_state::sync_model(self.pending),
            retry: match self.retry {
                Some((commit, at)) => Some((commit@, at)),
                None => None,
            },
            latest_requested_hash: self.latest_requested_hash,
        }
    }
}

/// An optional job as a mathematical value.
pub open spec fn job_model(job: Option<Job>) -> Option<JobModel> {
    match job {
        Some(j) => Some(j@),
        None => None,
    }
}

/// An optional outcome as a mathematical value.
pub open spec fn outcome_model(outcome: Option<SyncOutcome>) -> Option<OutcomeModel> {
    match outcome {
        Some(o) => Some(o.model()),
        None => None,
    }
}

impl GitSyncModel {
    /// Git-sync for a file that is in a repository.
    pub open spec fn fresh(repo_dir: Text, file_path: Text) -> GitSyncModel {
        GitSyncModel {
            repo_dir,
            file_path,
            busy: false,
            pending: None,
            retry: None,
            latest_requested_hash: text::content_hash(Seq::empty()),
        }
    }

    /// The job that commits and pushes a change.
    pub open spec fn job_for(self, sync: SyncModel, index_name: Text) -> JobModel {
        JobModel::Sync(
            SyncJobModel {
                dir: self.repo_dir,
                file: self.file_path,
                content: sync.content,
                message: message_for(self.file_path, sync.description),
                previous: sync.previous_content_hash,
                index_name,
            },
        )
    }

    /// A change asked to be committed: at once, or once the running job is
    /// done.
    pub open spec fn requested(self, sync: SyncModel) -> GitSyncModel {
        if self.busy {
            GitSyncModel {
                latest_requested_hash: sync.content_hash,
                pending: Some(sync),
                ..self
            }
        } else {
            GitSyncModel { latest_requested_hash: sync.content_hash, busy: true, ..self }
        }
    }

    /// What the outcome of a job says about the commit to push again.
    pub open spec fn retry_after(self, outcome: OutcomeModel, now: u64) -> Option<(Text, u64)> {
        match outcome {
            OutcomeModel::Synced => None,
            OutcomeModel::RetryAbandoned => None,
            OutcomeModel::CommittedNotPushed { commit, .. } => Some((commit, now)),
            OutcomeModel::RetryFailed(_) => match self.retry {
                Some((commit, _)) => Some((commit, now)),
                None => None,
            },
            OutcomeModel::Failed(_) => self.retry,
            OutcomeModel::Skipped => self.retry,
            OutcomeModel::SkippedUntracked => self.retry,
        }
    }

    /// A job done: the change that waited, if any, is next.
    pub open spec fn finished(self, outcome: OutcomeModel, now: u64) -> GitSyncModel {
        GitSyncModel {
            busy: self.pending is Some,
            pending: None,
            retry: self.retry_after(outcome, now),
            ..self
        }
    }

    /// It is time to push a commit again.
    pub open spec fn retry_due(self, now: u64) -> bool {
        &&& !self.busy
        &&& self.retry matches Some((_, last)) && now - last >= PUSH_RETRY_INTERVAL_MS
    }
}

/// Whether the directory is inside a work tree. Where it is inside a repository
/// and not inside a work tree, git answers, and says no.
pub open spec fn detecting(dir: Text) -> Procedure<bool> {
    Procedure::Ask(
        git_flow::step_in(dir, Action::InsideWorkTree),
        |r: Reply|
            Procedure::Done(git_flow::succeeded(r) && git_flow::answer(r) == "true"@),
    )
}

/// How finding out whether a file is in a work tree stands.
#[derive(Debug)]
pub enum Detection {
    /// This step is to be taken, and its reply to be added.
    Take(Step),
    /// The file is in a work tree.
    Active(GitSync),
    /// It is not, or that cannot be told.
    Inactive,
}

impl GitSync {
    /// Finds out whether the file is in the work tree of a repository. `dir` is
    /// the directory of the file, where it has one.
    pub fn detect(dir: Option<&str>, file_path: &str, replies: &Vec<Reply>) -> (r: Detection)
        ensures
            match dir {
                None => r is Inactive,
                Some(d) => match r {
                    Detection::Take(step) => script::run(detecting(d@), replies@, 0)
                        == Progress::<bool>::Asks(step@),
                    Detection::Active(sync) => {
                        &&& script::run(detecting(d@), replies@, 0) == Progress::Gives(true, 1)
                        &&& sync@ == GitSyncModel::fresh(d@, file_path@)
                    },
                    Detection::Inactive => script::run(detecting(d@), replies@, 0)
                        == Progress::Gives(false, 1),
                },
            },
    {
        let d = match dir {
            None => {
                return Detection::Inactive;
            },
            Some(d) => d,
        };
        let mut s = Script::new(replies);
        match s.ask(make_step(d, Action::InsideWorkTree)) {
            Err(step) => Detection::Take(step),
            Ok(reply) => {
                if is_success(reply) && same_text(answer_text(reply).as_str(), "true") {
                    let nothing: Vec<u8> = Vec::new();
                    let hash = hash_bytes(nothing.as_slice());
                    Detection::Active(
                        GitSync {
                            repo_dir: copy_of(d),
                            file_path: copy_of(file_path),
                            busy: false,
                            pending: None,
                            retry: None,
                            latest_requested_hash: hash,
                        },
                    )
                } else {
                    Detection::Inactive
                }
            },
        }
    }

    /// The job that commits and pushes a change.
    fn sync_job(&self, sync: PendingSync, index_name: &str) -> (r: Job)
        ensures
            r@ == self@.job_for(sync@, index_name@),
    {
        Job::Sync(
            SyncJob {
                dir: self.repo_dir.clone(),
                file: self.file_path.clone(),
                message: commit_message(self.file_path.as_str(), sync.description.as_str()),
                content: sync.content,
                previous: sync.previous_content_hash,
                index_name: copy_of(index_name),
            },
        )
    }

    /// Asks for a change to be committed and pushed. Returns the job to start,
    /// unless one runs: then the change waits in place of any other that does.
    pub fn request(&mut self, sync: PendingSync, index_name: &str) -> (r: Option<Job>)
        ensures
            final(self)@ == old(self)@.requested(sync@),
            job_model(r) == if old(self)@.busy {
                None
            } else {
                Some(old(self)@.job_for(sync@, index_name@))
            },
    {
        self.latest_requested_hash = sync.content_hash;
        if self.busy {
            self.pending = Some(sync);
            None
        } else {
            self.busy = true;
            Some(self.sync_job(sync, index_name))
        }
    }

    /// Asks for what an earlier session left behind to be pushed. Returns the
    /// job to start, unless one runs.
    pub fn request_catch_up_push(&mut self) -> (r: Option<Job>)
        ensures
            final(self)@ == (GitSyncModel { busy: true, ..old(self)@ }),
            job_model(r) == if old(self)@.busy {
                None
            } else {
                Some(
                    JobModel::CatchUp { dir: old(self)@.repo_dir, file: old(self)@.file_path },
                )
            },
    {
        if self.busy {
            return None;
        }
        self.busy = true;
        Some(Job::CatchUp { dir: self.repo_dir.clone(), file: self.file_path.clone() })
    }

    /// Takes note of what the running job came to, if it is done, and starts
    /// the change that waited.
    pub fn poll(&mut self, received: Option<SyncOutcome>, now: u64, index_name: &str) -> (r: (
        Option<SyncOutcome>,
        Option<Job>,
    ))
        ensures
            outcome_model(r.0) == outcome_model(received),
            match received {
                None => final(self)@ == old(self)@ && r.1 is None,
                Some(outcome) => {
                    &&& final(self)@ == old(self)@.finished(outcome.model(), now)
                    &&& job_model(r.1) == (match old(self)@.pending {
                        Some(sync) => Some(old(self)@.job_for(sync, index_name@)),
                        None => None,
                    })
                },
            },
    {
        match received {
            None => (None, None),
            Some(outcome) => {
                self.busy = false;
                self.apply_outcome(&outcome, now);
                let job = match self.pending.take() {
                    Some(sync) => {
                        self.busy = true;
                        Some(self.sync_job(sync, index_name))
                    },
                    None => None,
                };
                (Some(outcome), job)
            },
        }
    }

    /// Takes note of what an outcome says about the commit to push again.
    pub fn apply_outcome(&mut self, outcome: &SyncOutcome, now: u64)
        ensures
            final(self)@ == (GitSyncModel {
                retry: old(self)@.retry_after(outcome.model(), now),
                ..old(self)@
            }),
    {
        match outcome {
            SyncOutcome::Synced => {
                self.retry = None;
            },
            SyncOutcome::RetryAbandoned => {
                self.retry = None;
            },
            SyncOutcome::CommittedNotPushed { commit, .. } => {
                self.retry = Some((commit.clone(), now));
            },
            SyncOutcome::RetryFailed(_) => {
                match self.retry.take() {
                    Some((commit, _)) => {
                        self.retry = Some((commit, now));
                    },
                    None => {},
                }
            },
            SyncOutcome::Failed(_) => {},
            SyncOutcome::Skipped => {},
            SyncOutcome::SkippedUntracked => {},
        }
    }

    /// Pushes a commit again, if it is time to. Returns the job to start.
    pub fn retry_push_if_due(&mut self, now: u64) -> (r: Option<Job>)
        ensures
            final(self)@ == (GitSyncModel {
                busy: old(self)@.busy || old(self)@.retry_due(now),
                ..old(self)@
            }),
            job_model(r) == if old(self)@.retry_due(now) {
                Some(
                    JobModel::Retry {
                        dir: old(self)@.repo_dir,
                        commit: (old(self)@.retry->0).0,
                    },
                )
            } else {
                None
            },
    {
        if self.busy {
            return None;
        }
        let commit = match &self.retry {
            None => {
                return None;
            },
            Some((commit, last)) => {
                if now.saturating_sub(*last) < PUSH_RETRY_INTERVAL_MS {
                    return None;
                }
                commit.clone()
            },
        };
        self.busy = true;
        Some(Job::Retry { dir: self.repo_dir.clone(), commit })
    }

    /// Whether a job runs.
    pub fn is_busy(&self) -> (r: bool)
        ensures
            r == self@.busy,
    {
        self.busy
    }
}

// ----- Laws ------------------------------------------------------------

impl GitSyncModel {
    /// A change waits only while a job runs.
    pub open spec fn wf(self) -> bool {
        self.pending is Some ==> self.busy
    }
}

/// Law: whatever is asked for and whatever jobs come to, a change waits only
/// while a job runs: none is forgotten.
pub proof fn law_no_change_is_forgotten(
    m: GitSyncModel,
    sync: SyncModel,
    outcome: OutcomeModel,
    now: u64,
    dir: Text,
    file: Text,
)
    requires
        m.wf(),
    ensures
        GitSyncModel::fresh(dir, file).wf(),
        m.requested(sync).wf(),
        m.finished(outcome, now).wf(),
        (GitSyncModel { busy: true, ..m }).wf(),
        (GitSyncModel { retry: m.retry_after(outcome, now), ..m }).wf(),
{
}

/// Law: of the changes that come while a job runs, the latest one waits, and
/// it is what runs next, whatever the running job comes to.
pub proof fn law_latest_change_wins(
    m: GitSyncModel,
    earlier: SyncModel,
    later: SyncModel,
    outcome: OutcomeModel,
    now: u64,
)
    requires
        m.busy,
    ensures
        m.requested(earlier).requested(later) == m.requested(later),
        m.requested(later).pending == Some(later),
        m.requested(later).latest_requested_hash == later.content_hash,
        m.requested(later).finished(outcome, now).busy,
        m.requested(later).finished(outcome, now).pending is None,
{
}

/// Law: a commit that could not be pushed is pushed again no sooner than the
/// interval after the last try, and from then on it is, unless a job runs.
pub proof fn law_retries_keep_their_distance(
    m: GitSyncModel,
    message: Text,
    commit: Text,
    now: u64,
    later: u64,
)
    requires
        m.pending is None,
        now <= later,
    ensures
        m.finished(OutcomeModel::CommittedNotPushed { message, commit }, now).retry_due(later)
            <==> later - now >= PUSH_RETRY_INTERVAL_MS,
        m.finished(OutcomeModel::RetryFailed(message), now).retry_due(later) <==> m.retry is Some
            && later - now >= PUSH_RETRY_INTERVAL_MS,
{
}

/// Law: a change that could not be committed, or need not be, leaves the
/// commit to push again alone; one that was pushed, or a commit that is no
/// longer current, ends the retries.
pub proof fn law_retries_end_with_a_push(m: GitSyncModel, message: Text, now: u64)
    ensures
        m.finished(OutcomeModel::Failed(message), now).retry == m.retry,
        m.finished(OutcomeModel::Skipped, now).retry == m.retry,
        m.finished(OutcomeModel::SkippedUntracked, now).retry == m.retry,
        m.finished(OutcomeModel::Synced, now).retry is None,
        m.finished(OutcomeModel::RetryAbandoned, now).retry is None,
{
}

} // verus!
