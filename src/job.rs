use vstd::prelude::*;

use crate::remotes::{get_remotes, lohr_entries, lohr_remotes, lohr_view, resolved_remotes, views};
use crate::settings::GlobalSettings;

verus! {

/// The repository a webhook is about.
#[derive(Debug, PartialEq, Eq)]
pub struct Repository {
    /// Unique qualified name, such as `owner/name`.
    pub full_name: String,
    /// The URL the mirror is cloned from.
    pub ssh_url: String,
}

/// Where a job keeps its mirror, as found on disk when the job starts.
#[derive(Debug, PartialEq, Eq)]
pub struct MirrorDir {
    /// The absolute path of the bare mirror.
    pub path: String,
    /// The last component of that path.
    pub dir_name: String,
    /// Whether a directory was already there.
    pub exists: bool,
}

/// The stages of a mirror job.
#[derive(Debug, PartialEq, Eq)]
pub enum JobState {
    Start,
    /// A bare mirror clone is being made.
    Mirroring,
    /// The existing mirror is being refreshed from its origin.
    Updating,
    /// The `.lohr` file is being read from the mirror.
    ReadingLohr,
    /// The mirror is being pushed to `remotes[next]`.
    Pushing { remotes: Vec<String>, next: usize },
    Done,
    Failed,
}

/// A git invocation the job asks to be run.
#[derive(Debug, PartialEq, Eq)]
pub enum GitCommand {
    CloneMirror { url: String, path: String },
    RemoteUpdate { path: String },
    ShowLohr { path: String },
    PushMirror { path: String, remote: String },
}

/// What a job was doing when it failed.
#[derive(Debug, PartialEq, Eq)]
pub enum Operation {
    Mirror,
    Update,
    ReadLohr,
    Push { remote: String },
}

/// What came back from running a command: whether it succeeded, its exit code
/// (or the signal that ended it), and its output where that was UTF-8.
#[derive(Debug, PartialEq, Eq)]
pub struct ProcessOutput {
    pub success: bool,
    pub code: i32,
    pub stdout: Option<String>,
    pub stderr: Option<String>,
}

/// Why a job failed.
#[derive(Debug, PartialEq, Eq)]
pub enum JobError {
    /// The command could not be run at all.
    Launch { operation: Operation, message: String },
    /// The command failed, with its exit code and error output.
    Process { operation: Operation, code: i32, stderr: String },
    /// The output that had to be read was not UTF-8.
    Undecodable { operation: Operation },
    /// The mirror path is not absolute.
    RelativePath { path: String },
}

/// What the job asks for next: a command to run, or nothing more.
#[derive(Debug, PartialEq, Eq)]
pub enum Step {
    Run(GitCommand),
    Finished(Result<(), JobError>),
}

impl GitCommand {
    /// The arguments given to git.
    pub open spec fn argv(&self) -> Seq<Seq<char>> {
        match self {
            GitCommand::CloneMirror { url, path } => seq!["clone"@, "--mirror"@, url@, path@],
            GitCommand::RemoteUpdate { path } => seq![
                "-C"@,
                path@,
                "remote"@,
                "update"@,
                "origin"@,
                "--prune"@,
            ],
            GitCommand::ShowLohr { path } => seq!["-C"@, path@, "show"@, "HEAD:.lohr"@],
            GitCommand::PushMirror { path, remote } => seq![
                "-C"@,
                path@,
                "push"@,
                "--mirror"@,
                remote@,
            ],
        }
    }

    /// The arguments to run git with.
    pub fn args(&self) -> (r: Vec<String>)
        ensures
            views(r@) == self.argv(),
    {
        let r = match self {
            GitCommand::CloneMirror { url, path } => vec![
                String::from_str("clone"),
                String::from_str("--mirror"),
                url.clone(),
                path.clone(),
            ],
            GitCommand::RemoteUpdate { path } => vec![
                String::from_str("-C"),
                path.clone(),
                String::from_str("remote"),
                String::from_str("update"),
                String::from_str("origin"),
                String::from_str("--prune"),
            ],
            GitCommand::ShowLohr { path } => vec![
                String::from_str("-C"),
                path.clone(),
                String::from_str("show"),
                String::from_str("HEAD:.lohr"),
            ],
            GitCommand::PushMirror { path, remote } => vec![
                String::from_str("-C"),
                path.clone(),
                String::from_str("push"),
                String::from_str("--mirror"),
                remote.clone(),
            ],
        };
        assert(views(r@) =~= self.argv());
        r
    }
}

/// The error a finished command means for the job, if any.
pub open spec fn command_error(operation: Operation, outcome: Result<ProcessOutput, String>) -> Option<
    JobError,
> {
    match outcome {
        Err(message) => Some(JobError::Launch { operation, message }),
        Ok(out) => if out.success {
            None
        } else {
            match out.stderr {
                Some(stderr) => Some(JobError::Process { operation, code: out.code, stderr }),
                None => Some(JobError::Undecodable { operation }),
            }
        },
    }
}

/// Whether `needle` occurs in `text`.
pub open spec fn contains(text: Seq<char>, needle: Seq<char>) -> bool {
    exists|i: int| 0 <= i <= text.len() - needle.len() && #[trigger] text.subrange(i, i + needle.len()) == needle
}

/// What git says when the file asked for is not in the tip commit.
pub open spec fn missing_file_note() -> Seq<char> {
    "does not exist in 'HEAD'"@
}

/// What reading the `.lohr` file yields: its entries, `None` when the file is
/// not there, or the error that ends the job.
pub open spec fn lohr_read(outcome: Result<ProcessOutput, String>) -> Result<
    Option<Seq<Seq<char>>>,
    JobError,
> {
    match outcome {
        Err(message) => Err(JobError::Launch { operation: Operation::ReadLohr, message }),
        Ok(out) => if out.success {
            match out.stdout {
                Some(text) => Ok(Some(lohr_entries(text@))),
                None => Err(JobError::Undecodable { operation: Operation::ReadLohr }),
            }
        } else {
            match out.stderr {
                Some(stderr) => if contains(stderr@, missing_file_note()) {
                    Ok(None)
                } else {
                    Err(JobError::Process { operation: Operation::ReadLohr, code: out.code, stderr })
                },
                None => Err(JobError::Undecodable { operation: Operation::ReadLohr }),
            }
        },
    }
}

fn matches_at(text: &str, n: usize, needle: &str, at: usize) -> (r: bool)
    requires
        n == text@.len(),
        at + needle@.len() <= n,
    ensures
        r == (text@.subrange(at as int, at + needle@.len()) == needle@),
{
    let m = needle.unicode_len();
    let mut j: usize = 0;
    while j < m
        invariant
            m == needle@.len(),
            n == text@.len(),
            at + m <= n,
            j <= m,
            forall|k: int| 0 <= k < j ==> text@[at + k] == needle@[k],
        decreases m - j,
    {
        if text.get_char(at + j) != needle.get_char(j) {
            assert(text@.subrange(at as int, at + m)[j as int] != needle@[j as int]);
            return false;
        }
        j = j + 1;
    }
    assert(text@.subrange(at as int, at + m) =~= needle@);
    true
}

/// Whether `needle` occurs in `text`.
pub fn text_contains(text: &str, needle: &str) -> (r: bool)
    ensures
        r == contains(text@, needle@),
{
    let n = text.unicode_len();
    let m = needle.unicode_len();
    if m > n {
        return false;
    }
    let mut i: usize = 0;
    loop
        invariant
            n == text@.len(),
            m == needle@.len(),
            m <= n,
            i <= n - m,
            forall|k: int| 0 <= k < i ==> #[trigger] text@.subrange(k, k + m) != needle@,
        decreases n - m - i,
    {
        if matches_at(text, n, needle, i) {
            return true;
        }
        if i == n - m {
            return false;
        }
        i = i + 1;
    }
}

/// The error a finished command means for the job, if any.
fn failure(operation: Operation, outcome: Result<ProcessOutput, String>) -> (r: Option<JobError>)
    ensures
        r == command_error(operation, outcome),
{
    match outcome {
        Err(message) => Some(JobError::Launch { operation, message }),
        Ok(out) => if out.success {
            None
        } else {
            match out.stderr {
                Some(stderr) => Some(JobError::Process { operation, code: out.code, stderr }),
                None => Some(JobError::Undecodable { operation }),
            }
        },
    }
}

/// Reads the outcome of `git show HEAD:.lohr`.
pub fn read_lohr(outcome: Result<ProcessOutput, String>) -> (r: Result<Option<Vec<String>>, JobError>)
    ensures
        match lohr_read(outcome) {
            Ok(lohr) => r is Ok && lohr_view(r->Ok_0) == lohr,
            Err(e) => r is Err && r->Err_0 == e,
        },
{
    match outcome {
        Err(message) => Err(JobError::Launch { operation: Operation::ReadLohr, message }),
        Ok(out) => if out.success {
            match out.stdout {
                Some(text) => Ok(Some(lohr_remotes(text.as_str()))),
                None => Err(JobError::Undecodable { operation: Operation::ReadLohr }),
            }
        } else {
            match out.stderr {
                Some(stderr) => if text_contains(stderr.as_str(), "does not exist in 'HEAD'") {
                    Ok(None)
                } else {
                    Err(JobError::Process { operation: Operation::ReadLohr, code: out.code, stderr })
                },
                None => Err(JobError::Undecodable { operation: Operation::ReadLohr }),
            }
        },
    }
}

/// The first command of a run in `dir`: a mirror clone from the repository's URL
/// when nothing is there yet, else an update of the mirror with pruning.
pub open spec fn opening_command(repo: Repository, dir: MirrorDir) -> GitCommand {
    if dir.exists {
        GitCommand::RemoteUpdate { path: dir.path }
    } else {
        GitCommand::CloneMirror { url: repo.ssh_url, path: dir.path }
    }
}

/// A run clones exactly when its mirror directory is missing: once the directory
/// exists, as after a first run that cloned, every run updates it instead; and no
/// later step of a run ever clones.
pub proof fn lemma_clone_only_when_missing(repo: Repository, dir: MirrorDir)
    ensures
        opening_command(repo, dir) is CloneMirror <==> !dir.exists,
        dir.exists ==> opening_command(repo, dir) is RemoteUpdate,
{
}

/// An absolute path: one that starts at the root.
pub open spec fn is_absolute(path: Seq<char>) -> bool {
    path.len() > 0 && path[0] == '/'
}

/// Whether a path is absolute.
pub fn is_absolute_path(path: &str) -> (r: bool)
    ensures
        r == is_absolute(path@),
{
    path.unicode_len() > 0 && path.get_char(0) == '/'
}

/// One mirror job: a repository, and where it stands in its run.
#[derive(Debug)]
pub struct Job {
    pub repo: Repository,
    /// Set when the run starts.
    pub local_path: Option<MirrorDir>,
    pub state: JobState,
}

impl Job {
    /// Whether the job waits for the outcome of a command.
    pub open spec fn running(&self) -> bool {
        &&& self.local_path is Some
        &&& match self.state {
            JobState::Mirroring | JobState::Updating | JobState::ReadingLohr => true,
            JobState::Pushing { remotes, next } => next < remotes.len(),
            _ => false,
        }
    }

    pub open spec fn dir(&self) -> MirrorDir {
        self.local_path->Some_0
    }

    /// What the command being waited for does, outside of reading `.lohr`.
    pub open spec fn operation(&self) -> Operation {
        match self.state {
            JobState::Mirroring => Operation::Mirror,
            JobState::Updating => Operation::Update,
            JobState::Pushing { remotes, next } => Operation::Push { remote: remotes@[next as int] },
            _ => Operation::ReadLohr,
        }
    }

    pub fn new(repo: Repository) -> (r: Job)
        ensures
            r.repo == repo,
            r.local_path is None,
            r.state is Start,
    {
        Job { repo, local_path: None, state: JobState::Start }
    }

    /// Whether the mirror directory was already there when the run started.
    pub fn repo_exists(&self) -> (r: bool)
        ensures
            r == (self.local_path is Some && self.dir().exists),
    {
        match &self.local_path {
            Some(dir) => dir.exists,
            None => false,
        }
    }

    pub fn is_running(&self) -> (r: bool)
        ensures
            r == self.running(),
    {
        if self.local_path.is_none() {
            return false;
        }
        match &self.state {
            JobState::Mirroring | JobState::Updating | JobState::ReadingLohr => true,
            JobState::Pushing { remotes, next } => *next < remotes.len(),
            _ => false,
        }
    }

    /// Starts a run in `dir`. The path must be absolute, else the job fails at
    /// once; then the run begins with a mirror clone when nothing is there yet, and
    /// with an update of the existing mirror otherwise.
    pub fn start(&mut self, dir: MirrorDir) -> (step: Step)
        ensures
            final(self).repo == old(self).repo,
            step is Run <==> final(self).running(),
            !is_absolute(dir.path@) ==> {
                &&& final(self).local_path is None
                &&& final(self).state is Failed
                &&& step == Step::Finished(Err((JobError::RelativePath { path: dir.path })))
            },
            is_absolute(dir.path@) ==> {
                &&& final(self).local_path == Some(dir)
                &&& step == Step::Run(opening_command(old(self).repo, dir))
                &&& !dir.exists ==> final(self).state is Mirroring
                &&& dir.exists ==> final(self).state is Updating
            },
    {
        if !is_absolute_path(dir.path.as_str()) {
            self.state = JobState::Failed;
            self.local_path = None;
            return Step::Finished(Err(JobError::RelativePath { path: dir.path }));
        }
        let path = dir.path.clone();
        self.local_path = Some(dir);
        if !self.repo_exists() {
            self.state = JobState::Mirroring;
            Step::Run(GitCommand::CloneMirror { url: self.repo.ssh_url.clone(), path })
        } else {
            self.state = JobState::Updating;
            Step::Run(GitCommand::RemoteUpdate { path })
        }
    }

    fn cloned_or_updated(
        &mut self,
        operation: Operation,
        outcome: Result<ProcessOutput, String>,
        path: String,
    ) -> (step: Step)
        requires
            old(self).state is Failed,
        ensures
            final(self).repo == old(self).repo,
            final(self).local_path == old(self).local_path,
            match command_error(operation, outcome) {
                Some(e) => final(self).state is Failed && step == Step::Finished(Err(e)),
                None => final(self).state is ReadingLohr && step == Step::Run(
                    (GitCommand::ShowLohr { path }),
                ),
            },
    {
        match failure(operation, outcome) {
            Some(e) => Step::Finished(Err(e)),
            None => {
                self.state = JobState::ReadingLohr;
                Step::Run(GitCommand::ShowLohr { path })
            },
        }
    }

    /// Takes the outcome of the command the job waits for and moves on: after the
    /// clone or update, `.lohr` is read; then the remotes are pushed to in order,
    /// and the first failure ends the job.
    pub fn advance(&mut self, outcome: Result<ProcessOutput, String>, settings: &GlobalSettings) -> (step:
        Step)
        requires
            old(self).running(),
        ensures
            final(self).repo == old(self).repo,
            final(self).local_path == old(self).local_path,
            step is Run <==> final(self).running(),
            !(step is Run && step->Run_0 is CloneMirror),
            old(self).state is Mirroring || old(self).state is Updating ==> match command_error(
                old(self).operation(),
                outcome,
            ) {
                Some(e) => final(self).state is Failed && step == Step::Finished(Err(e)),
                None => final(self).state is ReadingLohr && step == Step::Run(
                    (GitCommand::ShowLohr { path: old(self).dir().path }),
                ),
            },
            old(self).state is ReadingLohr ==> match lohr_read(outcome) {
                Err(e) => final(self).state is Failed && step == Step::Finished(Err(e)),
                Ok(lohr) => {
                    let remotes = resolved_remotes(
                        lohr,
                        views(settings.default_remotes@),
                        views(settings.additional_remotes@),
                        old(self).dir().dir_name@,
                    );
                    if remotes.len() == 0 {
                        final(self).state is Done && step == Step::Finished(Ok(()))
                    } else {
                        &&& final(self).state is Pushing
                        &&& views(final(self).state->Pushing_remotes@) == remotes
                        &&& final(self).state->Pushing_next == 0
                        &&& step == Step::Run(
                            (GitCommand::PushMirror {
                                path: old(self).dir().path,
                                remote: final(self).state->Pushing_remotes@[0],
                            }),
                        )
                    }
                },
            },
            old(self).state is Pushing ==> {
                let remotes = old(self).state->Pushing_remotes;
                let next = old(self).state->Pushing_next;
                match command_error(old(self).operation(), outcome) {
                    Some(e) => final(self).state is Failed && step == Step::Finished(Err(e)),
                    None => if next + 1 < remotes.len() {
                        &&& final(self).state == (JobState::Pushing {
                            remotes,
                            next: (next + 1) as usize,
                        })
                        &&& step == Step::Run(
                            (GitCommand::PushMirror {
                                path: old(self).dir().path,
                                remote: remotes@[next + 1],
                            }),
                        )
                    } else {
                        final(self).state is Done && step == Step::Finished(Ok(()))
                    },
                }
            },
    {
        let (path, dir_name) = match &self.local_path {
            Some(dir) => (dir.path.clone(), dir.dir_name.clone()),
            None => {
                return Step::Finished(Ok(()));
            },
        };
        let mut state = JobState::Failed;
        core::mem::swap(&mut self.state, &mut state);
        match state {
            JobState::Mirroring => self.cloned_or_updated(Operation::Mirror, outcome, path),
            JobState::Updating => self.cloned_or_updated(Operation::Update, outcome, path),
            JobState::ReadingLohr => match read_lohr(outcome) {
                Err(e) => Step::Finished(Err(e)),
                Ok(lohr) => {
                    let remotes = get_remotes(lohr, settings, dir_name.as_str());
                    if remotes.len() == 0 {
                        self.state = JobState::Done;
                        Step::Finished(Ok(()))
                    } else {
                        let remote = remotes[0].clone();
                        self.state = JobState::Pushing { remotes, next: 0 };
                        Step::Run(GitCommand::PushMirror { path, remote })
                    }
                },
            },
            JobState::Pushing { remotes, next } => {
                let operation = Operation::Push { remote: remotes[next].clone() };
                match failure(operation, outcome) {
                    Some(e) => Step::Finished(Err(e)),
                    None => if next + 1 < remotes.len() {
                        let remote = remotes[next + 1].clone();
                        self.state = JobState::Pushing { remotes, next: next + 1 };
                        Step::Run(GitCommand::PushMirror { path, remote })
                    } else {
                        self.state = JobState::Done;
                        Step::Finished(Ok(()))
                    },
                }
            },
            _ => {
                self.state = state;
                Step::Finished(Ok(()))
            },
        }
    }
}

} // verus!
