use lohr::{
    is_absolute_path, read_lohr, text_contains, GitCommand, GlobalSettings, Job, JobError, JobState, MirrorDir,
    Operation, ProcessOutput, Repository, Step,
};

fn strings(v: &[&str]) -> Vec<String> {
    v.iter().map(|s| s.to_string()).collect()
}

fn repo() -> Repository {
    Repository { full_name: "owner/proj".to_string(), ssh_url: "git@src:owner/proj".to_string() }
}

fn dir(exists: bool) -> MirrorDir {
    MirrorDir { path: "/home/lohr/owner/proj".to_string(), dir_name: "proj".to_string(), exists }
}

fn ok(stdout: &str) -> Result<ProcessOutput, String> {
    Ok(ProcessOutput { success: true, code: 0, stdout: Some(stdout.to_string()), stderr: Some(String::new()) })
}

fn failed(code: i32, stderr: &str) -> Result<ProcessOutput, String> {
    Ok(ProcessOutput { success: false, code, stdout: Some(String::new()), stderr: Some(stderr.to_string()) })
}

const MISSING: &str = "fatal: path '.lohr' does not exist in 'HEAD'\n";

fn push(remote: &str) -> Step {
    Step::Run(GitCommand::PushMirror { path: "/home/lohr/owner/proj".to_string(), remote: remote.to_string() })
}

fn started(job: &mut Job, d: MirrorDir) -> GitCommand {
    match job.start(d) {
        Step::Run(command) => command,
        other => panic!("the run did not start: {:?}", other),
    }
}

#[test]
fn relative_mirror_path_fails_the_job() {
    let mut job = Job::new(repo());
    let d = MirrorDir { path: "owner/proj".to_string(), dir_name: "proj".to_string(), exists: false };
    assert_eq!(
        job.start(d),
        Step::Finished(Err(JobError::RelativePath { path: "owner/proj".to_string() }))
    );
    assert_eq!(job.state, JobState::Failed);
    assert!(!job.is_running());
    assert!(is_absolute_path("/a"));
    assert!(!is_absolute_path(""));
    assert!(!is_absolute_path("a/b"));
}

#[test]
fn new_job_has_no_mirror() {
    let job = Job::new(repo());
    assert!(!job.repo_exists());
    assert!(!job.is_running());
    assert_eq!(job.state, JobState::Start);
}

#[test]
fn missing_mirror_is_cloned() {
    let mut job = Job::new(repo());
    let command = started(&mut job, dir(false));
    assert_eq!(job.state, JobState::Mirroring);
    assert!(!job.repo_exists());
    assert_eq!(
        command.args(),
        strings(&["clone", "--mirror", "git@src:owner/proj", "/home/lohr/owner/proj"])
    );
}

#[test]
fn existing_mirror_is_updated() {
    let mut job = Job::new(repo());
    let command = started(&mut job, dir(true));
    assert_eq!(job.state, JobState::Updating);
    assert!(job.repo_exists());
    assert_eq!(
        command.args(),
        strings(&["-C", "/home/lohr/owner/proj", "remote", "update", "origin", "--prune"])
    );
}

#[test]
fn second_run_updates_instead_of_cloning() {
    let config = GlobalSettings::new(Vec::new(), Vec::new(), Vec::new());
    let mut first = Job::new(repo());
    assert!(matches!(started(&mut first, dir(false)), GitCommand::CloneMirror { .. }));
    first.advance(ok(""), &config);
    assert_eq!(first.advance(failed(128, MISSING), &config), Step::Finished(Ok(())));
    let mut second = Job::new(repo());
    assert!(matches!(started(&mut second, dir(true)), GitCommand::RemoteUpdate { .. }));
}

#[test]
fn full_run_pushes_every_remote_in_order() {
    let config = GlobalSettings::new(strings(&["git@gh:org"]), strings(&["backup:store"]), Vec::new());
    let mut job = Job::new(repo());
    job.start(dir(true));
    let step = job.advance(ok(""), &config);
    let show = GitCommand::ShowLohr { path: "/home/lohr/owner/proj".to_string() };
    assert_eq!(show.args(), strings(&["-C", "/home/lohr/owner/proj", "show", "HEAD:.lohr"]));
    assert_eq!(step, Step::Run(show));
    assert_eq!(job.advance(failed(128, MISSING), &config), push("git@gh:org/proj"));
    assert_eq!(job.advance(ok(""), &config), push("backup:store/proj"));
    assert_eq!(job.advance(ok(""), &config), Step::Finished(Ok(())));
    assert_eq!(job.state, JobState::Done);
    assert!(!job.is_running());
}

#[test]
fn first_push_failure_stops_the_job() {
    let config = GlobalSettings::new(Vec::new(), Vec::new(), Vec::new());
    let mut job = Job::new(repo());
    job.start(dir(false));
    job.advance(ok(""), &config);
    assert_eq!(job.advance(ok("A\nB\nC\n"), &config), push("A"));
    assert_eq!(job.advance(ok(""), &config), push("B"));
    let step = job.advance(failed(1, "rejected"), &config);
    assert_eq!(
        step,
        Step::Finished(Err(JobError::Process {
            operation: Operation::Push { remote: "B".to_string() },
            code: 1,
            stderr: "rejected".to_string(),
        }))
    );
    assert_eq!(job.state, JobState::Failed);
    assert!(!job.is_running());
}

#[test]
fn failed_clone_fails_the_job() {
    let config = GlobalSettings::default();
    let mut job = Job::new(repo());
    job.start(dir(false));
    let step = job.advance(failed(128, "no such repo"), &config);
    assert_eq!(
        step,
        Step::Finished(Err(JobError::Process {
            operation: Operation::Mirror,
            code: 128,
            stderr: "no such repo".to_string(),
        }))
    );
    assert_eq!(job.state, JobState::Failed);
}

#[test]
fn failed_update_fails_the_job() {
    let config = GlobalSettings::default();
    let mut job = Job::new(repo());
    job.start(dir(true));
    let step = job.advance(Err("git not found".to_string()), &config);
    assert_eq!(
        step,
        Step::Finished(Err(JobError::Launch {
            operation: Operation::Update,
            message: "git not found".to_string(),
        }))
    );
}

#[test]
fn undecodable_error_output_fails_the_job() {
    let config = GlobalSettings::default();
    let mut job = Job::new(repo());
    job.start(dir(true));
    let outcome = Ok(ProcessOutput { success: false, code: 1, stdout: None, stderr: None });
    assert_eq!(
        job.advance(outcome, &config),
        Step::Finished(Err(JobError::Undecodable { operation: Operation::Update }))
    );
}

#[test]
fn empty_remote_list_finishes_at_once() {
    let config = GlobalSettings::default();
    let mut job = Job::new(repo());
    job.start(dir(true));
    job.advance(ok(""), &config);
    assert_eq!(job.advance(failed(128, MISSING), &config), Step::Finished(Ok(())));
    assert_eq!(job.state, JobState::Done);
}

#[test]
fn lohr_read_outcomes() {
    assert_eq!(read_lohr(ok("a\n\nb\n")), Ok(Some(strings(&["a", "b"]))));
    assert_eq!(read_lohr(ok("")), Ok(Some(Vec::new())));
    assert_eq!(read_lohr(ok(" \t\n \r\n")), Ok(Some(Vec::new())));
    assert_eq!(read_lohr(failed(128, MISSING)), Ok(None));
    assert_eq!(
        read_lohr(failed(128, "fatal: bad object HEAD")),
        Err(JobError::Process {
            operation: Operation::ReadLohr,
            code: 128,
            stderr: "fatal: bad object HEAD".to_string(),
        })
    );
    assert_eq!(
        read_lohr(Ok(ProcessOutput { success: true, code: 0, stdout: None, stderr: None })),
        Err(JobError::Undecodable { operation: Operation::ReadLohr })
    );
}

#[test]
fn push_command_arguments() {
    let command = GitCommand::PushMirror { path: "/m".to_string(), remote: "r".to_string() };
    assert_eq!(command.args(), strings(&["-C", "/m", "push", "--mirror", "r"]));
}

#[test]
fn substring_search() {
    assert!(text_contains("abc", ""));
    assert!(text_contains("abc", "bc"));
    assert!(!text_contains("abc", "abcd"));
    assert!(!text_contains("abc", "cb"));
    assert!(text_contains(MISSING, "does not exist in 'HEAD'"));
}
