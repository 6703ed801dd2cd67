use std::path::PathBuf;

use bazel_diff_targets::args::Args;
use bazel_diff_targets::error::AppError;
use bazel_diff_targets::git::world::GitOutput;
use bazel_diff_targets::git::world::Reply;
use bazel_diff_targets::git::world::Request;
use bazel_diff_targets::git::world::Step;
use bazel_diff_targets::run::run;

/// A `git` that ran and succeeded with `stdout`.
fn succeeded(stdout: &str) -> Reply {
    Reply::Git(Ok(GitOutput {
        success: true,
        stdout: stdout.as_bytes().to_vec(),
        stderr: Vec::new(),
    }))
}

/// A `git` that ran and failed, saying `stderr`.
fn failed(stderr: &str) -> Reply {
    Reply::Git(Ok(GitOutput {
        success: false,
        stdout: Vec::new(),
        stderr: stderr.as_bytes().to_vec(),
    }))
}

/// A `git` that could not be started.
fn not_started(error: &str) -> Reply {
    Reply::Git(Err(error.to_owned()))
}

/// A request written as a line: where and what.
fn describe(request: &Request) -> String {
    match request {
        Request::Git(command) => {
            format!("{}: git {}", command.dir.display(), command.args.join(" "))
        }
        Request::CreateTempDir { prefix, side } => format!("mktemp {prefix} ({side:?})"),
        Request::RemoveDirAll { path } => format!("rm -r {}", path.display()),
    }
}

/// Answers every request with `world` until the session is done; gives the
/// result and the requests, each as a line.
fn drive<T>(
    first: Step<T>,
    mut resume: impl FnMut(Reply) -> Step<T>,
    mut world: impl FnMut(&str) -> Reply,
) -> (Result<T, AppError>, Vec<String>) {
    let mut log = Vec::new();
    let mut step = first;
    loop {
        match step {
            Step::Done(result) => return (result, log),
            Step::Request(request) => {
                let line = describe(&request);
                let reply = world(line.as_str());
                log.push(line);
                step = resume(reply);
            }
        }
    }
}

fn test_args(dirty: bool) -> Args {
    Args {
        base_ref: None,
        head_ref: None,
        dirty,
        workspace_path: None,
        java_path: None,
        bazel_path: None,
        bazel_diff_jar: None,
        target_types: Vec::new(),
        use_cquery: false,
        exclude_external_targets: false,
        include_external_targets: false,
        include_distance: false,
        bazel_startup_options: None,
        bazel_command_options: None,
        json: false,
        quiet: false,
        verbose: false,
    }
}

/// A repository at `/work/repo` on `main`, neither bare nor shallow, whose
/// `git status` lists `status`.
fn repository_with_status(line: &str, status: &str) -> Reply {
    match line {
        "/work/repo: git rev-parse --show-toplevel" => succeeded("/work/repo\n"),
        "/work/repo: git rev-parse HEAD" => succeeded("abc123\n"),
        "/work/repo: git symbolic-ref --quiet --short HEAD" => succeeded("main\n"),
        "/work/repo: git rev-parse --is-bare-repository" => succeeded("false\n"),
        "/work/repo: git rev-parse --is-shallow-repository" => succeeded("false\n"),
        "/work/repo: git status --porcelain=v1 --untracked-files=all" => succeeded(status),
        other => panic!("unexpected request {other}"),
    }
}

#[test]
fn run_refuses_a_changed_tree_without_the_dirty_flag() {
    let args = test_args(false);
    let (mut session, first) = run(&args, &PathBuf::from("/work/repo"));
    let (result, log) = drive(first, |reply| {
        assert!(session.accepts(&reply));
        session.resume(reply)
    }, |line| repository_with_status(line, " M README.md\n"));

    match result {
        Err(AppError::DirtyWorkingTree { entries, remaining }) => {
            assert!(entries.is_empty());
            assert_eq!(remaining, 0);
        }
        other => panic!("expected a dirty working tree, got {other:?}"),
    }
    assert_eq!(log.len(), 6);
}

#[test]
fn run_allows_a_changed_tree_with_the_dirty_flag() {
    let args = test_args(true);
    let (mut session, first) = run(&args, &PathBuf::from("/work/repo"));
    let (result, log) = drive(first, |reply| session.resume(reply), |line| {
        repository_with_status(line, " M README.md\n")
    });

    assert!(result.is_ok(), "got {result:?}");
    assert_eq!(log.len(), 5);
}

#[test]
fn run_accepts_a_clean_tree() {
    let args = test_args(false);
    let (mut session, first) = run(&args, &PathBuf::from("/work/repo"));
    let (result, _) = drive(first, |reply| session.resume(reply), |line| {
        repository_with_status(line, "")
    });

    assert!(result.is_ok(), "got {result:?}");
}

#[test]
fn run_stops_at_a_shallow_repository() {
    let args = test_args(false);
    let (mut session, first) = run(&args, &PathBuf::from("/work/repo"));
    let (result, log) = drive(first, |reply| session.resume(reply), |line| match line {
        "/work/repo: git rev-parse --is-shallow-repository" => succeeded("true\n"),
        other => repository_with_status(other, ""),
    });

    assert!(matches!(result, Err(AppError::ShallowRepository)), "got {result:?}");
    assert_eq!(log.len(), 5);
}

#[test]
fn run_session_refuses_an_answer_of_the_wrong_kind() {
    let args = test_args(false);
    let (session, _) = run(&args, &PathBuf::from("/work/repo"));

    assert!(!session.accepts(&Reply::Removed(Ok(()))));
    assert!(session.accepts(&succeeded("/work/repo")));
}
