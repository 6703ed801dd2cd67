use std::path::PathBuf;

use bazel_diff_targets::error::AppError;
use bazel_diff_targets::git::world::GitOutput;
use bazel_diff_targets::git::world::Reply;
use bazel_diff_targets::git::world::Request;
use bazel_diff_targets::git::world::Step;
use bazel_diff_targets::git::Checkout;
use bazel_diff_targets::git::CheckoutPlan;
use bazel_diff_targets::git::CheckoutPlans;
use bazel_diff_targets::git::Checkouts;
use bazel_diff_targets::git::GitRepository;

/// A `git` that ran and succeeded with `stdout`.
fn succeeded(stdout: &str) -> Reply {
    Reply::Git(Ok(GitOutput {
        success: true,
        stdout: stdout.as_bytes().to_vec(),
        stderr: Vec::new(),
    }))
}

/// A `git` that ran and failed, saying `stderr`.
fn failed(stderr: &str) -> Reply {
    Reply::Git(Ok(GitOutput {
        success: false,
        stdout: Vec::new(),
        stderr: stderr.as_bytes().to_vec(),
    }))
}

/// A `git` that could not be started.
fn not_started(error: &str) -> Reply {
    Reply::Git(Err(error.to_owned()))
}

/// A request written as a line: where and what.
fn describe(request: &Request) -> String {
    match request {
        Request::Git(command) => {
            format!("{}: git {}", command.dir.display(), command.args.join(" "))
        }
        Request::CreateTempDir { prefix, side } => format!("mktemp {prefix} ({side:?})"),
        Request::RemoveDirAll { path } => format!("rm -r {}", path.display()),
    }
}

/// Answers every request with `world` until the session is done; gives the
/// result and the requests, each as a line.
fn drive<T>(
    first: Step<T>,
    mut resume: impl FnMut(Reply) -> Step<T>,
    mut world: impl FnMut(&str) -> Reply,
) -> (Result<T, AppError>, Vec<String>) {
    let mut log = Vec::new();
    let mut step = first;
    loop {
        match step {
            Step::Done(result) => return (result, log),
            Step::Request(request) => {
                let line = describe(&request);
                let reply = world(line.as_str());
                log.push(line);
                step = resume(reply);
            }
        }
    }
}

/// The repository at `/work/repo`, found on branch `main` at `abc123`.
fn repository_on_main() -> GitRepository {
    let (mut session, first) = GitRepository::discover(&PathBuf::from("/work/repo"));
    let (result, _) = drive(first, |reply| session.resume(reply), |line| match line {
        "/work/repo: git rev-parse --show-toplevel" => succeeded("/work/repo\n"),
        "/work/repo: git rev-parse HEAD" => succeeded("abc123\n"),
        "/work/repo: git symbolic-ref --quiet --short HEAD" => succeeded("main\n"),
        other => panic!("unexpected request {other}"),
    });
    match result {
        Ok(repository) => repository,
        Err(error) => panic!("discovery failed: {error:?}"),
    }
}

fn temp_dir(path: &str) -> Reply {
    Reply::TempDir(Ok(PathBuf::from(path)))
}

fn removed() -> Reply {
    Reply::Removed(Ok(()))
}

fn worktree_plan(sha: &str) -> CheckoutPlan {
    CheckoutPlan::Worktree {
        reference: format!("ref-{sha}"),
        sha: sha.to_owned(),
    }
}

fn worktree(temp: &str) -> Checkout {
    Checkout::Worktree {
        git_root: PathBuf::from(temp).join("worktree"),
        temporary_root: PathBuf::from(temp),
    }
}

#[test]
fn removing_a_worktree_forces_its_removal() {
    let repository = repository_on_main();
    let (mut session, first) = repository.remove_worktree(&PathBuf::from("/tmp/bdt-1/worktree"));
    let (result, log) = drive(first, |reply| session.resume(reply), |_| succeeded(""));

    assert!(result.is_ok(), "got {result:?}");
    assert_eq!(log, ["/work/repo: git worktree remove --force /tmp/bdt-1/worktree"]);
}

#[test]
fn adding_a_worktree_detaches_it_at_the_commit() {
    let repository = repository_on_main();
    let (mut session, first) =
        repository.add_detached_worktree(&PathBuf::from("/tmp/bdt-1/worktree"), "fedcba");
    let (result, log) = drive(first, |reply| session.resume(reply), |_| succeeded(""));

    assert!(result.is_ok(), "got {result:?}");
    assert_eq!(
        log,
        ["/work/repo: git worktree add --detach /tmp/bdt-1/worktree fedcba"]
    );
}

#[test]
fn failed_worktree_removal_reports_git_stderr() {
    let repository = repository_on_main();
    let (mut session, first) = repository.remove_worktree(&PathBuf::from("/tmp/gone"));
    let (result, _) = drive(first, |reply| session.resume(reply), |_| {
        failed("fatal: '/tmp/gone' is not a working tree\n")
    });

    match result {
        Err(AppError::CheckoutFailure { message }) => assert_eq!(
            message,
            "git worktree remove --force /tmp/gone failed: fatal: '/tmp/gone' is not a working tree"
        ),
        other => panic!("expected a checkout failure, got {other:?}"),
    }
}

#[test]
fn preparing_two_worktrees_makes_one_temporary_directory_each() {
    let repository = repository_on_main();
    let plans = CheckoutPlans {
        base: worktree_plan("111111"),
        head: worktree_plan("222222"),
    };
    let (mut session, first) = repository.prepare_checkouts(plans);
    let (result, log) = drive(first, |reply| session.resume(reply), |line| match line {
        "mktemp bazel-diff-targets- (Base)" => temp_dir("/tmp/bdt-base"),
        "mktemp bazel-diff-targets- (Head)" => temp_dir("/tmp/bdt-head"),
        "/work/repo: git worktree add --detach /tmp/bdt-base/worktree 111111" => succeeded(""),
        "/work/repo: git worktree add --detach /tmp/bdt-head/worktree 222222" => succeeded(""),
        other => panic!("unexpected request {other}"),
    });

    match result {
        Ok(checkouts) => assert_eq!(
            checkouts,
            Checkouts {
                base: worktree("/tmp/bdt-base"),
                head: worktree("/tmp/bdt-head"),
            }
        ),
        Err(error) => panic!("preparation failed: {error:?}"),
    }
    assert_eq!(log.len(), 4);
}

#[test]
fn preparing_with_current_head_touches_only_the_base() {
    let repository = repository_on_main();
    let plans = CheckoutPlans {
        base: worktree_plan("111111"),
        head: CheckoutPlan::Current {
            git_root: PathBuf::from("/work/repo"),
        },
    };
    let (mut session, first) = repository.prepare_checkouts(plans);
    let (result, log) = drive(first, |reply| session.resume(reply), |line| match line {
        "mktemp bazel-diff-targets- (Base)" => temp_dir("/tmp/bdt-base"),
        "/work/repo: git worktree add --detach /tmp/bdt-base/worktree 111111" => succeeded(""),
        other => panic!("unexpected request {other}"),
    });

    match result {
        Ok(checkouts) => {
            assert_eq!(checkouts.base, worktree("/tmp/bdt-base"));
            assert_eq!(checkouts.head.git_root(), &PathBuf::from("/work/repo"));
        }
        Err(error) => panic!("preparation failed: {error:?}"),
    }
    assert_eq!(log.len(), 2);
}

#[test]
fn failed_head_worktree_discards_both_temporary_directories() {
    let repository = repository_on_main();
    let plans = CheckoutPlans {
        base: worktree_plan("111111"),
        head: worktree_plan("222222"),
    };
    let (mut session, first) = repository.prepare_checkouts(plans);
    let (result, log) = drive(first, |reply| session.resume(reply), |line| match line {
        "mktemp bazel-diff-targets- (Base)" => temp_dir("/tmp/bdt-base"),
        "mktemp bazel-diff-targets- (Head)" => temp_dir("/tmp/bdt-head"),
        "/work/repo: git worktree add --detach /tmp/bdt-base/worktree 111111" => succeeded(""),
        "/work/repo: git worktree add --detach /tmp/bdt-head/worktree 222222" => {
            failed("fatal: invalid reference: 222222")
        }
        "rm -r /tmp/bdt-head" => removed(),
        "/work/repo: git worktree remove --force /tmp/bdt-base/worktree" => succeeded(""),
        "rm -r /tmp/bdt-base" => removed(),
        other => panic!("unexpected request {other}"),
    });

    match result {
        Err(AppError::CheckoutFailure { message }) => assert_eq!(
            message,
            "git worktree add --detach /tmp/bdt-head/worktree 222222 failed: fatal: invalid reference: 222222"
        ),
        other => panic!("expected a checkout failure, got {other:?}"),
    }
    assert_eq!(
        log[4..],
        [
            "rm -r /tmp/bdt-head",
            "/work/repo: git worktree remove --force /tmp/bdt-base/worktree",
            "rm -r /tmp/bdt-base",
        ]
    );
}

#[test]
fn failed_head_and_failed_base_cleanup_are_both_reported() {
    let repository = repository_on_main();
    let plans = CheckoutPlans {
        base: worktree_plan("111111"),
        head: worktree_plan("222222"),
    };
    let (mut session, first) = repository.prepare_checkouts(plans);
    let (result, _) = drive(first, |reply| session.resume(reply), |line| match line {
        "mktemp bazel-diff-targets- (Base)" => temp_dir("/tmp/bdt-base"),
        "mktemp bazel-diff-targets- (Head)" => Reply::TempDir(Err("disk full".to_owned())),
        "/work/repo: git worktree add --detach /tmp/bdt-base/worktree 111111" => succeeded(""),
        "/work/repo: git worktree remove --force /tmp/bdt-base/worktree" => failed("locked"),
        other => panic!("unexpected request {other}"),
    });

    match result {
        Err(AppError::CheckoutFailure { message }) => assert_eq!(
            message,
            "failed to prepare head checkout: Git checkout failed: failed to create temporary \
             worktree directory: disk full; failed to clean up base checkout: Git checkout failed: \
             git worktree remove --force /tmp/bdt-base/worktree failed: locked"
        ),
        other => panic!("expected a checkout failure, got {other:?}"),
    }
}

#[test]
fn failed_base_temporary_directory_stops_preparation() {
    let repository = repository_on_main();
    let plans = CheckoutPlans {
        base: worktree_plan("111111"),
        head: worktree_plan("222222"),
    };
    let (mut session, first) = repository.prepare_checkouts(plans);
    let (result, log) = drive(first, |reply| session.resume(reply), |_| {
        Reply::TempDir(Err("permission denied".to_owned()))
    });

    match result {
        Err(AppError::CheckoutFailure { message }) => assert_eq!(
            message,
            "failed to create temporary worktree directory: permission denied"
        ),
        other => panic!("expected a checkout failure, got {other:?}"),
    }
    assert_eq!(log.len(), 1);
}

#[test]
fn cleanup_removes_each_worktree_then_its_directory() {
    let repository = repository_on_main();
    let checkouts = Checkouts {
        base: worktree("/tmp/bdt-base"),
        head: worktree("/tmp/bdt-head"),
    };
    let (mut session, first) = repository.cleanup_checkouts(checkouts);
    let (result, log) = drive(first, |reply| session.resume(reply), |line| {
        if line.starts_with("rm -r") {
            removed()
        } else {
            succeeded("")
        }
    });

    assert!(result.is_ok(), "got {result:?}");
    assert_eq!(
        log,
        [
            "/work/repo: git worktree remove --force /tmp/bdt-base/worktree",
            "rm -r /tmp/bdt-base",
            "/work/repo: git worktree remove --force /tmp/bdt-head/worktree",
            "rm -r /tmp/bdt-head",
        ]
    );
}

#[test]
fn cleanup_leaves_the_current_checkout_alone() {
    let repository = repository_on_main();
    let checkouts = Checkouts {
        base: worktree("/tmp/bdt-base"),
        head: Checkout::Current {
            git_root: PathBuf::from("/work/repo"),
        },
    };
    let (mut session, first) = repository.cleanup_checkouts(checkouts);
    let (result, log) = drive(first, |reply| session.resume(reply), |line| {
        if line.starts_with("rm -r") {
            removed()
        } else {
            succeeded("")
        }
    });

    assert!(result.is_ok(), "got {result:?}");
    assert_eq!(log.len(), 2);
}

#[test]
fn cleanup_tries_the_head_after_a_failed_base() {
    let repository = repository_on_main();
    let checkouts = Checkouts {
        base: worktree("/tmp/bdt-base"),
        head: worktree("/tmp/bdt-head"),
    };
    let (mut session, first) = repository.cleanup_checkouts(checkouts);
    let (result, log) = drive(first, |reply| session.resume(reply), |line| match line {
        "/work/repo: git worktree remove --force /tmp/bdt-base/worktree" => failed(""),
        "/work/repo: git worktree remove --force /tmp/bdt-head/worktree" => succeeded(""),
        "rm -r /tmp/bdt-head" => Reply::Removed(Err("busy".to_owned())),
        other => panic!("unexpected request {other}"),
    });

    match result {
        Err(AppError::CheckoutFailure { message }) => assert_eq!(
            message,
            "failed to clean up base checkout: Git checkout failed: git worktree remove --force \
             /tmp/bdt-base/worktree failed; failed to clean up head checkout: Git checkout failed: \
             failed to remove temporary worktree directory /tmp/bdt-head: busy"
        ),
        other => panic!("expected a checkout failure, got {other:?}"),
    }
    assert_eq!(log.len(), 3);
}

#[test]
fn cleanup_reports_a_failed_head_alone() {
    let repository = repository_on_main();
    let checkouts = Checkouts {
        base: Checkout::Current {
            git_root: PathBuf::from("/work/repo"),
        },
        head: worktree("/tmp/bdt-head"),
    };
    let (mut session, first) = repository.cleanup_checkouts(checkouts);
    let (result, _) = drive(first, |reply| session.resume(reply), |_| failed("fatal: locked"));

    match result {
        Err(AppError::CheckoutFailure { message }) => assert_eq!(
            message,
            "failed to clean up head checkout: Git checkout failed: git worktree remove --force \
             /tmp/bdt-head/worktree failed: fatal: locked"
        ),
        other => panic!("expected a checkout failure, got {other:?}"),
    }
}

#[test]
fn failed_base_worktree_removes_its_directory_and_never_starts_the_head() {
    let repository = repository_on_main();
    let plans = CheckoutPlans {
        base: worktree_plan("111111"),
        head: worktree_plan("222222"),
    };
    let (mut session, first) = repository.prepare_checkouts(plans);
    let (result, log) = drive(first, |reply| session.resume(reply), |line| match line {
        "mktemp bazel-diff-targets- (Base)" => temp_dir("/tmp/bdt-base"),
        "/work/repo: git worktree add --detach /tmp/bdt-base/worktree 111111" => {
            failed("fatal: invalid reference: 111111")
        }
        "rm -r /tmp/bdt-base" => removed(),
        other => panic!("unexpected request {other}"),
    });

    assert!(matches!(result, Err(AppError::CheckoutFailure { .. })), "got {result:?}");
    assert_eq!(
        log,
        [
            "mktemp bazel-diff-targets- (Base)",
            "/work/repo: git worktree add --detach /tmp/bdt-base/worktree 111111",
            "rm -r /tmp/bdt-base",
        ]
    );
}
