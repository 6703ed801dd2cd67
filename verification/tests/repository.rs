use std::path::PathBuf;

use bazel_diff_targets::error::AppError;
use bazel_diff_targets::git::world::GitOutput;
use bazel_diff_targets::git::world::Reply;
use bazel_diff_targets::git::world::Request;
use bazel_diff_targets::git::world::Step;
use bazel_diff_targets::git::CheckoutPlan;
use bazel_diff_targets::git::GitRepository;
use bazel_diff_targets::git::HeadSelection;
use bazel_diff_targets::git::OriginalCheckout;
use bazel_diff_targets::git::ResolvedRef;

/// A `git` that ran and succeeded with `stdout`.
fn succeeded(stdout: &str) -> Reply {
    Reply::Git(Ok(GitOutput {
        success: true,
        stdout: stdout.as_bytes().to_vec(),
        stderr: Vec::new(),
    }))
}

/// A `git` that ran and failed, saying `stderr`.
fn failed(stderr: &str) -> Reply {
    Reply::Git(Ok(GitOutput {
        success: false,
        stdout: Vec::new(),
        stderr: stderr.as_bytes().to_vec(),
    }))
}

/// A `git` that could not be started.
fn not_started(error: &str) -> Reply {
    Reply::Git(Err(error.to_owned()))
}

/// A request written as a line: where and what.
fn describe(request: &Request) -> String {
    match request {
        Request::Git(command) => {
            format!("{}: git {}", command.dir.display(), command.args.join(" "))
        }
        Request::CreateTempDir { prefix, side } => format!("mktemp {prefix} ({side:?})"),
        Request::RemoveDirAll { path } => format!("rm -r {}", path.display()),
    }
}

/// Answers every request with `world` until the session is done; gives the
/// result and the requests, each as a line.
fn drive<T>(
    first: Step<T>,
    mut resume: impl FnMut(Reply) -> Step<T>,
    mut world: impl FnMut(&str) -> Reply,
) -> (Result<T, AppError>, Vec<String>) {
    let mut log = Vec::new();
    let mut step = first;
    loop {
        match step {
            Step::Done(result) => return (result, log),
            Step::Request(request) => {
                let line = describe(&request);
                let reply = world(line.as_str());
                log.push(line);
                step = resume(reply);
            }
        }
    }
}

/// The repository at `/work/repo`, found on branch `main` at `abc123`.
fn repository_on_main() -> GitRepository {
    let (mut session, first) = GitRepository::discover(&PathBuf::from("/work/repo"));
    let (result, _) = drive(first, |reply| session.resume(reply), |line| match line {
        "/work/repo: git rev-parse --show-toplevel" => succeeded("/work/repo\n"),
        "/work/repo: git rev-parse HEAD" => succeeded("abc123\n"),
        "/work/repo: git symbolic-ref --quiet --short HEAD" => succeeded("main\n"),
        other => panic!("unexpected request {other}"),
    });
    match result {
        Ok(repository) => repository,
        Err(error) => panic!("discovery failed: {error:?}"),
    }
}

fn resolved(reference: &str, sha: &str) -> ResolvedRef {
    ResolvedRef {
        reference: reference.to_owned(),
        sha: sha.to_owned(),
    }
}

#[test]
fn discovery_finds_top_level_commit_and_branch() {
    let (mut session, first) = GitRepository::discover(&PathBuf::from("/work/repo/nested"));
    let (result, log) = drive(first, |reply| session.resume(reply), |line| match line {
        "/work/repo/nested: git rev-parse --show-toplevel" => succeeded("/work/repo\n"),
        "/work/repo: git rev-parse HEAD" => succeeded("  abc123\n"),
        "/work/repo: git symbolic-ref --quiet --short HEAD" => succeeded("main\n"),
        other => panic!("unexpected request {other}"),
    });
    let repository = match result {
        Ok(repository) => repository,
        Err(error) => panic!("discovery failed: {error:?}"),
    };

    assert_eq!(repository.root(), &PathBuf::from("/work/repo"));
    assert_eq!(
        repository.original_checkout(),
        &OriginalCheckout::Branch {
            name: "main".to_owned(),
            sha: "abc123".to_owned()
        }
    );
    assert_eq!(repository.original_checkout().sha(), "abc123");
    assert_eq!(
        log,
        [
            "/work/repo/nested: git rev-parse --show-toplevel",
            "/work/repo: git rev-parse HEAD",
            "/work/repo: git symbolic-ref --quiet --short HEAD",
        ]
    );
}

#[test]
fn discovery_records_a_detached_head() {
    let (mut session, first) = GitRepository::discover(&PathBuf::from("/work/repo"));
    let (result, _) = drive(first, |reply| session.resume(reply), |line| match line {
        "/work/repo: git rev-parse --show-toplevel" => succeeded("/work/repo\n"),
        "/work/repo: git rev-parse HEAD" => succeeded("def456\n"),
        "/work/repo: git symbolic-ref --quiet --short HEAD" => failed(""),
        other => panic!("unexpected request {other}"),
    });
    let repository = match result {
        Ok(repository) => repository,
        Err(error) => panic!("discovery failed: {error:?}"),
    };

    assert_eq!(
        repository.original_checkout(),
        &OriginalCheckout::Detached {
            sha: "def456".to_owned()
        }
    );
}

#[test]
fn discovery_falls_back_to_a_relative_git_dir() {
    let (mut session, first) = GitRepository::discover(&PathBuf::from("/srv/bare.git"));
    let (result, log) = drive(first, |reply| session.resume(reply), |line| match line {
        "/srv/bare.git: git rev-parse --show-toplevel" => {
            failed("fatal: this operation must be run in a work tree")
        }
        "/srv/bare.git: git rev-parse --git-dir" => succeeded(".\n"),
        "/srv/bare.git/.: git rev-parse HEAD" => succeeded("0123abcd\n"),
        "/srv/bare.git/.: git symbolic-ref --quiet --short HEAD" => succeeded("main\n"),
        other => panic!("unexpected request {other}"),
    });
    let repository = match result {
        Ok(repository) => repository,
        Err(error) => panic!("discovery failed: {error:?}"),
    };

    assert_eq!(repository.root(), &PathBuf::from("/srv/bare.git").join("."));
    assert_eq!(log.len(), 4);
}

#[test]
fn discovery_keeps_an_absolute_git_dir() {
    let (mut session, first) = GitRepository::discover(&PathBuf::from("/work/elsewhere"));
    let (result, _) = drive(first, |reply| session.resume(reply), |line| match line {
        "/work/elsewhere: git rev-parse --show-toplevel" => not_started("no such file"),
        "/work/elsewhere: git rev-parse --git-dir" => succeeded("/srv/bare.git\n"),
        "/srv/bare.git: git rev-parse HEAD" => succeeded("0123abcd\n"),
        "/srv/bare.git: git symbolic-ref --quiet --short HEAD" => failed(""),
        other => panic!("unexpected request {other}"),
    });
    let repository = match result {
        Ok(repository) => repository,
        Err(error) => panic!("discovery failed: {error:?}"),
    };

    assert_eq!(repository.root(), &PathBuf::from("/srv/bare.git"));
}

#[test]
fn discovery_outside_a_repository_reports_the_git_dir_failure() {
    let (mut session, first) = GitRepository::discover(&PathBuf::from("/tmp"));
    let (result, _) = drive(first, |reply| session.resume(reply), |line| match line {
        "/tmp: git rev-parse --show-toplevel" => failed("fatal: not a git repository\n"),
        "/tmp: git rev-parse --git-dir" => failed("fatal: not a git repository\n"),
        other => panic!("unexpected request {other}"),
    });

    match result {
        Err(AppError::CheckoutFailure { message }) => assert_eq!(
            message,
            "git rev-parse --git-dir failed: fatal: not a git repository"
        ),
        _ => panic!("expected a checkout failure"),
    }
}

#[test]
fn failed_git_without_stderr_names_the_command() {
    let (mut session, first) = GitRepository::discover(&PathBuf::from("/work/repo"));
    let (result, _) = drive(first, |reply| session.resume(reply), |line| match line {
        "/work/repo: git rev-parse --show-toplevel" => succeeded("/work/repo\n"),
        "/work/repo: git rev-parse HEAD" => failed("  \n"),
        other => panic!("unexpected request {other}"),
    });

    match result {
        Err(error) => {
            assert_eq!(error.kind(), "checkout_failure");
            assert_eq!(error.message(), "Git checkout failed: git rev-parse HEAD failed");
        }
        Ok(_) => panic!("expected an error"),
    }
}

#[test]
fn git_that_cannot_start_is_a_checkout_failure() {
    let repository = repository_on_main();
    let (mut session, first) = repository.is_working_tree_dirty();
    let (result, _) = drive(first, |reply| session.resume(reply), |_| {
        not_started("No such file or directory (os error 2)")
    });

    match result {
        Err(AppError::CheckoutFailure { message }) => assert_eq!(
            message,
            "failed to run git: No such file or directory (os error 2)"
        ),
        other => panic!("expected a checkout failure, got {other:?}"),
    }
}

#[test]
fn non_utf8_git_output_is_an_output_parsing_failure() {
    let repository = repository_on_main();
    let (mut session, first) = repository.is_working_tree_dirty();
    let (result, _) = drive(first, |reply| session.resume(reply), |_| {
        Reply::Git(Ok(GitOutput {
            success: true,
            stdout: vec![b'?', b'?', b' ', 0xff, b'\n'],
            stderr: Vec::new(),
        }))
    });

    match result {
        Err(AppError::OutputParsingFailure { message }) => assert_eq!(
            message,
            "git output was not valid UTF-8: invalid utf-8 sequence of 1 bytes from index 3"
        ),
        other => panic!("expected an output parsing failure, got {other:?}"),
    }
}

#[test]
fn non_utf8_stderr_is_shown_lossily() {
    let repository = repository_on_main();
    let (mut session, first) = repository.validate_state();
    let (result, _) = drive(first, |reply| session.resume(reply), |_| {
        Reply::Git(Ok(GitOutput {
            success: false,
            stdout: Vec::new(),
            stderr: vec![b'b', b'a', b'd', b' ', 0xff],
        }))
    });

    match result {
        Err(AppError::CheckoutFailure { message }) => assert_eq!(
            message,
            "git rev-parse --is-bare-repository failed: bad \u{fffd}"
        ),
        other => panic!("expected a checkout failure, got {other:?}"),
    }
}

#[test]
fn validation_accepts_a_normal_repository() {
    let repository = repository_on_main();
    let (mut session, first) = repository.validate_state();
    let (result, log) = drive(first, |reply| session.resume(reply), |line| match line {
        "/work/repo: git rev-parse --is-bare-repository" => succeeded("false\n"),
        "/work/repo: git rev-parse --is-shallow-repository" => succeeded("false\n"),
        other => panic!("unexpected request {other}"),
    });

    assert!(result.is_ok(), "got {result:?}");
    assert_eq!(log.len(), 2);
}

#[test]
fn validation_rejects_a_bare_repository_before_asking_about_depth() {
    let repository = repository_on_main();
    let (mut session, first) = repository.validate_state();
    let (result, log) = drive(first, |reply| session.resume(reply), |line| match line {
        "/work/repo: git rev-parse --is-bare-repository" => succeeded("true\n"),
        other => panic!("unexpected request {other}"),
    });

    assert!(matches!(result, Err(AppError::BareRepository)), "got {result:?}");
    assert_eq!(log, ["/work/repo: git rev-parse --is-bare-repository"]);
}

#[test]
fn validation_rejects_a_shallow_repository() {
    let repository = repository_on_main();
    let (mut session, first) = repository.validate_state();
    let (result, _) = drive(first, |reply| session.resume(reply), |line| match line {
        "/work/repo: git rev-parse --is-bare-repository" => succeeded("false\n"),
        "/work/repo: git rev-parse --is-shallow-repository" => succeeded(" true \n"),
        other => panic!("unexpected request {other}"),
    });

    assert!(matches!(result, Err(AppError::ShallowRepository)), "got {result:?}");
}

#[test]
fn resolving_a_ref_gives_its_commit() {
    let repository = repository_on_main();
    let (mut session, first) = repository.resolve_ref("v1.2");
    let (result, log) = drive(first, |reply| session.resume(reply), |line| match line {
        "/work/repo: git rev-parse --verify v1.2^{commit}" => succeeded("fedcba\n"),
        other => panic!("unexpected request {other}"),
    });

    match result {
        Ok(resolved_ref) => assert_eq!(resolved_ref, resolved("v1.2", "fedcba")),
        Err(error) => panic!("resolution failed: {error:?}"),
    }
    assert_eq!(log.len(), 1);
}

#[test]
fn resolving_an_unknown_ref_is_an_invalid_ref() {
    let repository = repository_on_main();
    let (mut session, first) = repository.resolve_ref("does-not-exist");
    let (result, _) = drive(first, |reply| session.resume(reply), |line| match line {
        "/work/repo: git rev-parse --verify does-not-exist^{commit}" => {
            failed("fatal: Needed a single revision")
        }
        other => panic!("unexpected request {other}"),
    });

    match result {
        Err(AppError::InvalidRef { reference }) => assert_eq!(reference, "does-not-exist"),
        other => panic!("expected an invalid ref, got {other:?}"),
    }
}

/// Infers the base of `HEAD` (at `feed01`) where the listed candidates resolve,
/// each with the given merge base (or none).
fn infer_with(candidates: &[(&str, Option<&str>)]) -> (Result<ResolvedRef, AppError>, Vec<String>) {
    let repository = repository_on_main();
    let (mut session, first) = repository.infer_base_ref("HEAD");
    let candidates: Vec<(String, Option<String>)> = candidates
        .iter()
        .map(|(name, base)| (name.to_string(), base.map(|b| b.to_owned())))
        .collect();
    drive(first, |reply| session.resume(reply), move |line| {
        if line == "/work/repo: git rev-parse --verify HEAD^{commit}" {
            return succeeded("feed01\n");
        }
        for (name, base) in &candidates {
            if line == format!("/work/repo: git rev-parse --verify {name}^{{commit}}") {
                return succeeded("c0ffee\n");
            }
            if line == format!("/work/repo: git merge-base feed01 {name}") {
                return match base {
                    Some(sha) => succeeded(&format!("{sha}\n")),
                    None => failed(""),
                };
            }
        }
        if line.starts_with("/work/repo: git rev-parse --verify ") {
            return failed("fatal: Needed a single revision");
        }
        panic!("unexpected request {line}")
    })
}

#[test]
fn base_inference_prefers_origin_head() {
    let (result, log) = infer_with(&[
        ("origin/HEAD", Some("base01")),
        ("origin/main", Some("base02")),
        ("origin/master", Some("base03")),
    ]);

    match result {
        Ok(base) => assert_eq!(base, resolved("origin/HEAD", "base01")),
        Err(error) => panic!("inference failed: {error:?}"),
    }
    assert_eq!(
        log,
        [
            "/work/repo: git rev-parse --verify HEAD^{commit}",
            "/work/repo: git rev-parse --verify origin/HEAD^{commit}",
            "/work/repo: git merge-base feed01 origin/HEAD",
        ]
    );
}

#[test]
fn base_inference_uses_origin_main_without_origin_head() {
    let (result, _) = infer_with(&[("origin/main", Some("base02")), ("origin/master", Some("base03"))]);

    match result {
        Ok(base) => assert_eq!(base, resolved("origin/main", "base02")),
        Err(error) => panic!("inference failed: {error:?}"),
    }
}

#[test]
fn base_inference_uses_origin_master_last() {
    let (result, log) = infer_with(&[("origin/master", Some("base03"))]);

    match result {
        Ok(base) => assert_eq!(base, resolved("origin/master", "base03")),
        Err(error) => panic!("inference failed: {error:?}"),
    }
    assert_eq!(log.len(), 5);
}

#[test]
fn base_inference_skips_a_candidate_without_merge_base() {
    let (result, _) = infer_with(&[("origin/HEAD", None), ("origin/main", Some("base02"))]);

    match result {
        Ok(base) => assert_eq!(base, resolved("origin/main", "base02")),
        Err(error) => panic!("inference failed: {error:?}"),
    }
}

#[test]
fn base_inference_fails_without_candidates() {
    let (result, log) = infer_with(&[]);

    assert!(matches!(result, Err(AppError::BaseRefInferenceFailure)), "got {result:?}");
    assert_eq!(log.len(), 4);
}

#[test]
fn base_inference_reports_an_invalid_head_ref() {
    let repository = repository_on_main();
    let (mut session, first) = repository.infer_base_ref("nope");
    let (result, log) = drive(first, |reply| session.resume(reply), |_| failed("fatal"));

    match result {
        Err(AppError::InvalidRef { reference }) => assert_eq!(reference, "nope"),
        other => panic!("expected an invalid ref, got {other:?}"),
    }
    assert_eq!(log.len(), 1);
}

#[test]
fn base_inference_stops_at_a_git_that_cannot_start() {
    let repository = repository_on_main();
    let (mut session, first) = repository.infer_base_ref("HEAD");
    let (result, log) = drive(first, |reply| session.resume(reply), |line| {
        if line == "/work/repo: git rev-parse --verify HEAD^{commit}" {
            succeeded("feed01\n")
        } else {
            not_started("out of processes")
        }
    });

    match result {
        Err(AppError::CheckoutFailure { message }) => {
            assert_eq!(message, "failed to run git: out of processes")
        }
        other => panic!("expected a checkout failure, got {other:?}"),
    }
    assert_eq!(log.len(), 2);
}

#[test]
fn clean_status_is_not_dirty() {
    let repository = repository_on_main();
    let (mut session, first) = repository.is_working_tree_dirty();
    let (result, log) = drive(first, |reply| session.resume(reply), |_| succeeded("\n"));

    assert!(matches!(result, Ok(false)), "got {result:?}");
    assert_eq!(
        log,
        ["/work/repo: git status --porcelain=v1 --untracked-files=all"]
    );
}

#[test]
fn listed_status_is_dirty() {
    let repository = repository_on_main();
    let (mut session, first) = repository.is_working_tree_dirty();
    let (result, _) = drive(first, |reply| session.resume(reply), |_| {
        succeeded(" M README.md\n?? notes.txt\n")
    });

    assert!(matches!(result, Ok(true)), "got {result:?}");
}

#[test]
fn plans_current_checkout_for_dirty_head() {
    let repository = repository_on_main();
    let base = resolved("main", "abc123");

    let plans = repository.plan_checkouts(&base, HeadSelection::Dirty);

    assert_eq!(
        plans.head,
        CheckoutPlan::Current {
            git_root: PathBuf::from("/work/repo")
        }
    );
}

#[test]
fn plans_current_checkout_for_head_at_starting_commit() {
    let repository = repository_on_main();
    let base = resolved("origin/main", "111111");
    let head = resolved("HEAD", "abc123");

    let plans = repository.plan_checkouts(&base, HeadSelection::Resolved(&head));

    assert_eq!(
        plans.head,
        CheckoutPlan::Current {
            git_root: PathBuf::from("/work/repo")
        }
    );
}

#[test]
fn plans_worktree_for_head_at_other_commit() {
    let repository = repository_on_main();
    let base = resolved("origin/main", "111111");
    let head = resolved("feature", "222222");

    let plans = repository.plan_checkouts(&base, HeadSelection::Resolved(&head));

    assert_eq!(
        plans.head,
        CheckoutPlan::Worktree {
            reference: "feature".to_owned(),
            sha: "222222".to_owned()
        }
    );
}

#[test]
fn plans_worktree_for_base_even_at_starting_commit() {
    let repository = repository_on_main();
    let base = resolved("main", "abc123");

    let plans = repository.plan_checkouts(&base, HeadSelection::Dirty);

    assert_eq!(
        plans.base,
        CheckoutPlan::Worktree {
            reference: "main".to_owned(),
            sha: "abc123".to_owned()
        }
    );
}
