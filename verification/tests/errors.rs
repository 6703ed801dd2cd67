use bazel_diff_targets::error::AppError;

#[test]
fn exposes_stable_error_kinds() {
    let cases = [
        (
            AppError::MissingJava {
                attempted: "java".to_owned(),
            },
            "missing_java",
        ),
        (
            AppError::BaseRefInferenceFailure,
            "base_ref_inference_failure",
        ),
        (
            AppError::MissingBazel {
                attempted: "bazel".to_owned(),
            },
            "missing_bazel",
        ),
        (
            AppError::InvalidRef {
                reference: "not-a-ref".to_owned(),
            },
            "invalid_ref",
        ),
        (
            AppError::DirtyWorkingTree {
                entries: vec!["M file.txt".to_owned()],
                remaining: 0,
            },
            "dirty_working_tree",
        ),
        (AppError::ShallowRepository, "shallow_repository"),
        (AppError::BareRepository, "bare_repository"),
        (
            AppError::WorkspaceValidationFailure {
                message: "missing Module.bazel".to_owned(),
            },
            "workspace_validation_failure",
        ),
        (
            AppError::CheckoutFailure {
                message: "git checkout failed".to_owned(),
            },
            "checkout_failure",
        ),
        (
            AppError::BazelDiffExecutionFailure {
                message: "java -jar failed".to_owned(),
            },
            "bazel_diff_execution_failure",
        ),
        (
            AppError::OutputParsingFailure {
                message: "invalid JSON".to_owned(),
            },
            "output_parsing_failure",
        ),
    ];

    for (error, expected_kind) in cases {
        assert_eq!(error.kind(), expected_kind);
    }
}

#[test]
fn provides_hints_for_actionable_errors() {
    let cases = [
        (
            AppError::MissingJava {
                attempted: "java".to_owned(),
            },
            "Install Java, set JAVA_HOME, or pass --java-path /path/to/java.",
        ),
        (
            AppError::MissingBazel {
                attempted: "bazel".to_owned(),
            },
            "Install Bazel or Bazelisk, set BAZEL, or pass --bazel-path /path/to/bazel.",
        ),
        (
            AppError::BaseRefInferenceFailure,
            "Pass --base-ref explicitly.",
        ),
        (
            AppError::DirtyWorkingTree {
                entries: vec!["M file.txt".to_owned()],
                remaining: 0,
            },
            "Commit, stash, or remove local changes before running bazel-diff-targets.",
        ),
        (
            AppError::ShallowRepository,
            "Use a non-shallow clone before running bazel-diff-targets.",
        ),
    ];

    for (error, hint) in cases {
        assert_eq!(error.hint(), Some(hint));
    }
}

#[test]
fn omits_hints_when_no_specific_action_is_available() {
    let errors = [
        AppError::InvalidRef {
            reference: "not-a-ref".to_owned(),
        },
        AppError::BareRepository,
        AppError::WorkspaceValidationFailure {
            message: "missing Module.bazel".to_owned(),
        },
        AppError::CheckoutFailure {
            message: "git checkout failed".to_owned(),
        },
        AppError::BazelDiffExecutionFailure {
            message: "java -jar failed".to_owned(),
        },
        AppError::OutputParsingFailure {
            message: "invalid JSON".to_owned(),
        },
    ];

    for error in errors {
        assert_eq!(error.hint(), None);
    }
}

#[test]
fn displays_human_readable_messages() {
    let cases = [
        (
            AppError::MissingJava {
                attempted: "/missing/java".to_owned(),
            },
            "Java executable not found: /missing/java",
        ),
        (
            AppError::MissingBazel {
                attempted: "bazel".to_owned(),
            },
            "Bazel executable not found: bazel",
        ),
        (
            AppError::InvalidRef {
                reference: "not-a-ref".to_owned(),
            },
            "Invalid Git ref: not-a-ref",
        ),
        (
            AppError::DirtyWorkingTree {
                entries: vec!["M file.txt".to_owned()],
                remaining: 0,
            },
            "Working tree is dirty",
        ),
        (
            AppError::ShallowRepository,
            "Shallow Git repositories are not supported",
        ),
        (
            AppError::BareRepository,
            "Bare Git repositories are not supported",
        ),
        (
            AppError::WorkspaceValidationFailure {
                message: "missing Module.bazel".to_owned(),
            },
            "Invalid workspace: missing Module.bazel",
        ),
        (
            AppError::CheckoutFailure {
                message: "git checkout failed".to_owned(),
            },
            "Git checkout failed: git checkout failed",
        ),
        (
            AppError::BazelDiffExecutionFailure {
                message: "java -jar failed".to_owned(),
            },
            "bazel-diff failed: java -jar failed",
        ),
        (
            AppError::OutputParsingFailure {
                message: "invalid JSON".to_owned(),
            },
            "Could not parse bazel-diff output: invalid JSON",
        ),
    ];

    for (error, msg) in cases {
        assert_eq!(error.message(), msg);
    }
}

#[test]
fn formats_human_error_with_hint() {
    let error = AppError::MissingJava {
        attempted: "java".to_owned(),
    };

    assert_eq!(error.format_human(), "error: Java executable not found: java\nhint: Install Java, set JAVA_HOME, or pass --java-path /path/to/java.");
}

#[test]
fn formats_human_error_without_hint() {
    let error = AppError::InvalidRef {
        reference: "not-a-ref".to_owned(),
    };

    assert_eq!(error.format_human(), "error: Invalid Git ref: not-a-ref");
}

#[test]
fn formats_dirty_working_tree_entries() {
    let error = AppError::DirtyWorkingTree {
        entries: vec!["M src/main.rs".to_owned(), "?? scratch.txt".to_owned()],
        remaining: 3,
    };

    assert_eq!(error.format_human(), "error: Working tree is dirty\nhint: Commit, stash, or remove local changes before running bazel-diff-targets.\n  M src/main.rs\n  ?? scratch.txt\n  and 3 more");
}

#[test]
fn formats_json_error_with_hint() {
    let error = AppError::MissingJava {
        attempted: "java".to_owned(),
    };

    assert_eq!(
        error.format_json(),
        r#"{"ok":false,"error":{"kind":"missing_java","message":"Java executable not found: java","hint":"Install Java, set JAVA_HOME, or pass --java-path /path/to/java."}}"#
    );
}

#[test]
fn formats_json_error_without_hint() {
    let error = AppError::InvalidRef {
        reference: "not-a-ref".to_owned(),
    };

    assert_eq!(
        error.format_json(),
        r#"{"ok":false,"error":{"kind":"invalid_ref","message":"Invalid Git ref: not-a-ref"}}"#
    );
}

#[test]
fn json_error_escapes_quotes_backslashes_and_control_characters() {
    let error = AppError::CheckoutFailure {
        message: "bad \"ref\"\\path\n\ttab\u{1}end".to_owned(),
    };

    assert_eq!(
        error.format_json(),
        r#"{"ok":false,"error":{"kind":"checkout_failure","message":"Git checkout failed: bad \"ref\"\\path\n\ttab\u0001end"}}"#
    );
}

#[test]
fn json_error_keeps_non_ascii_text_as_is() {
    let error = AppError::InvalidRef {
        reference: "fönster/ブランチ".to_owned(),
    };

    assert_eq!(
        error.format_json(),
        "{\"ok\":false,\"error\":{\"kind\":\"invalid_ref\",\"message\":\"Invalid Git ref: fönster/ブランチ\"}}"
    );
}

#[test]
fn json_error_for_dirty_tree_has_hint_but_no_entries() {
    let error = AppError::DirtyWorkingTree {
        entries: vec!["M a.txt".to_owned()],
        remaining: 4,
    };

    assert_eq!(
        error.format_json(),
        r#"{"ok":false,"error":{"kind":"dirty_working_tree","message":"Working tree is dirty","hint":"Commit, stash, or remove local changes before running bazel-diff-targets."}}"#
    );
}

#[test]
fn dirty_tree_without_remaining_entries_has_no_count_line() {
    let error = AppError::DirtyWorkingTree {
        entries: vec!["?? new.txt".to_owned()],
        remaining: 0,
    };

    assert_eq!(
        error.format_human(),
        "error: Working tree is dirty\nhint: Commit, stash, or remove local changes before running bazel-diff-targets.\n  ?? new.txt"
    );
}

#[test]
fn dirty_tree_count_is_written_in_decimal() {
    let error = AppError::DirtyWorkingTree {
        entries: Vec::new(),
        remaining: 1234567,
    };

    assert_eq!(
        error.format_human(),
        "error: Working tree is dirty\nhint: Commit, stash, or remove local changes before running bazel-diff-targets.\n  and 1234567 more"
    );
}

#[test]
fn every_error_kind_is_distinct() {
    let errors = [
        AppError::MissingJava { attempted: String::new() },
        AppError::MissingBazel { attempted: String::new() },
        AppError::InvalidRef { reference: String::new() },
        AppError::BaseRefInferenceFailure,
        AppError::DirtyWorkingTree { entries: Vec::new(), remaining: 0 },
        AppError::ShallowRepository,
        AppError::BareRepository,
        AppError::WorkspaceValidationFailure { message: String::new() },
        AppError::CheckoutFailure { message: String::new() },
        AppError::BazelDiffExecutionFailure { message: String::new() },
        AppError::OutputParsingFailure { message: String::new() },
    ];

    for (i, a) in errors.iter().enumerate() {
        for (j, b) in errors.iter().enumerate() {
            assert_eq!(i == j, a.kind() == b.kind());
        }
    }
}

#[test]
fn human_error_for_bare_repository() {
    assert_eq!(
        AppError::BareRepository.format_human(),
        "error: Bare Git repositories are not supported"
    );
}

#[test]
fn json_error_uses_short_escapes_and_lower_case_hex() {
    let error = AppError::OutputParsingFailure {
        message: "\u{8}\u{c}\r\u{1f}\u{7f}/".to_owned(),
    };

    assert_eq!(
        error.format_json(),
        "{\"ok\":false,\"error\":{\"kind\":\"output_parsing_failure\",\"message\":\
         \"Could not parse bazel-diff output: \\b\\f\\r\\u001f\u{7f}/\"}}"
    );
}
