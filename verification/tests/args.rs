use bazel_diff_targets::args::parse_non_empty_trimmed;

#[test]
fn trims_target_type_values() {
    assert_eq!(parse_non_empty_trimmed(" java_library "), Ok("java_library".to_owned()));
}

#[test]
fn target_type_without_surrounding_space_is_kept() {
    assert_eq!(parse_non_empty_trimmed("rust_binary"), Ok("rust_binary".to_owned()));
}

#[test]
fn blank_target_type_is_rejected() {
    assert_eq!(
        parse_non_empty_trimmed("   "),
        Err("target type must not be empty".to_owned())
    );
    assert_eq!(
        parse_non_empty_trimmed(""),
        Err("target type must not be empty".to_owned())
    );
}

#[test]
fn unicode_white_space_is_trimmed_too() {
    assert_eq!(
        parse_non_empty_trimmed("\u{3000}\tgo_test\u{a0}\n"),
        Ok("go_test".to_owned())
    );
    assert_eq!(
        parse_non_empty_trimmed("\u{2028}\u{205f}"),
        Err("target type must not be empty".to_owned())
    );
}

#[test]
fn inner_white_space_is_kept() {
    assert_eq!(parse_non_empty_trimmed("  a b  "), Ok("a b".to_owned()));
}

#[test]
fn accepted_target_type_is_accepted_again_unchanged() {
    let once = parse_non_empty_trimmed("\t java_library \n").unwrap();
    assert_eq!(parse_non_empty_trimmed(&once), Ok(once.clone()));
}

/// The `--target-type` option as the command line declares it: repeatable, each
/// value checked by the library's rule.
fn target_type_command() -> clap::Command {
    clap::Command::new("bazel-diff-targets").arg(
        clap::Arg::new("target_types")
            .long("target-type")
            .action(clap::ArgAction::Append)
            .value_parser(|value: &str| parse_non_empty_trimmed(value)),
    )
}

#[test]
fn parses_repeated_target_types() {
    let matches = target_type_command()
        .try_get_matches_from([
            "bazel-diff-targets",
            "--target-type",
            "java_library",
            "--target-type",
            "rust_binary",
        ])
        .expect("parse target types");

    let target_types: Vec<String> = matches
        .get_many::<String>("target_types")
        .expect("target types present")
        .cloned()
        .collect();
    assert_eq!(target_types, ["java_library", "rust_binary"]);
}

#[test]
fn rejects_empty_target_type_values() {
    let error = target_type_command()
        .try_get_matches_from(["bazel-diff-targets", "--target-type", "   "])
        .unwrap_err();

    assert_eq!(error.kind(), clap::error::ErrorKind::ValueValidation);
}
