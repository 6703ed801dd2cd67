//! The application's errors: stable kinds, hints, and their human and JSON
//! renderings.
use vstd::prelude::*;
use vstd::string::StringExecFns;

use crate::json::json_string;
use crate::json::json_string_literal;
use crate::text::decimal;
use crate::text::decimal_text;
use crate::text::texts;

verus! {

/// An expected failure of the tool.
#[derive(Debug)]
pub enum AppError {
    MissingJava { attempted: String },
    MissingBazel { attempted: String },
    InvalidRef { reference: String },
    BaseRefInferenceFailure,
    DirtyWorkingTree { entries: Vec<String>, remaining: usize },
    ShallowRepository,
    BareRepository,
    WorkspaceValidationFailure { message: String },
    CheckoutFailure { message: String },
    BazelDiffExecutionFailure { message: String },
    OutputParsingFailure { message: String },
}

/// The mathematical value of an [`AppError`]: the same variants, with texts as
/// character sequences.
pub enum ErrorValue {
    MissingJava { attempted: Seq<char> },
    MissingBazel { attempted: Seq<char> },
    InvalidRef { reference: Seq<char> },
    BaseRefInferenceFailure,
    DirtyWorkingTree { entries: Seq<Seq<char>>, remaining: nat },
    ShallowRepository,
    BareRepository,
    WorkspaceValidationFailure { message: Seq<char> },
    CheckoutFailure { message: Seq<char> },
    BazelDiffExecutionFailure { message: Seq<char> },
    OutputParsingFailure { message: Seq<char> },
}

impl View for AppError {
    type V = ErrorValue;

    open spec fn view(&self) -> ErrorValue {
        match self {
            AppError::MissingJava { attempted } => ErrorValue::MissingJava { attempted: attempted@ },
            AppError::MissingBazel { attempted } => ErrorValue::MissingBazel {
                attempted: attempted@,
            },
            AppError::InvalidRef { reference } => ErrorValue::InvalidRef { reference: reference@ },
            AppError::BaseRefInferenceFailure => ErrorValue::BaseRefInferenceFailure,
            AppError::DirtyWorkingTree { entries, remaining } => ErrorValue::DirtyWorkingTree {
                entries: texts(entries@),
                remaining: *remaining as nat,
            },
            AppError::ShallowRepository => ErrorValue::ShallowRepository,
            AppError::BareRepository => ErrorValue::BareRepository,
            AppError::WorkspaceValidationFailure { message } =>
                ErrorValue::WorkspaceValidationFailure { message: message@ },
            AppError::CheckoutFailure { message } => ErrorValue::CheckoutFailure {
                message: message@,
            },
            AppError::BazelDiffExecutionFailure { message } =>
                ErrorValue::BazelDiffExecutionFailure { message: message@ },
            AppError::OutputParsingFailure { message } => ErrorValue::OutputParsingFailure {
                message: message@,
            },
        }
    }
}

/// The stable machine-readable kind of an error.
pub open spec fn error_kind(e: ErrorValue) -> Seq<char> {
    match e {
        ErrorValue::MissingJava { .. } => "missing_java"@,
        ErrorValue::MissingBazel { .. } => "missing_bazel"@,
        ErrorValue::InvalidRef { .. } => "invalid_ref"@,
        ErrorValue::BaseRefInferenceFailure => "base_ref_inference_failure"@,
        ErrorValue::DirtyWorkingTree { .. } => "dirty_working_tree"@,
        ErrorValue::ShallowRepository => "shallow_repository"@,
        ErrorValue::BareRepository => "bare_repository"@,
        ErrorValue::WorkspaceValidationFailure { .. } => "workspace_validation_failure"@,
        ErrorValue::CheckoutFailure { .. } => "checkout_failure"@,
        ErrorValue::BazelDiffExecutionFailure { .. } => "bazel_diff_execution_failure"@,
        ErrorValue::OutputParsingFailure { .. } => "output_parsing_failure"@,
    }
}

/// The position of an error's variant in the enumeration.
pub open spec fn variant(e: ErrorValue) -> nat {
    match e {
        ErrorValue::MissingJava { .. } => 0,
        ErrorValue::MissingBazel { .. } => 1,
        ErrorValue::InvalidRef { .. } => 2,
        ErrorValue::BaseRefInferenceFailure => 3,
        ErrorValue::DirtyWorkingTree { .. } => 4,
        ErrorValue::ShallowRepository => 5,
        ErrorValue::BareRepository => 6,
        ErrorValue::WorkspaceValidationFailure { .. } => 7,
        ErrorValue::CheckoutFailure { .. } => 8,
        ErrorValue::BazelDiffExecutionFailure { .. } => 9,
        ErrorValue::OutputParsingFailure { .. } => 10,
    }
}

/// Error kinds are stable and tell errors apart: two errors have the same kind
/// exactly when they are the same variant, whatever their fields hold.
pub proof fn kind_law(a: ErrorValue, b: ErrorValue)
    ensures
        (error_kind(a) == error_kind(b)) <==> (variant(a) == variant(b)),
{
    reveal_strlit("missing_java");
    reveal_strlit("missing_bazel");
    reveal_strlit("invalid_ref");
    reveal_strlit("base_ref_inference_failure");
    reveal_strlit("dirty_working_tree");
    reveal_strlit("shallow_repository");
    reveal_strlit("bare_repository");
    reveal_strlit("workspace_validation_failure");
    reveal_strlit("checkout_failure");
    reveal_strlit("bazel_diff_execution_failure");
    reveal_strlit("output_parsing_failure");
    if variant(a) != variant(b) {
        assert(error_kind(a).len() != error_kind(b).len() || error_kind(a)[0] != error_kind(b)[0]);
    }
}

/// The advice shown with an error, for the errors that the user can act on.
pub open spec fn error_hint(e: ErrorValue) -> Option<Seq<char>> {
    match e {
        ErrorValue::MissingJava { .. } => Some(
            "Install Java, set JAVA_HOME, or pass --java-path /path/to/java."@,
        ),
        ErrorValue::MissingBazel { .. } => Some(
            "Install Bazel or Bazelisk, set BAZEL, or pass --bazel-path /path/to/bazel."@,
        ),
        ErrorValue::BaseRefInferenceFailure => Some("Pass --base-ref explicitly."@),
        ErrorValue::DirtyWorkingTree { .. } => Some(
            "Commit, stash, or remove local changes before running bazel-diff-targets."@,
        ),
        ErrorValue::ShallowRepository => Some(
            "Use a non-shallow clone before running bazel-diff-targets."@,
        ),
        _ => None,
    }
}

/// The one-line human-readable message of an error.
pub open spec fn error_message(e: ErrorValue) -> Seq<char> {
    match e {
        ErrorValue::MissingJava { attempted } => "Java executable not found: "@ + attempted,
        ErrorValue::MissingBazel { attempted } => "Bazel executable not found: "@ + attempted,
        ErrorValue::InvalidRef { reference } => "Invalid Git ref: "@ + reference,
        ErrorValue::BaseRefInferenceFailure => "Could not infer base ref"@,
        ErrorValue::DirtyWorkingTree { .. } => "Working tree is dirty"@,
        ErrorValue::ShallowRepository => "Shallow Git repositories are not supported"@,
        ErrorValue::BareRepository => "Bare Git repositories are not supported"@,
        ErrorValue::WorkspaceValidationFailure { message } => "Invalid workspace: "@ + message,
        ErrorValue::CheckoutFailure { message } => "Git checkout failed: "@ + message,
        ErrorValue::BazelDiffExecutionFailure { message } => "bazel-diff failed: "@ + message,
        ErrorValue::OutputParsingFailure { message } => "Could not parse bazel-diff output: "@
            + message,
    }
}

/// One indented line per dirty entry, each preceded by a line break.
pub open spec fn entry_lines(entries: Seq<Seq<char>>) -> Seq<char>
    decreases entries.len(),
{
    if entries.len() == 0 {
        seq![]
    } else {
        entry_lines(entries.drop_last()) + "\n"@ + "  "@ + entries.last()
    }
}

/// The lines that list the entries of a dirty working tree, and how many more
/// there are, when there are more.
pub open spec fn dirty_details(e: ErrorValue) -> Seq<char> {
    match e {
        ErrorValue::DirtyWorkingTree { entries, remaining } => entry_lines(entries) + if remaining
            > 0 {
            "\n"@ + "  and "@ + decimal(remaining) + " more"@
        } else {
            seq![]
        },
        _ => seq![],
    }
}

/// The hint line of an error, when it has a hint.
pub open spec fn hint_line(e: ErrorValue) -> Seq<char> {
    match error_hint(e) {
        Some(h) => "\n"@ + "hint: "@ + h,
        None => seq![],
    }
}

/// The full human-readable rendering of an error, for stderr.
pub open spec fn human_text(e: ErrorValue) -> Seq<char> {
    "error: "@ + error_message(e) + hint_line(e) + dirty_details(e)
}

/// The JSON rendering of an error: `ok`, then the error's `kind`, `message` and,
/// when there is one, `hint`.
pub open spec fn json_text(e: ErrorValue) -> Seq<char> {
    "{\"ok\":false,\"error\":{\"kind\":"@ + json_string(error_kind(e)) + ",\"message\":"@
        + json_string(error_message(e)) + match error_hint(e) {
        Some(h) => ",\"hint\":"@ + json_string(h),
        None => seq![],
    } + "}}"@
}

/// The view of an optional static text.
pub open spec fn opt_text(o: Option<&str>) -> Option<Seq<char>> {
    match o {
        Some(s) => Some(s@),
        None => None,
    }
}

impl AppError {
    /// The stable kind of this error.
    pub fn kind(&self) -> (r: &'static str)
        ensures
            r@ == error_kind(self@),
    {
        match self {
            AppError::MissingJava { .. } => "missing_java",
            AppError::MissingBazel { .. } => "missing_bazel",
            AppError::InvalidRef { .. } => "invalid_ref",
            AppError::BaseRefInferenceFailure => "base_ref_inference_failure",
            AppError::DirtyWorkingTree { .. } => "dirty_working_tree",
            AppError::ShallowRepository => "shallow_repository",
            AppError::BareRepository => "bare_repository",
            AppError::WorkspaceValidationFailure { .. } => "workspace_validation_failure",
            AppError::CheckoutFailure { .. } => "checkout_failure",
            AppError::BazelDiffExecutionFailure { .. } => "bazel_diff_execution_failure",
            AppError::OutputParsingFailure { .. } => "output_parsing_failure",
        }
    }

    /// The advice for this error, if the user can act on it.
    pub fn hint(&self) -> (r: Option<&'static str>)
        ensures
            opt_text(r) == error_hint(self@),
    {
        match self {
            AppError::MissingJava { .. } => Some(
                "Install Java, set JAVA_HOME, or pass --java-path /path/to/java.",
            ),
            AppError::MissingBazel { .. } => Some(
                "Install Bazel or Bazelisk, set BAZEL, or pass --bazel-path /path/to/bazel.",
            ),
            AppError::BaseRefInferenceFailure => Some("Pass --base-ref explicitly."),
            AppError::DirtyWorkingTree { .. } => Some(
                "Commit, stash, or remove local changes before running bazel-diff-targets.",
            ),
            AppError::ShallowRepository => Some(
                "Use a non-shallow clone before running bazel-diff-targets.",
            ),
            _ => None,
        }
    }

    /// The one-line message of this error (what its `Display` would show).
    pub fn message(&self) -> (r: String)
        ensures
            r@ == error_message(self@),
    {
        match self {
            AppError::MissingJava { attempted } => {
                String::from_str("Java executable not found: ").concat(attempted.as_str())
            },
            AppError::MissingBazel { attempted } => {
                String::from_str("Bazel executable not found: ").concat(attempted.as_str())
            },
            AppError::InvalidRef { reference } => {
                String::from_str("Invalid Git ref: ").concat(reference.as_str())
            },
            AppError::BaseRefInferenceFailure => String::from_str("Could not infer base ref"),
            AppError::DirtyWorkingTree { .. } => String::from_str("Working tree is dirty"),
            AppError::ShallowRepository => String::from_str(
                "Shallow Git repositories are not supported",
            ),
            AppError::BareRepository => String::from_str(
                "Bare Git repositories are not supported",
            ),
            AppError::WorkspaceValidationFailure { message } => {
                String::from_str("Invalid workspace: ").concat(message.as_str())
            },
            AppError::CheckoutFailure { message } => {
                String::from_str("Git checkout failed: ").concat(message.as_str())
            },
            AppError::BazelDiffExecutionFailure { message } => {
                String::from_str("bazel-diff failed: ").concat(message.as_str())
            },
            AppError::OutputParsingFailure { message } => {
                String::from_str("Could not parse bazel-diff output: ").concat(message.as_str())
            },
        }
    }

    /// The human-readable rendering: the message, the hint on its own line
    /// when there is one, and for a dirty working tree the listed entries and
    /// how many more there are.
    pub fn format_human(&self) -> (r: String)
        ensures
            r@ == human_text(self@),
    {
        let mut output = String::from_str("error: ");
        output.append(self.message().as_str());
        match self.hint() {
            Some(hint) => {
                output.append("\n");
                output.append("hint: ");
                output.append(hint);
            },
            None => {},
        }
        let ghost head = output@;
        assert(head =~= "error: "@ + error_message(self@) + hint_line(self@));
        match self {
            AppError::DirtyWorkingTree { entries, remaining } => {
                let n = entries.len();
                let mut i: usize = 0;
                while i < n
                    invariant
                        n == entries.len(),
                        0 <= i <= n,
                        output@ =~= head + entry_lines(texts(entries@).take(i as int)),
                    decreases n - i,
                {
                    output.append("\n");
                    output.append("  ");
                    output.append(entries[i].as_str());
                    assert(texts(entries@).take(i + 1).drop_last() =~= texts(entries@).take(
                        i as int,
                    ));
                    i = i + 1;
                }
                assert(texts(entries@).take(n as int) =~= texts(entries@));
                if *remaining > 0 {
                    output.append("\n");
                    output.append("  and ");
                    output.append(decimal_text(*remaining).as_str());
                    output.append(" more");
                }
                assert(output@ =~= head + dirty_details(self@));
            },
            _ => {
                assert(output@ =~= head + dirty_details(self@));
            },
        }
        output
    }

    /// The JSON rendering, for stderr in `--json` mode.
    pub fn format_json(&self) -> (r: String)
        ensures
            r@ == json_text(self@),
    {
        let message = self.message();
        let mut output = String::from_str("{\"ok\":false,\"error\":{\"kind\":");
        output.append(json_string_literal(self.kind()).as_str());
        output.append(",\"message\":");
        output.append(json_string_literal(message.as_str()).as_str());
        match self.hint() {
            Some(hint) => {
                output.append(",\"hint\":");
                output.append(json_string_literal(hint).as_str());
            },
            None => {},
        }
        output.append("}}");
        output
    }
}

} // verus!
