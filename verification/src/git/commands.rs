//! The `git` commands the tool runs, and how their answers are read.
use std::path::PathBuf;
use vstd::prelude::*;
use vstd::string::StringExecFns;
use vstd::utf8::decode_utf8;
use vstd::utf8::valid_utf8;

use crate::error::AppError;
use crate::error::ErrorValue;
use crate::git::world::GitCommand;
use crate::git::world::GitCommandValue;
use crate::git::world::GitOutputValue;
use crate::git::world::GitReply;
use crate::git::world::git_reply_value;
use crate::path::copy_path;
use crate::text::join_words;
use crate::text::joined;
use crate::text::lossy_utf8;
use crate::text::texts;
use crate::text::trim;
use crate::text::trimmed;
use crate::text::utf8_error_text;
use crate::text::utf8_lossy;
use crate::text::utf8_string;

verus! {

/// `git <args>` in `dir`.
pub open spec fn command(dir: PathBuf, args: Seq<Seq<char>>) -> GitCommandValue {
    GitCommandValue { dir, args }
}

/// Asks for the top-level directory of the working tree.
pub open spec fn show_toplevel_args() -> Seq<Seq<char>> {
    seq!["rev-parse"@, "--show-toplevel"@]
}

/// Asks for the Git directory (used where there is no working tree).
pub open spec fn git_dir_args() -> Seq<Seq<char>> {
    seq!["rev-parse"@, "--git-dir"@]
}

/// Asks for the commit that `HEAD` is at.
pub open spec fn head_sha_args() -> Seq<Seq<char>> {
    seq!["rev-parse"@, "HEAD"@]
}

/// Asks for the branch that `HEAD` is on; fails when `HEAD` is detached.
pub open spec fn branch_args() -> Seq<Seq<char>> {
    seq!["symbolic-ref"@, "--quiet"@, "--short"@, "HEAD"@]
}

/// Asks whether the repository is bare.
pub open spec fn bare_args() -> Seq<Seq<char>> {
    seq!["rev-parse"@, "--is-bare-repository"@]
}

/// Asks whether the repository is shallow.
pub open spec fn shallow_args() -> Seq<Seq<char>> {
    seq!["rev-parse"@, "--is-shallow-repository"@]
}

/// Resolves `reference` to the commit it names (and only to a commit).
pub open spec fn resolve_args(reference: Seq<char>) -> Seq<Seq<char>> {
    seq!["rev-parse"@, "--verify"@, reference + "^{commit}"@]
}

/// Asks for a best common ancestor of two commits.
pub open spec fn merge_base_args(left: Seq<char>, right: Seq<char>) -> Seq<Seq<char>> {
    seq!["merge-base"@, left, right]
}

/// Lists changed and untracked files (ignored files are not listed).
pub open spec fn status_args() -> Seq<Seq<char>> {
    seq!["status"@, "--porcelain=v1"@, "--untracked-files=all"@]
}

/// Removes the worktree at `path`, discarding its changes.
pub open spec fn remove_worktree_args(path: Seq<char>) -> Seq<Seq<char>> {
    seq!["worktree"@, "remove"@, "--force"@, path]
}

/// Adds a worktree at `path` with a detached `HEAD` at `sha`.
pub open spec fn add_worktree_args(path: Seq<char>, sha: Seq<char>) -> Seq<Seq<char>> {
    seq!["worktree"@, "add"@, "--detach"@, path, sha]
}

/// The error for a `git` that could not be started.
pub open spec fn spawn_failure(e: Seq<char>) -> ErrorValue {
    ErrorValue::CheckoutFailure { message: "failed to run git: "@ + e }
}

/// The error for a `git` command that failed: its words and, when it said
/// anything, its trimmed standard error.
pub open spec fn command_failure(args: Seq<Seq<char>>, stderr: Seq<u8>) -> ErrorValue {
    let said = trimmed(lossy_utf8(stderr));
    ErrorValue::CheckoutFailure {
        message: if said.len() == 0 {
            "git "@ + joined(args, " "@) + " failed"@
        } else {
            "git "@ + joined(args, " "@) + " failed: "@ + said
        },
    }
}

/// The trimmed standard output of a command, which must be UTF-8.
pub open spec fn stdout_outcome(stdout: Seq<u8>) -> Result<Seq<char>, ErrorValue> {
    if valid_utf8(stdout) {
        Ok(trimmed(decode_utf8(stdout)))
    } else {
        Err(
            ErrorValue::OutputParsingFailure {
                message: "git output was not valid UTF-8: "@ + utf8_error_text(stdout),
            },
        )
    }
}

/// What a command that must succeed gives: its trimmed output.
pub open spec fn text_outcome(
    args: Seq<Seq<char>>,
    reply: Result<GitOutputValue, Seq<char>>,
) -> Result<Seq<char>, ErrorValue> {
    match reply {
        Err(e) => Err(spawn_failure(e)),
        Ok(o) => if o.success {
            stdout_outcome(o.stdout)
        } else {
            Err(command_failure(args, o.stderr))
        },
    }
}

/// The answer to a yes/no question: whether the output is `true`.
pub open spec fn flag_outcome(
    args: Seq<Seq<char>>,
    reply: Result<GitOutputValue, Seq<char>>,
) -> Result<bool, ErrorValue> {
    match text_outcome(args, reply) {
        Ok(t) => Ok(t == "true"@),
        Err(e) => Err(e),
    }
}

/// The working tree is dirty when `git status` lists anything.
pub open spec fn dirty_outcome(reply: Result<GitOutputValue, Seq<char>>) -> Result<
    bool,
    ErrorValue,
> {
    match text_outcome(status_args(), reply) {
        Ok(t) => Ok(t.len() > 0),
        Err(e) => Err(e),
    }
}

/// The outcome of a command whose output is not used.
pub open spec fn unit_outcome(
    args: Seq<Seq<char>>,
    reply: Result<GitOutputValue, Seq<char>>,
) -> Result<(), ErrorValue> {
    match text_outcome(args, reply) {
        Ok(_) => Ok(()),
        Err(e) => Err(e),
    }
}

/// The current branch: its name when the command succeeds, none when it fails
/// (a detached `HEAD`).
pub open spec fn branch_outcome(reply: Result<GitOutputValue, Seq<char>>) -> Result<
    Option<Seq<char>>,
    ErrorValue,
> {
    match reply {
        Err(e) => Err(spawn_failure(e)),
        Ok(o) => if o.success {
            match stdout_outcome(o.stdout) {
                Ok(t) => Ok(Some(t)),
                Err(e) => Err(e),
            }
        } else {
            Ok(None)
        },
    }
}

/// The commit a ref resolves to; a failing command means the ref is invalid.
pub open spec fn resolve_outcome(reference: Seq<char>, reply: Result<GitOutputValue, Seq<char>>) -> Result<
    Seq<char>,
    ErrorValue,
> {
    match reply {
        Err(e) => Err(spawn_failure(e)),
        Ok(o) => if o.success {
            stdout_outcome(o.stdout)
        } else {
            Err(ErrorValue::InvalidRef { reference })
        },
    }
}

/// The merge base, or none when the command fails.
pub open spec fn merge_base_outcome(reply: Result<GitOutputValue, Seq<char>>) -> Result<
    Option<Seq<char>>,
    ErrorValue,
> {
    match reply {
        Err(e) => Err(spawn_failure(e)),
        Ok(o) => if o.success {
            match stdout_outcome(o.stdout) {
                Ok(t) => Ok(Some(t)),
                Err(e) => Err(e),
            }
        } else {
            Ok(None)
        },
    }
}

/// The value of a text result.
pub open spec fn text_result(r: Result<String, AppError>) -> Result<Seq<char>, ErrorValue> {
    match r {
        Ok(s) => Ok(s@),
        Err(e) => Err(e@),
    }
}

/// The value of an optional text result.
pub open spec fn opt_text_result(r: Result<Option<String>, AppError>) -> Result<
    Option<Seq<char>>,
    ErrorValue,
> {
    match r {
        Ok(Some(s)) => Ok(Some(s@)),
        Ok(None) => Ok(None),
        Err(e) => Err(e@),
    }
}

pub(crate) fn words2(a: &str, b: &str) -> (r: Vec<String>)
    ensures
        texts(r@) == seq![a@, b@],
{
    let r = vec![String::from_str(a), String::from_str(b)];
    assert(texts(r@) =~= seq![a@, b@]);
    r
}

pub(crate) fn words3(a: &str, b: &str, c: &str) -> (r: Vec<String>)
    ensures
        texts(r@) == seq![a@, b@, c@],
{
    let r = vec![String::from_str(a), String::from_str(b), String::from_str(c)];
    assert(texts(r@) =~= seq![a@, b@, c@]);
    r
}

pub(crate) fn words4(a: &str, b: &str, c: &str, d: &str) -> (r: Vec<String>)
    ensures
        texts(r@) == seq![a@, b@, c@, d@],
{
    let r = vec![String::from_str(a), String::from_str(b), String::from_str(c), String::from_str(d)];
    assert(texts(r@) =~= seq![a@, b@, c@, d@]);
    r
}

pub(crate) fn words5(a: &str, b: &str, c: &str, d: &str, e: &str) -> (r: Vec<String>)
    ensures
        texts(r@) == seq![a@, b@, c@, d@, e@],
{
    let r = vec![
        String::from_str(a),
        String::from_str(b),
        String::from_str(c),
        String::from_str(d),
        String::from_str(e),
    ];
    assert(texts(r@) =~= seq![a@, b@, c@, d@, e@]);
    r
}

fn git(dir: &PathBuf, args: Vec<String>) -> (r: GitCommand)
    ensures
        r@ == command(*dir, texts(args@)),
{
    GitCommand { dir: copy_path(dir), args }
}

/// `git rev-parse --show-toplevel` in `dir`.
pub fn show_toplevel(dir: &PathBuf) -> (r: GitCommand)
    ensures
        r@ == command(*dir, show_toplevel_args()),
{
    git(dir, words2("rev-parse", "--show-toplevel"))
}

/// `git rev-parse --git-dir` in `dir`.
pub fn git_dir(dir: &PathBuf) -> (r: GitCommand)
    ensures
        r@ == command(*dir, git_dir_args()),
{
    git(dir, words2("rev-parse", "--git-dir"))
}

/// `git rev-parse HEAD` in `dir`.
pub fn head_sha(dir: &PathBuf) -> (r: GitCommand)
    ensures
        r@ == command(*dir, head_sha_args()),
{
    git(dir, words2("rev-parse", "HEAD"))
}

/// `git symbolic-ref --quiet --short HEAD` in `dir`.
pub fn current_branch(dir: &PathBuf) -> (r: GitCommand)
    ensures
        r@ == command(*dir, branch_args()),
{
    git(dir, words4("symbolic-ref", "--quiet", "--short", "HEAD"))
}

/// `git rev-parse --is-bare-repository` in `dir`.
pub fn is_bare(dir: &PathBuf) -> (r: GitCommand)
    ensures
        r@ == command(*dir, bare_args()),
{
    git(dir, words2("rev-parse", "--is-bare-repository"))
}

/// `git rev-parse --is-shallow-repository` in `dir`.
pub fn is_shallow(dir: &PathBuf) -> (r: GitCommand)
    ensures
        r@ == command(*dir, shallow_args()),
{
    git(dir, words2("rev-parse", "--is-shallow-repository"))
}

/// `git rev-parse --verify <reference>^{commit}` in `dir`.
pub fn resolve(dir: &PathBuf, reference: &str) -> (r: GitCommand)
    ensures
        r@ == command(*dir, resolve_args(reference@)),
{
    let commit_reference = String::from_str(reference).concat("^{commit}");
    git(dir, words3("rev-parse", "--verify", commit_reference.as_str()))
}

/// `git merge-base <left> <right>` in `dir`.
pub fn merge_base(dir: &PathBuf, left: &str, right: &str) -> (r: GitCommand)
    ensures
        r@ == command(*dir, merge_base_args(left@, right@)),
{
    git(dir, words3("merge-base", left, right))
}

/// `git status --porcelain=v1 --untracked-files=all` in `dir`.
pub fn status(dir: &PathBuf) -> (r: GitCommand)
    ensures
        r@ == command(*dir, status_args()),
{
    git(dir, words3("status", "--porcelain=v1", "--untracked-files=all"))
}

/// `git worktree remove --force <path>` in `dir`.
pub fn remove_worktree(dir: &PathBuf, path: &str) -> (r: GitCommand)
    ensures
        r@ == command(*dir, remove_worktree_args(path@)),
{
    git(dir, words4("worktree", "remove", "--force", path))
}

/// `git worktree add --detach <path> <sha>` in `dir`.
pub fn add_worktree(dir: &PathBuf, path: &str, sha: &str) -> (r: GitCommand)
    ensures
        r@ == command(*dir, add_worktree_args(path@, sha@)),
{
    git(dir, words5("worktree", "add", "--detach", path, sha))
}

/// The error for a `git` that could not be started.
pub fn spawn_error(e: String) -> (r: AppError)
    ensures
        r@ == spawn_failure(e@),
{
    AppError::CheckoutFailure { message: String::from_str("failed to run git: ").concat(e.as_str()) }
}

/// The error for a `git` command that failed.
pub fn failure_error(args: &Vec<String>, stderr: &Vec<u8>) -> (r: AppError)
    ensures
        r@ == command_failure(texts(args@), stderr@),
{
    let lossy = utf8_lossy(stderr.as_slice());
    let said = trim(lossy.as_str());
    let mut message = String::from_str("git ");
    message.append(join_words(args, " ").as_str());
    if said.is_empty() {
        message.append(" failed");
    } else {
        message.append(" failed: ");
        message.append(said);
    }
    AppError::CheckoutFailure { message }
}

/// The trimmed standard output, which must be UTF-8.
pub fn stdout_text(stdout: Vec<u8>) -> (r: Result<String, AppError>)
    ensures
        text_result(r) == stdout_outcome(stdout@),
{
    match utf8_string(stdout) {
        Ok(text) => Ok(String::from_str(trim(text.as_str()))),
        Err(error) => Err(
            AppError::OutputParsingFailure {
                message: String::from_str("git output was not valid UTF-8: ").concat(
                    error.as_str(),
                ),
            },
        ),
    }
}

/// Reads the answer to a command that must succeed: its trimmed output.
pub fn text_reply(args: &Vec<String>, reply: GitReply) -> (r: Result<String, AppError>)
    ensures
        text_result(r) == text_outcome(texts(args@), git_reply_value(reply)),
{
    match reply {
        Err(e) => Err(spawn_error(e)),
        Ok(output) => {
            if output.success {
                stdout_text(output.stdout)
            } else {
                Err(failure_error(args, &output.stderr))
            }
        },
    }
}

/// Reads the answer to `git symbolic-ref`: the branch, if any.
pub fn branch_reply(reply: GitReply) -> (r: Result<Option<String>, AppError>)
    ensures
        opt_text_result(r) == branch_outcome(git_reply_value(reply)),
{
    match reply {
        Err(e) => Err(spawn_error(e)),
        Ok(output) => {
            if output.success {
                match stdout_text(output.stdout) {
                    Ok(t) => Ok(Some(t)),
                    Err(e) => Err(e),
                }
            } else {
                Ok(None)
            }
        },
    }
}

/// Reads the answer to `git rev-parse --verify`: the commit, or an invalid ref.
pub fn resolve_reply(reference: &str, reply: GitReply) -> (r: Result<String, AppError>)
    ensures
        text_result(r) == resolve_outcome(reference@, git_reply_value(reply)),
{
    match reply {
        Err(e) => Err(spawn_error(e)),
        Ok(output) => {
            if output.success {
                stdout_text(output.stdout)
            } else {
                Err(AppError::InvalidRef { reference: String::from_str(reference) })
            }
        },
    }
}

/// Reads the answer to `git merge-base`: the commit, if there is one.
pub fn merge_base_reply(reply: GitReply) -> (r: Result<Option<String>, AppError>)
    ensures
        opt_text_result(r) == merge_base_outcome(git_reply_value(reply)),
{
    match reply {
        Err(e) => Err(spawn_error(e)),
        Ok(output) => {
            if output.success {
                match stdout_text(output.stdout) {
                    Ok(t) => Ok(Some(t)),
                    Err(e) => Err(e),
                }
            } else {
                Ok(None)
            }
        },
    }
}

/// Reads the answer to a yes/no question.
pub fn flag_reply(args: &Vec<String>, reply: GitReply) -> (r: Result<bool, AppError>)
    ensures
        match (r, flag_outcome(texts(args@), git_reply_value(reply))) {
            (Ok(a), Ok(b)) => a == b,
            (Err(a), Err(b)) => a@ == b,
            _ => false,
        },
{
    match text_reply(args, reply) {
        Ok(output) => {
            let t = String::from_str("true");
            proof {
                reveal_strlit("true");
            }
            Ok(output == t)
        },
        Err(e) => Err(e),
    }
}

/// Reads the answer to `git status`: whether it listed anything.
pub fn dirty_reply(args: &Vec<String>, reply: GitReply) -> (r: Result<bool, AppError>)
    requires
        texts(args@) == status_args(),
    ensures
        match (r, dirty_outcome(git_reply_value(reply))) {
            (Ok(a), Ok(b)) => a == b,
            (Err(a), Err(b)) => a@ == b,
            _ => false,
        },
{
    match text_reply(args, reply) {
        Ok(output) => Ok(!output.as_str().is_empty()),
        Err(e) => Err(e),
    }
}

/// Reads the answer to a command whose output is not used.
pub fn unit_reply(args: &Vec<String>, reply: GitReply) -> (r: Result<(), AppError>)
    ensures
        plain_unit(r) == unit_outcome(texts(args@), git_reply_value(reply)),
{
    match text_reply(args, reply) {
        Ok(_) => Ok(()),
        Err(e) => Err(e),
    }
}

/// The value of a result without a success value.
pub open spec fn plain_unit(r: Result<(), AppError>) -> Result<(), ErrorValue> {
    match r {
        Ok(()) => Ok(()),
        Err(e) => Err(e@),
    }
}

/// How the tool reads a `git` that ran, in terms of its exit status and bytes:
/// a command that must succeed gives its output decoded and trimmed; a yes/no
/// query is yes exactly when that output is `true`; `git status` reports a
/// dirty tree exactly when it lists anything at all, untracked (`??`) entries
/// included; `symbolic-ref` gives the branch it printed, and no branch only
/// when it fails; `rev-parse --verify` gives the commit it printed, and an
/// invalid ref only when it fails; `merge-base` gives the commit it printed,
/// and none only when it fails.
pub proof fn answer_law(args: Seq<Seq<char>>, reference: Seq<char>, o: GitOutputValue)
    ensures
        o.success && valid_utf8(o.stdout) ==> {
            let out = trimmed(decode_utf8(o.stdout));
            &&& text_outcome(args, Ok(o)) == Ok::<Seq<char>, ErrorValue>(out)
            &&& flag_outcome(args, Ok(o)) == Ok::<bool, ErrorValue>(out == "true"@)
            &&& dirty_outcome(Ok(o)) == Ok::<bool, ErrorValue>(out.len() > 0)
            &&& branch_outcome(Ok(o)) == Ok::<Option<Seq<char>>, ErrorValue>(Some(out))
            &&& resolve_outcome(reference, Ok(o)) == Ok::<Seq<char>, ErrorValue>(out)
            &&& merge_base_outcome(Ok(o)) == Ok::<Option<Seq<char>>, ErrorValue>(Some(out))
        },
        !o.success ==> {
            &&& branch_outcome(Ok(o)) == Ok::<Option<Seq<char>>, ErrorValue>(None)
            &&& resolve_outcome(reference, Ok(o)) == Err::<Seq<char>, ErrorValue>(
                ErrorValue::InvalidRef { reference },
            )
            &&& merge_base_outcome(Ok(o)) == Ok::<Option<Seq<char>>, ErrorValue>(None)
            &&& text_outcome(args, Ok(o)) is Err
        },
        o.success && valid_utf8(o.stdout) && trimmed(decode_utf8(o.stdout)).len() > 0 && trimmed(
            decode_utf8(o.stdout),
        )[0] == '?' ==> dirty_outcome(Ok(o)) == Ok::<bool, ErrorValue>(true),
{
}

/// A `git` that could not be started is a checkout failure that carries the
/// error's text, whatever was asked.
pub proof fn spawn_law(args: Seq<Seq<char>>, reference: Seq<char>, e: Seq<char>)
    ensures
        text_outcome(args, Err(e)) == Err::<Seq<char>, ErrorValue>(
            ErrorValue::CheckoutFailure { message: "failed to run git: "@ + e },
        ),
        branch_outcome(Err(e)) == Err::<Option<Seq<char>>, ErrorValue>(
            ErrorValue::CheckoutFailure { message: "failed to run git: "@ + e },
        ),
        resolve_outcome(reference, Err(e)) == Err::<Seq<char>, ErrorValue>(
            ErrorValue::CheckoutFailure { message: "failed to run git: "@ + e },
        ),
        merge_base_outcome(Err(e)) == Err::<Option<Seq<char>>, ErrorValue>(
            ErrorValue::CheckoutFailure { message: "failed to run git: "@ + e },
        ),
{
}

} // verus!
