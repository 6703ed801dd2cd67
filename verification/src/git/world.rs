//! The outside actions that the Git sessions ask for, their answers, and the
//! model of the world that gives the answers.
use std::path::PathBuf;
use vstd::prelude::*;

use crate::error::AppError;
use crate::error::ErrorValue;
use crate::text::texts;

verus! {

/// `git <args>`, run in `dir`.
#[derive(Debug)]
pub struct GitCommand {
    pub dir: PathBuf,
    pub args: Vec<String>,
}

/// The value of a [`GitCommand`].
pub ghost struct GitCommandValue {
    pub dir: PathBuf,
    pub args: Seq<Seq<char>>,
}

impl View for GitCommand {
    type V = GitCommandValue;

    open spec fn view(&self) -> GitCommandValue {
        GitCommandValue { dir: self.dir, args: texts(self.args@) }
    }
}

/// What a finished `git` process left: whether it exited successfully, and
/// its standard output and standard error.
#[derive(Debug)]
pub struct GitOutput {
    pub success: bool,
    pub stdout: Vec<u8>,
    pub stderr: Vec<u8>,
}

/// The value of a [`GitOutput`].
pub ghost struct GitOutputValue {
    pub success: bool,
    pub stdout: Seq<u8>,
    pub stderr: Seq<u8>,
}

impl View for GitOutput {
    type V = GitOutputValue;

    open spec fn view(&self) -> GitOutputValue {
        GitOutputValue { success: self.success, stdout: self.stdout@, stderr: self.stderr@ }
    }
}

/// The answer to a `git` command: its output, or the text of the error that
/// kept it from starting.
pub type GitReply = Result<GitOutput, String>;

/// The value of a [`GitReply`].
pub open spec fn git_reply_value(r: GitReply) -> Result<GitOutputValue, Seq<char>> {
    match r {
        Ok(o) => Ok(o@),
        Err(e) => Err(e@),
    }
}

/// Which side of the comparison a temporary directory is for.
#[derive(Debug, Clone, Copy, PartialEq, Eq)]
pub enum Side {
    Base,
    Head,
}

/// An outside action.
#[derive(Debug)]
pub enum Request {
    /// Run `git`.
    Git(GitCommand),
    /// Create a fresh temporary directory whose name starts with `prefix`, and
    /// keep it.
    CreateTempDir { prefix: String, side: Side },
    /// Remove a directory and all it holds.
    RemoveDirAll { path: PathBuf },
}

/// The value of a [`Request`].
pub ghost enum RequestValue {
    Git(GitCommandValue),
    CreateTempDir { prefix: Seq<char>, side: Side },
    RemoveDirAll { path: PathBuf },
}

impl View for Request {
    type V = RequestValue;

    open spec fn view(&self) -> RequestValue {
        match self {
            Request::Git(c) => RequestValue::Git(c@),
            Request::CreateTempDir { prefix, side } => RequestValue::CreateTempDir {
                prefix: prefix@,
                side: *side,
            },
            Request::RemoveDirAll { path } => RequestValue::RemoveDirAll { path: *path },
        }
    }
}

/// The answer to a [`Request`]; each kind of request has its kind of answer,
/// errors being given as their text.
#[derive(Debug)]
pub enum Reply {
    Git(GitReply),
    TempDir(Result<PathBuf, String>),
    Removed(Result<(), String>),
}

/// The value of a [`Reply`].
pub ghost enum ReplyValue {
    Git(Result<GitOutputValue, Seq<char>>),
    TempDir(Result<PathBuf, Seq<char>>),
    Removed(Result<(), Seq<char>>),
}

impl View for Reply {
    type V = ReplyValue;

    open spec fn view(&self) -> ReplyValue {
        match self {
            Reply::Git(r) => ReplyValue::Git(git_reply_value(*r)),
            Reply::TempDir(r) => ReplyValue::TempDir(
                match r {
                    Ok(p) => Ok(*p),
                    Err(e) => Err(e@),
                },
            ),
            Reply::Removed(r) => ReplyValue::Removed(
                match r {
                    Ok(()) => Ok(()),
                    Err(e) => Err(e@),
                },
            ),
        }
    }
}

/// The answer is of the kind that the request asks for.
pub open spec fn fits(q: RequestValue, r: Reply) -> bool {
    match q {
        RequestValue::Git(_) => r is Git,
        RequestValue::CreateTempDir { .. } => r is TempDir,
        RequestValue::RemoveDirAll { .. } => r is Removed,
    }
}

/// What a session hands back: the next outside action it needs, or its result.
#[derive(Debug)]
pub enum Step<T> {
    Request(Request),
    Done(Result<T, AppError>),
}

/// The value of a result whose success value is its own value.
pub open spec fn plain_result<T>(r: Result<T, AppError>) -> Result<T, ErrorValue> {
    match r {
        Ok(v) => Ok(v),
        Err(e) => Err(e@),
    }
}

/// The value of a result whose success value has a view.
pub open spec fn viewed_result<T: View>(r: Result<T, AppError>) -> Result<T::V, ErrorValue> {
    match r {
        Ok(v) => Ok(v@),
        Err(e) => Err(e@),
    }
}

/// The world outside the library: how `git` answers each command, how
/// temporary directories are created, and how directories are removed. Git's answers are taken as a function of the command,
/// which holds while the sessions only read the repository or touch distinct
/// paths.
pub ghost struct World {
    pub git: spec_fn(GitCommandValue) -> Result<GitOutputValue, Seq<char>>,
    pub temp_dir: spec_fn(Seq<char>, Side) -> Result<PathBuf, Seq<char>>,
    pub remove_dir: spec_fn(PathBuf) -> Result<(), Seq<char>>,
}

/// `w` gives `r` as its answer to `q`.
pub open spec fn answers(w: World, q: RequestValue, r: ReplyValue) -> bool {
    match (q, r) {
        (RequestValue::Git(c), ReplyValue::Git(o)) => (w.git)(c) == o,
        (RequestValue::CreateTempDir { prefix, side }, ReplyValue::TempDir(t)) => (w.temp_dir)(
            prefix,
            side,
        ) == t,
        (RequestValue::RemoveDirAll { path }, ReplyValue::Removed(x)) => (w.remove_dir)(path)
            == x,
        _ => false,
    }
}

} // verus!
