//! Sessions that read the repository: finding it, checking that it is
//! supported, resolving refs, inferring the base ref, and checking whether the
//! working tree is clean.
//!
//! Each session is started by a method that returns the session and its first
//! [`Step`]; the caller performs each requested action and hands the answer to
//! `resume` until the session is done. The contracts state the result as a
//! function of the [`World`] that gave the answers.
use std::path::PathBuf;
use vstd::prelude::*;
use vstd::string::StringExecFns;

use crate::error::AppError;
use crate::error::ErrorValue;
use crate::git::commands::branch_args;
use crate::git::commands::branch_outcome;
use crate::git::commands::branch_reply;
use crate::git::commands::command;
use crate::git::commands::current_branch;
use crate::git::commands::git_dir;
use crate::git::commands::git_dir_args;
use crate::git::commands::head_sha;
use crate::git::commands::head_sha_args;
use crate::git::commands::show_toplevel;
use crate::git::commands::show_toplevel_args;
use crate::git::commands::text_outcome;
use crate::git::commands::text_reply;
use crate::git::commands::words2;
use crate::git::commands::words3;
use crate::git::commands::bare_args;
use crate::git::commands::shallow_args;
use crate::git::commands::flag_outcome;
use crate::git::commands::flag_reply;
use crate::git::commands::is_bare;
use crate::git::commands::is_shallow;
use crate::git::commands::resolve;
use crate::git::commands::resolve_args;
use crate::git::commands::resolve_outcome;
use crate::git::commands::resolve_reply;
use crate::git::commands::merge_base;
use crate::git::commands::merge_base_args;
use crate::git::commands::merge_base_outcome;
use crate::git::commands::merge_base_reply;
use crate::git::commands::status;
use crate::git::commands::status_args;
use crate::git::commands::dirty_outcome;
use crate::git::commands::dirty_reply;
use crate::git::commands::answer_law;
use crate::git::commands::spawn_law;
use crate::git::world::answers;
use crate::git::world::GitCommandValue;
use crate::git::world::GitOutputValue;
use crate::text::trimmed;
use vstd::utf8::decode_utf8;
use vstd::utf8::valid_utf8;
use crate::git::world::fits;
use crate::git::world::git_reply_value;
use crate::git::world::viewed_result;
use crate::git::world::plain_result;
use crate::git::world::GitReply;
use crate::git::world::Reply;
use crate::git::world::ReplyValue;
use crate::git::world::Request;
use crate::git::world::RequestValue;
use crate::git::world::Step;
use crate::git::world::World;
use crate::git::GitRepository;
use crate::git::GitRepositoryValue;
use crate::git::OriginalCheckout;
use crate::git::OriginalCheckoutValue;
use crate::git::ResolvedRef;
use crate::git::ResolvedRefValue;
use crate::path::copy_path;
use crate::path::absolute_path;
use crate::path::is_absolute;
use crate::path::join;
use crate::path::joined_path;
use crate::path::path_from_text;
use crate::path::path_of;

verus! {

/// The Git answer carried by a reply of the Git kind.
pub fn git_answer(reply: Reply) -> (g: GitReply)
    requires
        reply is Git,
    ensures
        reply@ == ReplyValue::Git(git_reply_value(g)),
{
    match reply {
        Reply::Git(g) => g,
        _ => {
            proof {
                assert(false);
            }
            Err(String::new())
        },
    }
}

/// The repository whose top level is `root`, found on the commit and branch
/// that `git` reports there.
pub open spec fn repo_at(root: PathBuf, w: World) -> Result<GitRepositoryValue, ErrorValue> {
    match text_outcome(head_sha_args(), (w.git)(command(root, head_sha_args()))) {
        Err(e) => Err(e),
        Ok(sha) => repo_on_branch(root, sha, w),
    }
}

/// The repository at `root` on commit `sha`, on the branch `git` reports or
/// detached.
pub open spec fn repo_on_branch(root: PathBuf, sha: Seq<char>, w: World) -> Result<
    GitRepositoryValue,
    ErrorValue,
> {
    match branch_outcome((w.git)(command(root, branch_args()))) {
        Err(e) => Err(e),
        Ok(Some(name)) => Ok(
            GitRepositoryValue { root, original: OriginalCheckoutValue::Branch { name, sha } },
        ),
        Ok(None) => Ok(GitRepositoryValue { root, original: OriginalCheckoutValue::Detached { sha } }),
    }
}

/// The root used when there is no working tree: the Git directory, taken
/// relative to `current_dir` unless it is absolute.
pub open spec fn git_dir_root(current_dir: PathBuf, git_dir: PathBuf) -> PathBuf {
    if absolute_path(git_dir) {
        git_dir
    } else {
        joined_path(current_dir, git_dir)
    }
}

/// Finding the repository from its Git directory.
pub open spec fn discover_from_git_dir(current_dir: PathBuf, w: World) -> Result<
    GitRepositoryValue,
    ErrorValue,
> {
    match text_outcome(git_dir_args(), (w.git)(command(current_dir, git_dir_args()))) {
        Err(e) => Err(e),
        Ok(g) => repo_at(git_dir_root(current_dir, path_of(g)), w),
    }
}

/// Finding the repository that holds `current_dir`: its root is the top level
/// of the working tree, or, where `git` reports none (a bare repository), the
/// Git directory; then the commit and the branch it is on.
pub open spec fn discover_spec(current_dir: PathBuf, w: World) -> Result<
    GitRepositoryValue,
    ErrorValue,
> {
    match text_outcome(show_toplevel_args(), (w.git)(command(current_dir, show_toplevel_args()))) {
        Ok(top) => repo_at(path_of(top), w),
        Err(_) => discover_from_git_dir(current_dir, w),
    }
}

/// A `git` request in `dir`.
pub open spec fn git_request(dir: PathBuf, args: Seq<Seq<char>>) -> RequestValue {
    RequestValue::Git(command(dir, args))
}

/// What finding the repository at `root` asks after `git rev-parse HEAD`: the
/// branch, when the commit was read.
pub open spec fn after_head_sha_requests(root: PathBuf, w: World) -> Seq<RequestValue> {
    match text_outcome(head_sha_args(), (w.git)(command(root, head_sha_args()))) {
        Err(_) => Seq::empty(),
        Ok(_) => seq![git_request(root, branch_args())],
    }
}

/// The requests of finding the repository at `root`: its commit, then its
/// branch.
pub open spec fn repo_requests(root: PathBuf, w: World) -> Seq<RequestValue> {
    seq![git_request(root, head_sha_args())] + after_head_sha_requests(root, w)
}

/// What discovery asks after `git rev-parse --git-dir`.
pub open spec fn after_git_dir_requests(current_dir: PathBuf, w: World) -> Seq<RequestValue> {
    match text_outcome(git_dir_args(), (w.git)(command(current_dir, git_dir_args()))) {
        Err(_) => Seq::empty(),
        Ok(g) => repo_requests(git_dir_root(current_dir, path_of(g)), w),
    }
}

/// What discovery asks after `git rev-parse --show-toplevel`.
pub open spec fn after_toplevel_requests(current_dir: PathBuf, w: World) -> Seq<RequestValue> {
    match text_outcome(show_toplevel_args(), (w.git)(command(current_dir, show_toplevel_args()))) {
        Ok(top) => repo_requests(path_of(top), w),
        Err(_) => seq![git_request(current_dir, git_dir_args())] + after_git_dir_requests(
            current_dir,
            w,
        ),
    }
}

/// Every request discovery makes from `current_dir`, in order: only `git`
/// queries (`rev-parse` and `symbolic-ref`).
pub open spec fn discover_requests(current_dir: PathBuf, w: World) -> Seq<RequestValue> {
    seq![git_request(current_dir, show_toplevel_args())] + after_toplevel_requests(current_dir, w)
}

enum DiscoverState {
    Toplevel,
    GitDir,
    HeadSha { root: PathBuf },
    Branch { root: PathBuf, sha: String },
    Finished,
}

/// The session that finds the repository holding a directory.
pub struct Discovery {
    current_dir: PathBuf,
    state: DiscoverState,
}

impl Discovery {
    /// The session has not finished.
    pub closed spec fn live(&self) -> bool {
        !(self.state is Finished)
    }


    /// The action the session waits for.
    pub closed spec fn awaiting(&self) -> RequestValue {
        match self.state {
            DiscoverState::Toplevel => RequestValue::Git(
                command(self.current_dir, show_toplevel_args()),
            ),
            DiscoverState::GitDir => RequestValue::Git(command(self.current_dir, git_dir_args())),
            DiscoverState::HeadSha { root } => RequestValue::Git(command(root, head_sha_args())),
            DiscoverState::Branch { root, .. } => RequestValue::Git(command(root, branch_args())),
            DiscoverState::Finished => arbitrary(),
        }
    }

    /// The requests the session makes after the awaited one, in world `w`.
    pub closed spec fn later(&self, w: World) -> Seq<RequestValue> {
        match self.state {
            DiscoverState::Toplevel => after_toplevel_requests(self.current_dir, w),
            DiscoverState::GitDir => after_git_dir_requests(self.current_dir, w),
            DiscoverState::HeadSha { root } => after_head_sha_requests(root, w),
            _ => Seq::empty(),
        }
    }

    /// The result the session reaches in world `w`.
    pub closed spec fn outcome(&self, w: World) -> Result<GitRepositoryValue, ErrorValue> {
        match self.state {
            DiscoverState::Toplevel => discover_spec(self.current_dir, w),
            DiscoverState::GitDir => discover_from_git_dir(self.current_dir, w),
            DiscoverState::HeadSha { root } => repo_at(root, w),
            DiscoverState::Branch { root, sha } => repo_on_branch(root, sha@, w),
            DiscoverState::Finished => arbitrary(),
        }
    }

    /// Whether `reply` is an answer this session can take now.
    pub fn accepts(&self, reply: &Reply) -> (b: bool)
        ensures
            b == (self.live() && fits(self.awaiting(), *reply)),
    {
        match self.state {
            DiscoverState::Finished => false,
            _ => match reply {
                Reply::Git(_) => true,
                _ => false,
            },
        }
    }

    /// Takes the answer to the awaited action.
    pub fn resume(&mut self, reply: Reply) -> (step: Step<GitRepository>)
        requires
            old(self).live(),
            fits(old(self).awaiting(), reply),
        ensures
            step matches Step::Request(q) ==> forall|w: World|
                #![trigger final(self).later(w)]
                answers(w, old(self).awaiting(), reply@) ==> old(self).later(w) == seq![q@]
                    + final(self).later(w),
            step is Done ==> forall|w: World|
                #![trigger old(self).later(w)]
                answers(w, old(self).awaiting(), reply@) ==> old(self).later(w)
                    == Seq::<RequestValue>::empty(),
            match step {
                Step::Request(q) => {
                    &&& final(self).live()
                    &&& q@ == final(self).awaiting()
                    &&& forall|w: World|
                        #![trigger final(self).outcome(w)]
                        answers(w, old(self).awaiting(), reply@)
                            ==> final(self).outcome(w) == old(self).outcome(w)
                },
                Step::Done(r) => forall|w: World|
                    #![trigger old(self).outcome(w)]
                    answers(w, old(self).awaiting(), reply@)
                        ==> viewed_result(r) == old(self).outcome(w),
            },
    {
        let reply = git_answer(reply);
        let mut state = DiscoverState::Finished;
        std::mem::swap(&mut state, &mut self.state);
        match state {
            DiscoverState::Toplevel => {
                match text_reply(&words2("rev-parse", "--show-toplevel"), reply) {
                    Ok(top) => {
                        let root = path_from_text(top);
                        let q = head_sha(&root);
                        self.state = DiscoverState::HeadSha { root };
                        Step::Request(Request::Git(q))
                    },
                    Err(_) => {
                        self.state = DiscoverState::GitDir;
                        Step::Request(Request::Git(git_dir(&self.current_dir)))
                    },
                }
            },
            DiscoverState::GitDir => {
                match text_reply(&words2("rev-parse", "--git-dir"), reply) {
                    Ok(g) => {
                        let git_dir = path_from_text(g);
                        let ghost dir = git_dir;
                        let absolute = is_absolute(&git_dir);
                        let root = if absolute {
                            git_dir
                        } else {
                            join(&self.current_dir, &git_dir)
                        };
                        let q = head_sha(&root);
                        self.state = DiscoverState::HeadSha { root };
                        Step::Request(Request::Git(q))
                    },
                    Err(e) => Step::Done(Err(e)),
                }
            },
            DiscoverState::HeadSha { root } => {
                match text_reply(&words2("rev-parse", "HEAD"), reply) {
                    Ok(sha) => {
                        let q = current_branch(&root);
                        self.state = DiscoverState::Branch { root, sha };
                        Step::Request(Request::Git(q))
                    },
                    Err(e) => Step::Done(Err(e)),
                }
            },
            DiscoverState::Branch { root, sha } => {
                match branch_reply(reply) {
                    Ok(Some(name)) => Step::Done(
                        Ok(GitRepository::new(root, OriginalCheckout::Branch { name, sha })),
                    ),
                    Ok(None) => Step::Done(
                        Ok(GitRepository::new(root, OriginalCheckout::Detached { sha })),
                    ),
                    Err(e) => Step::Done(Err(e)),
                }
            },
            DiscoverState::Finished => {
                proof {
                    assert(false);
                }
                Step::Done(Err(AppError::BaseRefInferenceFailure))
            },
        }
    }
}

impl GitRepository {
    /// Starts finding the repository that holds `current_dir`.
    pub fn discover(current_dir: &PathBuf) -> (res: (Discovery, Step<GitRepository>))
        ensures
            res.1 matches Step::Request(q) ==> forall|w: World|
                #![trigger res.0.later(w)]
                seq![q@] + res.0.later(w) == discover_requests(*current_dir, w),
            res.1 matches Step::Request(q) && res.0.live() && q@ == res.0.awaiting(),
            forall|w: World|
                #![trigger res.0.outcome(w)]
                res.0.outcome(w) == discover_spec(*current_dir, w),
    {
        let s = Discovery {
            current_dir: copy_path(current_dir),
            state: DiscoverState::Toplevel,
        };
        let q = show_toplevel(&s.current_dir);
        (s, Step::Request(Request::Git(q)))
    }
}


/// The repository must be neither bare nor shallow; bareness is checked first.
pub open spec fn validate_spec(root: PathBuf, w: World) -> Result<(), ErrorValue> {
    match flag_outcome(bare_args(), (w.git)(command(root, bare_args()))) {
        Err(e) => Err(e),
        Ok(true) => Err(ErrorValue::BareRepository),
        Ok(false) => shallow_spec(root, w),
    }
}

/// The repository must not be shallow.
pub open spec fn shallow_spec(root: PathBuf, w: World) -> Result<(), ErrorValue> {
    match flag_outcome(shallow_args(), (w.git)(command(root, shallow_args()))) {
        Err(e) => Err(e),
        Ok(true) => Err(ErrorValue::ShallowRepository),
        Ok(false) => Ok(()),
    }
}

/// What validation asks after the bareness query: the shallowness query,
/// when the repository is not bare.
pub open spec fn after_bare_requests(root: PathBuf, w: World) -> Seq<RequestValue> {
    match flag_outcome(bare_args(), (w.git)(command(root, bare_args()))) {
        Ok(false) => seq![git_request(root, shallow_args())],
        _ => Seq::empty(),
    }
}

/// Every request validation makes: the bareness query, then, for a repository
/// that is not bare, the shallowness query.
pub open spec fn validate_requests(root: PathBuf, w: World) -> Seq<RequestValue> {
    seq![git_request(root, bare_args())] + after_bare_requests(root, w)
}

enum ValidateState {
    Bare,
    Shallow,
    Finished,
}

/// The session that checks that the repository is supported.
pub struct Validation {
    root: PathBuf,
    state: ValidateState,
}

impl Validation {
    /// The session has not finished.
    pub closed spec fn live(&self) -> bool {
        !(self.state is Finished)
    }

    /// The action the session waits for.
    pub closed spec fn awaiting(&self) -> RequestValue {
        match self.state {
            ValidateState::Shallow => RequestValue::Git(command(self.root, shallow_args())),
            _ => RequestValue::Git(command(self.root, bare_args())),
        }
    }

    /// The requests the session makes after the awaited one, in world `w`.
    pub closed spec fn later(&self, w: World) -> Seq<RequestValue> {
        match self.state {
            ValidateState::Bare => after_bare_requests(self.root, w),
            _ => Seq::empty(),
        }
    }

    /// The result the session reaches in world `w`.
    pub closed spec fn outcome(&self, w: World) -> Result<(), ErrorValue> {
        match self.state {
            ValidateState::Bare => validate_spec(self.root, w),
            ValidateState::Shallow => shallow_spec(self.root, w),
            ValidateState::Finished => Ok(()),
        }
    }

    /// Whether `reply` is an answer this session can take now.
    pub fn accepts(&self, reply: &Reply) -> (b: bool)
        ensures
            b == (self.live() && fits(self.awaiting(), *reply)),
    {
        match self.state {
            ValidateState::Finished => false,
            _ => match reply {
                Reply::Git(_) => true,
                _ => false,
            },
        }
    }

    /// Takes the answer to the awaited action.
    pub fn resume(&mut self, reply: Reply) -> (step: Step<()>)
        requires
            old(self).live(),
            fits(old(self).awaiting(), reply),
        ensures
            step matches Step::Request(q) ==> forall|w: World|
                #![trigger final(self).later(w)]
                answers(w, old(self).awaiting(), reply@) ==> old(self).later(w) == seq![q@]
                    + final(self).later(w),
            step is Done ==> forall|w: World|
                #![trigger old(self).later(w)]
                answers(w, old(self).awaiting(), reply@) ==> old(self).later(w)
                    == Seq::<RequestValue>::empty(),
            match step {
                Step::Request(q) => {
                    &&& final(self).live()
                    &&& q@ == final(self).awaiting()
                    &&& forall|w: World|
                        #![trigger final(self).outcome(w)]
                        answers(w, old(self).awaiting(), reply@) ==> final(self).outcome(w)
                            == old(self).outcome(w)
                },
                Step::Done(r) => forall|w: World|
                    #![trigger old(self).outcome(w)]
                    answers(w, old(self).awaiting(), reply@) ==> plain_result(r) == old(
                        self,
                    ).outcome(w),
            },
    {
        let reply = git_answer(reply);
        let mut state = ValidateState::Finished;
        std::mem::swap(&mut state, &mut self.state);
        match state {
            ValidateState::Bare => {
                match flag_reply(&words2("rev-parse", "--is-bare-repository"), reply) {
                    Ok(true) => Step::Done(Err(AppError::BareRepository)),
                    Ok(false) => {
                        self.state = ValidateState::Shallow;
                        Step::Request(Request::Git(is_shallow(&self.root)))
                    },
                    Err(e) => Step::Done(Err(e)),
                }
            },
            ValidateState::Shallow => {
                match flag_reply(&words2("rev-parse", "--is-shallow-repository"), reply) {
                    Ok(true) => Step::Done(Err(AppError::ShallowRepository)),
                    Ok(false) => Step::Done(Ok(())),
                    Err(e) => Step::Done(Err(e)),
                }
            },
            ValidateState::Finished => {
                proof {
                    assert(false);
                }
                Step::Done(Ok(()))
            },
        }
    }
}

/// A ref resolved to its commit.
pub open spec fn resolve_ref_spec(root: PathBuf, reference: Seq<char>, w: World) -> Result<
    ResolvedRefValue,
    ErrorValue,
> {
    match resolve_outcome(reference, (w.git)(command(root, resolve_args(reference)))) {
        Ok(sha) => Ok(ResolvedRefValue { reference, sha }),
        Err(e) => Err(e),
    }
}

/// Every request resolving `reference` makes: the one `rev-parse --verify`.
pub open spec fn resolve_requests(root: PathBuf, reference: Seq<char>) -> Seq<RequestValue> {
    seq![git_request(root, resolve_args(reference))]
}

/// The session that resolves a ref to its commit.
pub struct RefResolution {
    root: PathBuf,
    reference: String,
    finished: bool,
}

impl RefResolution {
    /// The session has not finished.
    pub closed spec fn live(&self) -> bool {
        !self.finished
    }

    /// The action the session waits for.
    pub closed spec fn awaiting(&self) -> RequestValue {
        RequestValue::Git(command(self.root, resolve_args(self.reference@)))
    }

    /// The requests the session makes after the awaited one: none.
    pub closed spec fn later(&self, w: World) -> Seq<RequestValue> {
        Seq::empty()
    }

    /// The result the session reaches in world `w`.
    pub closed spec fn outcome(&self, w: World) -> Result<ResolvedRefValue, ErrorValue> {
        resolve_ref_spec(self.root, self.reference@, w)
    }

    /// Whether `reply` is an answer this session can take now.
    pub fn accepts(&self, reply: &Reply) -> (b: bool)
        ensures
            b == (self.live() && fits(self.awaiting(), *reply)),
    {
        !self.finished && match reply {
            Reply::Git(_) => true,
            _ => false,
        }
    }

    /// Takes the answer to the awaited action.
    pub fn resume(&mut self, reply: Reply) -> (step: Step<ResolvedRef>)
        requires
            old(self).live(),
            fits(old(self).awaiting(), reply),
        ensures
            step matches Step::Request(q) ==> forall|w: World|
                #![trigger final(self).later(w)]
                answers(w, old(self).awaiting(), reply@) ==> old(self).later(w) == seq![q@]
                    + final(self).later(w),
            step is Done ==> forall|w: World|
                #![trigger old(self).later(w)]
                answers(w, old(self).awaiting(), reply@) ==> old(self).later(w)
                    == Seq::<RequestValue>::empty(),
            match step {
                Step::Request(_) => false,
                Step::Done(r) => forall|w: World|
                    #![trigger old(self).outcome(w)]
                    answers(w, old(self).awaiting(), reply@) ==> viewed_result(r) == old(
                        self,
                    ).outcome(w),
            },
    {
        let reply = git_answer(reply);
        self.finished = true;
        match resolve_reply(self.reference.as_str(), reply) {
            Ok(sha) => Step::Done(Ok(ResolvedRef { reference: self.reference.clone(), sha })),
            Err(e) => Step::Done(Err(e)),
        }
    }
}

/// The default-branch refs tried, in order, when inferring the base ref.
pub open spec fn candidate(i: nat) -> Seq<char> {
    if i == 0 {
        "origin/HEAD"@
    } else if i == 1 {
        "origin/main"@
    } else {
        "origin/master"@
    }
}

/// How many default-branch refs are tried.
pub open spec fn candidate_count() -> nat {
    3
}

/// Inferring the base from the `i`-th candidate on: a candidate that is not a
/// valid ref is skipped; for one that is, its merge base with the head decides.
pub open spec fn infer_from(root: PathBuf, head_sha: Seq<char>, i: nat, w: World) -> Result<
    ResolvedRefValue,
    ErrorValue,
>
    decreases candidate_count() - i, 1nat,
{
    if i >= candidate_count() {
        Err(ErrorValue::BaseRefInferenceFailure)
    } else {
        match resolve_outcome(candidate(i), (w.git)(command(root, resolve_args(candidate(i))))) {
            Ok(_) => infer_merge(root, head_sha, i, w),
            Err(ErrorValue::InvalidRef { .. }) => infer_from(root, head_sha, i + 1, w),
            Err(e) => Err(e),
        }
    }
}

/// The `i`-th candidate, which resolved: the base is its merge base with the
/// head, named by the candidate; with no merge base the next candidate is
/// tried.
pub open spec fn infer_merge(root: PathBuf, head_sha: Seq<char>, i: nat, w: World) -> Result<
    ResolvedRefValue,
    ErrorValue,
>
    decreases candidate_count() - i, 0nat,
{
    if i >= candidate_count() {
        Err(ErrorValue::BaseRefInferenceFailure)
    } else {
        match merge_base_outcome((w.git)(command(root, merge_base_args(head_sha, candidate(i))))) {
            Err(e) => Err(e),
            Ok(Some(sha)) => Ok(ResolvedRefValue { reference: candidate(i), sha }),
            Ok(None) => infer_from(root, head_sha, i + 1, w),
        }
    }
}

/// Inferring the base ref: the head ref is resolved first; then `origin/HEAD`,
/// `origin/main` and `origin/master` are tried in that order, and the first
/// that resolves and has a merge base with the head gives the base (that merge
/// base, under the candidate's name). When none does, inference fails.
pub open spec fn infer_spec(root: PathBuf, head_ref: Seq<char>, w: World) -> Result<
    ResolvedRefValue,
    ErrorValue,
> {
    match resolve_outcome(head_ref, (w.git)(command(root, resolve_args(head_ref)))) {
        Err(e) => Err(e),
        Ok(head_sha) => infer_from(root, head_sha, 0, w),
    }
}

/// The requests made from the `i`-th candidate on: its resolution, and
/// what follows from it.
pub open spec fn candidate_requests(root: PathBuf, head_sha: Seq<char>, i: nat, w: World) -> Seq<
    RequestValue,
>
    decreases candidate_count() - i, 3nat,
{
    if i >= candidate_count() {
        Seq::empty()
    } else {
        seq![git_request(root, resolve_args(candidate(i)))] + after_resolve_requests(
            root,
            head_sha,
            i,
            w,
        )
    }
}

/// What follows the resolution of the `i`-th candidate: its merge base when it
/// resolved, the next candidate when it is not a ref, nothing on an error.
pub open spec fn after_resolve_requests(root: PathBuf, head_sha: Seq<char>, i: nat, w: World) -> Seq<
    RequestValue,
>
    decreases candidate_count() - i, 2nat,
{
    if i >= candidate_count() {
        Seq::empty()
    } else {
        match resolve_outcome(candidate(i), (w.git)(command(root, resolve_args(candidate(i))))) {
            Ok(_) => seq![git_request(root, merge_base_args(head_sha, candidate(i)))]
                + after_merge_requests(root, head_sha, i, w),
            Err(ErrorValue::InvalidRef { .. }) => candidate_requests(root, head_sha, i + 1, w),
            Err(_) => Seq::empty(),
        }
    }
}

/// What follows the merge base of the `i`-th candidate: the next candidate
/// when there is none.
pub open spec fn after_merge_requests(root: PathBuf, head_sha: Seq<char>, i: nat, w: World) -> Seq<
    RequestValue,
>
    decreases candidate_count() - i, 1nat,
{
    if i >= candidate_count() {
        Seq::empty()
    } else {
        match merge_base_outcome((w.git)(command(root, merge_base_args(head_sha, candidate(i))))) {
            Ok(None) => candidate_requests(root, head_sha, i + 1, w),
            _ => Seq::empty(),
        }
    }
}

/// What inference asks after resolving the head ref: the candidates, when it
/// resolved.
pub open spec fn after_head_ref_requests(root: PathBuf, head_ref: Seq<char>, w: World) -> Seq<
    RequestValue,
> {
    match resolve_outcome(head_ref, (w.git)(command(root, resolve_args(head_ref)))) {
        Err(_) => Seq::empty(),
        Ok(head_sha) => candidate_requests(root, head_sha, 0, w),
    }
}

/// Every request base inference makes: the head ref's resolution, then for
/// each candidate in order its resolution and, when it resolved, its merge base
/// with the head, until one decides. Only `rev-parse` and `merge-base`.
pub open spec fn infer_requests(root: PathBuf, head_ref: Seq<char>, w: World) -> Seq<RequestValue> {
    seq![git_request(root, resolve_args(head_ref))] + after_head_ref_requests(root, head_ref, w)
}

/// The `i`-th candidate is passed over: it is not a valid ref, or it has no
/// merge base with the head.
pub open spec fn passed_over(root: PathBuf, head_sha: Seq<char>, i: nat, w: World) -> bool {
    match resolve_outcome(candidate(i), (w.git)(command(root, resolve_args(candidate(i))))) {
        Err(ErrorValue::InvalidRef { .. }) => true,
        Ok(_) => merge_base_outcome((w.git)(command(root, merge_base_args(head_sha, candidate(i)))))
            == Ok::<Option<Seq<char>>, ErrorValue>(None),
        Err(_) => false,
    }
}

/// The `i`-th candidate is taken with merge base `sha`: it resolves, and its
/// merge base with the head is `sha`.
pub open spec fn taken(root: PathBuf, head_sha: Seq<char>, i: nat, sha: Seq<char>, w: World) -> bool {
    &&& resolve_outcome(candidate(i), (w.git)(command(root, resolve_args(candidate(i))))) is Ok
    &&& merge_base_outcome((w.git)(command(root, merge_base_args(head_sha, candidate(i)))))
        == Ok::<Option<Seq<char>>, ErrorValue>(Some(sha))
}

/// The order of base inference: once the head ref resolves, the first
/// candidate that is not passed over decides, named by the candidate with its
/// merge base as the commit; when all three are passed over, inference fails.
pub proof fn inference_order_law(root: PathBuf, head_ref: Seq<char>, head_sha: Seq<char>, w: World)
    requires
        resolve_outcome(head_ref, (w.git)(command(root, resolve_args(head_ref))))
            == Ok::<Seq<char>, ErrorValue>(head_sha),
    ensures
        forall|i: nat, sha: Seq<char>|
            #![trigger taken(root, head_sha, i, sha, w)]
            i < candidate_count() && taken(root, head_sha, i, sha, w) && (forall|j: nat|
                j < i ==> passed_over(root, head_sha, j, w)) ==> infer_spec(root, head_ref, w)
                == Ok::<ResolvedRefValue, ErrorValue>(
                ResolvedRefValue { reference: candidate(i), sha },
            ),
        (forall|j: nat| j < candidate_count() ==> passed_over(root, head_sha, j, w))
            ==> infer_spec(root, head_ref, w) == Err::<ResolvedRefValue, ErrorValue>(
            ErrorValue::BaseRefInferenceFailure,
        ),
{
    reveal_with_fuel(infer_from, 4);
    reveal_with_fuel(infer_merge, 4);
    assert forall|i: nat, sha: Seq<char>|
        #![trigger taken(root, head_sha, i, sha, w)]
        i < candidate_count() && taken(root, head_sha, i, sha, w) && (forall|j: nat|
            j < i ==> passed_over(root, head_sha, j, w)) implies infer_spec(root, head_ref, w)
        == Ok::<ResolvedRefValue, ErrorValue>(ResolvedRefValue { reference: candidate(i), sha }) by {
        if i >= 1 {
            assert(passed_over(root, head_sha, 0, w));
        }
        if i >= 2 {
            assert(passed_over(root, head_sha, 1, w));
        }
    }
    if forall|j: nat| j < candidate_count() ==> passed_over(root, head_sha, j, w) {
        assert(passed_over(root, head_sha, 0, w));
        assert(passed_over(root, head_sha, 1, w));
        assert(passed_over(root, head_sha, 2, w));
    }
}

/// `q` runs one of the `git` queries the inspecting sessions use, each of which
/// only reads the repository: `rev-parse` (top level, Git directory, commit,
/// bareness, shallowness, or `--verify` of a ref), `symbolic-ref` of `HEAD`,
/// `merge-base` of two commits, and `status`.
pub open spec fn is_query(q: RequestValue) -> bool {
    match q {
        RequestValue::Git(c) => {
            ||| c.args == show_toplevel_args()
            ||| c.args == git_dir_args()
            ||| c.args == head_sha_args()
            ||| c.args == branch_args()
            ||| c.args == bare_args()
            ||| c.args == shallow_args()
            ||| c.args == status_args()
            ||| (c.args.len() == 3 && c.args[0] == "rev-parse"@ && c.args[1] == "--verify"@)
            ||| (c.args.len() == 3 && c.args[0] == "merge-base"@)
        },
        _ => false,
    }
}

/// Every request in `qs` is a query.
pub open spec fn all_queries(qs: Seq<RequestValue>) -> bool {
    forall|i: int| 0 <= i < qs.len() ==> is_query(#[trigger] qs[i])
}

proof fn lemma_all_queries_concat(a: Seq<RequestValue>, b: Seq<RequestValue>)
    requires
        all_queries(a),
        all_queries(b),
    ensures
        all_queries(a + b),
{
    assert forall|i: int| 0 <= i < (a + b).len() implies is_query(#[trigger] (a + b)[i]) by {
        if i < a.len() {
            assert((a + b)[i] == a[i]);
        } else {
            assert((a + b)[i] == b[i - a.len()]);
        }
    }
}

proof fn lemma_repo_queries(root: PathBuf, w: World)
    ensures
        all_queries(repo_requests(root, w)),
{
    lemma_all_queries_concat(seq![git_request(root, head_sha_args())], after_head_sha_requests(root, w));
}

proof fn lemma_candidate_queries(root: PathBuf, head_sha: Seq<char>, i: nat, w: World)
    ensures
        all_queries(candidate_requests(root, head_sha, i, w)),
        all_queries(after_resolve_requests(root, head_sha, i, w)),
        all_queries(after_merge_requests(root, head_sha, i, w)),
    decreases candidate_count() - i,
{
    reveal_strlit("rev-parse");
    reveal_strlit("--verify");
    reveal_strlit("merge-base");
    if i < candidate_count() {
        lemma_candidate_queries(root, head_sha, i + 1, w);
        let m = seq![git_request(root, merge_base_args(head_sha, candidate(i)))];
        assert(is_query(m[0]));
        lemma_all_queries_concat(m, after_merge_requests(root, head_sha, i, w));
        let r = seq![git_request(root, resolve_args(candidate(i)))];
        assert(is_query(r[0]));
        lemma_all_queries_concat(r, after_resolve_requests(root, head_sha, i, w));
    }
}

/// Inspecting the repository only reads it: discovery, validation, resolving
/// a ref, inferring the base ref and checking the working tree ask for nothing
/// but `git` queries, whatever the answers.
pub proof fn inspection_reads_only_law(
    current_dir: PathBuf,
    root: PathBuf,
    reference: Seq<char>,
    head_ref: Seq<char>,
    w: World,
)
    ensures
        all_queries(discover_requests(current_dir, w)),
        all_queries(validate_requests(root, w)),
        all_queries(resolve_requests(root, reference)),
        all_queries(infer_requests(root, head_ref, w)),
        all_queries(dirty_requests(root)),
{
    reveal_strlit("rev-parse");
    reveal_strlit("--verify");
    match text_outcome(show_toplevel_args(), (w.git)(command(current_dir, show_toplevel_args()))) {
        Ok(top) => lemma_repo_queries(path_of(top), w),
        Err(_) => {
            match text_outcome(git_dir_args(), (w.git)(command(current_dir, git_dir_args()))) {
                Ok(g) => lemma_repo_queries(git_dir_root(current_dir, path_of(g)), w),
                Err(_) => {},
            }
            lemma_all_queries_concat(
                seq![git_request(current_dir, git_dir_args())],
                after_git_dir_requests(current_dir, w),
            );
        },
    }
    lemma_all_queries_concat(
        seq![git_request(current_dir, show_toplevel_args())],
        after_toplevel_requests(current_dir, w),
    );
    lemma_all_queries_concat(seq![git_request(root, bare_args())], after_bare_requests(root, w));
    let h = seq![git_request(root, resolve_args(head_ref))];
    assert(is_query(h[0]));
    match resolve_outcome(head_ref, (w.git)(command(root, resolve_args(head_ref)))) {
        Ok(head_sha) => lemma_candidate_queries(root, head_sha, 0, w),
        Err(_) => {},
    }
    lemma_all_queries_concat(h, after_head_ref_requests(root, head_ref, w));
    assert(is_query(resolve_requests(root, reference)[0]));
}

/// The answer `w` gives to `git <args>` run in `dir`.
pub open spec fn git_answer_of(w: World, dir: PathBuf, args: Seq<Seq<char>>) -> Result<
    GitOutputValue,
    Seq<char>,
> {
    (w.git)(GitCommandValue { dir, args })
}

/// `o` is a successful run with UTF-8 output.
pub open spec fn printed(o: GitOutputValue) -> bool {
    o.success && valid_utf8(o.stdout)
}

/// What a successful run printed, decoded and trimmed.
pub open spec fn printed_text(o: GitOutputValue) -> Seq<char> {
    trimmed(decode_utf8(o.stdout))
}

/// Resolving a ref asks `git rev-parse --verify <ref>^{commit}` in the
/// repository: when that prints a commit, the ref resolves to it, whatever the
/// ref's name; it is an invalid ref only when that command fails.
pub proof fn resolve_law(root: PathBuf, reference: Seq<char>, w: World)
    ensures
        git_answer_of(w, root, seq!["rev-parse"@, "--verify"@, reference + "^{commit}"@]) matches Ok(o)
            ==> (printed(o) ==> resolve_ref_spec(root, reference, w)
            == Ok::<ResolvedRefValue, ErrorValue>(
            ResolvedRefValue { reference, sha: printed_text(o) },
        )),
        git_answer_of(w, root, seq!["rev-parse"@, "--verify"@, reference + "^{commit}"@]) matches Ok(o)
            ==> (!o.success ==> resolve_ref_spec(root, reference, w) == Err::<
            ResolvedRefValue,
            ErrorValue,
        >(ErrorValue::InvalidRef { reference })),
        resolve_ref_spec(root, reference, w) matches Err(ErrorValue::InvalidRef { reference: r })
            ==> (r == reference && (git_answer_of(
            w,
            root,
            seq!["rev-parse"@, "--verify"@, reference + "^{commit}"@],
        ) matches Ok(o) && !o.success)),
{
    match git_answer_of(w, root, seq!["rev-parse"@, "--verify"@, reference + "^{commit}"@]) {
        Ok(o) => answer_law(Seq::empty(), reference, o),
        Err(e) => spawn_law(Seq::empty(), reference, e),
    }
    assert(resolve_args(reference) == seq!["rev-parse"@, "--verify"@, reference + "^{commit}"@]);
}

/// The working-tree check asks `git status --porcelain=v1
/// --untracked-files=all` at the root: when that prints, the tree is dirty
/// exactly when the output lists anything, an untracked (`??`) entry included.
pub proof fn dirty_law(root: PathBuf, w: World)
    ensures
        git_answer_of(
            w,
            root,
            seq!["status"@, "--porcelain=v1"@, "--untracked-files=all"@],
        ) matches Ok(o) ==> (printed(o) ==> dirty_spec(root, w) == Ok::<bool, ErrorValue>(
            printed_text(o).len() > 0,
        )),
{
    match git_answer_of(w, root, seq!["status"@, "--porcelain=v1"@, "--untracked-files=all"@]) {
        Ok(o) => answer_law(status_args(), Seq::empty(), o),
        Err(_) => {},
    }
}

/// Validation: a repository that `git rev-parse --is-bare-repository` calls
/// bare is refused as bare; one that is not bare but that `git rev-parse
/// --is-shallow-repository` calls shallow is refused as shallow; one that both
/// queries deny is accepted.
pub proof fn validate_law(root: PathBuf, w: World)
    ensures
        git_answer_of(w, root, seq!["rev-parse"@, "--is-bare-repository"@]) matches Ok(b) ==> (
        printed(b) ==> {
            &&& printed_text(b) == "true"@ ==> validate_spec(root, w) == Err::<(), ErrorValue>(
                ErrorValue::BareRepository,
            )
            &&& git_answer_of(w, root, seq!["rev-parse"@, "--is-shallow-repository"@]) matches Ok(s)
                ==> (printed(s) && printed_text(b) != "true"@ ==> validate_spec(root, w) == if printed_text(s)
                == "true"@ {
                Err::<(), ErrorValue>(ErrorValue::ShallowRepository)
            } else {
                Ok::<(), ErrorValue>(())
            })
        }),
{
    match git_answer_of(w, root, seq!["rev-parse"@, "--is-bare-repository"@]) {
        Ok(b) => {
            answer_law(bare_args(), Seq::empty(), b);
            match git_answer_of(w, root, seq!["rev-parse"@, "--is-shallow-repository"@]) {
                Ok(s) => answer_law(shallow_args(), Seq::empty(), s),
                Err(_) => {},
            }
        },
        Err(_) => {},
    }
}

/// Discovery from a directory inside a working tree: the root is the top level
/// `git rev-parse --show-toplevel` prints there, the commit is what `git
/// rev-parse HEAD` prints at that root, and the run started on the branch that
/// `git symbolic-ref --quiet --short HEAD` prints, whatever its name; it is
/// detached only when that command fails.
pub proof fn discover_law(current_dir: PathBuf, w: World)
    ensures
        git_answer_of(w, current_dir, seq!["rev-parse"@, "--show-toplevel"@]) matches Ok(t) ==> (
        printed(t) ==> {
            let root = path_of(printed_text(t));
            git_answer_of(w, root, seq!["rev-parse"@, "HEAD"@]) matches Ok(h) ==> (printed(h) ==> {
                let sha = printed_text(h);
                git_answer_of(w, root, seq!["symbolic-ref"@, "--quiet"@, "--short"@, "HEAD"@]) matches Ok(
                    b,
                ) ==> {
                    &&& printed(b) ==> discover_spec(current_dir, w) == Ok::<
                        GitRepositoryValue,
                        ErrorValue,
                    >(
                        GitRepositoryValue {
                            root,
                            original: OriginalCheckoutValue::Branch { name: printed_text(b), sha },
                        },
                    )
                    &&& !b.success ==> discover_spec(current_dir, w) == Ok::<
                        GitRepositoryValue,
                        ErrorValue,
                    >(GitRepositoryValue { root, original: OriginalCheckoutValue::Detached { sha } })
                }
            })
        }),
{
    match git_answer_of(w, current_dir, seq!["rev-parse"@, "--show-toplevel"@]) {
        Ok(t) => {
            answer_law(show_toplevel_args(), Seq::empty(), t);
            let root = path_of(printed_text(t));
            match git_answer_of(w, root, seq!["rev-parse"@, "HEAD"@]) {
                Ok(h) => {
                    answer_law(head_sha_args(), Seq::empty(), h);
                    match git_answer_of(w, root, seq!["symbolic-ref"@, "--quiet"@, "--short"@, "HEAD"@]) {
                        Ok(b) => answer_law(branch_args(), Seq::empty(), b),
                        Err(_) => {},
                    }
                },
                Err(_) => {},
            }
        },
        Err(_) => {},
    }
}

/// Discovery outside a working tree (a bare repository): when `git rev-parse
/// --show-toplevel` fails, the root is the Git directory `git rev-parse
/// --git-dir` prints, taken as it is when absolute and joined to the starting
/// directory otherwise; commit and branch are then read at that root as in a
/// working tree.
pub proof fn discover_git_dir_law(current_dir: PathBuf, w: World)
    ensures
        git_answer_of(w, current_dir, seq!["rev-parse"@, "--show-toplevel"@]) matches Ok(t) ==> (
        !t.success ==> (git_answer_of(w, current_dir, seq!["rev-parse"@, "--git-dir"@]) matches Ok(g)
            ==> (printed(g) ==> {
            let dir = path_of(printed_text(g));
            let root = if absolute_path(dir) {
                dir
            } else {
                joined_path(current_dir, dir)
            };
            git_answer_of(w, root, seq!["rev-parse"@, "HEAD"@]) matches Ok(h) ==> (printed(h) ==> {
                let sha = printed_text(h);
                git_answer_of(w, root, seq!["symbolic-ref"@, "--quiet"@, "--short"@, "HEAD"@]) matches Ok(
                    b,
                ) ==> {
                    &&& printed(b) ==> discover_spec(current_dir, w) == Ok::<
                        GitRepositoryValue,
                        ErrorValue,
                    >(
                        GitRepositoryValue {
                            root,
                            original: OriginalCheckoutValue::Branch { name: printed_text(b), sha },
                        },
                    )
                    &&& !b.success ==> discover_spec(current_dir, w) == Ok::<
                        GitRepositoryValue,
                        ErrorValue,
                    >(GitRepositoryValue { root, original: OriginalCheckoutValue::Detached { sha } })
                }
            })
        }))),
{
    match git_answer_of(w, current_dir, seq!["rev-parse"@, "--show-toplevel"@]) {
        Ok(t) => {
            answer_law(show_toplevel_args(), Seq::empty(), t);
            match git_answer_of(w, current_dir, seq!["rev-parse"@, "--git-dir"@]) {
                Ok(g) => {
                    answer_law(git_dir_args(), Seq::empty(), g);
                    let dir = path_of(printed_text(g));
                    let root = if absolute_path(dir) {
                        dir
                    } else {
                        joined_path(current_dir, dir)
                    };
                    match git_answer_of(w, root, seq!["rev-parse"@, "HEAD"@]) {
                        Ok(h) => {
                            answer_law(head_sha_args(), Seq::empty(), h);
                            match git_answer_of(
                                w,
                                root,
                                seq!["symbolic-ref"@, "--quiet"@, "--short"@, "HEAD"@],
                            ) {
                                Ok(b) => answer_law(branch_args(), Seq::empty(), b),
                                Err(_) => {},
                            }
                        },
                        Err(_) => {},
                    }
                },
                Err(_) => {},
            }
        },
        Err(_) => {},
    }
}

/// `git rev-parse --verify <name>^{commit}` fails in `root`: `name` is not a
/// ref to a commit there.
pub open spec fn not_a_ref(w: World, root: PathBuf, name: Seq<char>) -> bool {
    git_answer_of(w, root, seq!["rev-parse"@, "--verify"@, name + "^{commit}"@]) matches Ok(o)
        && !o.success
}

/// `name` resolves in `root` and `git merge-base <head_sha> <name>` prints
/// `base`.
pub open spec fn merges_at(w: World, root: PathBuf, head_sha: Seq<char>, name: Seq<char>, base: Seq<char>) -> bool {
    &&& git_answer_of(w, root, seq!["rev-parse"@, "--verify"@, name + "^{commit}"@]) matches Ok(o)
        && printed(o)
    &&& git_answer_of(w, root, seq!["merge-base"@, head_sha, name]) matches Ok(m) && printed(m)
        && printed_text(m) == base
}

/// Base inference, by name: once the head ref resolves to `head_sha`,
/// `origin/HEAD` decides when it resolves and has a merge base with the head;
/// otherwise, when it is not a ref, `origin/main`; otherwise, when neither is,
/// `origin/master`; and when none of the three is a ref, inference fails. The
/// base is named by the remote ref and is its merge base with the head.
pub proof fn infer_by_name_law(root: PathBuf, head_ref: Seq<char>, head_sha: Seq<char>, base: Seq<char>, w: World)
    requires
        git_answer_of(w, root, seq!["rev-parse"@, "--verify"@, head_ref + "^{commit}"@]) matches Ok(o)
            && printed(o) && printed_text(o) == head_sha,
    ensures
        merges_at(w, root, head_sha, "origin/HEAD"@, base) ==> infer_spec(root, head_ref, w)
            == Ok::<ResolvedRefValue, ErrorValue>(ResolvedRefValue { reference: "origin/HEAD"@, sha: base }),
        not_a_ref(w, root, "origin/HEAD"@) && merges_at(w, root, head_sha, "origin/main"@, base)
            ==> infer_spec(root, head_ref, w) == Ok::<ResolvedRefValue, ErrorValue>(
            ResolvedRefValue { reference: "origin/main"@, sha: base },
        ),
        not_a_ref(w, root, "origin/HEAD"@) && not_a_ref(w, root, "origin/main"@) && merges_at(
            w,
            root,
            head_sha,
            "origin/master"@,
            base,
        ) ==> infer_spec(root, head_ref, w) == Ok::<ResolvedRefValue, ErrorValue>(
            ResolvedRefValue { reference: "origin/master"@, sha: base },
        ),
        not_a_ref(w, root, "origin/HEAD"@) && not_a_ref(w, root, "origin/main"@) && not_a_ref(
            w,
            root,
            "origin/master"@,
        ) ==> infer_spec(root, head_ref, w) == Err::<ResolvedRefValue, ErrorValue>(
            ErrorValue::BaseRefInferenceFailure,
        ),
{
    reveal_with_fuel(infer_from, 4);
    reveal_with_fuel(infer_merge, 4);
    let o = git_answer_of(w, root, seq!["rev-parse"@, "--verify"@, head_ref + "^{commit}"@])->Ok_0;
    answer_law(Seq::empty(), head_ref, o);
    assert(candidate(0) == "origin/HEAD"@);
    assert(candidate(1) == "origin/main"@);
    assert(candidate(2) == "origin/master"@);
    let names = seq!["origin/HEAD"@, "origin/main"@, "origin/master"@];
    assert forall|i: int| 0 <= i < 3 implies {
        let name = #[trigger] names[i];
        let v = git_answer_of(w, root, seq!["rev-parse"@, "--verify"@, name + "^{commit}"@]);
        let mb = git_answer_of(w, root, seq!["merge-base"@, head_sha, name]);
        &&& v matches Ok(x) ==> {
            &&& (printed(x) ==> resolve_outcome(name, v) == Ok::<Seq<char>, ErrorValue>(printed_text(x)))
            &&& (!x.success ==> resolve_outcome(name, v) == Err::<Seq<char>, ErrorValue>(
                ErrorValue::InvalidRef { reference: name },
            ))
        }
        &&& mb matches Ok(y) ==> (printed(y) ==> merge_base_outcome(mb) == Ok::<
            Option<Seq<char>>,
            ErrorValue,
        >(Some(printed_text(y))))
    } by {
        let name = names[i];
        let v = git_answer_of(w, root, seq!["rev-parse"@, "--verify"@, name + "^{commit}"@]);
        let mb = git_answer_of(w, root, seq!["merge-base"@, head_sha, name]);
        if v is Ok {
            answer_law(Seq::empty(), name, v->Ok_0);
        }
        if mb is Ok {
            answer_law(Seq::empty(), name, mb->Ok_0);
        }
    }
    assert(names[0] == "origin/HEAD"@);
    assert(names[1] == "origin/main"@);
    assert(names[2] == "origin/master"@);
}

fn candidate_ref(i: usize) -> (r: &'static str)
    requires
        i < 3,
    ensures
        r@ == candidate(i as nat),
{
    if i == 0 {
        "origin/HEAD"
    } else if i == 1 {
        "origin/main"
    } else {
        "origin/master"
    }
}

enum InferState {
    Head,
    Candidate { head_sha: String, index: usize },
    MergeBase { head_sha: String, index: usize },
    Finished,
}

/// The session that infers the base ref from the head ref and the origin's
/// default branch.
pub struct BaseRefInference {
    root: PathBuf,
    head_ref: String,
    state: InferState,
}

impl BaseRefInference {
    /// The session has not finished.
    pub closed spec fn live(&self) -> bool {
        match self.state {
            InferState::Finished => false,
            InferState::Candidate { index, .. } => index < 3,
            InferState::MergeBase { index, .. } => index < 3,
            InferState::Head => true,
        }
    }

    /// The action the session waits for.
    pub closed spec fn awaiting(&self) -> RequestValue {
        match self.state {
            InferState::Candidate { index, .. } => RequestValue::Git(
                command(self.root, resolve_args(candidate(index as nat))),
            ),
            InferState::MergeBase { head_sha, index } => RequestValue::Git(
                command(self.root, merge_base_args(head_sha@, candidate(index as nat))),
            ),
            _ => RequestValue::Git(command(self.root, resolve_args(self.head_ref@))),
        }
    }

    /// The requests the session makes after the awaited one, in world `w`.
    pub closed spec fn later(&self, w: World) -> Seq<RequestValue> {
        match self.state {
            InferState::Head => after_head_ref_requests(self.root, self.head_ref@, w),
            InferState::Candidate { head_sha, index } => after_resolve_requests(
                self.root,
                head_sha@,
                index as nat,
                w,
            ),
            InferState::MergeBase { head_sha, index } => after_merge_requests(
                self.root,
                head_sha@,
                index as nat,
                w,
            ),
            InferState::Finished => Seq::empty(),
        }
    }

    /// The result the session reaches in world `w`.
    pub closed spec fn outcome(&self, w: World) -> Result<ResolvedRefValue, ErrorValue> {
        match self.state {
            InferState::Head => infer_spec(self.root, self.head_ref@, w),
            InferState::Candidate { head_sha, index } => infer_from(
                self.root,
                head_sha@,
                index as nat,
                w,
            ),
            InferState::MergeBase { head_sha, index } => infer_merge(
                self.root,
                head_sha@,
                index as nat,
                w,
            ),
            InferState::Finished => arbitrary(),
        }
    }

    /// Whether `reply` is an answer this session can take now.
    pub fn accepts(&self, reply: &Reply) -> (b: bool)
        ensures
            b == (self.live() && fits(self.awaiting(), *reply)),
    {
        let live = match &self.state {
            InferState::Finished => false,
            InferState::Candidate { index, .. } => *index < 3,
            InferState::MergeBase { index, .. } => *index < 3,
            InferState::Head => true,
        };
        live && match reply {
            Reply::Git(_) => true,
            _ => false,
        }
    }

    /// Tries the `index`-th candidate, or fails when none is left.
    fn try_candidate(&mut self, head_sha: String, index: usize) -> (step: Step<ResolvedRef>)
        requires
            index <= 3,
        ensures
            step matches Step::Request(q) ==> forall|w: World|
                #![trigger final(self).later(w)]
                seq![q@] + final(self).later(w) == candidate_requests(
                    old(self).root,
                    head_sha@,
                    index as nat,
                    w,
                ),
            step is Done ==> forall|w: World|
                #![trigger candidate_requests(old(self).root, head_sha@, index as nat, w)]
                candidate_requests(old(self).root, head_sha@, index as nat, w)
                    == Seq::<RequestValue>::empty(),
            final(self).root == old(self).root,
            final(self).head_ref == old(self).head_ref,
            match step {
                Step::Request(q) => {
                    &&& final(self).live()
                    &&& q@ == final(self).awaiting()
                    &&& forall|w: World|
                        #![trigger final(self).outcome(w)]
                        final(self).outcome(w) == infer_from(
                            old(self).root,
                            head_sha@,
                            index as nat,
                            w,
                        )
                },
                Step::Done(r) => index >= 3 && r matches Err(AppError::BaseRefInferenceFailure),
            },
    {
        if index >= 3 {
            self.state = InferState::Finished;
            Step::Done(Err(AppError::BaseRefInferenceFailure))
        } else {
            let q = resolve(&self.root, candidate_ref(index));
            self.state = InferState::Candidate { head_sha, index };
            Step::Request(Request::Git(q))
        }
    }

    /// Takes the answer to the awaited action.
    pub fn resume(&mut self, reply: Reply) -> (step: Step<ResolvedRef>)
        requires
            old(self).live(),
            fits(old(self).awaiting(), reply),
        ensures
            step matches Step::Request(q) ==> forall|w: World|
                #![trigger final(self).later(w)]
                answers(w, old(self).awaiting(), reply@) ==> old(self).later(w) == seq![q@]
                    + final(self).later(w),
            step is Done ==> forall|w: World|
                #![trigger old(self).later(w)]
                answers(w, old(self).awaiting(), reply@) ==> old(self).later(w)
                    == Seq::<RequestValue>::empty(),
            match step {
                Step::Request(q) => {
                    &&& final(self).live()
                    &&& q@ == final(self).awaiting()
                    &&& forall|w: World|
                        #![trigger final(self).outcome(w)]
                        answers(w, old(self).awaiting(), reply@) ==> final(self).outcome(w)
                            == old(self).outcome(w)
                },
                Step::Done(r) => forall|w: World|
                    #![trigger old(self).outcome(w)]
                    answers(w, old(self).awaiting(), reply@) ==> viewed_result(r) == old(
                        self,
                    ).outcome(w),
            },
    {
        proof {
            reveal_with_fuel(infer_from, 2);
            reveal_with_fuel(infer_merge, 2);
        }
        let reply = git_answer(reply);
        let mut state = InferState::Finished;
        std::mem::swap(&mut state, &mut self.state);
        match state {
            InferState::Head => {
                match resolve_reply(self.head_ref.as_str(), reply) {
                    Ok(head_sha) => self.try_candidate(head_sha, 0),
                    Err(e) => Step::Done(Err(e)),
                }
            },
            InferState::Candidate { head_sha, index } => {
                match resolve_reply(candidate_ref(index), reply) {
                    Ok(_) => {
                        let q = merge_base(&self.root, head_sha.as_str(), candidate_ref(index));
                        self.state = InferState::MergeBase { head_sha, index };
                        Step::Request(Request::Git(q))
                    },
                    Err(AppError::InvalidRef { .. }) => self.try_candidate(head_sha, index + 1),
                    Err(e) => Step::Done(Err(e)),
                }
            },
            InferState::MergeBase { head_sha, index } => {
                match merge_base_reply(reply) {
                    Ok(Some(sha)) => Step::Done(
                        Ok(ResolvedRef { reference: String::from_str(candidate_ref(index)), sha }),
                    ),
                    Ok(None) => self.try_candidate(head_sha, index + 1),
                    Err(e) => Step::Done(Err(e)),
                }
            },
            InferState::Finished => {
                proof {
                    assert(false);
                }
                Step::Done(Err(AppError::BaseRefInferenceFailure))
            },
        }
    }
}

/// Whether the working tree has changes, untracked files counting and ignored
/// files not.
pub open spec fn dirty_spec(root: PathBuf, w: World) -> Result<bool, ErrorValue> {
    dirty_outcome((w.git)(command(root, status_args())))
}

/// Every request the working-tree check makes: the one `git status`.
pub open spec fn dirty_requests(root: PathBuf) -> Seq<RequestValue> {
    seq![git_request(root, status_args())]
}

/// The session that checks whether the working tree is dirty.
pub struct StatusCheck {
    root: PathBuf,
    finished: bool,
}

impl StatusCheck {
    /// The session has not finished.
    pub closed spec fn live(&self) -> bool {
        !self.finished
    }

    /// The action the session waits for.
    pub closed spec fn awaiting(&self) -> RequestValue {
        RequestValue::Git(command(self.root, status_args()))
    }

    /// The requests the session makes after the awaited one: none.
    pub closed spec fn later(&self, w: World) -> Seq<RequestValue> {
        Seq::empty()
    }

    /// The result the session reaches in world `w`.
    pub closed spec fn outcome(&self, w: World) -> Result<bool, ErrorValue> {
        dirty_spec(self.root, w)
    }

    /// Whether `reply` is an answer this session can take now.
    pub fn accepts(&self, reply: &Reply) -> (b: bool)
        ensures
            b == (self.live() && fits(self.awaiting(), *reply)),
    {
        !self.finished && match reply {
            Reply::Git(_) => true,
            _ => false,
        }
    }

    /// Takes the answer to the awaited action.
    pub fn resume(&mut self, reply: Reply) -> (step: Step<bool>)
        requires
            old(self).live(),
            fits(old(self).awaiting(), reply),
        ensures
            step matches Step::Request(q) ==> forall|w: World|
                #![trigger final(self).later(w)]
                answers(w, old(self).awaiting(), reply@) ==> old(self).later(w) == seq![q@]
                    + final(self).later(w),
            step is Done ==> forall|w: World|
                #![trigger old(self).later(w)]
                answers(w, old(self).awaiting(), reply@) ==> old(self).later(w)
                    == Seq::<RequestValue>::empty(),
            match step {
                Step::Request(_) => false,
                Step::Done(r) => forall|w: World|
                    #![trigger old(self).outcome(w)]
                    answers(w, old(self).awaiting(), reply@) ==> plain_result(r) == old(
                        self,
                    ).outcome(w),
            },
    {
        let reply = git_answer(reply);
        self.finished = true;
        let r = dirty_reply(&words3("status", "--porcelain=v1", "--untracked-files=all"), reply);
        Step::Done(r)
    }
}

impl GitRepository {
    /// Starts checking that the repository is neither bare nor shallow.
    pub fn validate_state(&self) -> (res: (Validation, Step<()>))
        ensures
            res.1 matches Step::Request(q) ==> forall|w: World|
                #![trigger res.0.later(w)]
                seq![q@] + res.0.later(w) == validate_requests(self@.root, w),
            res.1 matches Step::Request(q) && res.0.live() && q@ == res.0.awaiting(),
            forall|w: World|
                #![trigger res.0.outcome(w)]
                res.0.outcome(w) == validate_spec(self@.root, w),
    {
        let s = Validation { root: copy_path(self.root()), state: ValidateState::Bare };
        let q = is_bare(&s.root);
        (s, Step::Request(Request::Git(q)))
    }

    /// Starts resolving `reference` to a commit.
    pub fn resolve_ref(&self, reference: &str) -> (res: (RefResolution, Step<ResolvedRef>))
        ensures
            res.1 matches Step::Request(q) ==> forall|w: World|
                #![trigger res.0.later(w)]
                seq![q@] + res.0.later(w) == resolve_requests(self@.root, reference@),
            res.1 matches Step::Request(q) && res.0.live() && q@ == res.0.awaiting(),
            forall|w: World|
                #![trigger res.0.outcome(w)]
                res.0.outcome(w) == resolve_ref_spec(self@.root, reference@, w),
    {
        let s = RefResolution {
            root: copy_path(self.root()),
            reference: String::from_str(reference),
            finished: false,
        };
        let q = resolve(&s.root, reference);
        (s, Step::Request(Request::Git(q)))
    }

    /// Starts inferring the base ref for `head_ref`.
    pub fn infer_base_ref(&self, head_ref: &str) -> (res: (BaseRefInference, Step<ResolvedRef>))
        ensures
            res.1 matches Step::Request(q) ==> forall|w: World|
                #![trigger res.0.later(w)]
                seq![q@] + res.0.later(w) == infer_requests(self@.root, head_ref@, w),
            res.1 matches Step::Request(q) && res.0.live() && q@ == res.0.awaiting(),
            forall|w: World|
                #![trigger res.0.outcome(w)]
                res.0.outcome(w) == infer_spec(self@.root, head_ref@, w),
    {
        let s = BaseRefInference {
            root: copy_path(self.root()),
            head_ref: String::from_str(head_ref),
            state: InferState::Head,
        };
        let q = resolve(&s.root, head_ref);
        (s, Step::Request(Request::Git(q)))
    }

    /// Starts checking whether the working tree is dirty.
    pub fn is_working_tree_dirty(&self) -> (res: (StatusCheck, Step<bool>))
        ensures
            res.1 matches Step::Request(q) ==> forall|w: World|
                #![trigger res.0.later(w)]
                seq![q@] + res.0.later(w) == dirty_requests(self@.root),
            res.1 matches Step::Request(q) && res.0.live() && q@ == res.0.awaiting(),
            forall|w: World|
                #![trigger res.0.outcome(w)]
                res.0.outcome(w) == dirty_spec(self@.root, w),
    {
        let s = StatusCheck { root: copy_path(self.root()), finished: false };
        let q = status(&s.root);
        (s, Step::Request(Request::Git(q)))
    }
}

} // verus!
