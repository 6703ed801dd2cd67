//! A run of the tool: find the repository, check that it is supported, and
//! refuse a dirty working tree unless `--dirty` was given.
use std::path::PathBuf;
use vstd::prelude::*;

use crate::args::Args;
use crate::error::AppError;
use crate::error::ErrorValue;
use crate::git::inspect::dirty_spec;
use crate::git::inspect::dirty_requests;
use crate::git::inspect::discover_requests;
use crate::git::inspect::validate_requests;
use crate::git::inspect::discover_spec;
use crate::git::inspect::validate_spec;
use crate::git::inspect::validate_law;
use crate::git::inspect::git_answer_of;
use crate::git::inspect::printed;
use crate::git::inspect::printed_text;
use crate::git::inspect::Discovery;
use crate::git::inspect::StatusCheck;
use crate::git::inspect::Validation;
use crate::git::world::answers;
use crate::git::world::fits;
use crate::git::world::plain_result;
use crate::git::world::viewed_result;
use crate::git::world::Reply;
use crate::git::world::RequestValue;
use crate::git::world::Step;
use crate::git::world::World;
use crate::git::GitRepository;
use crate::git::GitRepositoryValue;

verus! {

/// The error for a dirty working tree found by a run (no entries are listed).
pub open spec fn dirty_tree() -> ErrorValue {
    ErrorValue::DirtyWorkingTree { entries: Seq::empty(), remaining: 0 }
}

/// The rest of a run once the repository is valid: with `--dirty` nothing
/// more is checked; otherwise a dirty working tree is refused.
pub open spec fn after_validation(dirty: bool, root: PathBuf, w: World) -> Result<(), ErrorValue> {
    if dirty {
        Ok(())
    } else {
        match dirty_spec(root, w) {
            Err(e) => Err(e),
            Ok(true) => Err(dirty_tree()),
            Ok(false) => Ok(()),
        }
    }
}

/// The rest of a run once the repository is found.
pub open spec fn after_discovery(dirty: bool, repo: GitRepositoryValue, w: World) -> Result<
    (),
    ErrorValue,
> {
    match validate_spec(repo.root, w) {
        Err(e) => Err(e),
        Ok(()) => after_validation(dirty, repo.root, w),
    }
}

/// A run from `current_dir`: the repository is found, must be neither bare
/// nor shallow, and, unless `dirty`, must have a clean working tree.
pub open spec fn run_spec(dirty: bool, current_dir: PathBuf, w: World) -> Result<(), ErrorValue> {
    match discover_spec(current_dir, w) {
        Err(e) => Err(e),
        Ok(repo) => after_discovery(dirty, repo, w),
    }
}

/// What a run asks once the repository is valid: nothing with `--dirty`,
/// otherwise the status of the working tree.
pub open spec fn after_validation_requests(dirty: bool, root: PathBuf) -> Seq<RequestValue> {
    if dirty {
        Seq::empty()
    } else {
        dirty_requests(root)
    }
}

/// What a run asks once the repository at `root` is found: its validation,
/// then, when it is valid, the working-tree check.
pub open spec fn after_discovery_requests(dirty: bool, root: PathBuf, w: World) -> Seq<RequestValue> {
    validate_requests(root, w) + match validate_spec(root, w) {
        Err(_) => Seq::empty(),
        Ok(()) => after_validation_requests(dirty, root),
    }
}

/// Every request a run from `current_dir` makes, in order.
pub open spec fn run_requests(dirty: bool, current_dir: PathBuf, w: World) -> Seq<RequestValue> {
    discover_requests(current_dir, w) + match discover_spec(current_dir, w) {
        Err(_) => Seq::empty(),
        Ok(repo) => after_discovery_requests(dirty, repo.root, w),
    }
}

/// `--dirty` waives the working-tree check and nothing else: a run that
/// succeeds without it succeeds with it, a run refused only for a dirty tree
/// succeeds with it, and a run that fails with it fails the same way without it.
pub proof fn dirty_flag_law(current_dir: PathBuf, w: World)
    ensures
        run_spec(false, current_dir, w) is Ok ==> run_spec(true, current_dir, w) is Ok,
        run_spec(false, current_dir, w) == Err::<(), ErrorValue>(dirty_tree()) ==> run_spec(
            true,
            current_dir,
            w,
        ) is Ok,
        run_spec(true, current_dir, w) is Err ==> run_spec(false, current_dir, w) == run_spec(
            true,
            current_dir,
            w,
        ),
{
}

/// A run asks for the discovery's and the validation's queries and, only
/// without `--dirty` and for a valid repository, for the working tree's status
/// after them; with `--dirty` the status is never asked for.
pub proof fn run_requests_law(current_dir: PathBuf, w: World)
    ensures
        run_requests(true, current_dir, w) == discover_requests(current_dir, w) + match discover_spec(
            current_dir,
            w,
        ) {
            Err(_) => Seq::<RequestValue>::empty(),
            Ok(repo) => validate_requests(repo.root, w),
        },
        run_requests(false, current_dir, w) == run_requests(true, current_dir, w) + match discover_spec(
            current_dir,
            w,
        ) {
            Ok(repo) => match validate_spec(repo.root, w) {
                Ok(()) => dirty_requests(repo.root),
                Err(_) => Seq::<RequestValue>::empty(),
            },
            Err(_) => Seq::<RequestValue>::empty(),
        },
{
    match discover_spec(current_dir, w) {
        Err(_) => {
            assert(run_requests(true, current_dir, w) =~= discover_requests(current_dir, w));
            assert(run_requests(false, current_dir, w) =~= discover_requests(current_dir, w));
        },
        Ok(repo) => {
            match validate_spec(repo.root, w) {
                Err(_) => {
                    assert(after_discovery_requests(true, repo.root, w) =~= validate_requests(repo.root, w));
                    assert(after_discovery_requests(false, repo.root, w) =~= validate_requests(repo.root, w));
                },
                Ok(()) => {
                    assert(after_discovery_requests(true, repo.root, w) =~= validate_requests(repo.root, w));
                },
            }
            assert(run_requests(false, current_dir, w) =~= run_requests(true, current_dir, w)
                + match validate_spec(repo.root, w) {
                Ok(()) => dirty_requests(repo.root),
                Err(_) => Seq::<RequestValue>::empty(),
            });
        },
    }
}

/// A run never gets past a repository it cannot support: once the repository
/// is found, any failure of its validation is the run's result, with or
/// without `--dirty`; in particular a repository that `git rev-parse
/// --is-bare-repository` calls bare is refused as bare, and one that is not
/// bare but shallow is refused as shallow.
pub proof fn unsupported_repository_law(dirty: bool, current_dir: PathBuf, w: World)
    ensures
        discover_spec(current_dir, w) matches Ok(repo) ==> (validate_spec(repo.root, w) matches Err(e)
            ==> run_spec(dirty, current_dir, w) == Err::<(), ErrorValue>(e)),
        discover_spec(current_dir, w) matches Ok(repo) ==> (git_answer_of(
            w,
            repo.root,
            seq!["rev-parse"@, "--is-bare-repository"@],
        ) matches Ok(b) ==> (printed(b) && printed_text(b) == "true"@ ==> run_spec(
            dirty,
            current_dir,
            w,
        ) == Err::<(), ErrorValue>(ErrorValue::BareRepository))),
        discover_spec(current_dir, w) matches Ok(repo) ==> (validate_spec(repo.root, w) is Ok ==> (
        run_spec(dirty, current_dir, w) is Ok <==> (dirty || dirty_spec(repo.root, w) == Ok::<
            bool,
            ErrorValue,
        >(false)))),
{
    match discover_spec(current_dir, w) {
        Ok(repo) => validate_law(repo.root, w),
        Err(_) => {},
    }
}

enum RunState {
    Discovering { sub: Discovery },
    Validating { repo: GitRepository, sub: Validation },
    Checking { sub: StatusCheck },
    Finished,
}

/// The session of a run.
pub struct RunSession {
    dirty: bool,
    state: RunState,
}

impl RunSession {
    /// The session has not finished.
    pub closed spec fn live(&self) -> bool {
        match self.state {
            RunState::Discovering { sub } => sub.live(),
            RunState::Validating { sub, .. } => sub.live(),
            RunState::Checking { sub } => sub.live(),
            RunState::Finished => false,
        }
    }


    /// The action the session waits for.
    pub closed spec fn awaiting(&self) -> RequestValue {
        match self.state {
            RunState::Discovering { sub } => sub.awaiting(),
            RunState::Validating { sub, .. } => sub.awaiting(),
            RunState::Checking { sub } => sub.awaiting(),
            RunState::Finished => arbitrary(),
        }
    }

    /// The requests the session makes after the awaited one, in world `w`.
    pub closed spec fn later(&self, w: World) -> Seq<RequestValue> {
        match self.state {
            RunState::Discovering { sub } => sub.later(w) + match sub.outcome(w) {
                Err(_) => Seq::empty(),
                Ok(repo) => after_discovery_requests(self.dirty, repo.root, w),
            },
            RunState::Validating { repo, sub } => sub.later(w) + match sub.outcome(w) {
                Err(_) => Seq::empty(),
                Ok(()) => after_validation_requests(self.dirty, repo@.root),
            },
            RunState::Checking { sub } => sub.later(w),
            RunState::Finished => Seq::empty(),
        }
    }

    /// The result the session reaches in world `w`.
    pub closed spec fn outcome(&self, w: World) -> Result<(), ErrorValue> {
        match self.state {
            RunState::Discovering { sub } => match sub.outcome(w) {
                Err(e) => Err(e),
                Ok(repo) => after_discovery(self.dirty, repo, w),
            },
            RunState::Validating { repo, sub } => match sub.outcome(w) {
                Err(e) => Err(e),
                Ok(()) => after_validation(self.dirty, repo@.root, w),
            },
            RunState::Checking { sub } => match sub.outcome(w) {
                Err(e) => Err(e),
                Ok(true) => Err(dirty_tree()),
                Ok(false) => Ok(()),
            },
            RunState::Finished => Ok(()),
        }
    }

    /// Whether `reply` is an answer this session can take now.
    pub fn accepts(&self, reply: &Reply) -> (b: bool)
        ensures
            b == (self.live() && fits(self.awaiting(), *reply)),
    {
        match &self.state {
            RunState::Discovering { sub } => sub.accepts(reply),
            RunState::Validating { sub, .. } => sub.accepts(reply),
            RunState::Checking { sub } => sub.accepts(reply),
            RunState::Finished => false,
        }
    }

    /// Goes on with a found repository: checks that it is supported.
    fn discovered(&mut self, repo: GitRepository) -> (step: Step<()>)
        ensures
            step matches Step::Request(q) ==> forall|w: World|
                #![trigger final(self).later(w)]
                seq![q@] + final(self).later(w) == after_discovery_requests(
                    old(self).dirty,
                    repo@.root,
                    w,
                ),
            final(self).dirty == old(self).dirty,
            step matches Step::Request(q) && final(self).live() && q@ == final(self).awaiting(),
            forall|w: World|
                #![trigger final(self).outcome(w)]
                final(self).outcome(w) == after_discovery(old(self).dirty, repo@, w),
    {
        let (sub, step) = repo.validate_state();
        self.state = RunState::Validating { repo, sub };
        step
    }

    /// Goes on with a supported repository at `root`.
    fn validated(&mut self, repo: GitRepository) -> (step: Step<()>)
        ensures
            step matches Step::Request(q) ==> forall|w: World|
                #![trigger final(self).later(w)]
                seq![q@] + final(self).later(w) == after_validation_requests(
                    old(self).dirty,
                    repo@.root,
                ),
            step is Done ==> after_validation_requests(old(self).dirty, repo@.root)
                == Seq::<RequestValue>::empty(),
            final(self).dirty == old(self).dirty,
            match step {
                Step::Request(q) => {
                    &&& final(self).live()
                    &&& q@ == final(self).awaiting()
                    &&& forall|w: World|
                        #![trigger final(self).outcome(w)]
                        final(self).outcome(w) == after_validation(old(self).dirty, repo@.root, w)
                },
                Step::Done(r) => forall|w: World|
                    #![trigger after_validation(old(self).dirty, repo@.root, w)]
                    plain_result(r) == after_validation(old(self).dirty, repo@.root, w),
            },
    {
        if self.dirty {
            self.state = RunState::Finished;
            Step::Done(Ok(()))
        } else {
            let (sub, step) = repo.is_working_tree_dirty();
            self.state = RunState::Checking { sub };
            match step {
                Step::Request(q) => Step::Request(q),
                Step::Done(_) => {
                    proof {
                        assert(false);
                    }
                    Step::Done(Ok(()))
                },
            }
        }
    }

    /// Takes the answer to the awaited action.
    pub fn resume(&mut self, reply: Reply) -> (step: Step<()>)
        requires
            old(self).live(),
            fits(old(self).awaiting(), reply),
        ensures
            step matches Step::Request(q) ==> forall|w: World|
                #![trigger final(self).later(w)]
                answers(w, old(self).awaiting(), reply@) ==> old(self).later(w) == seq![q@]
                    + final(self).later(w),
            step is Done ==> forall|w: World|
                #![trigger old(self).later(w)]
                answers(w, old(self).awaiting(), reply@) ==> old(self).later(w)
                    == Seq::<RequestValue>::empty(),
            match step {
                Step::Request(q) => {
                    &&& final(self).live()
                    &&& q@ == final(self).awaiting()
                    &&& forall|w: World|
                        #![trigger final(self).outcome(w)]
                        answers(w, old(self).awaiting(), reply@)
                            ==> final(self).outcome(w) == old(self).outcome(w)
                },
                Step::Done(r) => forall|w: World|
                    #![trigger old(self).outcome(w)]
                    answers(w, old(self).awaiting(), reply@)
                        ==> plain_result(r) == old(self).outcome(w),
            },
    {
        let mut state = RunState::Finished;
        std::mem::swap(&mut state, &mut self.state);
        match state {
            RunState::Discovering { mut sub } => {
                let step = sub.resume(reply);
                match step {
                    Step::Request(q) => {
                        self.state = RunState::Discovering { sub };
                        Step::Request(q)
                    },
                    Step::Done(Ok(repo)) => self.discovered(repo),
                    Step::Done(Err(e)) => Step::Done(Err(e)),
                }
            },
            RunState::Validating { repo, mut sub } => {
                let step = sub.resume(reply);
                match step {
                    Step::Request(q) => {
                        self.state = RunState::Validating { repo, sub };
                        Step::Request(q)
                    },
                    Step::Done(Ok(())) => self.validated(repo),
                    Step::Done(Err(e)) => Step::Done(Err(e)),
                }
            },
            RunState::Checking { mut sub } => {
                let step = sub.resume(reply);
                match step {
                    Step::Request(_) => {
                        proof {
                            assert(false);
                        }
                        Step::Done(Ok(()))
                    },
                    Step::Done(Ok(true)) => {
                        let entries: Vec<String> = Vec::new();
                        proof {
                            assert(crate::text::texts(entries@) =~= Seq::<Seq<char>>::empty());
                        }
                        Step::Done(Err(AppError::DirtyWorkingTree { entries, remaining: 0 }))
                    },
                    Step::Done(Ok(false)) => Step::Done(Ok(())),
                    Step::Done(Err(e)) => Step::Done(Err(e)),
                }
            },
            RunState::Finished => {
                proof {
                    assert(false);
                }
                Step::Done(Ok(()))
            },
        }
    }
}

/// Starts a run of the tool from `current_dir`.
pub fn run(args: &Args, current_dir: &PathBuf) -> (res: (RunSession, Step<()>))
    ensures
        res.1 matches Step::Request(q) ==> forall|w: World|
            #![trigger res.0.later(w)]
            seq![q@] + res.0.later(w) == run_requests(args.dirty, *current_dir, w),
        res.1 matches Step::Request(q) && res.0.live() && q@ == res.0.awaiting(),
        forall|w: World|
            #![trigger res.0.outcome(w)]
            res.0.outcome(w) == run_spec(args.dirty, *current_dir, w),
{
    let (sub, step) = GitRepository::discover(current_dir);
    let step = match step {
        Step::Request(q) => Step::Request(q),
        Step::Done(_) => {
            proof {
                assert(false);
            }
            Step::Done(Ok(()))
        },
    };
    (
        RunSession {
            dirty: args.dirty,
            state: RunState::Discovering { sub },
        },
        step,
    )
}

} // verus!
