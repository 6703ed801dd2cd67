//! The Git repository the tool works in: the checkout it started from, refs
//! resolved to commits, and the checkouts used to compare two commits.
//!
//! Git itself is run by the caller: each operation is a session that asks for
//! one outside action at a time (see [`world`]) and decides from the answers.


pub mod commands;
pub mod inspect;
pub mod world;
pub mod worktrees;


use std::path::PathBuf;
use vstd::prelude::*;

use crate::path::copy_path;

verus! {

/// Where the run started: on a branch, or on a detached commit.
#[derive(Debug, Clone, PartialEq, Eq)]
pub enum OriginalCheckout {
    Branch { name: String, sha: String },
    Detached { sha: String },
}

/// The value of an [`OriginalCheckout`].
pub ghost enum OriginalCheckoutValue {
    Branch { name: Seq<char>, sha: Seq<char> },
    Detached { sha: Seq<char> },
}

impl View for OriginalCheckout {
    type V = OriginalCheckoutValue;

    open spec fn view(&self) -> OriginalCheckoutValue {
        match self {
            OriginalCheckout::Branch { name, sha } => OriginalCheckoutValue::Branch {
                name: name@,
                sha: sha@,
            },
            OriginalCheckout::Detached { sha } => OriginalCheckoutValue::Detached { sha: sha@ },
        }
    }
}

/// The commit of an original checkout.
pub open spec fn checkout_sha(c: OriginalCheckoutValue) -> Seq<char> {
    match c {
        OriginalCheckoutValue::Branch { sha, .. } => sha,
        OriginalCheckoutValue::Detached { sha } => sha,
    }
}

impl OriginalCheckout {
    /// The commit the run started on.
    pub fn sha(&self) -> (r: &String)
        ensures
            r@ == checkout_sha(self@),
    {
        match self {
            OriginalCheckout::Branch { sha, .. } => sha,
            OriginalCheckout::Detached { sha } => sha,
        }
    }
}

/// A ref as the user wrote it, with the commit it resolved to.
#[derive(Debug, PartialEq, Eq)]
pub struct ResolvedRef {
    pub reference: String,
    pub sha: String,
}

/// The value of a [`ResolvedRef`].
pub ghost struct ResolvedRefValue {
    pub reference: Seq<char>,
    pub sha: Seq<char>,
}

impl View for ResolvedRef {
    type V = ResolvedRefValue;

    open spec fn view(&self) -> ResolvedRefValue {
        ResolvedRefValue { reference: self.reference@, sha: self.sha@ }
    }
}

/// The two refs to compare.
#[derive(Debug, PartialEq, Eq)]
pub struct ResolvedRefs {
    pub base: ResolvedRef,
    pub head: ResolvedRef,
}

/// How one side of the comparison will be checked out: in the current checkout,
/// or in a temporary detached worktree at a commit.
#[derive(Debug, PartialEq, Eq)]
pub enum CheckoutPlan {
    Current { git_root: PathBuf },
    Worktree { reference: String, sha: String },
}

/// The value of a [`CheckoutPlan`].
pub ghost enum CheckoutPlanValue {
    Current { git_root: PathBuf },
    Worktree { reference: Seq<char>, sha: Seq<char> },
}

impl View for CheckoutPlan {
    type V = CheckoutPlanValue;

    open spec fn view(&self) -> CheckoutPlanValue {
        match self {
            CheckoutPlan::Current { git_root } => CheckoutPlanValue::Current { git_root: *git_root },
            CheckoutPlan::Worktree { reference, sha } => CheckoutPlanValue::Worktree {
                reference: reference@,
                sha: sha@,
            },
        }
    }
}

/// The plans for both sides.
#[derive(Debug, PartialEq, Eq)]
pub struct CheckoutPlans {
    pub base: CheckoutPlan,
    pub head: CheckoutPlan,
}

/// Which head to compare: the current working tree as it is, or a resolved ref.
#[derive(Debug, PartialEq, Eq)]
pub enum HeadSelection<'a> {
    Dirty,
    Resolved(&'a ResolvedRef),
}

/// A prepared side of the comparison: the current checkout, or a temporary
/// worktree together with the temporary directory that holds it.
#[derive(Debug, PartialEq, Eq)]
pub enum Checkout {
    Current { git_root: PathBuf },
    Worktree { git_root: PathBuf, temporary_root: PathBuf },
}

/// Both prepared sides.
#[derive(Debug, PartialEq, Eq)]
pub struct Checkouts {
    pub base: Checkout,
    pub head: Checkout,
}

/// The Git root of a prepared checkout.
pub open spec fn checkout_root(c: Checkout) -> PathBuf {
    match c {
        Checkout::Current { git_root } => git_root,
        Checkout::Worktree { git_root, .. } => git_root,
    }
}

impl Checkout {
    /// The directory Git commands for this side run in.
    pub fn git_root(&self) -> (r: &PathBuf)
        ensures
            *r == checkout_root(*self),
    {
        match self {
            Checkout::Current { git_root } => git_root,
            Checkout::Worktree { git_root, .. } => git_root,
        }
    }
}

/// The plan that checks out a resolved ref in a temporary worktree.
pub open spec fn worktree_plan_of(r: ResolvedRefValue) -> CheckoutPlanValue {
    CheckoutPlanValue::Worktree { reference: r.reference, sha: r.sha }
}

impl ResolvedRef {
    /// A temporary worktree at this ref's commit.
    pub fn worktree_plan(&self) -> (r: CheckoutPlan)
        ensures
            r@ == worktree_plan_of(self@),
    {
        CheckoutPlan::Worktree { reference: self.reference.clone(), sha: self.sha.clone() }
    }
}

/// A Git repository found from a directory inside it, with the checkout it was
/// found on.
pub struct GitRepository {
    root: PathBuf,
    original_checkout: OriginalCheckout,
}

/// The value of a [`GitRepository`].
pub ghost struct GitRepositoryValue {
    pub root: PathBuf,
    pub original: OriginalCheckoutValue,
}

impl View for GitRepository {
    type V = GitRepositoryValue;

    closed spec fn view(&self) -> GitRepositoryValue {
        GitRepositoryValue { root: self.root, original: self.original_checkout@ }
    }
}

/// The plans for a comparison: the base always in a worktree; the head in the
/// current checkout when it is the dirty working tree or a ref at the commit
/// the run started on, and in a worktree otherwise.
pub open spec fn plans_for(
    repo: GitRepositoryValue,
    base: ResolvedRefValue,
    head: Option<ResolvedRefValue>,
) -> (CheckoutPlanValue, CheckoutPlanValue) {
    (
        worktree_plan_of(base),
        match head {
            None => CheckoutPlanValue::Current { git_root: repo.root },
            Some(h) => if h.sha == checkout_sha(repo.original) {
                CheckoutPlanValue::Current { git_root: repo.root }
            } else {
                worktree_plan_of(h)
            },
        },
    )
}

/// Where each side is checked out: the base always in a temporary worktree at
/// its own commit; the head in the current checkout exactly when it is the
/// dirty working tree or a ref at the commit the run started on, and otherwise
/// in a temporary worktree at its commit.
pub proof fn plan_law(repo: GitRepositoryValue, base: ResolvedRefValue, head: Option<ResolvedRefValue>)
    ensures
        plans_for(repo, base, head).0 == (CheckoutPlanValue::Worktree {
            reference: base.reference,
            sha: base.sha,
        }),
        (plans_for(repo, base, head).1 is Current) <==> (head is None || head->Some_0.sha
            == match repo.original {
            OriginalCheckoutValue::Branch { sha, .. } => sha,
            OriginalCheckoutValue::Detached { sha } => sha,
        }),
        plans_for(repo, base, head).1 is Current ==> plans_for(repo, base, head).1
            == (CheckoutPlanValue::Current { git_root: repo.root }),
        !(plans_for(repo, base, head).1 is Current) ==> plans_for(repo, base, head).1
            == (CheckoutPlanValue::Worktree {
            reference: head->Some_0.reference,
            sha: head->Some_0.sha,
        }),
{
}

/// The commit of an original checkout is the commit it records, on a branch
/// or detached; the Git root of a prepared side is its `git_root`, never the
/// temporary directory that holds a worktree.
pub proof fn recorded_values_law(name: Seq<char>, sha: Seq<char>, g: PathBuf, t: PathBuf)
    ensures
        checkout_sha(OriginalCheckoutValue::Branch { name, sha }) == sha,
        checkout_sha(OriginalCheckoutValue::Detached { sha }) == sha,
        checkout_root(Checkout::Current { git_root: g }) == g,
        checkout_root(Checkout::Worktree { git_root: g, temporary_root: t }) == g,
{
}

/// The value of a head selection: `None` for the dirty working tree.
pub open spec fn selection_value(h: HeadSelection<'_>) -> Option<ResolvedRefValue> {
    match h {
        HeadSelection::Dirty => None,
        HeadSelection::Resolved(r) => Some(r@),
    }
}

impl GitRepository {
    /// A repository at `root` found on `original_checkout`.
    pub(crate) fn new(root: PathBuf, original_checkout: OriginalCheckout) -> (r: GitRepository)
        ensures
            r@ == (GitRepositoryValue { root, original: original_checkout@ }),
    {
        GitRepository { root, original_checkout }
    }

    /// The repository's top-level directory.
    pub fn root(&self) -> (r: &PathBuf)
        ensures
            *r == self@.root,
    {
        &self.root
    }

    /// The checkout the run started on.
    pub fn original_checkout(&self) -> (r: &OriginalCheckout)
        ensures
            r@ == self@.original,
    {
        &self.original_checkout
    }

    /// Decides where each side of the comparison is checked out.
    pub fn plan_checkouts(&self, base: &ResolvedRef, head: HeadSelection<'_>) -> (r: CheckoutPlans)
        ensures
            (r.base@, r.head@) == plans_for(self@, base@, selection_value(head)),
    {
        let current_sha = self.original_checkout.sha();
        let head_checkout_plan = match head {
            HeadSelection::Dirty => CheckoutPlan::Current { git_root: copy_path(&self.root) },
            HeadSelection::Resolved(head) => {
                if head.sha == *current_sha {
                    CheckoutPlan::Current { git_root: copy_path(&self.root) }
                } else {
                    head.worktree_plan()
                }
            },
        };
        CheckoutPlans { base: base.worktree_plan(), head: head_checkout_plan }
    }
}

} // verus!
