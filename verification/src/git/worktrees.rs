//! Sessions that change worktrees: adding and removing a temporary detached
//! worktree, preparing both sides of a comparison, and cleaning them up.
use std::path::PathBuf;
use vstd::prelude::*;
use vstd::string::StringExecFns;

use crate::error::error_message;
use crate::error::AppError;
use crate::error::ErrorValue;
use crate::git::commands::add_worktree;
use crate::git::commands::add_worktree_args;
use crate::git::commands::command;
use crate::git::commands::plain_unit;
use crate::git::commands::remove_worktree;
use crate::git::commands::remove_worktree_args;
use crate::git::commands::unit_outcome;
use crate::git::commands::unit_reply;
use crate::git::commands::words4;
use crate::git::commands::words5;
use crate::git::inspect::git_answer;
use crate::git::inspect::git_request;
use crate::git::world::answers;
use crate::git::world::GitCommandValue;
use crate::git::checkout_root;
use crate::git::world::fits;
use crate::git::world::Reply;
use crate::git::world::ReplyValue;
use crate::git::world::Request;
use crate::git::world::RequestValue;
use crate::git::world::Side;
use crate::git::world::Step;
use crate::git::world::World;
use crate::git::Checkout;
use crate::git::CheckoutPlan;
use crate::git::CheckoutPlanValue;
use crate::git::CheckoutPlans;
use crate::git::Checkouts;
use crate::git::GitRepository;
use crate::path::copy_path;
use crate::path::join;
use crate::path::joined_path;
use crate::path::path_from_text;
use crate::path::path_of;
use crate::path::path_text;
use crate::path::shown;
use crate::path::shown_path;
use crate::path::text;
use crate::text::texts;

verus! {

/// The error for a worktree path that is not valid UTF-8.
pub open spec fn non_utf8_path(shown: Seq<char>) -> ErrorValue {
    ErrorValue::CheckoutFailure { message: "worktree path is not valid UTF-8: "@ + shown }
}

/// Removing the worktree at `path` (its text must be UTF-8).
pub open spec fn remove_worktree_spec(root: PathBuf, path: PathBuf, w: World) -> Result<
    (),
    ErrorValue,
> {
    match path_text(path) {
        None => Err(non_utf8_path(shown_path(path))),
        Some(t) => unit_outcome(remove_worktree_args(t), (w.git)(command(root, remove_worktree_args(t)))),
    }
}

/// Adding a detached worktree at `path` on commit `sha` (the path's text must
/// be UTF-8).
pub open spec fn add_worktree_spec(root: PathBuf, path: PathBuf, sha: Seq<char>, w: World) -> Result<
    (),
    ErrorValue,
> {
    match path_text(path) {
        None => Err(non_utf8_path(shown_path(path))),
        Some(t) => unit_outcome(
            add_worktree_args(t, sha),
            (w.git)(command(root, add_worktree_args(t, sha))),
        ),
    }
}

/// Removing the temporary directory that held a worktree.
pub open spec fn remove_temp_spec(temp: PathBuf, w: World) -> Result<(), ErrorValue> {
    match (w.remove_dir)(temp) {
        Ok(()) => Ok(()),
        Err(e) => Err(
            ErrorValue::CheckoutFailure {
                message: "failed to remove temporary worktree directory "@ + shown_path(temp)
                    + ": "@ + e,
            },
        ),
    }
}

/// Cleaning up one side: nothing for the current checkout; for a temporary
/// worktree, removing the worktree and then its temporary directory.
pub open spec fn cleanup_checkout_spec(root: PathBuf, c: Checkout, w: World) -> Result<
    (),
    ErrorValue,
> {
    match c {
        Checkout::Current { .. } => Ok(()),
        Checkout::Worktree { git_root, temporary_root } => match remove_worktree_spec(
            root,
            git_root,
            w,
        ) {
            Err(e) => Err(e),
            Ok(()) => remove_temp_spec(temporary_root, w),
        },
    }
}

/// The result of cleaning up both sides, from the result for each side.
pub open spec fn combine_cleanups(base: Result<(), ErrorValue>, head: Result<(), ErrorValue>) -> Result<
    (),
    ErrorValue,
> {
    match (base, head) {
        (Ok(()), Ok(())) => Ok(()),
        (Err(b), Ok(())) => Err(
            ErrorValue::CheckoutFailure {
                message: "failed to clean up base checkout: "@ + error_message(b),
            },
        ),
        (Ok(()), Err(h)) => Err(
            ErrorValue::CheckoutFailure {
                message: "failed to clean up head checkout: "@ + error_message(h),
            },
        ),
        (Err(b), Err(h)) => Err(
            ErrorValue::CheckoutFailure {
                message: "failed to clean up base checkout: "@ + error_message(b)
                    + "; failed to clean up head checkout: "@ + error_message(h),
            },
        ),
    }
}

/// Cleaning up both sides: both are always attempted, the base first.
pub open spec fn cleanup_checkouts_spec(root: PathBuf, cs: Checkouts, w: World) -> Result<
    (),
    ErrorValue,
> {
    combine_cleanups(cleanup_checkout_spec(root, cs.base, w), cleanup_checkout_spec(root, cs.head, w))
}

/// Cleanup of both sides succeeds exactly when the cleanup of each side does;
/// a failure on one side is reported without hiding the other's, and the
/// current checkout is never touched.
pub proof fn cleanup_law(root: PathBuf, cs: Checkouts, w: World)
    ensures
        cleanup_checkouts_spec(root, cs, w) is Ok <==> (cleanup_checkout_spec(root, cs.base, w) is Ok
            && cleanup_checkout_spec(root, cs.head, w) is Ok),
        cleanup_checkout_spec(root, cs.base, w) is Err && cleanup_checkout_spec(root, cs.head, w) is Err
            ==> cleanup_checkouts_spec(root, cs, w) == Err::<(), ErrorValue>(
            ErrorValue::CheckoutFailure {
                message: "failed to clean up base checkout: "@ + error_message(
                    cleanup_checkout_spec(root, cs.base, w)->Err_0,
                ) + "; failed to clean up head checkout: "@ + error_message(
                    cleanup_checkout_spec(root, cs.head, w)->Err_0,
                ),
            },
        ),
        cs.base is Current ==> cleanup_checkout_spec(root, cs.base, w) == Ok::<(), ErrorValue>(()),
        cs.head is Current ==> cleanup_checkout_spec(root, cs.head, w) == Ok::<(), ErrorValue>(()),
{
}

/// Every request removing the worktree at `path` makes: the one `git worktree
/// remove`, when the path has a UTF-8 text.
pub open spec fn remove_worktree_requests(root: PathBuf, path: PathBuf) -> Seq<RequestValue> {
    match path_text(path) {
        None => Seq::empty(),
        Some(t) => seq![git_request(root, remove_worktree_args(t))],
    }
}

/// Every request adding a worktree at `path` makes: the one `git worktree
/// add`, when the path has a UTF-8 text.
pub open spec fn add_worktree_requests(root: PathBuf, path: PathBuf, sha: Seq<char>) -> Seq<
    RequestValue,
> {
    match path_text(path) {
        None => Seq::empty(),
        Some(t) => seq![git_request(root, add_worktree_args(t, sha))],
    }
}

/// What cleaning up a worktree side asks after `git worktree remove` (with
/// `args`): removing its temporary directory, only when the worktree was
/// removed.
pub open spec fn after_worktree_removal_requests(
    root: PathBuf,
    args: Seq<Seq<char>>,
    temp: PathBuf,
    w: World,
) -> Seq<RequestValue> {
    match unit_outcome(args, (w.git)(command(root, args))) {
        Ok(()) => seq![RequestValue::RemoveDirAll { path: temp }],
        Err(_) => Seq::empty(),
    }
}

/// Every request cleaning up one side makes: none for the current checkout;
/// for a worktree, removing it and then, when that succeeded, its temporary
/// directory.
pub open spec fn cleanup_checkout_requests(root: PathBuf, c: Checkout, w: World) -> Seq<RequestValue> {
    match c {
        Checkout::Current { .. } => Seq::empty(),
        Checkout::Worktree { git_root, temporary_root } => match path_text(git_root) {
            None => Seq::empty(),
            Some(t) => seq![git_request(root, remove_worktree_args(t))]
                + after_worktree_removal_requests(root, remove_worktree_args(t), temporary_root, w),
        },
    }
}

/// Every request cleaning up both sides makes: the base side's, then the head
/// side's.
pub open spec fn cleanup_checkouts_requests(root: PathBuf, cs: Checkouts, w: World) -> Seq<
    RequestValue,
> {
    cleanup_checkout_requests(root, cs.base, w) + cleanup_checkout_requests(root, cs.head, w)
}

/// The prefix of the names of the temporary directories.
pub open spec fn temp_prefix() -> Seq<char> {
    "bazel-diff-targets-"@
}

/// Adding a worktree inside a fresh temporary directory `temp`: the worktree
/// is the directory `worktree` in it.
pub open spec fn add_in_temp(root: PathBuf, sha: Seq<char>, temp: PathBuf, w: World) -> Result<
    Checkout,
    ErrorValue,
> {
    let worktree = joined_path(temp, path_of("worktree"@));
    match add_worktree_spec(root, worktree, sha, w) {
        Err(e) => Err(e),
        Ok(()) => Ok(Checkout::Worktree { git_root: worktree, temporary_root: temp }),
    }
}

/// Preparing a temporary worktree at `sha` for one side.
pub open spec fn prepare_worktree_spec(root: PathBuf, sha: Seq<char>, side: Side, w: World) -> Result<
    Checkout,
    ErrorValue,
> {
    match (w.temp_dir)(temp_prefix(), side) {
        Err(e) => Err(
            ErrorValue::CheckoutFailure {
                message: "failed to create temporary worktree directory: "@ + e,
            },
        ),
        Ok(temp) => add_in_temp(root, sha, temp, w),
    }
}

/// Preparing one side from its plan.
pub open spec fn prepare_checkout_spec(
    root: PathBuf,
    plan: CheckoutPlanValue,
    side: Side,
    w: World,
) -> Result<Checkout, ErrorValue> {
    match plan {
        CheckoutPlanValue::Current { git_root } => Ok(Checkout::Current { git_root }),
        CheckoutPlanValue::Worktree { sha, .. } => prepare_worktree_spec(root, sha, side, w),
    }
}

/// The error when the head side cannot be prepared and the prepared base side
/// cannot be cleaned up either.
pub open spec fn head_and_cleanup_failure(prepare: ErrorValue, cleanup: ErrorValue) -> ErrorValue {
    ErrorValue::CheckoutFailure {
        message: "failed to prepare head checkout: "@ + error_message(prepare)
            + "; failed to clean up base checkout: "@ + error_message(cleanup),
    }
}

/// After the head side failed: the base side is cleaned up, and the head's
/// error is reported (with the cleanup's error when that fails too).
pub open spec fn after_head_failure(root: PathBuf, base: Checkout, error: ErrorValue, w: World) -> Result<
    Checkouts,
    ErrorValue,
> {
    match cleanup_checkout_spec(root, base, w) {
        Ok(()) => Err(error),
        Err(c) => Err(head_and_cleanup_failure(error, c)),
    }
}

/// After the head side finished with `r`: both sides, or the head's failure.
pub open spec fn after_head(root: PathBuf, base: Checkout, r: Result<Checkout, ErrorValue>, w: World) -> Result<
    Checkouts,
    ErrorValue,
> {
    match r {
        Ok(h) => Ok(Checkouts { base, head: h }),
        Err(e) => after_head_failure(root, base, e, w),
    }
}

/// After the base side was prepared: the head side is prepared.
pub open spec fn after_base(root: PathBuf, base: Checkout, head: CheckoutPlanValue, w: World) -> Result<
    Checkouts,
    ErrorValue,
> {
    match prepare_checkout_spec(root, head, Side::Head, w) {
        Ok(h) => Ok(Checkouts { base, head: h }),
        Err(e) => after_head_failure(root, base, e, w),
    }
}

/// Preparing both sides: the base first; when the head cannot be prepared the
/// base is cleaned up again.
pub open spec fn prepare_checkouts_spec(
    root: PathBuf,
    base: CheckoutPlanValue,
    head: CheckoutPlanValue,
    w: World,
) -> Result<Checkouts, ErrorValue> {
    match prepare_checkout_spec(root, base, Side::Base, w) {
        Err(e) => Err(e),
        Ok(b) => after_base(root, b, head, w),
    }
}

/// What preparing a worktree side asks after `git worktree add` (with `args`):
/// removing the temporary directory `temp`, only when the add failed.
pub open spec fn after_add_requests(root: PathBuf, args: Seq<Seq<char>>, temp: PathBuf, w: World) -> Seq<
    RequestValue,
> {
    match unit_outcome(args, (w.git)(command(root, args))) {
        Ok(()) => Seq::empty(),
        Err(_) => seq![RequestValue::RemoveDirAll { path: temp }],
    }
}

/// What preparing a worktree side asks once its temporary directory `temp`
/// exists: adding the worktree inside it, and removing `temp` again when the
/// worktree cannot be added.
pub open spec fn add_in_temp_requests(root: PathBuf, sha: Seq<char>, temp: PathBuf, w: World) -> Seq<
    RequestValue,
> {
    match path_text(joined_path(temp, path_of("worktree"@))) {
        None => seq![RequestValue::RemoveDirAll { path: temp }],
        Some(t) => seq![git_request(root, add_worktree_args(t, sha))] + after_add_requests(
            root,
            add_worktree_args(t, sha),
            temp,
            w,
        ),
    }
}

/// What preparing a worktree side asks after creating its temporary
/// directory.
pub open spec fn after_temp_requests(root: PathBuf, sha: Seq<char>, side: Side, w: World) -> Seq<
    RequestValue,
> {
    match (w.temp_dir)(temp_prefix(), side) {
        Err(_) => Seq::empty(),
        Ok(temp) => add_in_temp_requests(root, sha, temp, w),
    }
}

/// Every request preparing one side makes: none for the current checkout; for
/// a worktree, creating its temporary directory, adding the worktree there,
/// and removing that directory again when the worktree cannot be added.
pub open spec fn prepare_checkout_requests(
    root: PathBuf,
    plan: CheckoutPlanValue,
    side: Side,
    w: World,
) -> Seq<RequestValue> {
    match plan {
        CheckoutPlanValue::Current { .. } => Seq::empty(),
        CheckoutPlanValue::Worktree { sha, .. } => seq![
            RequestValue::CreateTempDir { prefix: temp_prefix(), side },
        ] + after_temp_requests(root, sha, side, w),
    }
}

/// What follows when the head side finished with `r`: cleaning up the base
/// side, only when the head failed.
pub open spec fn after_head_requests(
    root: PathBuf,
    base: Checkout,
    r: Result<Checkout, ErrorValue>,
    w: World,
) -> Seq<RequestValue> {
    match r {
        Ok(_) => Seq::empty(),
        Err(_) => cleanup_checkout_requests(root, base, w),
    }
}

/// What follows a prepared base side: preparing the head side, then cleaning
/// up the base side when the head failed.
pub open spec fn after_base_requests(root: PathBuf, base: Checkout, head: CheckoutPlanValue, w: World) -> Seq<
    RequestValue,
> {
    prepare_checkout_requests(root, head, Side::Head, w) + after_head_requests(
        root,
        base,
        prepare_checkout_spec(root, head, Side::Head, w),
        w,
    )
}

/// Every request preparing both sides makes: the base side's; when it was
/// prepared, the head side's; and when the head failed, the base side's
/// cleanup. The head side is never started after the base side failed.
pub open spec fn prepare_checkouts_requests(
    root: PathBuf,
    base: CheckoutPlanValue,
    head: CheckoutPlanValue,
    w: World,
) -> Seq<RequestValue> {
    prepare_checkout_requests(root, base, Side::Base, w) + match prepare_checkout_spec(
        root,
        base,
        Side::Base,
        w,
    ) {
        Err(_) => Seq::empty(),
        Ok(b) => after_base_requests(root, b, head, w),
    }
}

/// `c` is what preparing `plan` for `side` makes in world `w`: the planned
/// current checkout itself, or the `worktree` directory inside the temporary
/// directory created for that side.
pub open spec fn made_for(c: Checkout, plan: CheckoutPlanValue, side: Side, w: World) -> bool {
    match plan {
        CheckoutPlanValue::Current { git_root } => c == (Checkout::Current { git_root }),
        CheckoutPlanValue::Worktree { .. } => match (w.temp_dir)(temp_prefix(), side) {
            Ok(temp) => c == (Checkout::Worktree {
                git_root: joined_path(temp, path_of("worktree"@)),
                temporary_root: temp,
            }),
            Err(_) => false,
        },
    }
}

/// Preparation hands back only what it made: each prepared side is the
/// planned current checkout or a worktree inside the temporary directory
/// created for that side; so cleaning up the result, whenever that happens,
/// asks for nothing but removing the worktrees preparation added and the
/// temporary directories it created.
pub proof fn prepared_sides_law(root: PathBuf, base: CheckoutPlanValue, head: CheckoutPlanValue, w: World)
    requires
        prepare_checkouts_spec(root, base, head, w) is Ok,
    ensures
        made_for(prepare_checkouts_spec(root, base, head, w)->Ok_0.base, base, Side::Base, w),
        made_for(prepare_checkouts_spec(root, base, head, w)->Ok_0.head, head, Side::Head, w),
        forall|later: World|
            #![trigger cleanup_checkouts_requests(root, prepare_checkouts_spec(root, base, head, w)->Ok_0, later)]
            undoes_only_preparation(
                root,
                cleanup_checkouts_requests(root, prepare_checkouts_spec(root, base, head, w)->Ok_0, later),
                w,
            ),
{
    let cs = prepare_checkouts_spec(root, base, head, w)->Ok_0;
    assert forall|later: World|
        #![trigger cleanup_checkouts_requests(root, cs, later)]
        undoes_only_preparation(root, cleanup_checkouts_requests(root, cs, later), w) by {
        cleanup_requests_law(root, cs, later);
        let qs = cleanup_checkouts_requests(root, cs, later);
        assert forall|i: int| 0 <= i < qs.len() implies undoes_preparation(root, #[trigger] qs[i], w) by {
            assert(removes_handed(root, qs[i], cs.base) || removes_handed(root, qs[i], cs.head));
        }
    }
}

/// `q` undoes part of a preparation in world `w`: it removes a temporary
/// directory created for a side, or the worktree added inside one.
pub open spec fn undoes_preparation(root: PathBuf, q: RequestValue, w: World) -> bool {
    ||| (q matches RequestValue::RemoveDirAll { path } && created_temp(path, w))
    ||| ((w.temp_dir)(temp_prefix(), Side::Base) matches Ok(t) && path_text(
        joined_path(t, path_of("worktree"@)),
    ) matches Some(x) && q == git_request(root, remove_worktree_args(x)))
    ||| ((w.temp_dir)(temp_prefix(), Side::Head) matches Ok(t) && path_text(
        joined_path(t, path_of("worktree"@)),
    ) matches Some(x) && q == git_request(root, remove_worktree_args(x)))
}

/// Every request in `qs` undoes part of a preparation in world `w`.
pub open spec fn undoes_only_preparation(root: PathBuf, qs: Seq<RequestValue>, w: World) -> bool {
    forall|i: int| 0 <= i < qs.len() ==> undoes_preparation(root, #[trigger] qs[i], w)
}

/// `q` removes something of side `c` that cleanup was handed: the worktree at
/// its Git root (by that path's text) or its temporary directory. The current
/// checkout has nothing to remove.
pub open spec fn removes_handed(root: PathBuf, q: RequestValue, c: Checkout) -> bool {
    match c {
        Checkout::Current { .. } => false,
        Checkout::Worktree { git_root, temporary_root } => {
            ||| q == (RequestValue::RemoveDirAll { path: temporary_root })
            ||| (path_text(git_root) matches Some(t) && q == git_request(
                root,
                remove_worktree_args(t),
            ))
        },
    }
}

/// Cleanup touches only what it was handed: every request it makes removes a
/// handed worktree or the temporary directory holding it; it asks nothing for
/// the current checkout; and when removing a worktree fails, its temporary
/// directory is kept.
pub proof fn cleanup_requests_law(root: PathBuf, cs: Checkouts, w: World)
    ensures
        forall|i: int|
            0 <= i < cleanup_checkouts_requests(root, cs, w).len() ==> removes_handed(
                root,
                #[trigger] cleanup_checkouts_requests(root, cs, w)[i],
                cs.base,
            ) || removes_handed(root, cleanup_checkouts_requests(root, cs, w)[i], cs.head),
        forall|c: Checkout|
            #![trigger cleanup_checkout_requests(root, c, w)]
            c is Current ==> cleanup_checkout_requests(root, c, w) == Seq::<RequestValue>::empty(),
        forall|g: PathBuf, t: PathBuf|
            #![trigger cleanup_checkout_requests(root, Checkout::Worktree { git_root: g, temporary_root: t }, w)]
            path_text(g) matches Some(tx) ==> (unit_outcome(
                remove_worktree_args(tx),
                (w.git)(command(root, remove_worktree_args(tx))),
            ) is Err ==> cleanup_checkout_requests(
                root,
                Checkout::Worktree { git_root: g, temporary_root: t },
                w,
            ) == seq![git_request(root, remove_worktree_args(tx))]),
{
    let b = cleanup_checkout_requests(root, cs.base, w);
    let h = cleanup_checkout_requests(root, cs.head, w);
    assert forall|i: int| 0 <= i < b.len() implies removes_handed(root, #[trigger] b[i], cs.base) by {}
    assert forall|i: int| 0 <= i < h.len() implies removes_handed(root, #[trigger] h[i], cs.head) by {}
    assert forall|i: int| 0 <= i < (b + h).len() implies removes_handed(
        root,
        #[trigger] (b + h)[i],
        cs.base,
    ) || removes_handed(root, (b + h)[i], cs.head) by {
        if i < b.len() {
            assert((b + h)[i] == b[i]);
        } else {
            assert((b + h)[i] == h[i - b.len()]);
        }
    }
}

/// `p` is a temporary directory created while preparing a side in world `w`.
pub open spec fn created_temp(p: PathBuf, w: World) -> bool {
    ||| (w.temp_dir)(temp_prefix(), Side::Base) == Ok::<PathBuf, Seq<char>>(p)
    ||| (w.temp_dir)(temp_prefix(), Side::Head) == Ok::<PathBuf, Seq<char>>(p)
}

/// Every directory removal in `qs` removes a temporary directory created in
/// world `w`.
pub open spec fn removes_only_created(qs: Seq<RequestValue>, w: World) -> bool {
    forall|i: int|
        0 <= i < qs.len() ==> (#[trigger] qs[i] matches RequestValue::RemoveDirAll { path } ==> created_temp(
            path,
            w,
        ))
}

proof fn lemma_removes_only_created_concat(a: Seq<RequestValue>, b: Seq<RequestValue>, w: World)
    requires
        removes_only_created(a, w),
        removes_only_created(b, w),
    ensures
        removes_only_created(a + b, w),
{
    assert forall|i: int| 0 <= i < (a + b).len() implies (#[trigger] (a + b)[i] matches RequestValue::RemoveDirAll {
        path,
    } ==> created_temp(path, w)) by {
        if i < a.len() {
            assert((a + b)[i] == a[i]);
        } else {
            assert((a + b)[i] == b[i - a.len()]);
        }
    }
}

proof fn lemma_side_removes_only_created(root: PathBuf, plan: CheckoutPlanValue, side: Side, w: World)
    ensures
        removes_only_created(prepare_checkout_requests(root, plan, side, w), w),
        prepare_checkout_spec(root, plan, side, w) matches Ok(c) ==> removes_only_created(
            cleanup_checkout_requests(root, c, w),
            w,
        ),
{
    match plan {
        CheckoutPlanValue::Current { .. } => {},
        CheckoutPlanValue::Worktree { sha, .. } => {
            match (w.temp_dir)(temp_prefix(), side) {
                Err(_) => {},
                Ok(temp) => {
                    let worktree = joined_path(temp, path_of("worktree"@));
                    match path_text(worktree) {
                        None => {},
                        Some(t) => {
                            lemma_removes_only_created_concat(
                                seq![git_request(root, add_worktree_args(t, sha))],
                                after_add_requests(root, add_worktree_args(t, sha), temp, w),
                                w,
                            );
                        },
                    }
                    match path_text(worktree) {
                        None => {},
                        Some(t) => {
                            lemma_removes_only_created_concat(
                                seq![git_request(root, remove_worktree_args(t))],
                                after_worktree_removal_requests(
                                    root,
                                    remove_worktree_args(t),
                                    temp,
                                    w,
                                ),
                                w,
                            );
                        },
                    }
                },
            }
            lemma_removes_only_created_concat(
                seq![RequestValue::CreateTempDir { prefix: temp_prefix(), side }],
                after_temp_requests(root, sha, side, w),
                w,
            );
        },
    }
}

/// Preparation removes only what it created, and nothing after a failed
/// base: every directory it asks to remove is a temporary directory it created
/// (a side's own, when adding that side's worktree failed, or the base's, when
/// the head failed); when the base side cannot be prepared, the head side is
/// never started; and a side planned as the current checkout asks for nothing.
pub proof fn prepare_requests_law(root: PathBuf, base: CheckoutPlanValue, head: CheckoutPlanValue, w: World)
    ensures
        removes_only_created(prepare_checkouts_requests(root, base, head, w), w),
        prepare_checkout_spec(root, base, Side::Base, w) is Err ==> prepare_checkouts_requests(
            root,
            base,
            head,
            w,
        ) == prepare_checkout_requests(root, base, Side::Base, w),
        forall|side: Side|
            #![trigger prepare_checkout_requests(root, base, side, w)]
            base is Current ==> prepare_checkout_requests(root, base, side, w) == Seq::<
                RequestValue,
            >::empty(),
{
    lemma_side_removes_only_created(root, base, Side::Base, w);
    lemma_side_removes_only_created(root, head, Side::Head, w);
    match prepare_checkout_spec(root, base, Side::Base, w) {
        Err(_) => {
            lemma_removes_only_created_concat(
                prepare_checkout_requests(root, base, Side::Base, w),
                Seq::empty(),
                w,
            );
            assert(prepare_checkouts_requests(root, base, head, w) =~= prepare_checkout_requests(
                root,
                base,
                Side::Base,
                w,
            ));
        },
        Ok(b) => {
            lemma_removes_only_created_concat(
                Seq::<RequestValue>::empty(),
                Seq::empty(),
                w,
            );
            lemma_removes_only_created_concat(
                prepare_checkout_requests(root, head, Side::Head, w),
                after_head_requests(root, b, prepare_checkout_spec(root, head, Side::Head, w), w),
                w,
            );
            lemma_removes_only_created_concat(
                prepare_checkout_requests(root, base, Side::Base, w),
                after_base_requests(root, b, head, w),
                w,
            );
        },
    }
}

/// The Git root of each prepared side is where its commands run: for a side
/// planned as the current checkout, the planned root; for a worktree side, the
/// very path that preparation handed to `git worktree add --detach` with the
/// side's commit.
pub proof fn prepared_root_law(root: PathBuf, base: CheckoutPlanValue, head: CheckoutPlanValue, w: World)
    requires
        prepare_checkouts_spec(root, base, head, w) is Ok,
    ensures
        base matches CheckoutPlanValue::Worktree { sha, .. } ==> (path_text(
            checkout_root(prepare_checkouts_spec(root, base, head, w)->Ok_0.base),
        ) matches Some(t) && prepare_checkouts_requests(root, base, head, w).contains(
            RequestValue::Git(
                GitCommandValue {
                    dir: root,
                    args: seq!["worktree"@, "add"@, "--detach"@, t, sha],
                },
            ),
        )),
        head matches CheckoutPlanValue::Worktree { sha, .. } ==> (path_text(
            checkout_root(prepare_checkouts_spec(root, base, head, w)->Ok_0.head),
        ) matches Some(t) && prepare_checkouts_requests(root, base, head, w).contains(
            RequestValue::Git(
                GitCommandValue {
                    dir: root,
                    args: seq!["worktree"@, "add"@, "--detach"@, t, sha],
                },
            ),
        )),
        base matches CheckoutPlanValue::Current { git_root } ==> checkout_root(
            prepare_checkouts_spec(root, base, head, w)->Ok_0.base,
        ) == git_root,
        head matches CheckoutPlanValue::Current { git_root } ==> checkout_root(
            prepare_checkouts_spec(root, base, head, w)->Ok_0.head,
        ) == git_root,
{
    let qs = prepare_checkouts_requests(root, base, head, w);
    let b = prepare_checkout_spec(root, base, Side::Base, w)->Ok_0;
    let bq = prepare_checkout_requests(root, base, Side::Base, w);
    let hq = prepare_checkout_requests(root, head, Side::Head, w);
    assert(qs == bq + (hq + after_head_requests(root, b, prepare_checkout_spec(root, head, Side::Head, w), w)));
    assert(after_head_requests(root, b, prepare_checkout_spec(root, head, Side::Head, w), w) =~= Seq::<RequestValue>::empty());
    match base {
        CheckoutPlanValue::Worktree { sha, .. } => {
            let temp = (w.temp_dir)(temp_prefix(), Side::Base)->Ok_0;
            let t = path_text(joined_path(temp, path_of("worktree"@)))->Some_0;
            let q = RequestValue::Git(GitCommandValue { dir: root, args: seq!["worktree"@, "add"@, "--detach"@, t, sha] });
            assert(bq[1] == q);
            assert(qs[1] == q);
        },
        _ => {},
    }
    match head {
        CheckoutPlanValue::Worktree { sha, .. } => {
            let temp = (w.temp_dir)(temp_prefix(), Side::Head)->Ok_0;
            let t = path_text(joined_path(temp, path_of("worktree"@)))->Some_0;
            let q = RequestValue::Git(GitCommandValue { dir: root, args: seq!["worktree"@, "add"@, "--detach"@, t, sha] });
            assert(hq[1] == q);
            assert(qs[bq.len() as int + 1] == q);
        },
        _ => {},
    }
}

/// The value of a result whose success value is a prepared checkout.
pub open spec fn checkout_result(r: Result<Checkout, AppError>) -> Result<Checkout, ErrorValue> {
    match r {
        Ok(c) => Ok(c),
        Err(e) => Err(e@),
    }
}

/// The value of a result whose success value is both prepared checkouts.
pub open spec fn checkouts_result(r: Result<Checkouts, AppError>) -> Result<Checkouts, ErrorValue> {
    match r {
        Ok(c) => Ok(c),
        Err(e) => Err(e@),
    }
}

/// The error for a worktree path that is not valid UTF-8.
fn non_utf8_path_error(path: &PathBuf) -> (r: AppError)
    ensures
        r@ == non_utf8_path(shown_path(*path)),
{
    let shown_text = shown(path);
    AppError::CheckoutFailure {
        message: String::from_str("worktree path is not valid UTF-8: ").concat(shown_text.as_str()),
    }
}

/// The error for a temporary directory that could not be removed.
fn remove_temp_error(temp: &PathBuf, e: String) -> (r: AppError)
    ensures
        forall|w: World|
            (w.remove_dir)(*temp) == Err::<(), Seq<char>>(e@)
                ==> Err::<(), ErrorValue>(r@) == remove_temp_spec(*temp, w),
{
    let shown_temp = shown(temp);
    let mut message = String::from_str("failed to remove temporary worktree directory ");
    message.append(shown_temp.as_str());
    message.append(": ");
    message.append(e.as_str());
    let r = AppError::CheckoutFailure { message };
    r
}

/// The session that runs one `git worktree` command.
pub struct WorktreeChange {
    root: PathBuf,
    args: Vec<String>,
    finished: bool,
}

impl WorktreeChange {
    /// The session has not finished.
    pub closed spec fn live(&self) -> bool {
        !self.finished
    }


    /// The action the session waits for.
    pub closed spec fn awaiting(&self) -> RequestValue {
        RequestValue::Git(command(self.root, texts(self.args@)))
    }

    /// The requests the session makes after the awaited one: none.
    pub closed spec fn later(&self, w: World) -> Seq<RequestValue> {
        Seq::empty()
    }

    /// The result the session reaches in world `w`.
    pub closed spec fn outcome(&self, w: World) -> Result<(), ErrorValue> {
        unit_outcome(texts(self.args@), (w.git)(command(self.root, texts(self.args@))))
    }

    /// Whether `reply` is an answer this session can take now.
    pub fn accepts(&self, reply: &Reply) -> (b: bool)
        ensures
            b == (self.live() && fits(self.awaiting(), *reply)),
    {
        !self.finished && match reply {
            Reply::Git(_) => true,
            _ => false,
        }
    }

    /// Takes the answer to the awaited action.
    pub fn resume(&mut self, reply: Reply) -> (step: Step<()>)
        requires
            old(self).live(),
            fits(old(self).awaiting(), reply),
        ensures
            step matches Step::Request(q) ==> forall|w: World|
                #![trigger final(self).later(w)]
                answers(w, old(self).awaiting(), reply@) ==> old(self).later(w) == seq![q@]
                    + final(self).later(w),
            step is Done ==> forall|w: World|
                #![trigger old(self).later(w)]
                answers(w, old(self).awaiting(), reply@) ==> old(self).later(w)
                    == Seq::<RequestValue>::empty(),
            match step {
                Step::Request(_) => false,
                Step::Done(r) => forall|w: World|
                    #![trigger old(self).outcome(w)]
                    answers(w, old(self).awaiting(), reply@) ==> plain_unit(r) == old(
                        self,
                    ).outcome(w),
            },
    {
        let reply = git_answer(reply);
        self.finished = true;
        Step::Done(unit_reply(&self.args, reply))
    }
}

impl GitRepository {
    /// Starts removing the worktree at `worktree_root`.
    pub fn remove_worktree(&self, worktree_root: &PathBuf) -> (res: (WorktreeChange, Step<()>))
        ensures
            res.1 matches Step::Request(q) ==> forall|w: World|
                #![trigger res.0.later(w)]
                seq![q@] + res.0.later(w) == remove_worktree_requests(self@.root, *worktree_root),
            res.1 is Done ==> remove_worktree_requests(self@.root, *worktree_root) == Seq::<RequestValue>::empty(),
            match res.1 {
                Step::Request(q) => {
                    &&& res.0.live()
                    &&& q@ == res.0.awaiting()
                    &&& forall|w: World|
                        #![trigger res.0.outcome(w)]
                        res.0.outcome(w) == remove_worktree_spec(
                            self@.root,
                            *worktree_root,
                            w,
                        )
                },
                Step::Done(r) => forall|w: World|
                    plain_unit(r) == remove_worktree_spec(
                        self@.root,
                        *worktree_root,
                        w,
                    ),
            },
    {
        let root = copy_path(self.root());
        match text(worktree_root) {
            Some(t) => {
                let q = remove_worktree(&root, t.as_str());
                let args = words4("worktree", "remove", "--force", t.as_str());
                (
                    WorktreeChange { root, args, finished: false },
                    Step::Request(Request::Git(q)),
                )
            },
            None => {
                let e = non_utf8_path_error(worktree_root);
                (
                    WorktreeChange { root, args: Vec::new(), finished: true },
                    Step::Done(Err(e)),
                )
            },
        }
    }

    /// Starts adding a detached worktree at `worktree_root` on commit `sha`.
    pub fn add_detached_worktree(&self, worktree_root: &PathBuf, sha: &str) -> (res: (
        WorktreeChange,
        Step<()>,
    ))
        ensures
            res.1 matches Step::Request(q) ==> forall|w: World|
                #![trigger res.0.later(w)]
                seq![q@] + res.0.later(w) == add_worktree_requests(self@.root, *worktree_root, sha@),
            res.1 is Done ==> add_worktree_requests(self@.root, *worktree_root, sha@) == Seq::<RequestValue>::empty(),
            match res.1 {
                Step::Request(q) => {
                    &&& res.0.live()
                    &&& q@ == res.0.awaiting()
                    &&& forall|w: World|
                        #![trigger res.0.outcome(w)]
                        res.0.outcome(w) == add_worktree_spec(
                            self@.root,
                            *worktree_root,
                            sha@,
                            w,
                        )
                },
                Step::Done(r) => forall|w: World|
                    plain_unit(r) == add_worktree_spec(
                        self@.root,
                        *worktree_root,
                        sha@,
                        w,
                    ),
            },
    {
        let root = copy_path(self.root());
        match text(worktree_root) {
            Some(t) => {
                let q = add_worktree(&root, t.as_str(), sha);
                let args = words5("worktree", "add", "--detach", t.as_str(), sha);
                (
                    WorktreeChange { root, args, finished: false },
                    Step::Request(Request::Git(q)),
                )
            },
            None => {
                let e = non_utf8_path_error(worktree_root);
                (
                    WorktreeChange { root, args: Vec::new(), finished: true },
                    Step::Done(Err(e)),
                )
            },
        }
    }
}

enum SideCleanupState {
    Worktree { temp: PathBuf },
    TempDir { temp: PathBuf },
    Finished,
}

/// Cleaning up one side that is a temporary worktree.
struct SideCleanup {
    root: PathBuf,
    args: Vec<String>,
    state: SideCleanupState,
}

impl SideCleanup {
    closed spec fn live(&self) -> bool {
        !(self.state is Finished)
    }

    closed spec fn awaiting(&self) -> RequestValue {
        match self.state {
            SideCleanupState::TempDir { temp } => RequestValue::RemoveDirAll { path: temp },
            _ => RequestValue::Git(command(self.root, texts(self.args@))),
        }
    }

    closed spec fn later(&self, w: World) -> Seq<RequestValue> {
        match self.state {
            SideCleanupState::Worktree { temp } => after_worktree_removal_requests(
                self.root,
                texts(self.args@),
                temp,
                w,
            ),
            _ => Seq::empty(),
        }
    }

    closed spec fn outcome(&self, w: World) -> Result<(), ErrorValue> {
        match self.state {
            SideCleanupState::Worktree { temp } => match unit_outcome(
                texts(self.args@),
                (w.git)(command(self.root, texts(self.args@))),
            ) {
                Err(e) => Err(e),
                Ok(()) => remove_temp_spec(temp, w),
            },
            SideCleanupState::TempDir { temp } => remove_temp_spec(temp, w),
            SideCleanupState::Finished => Ok(()),
        }
    }

    fn accepts(&self, reply: &Reply) -> (b: bool)
        ensures
            b == (self.live() && fits(self.awaiting(), *reply)),
    {
        match self.state {
            SideCleanupState::Worktree { .. } => match reply {
                Reply::Git(_) => true,
                _ => false,
            },
            SideCleanupState::TempDir { .. } => match reply {
                Reply::Removed(_) => true,
                _ => false,
            },
            SideCleanupState::Finished => false,
        }
    }

    fn start(root: &PathBuf, checkout: Checkout) -> (res: (
        SideCleanup,
        Step<()>,
    ))
        ensures
            res.1 matches Step::Request(q) ==> forall|w: World|
                #![trigger res.0.later(w)]
                seq![q@] + res.0.later(w) == cleanup_checkout_requests(*root, checkout, w),
            res.1 is Done ==> forall|w: World|
                #![trigger cleanup_checkout_requests(*root, checkout, w)]
                cleanup_checkout_requests(*root, checkout, w) == Seq::<RequestValue>::empty(),
            res.0.root == *root,
            match res.1 {
                Step::Request(q) => {
                    &&& res.0.live()
                    &&& q@ == res.0.awaiting()
                    &&& forall|w: World|
                        #![trigger res.0.outcome(w)]
                        res.0.outcome(w) == cleanup_checkout_spec(
                            *root,
                            checkout,
                            w,
                        )
                },
                Step::Done(r) => forall|w: World|
                    plain_unit(r) == cleanup_checkout_spec(
                        *root,
                        checkout,
                        w,
                    ),
            },
    {
        match checkout {
            Checkout::Current { .. } => (
                SideCleanup { root: copy_path(root), args: Vec::new(), state: SideCleanupState::Finished },
                Step::Done(Ok(())),
            ),
            Checkout::Worktree { git_root, temporary_root } => {
                match text(&git_root) {
                    Some(t) => {
                        let q = remove_worktree(root, t.as_str());
                        let args = words4("worktree", "remove", "--force", t.as_str());
                        (
                            SideCleanup {
                                root: copy_path(root),
                                args,
                                state: SideCleanupState::Worktree { temp: temporary_root },
                            },
                            Step::Request(Request::Git(q)),
                        )
                    },
                    None => {
                        let e = non_utf8_path_error(&git_root);
                        (
                            SideCleanup {
                                root: copy_path(root),
                                args: Vec::new(),
                                state: SideCleanupState::Finished,
                            },
                            Step::Done(Err(e)),
                        )
                    },
                }
            },
        }
    }

    fn resume(&mut self, reply: Reply) -> (step: Step<()>)
        requires
            old(self).live(),
            fits(old(self).awaiting(), reply),
        ensures
            step matches Step::Request(q) ==> forall|w: World|
                #![trigger final(self).later(w)]
                answers(w, old(self).awaiting(), reply@) ==> old(self).later(w) == seq![q@]
                    + final(self).later(w),
            step is Done ==> forall|w: World|
                #![trigger old(self).later(w)]
                answers(w, old(self).awaiting(), reply@) ==> old(self).later(w)
                    == Seq::<RequestValue>::empty(),
            final(self).root == old(self).root,
            match step {
                Step::Request(q) => {
                    &&& final(self).live()
                    &&& q@ == final(self).awaiting()
                    &&& forall|w: World|
                        #![trigger final(self).outcome(w)]
                        answers(w, old(self).awaiting(), reply@)
                            ==> final(self).outcome(w) == old(self).outcome(w)
                },
                Step::Done(r) => forall|w: World|
                    #![trigger old(self).outcome(w)]
                    answers(w, old(self).awaiting(), reply@)
                        ==> plain_unit(r) == old(self).outcome(w),
            },
    {
        let mut state = SideCleanupState::Finished;
        std::mem::swap(&mut state, &mut self.state);
        match state {
            SideCleanupState::Worktree { temp } => {
                let reply = git_answer(reply);
                match unit_reply(&self.args, reply) {
                    Ok(()) => {
                        let q = Request::RemoveDirAll { path: copy_path(&temp) };
                        self.state = SideCleanupState::TempDir { temp };
                        Step::Request(q)
                    },
                    Err(e) => Step::Done(Err(e)),
                }
            },
            SideCleanupState::TempDir { temp } => {
                match reply {
                    Reply::Removed(Ok(())) => Step::Done(Ok(())),
                    Reply::Removed(Err(e)) => Step::Done(Err(remove_temp_error(&temp, e))),
                    _ => {
                        proof {
                            assert(false);
                        }
                        Step::Done(Ok(()))
                    },
                }
            },
            SideCleanupState::Finished => {
                proof {
                    assert(false);
                }
                Step::Done(Ok(()))
            },
        }
    }
}

enum SidePrepState {
    CreatingTemp,
    AddingWorktree { temp: PathBuf, worktree: PathBuf, args: Vec<String> },
    Discarding { temp: PathBuf, error: AppError },
    Finished,
}

/// Preparing one side as a temporary worktree.
struct SidePreparation {
    root: PathBuf,
    side: Side,
    sha: String,
    state: SidePrepState,
}

impl SidePreparation {
    closed spec fn live(&self) -> bool {
        !(self.state is Finished)
    }

    closed spec fn awaiting(&self) -> RequestValue {
        match self.state {
            SidePrepState::AddingWorktree { args, .. } => RequestValue::Git(
                command(self.root, texts(args@)),
            ),
            SidePrepState::Discarding { temp, .. } => RequestValue::RemoveDirAll { path: temp },
            _ => RequestValue::CreateTempDir { prefix: temp_prefix(), side: self.side },
        }
    }

    closed spec fn later(&self, w: World) -> Seq<RequestValue> {
        match self.state {
            SidePrepState::CreatingTemp => after_temp_requests(self.root, self.sha@, self.side, w),
            SidePrepState::AddingWorktree { temp, args, .. } => after_add_requests(
                self.root,
                texts(args@),
                temp,
                w,
            ),
            _ => Seq::empty(),
        }
    }

    closed spec fn outcome(&self, w: World) -> Result<Checkout, ErrorValue> {
        match self.state {
            SidePrepState::CreatingTemp => prepare_worktree_spec(self.root, self.sha@, self.side, w),
            SidePrepState::AddingWorktree { temp, worktree, args } => match unit_outcome(
                texts(args@),
                (w.git)(command(self.root, texts(args@))),
            ) {
                Err(e) => Err(e),
                Ok(()) => Ok(Checkout::Worktree { git_root: worktree, temporary_root: temp }),
            },
            SidePrepState::Discarding { error, .. } => Err(error@),
            SidePrepState::Finished => arbitrary(),
        }
    }

    fn accepts(&self, reply: &Reply) -> (b: bool)
        ensures
            b == (self.live() && fits(self.awaiting(), *reply)),
    {
        match self.state {
            SidePrepState::CreatingTemp => match reply {
                Reply::TempDir(_) => true,
                _ => false,
            },
            SidePrepState::AddingWorktree { .. } => match reply {
                Reply::Git(_) => true,
                _ => false,
            },
            SidePrepState::Discarding { .. } => match reply {
                Reply::Removed(_) => true,
                _ => false,
            },
            SidePrepState::Finished => false,
        }
    }

    fn start(root: &PathBuf, plan: CheckoutPlan, side: Side) -> (res: (SidePreparation, Step<Checkout>))
        ensures
            res.1 matches Step::Request(q) ==> forall|w: World|
                #![trigger res.0.later(w)]
                seq![q@] + res.0.later(w) == prepare_checkout_requests(*root, plan@, side, w),
            res.1 is Done ==> forall|w: World|
                #![trigger prepare_checkout_requests(*root, plan@, side, w)]
                prepare_checkout_requests(*root, plan@, side, w) == Seq::<RequestValue>::empty(),
            res.0.root == *root,
            match res.1 {
                Step::Request(q) => {
                    &&& res.0.live()
                    &&& q@ == res.0.awaiting()
                    &&& forall|w: World|
                        #![trigger res.0.outcome(w)]
                        res.0.outcome(w) == prepare_checkout_spec(*root, plan@, side, w)
                },
                Step::Done(r) => forall|w: World|
                    #![trigger prepare_checkout_spec(*root, plan@, side, w)]
                    checkout_result(r) == prepare_checkout_spec(*root, plan@, side, w),
            },
    {
        match plan {
            CheckoutPlan::Current { git_root } => (
                SidePreparation {
                    root: copy_path(root),
                    side,
                    sha: String::new(),
                    state: SidePrepState::Finished,
                },
                Step::Done(Ok(Checkout::Current { git_root })),
            ),
            CheckoutPlan::Worktree { sha, .. } => {
                let q = Request::CreateTempDir {
                    prefix: String::from_str("bazel-diff-targets-"),
                    side,
                };
                (
                    SidePreparation {
                        root: copy_path(root),
                        side,
                        sha,
                        state: SidePrepState::CreatingTemp,
                    },
                    Step::Request(q),
                )
            },
        }
    }

    fn resume(&mut self, reply: Reply) -> (step: Step<Checkout>)
        requires
            old(self).live(),
            fits(old(self).awaiting(), reply),
        ensures
            step matches Step::Request(q) ==> forall|w: World|
                #![trigger final(self).later(w)]
                answers(w, old(self).awaiting(), reply@) ==> old(self).later(w) == seq![q@]
                    + final(self).later(w),
            step is Done ==> forall|w: World|
                #![trigger old(self).later(w)]
                answers(w, old(self).awaiting(), reply@) ==> old(self).later(w)
                    == Seq::<RequestValue>::empty(),
            final(self).root == old(self).root,
            match step {
                Step::Request(q) => {
                    &&& final(self).live()
                    &&& q@ == final(self).awaiting()
                    &&& forall|w: World|
                        #![trigger final(self).outcome(w)]
                        answers(w, old(self).awaiting(), reply@)
                            ==> final(self).outcome(w) == old(self).outcome(w)
                },
                Step::Done(r) => forall|w: World|
                    #![trigger old(self).outcome(w)]
                    answers(w, old(self).awaiting(), reply@)
                        ==> checkout_result(r) == old(self).outcome(w),
            },
    {
        let mut state = SidePrepState::Finished;
        std::mem::swap(&mut state, &mut self.state);
        match state {
            SidePrepState::CreatingTemp => {
                match reply {
                    Reply::TempDir(Err(e)) => Step::Done(
                        Err(
                            AppError::CheckoutFailure {
                                message: String::from_str(
                                    "failed to create temporary worktree directory: ",
                                ).concat(e.as_str()),
                            },
                        ),
                    ),
                    Reply::TempDir(Ok(temp)) => {
                        let name = path_from_text(String::from_str("worktree"));
                        let worktree = join(&temp, &name);
                        match text(&worktree) {
                            Some(t) => {
                                let q = add_worktree(&self.root, t.as_str(), self.sha.as_str());
                                let args = words5(
                                    "worktree",
                                    "add",
                                    "--detach",
                                    t.as_str(),
                                    self.sha.as_str(),
                                );
                                self.state = SidePrepState::AddingWorktree { temp, worktree, args };
                                Step::Request(Request::Git(q))
                            },
                            None => {
                                let error = non_utf8_path_error(&worktree);
                                let q = Request::RemoveDirAll { path: copy_path(&temp) };
                                self.state = SidePrepState::Discarding { temp, error };
                                Step::Request(q)
                            },
                        }
                    },
                    _ => {
                        proof {
                            assert(false);
                        }
                        Step::Done(Err(AppError::BaseRefInferenceFailure))
                    },
                }
            },
            SidePrepState::AddingWorktree { temp, worktree, args } => {
                let reply = git_answer(reply);
                match unit_reply(&args, reply) {
                    Ok(()) => Step::Done(
                        Ok(Checkout::Worktree { git_root: worktree, temporary_root: temp }),
                    ),
                    Err(error) => {
                        let q = Request::RemoveDirAll { path: copy_path(&temp) };
                        self.state = SidePrepState::Discarding { temp, error };
                        Step::Request(q)
                    },
                }
            },
            SidePrepState::Discarding { error, .. } => Step::Done(Err(error)),
            SidePrepState::Finished => {
                proof {
                    assert(false);
                }
                Step::Done(Err(AppError::BaseRefInferenceFailure))
            },
        }
    }
}

/// The result of cleaning up both sides, from the result for each side.
fn combined_cleanup(base: Result<(), AppError>, head: Result<(), AppError>) -> (r: Result<
    (),
    AppError,
>)
    ensures
        plain_unit(r) == combine_cleanups(plain_unit(base), plain_unit(head)),
{
    match (base, head) {
        (Ok(()), Ok(())) => Ok(()),
        (Err(b), Ok(())) => Err(
            AppError::CheckoutFailure {
                message: String::from_str("failed to clean up base checkout: ").concat(
                    b.message().as_str(),
                ),
            },
        ),
        (Ok(()), Err(h)) => Err(
            AppError::CheckoutFailure {
                message: String::from_str("failed to clean up head checkout: ").concat(
                    h.message().as_str(),
                ),
            },
        ),
        (Err(b), Err(h)) => {
            let mut message = String::from_str("failed to clean up base checkout: ");
            message.append(b.message().as_str());
            message.append("; failed to clean up head checkout: ");
            message.append(h.message().as_str());
            Err(AppError::CheckoutFailure { message })
        },
    }
}

enum CleanupState {
    Base { sub: SideCleanup, head: Checkout },
    Head { base: Result<(), AppError>, sub: SideCleanup },
    Finished,
}

/// The session that cleans up both sides of a comparison.
pub struct CheckoutCleanup {
    root: PathBuf,
    state: CleanupState,
}

impl CheckoutCleanup {
    /// The session has not finished.
    pub closed spec fn live(&self) -> bool {
        match self.state {
            CleanupState::Base { sub, .. } => sub.live(),
            CleanupState::Head { sub, .. } => sub.live(),
            CleanupState::Finished => false,
        }
    }


    /// The action the session waits for.
    pub closed spec fn awaiting(&self) -> RequestValue {
        match self.state {
            CleanupState::Base { sub, .. } => sub.awaiting(),
            CleanupState::Head { sub, .. } => sub.awaiting(),
            CleanupState::Finished => arbitrary(),
        }
    }

    /// The requests the session makes after the awaited one, in world `w`.
    pub closed spec fn later(&self, w: World) -> Seq<RequestValue> {
        match self.state {
            CleanupState::Base { sub, head } => sub.later(w) + cleanup_checkout_requests(
                self.root,
                head,
                w,
            ),
            CleanupState::Head { sub, .. } => sub.later(w),
            CleanupState::Finished => Seq::empty(),
        }
    }

    /// The result the session reaches in world `w`.
    pub closed spec fn outcome(&self, w: World) -> Result<(), ErrorValue> {
        match self.state {
            CleanupState::Base { sub, head } => combine_cleanups(
                sub.outcome(w),
                cleanup_checkout_spec(self.root, head, w),
            ),
            CleanupState::Head { base, sub } => combine_cleanups(plain_unit(base), sub.outcome(w)),
            CleanupState::Finished => Ok(()),
        }
    }

    /// Whether `reply` is an answer this session can take now.
    pub fn accepts(&self, reply: &Reply) -> (b: bool)
        ensures
            b == (self.live() && fits(self.awaiting(), *reply)),
    {
        match &self.state {
            CleanupState::Base { sub, .. } => sub.accepts(reply),
            CleanupState::Head { sub, .. } => sub.accepts(reply),
            CleanupState::Finished => false,
        }
    }

    /// Cleans up the head side, the base side's result being known.
    fn head_phase(&mut self, base: Result<(), AppError>, head: Checkout) -> (step: Step<()>)
        ensures
            step matches Step::Request(q) ==> forall|w: World|
                #![trigger final(self).later(w)]
                seq![q@] + final(self).later(w) == cleanup_checkout_requests(old(self).root, head, w),
            step is Done ==> forall|w: World|
                #![trigger cleanup_checkout_requests(old(self).root, head, w)]
                cleanup_checkout_requests(old(self).root, head, w) == Seq::<RequestValue>::empty(),
            final(self).root == old(self).root,
            match step {
                Step::Request(q) => {
                    &&& final(self).live()
                    &&& q@ == final(self).awaiting()
                    &&& forall|w: World|
                        #![trigger final(self).outcome(w)]
                        final(self).outcome(w)
                            == combine_cleanups(
                            plain_unit(base),
                            cleanup_checkout_spec(old(self).root, head, w),
                        )
                },
                Step::Done(r) => forall|w: World|
                    plain_unit(r) == combine_cleanups(
                        plain_unit(base),
                        cleanup_checkout_spec(old(self).root, head, w),
                    ),
            },
    {
        let (sub, step) = SideCleanup::start(&self.root, head);
        match step {
            Step::Request(q) => {
                self.state = CleanupState::Head { base, sub };
                Step::Request(q)
            },
            Step::Done(r) => {
                self.state = CleanupState::Finished;
                Step::Done(combined_cleanup(base, r))
            },
        }
    }

    /// Takes the answer to the awaited action.
    pub fn resume(&mut self, reply: Reply) -> (step: Step<()>)
        requires
            old(self).live(),
            fits(old(self).awaiting(), reply),
        ensures
            step matches Step::Request(q) ==> forall|w: World|
                #![trigger final(self).later(w)]
                answers(w, old(self).awaiting(), reply@) ==> old(self).later(w) == seq![q@]
                    + final(self).later(w),
            step is Done ==> forall|w: World|
                #![trigger old(self).later(w)]
                answers(w, old(self).awaiting(), reply@) ==> old(self).later(w)
                    == Seq::<RequestValue>::empty(),
            match step {
                Step::Request(q) => {
                    &&& final(self).live()
                    &&& q@ == final(self).awaiting()
                    &&& forall|w: World|
                        #![trigger final(self).outcome(w)]
                        answers(w, old(self).awaiting(), reply@)
                            ==> final(self).outcome(w) == old(self).outcome(w)
                },
                Step::Done(r) => forall|w: World|
                    #![trigger old(self).outcome(w)]
                    answers(w, old(self).awaiting(), reply@)
                        ==> plain_unit(r) == old(self).outcome(w),
            },
    {
        let ghost old_self = *self;
        let mut state = CleanupState::Finished;
        std::mem::swap(&mut state, &mut self.state);
        match state {
            CleanupState::Base { mut sub, head } => {
                let ghost sub0 = sub;
                let step = sub.resume(reply);
                match step {
                    Step::Request(q) => {
                        self.state = CleanupState::Base { sub, head };
                        Step::Request(q)
                    },
                    Step::Done(r) => {
                        let step2 = self.head_phase(r, head);
                        step2
                    },
                }
            },
            CleanupState::Head { base, mut sub } => {
                let step = sub.resume(reply);
                match step {
                    Step::Request(q) => {
                        self.state = CleanupState::Head { base, sub };
                        Step::Request(q)
                    },
                    Step::Done(r) => Step::Done(combined_cleanup(base, r)),
                }
            },
            CleanupState::Finished => {
                proof {
                    assert(false);
                }
                Step::Done(Ok(()))
            },
        }
    }
}

/// The result of preparing both sides after the head failed and the base's
/// cleanup gave `cleanup`.
fn after_cleanup(error: AppError, cleanup: Result<(), AppError>) -> (r: Result<Checkouts, AppError>)
    ensures
        checkouts_result(r) == match plain_unit(cleanup) {
            Ok(()) => Err::<Checkouts, ErrorValue>(error@),
            Err(c) => Err(head_and_cleanup_failure(error@, c)),
        },
{
    match cleanup {
        Ok(()) => Err(error),
        Err(c) => {
            let mut message = String::from_str("failed to prepare head checkout: ");
            message.append(error.message().as_str());
            message.append("; failed to clean up base checkout: ");
            message.append(c.message().as_str());
            Err(AppError::CheckoutFailure { message })
        },
    }
}

enum PrepareState {
    Base { sub: SidePreparation, head: CheckoutPlan },
    Head { base: Checkout, sub: SidePreparation },
    CleaningBase { error: AppError, sub: SideCleanup },
    Finished,
}

/// The session that prepares both sides of a comparison.
pub struct CheckoutPreparation {
    root: PathBuf,
    state: PrepareState,
}

impl CheckoutPreparation {
    /// The session has not finished.
    pub closed spec fn live(&self) -> bool {
        match self.state {
            PrepareState::Base { sub, .. } => sub.live(),
            PrepareState::Head { sub, .. } => sub.live(),
            PrepareState::CleaningBase { sub, .. } => sub.live(),
            PrepareState::Finished => false,
        }
    }


    /// The action the session waits for.
    pub closed spec fn awaiting(&self) -> RequestValue {
        match self.state {
            PrepareState::Base { sub, .. } => sub.awaiting(),
            PrepareState::Head { sub, .. } => sub.awaiting(),
            PrepareState::CleaningBase { sub, .. } => sub.awaiting(),
            PrepareState::Finished => arbitrary(),
        }
    }

    /// The requests the session makes after the awaited one, in world `w`.
    pub closed spec fn later(&self, w: World) -> Seq<RequestValue> {
        match self.state {
            PrepareState::Base { sub, head } => sub.later(w) + match sub.outcome(w) {
                Err(_) => Seq::empty(),
                Ok(b) => after_base_requests(self.root, b, head@, w),
            },
            PrepareState::Head { base, sub } => sub.later(w) + after_head_requests(
                self.root,
                base,
                sub.outcome(w),
                w,
            ),
            PrepareState::CleaningBase { sub, .. } => sub.later(w),
            PrepareState::Finished => Seq::empty(),
        }
    }

    /// The result the session reaches in world `w`.
    pub closed spec fn outcome(&self, w: World) -> Result<Checkouts, ErrorValue> {
        match self.state {
            PrepareState::Base { sub, head } => match sub.outcome(w) {
                Err(e) => Err(e),
                Ok(b) => after_base(self.root, b, head@, w),
            },
            PrepareState::Head { base, sub } => match sub.outcome(w) {
                Ok(h) => Ok(Checkouts { base, head: h }),
                Err(e) => after_head_failure(self.root, base, e, w),
            },
            PrepareState::CleaningBase { error, sub } => match sub.outcome(w) {
                Ok(()) => Err(error@),
                Err(c) => Err(head_and_cleanup_failure(error@, c)),
            },
            PrepareState::Finished => arbitrary(),
        }
    }

    /// Whether `reply` is an answer this session can take now.
    pub fn accepts(&self, reply: &Reply) -> (b: bool)
        ensures
            b == (self.live() && fits(self.awaiting(), *reply)),
    {
        match &self.state {
            PrepareState::Base { sub, .. } => sub.accepts(reply),
            PrepareState::Head { sub, .. } => sub.accepts(reply),
            PrepareState::CleaningBase { sub, .. } => sub.accepts(reply),
            PrepareState::Finished => false,
        }
    }

    /// Goes on after the head side failed: cleans up the base side.
    fn head_failed(&mut self, base: Checkout, error: AppError) -> (step: Step<Checkouts>)
        ensures
            step matches Step::Request(q) ==> forall|w: World|
                #![trigger final(self).later(w)]
                seq![q@] + final(self).later(w) == cleanup_checkout_requests(old(self).root, base, w),
            step is Done ==> forall|w: World|
                #![trigger cleanup_checkout_requests(old(self).root, base, w)]
                cleanup_checkout_requests(old(self).root, base, w) == Seq::<RequestValue>::empty(),
            final(self).root == old(self).root,
            match step {
                Step::Request(q) => {
                    &&& final(self).live()
                    &&& q@ == final(self).awaiting()
                    &&& forall|w: World|
                        #![trigger final(self).outcome(w)]
                        final(self).outcome(w)
                            == after_head_failure(old(self).root, base, error@, w)
                },
                Step::Done(r) => forall|w: World|
                    checkouts_result(r) == after_head_failure(
                        old(self).root,
                        base,
                        error@,
                        w,
                    ),
            },
    {
        let (sub, step) = SideCleanup::start(&self.root, base);
        match step {
            Step::Request(q) => {
                self.state = PrepareState::CleaningBase { error, sub };
                Step::Request(q)
            },
            Step::Done(r) => {
                self.state = PrepareState::Finished;
                Step::Done(after_cleanup(error, r))
            },
        }
    }

    /// Goes on after the head side finished with `r`.
    fn head_done(&mut self, base: Checkout, r: Result<Checkout, AppError>) -> (step: Step<Checkouts>)
        ensures
            step matches Step::Request(q) ==> forall|w: World|
                #![trigger final(self).later(w)]
                seq![q@] + final(self).later(w) == after_head_requests(old(self).root, base, checkout_result(r), w),
            step is Done ==> forall|w: World|
                #![trigger after_head_requests(old(self).root, base, checkout_result(r), w)]
                after_head_requests(old(self).root, base, checkout_result(r), w) == Seq::<RequestValue>::empty(),
            final(self).root == old(self).root,
            match step {
                Step::Request(q) => {
                    &&& final(self).live()
                    &&& q@ == final(self).awaiting()
                    &&& forall|w: World|
                        #![trigger final(self).outcome(w)]
                        final(self).outcome(w) == after_head(old(self).root, base, checkout_result(r), w)
                },
                Step::Done(d) => forall|w: World|
                    #![trigger after_head(old(self).root, base, checkout_result(r), w)]
                    checkouts_result(d) == after_head(old(self).root, base, checkout_result(r), w),
            },
    {
        match r {
            Ok(head) => {
                self.state = PrepareState::Finished;
                Step::Done(Ok(Checkouts { base, head }))
            },
            Err(error) => self.head_failed(base, error),
        }
    }

    /// Goes on after the base side was prepared: prepares the head side.
    fn base_done(&mut self, base: Checkout, head: CheckoutPlan) -> (step: Step<Checkouts>)
        ensures
            step matches Step::Request(q) ==> forall|w: World|
                #![trigger final(self).later(w)]
                seq![q@] + final(self).later(w) == after_base_requests(old(self).root, base, head@, w),
            step is Done ==> forall|w: World|
                #![trigger after_base_requests(old(self).root, base, head@, w)]
                after_base_requests(old(self).root, base, head@, w) == Seq::<RequestValue>::empty(),
            final(self).root == old(self).root,
            match step {
                Step::Request(q) => {
                    &&& final(self).live()
                    &&& q@ == final(self).awaiting()
                    &&& forall|w: World|
                        #![trigger final(self).outcome(w)]
                        final(self).outcome(w) == after_base(
                            old(self).root,
                            base,
                            head@,
                            w,
                        )
                },
                Step::Done(d) => forall|w: World|
                    checkouts_result(d) == after_base(
                        old(self).root,
                        base,
                        head@,
                        w,
                    ),
            },
    {
        let ghost head_plan = head@;
        let (sub, step) = SidePreparation::start(&self.root, head, Side::Head);
        match step {
            Step::Request(q) => {
                self.state = PrepareState::Head { base, sub };
                Step::Request(q)
            },
            Step::Done(r) => {
                proof {
                    assert forall|w: World|
                        #![trigger after_base(self.root, base, head_plan, w)]
                        after_head(self.root, base, checkout_result(r), w) == after_base(
                            self.root,
                            base,
                            head_plan,
                            w,
                        ) by {
                        assert(checkout_result(r) == prepare_checkout_spec(
                            self.root,
                            head_plan,
                            Side::Head,
                            w,
                        ));
                    }
                }
                self.head_done(base, r)
            },
        }
    }

    /// Takes the answer to the awaited action.
    pub fn resume(&mut self, reply: Reply) -> (step: Step<Checkouts>)
        requires
            old(self).live(),
            fits(old(self).awaiting(), reply),
        ensures
            step matches Step::Request(q) ==> forall|w: World|
                #![trigger final(self).later(w)]
                answers(w, old(self).awaiting(), reply@) ==> old(self).later(w) == seq![q@]
                    + final(self).later(w),
            step is Done ==> forall|w: World|
                #![trigger old(self).later(w)]
                answers(w, old(self).awaiting(), reply@) ==> old(self).later(w)
                    == Seq::<RequestValue>::empty(),
            match step {
                Step::Request(q) => {
                    &&& final(self).live()
                    &&& q@ == final(self).awaiting()
                    &&& forall|w: World|
                        #![trigger final(self).outcome(w)]
                        answers(w, old(self).awaiting(), reply@)
                            ==> final(self).outcome(w) == old(self).outcome(w)
                },
                Step::Done(r) => forall|w: World|
                    #![trigger old(self).outcome(w)]
                    answers(w, old(self).awaiting(), reply@)
                        ==> checkouts_result(r) == old(self).outcome(w),
            },
    {
        let ghost old_self = *self;
        let mut state = PrepareState::Finished;
        std::mem::swap(&mut state, &mut self.state);
        match state {
            PrepareState::Base { mut sub, head } => {
                let ghost sub0 = sub;
                let step = sub.resume(reply);
                match step {
                    Step::Request(q) => {
                        self.state = PrepareState::Base { sub, head };
                        Step::Request(q)
                    },
                    Step::Done(Ok(base)) => {
                        let ghost head_plan = head@;
                        let ghost root = self.root;
                        let step2 = self.base_done(base, head);
                        proof {
                            assert forall|w: World| answers(w, old_self.awaiting(), reply@) implies sub0.outcome(
                                w,
                            ) == Ok::<Checkout, ErrorValue>(base) && old_self.outcome(w) == after_base(
                                root,
                                base,
                                head_plan,
                                w,
                            ) by {}
                        }
                        step2
                    },
                    Step::Done(Err(e)) => {
                        proof {
                            assert forall|w: World| answers(w, old_self.awaiting(), reply@) implies sub0.outcome(
                                w,
                            ) == Err::<Checkout, ErrorValue>(e@) by {}
                        }
                        Step::Done(Err(e))
                    },
                }
            },
            PrepareState::Head { base, mut sub } => {
                let ghost sub0 = sub;
                let step = sub.resume(reply);
                match step {
                    Step::Request(q) => {
                        self.state = PrepareState::Head { base, sub };
                        Step::Request(q)
                    },
                    Step::Done(r) => {
                        let ghost root = self.root;
                        let ghost b = base;
                        let step2 = self.head_done(base, r);
                        proof {
                            assert forall|w: World| answers(w, old_self.awaiting(), reply@) implies checkout_result(r)
                                == sub0.outcome(w) && old_self.outcome(w) == after_head(
                                root,
                                b,
                                checkout_result(r),
                                w,
                            ) by {}
                        }
                        step2
                    },
                }
            },
            PrepareState::CleaningBase { error, mut sub } => {
                let step = sub.resume(reply);
                match step {
                    Step::Request(q) => {
                        self.state = PrepareState::CleaningBase { error, sub };
                        Step::Request(q)
                    },
                    Step::Done(r) => Step::Done(after_cleanup(error, r)),
                }
            },
            PrepareState::Finished => {
                proof {
                    assert(false);
                }
                Step::Done(Err(AppError::BaseRefInferenceFailure))
            },
        }
    }
}

impl GitRepository {
    /// Starts preparing both sides of a comparison from their plans.
    pub fn prepare_checkouts(&self, plans: CheckoutPlans) -> (res: (CheckoutPreparation, Step<Checkouts>))
        ensures
            res.1 matches Step::Request(q) ==> forall|w: World|
                #![trigger res.0.later(w)]
                seq![q@] + res.0.later(w) == prepare_checkouts_requests(self@.root, plans.base@, plans.head@, w),
            res.1 is Done ==> forall|w: World|
                #![trigger prepare_checkouts_requests(self@.root, plans.base@, plans.head@, w)]
                prepare_checkouts_requests(self@.root, plans.base@, plans.head@, w) == Seq::<RequestValue>::empty(),
            match res.1 {
                Step::Request(q) => {
                    &&& res.0.live()
                    &&& q@ == res.0.awaiting()
                    &&& forall|w: World|
                        #![trigger res.0.outcome(w)]
                        res.0.outcome(w) == prepare_checkouts_spec(
                            self@.root,
                            plans.base@,
                            plans.head@,
                            w,
                        )
                },
                Step::Done(r) => forall|w: World|
                    checkouts_result(r) == prepare_checkouts_spec(
                        self@.root,
                        plans.base@,
                        plans.head@,
                        w,
                    ),
            },
    {
        let CheckoutPlans { base, head } = plans;
        let mut s = CheckoutPreparation {
            root: copy_path(self.root()),
            state: PrepareState::Finished,
        };
        let (sub, step) = SidePreparation::start(&s.root, base, Side::Base);
        match step {
            Step::Request(q) => {
                s.state = PrepareState::Base { sub, head };
                (s, Step::Request(q))
            },
            Step::Done(Ok(b)) => {
                let step2 = s.base_done(b, head);
                (s, step2)
            },
            Step::Done(Err(e)) => (s, Step::Done(Err(e))),
        }
    }

    /// Starts cleaning up both sides of a comparison.
    pub fn cleanup_checkouts(&self, checkouts: Checkouts) -> (res: (CheckoutCleanup, Step<()>))
        ensures
            res.1 matches Step::Request(q) ==> forall|w: World|
                #![trigger res.0.later(w)]
                seq![q@] + res.0.later(w) == cleanup_checkouts_requests(self@.root, checkouts, w),
            res.1 is Done ==> forall|w: World|
                #![trigger cleanup_checkouts_requests(self@.root, checkouts, w)]
                cleanup_checkouts_requests(self@.root, checkouts, w) == Seq::<RequestValue>::empty(),
            match res.1 {
                Step::Request(q) => {
                    &&& res.0.live()
                    &&& q@ == res.0.awaiting()
                    &&& forall|w: World|
                        #![trigger res.0.outcome(w)]
                        res.0.outcome(w) == cleanup_checkouts_spec(
                            self@.root,
                            checkouts,
                            w,
                        )
                },
                Step::Done(r) => forall|w: World|
                    plain_unit(r) == cleanup_checkouts_spec(
                        self@.root,
                        checkouts,
                        w,
                    ),
            },
    {
        let ghost whole = checkouts;
        let Checkouts { base, head } = checkouts;
        let mut s = CheckoutCleanup {
            root: copy_path(self.root()),
            state: CleanupState::Finished,
        };
        let (sub, step) = SideCleanup::start(&s.root, base);
        match step {
            Step::Request(q) => {
                s.state = CleanupState::Base { sub, head };
                (s, Step::Request(q))
            },
            Step::Done(r) => {
                let step2 = s.head_phase(r, head);
                (s, step2)
            },
        }
    }
}

} // verus!
