//! Orchestration of the three operations.
//!
//! Installation and the shell both start from the located environment
//! root; installation additionally provisions the package working
//! directory, asking for confirmation where it pre-exists. The
//! decisions are pure: the binary feeds in what it observed (whether
//! the root is a directory, whether the working directory exists, how
//! the operator answered, how the child terminated) and carries out
//! what comes back.

use vstd::prelude::*;
use vstd::string::*;
use crate::paths::{root_of, package_workdir_of, root_candidate};
use crate::status::{ChildStatus, MessyError, is_success};
use crate::launch::install_plan_model;
use crate::confirm::answer_of;

verus! {

/// The located root: the fixed-name subdirectory of the invoking
/// directory where it exists as a directory, and nothing otherwise.
pub open spec fn located_root(cwd: Seq<char>, root_is_dir: bool) -> Option<Seq<char>> {
    if root_is_dir {
        Option::Some(root_of(cwd))
    } else {
        Option::None
    }
}

/// Locates the environment root for an operation other than
/// initialization. `root_is_dir` is whether the candidate exists as a
/// directory; without it the operation fails with the root-not-found
/// condition.
pub fn locate_root(cwd: &str, root_is_dir: bool) -> (r: Result<String, MessyError>)
    ensures
        r is Ok <==> located_root(cwd@, root_is_dir) is Some,
        root_is_dir ==> (r matches Result::Ok(p) && located_root(cwd@, root_is_dir)
            == Option::Some(p@) && p@ == root_of(cwd@)),
        !root_is_dir ==> (r matches Result::Err(e) && e is RootNotFound),
{
    if root_is_dir {
        Ok(root_candidate(cwd))
    } else {
        Err(MessyError::RootNotFound)
    }
}

/// The question asked before an existing working directory is reused.
pub open spec fn reuse_prompt_model(workdir: Seq<char>) -> Seq<char> {
    "Path "@ + workdir + " exists. Proceed anyway?"@
}

/// Renders the question asked before an existing working directory is
/// reused.
pub fn reuse_prompt(workdir: &str) -> (r: String)
    ensures
        r@ == reuse_prompt_model(workdir@),
{
    String::from_str("Path ").concat(workdir).concat(" exists. Proceed anyway?")
}

/// How the package working directory is provisioned: created where it
/// is absent, and otherwise reused only once the operator confirms.
/// The question carries its default, which is always no, so a bare
/// answer declines.
pub enum WorkdirStep {
    CreateFresh,
    AskReuse { prompt: String, default: bool },
}

/// Decides how to provision the package working directory from
/// whether it already exists. Where it exists, the question names the
/// path and defaults to no.
pub fn provision_workdir(workdir: &str, exists: bool) -> (r: WorkdirStep)
    ensures
        !exists ==> r is CreateFresh,
        exists ==> (r matches WorkdirStep::AskReuse { prompt, default } && prompt@
            == reuse_prompt_model(workdir@) && default == false),
{
    if exists {
        WorkdirStep::AskReuse { prompt: reuse_prompt(workdir), default: false }
    } else {
        WorkdirStep::CreateFresh
    }
}

/// What a resolved reuse question leads to: the script runs in the
/// pre-existing directory, or the whole operation aborts quietly.
#[derive(Clone, Copy, Debug, PartialEq, Eq, Structural)]
pub enum ReuseDecision {
    RunInExisting,
    AbortQuietly,
}

/// The decision a resolved reuse question yields.
pub open spec fn reuse_decision_model(proceed: bool) -> ReuseDecision {
    if proceed {
        ReuseDecision::RunInExisting
    } else {
        ReuseDecision::AbortQuietly
    }
}

/// Turns the operator's resolved answer into the decision: a yes runs
/// the script in the pre-existing directory, which is neither
/// recreated nor cleared; a no aborts the operation quietly.
pub fn reuse_decision(proceed: bool) -> (r: ReuseDecision)
    ensures
        r == reuse_decision_model(proceed),
{
    if proceed {
        ReuseDecision::RunInExisting
    } else {
        ReuseDecision::AbortQuietly
    }
}

/// How one invocation of the tool ended: the child succeeded, the
/// operator declined to reuse the working directory (a deliberate
/// no-op, not a failure), or something failed.
pub enum RunOutcome {
    Succeeded,
    DeclinedReuse,
    Failed(MessyError),
}

/// The outcome a terminated child yields: success for exit code zero,
/// and otherwise a failure carrying the raw status.
pub open spec fn outcome_of(status: ChildStatus) -> RunOutcome {
    if is_success(status) {
        RunOutcome::Succeeded
    } else {
        RunOutcome::Failed(MessyError::ChildProcessFailure { status })
    }
}

/// Classifies a terminated child as an outcome of the invocation.
pub fn run_outcome(status: ChildStatus) -> (r: RunOutcome)
    ensures
        r == outcome_of(status),
{
    if status.success() {
        RunOutcome::Succeeded
    } else {
        RunOutcome::Failed(MessyError::ChildProcessFailure { status })
    }
}

/// The tool's own exit code for an outcome: zero for success and for a
/// declined reuse, non-zero for every failure.
pub open spec fn exit_code_model(outcome: RunOutcome) -> int {
    match outcome {
        RunOutcome::Succeeded => 0,
        RunOutcome::DeclinedReuse => 0,
        RunOutcome::Failed(_) => 1,
    }
}

/// The tool's own exit code for an outcome.
pub fn exit_code(outcome: &RunOutcome) -> (r: i32)
    ensures
        r as int == exit_code_model(*outcome),
{
    match outcome {
        RunOutcome::Succeeded => 0,
        RunOutcome::DeclinedReuse => 0,
        RunOutcome::Failed(_) => 1,
    }
}

/// Whether the short success confirmation is printed for an outcome:
/// only where the child actually succeeded.
pub open spec fn reports_success(outcome: RunOutcome) -> bool {
    outcome is Succeeded
}

/// Whether to print the short success confirmation.
pub fn prints_confirmation(outcome: &RunOutcome) -> (r: bool)
    ensures
        r == reports_success(*outcome),
{
    match outcome {
        RunOutcome::Succeeded => true,
        RunOutcome::DeclinedReuse => false,
        RunOutcome::Failed(_) => false,
    }
}

/// The exit code of an operation that ends in a plain result: zero on
/// success, one on any error.
pub fn result_exit_code(r: &Result<(), MessyError>) -> (c: i32)
    ensures
        r is Ok ==> c == 0,
        r is Err ==> c == 1,
{
    match r {
        Ok(_) => 0,
        Err(_) => 1,
    }
}

/// Workdir reuse confirmation: where the package working directory
/// pre-exists, the question defaults to no, so an empty answer — a
/// bare press of enter — declines; a declined question aborts the
/// whole operation quietly — exit code zero, no success confirmation,
/// no script run; an accepted one runs the script in the pre-existing
/// directory, which is never recreated: the launch plan's working
/// directory is exactly that path.
pub proof fn lemma_workdir_reuse(root: Seq<char>, name: Seq<char>)
    ensures
        answer_of(Seq::<char>::empty(), false) == Option::<bool>::Some(false),
        reuse_decision_model(false) == ReuseDecision::AbortQuietly,
        exit_code_model(RunOutcome::DeclinedReuse) == 0,
        !reports_success(RunOutcome::DeclinedReuse),
        reuse_decision_model(true) == ReuseDecision::RunInExisting,
        install_plan_model(root, name).cwd == Option::Some(package_workdir_of(root, name)),
{
}

/// Exit code mapping: a child that exits with code zero makes the tool
/// exit zero and print the success confirmation; a child that exits
/// non-zero or is killed makes the tool exit non-zero without the
/// confirmation.
pub proof fn lemma_exit_code_mapping(status: ChildStatus)
    ensures
        is_success(status) <==> status == ChildStatus::Exited(0),
        is_success(status) ==> exit_code_model(outcome_of(status)) == 0 && reports_success(
            outcome_of(status),
        ),
        !is_success(status) ==> exit_code_model(outcome_of(status)) != 0 && !reports_success(
            outcome_of(status),
        ),
{
}

/// Missing-root guard: in a directory whose root candidate is not a
/// directory, locating the root yields nothing — for install and shell
/// alike — so no working directory is provisioned and no launch plan
/// is built, since each of those takes the located root as its input.
pub proof fn lemma_missing_root_guard(cwd: Seq<char>)
    ensures
        located_root(cwd, false) is None,
        forall|root_is_dir: bool| located_root(cwd, root_is_dir) is Some <==> root_is_dir,
{
}

} // verus!
