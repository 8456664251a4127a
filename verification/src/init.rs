//! Planning the creation of the environment root.
//!
//! Initialization creates the root and its four fixed children in a
//! fixed order: the `install-scripts/`, `local/` and `workdir/`
//! directories, then the `environment` file with its constant template
//! content. The plan here says exactly what to create; the binary
//! carries it out step by step and stops fatally on the first
//! filesystem error, with no partial cleanup.

use vstd::prelude::*;
use vstd::string::*;
use crate::paths::{
    root_of, scripts_dir_of, local_dir_of, workdir_dir_of, environment_file_of,
    root_candidate, scripts_dir, local_dir, workdir_dir, environment_file,
};
use crate::status::MessyError;

verus! {

/// The constant content of the generated `environment` file: an
/// initialization script for the interactive shell that puts the
/// shared local prefix on the path and marks the prompt.
pub open spec fn template_model() -> Seq<char> {
    "# messyenv shell initialization\nif [ -f \"$HOME/.bashrc\" ]; then\n    . \"$HOME/.bashrc\"\nfi\nexport PATH=\"$MESSYENVLOCAL/bin:$PATH\"\nPS1=\"(messyenv) $PS1\"\n"@
}

/// The content written to the `environment` file.
pub fn environment_template() -> (r: String)
    ensures
        r@ == template_model(),
{
    String::from_str(
        "# messyenv shell initialization\nif [ -f \"$HOME/.bashrc\" ]; then\n    . \"$HOME/.bashrc\"\nfi\nexport PATH=\"$MESSYENVLOCAL/bin:$PATH\"\nPS1=\"(messyenv) $PS1\"\n",
    )
}

/// What initialization creates, in order: the root directory, then
/// each subdirectory of `subdirs`, then the file `env_file` with the
/// content `env_content`.
pub struct InitPlan {
    pub root: String,
    pub subdirs: Vec<String>,
    pub env_file: String,
    pub env_content: String,
}

/// The mathematical shape of an initialization plan.
#[verifier::ext_equal]
pub struct InitPlanModel {
    pub root: Seq<char>,
    pub subdirs: Seq<Seq<char>>,
    pub env_file: Seq<char>,
    pub env_content: Seq<char>,
}

impl View for InitPlan {
    type V = InitPlanModel;

    open spec fn view(&self) -> InitPlanModel {
        InitPlanModel {
            root: self.root@,
            subdirs: self.subdirs@.map_values(|d: String| d@),
            env_file: self.env_file@,
            env_content: self.env_content@,
        }
    }
}

/// The plan for a given invoking directory: the root under it, the
/// three fixed subdirectories in their creation order, and the
/// environment file with the template content.
pub open spec fn init_plan_model(cwd: Seq<char>) -> InitPlanModel {
    InitPlanModel {
        root: root_of(cwd),
        subdirs: seq![
            scripts_dir_of(root_of(cwd)),
            local_dir_of(root_of(cwd)),
            workdir_dir_of(root_of(cwd)),
        ],
        env_file: environment_file_of(root_of(cwd)),
        env_content: template_model(),
    }
}

/// Builds the initialization plan for the given invoking directory.
pub fn init_plan(cwd: &str) -> (r: InitPlan)
    ensures
        r@ == init_plan_model(cwd@),
{
    let root = root_candidate(cwd);
    let mut subdirs: Vec<String> = Vec::new();
    subdirs.push(scripts_dir(root.as_str()));
    subdirs.push(local_dir(root.as_str()));
    subdirs.push(workdir_dir(root.as_str()));
    let plan = InitPlan {
        env_file: environment_file(root.as_str()),
        env_content: environment_template(),
        subdirs,
        root,
    };
    proof {
        assert(plan@.subdirs =~= init_plan_model(cwd@).subdirs);
        assert(plan@ =~= init_plan_model(cwd@));
    }
    plan
}

/// Initialization is allowed exactly where the root does not yet
/// exist: re-initialization must be an explicit, visible error, never
/// a silent merge.
pub open spec fn init_allowed(root_exists: bool) -> bool {
    !root_exists
}

/// Checks the guard against re-initialization: fails when the root
/// already exists as the filesystem itself would, naming the path.
pub fn check_init_allowed(root: &str, root_exists: bool) -> (r: Result<(), MessyError>)
    ensures
        r is Ok <==> init_allowed(root_exists),
        root_exists ==> (r matches Result::Err(MessyError::FilesystemError { message })
            && message@ == root@ + " already exists"@),
{
    if root_exists {
        Err(MessyError::FilesystemError {
            message: String::from_str(root).concat(" already exists"),
        })
    } else {
        Ok(())
    }
}

/// The confirmation printed after a successful initialization, naming
/// the created root.
pub fn init_message(root: &str) -> (r: String)
    ensures
        r@ == "Initialized messy environment ("@ + root@ + ")"@,
{
    String::from_str("Initialized messy environment (").concat(root).concat(")")
}

/// Idempotent init guard: initializing is allowed exactly once — a
/// successful initialization leaves the root in existence, and against
/// an existing root a second initialization is refused, so the first
/// root's contents are neither merged into nor destroyed.
pub proof fn lemma_init_idempotent_guard()
    ensures
        init_allowed(false),
        !init_allowed(true),
{
}

/// Layout completeness: a carried-out initialization plan creates the
/// root and all four fixed children — the three subdirectories
/// `install-scripts/`, `local/` and `workdir/`, in that order, and the
/// `environment` file whose content equals the fixed template exactly.
pub proof fn lemma_layout_completeness(cwd: Seq<char>)
    ensures
        init_plan_model(cwd).root == root_of(cwd),
        init_plan_model(cwd).subdirs.len() == 3,
        init_plan_model(cwd).subdirs[0] == scripts_dir_of(root_of(cwd)),
        init_plan_model(cwd).subdirs[1] == local_dir_of(root_of(cwd)),
        init_plan_model(cwd).subdirs[2] == workdir_dir_of(root_of(cwd)),
        init_plan_model(cwd).env_file == environment_file_of(root_of(cwd)),
        init_plan_model(cwd).env_content == template_model(),
{
}

} // verus!
