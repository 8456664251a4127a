//! Planning child-process launches.
//!
//! A launch plan fixes everything observable about a spawn: the
//! program, its argument list, an optional working-directory override,
//! and the environment overlay added on top of the inherited
//! environment. The binary that carries a plan out spawns exactly what
//! the plan says and waits for the child; the resulting status is
//! classified here.

use vstd::prelude::*;
use vstd::string::*;
use crate::paths::{
    root_of, local_dir_of, environment_file_of, script_path_of, package_workdir_of,
    local_dir, environment_file, script_path, package_workdir,
};
use crate::status::{ChildStatus, MessyError, is_success};

verus! {

/// Everything a spawn observes: program, arguments, an optional
/// working-directory override, and the environment overlay.
pub struct LaunchPlan {
    pub program: String,
    pub args: Vec<String>,
    pub cwd: Option<String>,
    pub env: Vec<(String, String)>,
}

/// The mathematical shape of a launch plan.
#[verifier::ext_equal]
pub struct PlanModel {
    pub program: Seq<char>,
    pub args: Seq<Seq<char>>,
    pub cwd: Option<Seq<char>>,
    pub env: Seq<(Seq<char>, Seq<char>)>,
}

impl View for LaunchPlan {
    type V = PlanModel;

    open spec fn view(&self) -> PlanModel {
        PlanModel {
            program: self.program@,
            args: self.args@.map_values(|a: String| a@),
            cwd: match self.cwd {
                Option::Some(d) => Option::Some(d@),
                Option::None => Option::None,
            },
            env: self.env@.map_values(|p: (String, String)| (p.0@, p.1@)),
        }
    }
}

/// The environment overlay injected into every spawned child:
/// `MESSYENVROOT` names the environment root and `MESSYENVLOCAL` the
/// shared local prefix under it. Both are always set together.
pub open spec fn overlay_model(root: Seq<char>) -> Seq<(Seq<char>, Seq<char>)> {
    seq![("MESSYENVROOT"@, root), ("MESSYENVLOCAL"@, local_dir_of(root))]
}

/// The plan that runs the install script of package `name`: `bash
/// <script path>`, working in the package's working directory, with
/// the environment overlay of the root.
pub open spec fn install_plan_model(root: Seq<char>, name: Seq<char>) -> PlanModel {
    PlanModel {
        program: "bash"@,
        args: seq![script_path_of(root, name)],
        cwd: Option::Some(package_workdir_of(root, name)),
        env: overlay_model(root),
    }
}

/// The plan that starts the interactive shell: `bash --init-file
/// <environment file>`, inheriting the operator's working directory,
/// with the environment overlay of the root.
pub open spec fn shell_plan_model(root: Seq<char>) -> PlanModel {
    PlanModel {
        program: "bash"@,
        args: seq!["--init-file"@, environment_file_of(root)],
        cwd: Option::None,
        env: overlay_model(root),
    }
}

/// Builds the environment overlay for the given root.
pub fn build_overlay(root: &str) -> (r: Vec<(String, String)>)
    ensures
        r@.map_values(|p: (String, String)| (p.0@, p.1@)) == overlay_model(root@),
{
    let mut env: Vec<(String, String)> = Vec::new();
    env.push((String::from_str("MESSYENVROOT"), String::from_str(root)));
    env.push((String::from_str("MESSYENVLOCAL"), local_dir(root)));
    proof {
        assert(env@.map_values(|p: (String, String)| (p.0@, p.1@)) =~= overlay_model(root@));
    }
    env
}

/// Builds the launch plan of the install script of package `name`.
pub fn install_launch(root: &str, name: &str) -> (r: LaunchPlan)
    ensures
        r@ == install_plan_model(root@, name@),
{
    let mut args: Vec<String> = Vec::new();
    args.push(script_path(root, name));
    let plan = LaunchPlan {
        program: String::from_str("bash"),
        args,
        cwd: Some(package_workdir(root, name)),
        env: build_overlay(root),
    };
    proof {
        assert(plan@.args =~= install_plan_model(root@, name@).args);
        assert(plan@ =~= install_plan_model(root@, name@));
    }
    plan
}

/// Builds the launch plan of the interactive shell.
pub fn shell_launch(root: &str) -> (r: LaunchPlan)
    ensures
        r@ == shell_plan_model(root@),
{
    let mut args: Vec<String> = Vec::new();
    args.push(String::from_str("--init-file"));
    args.push(environment_file(root));
    let plan = LaunchPlan {
        program: String::from_str("bash"),
        args,
        cwd: None,
        env: build_overlay(root),
    };
    proof {
        assert(plan@.args =~= shell_plan_model(root@).args);
        assert(plan@ =~= shell_plan_model(root@));
    }
    plan
}

/// Classifies a terminated child: exit code zero is success, anything
/// else becomes a failure carrying the raw status.
pub fn child_outcome(status: ChildStatus) -> (r: Result<(), MessyError>)
    ensures
        is_success(status) ==> r is Ok,
        !is_success(status) ==> r == Result::<(), MessyError>::Err(
            MessyError::ChildProcessFailure { status },
        ),
{
    if status.success() {
        Ok(())
    } else {
        Err(MessyError::ChildProcessFailure { status })
    }
}

/// The confirmation printed after a child succeeded, and only then.
pub fn success_message() -> (r: String)
    ensures
        r@ == "done."@,
{
    String::from_str("done.")
}

/// Environment propagation: for the install of any package and for the
/// shell alike, the spawned child observes `MESSYENVROOT` equal to the
/// root computed from the invoking directory and `MESSYENVLOCAL` equal
/// to the `local/` prefix under it — the overlay depends on the root
/// alone.
pub proof fn lemma_env_propagation(cwd: Seq<char>, name: Seq<char>)
    ensures
        install_plan_model(root_of(cwd), name).env == overlay_model(root_of(cwd)),
        shell_plan_model(root_of(cwd)).env == overlay_model(root_of(cwd)),
        overlay_model(root_of(cwd)).len() == 2,
        overlay_model(root_of(cwd))[0] == ("MESSYENVROOT"@, root_of(cwd)),
        overlay_model(root_of(cwd))[1] == ("MESSYENVLOCAL"@, local_dir_of(root_of(cwd))),
{
}

} // verus!
