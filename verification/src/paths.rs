//! Path layout of the environment root.
//!
//! The root is the fixed-name subdirectory `.messyenv` of the directory
//! the tool is invoked from. Under it live four fixed children:
//! `install-scripts/` (one executable script per installable package),
//! `local/` (the shared installation prefix), `workdir/` (parent of the
//! per-package working directories), and `environment` (the generated
//! shell-initialization file).

use vstd::prelude::*;
use vstd::string::*;

verus! {

/// The root candidate for a given current directory: the fixed-name
/// subdirectory `.messyenv`.
pub open spec fn root_of(cwd: Seq<char>) -> Seq<char> {
    cwd + "/.messyenv"@
}

/// The directory of install scripts under the root.
pub open spec fn scripts_dir_of(root: Seq<char>) -> Seq<char> {
    root + "/install-scripts"@
}

/// The shared local installation prefix under the root.
pub open spec fn local_dir_of(root: Seq<char>) -> Seq<char> {
    root + "/local"@
}

/// The parent of all per-package working directories under the root.
pub open spec fn workdir_dir_of(root: Seq<char>) -> Seq<char> {
    root + "/workdir"@
}

/// The shell-initialization file under the root.
pub open spec fn environment_file_of(root: Seq<char>) -> Seq<char> {
    root + "/environment"@
}

/// The install script of the package `name`.
pub open spec fn script_path_of(root: Seq<char>, name: Seq<char>) -> Seq<char> {
    root + "/install-scripts/"@ + name
}

/// The working directory of the package `name`.
pub open spec fn package_workdir_of(root: Seq<char>, name: Seq<char>) -> Seq<char> {
    root + "/workdir/"@ + name
}

/// The root candidate path for the given current directory.
pub fn root_candidate(cwd: &str) -> (r: String)
    ensures
        r@ == root_of(cwd@),
{
    String::from_str(cwd).concat("/.messyenv")
}

/// The install-scripts directory under the given root.
pub fn scripts_dir(root: &str) -> (r: String)
    ensures
        r@ == scripts_dir_of(root@),
{
    String::from_str(root).concat("/install-scripts")
}

/// The local installation prefix under the given root.
pub fn local_dir(root: &str) -> (r: String)
    ensures
        r@ == local_dir_of(root@),
{
    String::from_str(root).concat("/local")
}

/// The parent of the per-package working directories under the given root.
pub fn workdir_dir(root: &str) -> (r: String)
    ensures
        r@ == workdir_dir_of(root@),
{
    String::from_str(root).concat("/workdir")
}

/// The shell-initialization file under the given root.
pub fn environment_file(root: &str) -> (r: String)
    ensures
        r@ == environment_file_of(root@),
{
    String::from_str(root).concat("/environment")
}

/// The install script path of the package `name` under the given root.
pub fn script_path(root: &str, name: &str) -> (r: String)
    ensures
        r@ == script_path_of(root@, name@),
{
    String::from_str(root).concat("/install-scripts/").concat(name)
}

/// The working directory of the package `name` under the given root.
pub fn package_workdir(root: &str, name: &str) -> (r: String)
    ensures
        r@ == package_workdir_of(root@, name@),
{
    String::from_str(root).concat("/workdir/").concat(name)
}

} // verus!
