//! Per-project environment manager: a fixed-name root directory holds
//! install scripts, per-package working directories, a shared local
//! prefix, and a generated shell-initialization file.
//!
//! This crate holds the verified core: how the root path and its fixed
//! layout are computed, how operator confirmations are interpreted, how
//! child-process launches are planned (program, arguments, working
//! directory, environment overlay), and how a child's exit status maps
//! to the tool's own exit code. The surrounding binary performs the
//! filesystem and process work that these plans describe.

pub mod paths;
pub mod status;
pub mod launch;
pub mod init;
pub mod confirm;
pub mod orchestrate;
