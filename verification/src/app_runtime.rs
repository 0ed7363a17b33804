//! What the application needs on the user's machine to run, and the
//! processes that it starts beside itself.

use vstd::prelude::*;

verus! {

/// The tools that the application depends on.
#[derive(Debug)]
pub struct AppRuntime {
    pub items: Vec<AppRuntimeItem>,
}

/// One tool: how to find out whether it is there, and how to install and
/// remove it.
#[derive(Debug)]
pub struct AppRuntimeItem {
    pub name: String,
    pub version: String,
    pub install_cmd: String,
    pub uninstall_cmd: String,
    pub check_cmd: String,
    pub is_installed: bool,
}

/// The processes that the application starts beside itself.
#[derive(Debug)]
pub struct AppSidecar {}

} // verus!
