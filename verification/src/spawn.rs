//! The launch recipe for the companion server process.
//!
//! The client instance spawns the server as a second copy of its own
//! executable. Everything that distinguishes the child from an ordinary
//! process launch is collected in a [`SpawnPlan`]: the role marker set in
//! the child's environment, a piped standard input (the only medium that
//! carries the one-shot handshake name), inherited standard output and
//! error, kill-on-drop requested from the OS, and a clean slate otherwise
//! (no inherited environment, no command-line arguments).
//!
//! The caller applies the plan with its process-spawning facilities, one
//! launched process per plan.
use vstd::prelude::*;

use crate::role::{
    marker_name, marker_name_spec, role_of_marker, selects_server, server_marker_value,
    server_marker_value_spec,
};

verus! {

/// How one of the child's standard streams is set up.
#[derive(Clone, Copy, Debug, PartialEq, Eq, Structural)]
pub enum StdioMode {
    /// The stream is a pipe whose other end this process owns.
    Piped,
    /// The stream is shared with the parent process.
    Inherited,
}

/// Everything a process-spawning facility needs to launch the companion
/// server process from the current executable image.
#[derive(Debug)]
pub struct SpawnPlan {
    /// Name of the environment variable to set in the child.
    pub marker_name: String,
    /// Value to give that variable.
    pub marker_value: String,
    /// Whether the child inherits the parent's other environment variables.
    pub pass_parent_env: bool,
    /// Whether the child receives the parent's command-line arguments.
    pub pass_parent_args: bool,
    /// Setup of the child's standard input.
    pub stdin: StdioMode,
    /// Setup of the child's standard output.
    pub stdout: StdioMode,
    /// Setup of the child's standard error.
    pub stderr: StdioMode,
    /// Whether the OS is asked to kill the child when the handle to it is
    /// dropped without an orderly teardown.
    pub kill_on_drop: bool,
}

/// The one launch recipe the supervisor is allowed to use: the role marker
/// set to the server value, nothing else of the parent's environment or
/// arguments passed along, stdin piped so the handshake name can be written,
/// stdout and stderr shared with the parent, and kill-on-drop requested.
pub open spec fn plan_well_formed(plan: SpawnPlan) -> bool {
    &&& plan.marker_name@ == marker_name_spec()
    &&& plan.marker_value@ == server_marker_value_spec()
    &&& !plan.pass_parent_env
    &&& !plan.pass_parent_args
    &&& plan.stdin is Piped
    &&& plan.stdout is Inherited
    &&& plan.stderr is Inherited
    &&& plan.kill_on_drop
}

/// Builds the launch recipe for the companion server process.
pub fn server_spawn_plan() -> (plan: SpawnPlan)
    ensures
        plan_well_formed(plan),
{
    SpawnPlan {
        marker_name: marker_name().to_owned(),
        marker_value: server_marker_value().to_owned(),
        pass_parent_env: false,
        pass_parent_args: false,
        stdin: StdioMode::Piped,
        stdout: StdioMode::Inherited,
        stderr: StdioMode::Inherited,
        kill_on_drop: true,
    }
}

/// A child launched from a well-formed plan sees exactly the marker value
/// that selects the server role: the spawned companion becomes the server,
/// never a second client.
pub proof fn lemma_spawned_child_selects_server(plan: SpawnPlan)
    requires
        plan_well_formed(plan),
    ensures
        selects_server(Some(plan.marker_value)),
        role_of_marker(Some(plan.marker_value)) is Server,
{
}

} // verus!
