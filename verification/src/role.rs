//! Process role selection.
//!
//! Every process instance decides, before any user code runs, whether it is
//! the client (runs user logic) or the server (owns the window and renders).
//! The decision reads a single environment marker: the variable named by
//! [`marker_name`], whose value `"true"` selects the server role. Any other
//! value, or an absent variable, selects the client role.
//!
//! The caller reads the environment and hands the marker's value in as a
//! plain `Option<String>`; the decision itself is a pure function of that
//! value, so repeated calls within one process always agree.
use vstd::prelude::*;

verus! {

/// The role a process instance takes for its whole lifetime.
#[derive(Clone, Copy, Debug, PartialEq, Eq, Structural)]
pub enum ProcessRole {
    /// Runs user logic; spawns and supervises the companion server process.
    Client,
    /// Owns the window; enters the render loop and never returns.
    Server,
}

/// The name of the environment marker, as a sequence of characters.
pub open spec fn marker_name_spec() -> Seq<char> {
    "RUN_TURTLE_CANVAS"@
}

/// The marker value that selects the server role.
pub open spec fn server_marker_value_spec() -> Seq<char> {
    "true"@
}

/// Whether a marker value (as read from the environment) selects the server
/// role: it must be present and equal to the server value exactly.
pub open spec fn selects_server(marker: Option<String>) -> bool {
    marker matches Some(value) && value@ == server_marker_value_spec()
}

/// The role a process with the given marker value takes.
pub open spec fn role_of_marker(marker: Option<String>) -> ProcessRole {
    if selects_server(marker) {
        ProcessRole::Server
    } else {
        ProcessRole::Client
    }
}

/// The name of the environment marker the role decision reads.
pub fn marker_name() -> (name: &'static str)
    ensures
        name@ == marker_name_spec(),
{
    "RUN_TURTLE_CANVAS"
}

/// The marker value that selects the server role.
pub fn server_marker_value() -> (value: &'static str)
    ensures
        value@ == server_marker_value_spec(),
{
    "true"
}

/// Decides the role of the current process instance from the environment
/// marker's value, `None` standing for an absent variable.
pub fn role_for_marker(marker: &Option<String>) -> (role: ProcessRole)
    ensures
        role == role_of_marker(*marker),
        role is Server <==> selects_server(*marker),
{
    match marker {
        Some(value) => {
            let server_value: String = server_marker_value().to_owned();
            if *value == server_value {
                ProcessRole::Server
            } else {
                ProcessRole::Client
            }
        },
        None => ProcessRole::Client,
    }
}

/// An unset or non-server marker always selects the client role, so the
/// initializer returns control to the caller unchanged. The decision is a
/// pure function of the marker, so every further call made while the
/// environment still holds the same value decides the client role again.
pub proof fn lemma_client_path_stable(marker: Option<String>)
    requires
        !selects_server(marker),
    ensures
        role_of_marker(marker) is Client,
{
}

} // verus!
