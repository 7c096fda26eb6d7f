//! Process-splitting machinery for a canvas renderer.
//!
//! One executable image serves as two cooperating processes: a client that
//! runs user logic and a server that owns the drawing window. This crate
//! holds the decisions that machinery makes, each with a contract:
//!
//! - [`role`]: which role a process instance takes, read off an environment
//!   marker once at startup;
//! - [`spawn`]: how the companion server process must be launched (marker
//!   set, stdin piped, kill-on-drop requested, nothing else passed along);
//! - [`handshake`]: the one-shot channel name wire format and the session
//!   phases that order the handshake before any traffic;
//! - [`teardown`]: what happens when the client's handle to the server
//!   process is released, on the panic path and on the normal path.
//!
//! The surrounding process work itself (reading the environment, spawning,
//! writing to the child's stdin, awaiting its exit status) is ordinary
//! unverified plumbing that consumes these decisions.
pub mod handshake;
pub mod role;
pub mod spawn;
pub mod teardown;
