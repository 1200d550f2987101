//! Event/listener dispatch engine for an extensible chat-bot host.
//!
//! The engine routes incoming events to dynamically registered listeners in
//! priority order, honours interception as a cross-tier short-circuit, and
//! offers an ephemeral request/response subscription pattern on top of the
//! generic dispatch machinery.  Asynchronous execution, I/O and the plugin
//! ABI plumbing live outside this crate; here the scheduling and lifecycle
//! decisions are modelled as explicit state transitions and verified.

use vstd::prelude::*;

pub mod application;
pub mod event;
pub mod listener;
pub mod login;
pub mod subscribe;
pub mod transport;
pub mod worker;

verus! {

/// Entry point kept for producers that install the engine's receiving side;
/// the event stream itself is handed in by the host process.
pub fn app_receiver() {
}

} // verus!
