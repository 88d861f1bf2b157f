//! Session establishment and event dispatch for a messaging-service client.
//!
//! The heart of the crate is the authentication flow of [`auth`]: a state
//! machine that resumes a stored session token on the fast path, or drives
//! the interactive QR challenge/poll/confirm cycle, one event in and one
//! action out, until the session is authenticated or the flow has failed.
//! [`store`] gives the device identity and the session token their
//! serialized form, with the load-or-create and load rules around them;
//! [`engine`] broadcasts every decoded event to the registered modules of
//! [`handler`] in registration order; [`laws`] states and proves what holds
//! of whole runs of the flow. The surrounding runtime owns all I/O: it
//! performs each action the flow asks for and reports back what the
//! connection answered.

use vstd::prelude::*;

pub mod auth;
pub mod engine;
pub mod event;
pub mod handler;
pub mod laws;
pub mod store;

verus! {

/// Fixed delay, in seconds, between two polls of a pending QR challenge.
pub fn poll_delay_secs() -> (r: u64)
    ensures
        r == 5,
{
    5
}

} // verus!
