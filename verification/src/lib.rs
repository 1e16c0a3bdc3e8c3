//! Access control and start-up provisioning for a URL redirection service.
//!
//! The crate holds the decisions of the service as verified functions on plain
//! values: the capability vector of a principal, the guard that authenticates a
//! request against a stored secret hash, the bounded-retry state machine that
//! brings the backing storage to a ready state, and the authorization rules of
//! the management endpoints. Talking to the database and to the network is left
//! to the program around it.

use vstd::prelude::*;

pub mod bootstrap;
pub mod config;
pub mod endpoint;
pub mod guard;
pub mod permission;
pub mod policy;
pub mod provision;
pub mod redirect;
pub mod reply;
pub mod secret;

verus! {

/// The greeting served at the root of the service.
pub open spec fn greeting() -> Seq<char> {
    "Hello, world!"@
}

/// Body of the landing route.
pub fn index() -> (text: &'static str)
    ensures
        text@ == greeting(),
{
    "Hello, world!"
}

} // verus!
