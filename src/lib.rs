//! Open/closed status of a community space, published in the SpaceAPI schema.
//!
//! The server side holds one status record behind a guard that only a caller
//! presenting the configured admin credential may change; the client side
//! builds the requests against a server and reads its answers.
use vstd::prelude::*;

pub mod client;
pub mod clock;
pub mod config;
pub mod credential;
pub mod guard;
pub mod server;
pub mod status;

verus! {

} // verus!
