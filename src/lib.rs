//! A client-side WebSocket connection service: the lifecycle of one connection
//! handle, the mapping of transport status codes onto a typed status, and the
//! translation of transport events into application messages.
use vstd::prelude::*;

pub mod connection;
pub mod handle;
pub mod status;

verus! {

} // verus!
