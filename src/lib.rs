//! A one-route HTTP greeter built on axum.
//!
//! The handler is in `greeter`, the model of a route table and what it
//! answers is in `routes`, and the router that axum serves is assembled in
//! `router` from steps whose effect on that model is proved.

use vstd::prelude::*;

pub mod greeter;
pub mod router;
pub mod routes;

verus! {

} // verus!
